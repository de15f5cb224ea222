use crate::error::{ErrorKind, ParseError};
use crate::host::{ImplItem, ImplItemType, ItemImpl, SelfType};
use crate::syntax::names_view;
use crate::tokens::{
    clone_tokens, group_token_views, group_view, ident_view, lemma_view_concat, punct_view, slice,
    tokens_view, Delimiter, Token, TokenKind, TokenView,
};
use crate::widgets::{opt_tokens_view, Path, PathView};
use crate::widgets::generate::{push_group, push_ident, push_punct};
use crate::widgets::parse::widget_func::path_span;
use vstd::prelude::*;

verus! {

/// `name` with `Widgets` behind it.
pub open spec fn widgets_name(name: Seq<char>) -> Seq<char> {
    name + "Widgets"@
}

/// The names of a path's segments with `Widgets` behind the last.
pub open spec fn widgets_segments(segments: Seq<Seq<char>>) -> Seq<Seq<char>> {
    if segments.len() > 0 {
        segments.drop_last().push(widgets_name(segments.last()))
    } else {
        segments
    }
}

/// The path of the widgets type that belongs to a type's path: the last
/// segment loses its generic arguments and gets `Widgets` behind its name.
pub open spec fn spec_widgets_path(p: PathView) -> PathView {
    if p.idents.len() > 0 && p.idents.last() < p.tokens.len() && p.tokens[p.idents.last() as int].kind is Ident {
        let i = p.idents.last() as int;
        PathView {
            tokens: p.tokens.subrange(0, i).push(
                ident_view(widgets_name(p.tokens[i].kind->Ident_0), p.tokens[i].span),
            ),
            segments: widgets_segments(p.segments),
            idents: p.idents,
        }
    } else {
        p
    }
}

fn clone_places(places: &Vec<usize>) -> (out: Vec<usize>)
    ensures
        out@ == places@,
{
    let mut out: Vec<usize> = Vec::new();
    let mut i: usize = 0;
    while i < places.len()
        invariant
            i <= places.len(),
            out@ == places@.take(i as int),
        decreases places.len() - i,
    {
        out.push(places[i]);
        proof {
            assert(places@.take(i + 1) =~= places@.take(i as int).push(places@[i as int]));
        }
        i += 1;
    }
    proof {
        assert(places@.take(places.len() as int) =~= places@);
    }
    out
}

fn widgets_names(segments: &Vec<String>) -> (out: Vec<String>)
    ensures
        names_view(out@) == widgets_segments(names_view(segments@)),
{
    let mut out: Vec<String> = Vec::new();
    let n = segments.len();
    let mut i: usize = 0;
    while i < n
        invariant
            i <= n,
            n == segments.len(),
            out@.len() == i,
            forall|j: int|
                0 <= j < i ==> (#[trigger] out@[j])@ == if j == n - 1 {
                    widgets_name(segments@[j]@)
                } else {
                    segments@[j]@
                },
        decreases n - i,
    {
        let mut name = segments[i].clone();
        if i == n - 1 {
            name.append("Widgets");
        }
        out.push(name);
        i += 1;
    }
    proof {
        assert(names_view(out@) =~= widgets_segments(names_view(segments@)));
    }
    out
}

/// The path of the widgets type that belongs to the path of `Self`, and the
/// item `type Widgets = path;` that names it in the impl.
pub fn self_ty_to_widgets_ty(self_ty: &Path) -> (r: (Path, ImplItem))
    ensures
        r.0@ == spec_widgets_path(self_ty@),
        r.1 matches ImplItem::Type(ty) && ty.ident@ == "Widgets"@ && tokens_view(ty.ty@)
            == spec_widgets_path(self_ty@).tokens && ty.span == path_span(
            spec_widgets_path(self_ty@),
        ),
{
    broadcast use group_token_views;

    // Retrieve path, remove any generics and append "Widgets" to the last segment.
    let n = self_ty.idents.len();
    let last = if n > 0 && self_ty.idents[n - 1] < self_ty.tokens.len() {
        Some(self_ty.idents[n - 1])
    } else {
        None
    };
    let renamed = match last {
        Some(i) => match &self_ty.tokens[i].kind {
            TokenKind::Ident(name) => {
                let mut widgets = name.clone();
                widgets.append("Widgets");
                let mut tokens = slice(&self_ty.tokens, 0, i);
                push_ident(&mut tokens, widgets.as_str(), self_ty.tokens[i].span);
                Some(tokens)
            },
            _ => None,
        },
        None => None,
    };
    let path = match renamed {
        Some(tokens) => Path {
            tokens,
            segments: widgets_names(&self_ty.segments),
            idents: clone_places(&self_ty.idents),
        },
        None => Path {
            tokens: clone_tokens(&self_ty.tokens),
            segments: clone_names(&self_ty.segments),
            idents: clone_places(&self_ty.idents),
        },
    };
    // Generate impl item for the trait impl
    let impl_item = ImplItem::Type(
        ImplItemType {
            ident: String::from_str("Widgets"),
            ty: clone_tokens(&path.tokens),
            span: path.span(),
        },
    );
    (path, impl_item)
}

fn clone_names(names: &Vec<String>) -> (out: Vec<String>)
    ensures
        names_view(out@) == names_view(names@),
{
    let mut out: Vec<String> = Vec::new();
    let mut i: usize = 0;
    while i < names.len()
        invariant
            i <= names.len(),
            out@.len() == i,
            forall|j: int| 0 <= j < i ==> (#[trigger] out@[j])@ == names@[j]@,
        decreases names.len() - i,
    {
        out.push(names[i].clone());
        i += 1;
    }
    proof {
        assert(names_view(out@) =~= names_view(names@));
    }
    out
}

/// The span that a missing widgets type is blamed on: the first item of the
/// impl, or the type of `Self` where the impl is empty.
pub open spec fn blame_span(component_impl: ItemImpl) -> usize {
    if component_impl.items@.len() > 0 {
        component_impl.items@[0].spec_span()
    } else {
        match component_impl.self_ty {
            SelfType::Path(p) => path_span(p@),
            SelfType::Other(s) => s,
        }
    }
}

/// The type of the widgets: the one that was named; else the one that
/// belongs to the path of `Self`, which is then named in the impl by a new
/// item at its end; else none, which is an error.
pub fn generate_widgets_type(
    widgets_ty: Option<Vec<Token>>,
    component_impl: &mut ItemImpl,
    errors: &mut Vec<ParseError>,
) -> (r: Option<Vec<Token>>)
    ensures
        final(component_impl).self_ty == old(component_impl).self_ty,
        match widgets_ty {
            Some(ty) => r == Some(ty) && final(component_impl).items@ == old(
                component_impl,
            ).items@ && final(errors)@ == old(errors)@,
            None => match old(component_impl).self_ty {
                SelfType::Path(self_ty) => {
                    &&& opt_tokens_view(r) == Some(spec_widgets_path(self_ty@).tokens)
                    &&& final(errors)@ == old(errors)@
                    &&& final(component_impl).items@.len() == old(component_impl).items@.len() + 1
                    &&& final(component_impl).items@.drop_last() == old(component_impl).items@
                    &&& final(component_impl).items@.last() matches ImplItem::Type(ty) && ty.ident@
                        == "Widgets"@ && tokens_view(ty.ty@) == spec_widgets_path(self_ty@).tokens
                },
                SelfType::Other(_) => {
                    &&& r.is_none()
                    &&& final(component_impl).items@ == old(component_impl).items@
                    &&& final(errors)@ == old(errors)@.push(
                        ParseError {
                            kind: ErrorKind::WidgetsType,
                            span: blame_span(*old(component_impl)),
                        },
                    )
                },
            },
        },
{
    // Use the widget type if used.
    if let Some(ty) = widgets_ty {
        return Some(ty);
    }
    // Try to generate the type from the self type name.
    let generated = match &component_impl.self_ty {
        SelfType::Path(self_ty) => Some(self_ty_to_widgets_ty(self_ty)),
        SelfType::Other(_) => None,
    };
    match generated {
        Some((path, impl_item)) => {
            let ghost before = component_impl.items@;
            component_impl.items.push(impl_item);
            proof {
                assert(component_impl.items@.drop_last() =~= before);
            }
            Some(path.tokens)
        },
        None => {
            // Error: No Widget type found or generated.
            let span = if component_impl.items.len() > 0 {
                component_impl.items[0].span()
            } else {
                match &component_impl.self_ty {
                    SelfType::Path(p) => p.span(),
                    SelfType::Other(s) => *s,
                }
            };
            errors.push(ParseError::new(ErrorKind::WidgetsType, span));
            None
        },
    }
}

/// `(pattern) => { body }`
pub open spec fn macro_arm(pattern: Seq<TokenView>, body: Seq<TokenView>) -> Seq<TokenView> {
    seq![
        group_view(Delimiter::Parenthesis, pattern, 0),
        punct_view('=', true, 0),
        punct_view('>', false, 0),
        group_view(Delimiter::Brace, body, 0),
    ]
}

/// `macro_rules! name { arms }`
pub open spec fn macro_rules(name: Seq<char>, arms: Seq<TokenView>) -> Seq<TokenView> {
    seq![
        ident_view("macro_rules"@, 0),
        punct_view('!', false, 0),
        ident_view(name, 0),
        group_view(Delimiter::Brace, arms, 0),
    ]
}

/// `$name:tt`
pub open spec fn tt_fragment(name: Seq<char>) -> Seq<TokenView> {
    seq![
        punct_view('$', false, 0),
        ident_view(name, 0),
        punct_view(':', false, 0),
        ident_view("tt"@, 0),
    ]
}

pub open spec fn semicolon() -> Seq<TokenView> {
    seq![punct_view(';', false, 0)]
}

/// The macros that stand in for `view_output!` and `view!` where the impl
/// could not be expanded: `view_output!()` is `()`, and `view!` takes any
/// tokens and is nothing.
pub open spec fn fallback_macros() -> Seq<TokenView> {
    macro_rules(
        "view_output"@,
        macro_arm(
            Seq::empty(),
            seq![group_view(Delimiter::Parenthesis, Seq::empty(), 0)],
        ) + semicolon(),
    ) + macro_rules(
        "view"@,
        macro_arm(Seq::empty(), Seq::empty()) + semicolon() + macro_arm(
            tt_fragment("tt"@),
            Seq::empty(),
        ) + semicolon() + macro_arm(
            tt_fragment("tt"@) + seq![
                punct_view('$', false, 0),
                group_view(Delimiter::Parenthesis, tt_fragment("y"@), 0),
                punct_view('+', false, 0),
            ],
            Seq::empty(),
        ),
    )
}

fn push_arm(out: &mut Vec<Token>, pattern: Vec<Token>, body: Vec<Token>)
    ensures
        tokens_view(final(out)@) == tokens_view(old(out)@) + macro_arm(
            tokens_view(pattern@),
            tokens_view(body@),
        ),
{
    push_group(out, Delimiter::Parenthesis, pattern, 0);
    push_punct(out, '=', true, 0);
    push_punct(out, '>', false, 0);
    push_group(out, Delimiter::Brace, body, 0);
    proof {
        assert(tokens_view(out@) =~= tokens_view(old(out)@) + macro_arm(
            tokens_view(pattern@),
            tokens_view(body@),
        ));
    }
}

fn push_macro_rules(out: &mut Vec<Token>, name: &str, arms: Vec<Token>)
    ensures
        tokens_view(final(out)@) == tokens_view(old(out)@) + macro_rules(
            name@,
            tokens_view(arms@),
        ),
{
    push_ident(out, "macro_rules", 0);
    push_punct(out, '!', false, 0);
    push_ident(out, name, 0);
    push_group(out, Delimiter::Brace, arms, 0);
    proof {
        assert(tokens_view(out@) =~= tokens_view(old(out)@) + macro_rules(
            name@,
            tokens_view(arms@),
        ));
    }
}

fn push_tt(out: &mut Vec<Token>, name: &str)
    ensures
        tokens_view(final(out)@) == tokens_view(old(out)@) + tt_fragment(name@),
{
    push_punct(out, '$', false, 0);
    push_ident(out, name, 0);
    push_punct(out, ':', false, 0);
    push_ident(out, "tt", 0);
    proof {
        assert(tokens_view(out@) =~= tokens_view(old(out)@) + tt_fragment(name@));
    }
}

/// What an impl that could not be expanded becomes: the macros that stand in
/// for `view_output!` and `view!`, then the impl as it was written.
pub fn item_impl_error(original_input: Vec<Token>) -> (output: Vec<Token>)
    ensures
        tokens_view(output@) == fallback_macros() + tokens_view(original_input@),
{
    broadcast use group_token_views;

    let mut unit: Vec<Token> = Vec::new();
    push_group(&mut unit, Delimiter::Parenthesis, Vec::new(), 0);
    let mut output_arms: Vec<Token> = Vec::new();
    push_arm(&mut output_arms, Vec::new(), unit);
    push_punct(&mut output_arms, ';', false, 0);
    proof {
        assert(tokens_view(output_arms@) =~= macro_arm(
            Seq::empty(),
            seq![group_view(Delimiter::Parenthesis, Seq::empty(), 0)],
        ) + semicolon());
    }
    let mut one: Vec<Token> = Vec::new();
    push_tt(&mut one, "tt");
    let mut repeated: Vec<Token> = Vec::new();
    push_tt(&mut repeated, "y");
    let mut many: Vec<Token> = Vec::new();
    push_tt(&mut many, "tt");
    push_punct(&mut many, '$', false, 0);
    push_group(&mut many, Delimiter::Parenthesis, repeated, 0);
    push_punct(&mut many, '+', false, 0);
    proof {
        assert(tokens_view(one@) =~= tt_fragment("tt"@));
        assert(tokens_view(many@) =~= tt_fragment("tt"@) + seq![
            punct_view('$', false, 0),
            group_view(Delimiter::Parenthesis, tt_fragment("y"@), 0),
            punct_view('+', false, 0),
        ]);
    }
    let mut view_arms: Vec<Token> = Vec::new();
    push_arm(&mut view_arms, Vec::new(), Vec::new());
    push_punct(&mut view_arms, ';', false, 0);
    push_arm(&mut view_arms, one, Vec::new());
    push_punct(&mut view_arms, ';', false, 0);
    push_arm(&mut view_arms, many, Vec::new());
    proof {
        assert(tokens_view(view_arms@) =~= macro_arm(Seq::empty(), Seq::empty()) + semicolon()
            + macro_arm(tt_fragment("tt"@), Seq::empty()) + semicolon() + macro_arm(
            tt_fragment("tt"@) + seq![
                punct_view('$', false, 0),
                group_view(Delimiter::Parenthesis, tt_fragment("y"@), 0),
                punct_view('+', false, 0),
            ],
            Seq::empty(),
        ));
    }
    let mut output: Vec<Token> = Vec::new();
    push_macro_rules(&mut output, "view_output", output_arms);
    push_macro_rules(&mut output, "view", view_arms);
    proof {
        assert(tokens_view(output@) =~= fallback_macros());
    }
    let mut input = original_input;
    let ghost before = output@;
    let ghost added = input@;
    output.append(&mut input);
    proof {
        lemma_view_concat(before, added);
    }
    output
}

} // verus!
