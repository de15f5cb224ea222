use crate::tokens::{
    clone_tokens, extend, group_token_views, group_view, ident_view, punct_view, tokens_view,
    Delimiter, Token, TokenView,
};
use crate::widgets::{
    group_widget_views, if_branches_view, lemma_unfold_returned, lemma_unfold_widget,
    match_arms_view, ConditionalBranches, ConditionalBranchesView, ConditionalWidget,
    ConditionalWidgetView, Ident, IdentView, IfBranchView, MatchArmView, Properties, Property,
    PropertyType, PropertyTypeView, PropertyView, Widget, WidgetAttr, WidgetFunc, WidgetFuncView,
    WidgetTemplateAttr, WidgetView,
};
use crate::widgets::generate::{ident_token, push_group, push_ident, push_name, push_punct};
use crate::widgets::generate::assign::{call, no_tokens, spec_call};
use crate::widgets::parse::widget_func::path_span;
use vstd::prelude::*;

verus! {

/// The constructor call as code: the path with its arguments and the method
/// calls behind them; a path of one segment as it is; any other path with
/// `::default()` behind it.
pub open spec fn spec_func_tokens(f: WidgetFuncView) -> Seq<TokenView> {
    match f.args {
        Some(args) => spec_call(f.path.tokens, args, path_span(f.path)) + match f.method_chain {
            Some(chain) => seq![punct_view('.', false, 0)] + chain,
            None => no_tokens(),
        },
        None => if f.path.segments.len() == 1 {
            f.path.tokens
        } else {
            f.path.tokens + seq![
                punct_view(':', true, 0),
                punct_view(':', false, 0),
                ident_view("default"@, 0),
                group_view(Delimiter::Parenthesis, no_tokens(), 0),
            ]
        },
    }
}

/// `let name = &parent.name;`
pub open spec fn spec_template_child(name: IdentView, parent: IdentView) -> Seq<TokenView> {
    seq![
        ident_view("let"@, 0),
        ident_token(name),
        punct_view('=', false, 0),
        punct_view('&', false, 0),
        ident_token(parent),
        punct_view('.', false, 0),
        ident_token(name),
        punct_view(';', false, 0),
    ]
}

/// The statement that binds a widget's name: a template's child is taken
/// from its parent; a widget that stands for a local variable is bound
/// already; any other widget is built by its constructor call.
pub open spec fn spec_init_statement(w: WidgetView, parent: Option<IdentView>) -> Seq<TokenView> {
    if w.template_attr == WidgetTemplateAttr::TemplateChild {
        match parent {
            Some(p) => spec_template_child(w.name, p),
            None => no_tokens(),
        }
    } else if w.attr != WidgetAttr::Unset {
        no_tokens()
    } else {
        ((seq![ident_view("let"@, 0)] + match w.mutable {
            Some(s) => seq![ident_view("mut"@, s)],
            None => no_tokens(),
        }).push(ident_token(w.name)).push(punct_view('=', false, 0)) + spec_func_tokens(
            w.func,
        )).push(punct_view(';', false, 0))
    }
}

/// `let name = gtk::Stack::default();`
pub open spec fn spec_stack_statement(name: IdentView) -> Seq<TokenView> {
    seq![
        ident_view("let"@, 0),
        ident_token(name),
        punct_view('=', false, 0),
        ident_view("gtk"@, 0),
        punct_view(':', true, 0),
        punct_view(':', false, 0),
        ident_view("Stack"@, 0),
        punct_view(':', true, 0),
        punct_view(':', false, 0),
        ident_view("default"@, 0),
        group_view(Delimiter::Parenthesis, no_tokens(), 0),
        punct_view(';', false, 0),
    ]
}

impl WidgetFunc {
    /// The constructor call as code.
    pub fn func_token_stream(&self) -> (out: Vec<Token>)
        ensures
            tokens_view(out@) == spec_func_tokens(self@),
    {
        broadcast use group_token_views;

        match &self.args {
            Some(args) => {
                let mut out = call(clone_tokens(&self.path.tokens), clone_tokens(args), self.path.span());
                match &self.method_chain {
                    Some(chain) => {
                        push_punct(&mut out, '.', false, 0);
                        extend(&mut out, chain);
                    },
                    None => {},
                }
                proof {
                    assert(tokens_view(out@) =~= spec_func_tokens(self@));
                }
                out
            },
            None => {
                let mut out = clone_tokens(&self.path.tokens);
                if self.path.segments.len() != 1 {
                    push_punct(&mut out, ':', true, 0);
                    push_punct(&mut out, ':', false, 0);
                    push_ident(&mut out, "default", 0);
                    push_group(&mut out, Delimiter::Parenthesis, Vec::new(), 0);
                    proof {
                        assert(tokens_view(out@) =~= spec_func_tokens(self@));
                    }
                }
                out
            },
        }
    }
}

impl Widget {
    /// The statement that binds the widget's name.
    pub fn init_statement(&self, parent: Option<&Ident>) -> (out: Vec<Token>)
        ensures
            tokens_view(out@) == spec_init_statement(
                self@,
                match parent {
                    Some(p) => Some(p@),
                    None => None,
                },
            ),
    {
        broadcast use group_token_views;
        broadcast use group_widget_views;

        let mut out: Vec<Token> = Vec::new();
        if self.template_attr == WidgetTemplateAttr::TemplateChild {
            match parent {
                Some(p) => {
                    push_ident(&mut out, "let", 0);
                    push_name(&mut out, &self.name);
                    push_punct(&mut out, '=', false, 0);
                    push_punct(&mut out, '&', false, 0);
                    push_name(&mut out, p);
                    push_punct(&mut out, '.', false, 0);
                    push_name(&mut out, &self.name);
                    push_punct(&mut out, ';', false, 0);
                    proof {
                        assert(tokens_view(out@) =~= spec_template_child(self@.name, p@));
                    }
                },
                None => {},
            }
        } else if self.attr.is_local_attr() {
        } else {
            push_ident(&mut out, "let", 0);
            match self.mutable {
                Some(s) => {
                    push_ident(&mut out, "mut", s);
                },
                None => {},
            }
            push_name(&mut out, &self.name);
            push_punct(&mut out, '=', false, 0);
            let func = self.func.func_token_stream();
            extend(&mut out, &func);
            push_punct(&mut out, ';', false, 0);
            proof {
                assert(tokens_view(out@) =~= ((seq![ident_view("let"@, 0)] + match self@.mutable {
                    Some(s) => seq![ident_view("mut"@, s)],
                    None => no_tokens(),
                }).push(ident_token(self@.name)).push(punct_view('=', false, 0))
                    + spec_func_tokens(self@.func)).push(punct_view(';', false, 0)));
            }
        }
        out
    }
}

impl ConditionalWidget {
    /// The statement that builds the conditional widget.
    pub fn stack_statement(&self) -> (out: Vec<Token>)
        ensures
            tokens_view(out@) == spec_stack_statement(self@.name),
    {
        broadcast use group_token_views;
        broadcast use group_widget_views;

        let mut out: Vec<Token> = Vec::new();
        push_ident(&mut out, "let", 0);
        push_name(&mut out, &self.name);
        push_punct(&mut out, '=', false, 0);
        push_ident(&mut out, "gtk", 0);
        push_punct(&mut out, ':', true, 0);
        push_punct(&mut out, ':', false, 0);
        push_ident(&mut out, "Stack", 0);
        push_punct(&mut out, ':', true, 0);
        push_punct(&mut out, ':', false, 0);
        push_ident(&mut out, "default", 0);
        push_group(&mut out, Delimiter::Parenthesis, Vec::new(), 0);
        push_punct(&mut out, ';', false, 0);
        proof {
            assert(tokens_view(out@) =~= spec_stack_statement(self@.name));
        }
        out
    }
}

/// The statements that bind the names of a widget, which stands in `parent` where it has one.
#[verifier::opaque]
pub open spec fn spec_widget_init(w: WidgetView, parent: Option<IdentView>) -> Seq<TokenView>
    decreases w, 0nat,
{
    spec_init_statement(w, parent) + spec_properties_init(w.properties, 0, w.name) + match w.returned_widget {
        Some(r) => spec_properties_init(r.properties, 0, r.name),
        None => no_tokens(),
    }
}

/// The statements that bind the names of the properties from `from` on, in order.
#[verifier::opaque]
pub open spec fn spec_properties_init(props: Seq<PropertyView>, from: int, w_name: IdentView) -> Seq<
    TokenView,
>
    decreases props, props.len() - from,
{
    if 0 <= from < props.len() {
        spec_property_init(props[from], w_name) + spec_properties_init(props, from + 1, w_name)
    } else {
        no_tokens()
    }
}

/// The statements that bind the names of one property of the widget `w_name`.
#[verifier::opaque]
pub open spec fn spec_property_init(p: PropertyView, w_name: IdentView) -> Seq<TokenView>
    decreases p, 0nat,
{
    match p.ty {
        PropertyTypeView::Widget(w) => spec_widget_init(*w, Some(w_name)),
        PropertyTypeView::ConditionalWidget(c) => spec_conditional_init(c),
        _ => no_tokens(),
    }
}

/// The statements that bind the names of a conditional widget and of the widgets of its branches.
#[verifier::opaque]
pub open spec fn spec_conditional_init(c: ConditionalWidgetView) -> Seq<TokenView>
    decreases c, 0nat,
{
    spec_stack_statement(c.name) + match c.branches {
        ConditionalBranchesView::If(bs) => spec_branches_init(bs, 0, c.name),
        ConditionalBranchesView::Match(_, _, arms) => spec_arms_init(arms, 0, c.name),
    }
}

#[verifier::opaque]
pub open spec fn spec_branches_init(bs: Seq<IfBranchView>, from: int, c_name: IdentView) -> Seq<
    TokenView,
>
    decreases bs, bs.len() - from,
{
    if 0 <= from < bs.len() {
        spec_widget_init(bs[from].widget, Some(c_name)) + spec_branches_init(bs, from + 1, c_name)
    } else {
        no_tokens()
    }
}

#[verifier::opaque]
pub open spec fn spec_arms_init(arms: Seq<MatchArmView>, from: int, c_name: IdentView) -> Seq<
    TokenView,
>
    decreases arms, arms.len() - from,
{
    if 0 <= from < arms.len() {
        spec_widget_init(arms[from].widget, Some(c_name)) + spec_arms_init(arms, from + 1, c_name)
    } else {
        no_tokens()
    }
}

impl Widget {
    /// Appends the statements that bind the names of the widget to `stream`.
    pub fn init_stream(&self, stream: &mut Vec<Token>, parent: Option<&Ident>)
        ensures
            tokens_view(final(stream)@) == tokens_view(old(stream)@) + spec_widget_init(
                self@,
                match parent {
                    Some(p) => Some(p@),
                    None => None,
                },
            ),
        decreases self, 0nat,
    {
        proof {
            reveal(spec_widget_init);
            reveal(spec_properties_init);
            lemma_unfold_widget(*self);
        }
        let ghost start = tokens_view(stream@);
        let ghost parent_view = match parent {
            Some(p) => Some(p@),
            None => None,
        };
        let statement = self.init_statement(parent);
        extend(stream, &statement);
        let ghost first = tokens_view(stream@);
        self.properties.init_stream(stream, &self.name);
        let ghost second = tokens_view(stream@);
        match &self.returned_widget {
            Some(returned_widget) => {
                proof {
                    lemma_unfold_returned(*returned_widget);
                }
                returned_widget.properties.init_stream(stream, &returned_widget.name);
            },
            None => {},
        }
        proof {
            let head = spec_init_statement(self@, parent_view);
            let props = spec_properties_init(self@.properties, 0, self@.name);
            let returned = match self@.returned_widget {
                Some(r) => spec_properties_init(r.properties, 0, r.name),
                None => no_tokens(),
            };
            assert(first =~= start + head);
            assert(second == first + props);
            assert(tokens_view(stream@) =~= second + returned);
            assert(tokens_view(stream@) =~= start + (head + props + returned));
        }
    }
}

impl Properties {
    /// Appends the statements that bind the names of the properties, in order.
    pub fn init_stream(&self, stream: &mut Vec<Token>, w_name: &Ident)
        ensures
            tokens_view(final(stream)@) == tokens_view(old(stream)@) + spec_properties_init(
                self@,
                0,
                w_name@,
            ),
        decreases self, 1nat,
    {
        broadcast use group_widget_views;

        let ghost all = self@;
        let ghost start = tokens_view(stream@);
        let mut i: usize = 0;
        proof {
            assert(start =~= start + no_tokens());
        }
        while i < self.properties.len()
            invariant
                i <= self.properties.len(),
                all == self@,
                start == tokens_view(old(stream)@),
                tokens_view(stream@) + spec_properties_init(all, i as int, w_name@) == start
                    + spec_properties_init(all, 0, w_name@),
            decreases self.properties.len() - i,
        {
            proof {
                reveal(spec_properties_init);
                reveal(spec_property_init);
                assert(all[i as int] == self.properties@[i as int]@);
            }
            let ghost before = tokens_view(stream@);
            self.properties[i].init_stream(stream, w_name);
            proof {
                let one = spec_property_init(all[i as int], w_name@);
                let rest = spec_properties_init(all, i + 1, w_name@);
                assert(before + (one + rest) =~= (before + one) + rest);
            }
            i += 1;
        }
        proof {
            reveal(spec_properties_init);
            assert(tokens_view(stream@) + no_tokens() =~= tokens_view(stream@));
        }
    }
}

impl Property {
    /// Appends the statements that bind the names of the property.
    pub fn init_stream(&self, stream: &mut Vec<Token>, w_name: &Ident)
        ensures
            tokens_view(final(stream)@) == tokens_view(old(stream)@) + spec_property_init(
                self@,
                w_name@,
            ),
        decreases self, 0nat,
    {
        broadcast use group_widget_views;

        proof {
            reveal(spec_property_init);
            reveal(spec_widget_init);
            reveal(spec_conditional_init);
        }
        match &self.ty {
            PropertyType::Widget(widget) => {
                widget.init_stream(stream, Some(w_name));
            },
            PropertyType::ConditionalWidget(cond_widget) => {
                cond_widget.init_stream(stream);
            },
            _ => {
                proof {
                    assert(tokens_view(stream@) =~= tokens_view(stream@) + no_tokens());
                }
            },
        }
    }
}

impl ConditionalWidget {
    /// Appends the statements that bind the names of the conditional widget.
    pub fn init_stream(&self, stream: &mut Vec<Token>)
        ensures
            tokens_view(final(stream)@) == tokens_view(old(stream)@) + spec_conditional_init(self@),
        decreases self, 0nat,
    {
        broadcast use group_token_views;
        broadcast use group_widget_views;

        proof {
            reveal(spec_conditional_init);
        }
        let ghost start = tokens_view(stream@);
        let statement = self.stack_statement();
        extend(stream, &statement);
        let ghost head = tokens_view(stream@);
        match &self.branches {
            ConditionalBranches::If(if_branches) => {
                let ghost bs = if_branches_view(if_branches@);
                let mut i: usize = 0;
                proof {
                    assert(head =~= head + no_tokens());
                }
                while i < if_branches.len()
                    invariant
                        i <= if_branches.len(),
                        bs == if_branches_view(if_branches@),
                        self.branches matches ConditionalBranches::If(b) && b == *if_branches,
                        tokens_view(stream@) + spec_branches_init(bs, i as int, self.name@) == head
                            + spec_branches_init(bs, 0, self.name@),
                    decreases if_branches.len() - i,
                {
                    proof {
                        reveal(spec_branches_init);
                        reveal(spec_widget_init);
                        assert(bs[i as int] == if_branches@[i as int]@);
                    }
                    let ghost before = tokens_view(stream@);
                    if_branches[i].widget.init_stream(stream, Some(&self.name));
                    proof {
                        let one = spec_widget_init(bs[i as int].widget, Some(self.name@));
                        let rest = spec_branches_init(bs, i + 1, self.name@);
                        assert(before + (one + rest) =~= (before + one) + rest);
                    }
                    i += 1;
                }
                proof {
                    reveal(spec_branches_init);
                    assert(tokens_view(stream@) + no_tokens() =~= tokens_view(stream@));
                    assert(tokens_view(stream@) =~= start + spec_conditional_init(self@));
                }
            },
            ConditionalBranches::Match(_, _, match_arms) => {
                let ghost arms = match_arms_view(match_arms@);
                let mut i: usize = 0;
                proof {
                    assert(head =~= head + no_tokens());
                }
                while i < match_arms.len()
                    invariant
                        i <= match_arms.len(),
                        arms == match_arms_view(match_arms@),
                        self.branches matches ConditionalBranches::Match(_, _, a) && a
                            == *match_arms,
                        tokens_view(stream@) + spec_arms_init(arms, i as int, self.name@) == head
                            + spec_arms_init(arms, 0, self.name@),
                    decreases match_arms.len() - i,
                {
                    proof {
                        reveal(spec_arms_init);
                        reveal(spec_widget_init);
                        assert(arms[i as int] == match_arms@[i as int]@);
                    }
                    let ghost before = tokens_view(stream@);
                    match_arms[i].widget.init_stream(stream, Some(&self.name));
                    proof {
                        let one = spec_widget_init(arms[i as int].widget, Some(self.name@));
                        let rest = spec_arms_init(arms, i + 1, self.name@);
                        assert(before + (one + rest) =~= (before + one) + rest);
                    }
                    i += 1;
                }
                proof {
                    reveal(spec_arms_init);
                    assert(tokens_view(stream@) + no_tokens() =~= tokens_view(stream@));
                    assert(tokens_view(stream@) =~= start + spec_conditional_init(self@));
                }
            },
        }
    }
}

} // verus!
