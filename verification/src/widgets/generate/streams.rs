use crate::tokens::{
    group_token_views, group_view, ident_view, punct_view, tokens_view, Delimiter, Token, TokenView,
};
use crate::widgets::{lemma_unfold_returned, lemma_unfold_widget, Ident, IdentView};
use crate::widgets::generate::{ident_token, push_group, push_ident, push_name, push_punct};
use crate::widgets::generate::assign::{no_tokens, spec_properties_assign};
use crate::widgets::generate::conditional_init::spec_widget_conditional_init;
use crate::widgets::generate::connect::spec_widget_connect;
use crate::widgets::generate::errors::spec_widget_error;
use crate::widgets::generate::init::{spec_properties_init, spec_widget_init};
use crate::widgets::parse::view::{TopLevelWidget, TopLevelWidgetView, ViewWidgets};
use vstd::prelude::*;

verus! {

/// What the code around a view tells the view.
#[derive(Debug)]
pub struct TraitImplDetails {
    /// The visibility of the widgets struct.
    pub vis: Option<Vec<Token>>,
    /// The name of the model parameter.
    pub model_name: Ident,
    /// The name of the sender used in the init function.
    pub sender_name: Ident,
    /// The name of the root widget.
    pub root_name: Option<Ident>,
}

/// The code that a view is lowered to, by role.
#[derive(Debug, PartialEq, Eq)]
pub struct TokenStreams {
    /// The code that reports the errors of the view.
    pub error: Vec<Token>,
    /// The statements that build the widgets.
    pub init: Vec<Token>,
    /// The statements that assign the properties.
    pub assign: Vec<Token>,
    /// The statements that connect the signal handlers.
    pub connect: Vec<Token>,
}

pub struct TokenStreamsView {
    pub error: Seq<TokenView>,
    pub init: Seq<TokenView>,
    pub assign: Seq<TokenView>,
    pub connect: Seq<TokenView>,
}

impl View for TokenStreams {
    type V = TokenStreamsView;

    open spec fn view(&self) -> TokenStreamsView {
        TokenStreamsView {
            error: tokens_view(self.error@),
            init: tokens_view(self.init@),
            assign: tokens_view(self.assign@),
            connect: tokens_view(self.connect@),
        }
    }
}

/// What the code around a view is to the contracts.
pub struct TraitImplDetailsView {
    pub model_name: IdentView,
    pub root_name: Option<IdentView>,
}

impl View for TraitImplDetails {
    type V = TraitImplDetailsView;

    open spec fn view(&self) -> TraitImplDetailsView {
        TraitImplDetailsView {
            model_name: self.model_name@,
            root_name: match self.root_name {
                Some(name) => Some(name@),
                None => None,
            },
        }
    }
}

/// `let name = root.clone();`
pub open spec fn spec_root_binding(name: IdentView, root: IdentView) -> Seq<TokenView> {
    seq![
        ident_view("let"@, 0),
        ident_token(name),
        punct_view('=', false, 0),
        ident_token(root),
        punct_view('.', false, 0),
        ident_view("clone"@, 0),
        group_view(Delimiter::Parenthesis, no_tokens(), 0),
        punct_view(';', false, 0),
    ]
}

/// Whether a top-level widget is the root that the code around the view has
/// built already: the view does not stand alone, the widget is marked as
/// root, and the root has a name.
pub open spec fn is_given_root(w: TopLevelWidgetView, details: TraitImplDetailsView, standalone_view: bool) -> bool {
    !standalone_view && w.root_attr.is_some() && details.root_name.is_some()
}

/// The statements that bind the names of a top-level widget. The root that
/// was built already is bound to a clone of it, and only what stands in it
/// is built.
pub open spec fn spec_top_level_init(w: TopLevelWidgetView, details: TraitImplDetailsView, standalone_view: bool) -> Seq<
    TokenView,
> {
    if is_given_root(w, details, standalone_view) {
        spec_root_binding(w.inner.name, details.root_name->0) + spec_properties_init(
            w.inner.properties,
            0,
            w.inner.name,
        ) + match w.inner.returned_widget {
            Some(r) => spec_properties_init(r.properties, 0, r.name),
            None => no_tokens(),
        }
    } else {
        spec_widget_init(w.inner, None)
    }
}

/// `s` with the code of one top-level widget added to each stream. The
/// assignments of the widget's properties are followed by what its
/// properties do when their conditional branch is chosen.
pub open spec fn with_widget(
    s: TokenStreamsView,
    w: TopLevelWidgetView,
    details: TraitImplDetailsView,
    standalone_view: bool,
) -> TokenStreamsView {
    TokenStreamsView {
        error: s.error + spec_widget_error(w.inner),
        init: s.init + spec_top_level_init(w, details, standalone_view),
        assign: s.assign + spec_properties_assign(w.inner.properties, 0, w.inner.name, false)
            + spec_widget_conditional_init(w.inner, details.model_name, false),
        connect: s.connect + spec_widget_connect(w.inner),
    }
}

/// `s` with the code of the top-level widgets from `from` on added, in
/// order.
pub open spec fn with_widgets(
    s: TokenStreamsView,
    ws: Seq<TopLevelWidgetView>,
    from: int,
    details: TraitImplDetailsView,
    standalone_view: bool,
) -> TokenStreamsView
    decreases ws.len() - from,
{
    if 0 <= from < ws.len() {
        with_widgets(
            with_widget(s, ws[from], details, standalone_view),
            ws,
            from + 1,
            details,
            standalone_view,
        )
    } else {
        s
    }
}

pub open spec fn no_streams() -> TokenStreamsView {
    TokenStreamsView {
        error: no_tokens(),
        init: no_tokens(),
        assign: no_tokens(),
        connect: no_tokens(),
    }
}

impl TopLevelWidget {
    /// Appends the statements that bind the names of the widget.
    pub fn init_stream(&self, stream: &mut Vec<Token>, details: &TraitImplDetails, standalone_view: bool)
        ensures
            tokens_view(final(stream)@) == tokens_view(old(stream)@) + spec_top_level_init(
                self@,
                details@,
                standalone_view,
            ),
    {
        broadcast use group_token_views;

        let ghost start = tokens_view(stream@);
        let given = if !standalone_view && self.root_attr.is_some() {
            details.root_name.as_ref()
        } else {
            None
        };
        match given {
            Some(root) => {
                proof {
                    lemma_unfold_widget(self.inner);
                }
                push_ident(stream, "let", 0);
                push_name(stream, &self.inner.name);
                push_punct(stream, '=', false, 0);
                push_name(stream, root);
                push_punct(stream, '.', false, 0);
                push_ident(stream, "clone", 0);
                push_group(stream, Delimiter::Parenthesis, Vec::new(), 0);
                push_punct(stream, ';', false, 0);
                let ghost bound = tokens_view(stream@);
                proof {
                    assert(bound =~= start + spec_root_binding(self@.inner.name, root@));
                }
                self.inner.properties.init_stream(stream, &self.inner.name);
                let ghost built = tokens_view(stream@);
                match &self.inner.returned_widget {
                    Some(returned_widget) => {
                        proof {
                            lemma_unfold_returned(*returned_widget);
                        }
                        returned_widget.properties.init_stream(stream, &returned_widget.name);
                    },
                    None => {},
                }
                proof {
                    let binding = spec_root_binding(self@.inner.name, root@);
                    let props = spec_properties_init(self@.inner.properties, 0, self@.inner.name);
                    let returned = match self@.inner.returned_widget {
                        Some(r) => spec_properties_init(r.properties, 0, r.name),
                        None => no_tokens(),
                    };
                    assert(built == bound + props);
                    assert(tokens_view(stream@) =~= built + returned);
                    assert(tokens_view(stream@) =~= start + (binding + props + returned));
                }
            },
            None => {
                self.inner.init_stream(stream, None);
            },
        }
    }

    /// Adds the code of the widget to each stream.
    pub fn generate_streams(
        &self,
        streams: &mut TokenStreams,
        details: &TraitImplDetails,
        standalone_view: bool,
    )
        ensures
            final(streams)@ == with_widget(old(streams)@, self@, details@, standalone_view),
    {
        let ghost before = streams@;
        let model_name = &details.model_name;
        self.init_stream(&mut streams.init, details, standalone_view);
        self.inner.error_stream(&mut streams.error);
        self.inner.start_assign_stream(&mut streams.assign);
        let ghost assigned = tokens_view(streams.assign@);
        self.inner.init_conditional_init_stream(&mut streams.assign, model_name);
        self.inner.connect_stream(&mut streams.connect);
        proof {
            assert(tokens_view(streams.assign@) =~= before.assign + spec_properties_assign(
                self@.inner.properties,
                0,
                self@.inner.name,
                false,
            ) + spec_widget_conditional_init(self@.inner, model_name@, false));
        }
    }
}

impl ViewWidgets {
    /// Lowers the view to code. The streams hold the code of the top-level
    /// widgets in the order in which the widgets were declared.
    pub fn generate_streams(&self, trait_impl_details: &TraitImplDetails, standalone_view: bool) -> (streams: TokenStreams)
        ensures
            streams@ == with_widgets(
                no_streams(),
                self@.top_level_widgets,
                0,
                trait_impl_details@,
                standalone_view,
            ),
    {
        broadcast use group_token_views;

        let ghost ws = self@.top_level_widgets;
        let ghost details = trait_impl_details@;
        let mut streams = TokenStreams {
            error: Vec::new(),
            init: Vec::new(),
            assign: Vec::new(),
            connect: Vec::new(),
        };
        let mut i: usize = 0;
        while i < self.top_level_widgets.len()
            invariant
                i <= self.top_level_widgets.len(),
                ws == self@.top_level_widgets,
                details == trait_impl_details@,
                with_widgets(streams@, ws, i as int, details, standalone_view) == with_widgets(
                    no_streams(),
                    ws,
                    0,
                    details,
                    standalone_view,
                ),
            decreases self.top_level_widgets.len() - i,
        {
            proof {
                assert(ws[i as int] == self.top_level_widgets@[i as int]@);
            }
            self.top_level_widgets[i].generate_streams(
                &mut streams,
                trait_impl_details,
                standalone_view,
            );
            i += 1;
        }
        streams
    }
}

} // verus!
