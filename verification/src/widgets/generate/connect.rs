use crate::tokens::{
    clone_tokens, extend, group_token_views, punct_view, tokens_view, Token, TokenView,
};
use crate::widgets::{
    group_widget_views, if_branches_view, lemma_unfold_returned, lemma_unfold_widget,
    match_arms_view, ConditionalBranches, ConditionalBranchesView, ConditionalWidget,
    ConditionalWidgetView, Ident, IdentView, IfBranchView, MatchArmView, Properties, Property,
    PropertyName, PropertyNameView, PropertyType, PropertyTypeView, PropertyView, SignalHandler,
    SignalHandlerView, Widget, WidgetView,
};
use crate::widgets::generate::push_punct;
use crate::widgets::generate::assign::{
    call, extra_args, no_tokens, spec_assign_fn, spec_call, spec_extra_args, spec_name_span,
};
use vstd::prelude::*;

verus! {

/// The statement that connects a signal handler: the method of the
/// property's name is called on the widget with the handler and, behind it,
/// the arguments in square brackets.
pub open spec fn spec_connect_statement(h: SignalHandlerView, p_name: PropertyNameView, w_name: IdentView) -> Seq<
    TokenView,
> {
    let span = spec_name_span(p_name);
    spec_call(spec_assign_fn(p_name, w_name), h.handler + spec_extra_args(h.args), span).push(
        punct_view(';', false, span),
    )
}

impl SignalHandler {
    /// The statement that connects the signal handler.
    pub fn connect_statement(&self, p_name: &PropertyName, w_name: &Ident) -> (out: Vec<Token>)
        ensures
            tokens_view(out@) == spec_connect_statement(self@, p_name@, w_name@),
    {
        broadcast use group_token_views;

        let function = p_name.assign_fn_stream(w_name);
        let span = p_name.span();
        let args = extra_args(&self.args);
        let mut arguments = clone_tokens(&self.handler);
        extend(&mut arguments, &args);
        let mut out = call(function, arguments, span);
        push_punct(&mut out, ';', false, span);
        out
    }
}

/// The statements that connect the signal handlers of a widget.
#[verifier::opaque]
pub open spec fn spec_widget_connect(w: WidgetView) -> Seq<TokenView>
    decreases w, 0nat,
{
    spec_properties_connect(w.properties, 0, w.name) + match w.returned_widget {
        Some(r) => spec_properties_connect(r.properties, 0, r.name),
        None => no_tokens(),
    }
}

/// The statements that connect the signal handlers of the properties from `from` on, in order.
#[verifier::opaque]
pub open spec fn spec_properties_connect(props: Seq<PropertyView>, from: int, w_name: IdentView) -> Seq<
    TokenView,
>
    decreases props, props.len() - from,
{
    if 0 <= from < props.len() {
        spec_property_connect(props[from], w_name) + spec_properties_connect(props, from + 1, w_name)
    } else {
        no_tokens()
    }
}

/// The statements that connect the signal handlers of one property of the widget `w_name`.
#[verifier::opaque]
pub open spec fn spec_property_connect(p: PropertyView, w_name: IdentView) -> Seq<TokenView>
    decreases p, 0nat,
{
    match p.ty {
        PropertyTypeView::Widget(w) => spec_widget_connect(*w),
        PropertyTypeView::ConditionalWidget(c) => spec_conditional_connect(c),
        PropertyTypeView::SignalHandler(h) => spec_connect_statement(h, p.name, w_name),
        _ => no_tokens(),
    }
}

/// The statements that connect the signal handlers of a conditional widget and of the widgets of its branches.
#[verifier::opaque]
pub open spec fn spec_conditional_connect(c: ConditionalWidgetView) -> Seq<TokenView>
    decreases c, 0nat,
{
    match c.branches {
        ConditionalBranchesView::If(bs) => spec_branches_connect(bs, 0),
        ConditionalBranchesView::Match(_, _, arms) => spec_arms_connect(arms, 0),
    }
}

#[verifier::opaque]
pub open spec fn spec_branches_connect(bs: Seq<IfBranchView>, from: int) -> Seq<TokenView>
    decreases bs, bs.len() - from,
{
    if 0 <= from < bs.len() {
        spec_widget_connect(bs[from].widget) + spec_branches_connect(bs, from + 1)
    } else {
        no_tokens()
    }
}

#[verifier::opaque]
pub open spec fn spec_arms_connect(arms: Seq<MatchArmView>, from: int) -> Seq<TokenView>
    decreases arms, arms.len() - from,
{
    if 0 <= from < arms.len() {
        spec_widget_connect(arms[from].widget) + spec_arms_connect(arms, from + 1)
    } else {
        no_tokens()
    }
}

impl Widget {
    /// Appends the statements that connect the signal handlers of the widget to `stream`.
    pub fn connect_stream(&self, stream: &mut Vec<Token>)
        ensures
            tokens_view(final(stream)@) == tokens_view(old(stream)@) + spec_widget_connect(self@),
        decreases self, 0nat,
    {
        proof {
            reveal(spec_widget_connect);
            reveal(spec_properties_connect);
            lemma_unfold_widget(*self);
        }
        let ghost start = tokens_view(stream@);
        self.properties.connect_stream(stream, &self.name);
        let ghost second = tokens_view(stream@);
        match &self.returned_widget {
            Some(returned_widget) => {
                proof {
                    lemma_unfold_returned(*returned_widget);
                }
                returned_widget.properties.connect_stream(stream, &returned_widget.name);
            },
            None => {},
        }
        proof {
            let props = spec_properties_connect(self@.properties, 0, self@.name);
            let returned = match self@.returned_widget {
                Some(r) => spec_properties_connect(r.properties, 0, r.name),
                None => no_tokens(),
            };
            assert(second == start + props);
            assert(tokens_view(stream@) =~= second + returned);
            assert(tokens_view(stream@) =~= start + (props + returned));
        }
    }
}

impl Properties {
    /// Appends the statements that connect the signal handlers of the properties, in order.
    pub fn connect_stream(&self, stream: &mut Vec<Token>, w_name: &Ident)
        ensures
            tokens_view(final(stream)@) == tokens_view(old(stream)@) + spec_properties_connect(
                self@,
                0,
                w_name@,
            ),
        decreases self, 1nat,
    {
        broadcast use group_widget_views;

        let ghost all = self@;
        let ghost start = tokens_view(stream@);
        let mut i: usize = 0;
        proof {
            assert(start =~= start + no_tokens());
        }
        while i < self.properties.len()
            invariant
                i <= self.properties.len(),
                all == self@,
                start == tokens_view(old(stream)@),
                tokens_view(stream@) + spec_properties_connect(all, i as int, w_name@) == start
                    + spec_properties_connect(all, 0, w_name@),
            decreases self.properties.len() - i,
        {
            proof {
                reveal(spec_properties_connect);
                reveal(spec_property_connect);
                assert(all[i as int] == self.properties@[i as int]@);
            }
            let ghost before = tokens_view(stream@);
            self.properties[i].connect_stream(stream, w_name);
            proof {
                let one = spec_property_connect(all[i as int], w_name@);
                let rest = spec_properties_connect(all, i + 1, w_name@);
                assert(before + (one + rest) =~= (before + one) + rest);
            }
            i += 1;
        }
        proof {
            reveal(spec_properties_connect);
            assert(tokens_view(stream@) + no_tokens() =~= tokens_view(stream@));
        }
    }
}

impl Property {
    /// Appends the statements that connect the signal handlers of the property.
    pub fn connect_stream(&self, stream: &mut Vec<Token>, w_name: &Ident)
        ensures
            tokens_view(final(stream)@) == tokens_view(old(stream)@) + spec_property_connect(
                self@,
                w_name@,
            ),
        decreases self, 0nat,
    {
        broadcast use group_widget_views;

        proof {
            reveal(spec_property_connect);
            reveal(spec_widget_connect);
            reveal(spec_conditional_connect);
        }
        match &self.ty {
            PropertyType::Widget(widget) => {
                widget.connect_stream(stream);
            },
            PropertyType::ConditionalWidget(cond_widget) => {
                cond_widget.connect_stream(stream);
            },
            PropertyType::SignalHandler(handler) => {
                let statement = handler.connect_statement(&self.name, w_name);
                extend(stream, &statement);
            },
            _ => {
                proof {
                    assert(tokens_view(stream@) =~= tokens_view(stream@) + no_tokens());
                }
            },
        }
    }
}

impl ConditionalWidget {
    /// Appends the statements that connect the signal handlers of the conditional widget.
    pub fn connect_stream(&self, stream: &mut Vec<Token>)
        ensures
            tokens_view(final(stream)@) == tokens_view(old(stream)@) + spec_conditional_connect(self@),
        decreases self, 0nat,
    {
        broadcast use group_token_views;
        broadcast use group_widget_views;

        proof {
            reveal(spec_conditional_connect);
        }
        let ghost start = tokens_view(stream@);
        let ghost head = tokens_view(stream@);
        match &self.branches {
            ConditionalBranches::If(if_branches) => {
                let ghost bs = if_branches_view(if_branches@);
                let mut i: usize = 0;
                proof {
                    assert(head =~= head + no_tokens());
                }
                while i < if_branches.len()
                    invariant
                        i <= if_branches.len(),
                        bs == if_branches_view(if_branches@),
                        self.branches matches ConditionalBranches::If(b) && b == *if_branches,
                        tokens_view(stream@) + spec_branches_connect(bs, i as int) == head
                            + spec_branches_connect(bs, 0),
                    decreases if_branches.len() - i,
                {
                    proof {
                        reveal(spec_branches_connect);
                        reveal(spec_widget_connect);
                        assert(bs[i as int] == if_branches@[i as int]@);
                    }
                    let ghost before = tokens_view(stream@);
                    if_branches[i].widget.connect_stream(stream);
                    proof {
                        let one = spec_widget_connect(bs[i as int].widget);
                        let rest = spec_branches_connect(bs, i + 1);
                        assert(before + (one + rest) =~= (before + one) + rest);
                    }
                    i += 1;
                }
                proof {
                    reveal(spec_branches_connect);
                    assert(tokens_view(stream@) + no_tokens() =~= tokens_view(stream@));
                    assert(tokens_view(stream@) =~= start + spec_conditional_connect(self@));
                }
            },
            ConditionalBranches::Match(_, _, match_arms) => {
                let ghost arms = match_arms_view(match_arms@);
                let mut i: usize = 0;
                proof {
                    assert(head =~= head + no_tokens());
                }
                while i < match_arms.len()
                    invariant
                        i <= match_arms.len(),
                        arms == match_arms_view(match_arms@),
                        self.branches matches ConditionalBranches::Match(_, _, a) && a
                            == *match_arms,
                        tokens_view(stream@) + spec_arms_connect(arms, i as int) == head
                            + spec_arms_connect(arms, 0),
                    decreases match_arms.len() - i,
                {
                    proof {
                        reveal(spec_arms_connect);
                        reveal(spec_widget_connect);
                        assert(arms[i as int] == match_arms@[i as int]@);
                    }
                    let ghost before = tokens_view(stream@);
                    match_arms[i].widget.connect_stream(stream);
                    proof {
                        let one = spec_widget_connect(arms[i as int].widget);
                        let rest = spec_arms_connect(arms, i + 1);
                        assert(before + (one + rest) =~= (before + one) + rest);
                    }
                    i += 1;
                }
                proof {
                    reveal(spec_arms_connect);
                    assert(tokens_view(stream@) + no_tokens() =~= tokens_view(stream@));
                    assert(tokens_view(stream@) =~= start + spec_conditional_connect(self@));
                }
            },
        }
    }
}

} // verus!
