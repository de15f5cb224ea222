use crate::error::failing_tokens;
use crate::tokens::{extend, group_token_views, tokens_view, Token, TokenView};
use crate::widgets::{
    group_widget_views, if_branches_view, lemma_unfold_returned, lemma_unfold_widget,
    match_arms_view, ConditionalBranches, ConditionalBranchesView, ConditionalWidget,
    ConditionalWidgetView, IfBranchView, MatchArmView, Properties, Property, PropertyType,
    PropertyTypeView, PropertyView, Widget, WidgetView,
};
use crate::widgets::generate::assign::no_tokens;
use vstd::prelude::*;

verus! {

/// The code that reports the errors of a widget.
#[verifier::opaque]
pub open spec fn spec_widget_error(w: WidgetView) -> Seq<TokenView>
    decreases w, 0nat,
{
    spec_properties_error(w.properties, 0) + match w.returned_widget {
        Some(r) => spec_properties_error(r.properties, 0),
        None => no_tokens(),
    }
}

/// The code that reports the errors of the properties from `from` on, in order.
#[verifier::opaque]
pub open spec fn spec_properties_error(props: Seq<PropertyView>, from: int) -> Seq<
    TokenView,
>
    decreases props, props.len() - from,
{
    if 0 <= from < props.len() {
        spec_property_error(props[from]) + spec_properties_error(props, from + 1)
    } else {
        no_tokens()
    }
}

/// The code that reports the errors of one property.
#[verifier::opaque]
pub open spec fn spec_property_error(p: PropertyView) -> Seq<TokenView>
    decreases p, 0nat,
{
    match p.ty {
        PropertyTypeView::Widget(w) => spec_widget_error(*w),
        PropertyTypeView::ConditionalWidget(c) => spec_conditional_error(c),
        PropertyTypeView::ParseError(e) => failing_tokens(e.kind.spec_message(), e.span),
        _ => no_tokens(),
    }
}

/// The code that reports the errors of a conditional widget and of the widgets of its branches.
#[verifier::opaque]
pub open spec fn spec_conditional_error(c: ConditionalWidgetView) -> Seq<TokenView>
    decreases c, 0nat,
{
    match c.branches {
        ConditionalBranchesView::If(bs) => spec_branches_error(bs, 0),
        ConditionalBranchesView::Match(_, _, arms) => spec_arms_error(arms, 0),
    }
}

#[verifier::opaque]
pub open spec fn spec_branches_error(bs: Seq<IfBranchView>, from: int) -> Seq<TokenView>
    decreases bs, bs.len() - from,
{
    if 0 <= from < bs.len() {
        spec_widget_error(bs[from].widget) + spec_branches_error(bs, from + 1)
    } else {
        no_tokens()
    }
}

#[verifier::opaque]
pub open spec fn spec_arms_error(arms: Seq<MatchArmView>, from: int) -> Seq<TokenView>
    decreases arms, arms.len() - from,
{
    if 0 <= from < arms.len() {
        spec_widget_error(arms[from].widget) + spec_arms_error(arms, from + 1)
    } else {
        no_tokens()
    }
}

impl Widget {
    /// Appends the code that reports the errors of the widget to `stream`.
    pub fn error_stream(&self, stream: &mut Vec<Token>)
        ensures
            tokens_view(final(stream)@) == tokens_view(old(stream)@) + spec_widget_error(self@),
        decreases self, 0nat,
    {
        proof {
            reveal(spec_widget_error);
            reveal(spec_properties_error);
            lemma_unfold_widget(*self);
        }
        let ghost start = tokens_view(stream@);
        self.properties.error_stream(stream);
        let ghost second = tokens_view(stream@);
        match &self.returned_widget {
            Some(returned_widget) => {
                proof {
                    lemma_unfold_returned(*returned_widget);
                }
                returned_widget.properties.error_stream(stream);
            },
            None => {},
        }
        proof {
            let props = spec_properties_error(self@.properties, 0);
            let returned = match self@.returned_widget {
                Some(r) => spec_properties_error(r.properties, 0),
                None => no_tokens(),
            };
            assert(second == start + props);
            assert(tokens_view(stream@) =~= second + returned);
            assert(tokens_view(stream@) =~= start + (props + returned));
        }
    }
}

impl Properties {
    /// Appends the code that reports the errors of the properties, in order.
    pub fn error_stream(&self, stream: &mut Vec<Token>)
        ensures
            tokens_view(final(stream)@) == tokens_view(old(stream)@) + spec_properties_error(
                self@,
                0,
            ),
        decreases self, 1nat,
    {
        broadcast use group_widget_views;

        let ghost all = self@;
        let ghost start = tokens_view(stream@);
        let mut i: usize = 0;
        proof {
            assert(start =~= start + no_tokens());
        }
        while i < self.properties.len()
            invariant
                i <= self.properties.len(),
                all == self@,
                start == tokens_view(old(stream)@),
                tokens_view(stream@) + spec_properties_error(all, i as int) == start
                    + spec_properties_error(all, 0),
            decreases self.properties.len() - i,
        {
            proof {
                reveal(spec_properties_error);
                reveal(spec_property_error);
                assert(all[i as int] == self.properties@[i as int]@);
            }
            let ghost before = tokens_view(stream@);
            self.properties[i].error_stream(stream);
            proof {
                let one = spec_property_error(all[i as int]);
                let rest = spec_properties_error(all, i + 1);
                assert(before + (one + rest) =~= (before + one) + rest);
            }
            i += 1;
        }
        proof {
            reveal(spec_properties_error);
            assert(tokens_view(stream@) + no_tokens() =~= tokens_view(stream@));
        }
    }
}

impl Property {
    /// Appends the code that reports the errors of the property.
    pub fn error_stream(&self, stream: &mut Vec<Token>)
        ensures
            tokens_view(final(stream)@) == tokens_view(old(stream)@) + spec_property_error(
                self@,
            ),
        decreases self, 0nat,
    {
        broadcast use group_widget_views;

        proof {
            reveal(spec_property_error);
            reveal(spec_widget_error);
            reveal(spec_conditional_error);
        }
        match &self.ty {
            PropertyType::Widget(widget) => {
                widget.error_stream(stream);
            },
            PropertyType::ConditionalWidget(cond_widget) => {
                cond_widget.error_stream(stream);
            },
            PropertyType::ParseError(e) => {
                let code = e.to_failing_code();
                extend(stream, &code);
            },
            _ => {
                proof {
                    assert(tokens_view(stream@) =~= tokens_view(stream@) + no_tokens());
                }
            },
        }
    }
}

impl ConditionalWidget {
    /// Appends the code that reports the errors of the conditional widget.
    pub fn error_stream(&self, stream: &mut Vec<Token>)
        ensures
            tokens_view(final(stream)@) == tokens_view(old(stream)@) + spec_conditional_error(self@),
        decreases self, 0nat,
    {
        broadcast use group_token_views;
        broadcast use group_widget_views;

        proof {
            reveal(spec_conditional_error);
        }
        let ghost start = tokens_view(stream@);
        let ghost head = tokens_view(stream@);
        match &self.branches {
            ConditionalBranches::If(if_branches) => {
                let ghost bs = if_branches_view(if_branches@);
                let mut i: usize = 0;
                proof {
                    assert(head =~= head + no_tokens());
                }
                while i < if_branches.len()
                    invariant
                        i <= if_branches.len(),
                        bs == if_branches_view(if_branches@),
                        self.branches matches ConditionalBranches::If(b) && b == *if_branches,
                        tokens_view(stream@) + spec_branches_error(bs, i as int) == head
                            + spec_branches_error(bs, 0),
                    decreases if_branches.len() - i,
                {
                    proof {
                        reveal(spec_branches_error);
                        reveal(spec_widget_error);
                        assert(bs[i as int] == if_branches@[i as int]@);
                    }
                    let ghost before = tokens_view(stream@);
                    if_branches[i].widget.error_stream(stream);
                    proof {
                        let one = spec_widget_error(bs[i as int].widget);
                        let rest = spec_branches_error(bs, i + 1);
                        assert(before + (one + rest) =~= (before + one) + rest);
                    }
                    i += 1;
                }
                proof {
                    reveal(spec_branches_error);
                    assert(tokens_view(stream@) + no_tokens() =~= tokens_view(stream@));
                    assert(tokens_view(stream@) =~= start + spec_conditional_error(self@));
                }
            },
            ConditionalBranches::Match(_, _, match_arms) => {
                let ghost arms = match_arms_view(match_arms@);
                let mut i: usize = 0;
                proof {
                    assert(head =~= head + no_tokens());
                }
                while i < match_arms.len()
                    invariant
                        i <= match_arms.len(),
                        arms == match_arms_view(match_arms@),
                        self.branches matches ConditionalBranches::Match(_, _, a) && a
                            == *match_arms,
                        tokens_view(stream@) + spec_arms_error(arms, i as int) == head
                            + spec_arms_error(arms, 0),
                    decreases match_arms.len() - i,
                {
                    proof {
                        reveal(spec_arms_error);
                        reveal(spec_widget_error);
                        assert(arms[i as int] == match_arms@[i as int]@);
                    }
                    let ghost before = tokens_view(stream@);
                    match_arms[i].widget.error_stream(stream);
                    proof {
                        let one = spec_widget_error(arms[i as int].widget);
                        let rest = spec_arms_error(arms, i + 1);
                        assert(before + (one + rest) =~= (before + one) + rest);
                    }
                    i += 1;
                }
                proof {
                    reveal(spec_arms_error);
                    assert(tokens_view(stream@) + no_tokens() =~= tokens_view(stream@));
                    assert(tokens_view(stream@) =~= start + spec_conditional_error(self@));
                }
            },
        }
    }
}

} // verus!
