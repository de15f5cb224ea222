use crate::error::{quoted, ErrorKind, ParseError};
use crate::names::{decimal, decimal_string};
use crate::syntax::find_condition_end;
use crate::tokens::{
    group_token_views, is_group, is_word, lemma_view_concat, literal_view, slice, span_of,
    tokens_view, Delimiter, Token, TokenKind,
};
use crate::widgets::{
    group_widget_views, if_branches_view, match_arms_view, opt_attrs_view, opt_ident_view,
    opt_path_view, opt_tokens_view, AttrKind, Attrs, ConditionalBranches, ConditionalWidget, Ident,
    IfBranch, IfBranchView, IfCondition, MatchArm, MatchArmView, Path, Widget,
};
use crate::widgets::parse::{parsed_view, result_view};
use crate::widgets::parse::attrs::parse_attrs;
use crate::widgets::parse::grammar::{
    args_from_index, arms_wf, branches_wf, conditional_wf, lemma_push_arm_wf, lemma_push_branch_wf,
    named_by_place, spec_branch_widget, spec_conditional, spec_conditional_attrs, spec_if_branches,
    spec_if_condition, spec_match_arm, spec_match_arms, spec_widget, widget_wf,
    with_conditional_attr, with_conditional_attrs, ConditionalInfoView,
};
use vstd::prelude::*;

verus! {

/// What the attributes before a conditional widget say of it.
pub struct ConditionalInfo {
    pub doc_attr: Option<Vec<Token>>,
    pub transition: Option<Ident>,
    pub assign_wrapper: Option<Path>,
    pub name: Option<Ident>,
}

impl View for ConditionalInfo {
    type V = ConditionalInfoView;

    open spec fn view(&self) -> ConditionalInfoView {
        ConditionalInfoView {
            doc_attr: opt_tokens_view(self.doc_attr),
            transition: opt_ident_view(self.transition),
            assign_wrapper: opt_path_view(self.assign_wrapper),
            name: opt_ident_view(self.name),
        }
    }
}

/// The argument that tells a conditional widget which branch a child belongs
/// to.
pub fn index_args(index: usize, span: usize) -> (out: Vec<Token>)
    ensures
        tokens_view(out@) == args_from_index(index as nat, span),
{
    broadcast use group_token_views;
        broadcast use group_widget_views;

    let mut text = String::from_str("\"");
    text.append(decimal_string(index).as_str());
    text.append("\"");
    proof {
        reveal_strlit("\"");
        assert(text@ =~= quoted(decimal(index as nat)));
    }
    let mut inner: Vec<Token> = Vec::new();
    inner.push(Token::literal(text.as_str(), span));
    proof {
        assert(tokens_view(inner@) =~= seq![literal_view(quoted(decimal(index as nat)), span)]);
    }
    let mut out: Vec<Token> = Vec::new();
    out.push(Token::ident("Some", span));
    out.push(Token::group(Delimiter::Parenthesis, inner, span));
    proof {
        assert(tokens_view(out@) =~= args_from_index(index as nat, span));
    }
    out
}

/// Sorts the attributes before a conditional widget into what they say of it.
pub fn conditional_attrs(attrs: Option<Attrs>) -> (r: Result<ConditionalInfo, ParseError>)
    ensures
        result_view(r) == spec_conditional_attrs(opt_attrs_view(attrs)),
{
    broadcast use group_token_views;
        broadcast use group_widget_views;

    proof {
        reveal(spec_conditional_attrs);
    }
    let ghost given = opt_attrs_view(attrs);
    let mut info = ConditionalInfo {
        doc_attr: None,
        transition: None,
        assign_wrapper: None,
        name: None,
    };
    let ghost none = info@;
    let present = match attrs {
        Some(present) => present,
        None => {
            return Ok(info);
        },
    };
    let ghost all = present@;
    let list = present.inner;
    for a in it: list
        invariant
            it.seq() == list@,
            all == (Attrs { inner: list })@,
            given == Some(all),
            given == opt_attrs_view(attrs),
            none == (ConditionalInfoView {
                doc_attr: None,
                transition: None,
                assign_wrapper: None,
                name: None,
            }),
            with_conditional_attrs(info@, all, it.index()) == with_conditional_attrs(none, all, 0),
    {
        proof {
            reveal(spec_conditional_attrs);
        }
        let ghost before = info@;
        let ghost av = a@;
        proof {
            assert(all[it.index()] == av);
        }
        let span = a.span;
        match a.kind {
            AttrKind::Doc(tokens) => {
                let mut tokens = tokens;
                let ghost added = tokens@;
                match info.doc_attr {
                    Some(doc) => {
                        let mut doc = doc;
                        let ghost had = doc@;
                        doc.append(&mut tokens);
                        proof {
                            lemma_view_concat(had, added);
                            assert(doc@ == had + added);
                        }
                        info.doc_attr = Some(doc);
                    },
                    None => {
                        info.doc_attr = Some(tokens);
                    },
                }
                proof {
                    assert(with_conditional_attr(before, av) == Ok::<
                        ConditionalInfoView,
                        ParseError,
                    >(info@));
                }
            },
            AttrKind::Transition(t) => {
                if info.transition.is_some() {
                    return Err(ParseError::new(ErrorKind::AttributeTwice, span));
                }
                info.transition = Some(t);
                proof {
                    assert(with_conditional_attr(before, av) == Ok::<
                        ConditionalInfoView,
                        ParseError,
                    >(info@));
                }
            },
            AttrKind::Wrap(path) => {
                if info.assign_wrapper.is_some() {
                    return Err(ParseError::new(ErrorKind::AttributeTwice, span));
                }
                info.assign_wrapper = Some(path);
                proof {
                    assert(with_conditional_attr(before, av) == Ok::<
                        ConditionalInfoView,
                        ParseError,
                    >(info@));
                }
            },
            AttrKind::Name(name) => {
                if info.name.is_some() {
                    return Err(ParseError::new(ErrorKind::AttributeTwice, span));
                }
                info.name = Some(name);
                proof {
                    assert(with_conditional_attr(before, av) == Ok::<
                        ConditionalInfoView,
                        ParseError,
                    >(info@));
                }
            },
            _ => {
                return Err(ParseError::new(ErrorKind::ConditionalAttribute, span));
            },
        }
    }
    Ok(info)
}

/// Reads the widget of a branch from the tokens between the branch's braces.
pub fn parse_branch_widget(
    inner: &Vec<Token>,
    scope: usize,
    index: usize,
    args_span: usize,
    ref_span: usize,
) -> (r: Result<Widget, ParseError>)
    ensures
        result_view(r) == spec_branch_widget(
            tokens_view(inner@),
            scope,
            index as nat,
            args_span,
            ref_span,
        ),
        r matches Ok(w) ==> widget_wf(w@) && named_by_place(w@, index as int),
    decreases inner, inner.len(), 8nat,
{
    broadcast use group_token_views;
        broadcast use group_widget_views;

    proof {
        reveal(spec_branch_widget);
        reveal(spec_widget);
    }
    let (attrs, pos1) = match parse_attrs(inner, 0) {
        Ok(found) => found,
        Err(e) => {
            return Err(e);
        },
    };
    let args = index_args(index, args_span);
    match Widget::parse(inner, pos1, scope, attrs, Some(args)) {
        Ok((widget, next)) => {
            if next < inner.len() {
                return Err(ParseError::new(ErrorKind::UnexpectedToken, inner[next].span));
            }
            let mut widget = widget;
            widget.ref_token = Some(ref_span);
            Ok(widget)
        },
        Err(e) => Err(e),
    }
}

impl IfCondition {
    /// Reads the head of the branch that starts at `pos`.
    pub fn parse(ts: &Vec<Token>, pos: usize, end: usize) -> (r: Result<
        (IfCondition, usize),
        ParseError,
    >)
        requires
            pos <= ts.len(),
        ensures
            parsed_view(r) == spec_if_condition(tokens_view(ts@), pos as int, end),
            r matches Ok((_, next)) ==> pos < next <= ts.len(),
    {
        broadcast use group_token_views;
        broadcast use group_widget_views;

        proof {
            reveal(spec_if_condition);
        }
        if is_word(ts, pos, "if") {
            match find_condition_end(ts, pos + 1) {
                Some(e) => Ok((IfCondition::If(ts[pos].span, slice(ts, pos + 1, e)), e)),
                None => Err(ParseError::new(ErrorKind::ExpectedExpr, span_of(ts, pos + 1, end))),
            }
        } else if is_word(ts, pos, "else") && is_word(ts, pos + 1, "if") {
            match find_condition_end(ts, pos + 2) {
                Some(e) => Ok(
                    (IfCondition::ElseIf(ts[pos].span, ts[pos + 1].span, slice(ts, pos + 2, e)), e),
                ),
                None => Err(ParseError::new(ErrorKind::ExpectedExpr, span_of(ts, pos + 2, end))),
            }
        } else if is_word(ts, pos, "else") {
            Ok((IfCondition::Else(ts[pos].span), pos + 1))
        } else {
            Err(ParseError::new(ErrorKind::ExpectedConditional, span_of(ts, pos, end)))
        }
    }
}

/// Reads the chain of branches that starts at `pos`.
pub fn parse_if_branches(ts: &Vec<Token>, pos: usize, end: usize) -> (r: Result<
    (Vec<IfBranch>, usize),
    ParseError,
>)
    requires
        pos <= ts.len(),
    ensures
        match r {
            Ok((bs, next)) => spec_if_branches(tokens_view(ts@), pos as int, end, Seq::empty())
                == Ok::<(Seq<IfBranchView>, int), ParseError>((if_branches_view(bs@), next as int))
                && pos < next <= ts.len(),
            Err(e) => spec_if_branches(tokens_view(ts@), pos as int, end, Seq::empty()) == Err::<
                (Seq<IfBranchView>, int),
                ParseError,
            >(e),
        },
        r matches Ok((bs, _)) ==> branches_wf(if_branches_view(bs@)),
    decreases ts, ts.len() - pos, 4nat,
{
    broadcast use group_token_views;
        broadcast use group_widget_views;
    
    proof {
        reveal(spec_if_branches);
    }
    let ghost tv = tokens_view(ts@);
    let mut branches: Vec<IfBranch> = Vec::new();
    let mut at = pos;
    proof {
        assert(if_branches_view(branches@) =~= Seq::<IfBranchView>::empty());
    }
    loop
        invariant
            pos <= at <= ts.len(),
            tv == tokens_view(ts@),
            branches_wf(if_branches_view(branches@)),
            spec_if_branches(tv, at as int, end, if_branches_view(branches@)) == spec_if_branches(
                tv,
                pos as int,
                end,
                Seq::empty(),
            ),
            branches@.len() > 0 ==> pos < at,
        decreases ts.len() - at,
    {
        proof {
            reveal(spec_if_branches);
            reveal(spec_branch_widget);
        }
        let ghost acc = if_branches_view(branches@);
        let (cond, pos1) = match IfCondition::parse(ts, at, end) {
            Ok(found) => found,
            Err(e) => {
                return Err(e);
            },
        };
        if !is_group(ts, pos1, Delimiter::Brace) {
            return Err(ParseError::new(ErrorKind::ExpectedBraces, span_of(ts, pos1, end)));
        }
        let is_else = match &cond {
            IfCondition::Else(_) => true,
            _ => false,
        };
        let widget = match &ts[pos1].kind {
            TokenKind::Group(_, inner) => {
                match parse_branch_widget(inner, ts[pos1].span, branches.len(), ts[pos1].span, 0) {
                    Ok(widget) => widget,
                    Err(e) => {
                        return Err(e);
                    },
                }
            },
            _ => {
                return Err(ParseError::new(ErrorKind::ExpectedBraces, span_of(ts, pos1, end)));
            },
        };
        let branch = IfBranch { cond, widget };
        let ghost bv = branch@;
        branches.push(branch);
        proof {
            assert(if_branches_view(branches@) == acc.push(bv));
            lemma_push_branch_wf(acc, bv);
        }
        if !is_else && is_word(ts, pos1 + 1, "else") {
            at = pos1 + 1;
        } else {
            return Ok((branches, pos1 + 1));
        }
    }
}

/// Reads the arms between the braces of a `match`.
pub fn parse_match_arms(inner: &Vec<Token>, scope: usize) -> (r: Result<Vec<MatchArm>, ParseError>)
    ensures
        match r {
            Ok(arms) => spec_match_arms(tokens_view(inner@), 0, scope, Seq::empty()) == Ok::<
                Seq<MatchArmView>,
                ParseError,
            >(match_arms_view(arms@)),
            Err(e) => spec_match_arms(tokens_view(inner@), 0, scope, Seq::empty()) == Err::<
                Seq<MatchArmView>,
                ParseError,
            >(e),
        },
        r matches Ok(arms) ==> arms_wf(match_arms_view(arms@)),
    decreases inner, inner.len(), 10nat,
{
    broadcast use group_token_views;
        broadcast use group_widget_views;
    
    proof {
        reveal(spec_match_arms);
        reveal(spec_match_arm);
    }
    let ghost tv = tokens_view(inner@);
    let mut arms: Vec<MatchArm> = Vec::new();
    let mut pos: usize = 0;
    proof {
        assert(match_arms_view(arms@) =~= Seq::<MatchArmView>::empty());
    }
    while pos < inner.len()
        invariant
            pos <= inner.len(),
            tv == tokens_view(inner@),
            arms_wf(match_arms_view(arms@)),
            spec_match_arms(tv, pos as int, scope, match_arms_view(arms@)) == spec_match_arms(
                tv,
                0,
                scope,
                Seq::empty(),
            ),
        decreases inner.len() - pos,
    {
        proof {
            reveal(spec_match_arms);
            reveal(spec_match_arm);
        reveal(spec_match_arm);
        }
        let ghost acc = match_arms_view(arms@);
        match MatchArm::parse(inner, pos, scope, arms.len()) {
            Ok((arm, next)) => {
                let ghost av = arm@;
                arms.push(arm);
                proof {
                    assert(match_arms_view(arms@) == acc.push(av));
                    lemma_push_arm_wf(acc, av);
                }
                pos = next;
            },
            Err(e) => {
                return Err(e);
            },
        }
    }
    Ok(arms)
}

impl ConditionalWidget {
    /// Reads the conditional widget that starts at `pos` with `if` or
    /// `match`.
    pub fn parse(
        ts: &Vec<Token>,
        pos: usize,
        end: usize,
        attributes: Option<Attrs>,
        args: Option<Vec<Token>>,
    ) -> (r: Result<(ConditionalWidget, usize), ParseError>)
        requires
            pos <= ts.len(),
        ensures
            parsed_view(r) == spec_conditional(
                tokens_view(ts@),
                pos as int,
                end,
                opt_attrs_view(attributes),
                opt_tokens_view(args),
            ),
            r matches Ok((_, next)) ==> pos < next <= ts.len(),
            r matches Ok((c, _)) ==> conditional_wf(c@),
        decreases ts, ts.len() - pos, 5nat,
    {
        broadcast use group_token_views;
        broadcast use group_widget_views;

        proof {
            reveal(spec_conditional);
            reveal(spec_if_branches);
            reveal(spec_match_arms);
        }
        let info = match conditional_attrs(attributes) {
            Ok(info) => info,
            Err(e) => {
                return Err(e);
            },
        };
        let name = match info.name {
            Some(name) => name,
            None => Ident {
                name: String::from_str("conditional_widget"),
                span: span_of(ts, pos, end),
            },
        };
        let (branches, next) = if is_word(ts, pos, "if") {
            match parse_if_branches(ts, pos, end) {
                Ok((branches, next)) => (ConditionalBranches::If(branches), next),
                Err(e) => {
                    return Err(e);
                },
            }
        } else if is_word(ts, pos, "match") {
            let e = match find_condition_end(ts, pos + 1) {
                Some(e) => e,
                None => {
                    return Err(
                        ParseError::new(ErrorKind::ExpectedExpr, span_of(ts, pos + 1, end)),
                    );
                },
            };
            if !is_group(ts, e, Delimiter::Brace) {
                return Err(ParseError::new(ErrorKind::ExpectedBraces, span_of(ts, e, end)));
            }
            match &ts[e].kind {
                TokenKind::Group(_, inner) => match parse_match_arms(inner, ts[e].span) {
                    Ok(arms) => (
                        ConditionalBranches::Match(ts[pos].span, slice(ts, pos + 1, e), arms),
                        e + 1,
                    ),
                    Err(e) => {
                        return Err(e);
                    },
                },
                _ => {
                    return Err(ParseError::new(ErrorKind::ExpectedBraces, span_of(ts, e, end)));
                },
            }
        } else {
            return Err(ParseError::new(ErrorKind::ExpectedConditional, span_of(ts, pos, end)));
        };
        Ok(
            (
                ConditionalWidget {
                    doc_attr: info.doc_attr,
                    transition: info.transition,
                    assign_wrapper: info.assign_wrapper,
                    name,
                    args,
                    branches,
                },
                next,
            ),
        )
    }
}

} // verus!
