use crate::error::{ErrorKind, ParseError};
use crate::syntax::{find_expr_end, find_pattern_end};
use crate::tokens::{
    group_token_views, is_group, is_punct, is_punct2, is_word, slice, span_of, tokens_view,
    Delimiter, Token, TokenKind,
};
use crate::widgets::{group_widget_views, MatchArm, Widget};
use crate::widgets::parse::parsed_view;
use crate::widgets::parse::attrs::parse_attrs;
use crate::widgets::parse::conditional::{index_args, parse_branch_widget};
use crate::widgets::parse::grammar::{
    named_by_place, spec_branch_widget, spec_match_arm, spec_widget, widget_wf,
};
use vstd::prelude::*;

verus! {

impl MatchArm {
    /// Reads the arm that starts at `pos`; `index` is its place among the
    /// arms, counted from zero.
    pub fn parse(ts: &Vec<Token>, pos: usize, end: usize, index: usize) -> (r: Result<
        (MatchArm, usize),
        ParseError,
    >)
        requires
            pos <= ts.len(),
        ensures
            parsed_view(r) == spec_match_arm(tokens_view(ts@), pos as int, end, index as nat),
            r matches Ok((_, next)) ==> pos < next <= ts.len(),
            r matches Ok((arm, _)) ==> widget_wf(arm@.widget) && named_by_place(
                arm@.widget,
                index as int,
            ),
        decreases ts, ts.len() - pos, 9nat,
    {
        broadcast use group_token_views;
        broadcast use group_widget_views;

        proof {
            reveal(spec_match_arm);
            reveal(spec_branch_widget);
            reveal(spec_widget);
        }
        let pos0 = if is_punct(ts, pos, ',') {
            pos + 1
        } else {
            pos
        };
        let pos1 = match find_pattern_end(ts, pos0) {
            Some(pos1) => pos1,
            None => {
                return Err(ParseError::new(ErrorKind::ExpectedPattern, span_of(ts, pos0, end)));
            },
        };
        let pattern = slice(ts, pos0, pos1);
        let (guard, pos2) = if is_punct2(ts, pos1, '=', '>') {
            (None, pos1)
        } else if !is_word(ts, pos1, "if") {
            return Err(ParseError::new(ErrorKind::ExpectedFatArrow, span_of(ts, pos1, end)));
        } else {
            match find_expr_end(ts, pos1 + 1) {
                Some(e) => (Some((ts[pos1].span, slice(ts, pos1 + 1, e))), e),
                None => {
                    return Err(
                        ParseError::new(ErrorKind::ExpectedExpr, span_of(ts, pos1 + 1, end)),
                    );
                },
            }
        };
        if !is_punct2(ts, pos2, '=', '>') {
            return Err(ParseError::new(ErrorKind::ExpectedFatArrow, span_of(ts, pos2, end)));
        }
        let arrow = ts[pos2].span;
        let pos3 = pos2 + 2;
        if is_group(ts, pos3, Delimiter::Brace) {
            let behind = span_of(ts, pos3 + 1, end);
            match &ts[pos3].kind {
                TokenKind::Group(_, inner) => {
                    match parse_branch_widget(inner, ts[pos3].span, index, behind, behind) {
                        Ok(widget) => Ok((MatchArm { pattern, guard, arrow, widget }, pos3 + 1)),
                        Err(e) => Err(e),
                    }
                },
                _ => Err(ParseError::new(ErrorKind::ExpectedBraces, span_of(ts, pos3, end))),
            }
        } else {
            let (attrs, pos4) = match parse_attrs(ts, pos3) {
                Ok(found) => found,
                Err(e) => {
                    return Err(e);
                },
            };
            let here = span_of(ts, pos4, end);
            match Widget::parse(ts, pos4, end, attrs, Some(index_args(index, here))) {
                Ok((widget, next)) => {
                    let mut widget = widget;
                    widget.ref_token = Some(here);
                    Ok((MatchArm { pattern, guard, arrow, widget }, next))
                },
                Err(e) => Err(e),
            }
        }
    }
}

} // verus!
