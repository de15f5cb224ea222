use crate::error::{ErrorKind, ParseError};
use crate::names::{snake_case, snake_join};
use crate::syntax::{find_path_end, path_end};
use crate::tokens::{
    at_group, at_ident, at_punct, at_punct2, clone_tokens, group_at, group_token_views, is_group,
    is_ident, is_punct, is_punct2, slice, span_at, span_of, tokens_view, Delimiter, Token,
    TokenKind, TokenView,
};
use crate::widgets::{Ident, IdentView, Path, PathView, WidgetFunc, WidgetFuncView};
use crate::widgets::parse::parsed_view;
use vstd::prelude::*;

verus! {

/// The span of a path: that of its first token.
pub open spec fn path_span(p: PathView) -> usize {
    if p.tokens.len() > 0 {
        p.tokens[0].span
    } else {
        0
    }
}

impl Path {
    /// The span of the path's first token.
    pub fn span(&self) -> (s: usize)
        ensures
            s == path_span(self@),
    {
        broadcast use group_token_views;

        if self.tokens.len() > 0 {
            self.tokens[0].span
        } else {
            0
        }
    }
}

/// The path that starts at `pos`, and the position behind it.
#[verifier::opaque]
pub open spec fn spec_path(ts: Seq<TokenView>, pos: int, end: usize) -> Result<
    (PathView, int),
    ParseError,
> {
    match path_end(ts, pos) {
        Some((next, segments, idents)) => if pos < next <= ts.len() {
            Ok((PathView { tokens: ts.subrange(pos, next), segments, idents }, next))
        } else {
            Err(ParseError { kind: ErrorKind::ExpectedPath, span: span_at(ts, pos, end) })
        },
        None => Err(ParseError { kind: ErrorKind::ExpectedPath, span: span_at(ts, pos, end) }),
    }
}

/// Reads the path that starts at `pos`.
pub fn parse_path(ts: &Vec<Token>, pos: usize, end: usize) -> (r: Result<(Path, usize), ParseError>)
    requires
        pos <= ts.len(),
    ensures
        parsed_view(r) == spec_path(tokens_view(ts@), pos as int, end),
        r matches Ok((_, next)) ==> pos < next <= ts.len(),
{
    broadcast use group_token_views;

    proof {
        reveal(spec_path);
    }
    match find_path_end(ts, pos) {
        Some((next, segments, idents)) => Ok(
            (Path { tokens: slice(ts, pos, next), segments, idents }, next),
        ),
        None => Err(ParseError::new(ErrorKind::ExpectedPath, span_of(ts, pos, end))),
    }
}

/// Where the method calls that start at `pos` end: `name(..)`, then further
/// ones, each behind a dot.
pub open spec fn chain_end(ts: Seq<TokenView>, pos: int) -> int
    decreases ts.len() - pos,
{
    if at_ident(ts, pos) && at_group(ts, pos + 1, Delimiter::Parenthesis) {
        if at_punct(ts, pos + 2, '.') && at_ident(ts, pos + 3) && at_group(
            ts,
            pos + 4,
            Delimiter::Parenthesis,
        ) {
            chain_end(ts, pos + 3)
        } else {
            pos + 2
        }
    } else {
        pos
    }
}

fn find_chain_end(ts: &Vec<Token>, pos: usize) -> (r: usize)
    requires
        pos <= ts.len(),
    ensures
        r == chain_end(tokens_view(ts@), pos as int),
        pos <= r <= ts.len(),
{
    broadcast use group_token_views;

    let ghost tv = tokens_view(ts@);
    let mut at = pos;
    loop
        invariant
            pos <= at <= ts.len(),
            tv == tokens_view(ts@),
            chain_end(tv, at as int) == chain_end(tv, pos as int),
        decreases ts.len() - at,
    {
        if is_ident(ts, at) && ts.len() - at > 1 && is_group(ts, at + 1, Delimiter::Parenthesis) {
            if ts.len() - at > 4 && is_punct(ts, at + 2, '.') && is_ident(ts, at + 3) && is_group(
                ts,
                at + 4,
                Delimiter::Parenthesis,
            ) {
                at = at + 3;
            } else {
                return at + 2;
            }
        } else {
            return at;
        }
    }
}

/// The constructor call that starts at `pos`: a path; behind it, where
/// parentheses follow, the arguments, then method calls behind a dot, then a
/// type behind `->`.
#[verifier::opaque]
pub open spec fn spec_widget_func(ts: Seq<TokenView>, pos: int, end: usize) -> Result<
    (WidgetFuncView, int),
    ParseError,
> {
    match spec_path(ts, pos, end) {
        Err(e) => Err(e),
        Ok((path, pos1)) => if at_group(ts, pos1, Delimiter::Parenthesis) {
            let args = Some(group_at(ts, pos1));
            let pos2 = pos1 + 1;
            let dotted = at_punct(ts, pos2, '.');
            let pos3 = if dotted {
                chain_end(ts, pos2 + 1)
            } else {
                pos2
            };
            if dotted && pos3 == pos2 + 1 {
                Err(ParseError { kind: ErrorKind::ExpectedIdent, span: span_at(ts, pos2 + 1, end) })
            } else {
                let method_chain = if dotted {
                    Some(ts.subrange(pos2 + 1, pos3))
                } else {
                    None
                };
                if at_punct2(ts, pos3, '-', '>') {
                    match spec_path(ts, pos3 + 2, end) {
                        Err(e) => Err(e),
                        Ok((ty, pos4)) => Ok(
                            (WidgetFuncView { path, args, method_chain, ty: Some(ty) }, pos4),
                        ),
                    }
                } else {
                    Ok((WidgetFuncView { path, args, method_chain, ty: None }, pos3))
                }
            }
        } else {
            Ok((WidgetFuncView { path, args: None, method_chain: None, ty: None }, pos1))
        },
    }
}

/// The name that a widget gets from its constructor: the path's segments in
/// snake case, joined by `_`, at the path's span.
pub open spec fn spec_snake_case_name(func: WidgetFuncView) -> IdentView {
    IdentView { name: snake_join(func.path.segments), span: path_span(func.path) }
}

impl WidgetFunc {
    /// Reads the constructor call that starts at `pos`.
    pub fn parse(ts: &Vec<Token>, pos: usize, end: usize) -> (r: Result<
        (WidgetFunc, usize),
        ParseError,
    >)
        requires
            pos <= ts.len(),
        ensures
            parsed_view(r) == spec_widget_func(tokens_view(ts@), pos as int, end),
            r matches Ok((_, next)) ==> pos < next <= ts.len(),
    {
        broadcast use group_token_views;

        proof {
            reveal(spec_widget_func);
        }
        let (path, pos1) = match parse_path(ts, pos, end) {
            Ok(found) => found,
            Err(e) => {
                return Err(e);
            },
        };
        if !is_group(ts, pos1, Delimiter::Parenthesis) {
            return Ok((WidgetFunc { path, args: None, method_chain: None, ty: None }, pos1));
        }
        let args = match &ts[pos1].kind {
            TokenKind::Group(_, inner) => Some(clone_tokens(inner)),
            _ => None,
        };
        let pos2 = pos1 + 1;
        let dotted = is_punct(ts, pos2, '.');
        let pos3 = if dotted {
            find_chain_end(ts, pos2 + 1)
        } else {
            pos2
        };
        if dotted && pos3 == pos2 + 1 {
            return Err(ParseError::new(ErrorKind::ExpectedIdent, span_of(ts, pos2 + 1, end)));
        }
        let method_chain = if dotted {
            Some(slice(ts, pos2 + 1, pos3))
        } else {
            None
        };
        if is_punct2(ts, pos3, '-', '>') {
            match parse_path(ts, pos3 + 2, end) {
                Ok((ty, pos4)) => Ok((WidgetFunc { path, args, method_chain, ty: Some(ty) }, pos4)),
                Err(e) => Err(e),
            }
        } else {
            Ok((WidgetFunc { path, args, method_chain, ty: None }, pos3))
        }
    }

    /// The name that a widget gets from its constructor.
    pub fn snake_case_name(&self) -> (name: Ident)
        ensures
            name@ == spec_snake_case_name(self@),
    {
        Ident { name: snake_case(&self.path.segments), span: self.path.span() }
    }
}

} // verus!
