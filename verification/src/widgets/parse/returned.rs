use crate::error::{ErrorKind, ParseError};
use crate::tokens::{
    group_token_views, is_group, is_name, is_punct, span_of, tokens_view, Delimiter, Token,
    TokenKind,
};
use crate::widgets::{group_widget_views, Ident, Path, Properties, ReturnedWidget};
use crate::widgets::parse::parsed_view;
use crate::widgets::parse::grammar::{names_unique, properties_wf, spec_properties, spec_returned};
use crate::widgets::parse::widget_func::parse_path;
use vstd::prelude::*;

verus! {

impl ReturnedWidget {
    /// Reads the returned widget that starts at `pos`, behind `->`.
    pub fn parse(ts: &Vec<Token>, pos: usize, end: usize) -> (r: Result<
        (ReturnedWidget, usize),
        ParseError,
    >)
        requires
            pos <= ts.len(),
        ensures
            parsed_view(r) == spec_returned(tokens_view(ts@), pos as int, end),
            r matches Ok((_, next)) ==> pos < next <= ts.len(),
            r matches Ok((returned, _)) ==> names_unique(returned@.properties)
                && properties_wf(returned@.properties),
        decreases ts, ts.len() - pos, 4nat,
    {
        broadcast use group_token_views;
        broadcast use group_widget_views;

        proof {
            reveal(spec_returned);
            reveal(spec_properties);
        }
        let (name, ty, pos1): (Ident, Option<Path>, usize) = if is_name(ts, pos) {
            if !is_punct(ts, pos + 1, ':') {
                return Err(ParseError::new(ErrorKind::ExpectedColon, span_of(ts, pos + 1, end)));
            }
            let name = match &ts[pos].kind {
                TokenKind::Ident(name) => Ident { name: name.clone(), span: ts[pos].span },
                _ => Ident { name: String::from_str("_returned_widget"), span: ts[pos].span },
            };
            match parse_path(ts, pos + 2, end) {
                Ok((ty, p)) => (name, Some(ty), p),
                Err(e) => {
                    return Err(e);
                },
            }
        } else {
            (
                Ident { name: String::from_str("_returned_widget"), span: span_of(ts, pos, end) },
                None,
                pos,
            )
        };
        let is_optional = is_punct(ts, pos1, '?');
        let pos2 = if is_optional {
            pos1 + 1
        } else {
            pos1
        };
        if !is_group(ts, pos2, Delimiter::Brace) {
            return Err(ParseError::new(ErrorKind::ExpectedBraces, span_of(ts, pos2, end)));
        }
        match &ts[pos2].kind {
            TokenKind::Group(_, inner) => {
                let properties = Properties::parse(inner, ts[pos2].span);
                Ok((ReturnedWidget { name, ty, properties, is_optional }, pos2 + 1))
            },
            _ => Err(ParseError::new(ErrorKind::ExpectedBraces, span_of(ts, pos2, end))),
        }
    }
}

} // verus!
