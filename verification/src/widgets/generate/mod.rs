use crate::tokens::{
    extend, group_token_views, group_view, ident_view, lemma_view_push, punct_view, tokens_view,
    Delimiter, Token, TokenView,
};
use crate::widgets::{Ident, IdentView};
use vstd::prelude::*;

pub mod assign;
pub mod conditional_init;
pub mod connect;
pub mod errors;
pub mod init;
pub mod streams;

verus! {

/// The span of generated tokens that stand for no token of the input.
pub const CALL_SITE: usize = 0;

/// The token that an identifier is written as.
pub open spec fn ident_token(i: IdentView) -> TokenView {
    ident_view(i.name, i.span)
}

/// The span of a sequence of tokens: that of its first token.
pub open spec fn tokens_span(ts: Seq<TokenView>) -> usize {
    if ts.len() > 0 {
        ts[0].span
    } else {
        0
    }
}

pub fn span_of_tokens(ts: &Vec<Token>) -> (s: usize)
    ensures
        s == tokens_span(tokens_view(ts@)),
{
    broadcast use group_token_views;

    if ts.len() > 0 {
        ts[0].span
    } else {
        0
    }
}

pub fn push_ident(out: &mut Vec<Token>, name: &str, span: usize)
    ensures
        tokens_view(final(out)@) == tokens_view(old(out)@).push(ident_view(name@, span)),
{
    let t = Token::ident(name, span);
    proof {
        lemma_view_push(out@, t);
    }
    out.push(t);
}

pub fn push_name(out: &mut Vec<Token>, ident: &Ident)
    ensures
        tokens_view(final(out)@) == tokens_view(old(out)@).push(ident_token(ident@)),
{
    let t = Token::ident(ident.name.as_str(), ident.span);
    proof {
        lemma_view_push(out@, t);
    }
    out.push(t);
}

pub fn push_punct(out: &mut Vec<Token>, c: char, joint: bool, span: usize)
    ensures
        tokens_view(final(out)@) == tokens_view(old(out)@).push(punct_view(c, joint, span)),
{
    let t = Token::punct(c, joint, span);
    proof {
        lemma_view_push(out@, t);
    }
    out.push(t);
}

pub fn push_group(out: &mut Vec<Token>, d: Delimiter, inner: Vec<Token>, span: usize)
    ensures
        tokens_view(final(out)@) == tokens_view(old(out)@).push(
            group_view(d, tokens_view(inner@), span),
        ),
{
    let t = Token::group(d, inner, span);
    proof {
        lemma_view_push(out@, t);
    }
    out.push(t);
}

/// Appends a copy of the tokens where there are any.
pub fn extend_opt(out: &mut Vec<Token>, more: &Option<Vec<Token>>)
    ensures
        tokens_view(final(out)@) == tokens_view(old(out)@) + match more {
            Some(ts) => tokens_view(ts@),
            None => Seq::<TokenView>::empty(),
        },
{
    match more {
        Some(ts) => extend(out, ts),
        None => {
            proof {
                assert(tokens_view(out@) =~= tokens_view(out@) + Seq::<TokenView>::empty());
            }
        },
    }
}

} // verus!
