use crate::tokens::{
    group_token_views, tokens_view, Delimiter, Token, TokenKind, TokenKindView, TokenView,
};
use vstd::prelude::*;

verus! {

/// `String::push`: the string then ends with `c`.
#[verifier::external_body]
pub(crate) fn push_char(s: &mut String, c: char)
    ensures
        final(s)@ == old(s)@.push(c),
{
    s.push(c)
}

pub open spec fn open_char(d: Delimiter) -> char {
    match d {
        Delimiter::Parenthesis => '(',
        Delimiter::Brace => '{',
        Delimiter::Bracket => '[',
    }
}

pub open spec fn close_char(d: Delimiter) -> char {
    match d {
        Delimiter::Parenthesis => ')',
        Delimiter::Brace => '}',
        Delimiter::Bracket => ']',
    }
}

/// The source text of one token: its own text, then a space unless it is a
/// punctuation character that the next token joins.
pub open spec fn render_token(t: TokenView) -> Seq<char>
    decreases t,
{
    match t.kind {
        TokenKindView::Ident(s) => s.push(' '),
        TokenKindView::Punct(c, joint) => if joint {
            seq![c]
        } else {
            seq![c, ' ']
        },
        TokenKindView::Literal(s) => s.push(' '),
        TokenKindView::Group(d, inner) => (seq![open_char(d), ' '] + render(inner)).push(
            close_char(d),
        ).push(' '),
    }
}

/// The source text of a sequence of tokens: the text of each, in order.
pub open spec fn render(ts: Seq<TokenView>) -> Seq<char>
    decreases ts,
{
    if ts.len() == 0 {
        Seq::<char>::empty()
    } else {
        render(ts.drop_last()) + render_token(ts.last())
    }
}

fn delimiter_chars(d: Delimiter) -> (r: (char, char))
    ensures
        r.0 == open_char(d),
        r.1 == close_char(d),
{
    match d {
        Delimiter::Parenthesis => ('(', ')'),
        Delimiter::Brace => ('{', '}'),
        Delimiter::Bracket => ('[', ']'),
    }
}

fn write_token(out: &mut String, t: &Token)
    ensures
        final(out)@ == old(out)@ + render_token(t@),
    decreases t,
{
    match &t.kind {
        TokenKind::Ident(s) => {
            out.append(s.as_str());
            push_char(out, ' ');
            proof {
                assert(out@ =~= old(out)@ + render_token(t@));
            }
        },
        TokenKind::Punct(c, joint) => {
            push_char(out, *c);
            if !*joint {
                push_char(out, ' ');
            }
            proof {
                assert(out@ =~= old(out)@ + render_token(t@));
            }
        },
        TokenKind::Literal(s) => {
            out.append(s.as_str());
            push_char(out, ' ');
            proof {
                assert(out@ =~= old(out)@ + render_token(t@));
            }
        },
        TokenKind::Group(d, inner) => {
            let (open, close) = delimiter_chars(*d);
            push_char(out, open);
            push_char(out, ' ');
            write_tokens(out, inner, 0);
            push_char(out, close);
            push_char(out, ' ');
            proof {
                assert(tokens_view(inner@).skip(0) =~= tokens_view(inner@));
                assert(out@ =~= old(out)@ + render_token(t@));
            }
        },
    }
}

fn write_tokens(out: &mut String, ts: &Vec<Token>, from: usize)
    requires
        from <= ts.len(),
    ensures
        final(out)@ == old(out)@ + render(tokens_view(ts@).skip(from as int)),
    decreases ts,
{
    broadcast use group_token_views;

    let ghost tail = tokens_view(ts@).skip(from as int);
    let mut i: usize = from;
    proof {
        assert(tail.take(0) =~= Seq::<TokenView>::empty());
    }
    while i < ts.len()
        invariant
            from <= i <= ts.len(),
            tail == tokens_view(ts@).skip(from as int),
            out@ == old(out)@ + render(tail.take(i - from)),
        decreases ts.len() - i,
    {
        let ghost before = out@;
        write_token(out, &ts[i]);
        proof {
            let n = i - from;
            assert(tail.take(n + 1).drop_last() =~= tail.take(n));
            assert(tail.take(n + 1).last() == ts@[i as int]@);
            assert(out@ =~= old(out)@ + render(tail.take(n + 1)));
        }
        i += 1;
    }
    proof {
        assert(tail.take(i - from) =~= tail);
    }
}

/// The source text of the tokens from `from` on.
pub fn render_from(ts: &Vec<Token>, from: usize) -> (text: String)
    requires
        from <= ts.len(),
    ensures
        text@ == render(tokens_view(ts@).skip(from as int)),
{
    let mut out = String::new();
    write_tokens(&mut out, ts, from);
    proof {
        assert(out@ =~= render(tokens_view(ts@).skip(from as int)));
    }
    out
}

/// The source text of the tokens.
pub fn to_text(ts: &Vec<Token>) -> (text: String)
    ensures
        text@ == render(tokens_view(ts@)),
{
    proof {
        assert(tokens_view(ts@).skip(0) =~= tokens_view(ts@));
    }
    render_from(ts, 0)
}

} // verus!
