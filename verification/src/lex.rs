use crate::tokens::{
    group_token_views, group_view, ident_view, literal_view, punct_view, tokens_view, Delimiter,
    Token, TokenKindView, TokenView,
};
use std::str::FromStr;
use vstd::prelude::*;

verus! {

/// A token stream of `proc_macro2`.
#[verifier::external_type_specification]
#[verifier::external_body]
pub struct ExTokenStream(proc_macro2::TokenStream);

/// A token tree of `proc_macro2`.
#[verifier::external_type_specification]
#[verifier::external_body]
pub struct ExTokenTree(proc_macro2::TokenTree);

/// Why a text could not be turned into tokens.
#[derive(Clone, Copy, Debug, PartialEq, Eq, Structural)]
pub enum LexError {
    /// The text is not a sequence of Rust tokens with balanced brackets.
    Invalid,
    /// Groups are nested deeper than [`MAX_DEPTH`].
    TooDeep,
    /// There are more tokens than can be numbered.
    TooLong,
}

/// What a token tree of `proc_macro2` holds: the text of a leaf, or the
/// delimiter and the trees of a group. A group whose delimiter is invisible
/// has none.
pub enum TreeView {
    Ident(Seq<char>),
    Punct(char, bool),
    Literal(Seq<char>),
    Group(Option<Delimiter>, Seq<TreeView>),
}

/// One token tree, opened one level.
pub enum RawTree {
    Ident(String),
    Punct(char, bool),
    Literal(String),
    Group(Option<Delimiter>, proc_macro2::TokenStream),
}

/// How deep groups may be nested.
pub const MAX_DEPTH: usize = 256;

/// The token trees that the lexer of `proc_macro2` itself reads from a
/// text, or nothing where the text does not lex.
pub uninterp spec fn lexed(src: Seq<char>) -> Option<Seq<TreeView>>;

/// The token trees that a stream holds, in order.
pub uninterp spec fn stream_view(stream: proc_macro2::TokenStream) -> Seq<TreeView>;

/// What a token tree holds.
pub uninterp spec fn tree_view(tree: proc_macro2::TokenTree) -> TreeView;

/// `<proc_macro2::TokenStream as FromStr>::from_str` between
/// `proc_macro2::fallback::force` and `proc_macro2::fallback::unforce`: the
/// stream of the token trees of `src`, or nothing where `src` does not lex.
/// Forced, `proc_macro2` reads the text with its own lexer wherever the call
/// is made, also inside a procedural macro, where it would else leave the
/// text to the compiler's.
#[verifier::external_body]
pub(crate) fn lex(src: &str) -> (r: Option<proc_macro2::TokenStream>)
    ensures
        match r {
            Some(stream) => lexed(src@) == Some(stream_view(stream)),
            None => lexed(src@).is_none(),
        },
{
    proc_macro2::fallback::force();
    let stream = proc_macro2::TokenStream::from_str(src).ok();
    proc_macro2::fallback::unforce();
    stream
}

/// `proc_macro2::TokenStream::into_iter` on a clone of the stream: the token
/// trees of the stream, in order.
#[verifier::external_body]
pub(crate) fn trees(stream: &proc_macro2::TokenStream) -> (r: Vec<proc_macro2::TokenTree>)
    ensures
        r@.len() == stream_view(*stream).len(),
        forall|i: int| 0 <= i < r@.len() ==> tree_view(#[trigger] r@[i]) == stream_view(*stream)[i],
{
    stream.clone().into_iter().collect()
}

/// `proc_macro2::Group::delimiter` of a group, by its four variants; the
/// invisible delimiter, like a tree that is no group, has no counterpart.
#[verifier::external_body]
pub(crate) fn group_delimiter(tree: &proc_macro2::TokenTree) -> (r: Option<Delimiter>)
    ensures
        match tree_view(*tree) {
            TreeView::Group(d, _) => r == d,
            _ => r.is_none(),
        },
{
    match tree {
        proc_macro2::TokenTree::Group(g) => match g.delimiter() {
            proc_macro2::Delimiter::Parenthesis => Some(Delimiter::Parenthesis),
            proc_macro2::Delimiter::Brace => Some(Delimiter::Brace),
            proc_macro2::Delimiter::Bracket => Some(Delimiter::Bracket),
            proc_macro2::Delimiter::None => None,
        },
        _ => None,
    }
}

/// Tells the four variants of `proc_macro2::TokenTree` apart, with
/// `Ident::to_string`, `Punct::as_char`, `Punct::spacing`,
/// `Literal::to_string` and `Group::stream`: what comes back holds what the
/// tree holds. A group gets the delimiter handed in.
#[verifier::external_body]
pub(crate) fn open_tree(tree: proc_macro2::TokenTree, delimiter: Option<Delimiter>) -> (r: RawTree)
    ensures
        match r {
            RawTree::Ident(s) => tree_view(tree) == TreeView::Ident(s@),
            RawTree::Punct(c, joint) => tree_view(tree) == TreeView::Punct(c, joint),
            RawTree::Literal(s) => tree_view(tree) == TreeView::Literal(s@),
            RawTree::Group(d, inner) => d == delimiter && (tree_view(tree) matches TreeView::Group(
                _,
                held,
            ) && held == stream_view(inner)),
        },
{
    match tree {
        proc_macro2::TokenTree::Ident(i) => RawTree::Ident(i.to_string()),
        proc_macro2::TokenTree::Punct(p) => RawTree::Punct(
            p.as_char(),
            matches!(p.spacing(), proc_macro2::Spacing::Joint),
        ),
        proc_macro2::TokenTree::Literal(l) => RawTree::Literal(l.to_string()),
        proc_macro2::TokenTree::Group(g) => RawTree::Group(delimiter, g.stream()),
    }
}

/// How many tokens a sequence holds, those inside its groups included.
pub open spec fn count(ts: Seq<TokenView>) -> nat
    decreases ts,
{
    if ts.len() == 0 {
        0
    } else {
        count(ts.drop_last()) + count_token(ts.last())
    }
}

pub open spec fn count_token(t: TokenView) -> nat
    decreases t,
{
    match t.kind {
        TokenKindView::Group(_, inner) => 1 + count(inner),
        _ => 1,
    }
}

/// Whether the spans of `ts` count up from `start` in source order: a group
/// comes before its contents, and its contents before what follows it.
pub open spec fn numbered(ts: Seq<TokenView>, start: int) -> bool
    decreases ts,
{
    if ts.len() == 0 {
        true
    } else {
        numbered(ts.drop_last(), start) && numbered_token(ts.last(), start + count(ts.drop_last()))
    }
}

pub open spec fn numbered_token(t: TokenView, n: int) -> bool
    decreases t,
{
    t.span == n && (t.kind matches TokenKindView::Group(_, inner) ==> numbered(inner, n + 1))
}

proof fn lemma_numbered_push(ts: Seq<TokenView>, t: TokenView, start: int)
    requires
        numbered(ts, start),
        numbered_token(t, start + count(ts)),
    ensures
        numbered(ts.push(t), start),
        count(ts.push(t)) == count(ts) + count_token(t),
{
    assert(ts.push(t).drop_last() =~= ts);
}

/// The tokens of `trees`, behind those of `acc`, with spans from `next` on,
/// and the next free span. The trees of a group without delimiter stand in
/// the place of the group. Groups may be nested `depth` deep, and spans must
/// stay below the largest number.
pub open spec fn spec_convert(trees: Seq<TreeView>, depth: nat, acc: Seq<TokenView>, next: int) -> Result<
    (Seq<TokenView>, int),
    LexError,
>
    decreases depth, trees.len(),
{
    if depth == 0 {
        Err(LexError::TooDeep)
    } else if trees.len() == 0 {
        Ok((acc, next))
    } else if !(0 <= next < usize::MAX) {
        Err(LexError::TooLong)
    } else {
        let rest = trees.drop_first();
        let span = next as usize;
        match trees[0] {
            TreeView::Ident(s) => spec_convert(rest, depth, acc.push(ident_view(s, span)), next + 1),
            TreeView::Punct(c, joint) => spec_convert(
                rest,
                depth,
                acc.push(punct_view(c, joint, span)),
                next + 1,
            ),
            TreeView::Literal(s) => spec_convert(
                rest,
                depth,
                acc.push(literal_view(s, span)),
                next + 1,
            ),
            TreeView::Group(Some(d), inner) => match spec_convert(
                inner,
                (depth - 1) as nat,
                Seq::empty(),
                next + 1,
            ) {
                Ok((held, after)) => spec_convert(
                    rest,
                    depth,
                    acc.push(group_view(d, held, span)),
                    after,
                ),
                Err(e) => Err(e),
            },
            TreeView::Group(None, inner) => match spec_convert(
                inner,
                (depth - 1) as nat,
                acc,
                next,
            ) {
                Ok((acc, after)) => spec_convert(rest, depth, acc, after),
                Err(e) => Err(e),
            },
        }
    }
}

/// The tokens of a text: those of the token trees that `proc_macro2` reads
/// from it, with spans from 1 on.
pub open spec fn spec_tokenize(src: Seq<char>) -> Result<Seq<TokenView>, LexError> {
    match lexed(src) {
        None => Err(LexError::Invalid),
        Some(trees) => match spec_convert(trees, MAX_DEPTH as nat, Seq::empty(), 1) {
            Ok((tokens, _)) => Ok(tokens),
            Err(e) => Err(e),
        },
    }
}

/// Appends the tokens of `stream` to `out`, numbering them from `next` on.
/// Returns the next free number.
fn convert_into(
    stream: proc_macro2::TokenStream,
    depth: usize,
    out: &mut Vec<Token>,
    first: usize,
    Ghost(start): Ghost<int>,
) -> (r: Result<usize, LexError>)
    requires
        numbered(tokens_view(old(out)@), start),
        first == start + count(tokens_view(old(out)@)),
    ensures
        match r {
            Ok(n) => spec_convert(
                stream_view(stream),
                depth as nat,
                tokens_view(old(out)@),
                first as int,
            ) == Ok::<(Seq<TokenView>, int), LexError>((tokens_view(final(out)@), n as int)),
            Err(e) => spec_convert(
                stream_view(stream),
                depth as nat,
                tokens_view(old(out)@),
                first as int,
            ) == Err::<(Seq<TokenView>, int), LexError>(e),
        },
        r matches Ok(n) ==> numbered(tokens_view(final(out)@), start) && n == start + count(
            tokens_view(final(out)@),
        ),
    decreases depth,
{
    broadcast use group_token_views;

    if depth == 0 {
        return Err(LexError::TooDeep);
    }
    let ghost all = stream_view(stream);
    let ghost goal = spec_convert(all, depth as nat, tokens_view(out@), first as int);
    let pending = trees(&stream);
    let mut next = first;
    proof {
        assert(all.skip(0) =~= all);
    }
    for tree in it: pending
        invariant
            depth > 0,
            it.seq() == pending@,
            pending@.len() == all.len(),
            all == stream_view(stream),
            goal == spec_convert(all, depth as nat, tokens_view(old(out)@), first as int),
            forall|i: int| 0 <= i < pending@.len() ==> tree_view(#[trigger] pending@[i]) == all[i],
            numbered(tokens_view(out@), start),
            next == start + count(tokens_view(out@)),
            spec_convert(all.skip(it.index()), depth as nat, tokens_view(out@), next as int)
                == goal,
    {
        let ghost i = it.index();
        let ghost before = tokens_view(out@);
        let ghost here = spec_convert(all.skip(i), depth as nat, before, next as int);
        proof {
            assert(all.skip(i).len() > 0);
            assert(all.skip(i)[0] == all[i]);
            assert(all.skip(i).drop_first() =~= all.skip(i + 1));
            assert(tree_view(tree) == all[i]);
        }
        if next == usize::MAX {
            proof {
                assert(here == Err::<(Seq<TokenView>, int), LexError>(LexError::TooLong));
            }
            return Err(LexError::TooLong);
        }
        let delimiter = group_delimiter(&tree);
        match open_tree(tree, delimiter) {
            RawTree::Ident(s) => {
                let t = Token::ident(s.as_str(), next);
                proof {
                    lemma_numbered_push(before, t@, start);
                    assert(here == spec_convert(
                        all.skip(i + 1),
                        depth as nat,
                        before.push(t@),
                        next + 1,
                    ));
                }
                let ghost tv = t@;
                out.push(t);
                next = next + 1;
                assert(tokens_view(out@) == before.push(tv));
            },
            RawTree::Punct(c, joint) => {
                let t = Token::punct(c, joint, next);
                proof {
                    lemma_numbered_push(before, t@, start);
                    assert(here == spec_convert(
                        all.skip(i + 1),
                        depth as nat,
                        before.push(t@),
                        next + 1,
                    ));
                }
                let ghost tv = t@;
                out.push(t);
                next = next + 1;
                assert(tokens_view(out@) == before.push(tv));
            },
            RawTree::Literal(s) => {
                let t = Token::literal(s.as_str(), next);
                proof {
                    lemma_numbered_push(before, t@, start);
                    assert(here == spec_convert(
                        all.skip(i + 1),
                        depth as nat,
                        before.push(t@),
                        next + 1,
                    ));
                }
                let ghost tv = t@;
                out.push(t);
                next = next + 1;
                assert(tokens_view(out@) == before.push(tv));
            },
            RawTree::Group(d, inner_stream) => {
                match d {
                    Some(delimiter) => {
                        let mut inner: Vec<Token> = Vec::new();
                        proof {
                            assert(tokens_view(inner@) =~= Seq::<TokenView>::empty());
                            assert(all[i] matches TreeView::Group(Some(d0), held) && d0
                                == delimiter && held == stream_view(inner_stream));
                        }
                        let converted = convert_into(
                            inner_stream,
                            depth - 1,
                            &mut inner,
                            next + 1,
                            Ghost(next + 1),
                        );
                        match converted {
                            Ok(after) => {
                                let t = Token::group(delimiter, inner, next);
                                let ghost tv = t@;
                                proof {
                                    lemma_numbered_push(before, t@, start);
                                    assert(here == spec_convert(
                                        all.skip(i + 1),
                                        depth as nat,
                                        before.push(t@),
                                        after as int,
                                    ));
                                }
                                out.push(t);
                                next = after;
                                assert(tokens_view(out@) == before.push(tv));
                            },
                            Err(e) => {
                                proof {
                                    assert(here == Err::<(Seq<TokenView>, int), LexError>(e));
                                }
                                return Err(e);
                            },
                        }
                    },
                    None => {
                        match convert_into(inner_stream, depth - 1, out, next, Ghost(start)) {
                            Ok(after) => {
                                proof {
                                    assert(here == spec_convert(
                                        all.skip(i + 1),
                                        depth as nat,
                                        tokens_view(out@),
                                        after as int,
                                    ));
                                }
                                next = after;
                            },
                            Err(e) => {
                                proof {
                                    assert(here == Err::<(Seq<TokenView>, int), LexError>(e));
                                }
                                return Err(e);
                            },
                        }
                    },
                }
            },
        }
    }
    proof {
        assert(all.skip(all.len() as int) =~= Seq::<TreeView>::empty());
    }
    Ok(next)
}

/// Turns source text into tokens. The spans count up from 1 in source
/// order.
pub fn tokenize(src: &str) -> (r: Result<Vec<Token>, LexError>)
    ensures
        match r {
            Ok(tokens) => spec_tokenize(src@) == Ok::<Seq<TokenView>, LexError>(
                tokens_view(tokens@),
            ),
            Err(e) => spec_tokenize(src@) == Err::<Seq<TokenView>, LexError>(e),
        },
        r matches Ok(tokens) ==> numbered(tokens_view(tokens@), 1),
{
    broadcast use group_token_views;

    match lex(src) {
        None => Err(LexError::Invalid),
        Some(stream) => {
            let mut out: Vec<Token> = Vec::new();
            match convert_into(stream, MAX_DEPTH, &mut out, 1, Ghost(1)) {
                Ok(_) => Ok(out),
                Err(e) => Err(e),
            }
        },
    }
}

} // verus!
