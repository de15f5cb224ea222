use crate::lex::{
    group_delimiter, lex, lexed, open_tree, stream_view, tree_view, trees, MAX_DEPTH, RawTree,
    TreeView,
};
use crate::text::{render, render_from};
use crate::tokens::{group_token_views, tokens_view, Token, TokenKind, TokenKindView, TokenView};
use vstd::prelude::*;

verus! {

pub open spec fn names_view(names: Seq<String>) -> Seq<Seq<char>> {
    Seq::new(names.len(), |i: int| names[i]@)
}

pub open spec fn is_digit(c: char) -> bool {
    '0' <= c <= '9'
}

pub open spec fn is_letter(c: char) -> bool {
    'a' <= c <= 'z' || 'A' <= c <= 'Z'
}

/// Whether an exponent with a sign starts at `from`: `e` or `E`, `+` or `-`,
/// and a digit.
pub open spec fn signed_exponent(text: Seq<char>, from: int) -> bool {
    0 <= from && from + 2 < text.len() && (text[from] == 'e' || text[from] == 'E') && (text[from
        + 1] == '+' || text[from + 1] == '-') && is_digit(text[from + 2])
}

/// Whether the characters from `from` on are those of a plain number:
/// digits, underscores and letters; at most one dot, which stands before
/// any letter; and a sign only between an `e` that is the first letter and a
/// digit. `dot` and `letter` say whether one was seen before `from`.
pub open spec fn plain_number(text: Seq<char>, from: int, dot: bool, letter: bool) -> bool
    decreases text.len() - from,
{
    if 0 <= from < text.len() {
        let c = text[from];
        if is_digit(c) || c == '_' {
            plain_number(text, from + 1, dot, letter)
        } else if is_letter(c) {
            if signed_exponent(text, from) && !letter {
                plain_number(text, from + 3, dot, true)
            } else {
                plain_number(text, from + 1, dot, true)
            }
        } else if c == '.' && !dot && !letter {
            plain_number(text, from + 1, true, letter)
        } else {
            false
        }
    } else {
        true
    }
}

/// Whether a literal starts as one of the forms that `syn` reads: a string,
/// a raw string, a character, a byte string or a byte, or a plain number. A
/// C string is none of them.
pub open spec fn known_literal(text: Seq<char>) -> bool {
    text.len() > 0 && (text[0] == '"' || text[0] == 'r' || text[0] == '\'' || (text[0] == 'b'
        && text.len() > 1 && (text[1] == '"' || text[1] == 'r' || text[1] == '\'')) || (is_digit(
        text[0],
    ) && plain_number(text, 0, false, false)))
}

/// Whether every literal among the trees, those inside groups included,
/// starts as a form that `syn` reads, and groups are nested less than `depth`
/// deep.
pub open spec fn literals_known(trees: Seq<TreeView>, depth: nat) -> bool
    decreases depth, trees.len(),
{
    if depth == 0 {
        false
    } else if trees.len() == 0 {
        true
    } else {
        (match trees[0] {
            TreeView::Literal(text) => known_literal(text),
            TreeView::Group(_, inner) => literals_known(inner, (depth - 1) as nat),
            _ => true,
        }) && literals_known(trees.drop_first(), depth)
    }
}

/// Whether the trees are what the lexer of `proc_macro2` read from some
/// text. Each literal among them is then written as that lexer accepts it:
/// its quotes are closed and its escapes are those of Rust.
pub open spec fn was_lexed(trees: Seq<TreeView>) -> bool {
    exists|text: Seq<char>| lexed(text) == Some(trees)
}

/// The token trees of a text that `syn` can be handed: the text lexes, and
/// [`literals_known`] holds of its trees.
pub open spec fn readable(text: Seq<char>) -> Option<Seq<TreeView>> {
    match lexed(text) {
        Some(trees) => if literals_known(trees, MAX_DEPTH as nat) {
            Some(trees)
        } else {
            None
        },
        None => None,
    }
}

/// What `syn` leaves unread behind the expression that starts the trees, or
/// nothing where no expression starts them.
pub uninterp spec fn expr_rest(trees: Seq<TreeView>) -> Option<Seq<TreeView>>;

/// As [`expr_rest`], for an expression that is followed by a block: a brace
/// ends the expression where it could otherwise begin a struct literal.
pub uninterp spec fn condition_rest(trees: Seq<TreeView>) -> Option<Seq<TreeView>>;

/// What `syn` leaves unread behind the pattern that starts the trees, or
/// nothing.
pub uninterp spec fn pattern_rest(trees: Seq<TreeView>) -> Option<Seq<TreeView>>;

/// What `syn` makes of the path that starts the trees: what it leaves
/// unread behind the path, whether the path starts with `::`, and for each
/// segment its identifier and the tokens of its generic arguments; or
/// nothing.
pub uninterp spec fn path_rest(trees: Seq<TreeView>) -> Option<
    (Seq<TreeView>, bool, Seq<(Seq<char>, Seq<TreeView>)>),
>;

/// Whether `syn` reads the trees as named fields with their types, with a
/// comma between them and, where one is written, behind the last.
pub uninterp spec fn fields_parse(trees: Seq<TreeView>) -> bool;

pub open spec fn segments_view(segments: Seq<(String, proc_macro2::TokenStream)>) -> Seq<
    (Seq<char>, Seq<TreeView>),
> {
    Seq::new(segments.len(), |i: int| (segments[i].0@, stream_view(segments[i].1)))
}

/// `<syn::Expr as syn::parse::Parse>::parse` on the stream, then the rest of
/// the stream, between `proc_macro2::fallback::force` and `unforce`, so that
/// `syn` works on the stream as `lex` made it. The stream must be one that
/// `proc_macro2` read from a text, and its literals of a form that `syn`
/// reads: `syn` panics on any other.
#[verifier::external_body]
fn syn_expr_rest(stream: proc_macro2::TokenStream) -> (r: Option<proc_macro2::TokenStream>)
    requires
        was_lexed(stream_view(stream)),
        literals_known(stream_view(stream), MAX_DEPTH as nat),
    ensures
        match r {
            Some(rest) => expr_rest(stream_view(stream)) == Some(stream_view(rest)),
            None => expr_rest(stream_view(stream)).is_none(),
        },
{
    let parser = |input: syn::parse::ParseStream| -> syn::Result<proc_macro2::TokenStream> {
        let _: syn::Expr = input.parse()?;
        input.parse()
    };
    proc_macro2::fallback::force();
    let rest = syn::parse::Parser::parse2(parser, stream).ok();
    proc_macro2::fallback::unforce();
    rest
}

/// `syn::Expr::parse_without_eager_brace` on the stream, then the rest of
/// the stream, between `proc_macro2::fallback::force` and `unforce`. The
/// stream must be one that `proc_macro2` read from a text, and its literals
/// of a form that `syn` reads.
#[verifier::external_body]
fn syn_condition_rest(stream: proc_macro2::TokenStream) -> (r: Option<proc_macro2::TokenStream>)
    requires
        was_lexed(stream_view(stream)),
        literals_known(stream_view(stream), MAX_DEPTH as nat),
    ensures
        match r {
            Some(rest) => condition_rest(stream_view(stream)) == Some(stream_view(rest)),
            None => condition_rest(stream_view(stream)).is_none(),
        },
{
    let parser = |input: syn::parse::ParseStream| -> syn::Result<proc_macro2::TokenStream> {
        let _ = syn::Expr::parse_without_eager_brace(input)?;
        input.parse()
    };
    proc_macro2::fallback::force();
    let rest = syn::parse::Parser::parse2(parser, stream).ok();
    proc_macro2::fallback::unforce();
    rest
}

/// `<syn::Pat as syn::parse::Parse>::parse` on the stream, then the rest of
/// the stream, between `proc_macro2::fallback::force` and `unforce`. The
/// stream must be one that `proc_macro2` read from a text, and its literals
/// of a form that `syn` reads.
#[verifier::external_body]
fn syn_pattern_rest(stream: proc_macro2::TokenStream) -> (r: Option<proc_macro2::TokenStream>)
    requires
        was_lexed(stream_view(stream)),
        literals_known(stream_view(stream), MAX_DEPTH as nat),
    ensures
        match r {
            Some(rest) => pattern_rest(stream_view(stream)) == Some(stream_view(rest)),
            None => pattern_rest(stream_view(stream)).is_none(),
        },
{
    let parser = |input: syn::parse::ParseStream| -> syn::Result<proc_macro2::TokenStream> {
        let _: syn::Pat = input.parse()?;
        input.parse()
    };
    proc_macro2::fallback::force();
    let rest = syn::parse::Parser::parse2(parser, stream).ok();
    proc_macro2::fallback::unforce();
    rest
}

/// `<syn::Path as syn::parse::Parse>::parse` on the stream, then the rest of
/// the stream; of the path its `leading_colon`, and of each segment
/// `Ident::to_string` of its identifier and `ToTokens::to_token_stream` of
/// its arguments, all between `proc_macro2::fallback::force` and `unforce`.
/// The stream must be one that `proc_macro2` read from a text, and its
/// literals of a form that `syn` reads.
#[verifier::external_body]
fn syn_path_rest(stream: proc_macro2::TokenStream) -> (r: Option<
    (proc_macro2::TokenStream, bool, Vec<(String, proc_macro2::TokenStream)>),
>)
    requires
        was_lexed(stream_view(stream)),
        literals_known(stream_view(stream), MAX_DEPTH as nat),
    ensures
        match r {
            Some((rest, leading, segments)) => path_rest(stream_view(stream)) == Some(
                (stream_view(rest), leading, segments_view(segments@)),
            ),
            None => path_rest(stream_view(stream)).is_none(),
        },
{
    let parser = |input: syn::parse::ParseStream| -> syn::Result<(syn::Path, proc_macro2::TokenStream)> {
        Ok((input.parse()?, input.parse()?))
    };
    proc_macro2::fallback::force();
    let found = syn::parse::Parser::parse2(parser, stream).ok().map(
        |(path, rest)| {
            let segments = path.segments.iter().map(
                |s| (s.ident.to_string(), quote::ToTokens::to_token_stream(&s.arguments)),
            ).collect();
            (rest, path.leading_colon.is_some(), segments)
        },
    );
    proc_macro2::fallback::unforce();
    found
}

/// `syn::punctuated::Punctuated::<syn::Field, syn::token::Comma>::parse_terminated_with`
/// with `syn::Field::parse_named` on the stream, between
/// `proc_macro2::fallback::force` and `unforce`: whether it succeeds. The
/// stream must be one that `proc_macro2` read from a text, and its literals
/// of a form that `syn` reads.
#[verifier::external_body]
fn syn_fields_parse(stream: proc_macro2::TokenStream) -> (r: bool)
    requires
        was_lexed(stream_view(stream)),
        literals_known(stream_view(stream), MAX_DEPTH as nat),
    ensures
        r == fields_parse(stream_view(stream)),
{
    let parser = |input: syn::parse::ParseStream| {
        syn::punctuated::Punctuated::<syn::Field, syn::token::Comma>::parse_terminated_with(
            input,
            syn::Field::parse_named,
        )
    };
    proc_macro2::fallback::force();
    let parsed = syn::parse::Parser::parse2(parser, stream).is_ok();
    proc_macro2::fallback::unforce();
    parsed
}

fn is_plain_number(text: &str, len: usize) -> (b: bool)
    requires
        len == text@.len(),
    ensures
        b == plain_number(text@, 0, false, false),
{
    let mut dot = false;
    let mut letter = false;
    let mut i: usize = 0;
    while i < len
        invariant
            i <= len,
            len == text@.len(),
            plain_number(text@, i as int, dot, letter) == plain_number(text@, 0, false, false),
        decreases len - i,
    {
        let c = text.get_char(i);
        if ('0' <= c && c <= '9') || c == '_' {
        } else if ('a' <= c && c <= 'z') || ('A' <= c && c <= 'Z') {
            if !letter && (c == 'e' || c == 'E') && len - i > 2 {
                let sign = text.get_char(i + 1);
                let digit = text.get_char(i + 2);
                if (sign == '+' || sign == '-') && '0' <= digit && digit <= '9' {
                    i += 2;
                }
            }
            letter = true;
        } else if c == '.' && !dot && !letter {
            dot = true;
        } else {
            return false;
        }
        i += 1;
    }
    true
}

/// Finds out whether a literal starts as one of the forms that `syn` reads.
pub fn is_known_literal(text: &str) -> (b: bool)
    ensures
        b == known_literal(text@),
{
    let len = text.unicode_len();
    if len == 0 {
        return false;
    }
    let first = text.get_char(0);
    if first == '"' || first == 'r' || first == '\'' {
        return true;
    }
    if first == 'b' && len > 1 {
        let second = text.get_char(1);
        if second == '"' || second == 'r' || second == '\'' {
            return true;
        }
    }
    '0' <= first && first <= '9' && is_plain_number(text, len)
}

/// Finds out whether `syn` can be handed the stream.
fn stream_known(stream: &proc_macro2::TokenStream, depth: usize) -> (b: bool)
    ensures
        b == literals_known(stream_view(*stream), depth as nat),
    decreases depth,
{
    if depth == 0 {
        return false;
    }
    let ghost all = stream_view(*stream);
    let pending = trees(stream);
    proof {
        assert(all.skip(0) =~= all);
    }
    for tree in it: pending
        invariant
            depth > 0,
            it.seq() == pending@,
            pending@.len() == all.len(),
            all == stream_view(*stream),
            forall|i: int| 0 <= i < pending@.len() ==> tree_view(#[trigger] pending@[i]) == all[i],
            literals_known(all.skip(it.index()), depth as nat) == literals_known(all, depth as nat),
    {
        let ghost i = it.index();
        proof {
            assert(all.skip(i).len() > 0);
            assert(all.skip(i)[0] == all[i]);
            assert(all.skip(i).drop_first() =~= all.skip(i + 1));
            assert(tree_view(tree) == all[i]);
        }
        let delimiter = group_delimiter(&tree);
        let known = match open_tree(tree, delimiter) {
            RawTree::Literal(text) => is_known_literal(text.as_str()),
            RawTree::Group(_, inner) => stream_known(&inner, depth - 1),
            _ => true,
        };
        if !known {
            return false;
        }
    }
    proof {
        assert(all.skip(all.len() as int) =~= Seq::<TreeView>::empty());
    }
    true
}

/// The stream of the tokens from `pos` on, where `syn` can be handed it.
fn readable_stream(ts: &Vec<Token>, pos: usize) -> (r: Option<proc_macro2::TokenStream>)
    requires
        pos <= ts.len(),
    ensures
        match r {
            Some(stream) => readable(render(tokens_view(ts@).skip(pos as int))) == Some(
                stream_view(stream),
            ) && was_lexed(stream_view(stream)) && literals_known(
                stream_view(stream),
                MAX_DEPTH as nat,
            ),
            None => readable(render(tokens_view(ts@).skip(pos as int))).is_none(),
        },
{
    let text = render_from(ts, pos);
    match lex(text.as_str()) {
        Some(stream) => if stream_known(&stream, MAX_DEPTH) {
            Some(stream)
        } else {
            None
        },
        None => None,
    }
}

/// Where a piece of syntax that starts at `pos` ends, given how many of the
/// `len` tokens were left unread behind it: nothing where none was read, or
/// where more are said to be left than there were.
pub open spec fn prefix_end(len: int, pos: int, rest: int) -> Option<int> {
    if 0 <= rest < len - pos {
        Some(len - rest)
    } else {
        None
    }
}

/// Where the piece of syntax that starts at `pos` ends, given what `syn`
/// left unread of the tokens from `pos` on.
pub open spec fn end_behind(ts: Seq<TokenView>, pos: int, rest: Option<Seq<TreeView>>) -> Option<
    int,
> {
    match rest {
        Some(rest) => prefix_end(ts.len() as int, pos, rest.len() as int),
        None => None,
    }
}

/// Where the expression that starts at `pos` ends.
pub open spec fn expr_end(ts: Seq<TokenView>, pos: int) -> Option<int> {
    match readable(render(ts.skip(pos))) {
        Some(trees) => end_behind(ts, pos, expr_rest(trees)),
        None => None,
    }
}

/// Where the expression before a block that starts at `pos` ends.
pub open spec fn condition_end(ts: Seq<TokenView>, pos: int) -> Option<int> {
    match readable(render(ts.skip(pos))) {
        Some(trees) => end_behind(ts, pos, condition_rest(trees)),
        None => None,
    }
}

/// Where the pattern that starts at `pos` ends.
pub open spec fn pattern_end(ts: Seq<TokenView>, pos: int) -> Option<int> {
    match readable(render(ts.skip(pos))) {
        Some(trees) => end_behind(ts, pos, pattern_rest(trees)),
        None => None,
    }
}

/// Where the identifier of segment `k` stands among the tokens of a path:
/// behind `::` where the path starts with it, and behind the identifier, the
/// arguments and the `::` of each segment before it.
pub open spec fn place_of(leading: bool, segments: Seq<(Seq<char>, Seq<TreeView>)>, k: int) -> int
    decreases k,
{
    if k <= 0 {
        if leading {
            2
        } else {
            0
        }
    } else {
        place_of(leading, segments, k - 1) + 3 + segments[k - 1].1.len()
    }
}

/// Whether the identifier of each segment stands at its place among the
/// tokens from `pos` up to `end`.
pub open spec fn places_fit(
    ts: Seq<TokenView>,
    pos: int,
    end: int,
    leading: bool,
    segments: Seq<(Seq<char>, Seq<TreeView>)>,
) -> bool {
    forall|k: int|
        0 <= k < segments.len() ==> pos + #[trigger] place_of(leading, segments, k) < end && ts[pos
            + place_of(leading, segments, k)].kind == TokenKindView::Ident(segments[k].0)
}

/// Where the path that starts at `pos` ends, the names of its segments, and
/// the place of each segment's identifier among the path's tokens.
pub open spec fn path_end(ts: Seq<TokenView>, pos: int) -> Option<
    (int, Seq<Seq<char>>, Seq<usize>),
> {
    match readable(render(ts.skip(pos))) {
        Some(trees) => match path_rest(trees) {
            Some((rest, leading, segments)) => match prefix_end(
                ts.len() as int,
                pos,
                rest.len() as int,
            ) {
                Some(end) => if places_fit(ts, pos, end, leading, segments) {
                    Some(
                        (
                            end,
                            Seq::new(segments.len(), |k: int| segments[k].0),
                            Seq::new(
                                segments.len(),
                                |k: int| place_of(leading, segments, k) as usize,
                            ),
                        ),
                    )
                } else {
                    None
                },
                None => None,
            },
            None => None,
        },
        None => None,
    }
}

/// Whether the tokens are named fields with their types.
pub open spec fn are_fields(ts: Seq<TokenView>) -> bool {
    match readable(render(ts)) {
        Some(trees) => fields_parse(trees),
        None => false,
    }
}

/// Turns what was left unread into the position where the piece of syntax
/// that starts at `pos` ends.
fn end_of_prefix(ts: &Vec<Token>, pos: usize, rest: Option<proc_macro2::TokenStream>) -> (r: Option<
    usize,
>)
    requires
        pos <= ts.len(),
    ensures
        match r {
            Some(end) => end_behind(
                tokens_view(ts@),
                pos as int,
                match rest {
                    Some(rest) => Some(stream_view(rest)),
                    None => None,
                },
            ) == Some(end as int) && pos < end <= ts.len(),
            None => end_behind(
                tokens_view(ts@),
                pos as int,
                match rest {
                    Some(rest) => Some(stream_view(rest)),
                    None => None,
                },
            ).is_none(),
        },
{
    broadcast use group_token_views;

    match rest {
        Some(rest) => {
            let left = trees(&rest).len();
            if left < ts.len() - pos {
                Some(ts.len() - left)
            } else {
                None
            }
        },
        None => None,
    }
}

/// Finds the end of the expression that starts at `pos`.
pub fn find_expr_end(ts: &Vec<Token>, pos: usize) -> (r: Option<usize>)
    requires
        pos <= ts.len(),
    ensures
        match r {
            Some(end) => expr_end(tokens_view(ts@), pos as int) == Some(end as int) && pos < end
                <= ts.len(),
            None => expr_end(tokens_view(ts@), pos as int).is_none(),
        },
{
    match readable_stream(ts, pos) {
        Some(stream) => end_of_prefix(ts, pos, syn_expr_rest(stream)),
        None => None,
    }
}

/// Finds the end of the expression before a block that starts at `pos`.
pub fn find_condition_end(ts: &Vec<Token>, pos: usize) -> (r: Option<usize>)
    requires
        pos <= ts.len(),
    ensures
        match r {
            Some(end) => condition_end(tokens_view(ts@), pos as int) == Some(end as int) && pos
                < end <= ts.len(),
            None => condition_end(tokens_view(ts@), pos as int).is_none(),
        },
{
    match readable_stream(ts, pos) {
        Some(stream) => end_of_prefix(ts, pos, syn_condition_rest(stream)),
        None => None,
    }
}

/// Finds the end of the pattern that starts at `pos`.
pub fn find_pattern_end(ts: &Vec<Token>, pos: usize) -> (r: Option<usize>)
    requires
        pos <= ts.len(),
    ensures
        match r {
            Some(end) => pattern_end(tokens_view(ts@), pos as int) == Some(end as int) && pos < end
                <= ts.len(),
            None => pattern_end(tokens_view(ts@), pos as int).is_none(),
        },
{
    match readable_stream(ts, pos) {
        Some(stream) => end_of_prefix(ts, pos, syn_pattern_rest(stream)),
        None => None,
    }
}

/// Takes the names out of the segments and finds the place of each
/// segment's identifier among the tokens from `pos` up to `end`.
fn segment_places(
    ts: &Vec<Token>,
    pos: usize,
    end: usize,
    leading: bool,
    segments: Vec<(String, proc_macro2::TokenStream)>,
) -> (r: Option<(Vec<String>, Vec<usize>)>)
    requires
        pos < end <= ts.len(),
    ensures
        match r {
            Some((names, places)) => {
                let sv = segments_view(segments@);
                &&& places_fit(tokens_view(ts@), pos as int, end as int, leading, sv)
                &&& names_view(names@) == Seq::new(sv.len(), |k: int| sv[k].0)
                &&& places@ == Seq::new(sv.len(), |k: int| place_of(leading, sv, k) as usize)
            },
            None => !places_fit(
                tokens_view(ts@),
                pos as int,
                end as int,
                leading,
                segments_view(segments@),
            ),
        },
{
    broadcast use group_token_views;

    let ghost tv = tokens_view(ts@);
    let ghost sv = segments_view(segments@);
    let limit = end - pos;
    let mut names: Vec<String> = Vec::new();
    let mut places: Vec<usize> = Vec::new();
    let mut at: Option<usize> = Some(if leading {
        2
    } else {
        0
    });
    for segment in it: segments
        invariant
            pos < end <= ts.len(),
            limit == end - pos,
            tv == tokens_view(ts@),
            it.seq() == segments@,
            sv == segments_view(segments@),
            names@.len() == it.index(),
            places@.len() == it.index(),
            match at {
                Some(place) => place == place_of(leading, sv, it.index()),
                None => place_of(leading, sv, it.index()) >= limit,
            },
            forall|k: int| 0 <= k < it.index() ==> (#[trigger] names@[k])@ == sv[k].0,
            forall|k: int|
                0 <= k < it.index() ==> #[trigger] places@[k] == place_of(leading, sv, k),
            forall|k: int|
                0 <= k < it.index() ==> pos + #[trigger] place_of(leading, sv, k) < end && tv[pos
                    + place_of(leading, sv, k)].kind == TokenKindView::Ident(sv[k].0),
    {
        let ghost k = it.index();
        proof {
            assert(sv[k] == (segment.0@, stream_view(segment.1)));
        }
        let place = match at {
            Some(place) => place,
            None => {
                proof {
                    assert(!(pos + place_of(leading, sv, k) < end));
                }
                return None;
            },
        };
        if place >= limit {
            proof {
                assert(!(pos + place_of(leading, sv, k) < end));
            }
            return None;
        }
        let named = match &ts[pos + place].kind {
            TokenKind::Ident(name) => *name == segment.0,
            _ => false,
        };
        proof {
            assert(tv[pos + place] == ts@[pos + place]@);
        }
        if !named {
            proof {
                assert(tv[pos + place_of(leading, sv, k)].kind != TokenKindView::Ident(sv[k].0));
            }
            return None;
        }
        proof {
            assert(tv[pos + place_of(leading, sv, k)].kind == TokenKindView::Ident(sv[k].0));
        }
        let arguments = trees(&segment.1).len();
        let room = limit - place;
        at = if room > 3 && arguments < room - 3 {
            Some(place + 3 + arguments)
        } else {
            None
        };
        names.push(segment.0);
        places.push(place);
    }
    proof {
        assert(names_view(names@) =~= Seq::new(sv.len(), |k: int| sv[k].0));
        assert(places@ =~= Seq::new(sv.len(), |k: int| place_of(leading, sv, k) as usize));
    }
    Some((names, places))
}

/// Finds the end of the path that starts at `pos`, the names of its
/// segments and the places of their identifiers.
pub fn find_path_end(ts: &Vec<Token>, pos: usize) -> (r: Option<(usize, Vec<String>, Vec<usize>)>)
    requires
        pos <= ts.len(),
    ensures
        match r {
            Some((end, names, places)) => path_end(tokens_view(ts@), pos as int) == Some(
                (end as int, names_view(names@), places@),
            ) && pos < end <= ts.len(),
            None => path_end(tokens_view(ts@), pos as int).is_none(),
        },
{
    let stream = match readable_stream(ts, pos) {
        Some(stream) => stream,
        None => {
            return None;
        },
    };
    let (rest, leading, segments) = match syn_path_rest(stream) {
        Some(found) => found,
        None => {
            return None;
        },
    };
    let end = match end_of_prefix(ts, pos, Some(rest)) {
        Some(end) => end,
        None => {
            return None;
        },
    };
    match segment_places(ts, pos, end, leading, segments) {
        Some((names, places)) => Some((end, names, places)),
        None => None,
    }
}

/// Finds out whether `syn` can be handed the tokens: their text lexes, its
/// groups are nested less than [`MAX_DEPTH`] deep, and each of its literals
/// starts as a form that `syn` reads.
pub fn can_be_read(ts: &Vec<Token>) -> (b: bool)
    ensures
        b == readable(render(tokens_view(ts@))).is_some(),
{
    proof {
        assert(tokens_view(ts@).skip(0) =~= tokens_view(ts@));
    }
    readable_stream(ts, 0).is_some()
}

/// Finds out whether the tokens are named fields with their types.
pub fn check_fields(ts: &Vec<Token>) -> (r: bool)
    ensures
        r == are_fields(tokens_view(ts@)),
{
    proof {
        assert(tokens_view(ts@).skip(0) =~= tokens_view(ts@));
    }
    match readable_stream(ts, 0) {
        Some(stream) => syn_fields_parse(stream),
        None => false,
    }
}

} // verus!
