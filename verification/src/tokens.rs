use vstd::prelude::*;

verus! {

/// The brackets around a group of tokens.
#[derive(Clone, Copy, Debug, PartialEq, Eq, Structural)]
pub enum Delimiter {
    Parenthesis,
    Brace,
    Bracket,
}

/// One token tree of the input, with the place it came from. Span 0 stands
/// for "no place in the input": the place where generated code is spliced in.
#[derive(Debug, PartialEq, Eq)]
pub struct Token {
    pub kind: TokenKind,
    pub span: usize,
}

/// What a token is: a leaf with its text, or a group with its tokens.
#[derive(Debug, PartialEq, Eq)]
pub enum TokenKind {
    Ident(String),
    /// A punctuation character and whether the next token joins it.
    Punct(char, bool),
    Literal(String),
    Group(Delimiter, Vec<Token>),
}

/// What a [`Token`] is to the contracts: its text as characters, its group as
/// a sequence.
pub struct TokenView {
    pub kind: TokenKindView,
    pub span: usize,
}

pub enum TokenKindView {
    Ident(Seq<char>),
    Punct(char, bool),
    Literal(Seq<char>),
    Group(Delimiter, Seq<TokenView>),
}

pub open spec fn token_view(t: Token) -> TokenView
    decreases t,
{
    TokenView {
        kind: match t.kind {
            TokenKind::Ident(s) => TokenKindView::Ident(s@),
            TokenKind::Punct(c, j) => TokenKindView::Punct(c, j),
            TokenKind::Literal(s) => TokenKindView::Literal(s@),
            TokenKind::Group(d, inner) => TokenKindView::Group(d, tokens_view(inner@)),
        },
        span: t.span,
    }
}

/// The view of a sequence of tokens: the view of each, in order.
pub open spec fn tokens_view(ts: Seq<Token>) -> Seq<TokenView>
    decreases ts,
{
    Seq::new(
        ts.len(),
        |i: int|
            if 0 <= i < ts.len() {
                token_view(ts[i])
            } else {
                arbitrary()
            },
    )
}

impl View for Token {
    type V = TokenView;

    open spec fn view(&self) -> TokenView {
        token_view(*self)
    }
}

pub broadcast proof fn lemma_view_len(ts: Seq<Token>)
    ensures
        #[trigger] tokens_view(ts).len() == ts.len(),
{
}

pub broadcast proof fn lemma_view_index(ts: Seq<Token>, i: int)
    requires
        0 <= i < ts.len(),
    ensures
        #[trigger] tokens_view(ts)[i] == token_view(ts[i]),
{
}

pub broadcast proof fn lemma_view_push(ts: Seq<Token>, t: Token)
    ensures
        #[trigger] tokens_view(ts.push(t)) == tokens_view(ts).push(token_view(t)),
{
    assert(tokens_view(ts.push(t)) =~= tokens_view(ts).push(token_view(t)));
}

pub broadcast proof fn lemma_view_empty()
    ensures
        #[trigger] tokens_view(Seq::<Token>::empty()) == Seq::<TokenView>::empty(),
{
    assert(tokens_view(Seq::<Token>::empty()) =~= Seq::<TokenView>::empty());
}

pub broadcast proof fn lemma_view_concat(a: Seq<Token>, b: Seq<Token>)
    ensures
        #[trigger] tokens_view(a + b) == tokens_view(a) + tokens_view(b),
{
    assert(tokens_view(a + b) =~= tokens_view(a) + tokens_view(b));
}

pub broadcast group group_token_views {
    lemma_view_concat,
    lemma_view_len,
    lemma_view_index,
    lemma_view_push,
    lemma_view_empty,
}

pub open spec fn ident_view(name: Seq<char>, span: usize) -> TokenView {
    TokenView { kind: TokenKindView::Ident(name), span }
}

pub open spec fn punct_view(c: char, joint: bool, span: usize) -> TokenView {
    TokenView { kind: TokenKindView::Punct(c, joint), span }
}

pub open spec fn literal_view(text: Seq<char>, span: usize) -> TokenView {
    TokenView { kind: TokenKindView::Literal(text), span }
}

pub open spec fn group_view(d: Delimiter, inner: Seq<TokenView>, span: usize) -> TokenView {
    TokenView { kind: TokenKindView::Group(d, inner), span }
}

/// Whether token `pos` is the punctuation character `c`.
pub open spec fn at_punct(ts: Seq<TokenView>, pos: int, c: char) -> bool {
    0 <= pos < ts.len() && (ts[pos].kind matches TokenKindView::Punct(p, _) && p == c)
}

/// Whether tokens `pos` and `pos + 1` are the two-character punctuation
/// `c1 c2`, written without a space between them.
pub open spec fn at_punct2(ts: Seq<TokenView>, pos: int, c1: char, c2: char) -> bool {
    0 <= pos && pos + 1 < ts.len() && ts[pos].kind == TokenKindView::Punct(c1, true) && at_punct(
        ts,
        pos + 1,
        c2,
    )
}

/// Whether token `pos` is an identifier.
pub open spec fn at_ident(ts: Seq<TokenView>, pos: int) -> bool {
    0 <= pos < ts.len() && ts[pos].kind is Ident
}

/// Whether token `pos` is the identifier `word`.
pub open spec fn at_word(ts: Seq<TokenView>, pos: int, word: Seq<char>) -> bool {
    0 <= pos < ts.len() && ts[pos].kind == TokenKindView::Ident(word)
}

/// Whether token `pos` is a literal.
pub open spec fn at_literal(ts: Seq<TokenView>, pos: int) -> bool {
    0 <= pos < ts.len() && ts[pos].kind is Literal
}

/// Whether token `pos` is a group in the brackets `d`.
pub open spec fn at_group(ts: Seq<TokenView>, pos: int, d: Delimiter) -> bool {
    0 <= pos < ts.len() && (ts[pos].kind matches TokenKindView::Group(g, _) && g == d)
}

/// The tokens inside the group at `pos`.
pub open spec fn group_at(ts: Seq<TokenView>, pos: int) -> Seq<TokenView> {
    ts[pos].kind->Group_1
}

/// The span of token `pos`, or `end` where the tokens are used up.
pub open spec fn span_at(ts: Seq<TokenView>, pos: int, end: usize) -> usize {
    if 0 <= pos < ts.len() {
        ts[pos].span
    } else {
        end
    }
}

impl Token {
    pub fn ident(name: &str, span: usize) -> (t: Token)
        ensures
            t@ == ident_view(name@, span),
    {
        Token { kind: TokenKind::Ident(String::from_str(name)), span }
    }

    pub fn punct(c: char, joint: bool, span: usize) -> (t: Token)
        ensures
            t@ == punct_view(c, joint, span),
    {
        Token { kind: TokenKind::Punct(c, joint), span }
    }

    pub fn literal(text: &str, span: usize) -> (t: Token)
        ensures
            t@ == literal_view(text@, span),
    {
        Token { kind: TokenKind::Literal(String::from_str(text)), span }
    }

    pub fn group(d: Delimiter, inner: Vec<Token>, span: usize) -> (t: Token)
        ensures
            t@ == group_view(d, tokens_view(inner@), span),
    {
        Token { kind: TokenKind::Group(d, inner), span }
    }
}

pub fn clone_token(t: &Token) -> (r: Token)
    ensures
        r@ == t@,
    decreases t,
{
    let kind = match &t.kind {
        TokenKind::Ident(s) => TokenKind::Ident(s.clone()),
        TokenKind::Punct(c, j) => TokenKind::Punct(*c, *j),
        TokenKind::Literal(s) => TokenKind::Literal(s.clone()),
        TokenKind::Group(d, inner) => TokenKind::Group(*d, clone_tokens(inner)),
    };
    Token { kind, span: t.span }
}

pub fn clone_tokens(ts: &Vec<Token>) -> (r: Vec<Token>)
    ensures
        tokens_view(r@) == tokens_view(ts@),
    decreases ts,
{
    let mut out: Vec<Token> = Vec::new();
    let mut i: usize = 0;
    while i < ts.len()
        invariant
            i <= ts.len(),
            out@.len() == i,
            forall|j: int| 0 <= j < i ==> (#[trigger] out@[j])@ == ts@[j]@,
        decreases ts.len() - i,
    {
        out.push(clone_token(&ts[i]));
        i += 1;
    }
    proof {
        assert(tokens_view(out@) =~= tokens_view(ts@));
    }
    out
}

/// A copy of the tokens from `from` up to, not including, `to`.
pub fn slice(ts: &Vec<Token>, from: usize, to: usize) -> (r: Vec<Token>)
    requires
        from <= to <= ts.len(),
    ensures
        tokens_view(r@) == tokens_view(ts@).subrange(from as int, to as int),
{
    let mut out: Vec<Token> = Vec::new();
    let mut i: usize = from;
    while i < to
        invariant
            from <= i <= to <= ts.len(),
            out@.len() == i - from,
            forall|j: int| 0 <= j < i - from ==> (#[trigger] out@[j])@ == ts@[from + j]@,
        decreases to - i,
    {
        out.push(clone_token(&ts[i]));
        i += 1;
    }
    proof {
        assert(tokens_view(out@) =~= tokens_view(ts@).subrange(from as int, to as int));
    }
    out
}

/// Appends a copy of `more` to `out`.
pub fn extend(out: &mut Vec<Token>, more: &Vec<Token>)
    ensures
        tokens_view(final(out)@) == tokens_view(old(out)@) + tokens_view(more@),
{
    let mut i: usize = 0;
    proof {
        assert(tokens_view(out@) =~= tokens_view(old(out)@) + tokens_view(more@).take(0));
    }
    while i < more.len()
        invariant
            i <= more.len(),
            tokens_view(out@) == tokens_view(old(out)@) + tokens_view(more@).take(i as int),
        decreases more.len() - i,
    {
        let ghost before = out@;
        out.push(clone_token(&more[i]));
        proof {
            lemma_view_push(before, out@[before.len() as int]);
            assert(out@ =~= before.push(out@[before.len() as int]));
            assert(tokens_view(out@) =~= tokens_view(old(out)@) + tokens_view(more@).take(i + 1));
        }
        i += 1;
    }
    proof {
        assert(tokens_view(more@).take(i as int) =~= tokens_view(more@));
    }
}

pub fn is_punct(ts: &Vec<Token>, pos: usize, c: char) -> (b: bool)
    ensures
        b == at_punct(tokens_view(ts@), pos as int, c),
{
    if pos < ts.len() {
        match &ts[pos].kind {
            TokenKind::Punct(p, _) => *p == c,
            _ => false,
        }
    } else {
        false
    }
}

pub fn is_punct2(ts: &Vec<Token>, pos: usize, c1: char, c2: char) -> (b: bool)
    ensures
        b == at_punct2(tokens_view(ts@), pos as int, c1, c2),
{
    if pos < ts.len() && ts.len() - pos > 1 {
        match &ts[pos].kind {
            TokenKind::Punct(p, joint) => *p == c1 && *joint && is_punct(ts, pos + 1, c2),
            _ => false,
        }
    } else {
        false
    }
}

pub fn is_ident(ts: &Vec<Token>, pos: usize) -> (b: bool)
    ensures
        b == at_ident(tokens_view(ts@), pos as int),
{
    if pos < ts.len() {
        match &ts[pos].kind {
            TokenKind::Ident(_) => true,
            _ => false,
        }
    } else {
        false
    }
}

/// Whether `s` spells `word`.
pub fn spells(s: &String, word: &str) -> (b: bool)
    ensures
        b == (s@ == word@),
{
    let w = String::from_str(word);
    *s == w
}

pub fn is_word(ts: &Vec<Token>, pos: usize, word: &str) -> (b: bool)
    ensures
        b == at_word(tokens_view(ts@), pos as int, word@),
{
    if pos < ts.len() {
        match &ts[pos].kind {
            TokenKind::Ident(s) => spells(s, word),
            _ => false,
        }
    } else {
        false
    }
}

/// Whether `name` is `_` or a word that Rust keeps for itself, in this
/// edition or for later: a name cannot be spelled so. A raw identifier,
/// which begins with `r#`, is none of them.
pub open spec fn reserved(name: Seq<char>) -> bool {
    name == "_"@ || name == "abstract"@ || name == "as"@ || name == "become"@ || name == "box"@
        || name == "break"@ || name == "const"@ || name == "continue"@ || name == "crate"@
        || name == "do"@ || name == "else"@ || name == "enum"@ || name == "extern"@
        || name == "false"@ || name == "final"@ || name == "fn"@ || name == "for"@
        || name == "if"@ || name == "impl"@ || name == "in"@ || name == "let"@
        || name == "loop"@ || name == "macro"@ || name == "match"@ || name == "mod"@
        || name == "move"@ || name == "mut"@ || name == "override"@ || name == "priv"@
        || name == "pub"@ || name == "ref"@ || name == "return"@ || name == "Self"@
        || name == "self"@ || name == "static"@ || name == "struct"@ || name == "super"@
        || name == "trait"@ || name == "true"@ || name == "type"@ || name == "typeof"@
        || name == "unsafe"@ || name == "unsized"@ || name == "use"@ || name == "virtual"@
        || name == "where"@ || name == "while"@ || name == "yield"@
}

/// Finds out whether a name is spelled like a reserved word.
pub fn is_reserved(name: &String) -> (b: bool)
    ensures
        b == reserved(name@),
{
    spells(name, "_") || spells(name, "abstract") || spells(name, "as")
        || spells(name, "become") || spells(name, "box") || spells(name, "break")
        || spells(name, "const") || spells(name, "continue") || spells(name, "crate")
        || spells(name, "do") || spells(name, "else") || spells(name, "enum")
        || spells(name, "extern") || spells(name, "false") || spells(name, "final")
        || spells(name, "fn") || spells(name, "for") || spells(name, "if")
        || spells(name, "impl") || spells(name, "in") || spells(name, "let")
        || spells(name, "loop") || spells(name, "macro") || spells(name, "match")
        || spells(name, "mod") || spells(name, "move") || spells(name, "mut")
        || spells(name, "override") || spells(name, "priv") || spells(name, "pub")
        || spells(name, "ref") || spells(name, "return") || spells(name, "Self")
        || spells(name, "self") || spells(name, "static") || spells(name, "struct")
        || spells(name, "super") || spells(name, "trait") || spells(name, "true")
        || spells(name, "type") || spells(name, "typeof") || spells(name, "unsafe")
        || spells(name, "unsized") || spells(name, "use") || spells(name, "virtual")
        || spells(name, "where") || spells(name, "while") || spells(name, "yield")
}

/// Whether token `pos` is an identifier that can be a name: one that is not
/// [`reserved`].
pub open spec fn at_name(ts: Seq<TokenView>, pos: int) -> bool {
    at_ident(ts, pos) && !reserved(ts[pos].kind->Ident_0)
}

pub fn is_name(ts: &Vec<Token>, pos: usize) -> (b: bool)
    ensures
        b == at_name(tokens_view(ts@), pos as int),
{
    if pos < ts.len() {
        match &ts[pos].kind {
            TokenKind::Ident(name) => !is_reserved(name),
            _ => false,
        }
    } else {
        false
    }
}

pub fn is_literal(ts: &Vec<Token>, pos: usize) -> (b: bool)
    ensures
        b == at_literal(tokens_view(ts@), pos as int),
{
    if pos < ts.len() {
        match &ts[pos].kind {
            TokenKind::Literal(_) => true,
            _ => false,
        }
    } else {
        false
    }
}

pub fn is_group(ts: &Vec<Token>, pos: usize, d: Delimiter) -> (b: bool)
    ensures
        b == at_group(tokens_view(ts@), pos as int, d),
{
    if pos < ts.len() {
        match &ts[pos].kind {
            TokenKind::Group(g, _) => *g == d,
            _ => false,
        }
    } else {
        false
    }
}

pub fn span_of(ts: &Vec<Token>, pos: usize, end: usize) -> (s: usize)
    ensures
        s == span_at(tokens_view(ts@), pos as int, end),
{
    if pos < ts.len() {
        ts[pos].span
    } else {
        end
    }
}

} // verus!
