use crate::error::{ErrorKind, ParseError};
use crate::syntax::{find_path_end, path_end};
use crate::tokens::{
    at_group, at_ident, at_literal, at_name, at_punct, clone_tokens, group_at, group_token_views,
    is_group, is_ident, is_literal, is_punct, is_reserved, span_at, span_of, spells, tokens_view,
    Delimiter, Token, TokenKind, TokenView,
};
use crate::widgets::{
    opt_attrs_view, Attr, AttrKind, AttrKindView, AttrView, Attrs, Ident, IdentView, Path, PathView,
};
use crate::widgets::parse::result_view;
use vstd::prelude::*;

verus! {

/// The characters of a string literal between its quotes, where `text` is a
/// plain literal in double quotes.
pub open spec fn unquoted(text: Seq<char>) -> Option<Seq<char>> {
    if text.len() >= 2 && text[0] == '"' && text.last() == '"' {
        Some(text.subrange(1, text.len() - 1))
    } else {
        None
    }
}

/// The identifier that an attribute such as `name` is given: `(ident)` or
/// `= "ident"` behind the attribute's word.
pub open spec fn spec_ident_argument(inner: Seq<TokenView>) -> Option<IdentView> {
    if inner.len() == 2 && at_group(inner, 1, Delimiter::Parenthesis) {
        let arg = group_at(inner, 1);
        if arg.len() == 1 && at_name(arg, 0) {
            Some(IdentView { name: arg[0].kind->Ident_0, span: arg[0].span })
        } else {
            None
        }
    } else if inner.len() == 3 && at_punct(inner, 1, '=') && at_literal(inner, 2) {
        match unquoted(inner[2].kind->Literal_0) {
            Some(name) => Some(IdentView { name, span: inner[2].span }),
            None => None,
        }
    } else {
        None
    }
}

/// The path that `wrap` is given: `(path)` behind the word.
pub open spec fn spec_path_argument(inner: Seq<TokenView>) -> Option<PathView> {
    if inner.len() == 2 && at_group(inner, 1, Delimiter::Parenthesis) {
        let arg = group_at(inner, 1);
        match path_end(arg, 0) {
            Some((end, segments, idents)) => if end == arg.len() {
                Some(PathView { tokens: arg, segments, idents })
            } else {
                None
            },
            None => None,
        }
    } else {
        None
    }
}

/// The tokens that `track` is given: `(tokens)` behind the word.
pub open spec fn spec_tokens_argument(inner: Seq<TokenView>) -> Option<Seq<TokenView>> {
    if inner.len() == 2 && at_group(inner, 1, Delimiter::Parenthesis) {
        Some(group_at(inner, 1))
    } else {
        None
    }
}

/// The attribute that the tokens between `#[` and `]` spell. `scope` is the
/// span of the brackets.
#[verifier::opaque]
pub open spec fn spec_attr(inner: Seq<TokenView>, scope: usize) -> Result<AttrView, ParseError> {
    if !at_ident(inner, 0) {
        Err(ParseError { kind: ErrorKind::UnknownAttribute, span: span_at(inner, 0, scope) })
    } else {
        let word = inner[0].kind->Ident_0;
        let span = inner[0].span;
        let after = span_at(inner, 1, scope);
        let bad = Err::<AttrView, ParseError>(
            ParseError { kind: ErrorKind::AttributeArgument, span: after },
        );
        if word == "doc"@ {
            Ok(AttrView { kind: AttrKindView::Doc(inner), span })
        } else if word == "track"@ {
            match spec_tokens_argument(inner) {
                Some(guard) => Ok(AttrView { kind: AttrKindView::Track(guard), span }),
                None => bad,
            }
        } else if word == "name"@ {
            match spec_ident_argument(inner) {
                Some(name) => Ok(AttrView { kind: AttrKindView::Name(name), span }),
                None => bad,
            }
        } else if word == "transition"@ {
            match spec_ident_argument(inner) {
                Some(name) => Ok(AttrView { kind: AttrKindView::Transition(name), span }),
                None => bad,
            }
        } else if word == "wrap"@ {
            match spec_path_argument(inner) {
                Some(path) => Ok(AttrView { kind: AttrKindView::Wrap(path), span }),
                None => bad,
            }
        } else {
            match spec_flag(word) {
                Some(kind) => if inner.len() == 1 {
                    Ok(AttrView { kind, span })
                } else {
                    bad
                },
                None => Err(ParseError { kind: ErrorKind::UnknownAttribute, span }),
            }
        }
    }
}

/// The attribute without argument that `word` names.
pub open spec fn spec_flag(word: Seq<char>) -> Option<AttrKindView> {
    if word == "local"@ {
        Some(AttrKindView::Local)
    } else if word == "local_ref"@ {
        Some(AttrKindView::LocalRef)
    } else if word == "root"@ {
        Some(AttrKindView::Root)
    } else if word == "iterate"@ {
        Some(AttrKindView::Iterate)
    } else if word == "watch"@ {
        Some(AttrKindView::Watch)
    } else if word == "template"@ {
        Some(AttrKindView::Template)
    } else if word == "template_child"@ {
        Some(AttrKindView::TemplateChild)
    } else {
        None
    }
}

/// Whether an attribute starts at `pos`: `#` and a group in square brackets.
pub open spec fn at_attr(ts: Seq<TokenView>, pos: int) -> bool {
    at_punct(ts, pos, '#') && at_group(ts, pos + 1, Delimiter::Bracket)
}

/// The attributes that start at `pos`, behind those of `acc`, and the
/// position behind the last of them.
pub open spec fn spec_attrs_from(ts: Seq<TokenView>, pos: int, acc: Seq<AttrView>) -> Result<
    (Seq<AttrView>, int),
    ParseError,
>
    decreases ts.len() - pos,
{
    if at_attr(ts, pos) {
        match spec_attr(group_at(ts, pos + 1), ts[pos + 1].span) {
            Ok(attr) => spec_attrs_from(ts, pos + 2, acc.push(attr)),
            Err(e) => Err(e),
        }
    } else {
        Ok((acc, pos))
    }
}

/// The attributes that start at `pos`, if there is at least one, and the
/// position behind them.
#[verifier::opaque]
pub open spec fn spec_attrs(ts: Seq<TokenView>, pos: int) -> Result<
    (Option<Seq<AttrView>>, int),
    ParseError,
> {
    if at_attr(ts, pos) {
        match spec_attrs_from(ts, pos, Seq::empty()) {
            Ok((attrs, next)) => Ok((Some(attrs), next)),
            Err(e) => Err(e),
        }
    } else {
        Ok((None, pos))
    }
}

fn unquote(text: &String) -> (r: Option<String>)
    ensures
        match r {
            Some(s) => unquoted(text@) == Some(s@),
            None => unquoted(text@).is_none(),
        },
{
    let s = text.as_str();
    let len = s.unicode_len();
    if len >= 2 && s.get_char(0) == '"' && s.get_char(len - 1) == '"' {
        Some(String::from_str(s.substring_char(1, len - 1)))
    } else {
        None
    }
}

fn ident_argument(inner: &Vec<Token>) -> (r: Option<Ident>)
    ensures
        match r {
            Some(i) => spec_ident_argument(tokens_view(inner@)) == Some(i@),
            None => spec_ident_argument(tokens_view(inner@)).is_none(),
        },
{
    broadcast use group_token_views;

    if inner.len() == 2 && is_group(inner, 1, Delimiter::Parenthesis) {
        match &inner[1].kind {
            TokenKind::Group(_, arg) => {
                proof {
                    assert(tokens_view(inner@)[1] == inner@[1]@);
                    assert(group_at(tokens_view(inner@), 1) == tokens_view(arg@));
                }
                if arg.len() == 1 {
                    proof {
                        assert(tokens_view(arg@)[0] == arg@[0]@);
                    }
                    match &arg[0].kind {
                        TokenKind::Ident(name) => if is_reserved(name) {
                            None
                        } else {
                            Some(Ident { name: name.clone(), span: arg[0].span })
                        },
                        _ => None,
                    }
                } else {
                    None
                }
            },
            _ => None,
        }
    } else if inner.len() == 3 && is_punct(inner, 1, '=') && is_literal(inner, 2) {
        match &inner[2].kind {
            TokenKind::Literal(text) => {
                proof {
                    assert(tokens_view(inner@)[2] == inner@[2]@);
                }
                match unquote(text) {
                Some(name) => Some(Ident { name, span: inner[2].span }),
                None => None,
                }
            },
            _ => None,
        }
    } else {
        None
    }
}

fn path_argument(inner: &Vec<Token>) -> (r: Option<Path>)
    ensures
        match r {
            Some(p) => spec_path_argument(tokens_view(inner@)) == Some(p@),
            None => spec_path_argument(tokens_view(inner@)).is_none(),
        },
{
    broadcast use group_token_views;

    if inner.len() == 2 && is_group(inner, 1, Delimiter::Parenthesis) {
        match &inner[1].kind {
            TokenKind::Group(_, arg) => match find_path_end(arg, 0) {
                Some((end, segments, idents)) => if end == arg.len() {
                    Some(Path { tokens: clone_tokens(arg), segments, idents })
                } else {
                    None
                },
                None => None,
            },
            _ => None,
        }
    } else {
        None
    }
}

fn tokens_argument(inner: &Vec<Token>) -> (r: Option<Vec<Token>>)
    ensures
        match r {
            Some(ts) => spec_tokens_argument(tokens_view(inner@)) == Some(tokens_view(ts@)),
            None => spec_tokens_argument(tokens_view(inner@)).is_none(),
        },
{
    broadcast use group_token_views;

    if inner.len() == 2 && is_group(inner, 1, Delimiter::Parenthesis) {
        match &inner[1].kind {
            TokenKind::Group(_, arg) => Some(clone_tokens(arg)),
            _ => None,
        }
    } else {
        None
    }
}

fn flag(word: &String) -> (r: Option<AttrKind>)
    ensures
        match r {
            Some(kind) => spec_flag(word@) == Some((Attr { kind, span: 0 })@.kind),
            None => spec_flag(word@).is_none(),
        },
{
    if spells(word, "local") {
        Some(AttrKind::Local)
    } else if spells(word, "local_ref") {
        Some(AttrKind::LocalRef)
    } else if spells(word, "root") {
        Some(AttrKind::Root)
    } else if spells(word, "iterate") {
        Some(AttrKind::Iterate)
    } else if spells(word, "watch") {
        Some(AttrKind::Watch)
    } else if spells(word, "template") {
        Some(AttrKind::Template)
    } else if spells(word, "template_child") {
        Some(AttrKind::TemplateChild)
    } else {
        None
    }
}

/// Reads one attribute from the tokens between `#[` and `]`.
pub fn parse_attr(inner: &Vec<Token>, scope: usize) -> (r: Result<Attr, ParseError>)
    ensures
        result_view(r) == spec_attr(tokens_view(inner@), scope),
{
    broadcast use group_token_views;

    proof {
        reveal(spec_attr);
    }

    if !is_ident(inner, 0) {
        return Err(ParseError::new(ErrorKind::UnknownAttribute, span_of(inner, 0, scope)));
    }
    let span = inner[0].span;
    let after = span_of(inner, 1, scope);
    match &inner[0].kind {
        TokenKind::Ident(word) => {
            if spells(word, "doc") {
                Ok(Attr { kind: AttrKind::Doc(clone_tokens(inner)), span })
            } else if spells(word, "track") {
                match tokens_argument(inner) {
                    Some(guard) => Ok(Attr { kind: AttrKind::Track(guard), span }),
                    None => Err(ParseError::new(ErrorKind::AttributeArgument, after)),
                }
            } else if spells(word, "name") {
                match ident_argument(inner) {
                    Some(name) => Ok(Attr { kind: AttrKind::Name(name), span }),
                    None => Err(ParseError::new(ErrorKind::AttributeArgument, after)),
                }
            } else if spells(word, "transition") {
                match ident_argument(inner) {
                    Some(name) => Ok(Attr { kind: AttrKind::Transition(name), span }),
                    None => Err(ParseError::new(ErrorKind::AttributeArgument, after)),
                }
            } else if spells(word, "wrap") {
                match path_argument(inner) {
                    Some(path) => Ok(Attr { kind: AttrKind::Wrap(path), span }),
                    None => Err(ParseError::new(ErrorKind::AttributeArgument, after)),
                }
            } else {
                match flag(word) {
                    Some(kind) => if inner.len() == 1 {
                        Ok(Attr { kind, span })
                    } else {
                        Err(ParseError::new(ErrorKind::AttributeArgument, after))
                    },
                    None => Err(ParseError::new(ErrorKind::UnknownAttribute, span)),
                }
            }
        },
        _ => Err(ParseError::new(ErrorKind::UnknownAttribute, span)),
    }
}

pub fn is_attr(ts: &Vec<Token>, pos: usize) -> (b: bool)
    ensures
        b == at_attr(tokens_view(ts@), pos as int),
{
    is_punct(ts, pos, '#') && pos < ts.len() - 1 && is_group(ts, pos + 1, Delimiter::Bracket)
}

/// Reads the attributes that start at `pos`.
pub fn parse_attrs(ts: &Vec<Token>, pos: usize) -> (r: Result<(Option<Attrs>, usize), ParseError>)
    requires
        pos <= ts.len(),
    ensures
        match r {
            Ok((attrs, next)) => spec_attrs(tokens_view(ts@), pos as int) == Ok::<
                (Option<Seq<AttrView>>, int),
                ParseError,
            >((opt_attrs_view(attrs), next as int)) && pos <= next <= ts.len(),
            Err(e) => spec_attrs(tokens_view(ts@), pos as int) == Err::<
                (Option<Seq<AttrView>>, int),
                ParseError,
            >(e),
        },
{
    broadcast use group_token_views;

    proof {
        reveal(spec_attrs);
    }
    if !is_attr(ts, pos) {
        return Ok((None, pos));
    }
    let ghost tv = tokens_view(ts@);
    let mut inner: Vec<Attr> = Vec::new();
    let mut at: usize = pos;
    let ghost mut acc: Seq<AttrView> = Seq::empty();
    while is_attr(ts, at)
        invariant
            pos <= at <= ts.len(),
            tv == tokens_view(ts@),
            acc == (Attrs { inner })@,
            spec_attrs_from(tv, at as int, acc) == spec_attrs_from(tv, pos as int, Seq::empty()),
        decreases ts.len() - at,
    {
        proof {
            reveal(spec_attrs);
        }
        match &ts[at + 1].kind {
            TokenKind::Group(_, body) => {
                match parse_attr(body, ts[at + 1].span) {
                    Ok(attr) => {
                        proof {
                            acc = acc.push(attr@);
                        }
                        inner.push(attr);
                        proof {
                            assert((Attrs { inner })@ =~= acc);
                        }
                    },
                    Err(e) => {
                        return Err(e);
                    },
                }
            },
            _ => {},
        }
        at = at + 2;
    }
    Ok((Some(Attrs { inner }), at))
}

} // verus!
