use crate::error::{ErrorKind, ParseError};
use crate::menu::{
    group_menu_views, menu_items_view, menus_view, Menu, MenuEntry, MenuEntryView, MenuItem,
    MenuItemView, MenuSection, MenuSectionView, MenuView, Menus,
};
use crate::syntax::{expr_end, find_expr_end};
use crate::tokens::{
    at_group, at_literal, at_name, at_punct, at_punct2, at_word, clone_tokens, group_at,
    group_token_views, is_group, is_literal, is_name, is_punct, is_punct2, is_word, slice, span_at,
    span_of, tokens_view, Delimiter, Token, TokenKind, TokenView,
};
use crate::widgets::{Ident, IdentView};
use crate::widgets::parse::{parsed_view, result_view};
use crate::widgets::parse::attrs::unquoted;
use crate::widgets::parse::grammar::err;
use crate::widgets::parse::widget_func::{parse_path, spec_path};
use vstd::prelude::*;

verus! {

/// The entry that starts at `pos`: the expression of its label, `=>`, the
/// path of its action and, in parentheses, the action's value.
pub open spec fn spec_menu_entry(ts: Seq<TokenView>, pos: int, end: usize) -> Result<
    (MenuEntryView, int),
    ParseError,
> {
    match expr_end(ts, pos) {
        None => err(ErrorKind::ExpectedMenuEntry, span_at(ts, pos, end)),
        Some(e) => if !(pos < e <= ts.len()) {
            err(ErrorKind::ExpectedMenuEntry, span_at(ts, pos, end))
        } else if !at_punct2(ts, e, '=', '>') {
            err(ErrorKind::ExpectedFatArrow, span_at(ts, e, end))
        } else {
            match spec_path(ts, e + 2, end) {
                Err(e) => Err(e),
                Ok((action_ty, p)) => {
                    let string = ts.subrange(pos, e);
                    if at_group(ts, p, Delimiter::Parenthesis) {
                        Ok(
                            (
                                MenuEntryView { string, action_ty, value: Some(group_at(ts, p)) },
                                p + 1,
                            ),
                        )
                    } else {
                        Ok((MenuEntryView { string, action_ty, value: None }, p))
                    }
                },
            }
        },
    }
}

/// The item that starts at `pos`: `custom: "id"`, `section! { items }`, or
/// an entry.
#[verifier::opaque]
pub open spec fn spec_menu_item(ts: Seq<TokenView>, pos: int, end: usize) -> Result<
    (MenuItemView, int),
    ParseError,
>
    decreases ts, ts.len() - pos, 0nat,
{
    if at_word(ts, pos, "custom"@) && at_punct(ts, pos + 1, ':') {
        if at_literal(ts, pos + 2) && unquoted(ts[pos + 2].kind->Literal_0).is_some() {
            Ok((MenuItemView::Custom(ts[pos + 2].kind->Literal_0, ts[pos + 2].span), pos + 3))
        } else {
            err(ErrorKind::ExpectedString, span_at(ts, pos + 2, end))
        }
    } else if at_word(ts, pos, "section"@) && at_punct(ts, pos + 1, '!') {
        if at_group(ts, pos + 2, Delimiter::Brace) {
            match spec_menu_items(group_at(ts, pos + 2), 0, ts[pos + 2].span, Seq::empty()) {
                Err(e) => Err(e),
                Ok(items) => Ok(
                    (
                        MenuItemView::Section(
                            MenuSectionView {
                                name: IdentView { name: "section"@, span: ts[pos].span },
                                items,
                            },
                        ),
                        pos + 3,
                    ),
                ),
            }
        } else {
            err(ErrorKind::ExpectedBraces, span_at(ts, pos + 2, end))
        }
    } else {
        match spec_menu_entry(ts, pos, end) {
            Err(e) => Err(e),
            Ok((entry, next)) => Ok((MenuItemView::Entry(entry), next)),
        }
    }
}

/// The items from `pos` on, behind those of `acc`, with a comma between
/// them and, where one is written, behind the last.
#[verifier::opaque]
pub open spec fn spec_menu_items(ts: Seq<TokenView>, pos: int, end: usize, acc: Seq<MenuItemView>) -> Result<
    Seq<MenuItemView>,
    ParseError,
>
    decreases ts, ts.len() - pos, 1nat,
{
    if 0 <= pos < ts.len() {
        match spec_menu_item(ts, pos, end) {
            Err(e) => Err(e),
            Ok((item, next)) => if !(pos < next <= ts.len()) {
                err(ErrorKind::UnexpectedToken, end)
            } else if next == ts.len() {
                Ok(acc.push(item))
            } else if at_punct(ts, next, ',') {
                spec_menu_items(ts, next + 1, end, acc.push(item))
            } else {
                err(ErrorKind::ExpectedComma, ts[next].span)
            },
        }
    } else {
        Ok(acc)
    }
}

/// The menu that starts at `pos`: its name, `:`, and its items in braces.
pub open spec fn spec_menu(ts: Seq<TokenView>, pos: int, end: usize) -> Result<
    (MenuView, int),
    ParseError,
> {
    if !at_name(ts, pos) {
        err(ErrorKind::ExpectedIdent, span_at(ts, pos, end))
    } else if !at_punct(ts, pos + 1, ':') {
        err(ErrorKind::ExpectedColon, span_at(ts, pos + 1, end))
    } else if !at_group(ts, pos + 2, Delimiter::Brace) {
        err(ErrorKind::ExpectedBraces, span_at(ts, pos + 2, end))
    } else {
        match spec_menu_items(group_at(ts, pos + 2), 0, ts[pos + 2].span, Seq::empty()) {
            Err(e) => Err(e),
            Ok(items) => Ok(
                (
                    MenuView {
                        name: IdentView { name: ts[pos].kind->Ident_0, span: ts[pos].span },
                        items,
                    },
                    pos + 3,
                ),
            ),
        }
    }
}

/// The menus from `pos` on, behind those of `acc`, with a comma between
/// them and, where one is written, behind the last.
pub open spec fn spec_menus(ts: Seq<TokenView>, pos: int, acc: Seq<MenuView>) -> Result<
    Seq<MenuView>,
    ParseError,
>
    decreases ts.len() - pos,
{
    if 0 <= pos < ts.len() {
        match spec_menu(ts, pos, 0) {
            Err(e) => Err(e),
            Ok((menu, next)) => if !(pos < next <= ts.len()) {
                err(ErrorKind::UnexpectedToken, 0)
            } else if next == ts.len() {
                Ok(acc.push(menu))
            } else if at_punct(ts, next, ',') {
                spec_menus(ts, next + 1, acc.push(menu))
            } else {
                err(ErrorKind::ExpectedComma, ts[next].span)
            },
        }
    } else {
        Ok(acc)
    }
}

impl MenuEntry {
    /// Reads the entry that starts at `pos`.
    pub fn parse(ts: &Vec<Token>, pos: usize, end: usize) -> (r: Result<
        (MenuEntry, usize),
        ParseError,
    >)
        requires
            pos <= ts.len(),
        ensures
            parsed_view(r) == spec_menu_entry(tokens_view(ts@), pos as int, end),
            r matches Ok((_, next)) ==> pos < next <= ts.len(),
    {
        broadcast use group_token_views;

        let e = match find_expr_end(ts, pos) {
            Some(e) => e,
            None => {
                return Err(ParseError::new(ErrorKind::ExpectedMenuEntry, span_of(ts, pos, end)));
            },
        };
        if !is_punct2(ts, e, '=', '>') {
            return Err(ParseError::new(ErrorKind::ExpectedFatArrow, span_of(ts, e, end)));
        }
        let (action_ty, p) = match parse_path(ts, e + 2, end) {
            Ok(found) => found,
            Err(e) => {
                return Err(e);
            },
        };
        let string = slice(ts, pos, e);
        if is_group(ts, p, Delimiter::Parenthesis) {
            match &ts[p].kind {
                TokenKind::Group(_, inner) => Ok(
                    (MenuEntry { string, action_ty, value: Some(clone_tokens(inner)) }, p + 1),
                ),
                _ => Ok((MenuEntry { string, action_ty, value: None }, p)),
            }
        } else {
            Ok((MenuEntry { string, action_ty, value: None }, p))
        }
    }
}

fn is_string(text: &String) -> (b: bool)
    ensures
        b == unquoted(text@).is_some(),
{
    let s = text.as_str();
    let len = s.unicode_len();
    len >= 2 && s.get_char(0) == '"' && s.get_char(len - 1) == '"'
}

impl MenuItem {
    /// Reads the item that starts at `pos`.
    pub fn parse(ts: &Vec<Token>, pos: usize, end: usize) -> (r: Result<
        (MenuItem, usize),
        ParseError,
    >)
        requires
            pos <= ts.len(),
        ensures
            parsed_view(r) == spec_menu_item(tokens_view(ts@), pos as int, end),
            r matches Ok((_, next)) ==> pos < next <= ts.len(),
        decreases ts, ts.len() - pos, 0nat,
    {
        broadcast use group_token_views;

        proof {
            reveal(spec_menu_item);
            reveal(spec_menu_items);
        }
        if is_word(ts, pos, "custom") && is_punct(ts, pos + 1, ':') {
            if ts.len() - pos > 2 && is_literal(ts, pos + 2) {
                match &ts[pos + 2].kind {
                    TokenKind::Literal(text) => {
                        if is_string(text) {
                            return Ok(
                                (MenuItem::Custom(text.clone(), ts[pos + 2].span), pos + 3),
                            );
                        }
                    },
                    _ => {},
                }
            }
            return Err(ParseError::new(ErrorKind::ExpectedString, span_of(ts, pos + 2, end)));
        }
        if is_word(ts, pos, "section") && is_punct(ts, pos + 1, '!') {
            if ts.len() - pos > 2 && is_group(ts, pos + 2, Delimiter::Brace) {
                return match &ts[pos + 2].kind {
                    TokenKind::Group(_, inner) => match parse_menu_items(
                        inner,
                        ts[pos + 2].span,
                    ) {
                        Ok(items) => Ok(
                            (
                                MenuItem::Section(
                                    MenuSection {
                                        name: Ident {
                                            name: String::from_str("section"),
                                            span: ts[pos].span,
                                        },
                                        items,
                                    },
                                ),
                                pos + 3,
                            ),
                        ),
                        Err(e) => Err(e),
                    },
                    _ => Err(
                        ParseError::new(ErrorKind::ExpectedBraces, span_of(ts, pos + 2, end)),
                    ),
                };
            }
            return Err(ParseError::new(ErrorKind::ExpectedBraces, span_of(ts, pos + 2, end)));
        }
        match MenuEntry::parse(ts, pos, end) {
            Ok((entry, next)) => Ok((MenuItem::Entry(entry), next)),
            Err(e) => Err(e),
        }
    }
}

/// Reads the items between a menu's braces.
pub fn parse_menu_items(inner: &Vec<Token>, scope: usize) -> (r: Result<Vec<MenuItem>, ParseError>)
    ensures
        match r {
            Ok(items) => spec_menu_items(tokens_view(inner@), 0, scope, Seq::empty()) == Ok::<
                Seq<MenuItemView>,
                ParseError,
            >(menu_items_view(items@)),
            Err(e) => spec_menu_items(tokens_view(inner@), 0, scope, Seq::empty()) == Err::<
                Seq<MenuItemView>,
                ParseError,
            >(e),
        },
    decreases inner, inner.len(), 1nat,
{
    broadcast use group_token_views;
    broadcast use group_menu_views;

    proof {
        reveal(spec_menu_items);
        reveal(spec_menu_item);
    }
    let ghost tv = tokens_view(inner@);
    let mut items: Vec<MenuItem> = Vec::new();
    let mut pos: usize = 0;
    proof {
        assert(menu_items_view(items@) =~= Seq::<MenuItemView>::empty());
    }
    while pos < inner.len()
        invariant
            pos <= inner.len(),
            tv == tokens_view(inner@),
            spec_menu_items(tv, pos as int, scope, menu_items_view(items@)) == spec_menu_items(
                tv,
                0,
                scope,
                Seq::empty(),
            ),
        decreases inner.len() - pos,
    {
        proof {
            reveal(spec_menu_items);
            reveal(spec_menu_item);
        }
        let ghost acc = menu_items_view(items@);
        match MenuItem::parse(inner, pos, scope) {
            Ok((item, next)) => {
                let ghost iv = item@;
                items.push(item);
                proof {
                    assert(menu_items_view(items@) == acc.push(iv));
                }
                if next == inner.len() {
                    pos = next;
                } else if is_punct(inner, next, ',') {
                    pos = next + 1;
                } else {
                    return Err(ParseError::new(ErrorKind::ExpectedComma, inner[next].span));
                }
            },
            Err(e) => {
                return Err(e);
            },
        }
    }
    Ok(items)
}

impl Menu {
    /// Reads the menu that starts at `pos`.
    pub fn parse(ts: &Vec<Token>, pos: usize, end: usize) -> (r: Result<(Menu, usize), ParseError>)
        requires
            pos <= ts.len(),
        ensures
            parsed_view(r) == spec_menu(tokens_view(ts@), pos as int, end),
            r matches Ok((_, next)) ==> pos < next <= ts.len(),
    {
        broadcast use group_token_views;

        if !is_name(ts, pos) {
            return Err(ParseError::new(ErrorKind::ExpectedIdent, span_of(ts, pos, end)));
        }
        if !is_punct(ts, pos + 1, ':') {
            return Err(ParseError::new(ErrorKind::ExpectedColon, span_of(ts, pos + 1, end)));
        }
        if !(ts.len() - pos > 2 && is_group(ts, pos + 2, Delimiter::Brace)) {
            return Err(ParseError::new(ErrorKind::ExpectedBraces, span_of(ts, pos + 2, end)));
        }
        let name = match &ts[pos].kind {
            TokenKind::Ident(name) => Ident { name: name.clone(), span: ts[pos].span },
            _ => Ident { name: String::new(), span: ts[pos].span },
        };
        match &ts[pos + 2].kind {
            TokenKind::Group(_, inner) => match parse_menu_items(inner, ts[pos + 2].span) {
                Ok(items) => Ok((Menu { name, items }, pos + 3)),
                Err(e) => Err(e),
            },
            _ => Err(ParseError::new(ErrorKind::ExpectedBraces, span_of(ts, pos + 2, end))),
        }
    }
}

impl Menus {
    /// Reads the menus of a `menu!` block.
    pub fn parse(ts: &Vec<Token>) -> (r: Result<Menus, ParseError>)
        ensures
            result_view(r) == spec_menus(tokens_view(ts@), 0, Seq::empty()),
    {
        broadcast use group_token_views;
        broadcast use group_menu_views;

        let ghost tv = tokens_view(ts@);
        let mut items: Vec<Menu> = Vec::new();
        let mut pos: usize = 0;
        proof {
            assert(menus_view(items@) =~= Seq::<MenuView>::empty());
        }
        while pos < ts.len()
            invariant
                pos <= ts.len(),
                tv == tokens_view(ts@),
                spec_menus(tv, pos as int, menus_view(items@)) == spec_menus(tv, 0, Seq::empty()),
            decreases ts.len() - pos,
        {
            let ghost acc = menus_view(items@);
            match Menu::parse(ts, pos, 0) {
                Ok((menu, next)) => {
                    let ghost mv = menu@;
                    items.push(menu);
                    proof {
                        assert(menus_view(items@) == acc.push(mv));
                    }
                    if next == ts.len() {
                        pos = next;
                    } else if is_punct(ts, next, ',') {
                        pos = next + 1;
                    } else {
                        return Err(ParseError::new(ErrorKind::ExpectedComma, ts[next].span));
                    }
                },
                Err(e) => {
                    return Err(e);
                },
            }
        }
        Ok(Menus { items })
    }
}

} // verus!
