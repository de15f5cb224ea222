use crate::tokens::{tokens_view, Token, TokenView};
use crate::widgets::{opt_tokens_view, Ident, IdentView, Path, PathView};
use vstd::prelude::*;

pub mod parse;

verus! {

/// The menus of one `menu!` block, in the order in which they were declared.
#[derive(Debug, PartialEq, Eq)]
pub struct Menus {
    pub items: Vec<Menu>,
}

/// A menu with its name and its items.
#[derive(Debug, PartialEq, Eq)]
pub struct Menu {
    pub name: Ident,
    pub items: Vec<MenuItem>,
}

/// An item of a menu or of a section.
#[derive(Debug, PartialEq, Eq)]
pub enum MenuItem {
    Entry(MenuEntry),
    /// A custom item: the string literal as it was written, and its span.
    Custom(String, usize),
    Section(MenuSection),
}

/// An entry: the expression of its label, the type of its action and the
/// value that the action is given.
#[derive(Debug, PartialEq, Eq)]
pub struct MenuEntry {
    pub string: Vec<Token>,
    pub action_ty: Path,
    pub value: Option<Vec<Token>>,
}

/// A section: items that are set apart inside a menu.
#[derive(Debug, PartialEq, Eq)]
pub struct MenuSection {
    pub name: Ident,
    pub items: Vec<MenuItem>,
}

/// What a [`Menu`] is to the contracts; the types that follow mirror the
/// other types of menus in the same way.
pub struct MenuView {
    pub name: IdentView,
    pub items: Seq<MenuItemView>,
}

pub enum MenuItemView {
    Entry(MenuEntryView),
    Custom(Seq<char>, usize),
    Section(MenuSectionView),
}

pub struct MenuEntryView {
    pub string: Seq<TokenView>,
    pub action_ty: PathView,
    pub value: Option<Seq<TokenView>>,
}

pub struct MenuSectionView {
    pub name: IdentView,
    pub items: Seq<MenuItemView>,
}

impl View for MenuEntry {
    type V = MenuEntryView;

    open spec fn view(&self) -> MenuEntryView {
        MenuEntryView {
            string: tokens_view(self.string@),
            action_ty: self.action_ty@,
            value: opt_tokens_view(self.value),
        }
    }
}

pub open spec fn menu_item_view(item: MenuItem) -> MenuItemView
    decreases item,
{
    match item {
        MenuItem::Entry(e) => MenuItemView::Entry(e@),
        MenuItem::Custom(text, span) => MenuItemView::Custom(text@, span),
        MenuItem::Section(s) => MenuItemView::Section(
            MenuSectionView { name: s.name@, items: menu_items_view(s.items@) },
        ),
    }
}

pub open spec fn menu_items_view(items: Seq<MenuItem>) -> Seq<MenuItemView>
    decreases items,
{
    Seq::new(
        items.len(),
        |i: int|
            if 0 <= i < items.len() {
                menu_item_view(items[i])
            } else {
                arbitrary()
            },
    )
}

impl View for MenuItem {
    type V = MenuItemView;

    open spec fn view(&self) -> MenuItemView {
        menu_item_view(*self)
    }
}

impl View for Menu {
    type V = MenuView;

    open spec fn view(&self) -> MenuView {
        MenuView { name: self.name@, items: menu_items_view(self.items@) }
    }
}

pub open spec fn menus_view(menus: Seq<Menu>) -> Seq<MenuView> {
    Seq::new(menus.len(), |i: int| menus[i]@)
}

impl View for Menus {
    type V = Seq<MenuView>;

    open spec fn view(&self) -> Seq<MenuView> {
        menus_view(self.items@)
    }
}

pub broadcast proof fn lemma_menu_items_push(items: Seq<MenuItem>, item: MenuItem)
    ensures
        #[trigger] menu_items_view(items.push(item)) == menu_items_view(items).push(
            menu_item_view(item),
        ),
{
    assert(menu_items_view(items.push(item)) =~= menu_items_view(items).push(menu_item_view(item)));
}

pub broadcast proof fn lemma_menus_push(menus: Seq<Menu>, menu: Menu)
    ensures
        #[trigger] menus_view(menus.push(menu)) == menus_view(menus).push(menu@),
{
    assert(menus_view(menus.push(menu)) =~= menus_view(menus).push(menu@));
}

pub broadcast group group_menu_views {
    lemma_menu_items_push,
    lemma_menus_push,
}

} // verus!
