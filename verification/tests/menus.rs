use relm4_macros::error::ErrorKind;
use relm4_macros::lex::tokenize;
use relm4_macros::menu::{Menu, MenuEntry, MenuItem, Menus};
use relm4_macros::tokens::Token;
use relm4_macros::widgets::{Ident, Path};

#[test]
fn menu_with_a_single_entry() {
    let tokens = tokenize("main: { \"Open\" => action::Open }").unwrap();
    let menus = Menus::parse(&tokens).unwrap();
    let expected = Menus {
        items: vec![Menu {
            name: Ident { name: "main".to_string(), span: 1 },
            items: vec![MenuItem::Entry(MenuEntry {
                string: vec![Token::literal("\"Open\"", 4)],
                action_ty: Path {
                    tokens: vec![
                        Token::ident("action", 7),
                        Token::punct(':', true, 8),
                        Token::punct(':', false, 9),
                        Token::ident("Open", 10),
                    ],
                    segments: vec!["action".to_string(), "Open".to_string()],
                    idents: vec![0, 3],
                },
                value: None,
            })],
        }],
    };
    assert_eq!(menus, expected);
}

#[test]
fn entries_with_values_sections_and_custom_items() {
    let tokens = tokenize(
        "main: { \"Open\" => Open(1), custom: \"widget\", section! { &tr(\"Quit\") => app::Quit, }, }, other: {}",
    )
    .unwrap();
    let menus = Menus::parse(&tokens).unwrap();
    assert_eq!(menus.items.len(), 2);
    assert_eq!(menus.items[1].name.name, "other");
    assert!(menus.items[1].items.is_empty());
    let items = &menus.items[0].items;
    assert_eq!(items.len(), 3);
    match &items[0] {
        MenuItem::Entry(entry) => assert_eq!(entry.value, Some(vec![Token::literal("1", 9)])),
        other => panic!("unexpected item {:?}", other),
    }
    match &items[1] {
        MenuItem::Custom(text, _) => assert_eq!(text, "\"widget\""),
        other => panic!("unexpected item {:?}", other),
    }
    match &items[2] {
        MenuItem::Section(section) => {
            assert_eq!(section.name.name, "section");
            assert_eq!(section.items.len(), 1);
            match &section.items[0] {
                MenuItem::Entry(entry) => {
                    assert_eq!(entry.string.len(), 3);
                    assert_eq!(entry.action_ty.segments, vec!["app".to_string(), "Quit".to_string()]);
                }
                other => panic!("unexpected item {:?}", other),
            }
        }
        other => panic!("unexpected item {:?}", other),
    }
}

#[test]
fn malformed_menus_are_errors() {
    let kind = |source: &str| Menus::parse(&tokenize(source).unwrap()).unwrap_err().kind;
    assert_eq!(kind("{ }"), ErrorKind::ExpectedIdent);
    assert_eq!(kind("main { }"), ErrorKind::ExpectedColon);
    assert_eq!(kind("main: \"Open\""), ErrorKind::ExpectedBraces);
    assert_eq!(kind("main: { \"Open\" action::Open }"), ErrorKind::ExpectedFatArrow);
    assert_eq!(kind("main: { \"Open\" => }"), ErrorKind::ExpectedPath);
    assert_eq!(kind("main: { => Open }"), ErrorKind::ExpectedMenuEntry);
    assert_eq!(kind("main: { custom: 1 }"), ErrorKind::ExpectedString);
    assert_eq!(kind("main: { section! () }"), ErrorKind::ExpectedBraces);
    assert_eq!(kind("main: { \"A\" => A \"B\" => B }"), ErrorKind::ExpectedComma);
    assert_eq!(kind("main: {} other: {}"), ErrorKind::ExpectedComma);
}

#[test]
fn a_menu_is_not_named_by_a_reserved_word() {
    let tokens = tokenize("type: { \"Open\" => action::Open }").unwrap();
    assert_eq!(Menus::parse(&tokens).unwrap_err().kind, ErrorKind::ExpectedIdent);
    let tokens = tokenize("r#type: { \"Open\" => action::Open }").unwrap();
    assert_eq!(Menus::parse(&tokens).unwrap().items[0].name.name, "r#type");
}
