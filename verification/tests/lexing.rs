use relm4_macros::lex::{tokenize, LexError};
use relm4_macros::syntax::{
    check_fields, find_condition_end, find_expr_end, find_path_end, find_pattern_end,
    is_known_literal,
};
use relm4_macros::text::to_text;
use relm4_macros::tokens::{Delimiter, Token, TokenKind};

#[test]
fn tokenize_numbers_tokens_in_source_order() {
    let tokens = tokenize("gtk::Box { name: \"x\" }").unwrap();
    let expected = vec![
        Token::ident("gtk", 1),
        Token::punct(':', true, 2),
        Token::punct(':', false, 3),
        Token::ident("Box", 4),
        Token::group(
            Delimiter::Brace,
            vec![Token::ident("name", 6), Token::punct(':', false, 7), Token::literal("\"x\"", 8)],
            5,
        ),
    ];
    assert_eq!(tokens, expected);
}

#[test]
fn tokenize_rejects_unbalanced_text() {
    assert_eq!(tokenize("gtk::Box {"), Err(LexError::Invalid));
    assert_eq!(tokenize("\"open"), Err(LexError::Invalid));
}

#[test]
fn tokenize_limits_nesting() {
    let mut deep = String::new();
    for _ in 0..300 {
        deep.push('(');
    }
    for _ in 0..300 {
        deep.push(')');
    }
    assert_eq!(tokenize(&deep), Err(LexError::TooDeep));
}

#[test]
fn text_of_tokens_lexes_back_to_the_same_tokens() {
    let source = "a = &mut gtk::Box::new(1, 2) -> { x[0]: |y| y => 'a', } ";
    let tokens = tokenize(source).unwrap();
    let text = to_text(&tokens);
    assert_eq!(text, "a = & mut gtk :: Box :: new ( 1 , 2 ) -> { x [ 0 ] : | y | y => 'a' , } ");
    let again = tokenize(&text).unwrap();
    assert_eq!(again, tokens);
}

#[test]
fn expression_ends_before_the_comma() {
    let tokens = tokenize("&format!(\"{}\", a), set_margin: 5").unwrap();
    // `&`, `format`, `!`, `(..)` are read; `,` and what follows stay.
    assert_eq!(find_expr_end(&tokens, 0), Some(4));
    assert_eq!(find_expr_end(&tokens, 7), Some(8));
    assert_eq!(find_expr_end(&tokens, 4), None);
    assert_eq!(find_expr_end(&tokens, 8), None);
}

#[test]
fn condition_ends_before_the_block() {
    let tokens = tokenize("model.value > 3 { gtk::Label {} }").unwrap();
    assert_eq!(find_condition_end(&tokens, 0), Some(5));
    let call = tokenize("S { a: 1 }").unwrap();
    assert_eq!(find_expr_end(&call, 0), Some(2));
    assert_eq!(find_condition_end(&call, 0), Some(1));
}

#[test]
fn pattern_ends_before_the_guard_or_arrow() {
    let tokens = tokenize("Some(x) if x > 1 => gtk::Label {}").unwrap();
    assert_eq!(find_pattern_end(&tokens, 0), Some(2));
    assert_eq!(find_expr_end(&tokens, 3), Some(6));
    assert_eq!(find_pattern_end(&tokens, 6), None);
}

#[test]
fn path_ends_before_brace_or_arguments() {
    let tokens = tokenize("gtk::Box { }").unwrap();
    assert_eq!(
        find_path_end(&tokens, 0),
        Some((4, vec!["gtk".to_string(), "Box".to_string()], vec![0, 3]))
    );
    let call = tokenize("gtk::Label::new(None)").unwrap();
    assert_eq!(
        find_path_end(&call, 0),
        Some((7, vec!["gtk".to_string(), "Label".to_string(), "new".to_string()], vec![0, 3, 6]))
    );
    let generic = tokenize("::std::vec::Vec<Option<u8>>::new()").unwrap();
    assert_eq!(
        find_path_end(&generic, 0),
        Some((
            18,
            vec!["std".to_string(), "vec".to_string(), "Vec".to_string(), "new".to_string()],
            vec![2, 5, 8, 17]
        ))
    );
    let single = tokenize("set_label: 1").unwrap();
    assert_eq!(find_path_end(&single, 0), Some((1, vec!["set_label".to_string()], vec![0])));
    assert_eq!(find_path_end(&single, 1), None);
}

#[test]
fn token_kinds_are_told_apart() {
    let tokens = tokenize("a 1 + (b)").unwrap();
    assert!(matches!(tokens[0].kind, TokenKind::Ident(_)));
    assert!(matches!(tokens[1].kind, TokenKind::Literal(_)));
    assert!(matches!(tokens[2].kind, TokenKind::Punct('+', false)));
    assert!(matches!(tokens[3].kind, TokenKind::Group(Delimiter::Parenthesis, _)));
}

#[test]
fn literals_of_unknown_form_are_turned_away() {
    for source in ["c\"x\"", "cr\"x\"", "f(c\"x\")", "[1, { c\"x\" }]"] {
        let tokens = tokenize(source).unwrap();
        assert_eq!(find_expr_end(&tokens, 0), None);
        assert_eq!(find_condition_end(&tokens, 0), None);
        assert_eq!(find_pattern_end(&tokens, 0), None);
    }
    let path = tokenize("Foo<c\"x\">").unwrap();
    assert_eq!(find_path_end(&path, 0), None);
    let fields = tokenize("a: Foo<c\"x\">").unwrap();
    assert!(!check_fields(&fields));
    assert!(check_fields(&tokenize("a: Foo<\"x\">, b: u8").unwrap()));
}

#[test]
fn known_forms_of_literals() {
    for text in [
        "\"a\"", "r\"a\"", "r#\"a\"#", "'a'", "b\"a\"", "br\"a\"", "b'a'", "0", "1_000u64", "0xFF",
        "0o17", "0b1010", "1.5", "1.", "2.5f32", "1e10", "1.5e3f64", "1e-5", "1.5e+3", "2E-3f32",
    ] {
        assert!(is_known_literal(text), "{}", text);
        let tokens = tokenize(text).unwrap();
        assert_eq!(find_expr_end(&tokens, 0), Some(1), "{}", text);
    }
    for text in ["", "c\"a\"", "cr\"a\"", "1e-", "1e-x", "1f32e-5", "1-5", "1.2.3", "1f.5", "x", "b", "bx"] {
        assert!(!is_known_literal(text), "{}", text);
    }
}

#[test]
fn groups_nested_too_deep_are_turned_away() {
    let mut tokens = vec![Token::literal("1", 0)];
    for _ in 0..255 {
        tokens = vec![Token::group(Delimiter::Parenthesis, tokens, 0)];
    }
    assert_eq!(find_pattern_end(&tokens, 0), Some(1));
    tokens = vec![Token::group(Delimiter::Parenthesis, tokens, 0)];
    assert_eq!(find_pattern_end(&tokens, 0), None);
}

#[test]
fn tokens_that_can_be_read() {
    assert!(relm4_macros::syntax::can_be_read(&tokenize("a: Foo<\"x\">, b + 1.5e-3").unwrap()));
    assert!(relm4_macros::syntax::can_be_read(&Vec::new()));
    assert!(!relm4_macros::syntax::can_be_read(&tokenize("f(c\"x\")").unwrap()));
    assert!(!relm4_macros::syntax::can_be_read(&vec![Token::literal("\"open", 0)]));
    assert!(!relm4_macros::syntax::can_be_read(&vec![Token::punct('(', false, 0)]));
}

#[test]
fn lexing_gives_the_same_tokens_every_time() {
    let source = "a = &mut gtk::Box::new(1, 2) -> { x[0]: |y| y => 'a', /// doc\n b: r#\"q\"# }";
    let first = tokenize(source).unwrap();
    let second = tokenize(source).unwrap();
    assert_eq!(first, second);
    assert_eq!(find_expr_end(&first, 2), find_expr_end(&second, 2));
    let ident = proc_macro2::Ident::new("after", proc_macro2::Span::call_site());
    assert_eq!(ident.to_string(), "after");
    assert_eq!(tokenize(source).unwrap(), first);
}
