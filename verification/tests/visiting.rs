use relm4_macros::error::{ErrorKind, ParseError};
use relm4_macros::host::{
    Field, FnArg, ImplItem, ImplItemMacro, ImplItemMethod, ImplItemType, ItemImpl, Node, Pat,
    SelfType,
};
use relm4_macros::lex::tokenize;
use relm4_macros::text::to_text;
use relm4_macros::tokens::Token;
use relm4_macros::util::{generate_widgets_type, item_impl_error, self_ty_to_widgets_ty};
use relm4_macros::visitors::{
    ComponentVisitor, FactoryComponentVisitor, InitFnVisitor, InitWidgetsFnVisitor,
    PreAndPostView, ViewOutputExpander,
};
use relm4_macros::widgets::{Ident, Path};

fn ident(name: &str, span: usize) -> Ident {
    Ident { name: name.to_string(), span }
}

fn typed(name: &str, span: usize) -> FnArg {
    FnArg::Typed(Pat::Ident(ident(name, span)), span)
}

fn mac(name: &str, body: &str, span: usize) -> ImplItem {
    ImplItem::Macro(ImplItemMacro {
        name: Some(name.to_string()),
        tokens: tokenize(body).unwrap(),
        span,
    })
}

fn method(name: &str, inputs: Vec<FnArg>, block: Vec<Node>, span: usize) -> ImplItem {
    ImplItem::Method(ImplItemMethod { name: name.to_string(), inputs, sig_span: span + 1, block, span })
}

fn parts(model: Node, span: usize) -> Node {
    Node::Struct(
        "ComponentParts".to_string(),
        vec![
            Field { member: Some("model".to_string()), value: model },
            Field { member: Some("widgets".to_string()), value: Node::Path(Some(ident("widgets", 0)), 0) },
        ],
        span,
    )
}

fn marker(span: usize) -> Node {
    Node::Local(Some(Box::new(Node::Macro(Some("view_output".to_string()), span + 1))), span)
}

fn init_method(span: usize) -> ImplItem {
    method(
        "init",
        vec![typed("init", 1), typed("root", 2), typed("sender", 3)],
        vec![
            Node::Local(Some(Box::new(Node::Other(vec![], 11))), 10),
            marker(20),
            Node::Other(vec![parts(Node::Path(Some(ident("model", 31)), 31), 30)], 29),
        ],
        span,
    )
}

fn impl_of(items: Vec<ImplItem>) -> ItemImpl {
    ItemImpl {
        self_ty: SelfType::Path(Path {
            tokens: tokenize("App").unwrap(),
            segments: vec!["App".to_string()],
            idents: vec![0],
        }),
        items,
    }
}

fn is_null(item: &ImplItem) -> bool {
    matches!(item, ImplItem::Verbatim(tokens) if tokens.is_empty())
}

#[test]
fn component_visitor_collects_blocks_and_names() {
    let mut errors = Vec::new();
    let mut item_impl = impl_of(vec![
        ImplItem::Type(ImplItemType { ident: "Widgets".to_string(), ty: tokenize("AppWidgets").unwrap(), span: 1 }),
        mac("view", "gtk::Window { title: \"x\" }", 2),
        mac("menu", "main: { \"Open\" => Open }", 3),
        mac("additional_fields", "counter: u8, name: String", 4),
        mac("println", "\"x\"", 5),
        init_method(6),
        ImplItem::Other(7),
    ]);
    let mut visitor = ComponentVisitor::new(&mut errors);
    visitor.visit_item_impl_mut(&mut item_impl);
    assert_eq!(
        visitor.view_widgets.as_ref().unwrap().as_ref().unwrap().top_level_widgets[0].inner.name.name,
        "gtk_window"
    );
    assert_eq!(visitor.widgets_ty, Some(tokenize("AppWidgets").unwrap()));
    assert_eq!(visitor.root_name, Some(ident("root", 2)));
    assert_eq!(visitor.sender_name, Some(ident("sender", 3)));
    assert_eq!(visitor.model_name, Some(ident("model", 31)));
    assert_eq!(visitor.menus.as_ref().unwrap().items[0].name.name, "main");
    assert_eq!(to_text(&visitor.additional_fields.as_ref().unwrap().tokens), "counter : u8 , name : String ");
    assert!(errors.is_empty());
    assert!(matches!(item_impl.items[0], ImplItem::Type(_)));
    assert!(is_null(&item_impl.items[1]));
    assert!(is_null(&item_impl.items[2]));
    assert!(is_null(&item_impl.items[3]));
    assert!(matches!(item_impl.items[4], ImplItem::Macro(_)));
    assert!(matches!(item_impl.items[5], ImplItem::Method(_)));
    assert_eq!(item_impl.items[6], ImplItem::Other(7));
}

#[test]
fn duplicate_blocks_are_reported_and_the_walk_goes_on() {
    let mut errors = Vec::new();
    let mut item_impl = impl_of(vec![
        mac("view", "gtk::Window {}", 1),
        mac("view", "gtk::Box {}", 2),
        mac("menu", "a: {}", 3),
        mac("menu", "b: {}", 4),
        mac("additional_fields", "a: u8", 5),
        mac("additional_fields", "b: u8", 6),
        mac("additional_fields", "not fields", 7),
        mac("menu", "broken", 8),
    ]);
    let mut visitor = ComponentVisitor::new(&mut errors);
    visitor.visit_item_impl_mut(&mut item_impl);
    // The later block replaces the earlier one.
    assert_eq!(
        visitor.view_widgets.as_ref().unwrap().as_ref().unwrap().top_level_widgets[0].inner.name.name,
        "gtk_box"
    );
    assert_eq!(visitor.menus.as_ref().unwrap().items[0].name.name, "b");
    assert_eq!(to_text(&visitor.additional_fields.as_ref().unwrap().tokens), "b : u8 ");
    assert_eq!(
        errors,
        vec![
            ParseError::new(ErrorKind::DuplicateViewMacro, 2),
            ParseError::new(ErrorKind::DuplicateMenuMacro, 4),
            ParseError::new(ErrorKind::DuplicateAdditionalFields, 6),
            ParseError::new(ErrorKind::AdditionalFields, 7),
            ParseError::new(ErrorKind::ExpectedColon, 0),
        ]
    );
    assert!(item_impl.items.iter().all(is_null));
}

#[test]
fn a_view_that_cannot_be_read_is_kept_as_an_error() {
    let mut errors = Vec::new();
    let mut item_impl = impl_of(vec![mac("view", "a = Box {} a = Label {}", 1)]);
    let mut visitor = ComponentVisitor::new(&mut errors);
    visitor.visit_impl_item_mut(&mut item_impl.items[0]);
    assert_eq!(
        visitor.view_widgets.as_ref().unwrap().as_ref().unwrap_err().kind,
        ErrorKind::NameConflict
    );
    assert!(errors.is_empty());
}

#[test]
fn init_function_names_root_sender_and_model() {
    let mut visitor = InitFnVisitor::new();
    let func = match init_method(1) {
        ImplItem::Method(func) => func,
        _ => unreachable!(),
    };
    visitor.visit_impl_item_method(&func);
    assert_eq!(visitor.root_name, Some(ident("root", 2)));
    assert_eq!(visitor.sender_name, Some(ident("sender", 3)));
    assert_eq!(visitor.model_name, Some(ident("model", 31)));
    assert!(visitor.errors.is_empty());
}

#[test]
fn init_function_reports_what_it_cannot_name() {
    let func = ImplItemMethod {
        name: "init".to_string(),
        inputs: vec![FnArg::Receiver(1), FnArg::Typed(Pat::Other, 2)],
        sig_span: 9,
        block: vec![
            parts(Node::Other(vec![], 21), 20),
            Node::Other(vec![parts(Node::Path(None, 31), 30)], 29),
            Node::Struct(
                "Other".to_string(),
                vec![Field { member: Some("model".to_string()), value: Node::Other(vec![], 41) }],
                40,
            ),
            Node::Struct(
                "AsyncComponentParts".to_string(),
                vec![
                    Field { member: None, value: Node::Path(Some(ident("ignored", 51)), 51) },
                    Field { member: Some("model".to_string()), value: Node::Path(Some(ident("state", 52)), 52) },
                ],
                50,
            ),
        ],
        span: 1,
    };
    let mut visitor = InitFnVisitor::new();
    visitor.visit_impl_item_method(&func);
    assert_eq!(visitor.root_name, None);
    assert_eq!(visitor.sender_name, None);
    assert_eq!(visitor.model_name, Some(ident("state", 52)));
    assert_eq!(
        visitor.errors,
        vec![
            ParseError::new(ErrorKind::RootName, 2),
            ParseError::new(ErrorKind::SenderName, 9),
            ParseError::new(ErrorKind::ModelName, 21),
            ParseError::new(ErrorKind::ModelName, 31),
        ]
    );
}

#[test]
fn component_visitor_takes_over_what_init_says() {
    let mut errors = vec![ParseError::new(ErrorKind::UnexpectedToken, 99)];
    let mut item = method("init", vec![typed("init", 1)], vec![], 5);
    let mut visitor = ComponentVisitor::new(&mut errors);
    visitor.root_name = Some(ident("old", 0));
    visitor.visit_impl_item_mut(&mut item);
    assert_eq!(visitor.root_name, None);
    assert_eq!(visitor.model_name, None);
    assert_eq!(
        errors,
        vec![
            ParseError::new(ErrorKind::UnexpectedToken, 99),
            ParseError::new(ErrorKind::RootName, 6),
            ParseError::new(ErrorKind::SenderName, 6),
        ]
    );
}

#[test]
fn factory_visitor_keeps_init_widgets_and_rejects_root_type() {
    let mut errors = Vec::new();
    let mut item_impl = impl_of(vec![
        ImplItem::Type(ImplItemType { ident: "Root".to_string(), ty: tokenize("gtk::Box").unwrap(), span: 1 }),
        ImplItem::Type(ImplItemType { ident: "Widgets".to_string(), ty: tokenize("W").unwrap(), span: 2 }),
        mac("view", "gtk::Box {}", 3),
        method("init_widgets", vec![FnArg::Receiver(1), typed("index", 2), typed("root", 3)], vec![], 4),
        method(
            "init_widgets",
            vec![FnArg::Receiver(1)],
            vec![Node::Local(Some(Box::new(Node::Macro(Some("view_output".to_string()), 11))), 10)],
            6,
        ),
        method("init", vec![], vec![], 8),
    ]);
    let mut visitor = FactoryComponentVisitor::new(&mut errors);
    visitor.visit_item_impl_mut(&mut item_impl);
    assert_eq!(
        visitor.init_widgets,
        Some(ImplItemMethod {
            name: "init_widgets".to_string(),
            inputs: vec![FnArg::Receiver(1)],
            sig_span: 7,
            block: vec![Node::Local(
                Some(Box::new(Node::Macro(Some("view_output".to_string()), 11))),
                10
            )],
            span: 6,
        })
    );
    assert_eq!(visitor.root_name, None);
    assert_eq!(visitor.widgets_ty, Some(tokenize("W").unwrap()));
    assert!(visitor.view_widgets.is_some());
    assert_eq!(
        errors,
        vec![
            ParseError::new(ErrorKind::RootTypeDefined, 1),
            ParseError::new(ErrorKind::RootName, 7),
            ParseError::new(ErrorKind::DuplicateInitWidgets, 6),
        ]
    );
    assert!(is_null(&item_impl.items[2]));
    assert!(matches!(item_impl.items[3], ImplItem::Method(_)));
}

#[test]
fn init_widgets_function_names_the_root() {
    let func = ImplItemMethod {
        name: "init_widgets".to_string(),
        inputs: vec![FnArg::Receiver(1), typed("index", 2), typed("root", 3)],
        sig_span: 9,
        block: vec![],
        span: 1,
    };
    let mut visitor = InitWidgetsFnVisitor::new();
    visitor.visit_impl_item_method(&func);
    assert_eq!(visitor.root_name, Some(ident("root", 3)));
    assert!(visitor.errors.is_empty());
}

#[test]
fn pre_and_post_view_are_taken_out() {
    let mut errors = Vec::new();
    let mut item_impl = impl_of(vec![
        method("pre_view", vec![], vec![Node::Other(vec![], 11)], 1),
        method("update", vec![], vec![Node::Other(vec![], 21)], 2),
        method("post_view", vec![], vec![Node::Other(vec![], 31), Node::Other(vec![], 32)], 3),
    ]);
    let hooks = PreAndPostView::extract(&mut item_impl, &mut errors);
    assert_eq!(hooks.pre_view, vec![Node::Other(vec![], 11)]);
    assert_eq!(hooks.post_view, vec![Node::Other(vec![], 31), Node::Other(vec![], 32)]);
    assert!(errors.is_empty());
    assert!(is_null(&item_impl.items[0]));
    assert!(matches!(item_impl.items[1], ImplItem::Method(_)));
    assert!(is_null(&item_impl.items[2]));
}

#[test]
fn a_second_hook_is_an_error_and_wins() {
    let mut errors = Vec::new();
    let mut item_impl = impl_of(vec![
        method("pre_view", vec![], vec![Node::Other(vec![], 11)], 1),
        method("pre_view", vec![], vec![Node::Other(vec![], 21)], 2),
        method("post_view", vec![], vec![], 3),
        method("post_view", vec![], vec![Node::Other(vec![], 41)], 4),
        method("post_view", vec![], vec![], 5),
    ]);
    let hooks = PreAndPostView::extract(&mut item_impl, &mut errors);
    assert_eq!(hooks.pre_view, vec![Node::Other(vec![], 21)]);
    assert!(hooks.post_view.is_empty());
    assert_eq!(
        errors,
        vec![
            ParseError::new(ErrorKind::DuplicatePreView, 2),
            ParseError::new(ErrorKind::DuplicatePostView, 4),
            ParseError::new(ErrorKind::DuplicatePostView, 5),
        ]
    );
    assert!(item_impl.items.iter().all(is_null));
}

fn view_code() -> Vec<Token> {
    tokenize("let gtk_box = gtk::Box::default();").unwrap()
}

fn widgets_init() -> Node {
    Node::Verbatim(tokenize("AppWidgets { gtk_box }").unwrap())
}

#[test]
fn injection_point_is_expanded_once() {
    let mut errors = Vec::new();
    let mut item_impl = impl_of(vec![init_method(1), method("update", vec![], vec![marker(5)], 2)]);
    ViewOutputExpander::expand(&mut item_impl, view_code(), widgets_init(), &mut errors);
    assert!(errors.is_empty());
    match &item_impl.items[0] {
        ImplItem::Method(func) => {
            assert_eq!(func.block.len(), 3);
            assert_eq!(func.block[0], Node::Local(Some(Box::new(Node::Other(vec![], 11))), 10));
            assert_eq!(
                func.block[1],
                Node::Injected(view_code(), Box::new(Node::Local(Some(Box::new(widgets_init())), 20)))
            );
            assert!(matches!(func.block[2], Node::Other(_, 29)));
        }
        other => panic!("unexpected item {:?}", other),
    }
    // Only initializers are looked through.
    assert_eq!(item_impl.items[1], method("update", vec![], vec![marker(5)], 2));
}

#[test]
fn missing_injection_point_is_an_error() {
    let mut errors = Vec::new();
    let mut item_impl = impl_of(vec![
        method("init", vec![], vec![Node::Other(vec![marker(7)], 6)], 1),
        method("other", vec![], vec![], 2),
    ]);
    ViewOutputExpander::expand(&mut item_impl, view_code(), widgets_init(), &mut errors);
    assert_eq!(errors, vec![ParseError::new(ErrorKind::InjectionPoint, 1)]);
    assert_eq!(
        ErrorKind::InjectionPoint.message(),
        "expected an injection point for the view macro. Try using `let widgets = view_output!();`"
    );
    // A marker that is no statement of the body itself stays as it is.
    assert_eq!(item_impl.items[0], method("init", vec![], vec![Node::Other(vec![marker(7)], 6)], 1));
}

#[test]
fn injection_point_present_twice() {
    let mut errors = Vec::new();
    let mut item_impl = impl_of(vec![method("init", vec![], vec![marker(10), marker(20)], 1)]);
    ViewOutputExpander::expand(&mut item_impl, view_code(), widgets_init(), &mut errors);
    assert!(errors.is_empty());
    match &item_impl.items[0] {
        ImplItem::Method(func) => {
            assert_eq!(
                func.block[0],
                Node::Injected(view_code(), Box::new(Node::Local(Some(Box::new(widgets_init())), 10)))
            );
            // The swap hands the first macro call on to the second marker.
            assert_eq!(
                func.block[1],
                Node::Injected(
                    view_code(),
                    Box::new(Node::Local(
                        Some(Box::new(Node::Macro(Some("view_output".to_string()), 11))),
                        20
                    ))
                )
            );
        }
        other => panic!("unexpected item {:?}", other),
    }
}

#[test]
fn every_initializer_needs_its_injection_point() {
    let mut errors = Vec::new();
    let mut item_impl = impl_of(vec![
        method("init_widgets", vec![], vec![], 1),
        method("init", vec![], vec![marker(10)], 2),
        method("init_widgets", vec![], vec![], 3),
    ]);
    ViewOutputExpander::expand(&mut item_impl, view_code(), widgets_init(), &mut errors);
    assert_eq!(
        errors,
        vec![
            ParseError::new(ErrorKind::InjectionPoint, 1),
            ParseError::new(ErrorKind::InjectionPoint, 3),
        ]
    );
}

#[test]
fn widgets_type_is_taken_or_derived() {
    let mut errors = Vec::new();
    let mut item_impl = impl_of(vec![ImplItem::Other(4)]);
    let named = generate_widgets_type(Some(tokenize("MyWidgets").unwrap()), &mut item_impl, &mut errors);
    assert_eq!(named, Some(tokenize("MyWidgets").unwrap()));
    assert_eq!(item_impl.items.len(), 1);

    let derived = generate_widgets_type(None, &mut item_impl, &mut errors);
    assert_eq!(to_text(&derived.unwrap()), "AppWidgets ");
    assert_eq!(item_impl.items.len(), 2);
    match &item_impl.items[1] {
        ImplItem::Type(ty) => {
            assert_eq!(ty.ident, "Widgets");
            assert_eq!(to_text(&ty.ty), "AppWidgets ");
        }
        other => panic!("unexpected item {:?}", other),
    }
    assert!(errors.is_empty());

    let mut nameless = ItemImpl { self_ty: SelfType::Other(9), items: vec![ImplItem::Other(4)] };
    assert_eq!(generate_widgets_type(None, &mut nameless, &mut errors), None);
    let mut empty = ItemImpl { self_ty: SelfType::Other(9), items: vec![] };
    assert_eq!(generate_widgets_type(None, &mut empty, &mut errors), None);
    assert_eq!(
        errors,
        vec![ParseError::new(ErrorKind::WidgetsType, 4), ParseError::new(ErrorKind::WidgetsType, 9)]
    );
}

#[test]
fn widgets_type_drops_generics_of_the_last_segment() {
    let path = Path {
        tokens: tokenize("crate::ui::App<T, Vec<U>>").unwrap(),
        segments: vec!["crate".to_string(), "ui".to_string(), "App".to_string()],
        idents: vec![0, 3, 6],
    };
    let (widgets, item) = self_ty_to_widgets_ty(&path);
    assert_eq!(to_text(&widgets.tokens), "crate :: ui :: AppWidgets ");
    assert_eq!(widgets.segments, vec!["crate".to_string(), "ui".to_string(), "AppWidgets".to_string()]);
    assert_eq!(widgets.idents, vec![0, 3, 6]);
    assert_eq!(widgets.tokens[6], Token::ident("AppWidgets", 7));
    match item {
        ImplItem::Type(ty) => assert_eq!(to_text(&ty.ty), "crate :: ui :: AppWidgets "),
        other => panic!("unexpected item {:?}", other),
    }
}

#[test]
fn unexpandable_impl_gets_fallback_macros() {
    let original = tokenize("impl Component for App { view! { gtk::Box {} } }").unwrap();
    let output = item_impl_error(tokenize("impl Component for App { view! { gtk::Box {} } }").unwrap());
    let expected = "macro_rules! view_output { () => { () }; } macro_rules! view { () => {}; ($tt:tt) => {}; ($tt:tt $($y:tt)+) => {} }";
    let head = tokenize(expected).unwrap();
    assert_eq!(to_text(&output), format!("{}{}", to_text(&head), to_text(&original)));
}

#[test]
fn a_copy_of_a_function_holds_all_of_it() {
    let body = vec![
        Node::Local(Some(Box::new(parts(Node::Path(Some(ident("model", 5)), 5), 4))), 3),
        Node::Injected(tokenize("let a = 1;").unwrap(), Box::new(Node::Other(vec![Node::Path(None, 9)], 8))),
        Node::Verbatim(tokenize("x").unwrap()),
    ];
    let func = ImplItemMethod {
        name: "init".to_string(),
        inputs: vec![FnArg::Receiver(1), typed("root", 2), FnArg::Typed(Pat::Other, 3)],
        sig_span: 20,
        block: body,
        span: 21,
    };
    let copy = relm4_macros::host::clone_method(&func);
    assert_eq!(copy, func);
    assert_eq!(copy.block.len(), 3);
}
