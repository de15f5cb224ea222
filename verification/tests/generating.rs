use relm4_macros::lex::tokenize;
use relm4_macros::text::to_text;
use relm4_macros::tokens::Token;
use relm4_macros::view::generate_tokens;
use relm4_macros::widgets::generate::streams::{TokenStreams, TraitImplDetails};
use relm4_macros::widgets::parse::view::ViewWidgets;
use relm4_macros::widgets::Ident;

fn details() -> TraitImplDetails {
    TraitImplDetails {
        vis: None,
        model_name: Ident { name: "model".to_string(), span: 0 },
        sender_name: Ident { name: "sender".to_string(), span: 0 },
        root_name: None,
    }
}

fn streams(source: &str) -> TokenStreams {
    let tokens = tokenize(source).unwrap();
    ViewWidgets::parse(&tokens).unwrap().generate_streams(&details(), true)
}

fn text(tokens: &Vec<Token>) -> String {
    to_text(tokens)
}

fn normal(source: &str) -> String {
    to_text(&tokenize(source).unwrap())
}

#[test]
fn assign_stream_of_a_single_property() {
    let streams = streams("gtk::Box { name: \"x\" }");
    assert_eq!(text(&streams.assign), normal("gtk_box.set_name(\"x\");"));
    assert_eq!(text(&streams.init), normal("let gtk_box = gtk::Box::default();"));
    assert!(streams.connect.is_empty());
    assert!(streams.error.is_empty());
}

#[test]
fn assign_stream_keeps_the_order_of_declaration() {
    let streams = streams("gtk::Box { c: 3, a: 1, b[x, y]: 2 }");
    assert_eq!(
        text(&streams.assign),
        normal("gtk_box.set_c(3); gtk_box.set_a(1); gtk_box.set_b(2, x, y);")
    );
}

#[test]
fn names_that_are_setters_already_are_kept() {
    let streams = streams("gtk::Window { set_title: Some(\"Simple app\"), title: None, set: 1 }");
    assert_eq!(
        text(&streams.assign),
        normal(
            "gtk_window.set_title(Some(\"Simple app\")); gtk_window.set_title(None); gtk_window.set_set(1);"
        )
    );
}

#[test]
fn a_whole_view_is_lowered() {
    let streams = streams(
        "#[root] gtk::Window { set_title: Some(\"Simple app\"), set_default_width: 300, gtk::Box { set_orientation: gtk::Orientation::Vertical, gtk::Button { set_label: \"Increment\", connect_clicked[sender] => move |_| { sender.input(AppInput::Increment); } }, gtk::Label { #[watch] set_label: &format!(\"Counter: {}\", model.counter), set_margin_all: 5, } } }",
    );
    assert!(streams.error.is_empty());
    assert_eq!(
        text(&streams.init),
        normal(
            "let gtk_window = gtk::Window::default(); let gtk_box = gtk::Box::default(); let gtk_button = gtk::Button::default(); let gtk_label = gtk::Label::default();"
        )
    );
    assert_eq!(
        text(&streams.connect),
        normal("gtk_button.connect_clicked(move |_| { sender.input(AppInput::Increment); }, sender);")
    );
    assert_eq!(
        text(&streams.assign),
        normal(
            "gtk_window.set_title(Some(\"Simple app\")); gtk_window.set_default_width(300); gtk_window.container_add(&gtk_box); gtk_box.set_orientation(gtk::Orientation::Vertical); gtk_box.container_add(&gtk_button); gtk_button.set_label(\"Increment\"); gtk_box.container_add(&gtk_label); gtk_label.set_label(&format!(\"Counter: {}\", model.counter)); gtk_label.set_margin_all(5);"
        )
    );
}

#[test]
fn path_properties_take_the_widget_as_first_argument() {
    let streams = streams("gtk::Box { gtk::prelude::WidgetExt::set_margin_all: 5 }");
    assert_eq!(
        text(&streams.assign),
        normal("gtk::prelude::WidgetExt::set_margin_all(&gtk_box, 5);")
    );
}

#[test]
fn nested_widgets_are_built_and_handed_to_their_parent() {
    let streams = streams(
        "gtk::Window { child = &gtk::Box { gtk::Label { label: \"a\" }, #[wrap(Some)] extra = gtk::Button::new() {}, } }",
    );
    assert_eq!(
        text(&streams.init),
        normal(
            "let gtk_window = gtk::Window::default(); let gtk_box = gtk::Box::default(); let gtk_label = gtk::Label::default(); let gtk_button_new = gtk::Button::new();"
        )
    );
    assert_eq!(
        text(&streams.assign),
        normal(
            "gtk_window.child(&gtk_box); gtk_box.container_add(&gtk_label); gtk_label.set_label(\"a\"); gtk_box.extra(Some(gtk_button_new));"
        )
    );
}

#[test]
fn returned_widgets_are_bound_by_the_assignment() {
    let streams = streams(
        "gtk::Stack { add_child = &gtk::Label {} -> page: gtk::StackPage? { title: \"A\" }, add_titled = &gtk::Button {} -> { name: \"b\" } }",
    );
    assert_eq!(
        text(&streams.assign),
        normal(
            "let page: gtk::StackPage = gtk_stack.add_child(&gtk_label).unwrap(); page.set_title(\"A\"); let _returned_widget = gtk_stack.add_titled(&gtk_button); _returned_widget.set_name(\"b\");"
        )
    );
}

#[test]
fn template_children_are_bound_and_never_assigned() {
    let streams = streams(
        "#[template] MyTemplate { #[template_child] child { label: \"x\" }, gtk::Label {} }",
    );
    assert_eq!(
        text(&streams.assign),
        normal("child.set_label(\"x\"); my_template.container_add(&gtk_label);")
    );
    assert_eq!(
        text(&streams.init),
        normal(
            "let my_template = MyTemplate; let child = &my_template.child; let gtk_label = gtk::Label::default();"
        )
    );
}

#[test]
fn a_root_that_is_handed_in_is_not_built_again() {
    let tokens = tokenize("#[root] gtk::Window { gtk::Box {} }, gtk::Label {}").unwrap();
    let view = ViewWidgets::parse(&tokens).unwrap();
    let with_root = TraitImplDetails { root_name: Some(Ident { name: "root".to_string(), span: 0 }), ..details() };
    let embedded = view.generate_streams(&with_root, false);
    assert_eq!(
        text(&embedded.init),
        normal("let gtk_window = root.clone(); let gtk_box = gtk::Box::default(); let gtk_label = gtk::Label::default();")
    );
    let alone = view.generate_streams(&with_root, true);
    assert_eq!(
        text(&alone.init),
        normal("let gtk_window = gtk::Window::default(); let gtk_box = gtk::Box::default(); let gtk_label = gtk::Label::default();")
    );
    let nameless = view.generate_streams(&details(), false);
    assert_eq!(alone, nameless);
}

#[test]
fn local_widgets_are_not_built() {
    let streams = streams("#[local] my_box { spacing: 1 }");
    assert!(streams.init.is_empty());
    assert_eq!(text(&streams.assign), normal("my_box.set_spacing(1);"));
}

#[test]
fn signal_handlers_are_connected() {
    let streams = streams("gtk::Button { connect_clicked[sender] => handler, label: \"a\" }");
    assert_eq!(text(&streams.connect), normal("gtk_button.connect_clicked(handler, sender);"));
    assert_eq!(text(&streams.assign), normal("gtk_button.set_label(\"a\");"));
}

#[test]
fn errors_are_reported_next_to_the_rest() {
    let streams = streams("gtk::Box { a: , b: 2 }");
    assert_eq!(
        text(&streams.error),
        normal("::core::compile_error! { \"expected expression\" }")
    );
    assert_eq!(text(&streams.assign), normal("gtk_box.set_b(2);"));
}

#[test]
fn if_branches_name_the_visible_child_by_their_index() {
    let streams = streams(
        "gtk::Box { #[name(stack)] if model.a { gtk::Label { #[watch] label: &model.text, plain: 1 } } else { gtk::Button { #[track(model.changed())] label: \"b\" } } }",
    );
    assert_eq!(
        text(&streams.init),
        normal(
            "let gtk_box = gtk::Box::default(); let stack = gtk::Stack::default(); let gtk_label = gtk::Label::default(); let gtk_button = gtk::Button::default();"
        )
    );
    assert_eq!(
        text(&streams.assign),
        normal(
            "gtk_box.container_add(&stack); stack.add_named(&gtk_label, Some(\"0\")); gtk_label.set_plain(1); stack.add_named(&gtk_button, Some(\"1\")); let __current_page = \"\"; stack.set_visible_child_name(if model.a { gtk_label.set_label(&model.text); \"0\" } else { if model.changed() { gtk_button.set_label(\"b\"); } \"1\" });"
        )
    );
}

#[test]
fn match_arms_name_the_visible_child_by_their_index() {
    let streams = streams(
        "gtk::Box { #[name(stack)] match model.mode { Mode::A => gtk::Label {}, Mode::A if model.x => { gtk::Button { #[track(.changed(M::x()))] label: \"b\" } } } }",
    );
    assert_eq!(
        text(&streams.assign),
        normal(
            "gtk_box.container_add(&stack); stack.add_named(&gtk_label, Some(\"0\")); stack.add_named(&gtk_button, Some(\"1\")); let __current_page = \"\"; stack.set_visible_child_name(match model.mode { Mode::A => { \"0\" }, Mode::A if model.x => { if model.changed(M::x()) { gtk_button.set_label(\"b\"); } \"1\" }, });"
        )
    );
}

#[test]
fn generation_is_repeatable() {
    let source = "gtk::Box { #[name(stack)] if model.a { gtk::Label { #[track(model.changed())] label: \"b\" } } }";
    let first = streams(source);
    let second = streams(source);
    assert_eq!(first, second);
}

#[test]
fn standalone_view_is_lowered_in_one_piece() {
    let input = tokenize("gtk::Button { label: \"a\", connect_clicked => handler, broken: }").unwrap();
    let output = generate_tokens(&input);
    assert_eq!(
        text(&output),
        normal(
            "let gtk_button = gtk::Button::default(); gtk_button.connect_clicked(handler); gtk_button.set_label(\"a\"); { ::core::compile_error! { \"expected expression\" } }"
        )
    );
}

#[test]
fn standalone_view_that_cannot_be_read_fails_to_compile() {
    let input = tokenize("a = Box {} a = Label {}").unwrap();
    let output = generate_tokens(&input);
    assert_eq!(
        text(&output),
        normal("::core::compile_error! { \"A widget of this name is already declared in this block.\" }")
    );
}
