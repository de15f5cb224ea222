use relm4_macros::error::{ErrorKind, ParseError};
use relm4_macros::lex::tokenize;
use relm4_macros::names::{decimal_string, has_prefix, setter, snake_case};
use relm4_macros::widgets::parse::view::ViewWidgets;
use relm4_macros::widgets::{
    AssignPropertyAttr, ConditionalBranches, ConditionalWidget, IfCondition, PropertyName,
    PropertyType, Widget,
    WidgetAttr, WidgetTemplateAttr,
};

fn parse_widget(source: &str) -> Result<Widget, ParseError> {
    let tokens = tokenize(source).unwrap();
    let mut view = ViewWidgets::parse(&tokens)?;
    assert_eq!(view.top_level_widgets.len(), 1);
    Ok(view.top_level_widgets.remove(0).inner)
}

fn kind_of(source: &str) -> ErrorKind {
    let tokens = tokenize(source).unwrap();
    ViewWidgets::parse(&tokens).unwrap_err().kind
}

#[test]
fn widget_name_is_derived_from_the_constructor() {
    let widget = parse_widget("gtk::Box { name: \"x\" }").unwrap();
    assert_eq!(widget.name.name, "gtk_box");
    assert!(!widget.name_assigned_by_user);
    assert_eq!(widget.attr, WidgetAttr::Unset);
    assert_eq!(widget.template_attr, WidgetTemplateAttr::Unset);
    assert_eq!(widget.func.path.segments, vec!["gtk".to_string(), "Box".to_string()]);
    assert_eq!(widget.properties.properties.len(), 1);
    let property = &widget.properties.properties[0];
    match &property.name {
        PropertyName::Ident(name) => assert_eq!(name.name, "name"),
        other => panic!("unexpected name {:?}", other),
    }
    match &property.ty {
        PropertyType::Assign(assign) => {
            assert_eq!(assign.attr, AssignPropertyAttr::Unset);
            assert_eq!(assign.expr, vec![relm4_macros::tokens::Token::literal("\"x\"", 8)]);
        }
        other => panic!("unexpected property {:?}", other),
    }
}

#[test]
fn derived_names_are_snake_case() {
    let widget = parse_widget("adw::HeaderBar {}").unwrap();
    assert_eq!(widget.name.name, "adw_header_bar");
    let widget = parse_widget("gtk::Label::new(None) {}").unwrap();
    assert_eq!(widget.name.name, "gtk_label_new");
}

#[test]
fn explicit_name_and_binding_modes() {
    let widget = parse_widget("mut vbox = &gtk::Box { }").unwrap();
    assert_eq!(widget.name.name, "vbox");
    assert!(widget.name_assigned_by_user);
    assert_eq!(widget.mutable, Some(1));
    assert_eq!(widget.ref_token, Some(4));
    assert_eq!(widget.deref_token, None);
}

#[test]
fn name_attribute_names_the_widget() {
    let widget = parse_widget("#[name(label)] gtk::Label {}").unwrap();
    assert_eq!(widget.name.name, "label");
    assert!(widget.name_assigned_by_user);
    let widget = parse_widget("#[name = \"label\"] gtk::Label {}").unwrap();
    assert_eq!(widget.name.name, "label");
}

#[test]
fn name_given_twice_is_an_error() {
    assert_eq!(kind_of("#[name(a)] b = gtk::Label {}"), ErrorKind::NameTwice);
    assert_eq!(kind_of("#[local] #[name(a)] b {}"), ErrorKind::NameTwice);
}

#[test]
fn local_widgets_keep_their_name() {
    let widget = parse_widget("#[local] my_box { }").unwrap();
    assert_eq!(widget.name.name, "my_box");
    assert!(widget.name_assigned_by_user);
    assert_eq!(widget.attr, WidgetAttr::Local);
    assert_eq!(kind_of("#[local] a = my_box {}"), ErrorKind::RenameLocal);
    assert_eq!(kind_of("#[local_ref] gtk::Box {}"), ErrorKind::LocalIdent);
}

#[test]
fn attributes_may_stand_once() {
    assert_eq!(kind_of("#[local] #[local_ref] a {}"), ErrorKind::AttributeTwice);
    assert_eq!(kind_of("#[template] #[template_child] a {}"), ErrorKind::AttributeTwice);
    assert_eq!(kind_of("#[name(a)] #[name(b)] gtk::Box {}"), ErrorKind::AttributeTwice);
    assert_eq!(kind_of("#[wrap(Some)] #[wrap(Some)] gtk::Box {}"), ErrorKind::AttributeTwice);
    assert_eq!(kind_of("#[watch] gtk::Box {}"), ErrorKind::WidgetAttribute);
    assert_eq!(kind_of("#[frobnicate] gtk::Box {}"), ErrorKind::UnknownAttribute);
    assert_eq!(kind_of("#[name] gtk::Box {}"), ErrorKind::AttributeArgument);
}

#[test]
fn same_name_twice_in_one_scope_is_a_conflict() {
    let tokens = tokenize("a = Box {} a = Label {}").unwrap();
    let error = ViewWidgets::parse(&tokens).unwrap_err();
    assert_eq!(error.kind, ErrorKind::NameConflict);
    assert_eq!(error.span, 5);
}

#[test]
fn same_name_twice_in_one_block_becomes_an_error_property() {
    let widget = parse_widget("gtk::Box { append = a = gtk::Label {}, append = a = gtk::Label {} }")
        .unwrap();
    let properties = &widget.properties.properties;
    assert_eq!(properties.len(), 2);
    assert!(matches!(properties[0].ty, PropertyType::Widget(_)));
    match &properties[1].ty {
        PropertyType::ParseError(error) => assert_eq!(error.kind, ErrorKind::NameConflict),
        other => panic!("unexpected property {:?}", other),
    }
}

#[test]
fn nested_widgets_and_returned_widgets() {
    let widget = parse_widget(
        "gtk::Stack { add_child = &gtk::Label { label: \"a\" } -> page: gtk::StackPage? { title: \"A\" }, gtk::Button {}, }",
    )
    .unwrap();
    let properties = &widget.properties.properties;
    assert_eq!(properties.len(), 2);
    match &properties[0].ty {
        PropertyType::Widget(child) => {
            assert_eq!(child.name.name, "gtk_label");
            let returned = child.returned_widget.as_ref().unwrap();
            assert_eq!(returned.name.name, "page");
            assert!(returned.is_optional);
            assert_eq!(returned.properties.properties.len(), 1);
        }
        other => panic!("unexpected property {:?}", other),
    }
    assert!(matches!(properties[1].name, PropertyName::RelmContainerExtAssign(_)));
    match &properties[1].ty {
        PropertyType::Widget(child) => {
            assert_eq!(child.name.name, "gtk_button");
            assert_eq!(child.ref_token, Some(0));
        }
        other => panic!("unexpected property {:?}", other),
    }
}

#[test]
fn template_child_needs_a_template_parent() {
    assert_eq!(
        kind_of("gtk::Box { #[template_child] child {} }"),
        ErrorKind::TemplateChild
    );
    let widget = parse_widget("#[template] MyTemplate { #[template_child] child { label: 1 } }")
        .unwrap();
    assert_eq!(widget.template_attr, WidgetTemplateAttr::Template);
    match &widget.properties.properties[0].ty {
        PropertyType::Widget(child) => {
            assert_eq!(child.template_attr, WidgetTemplateAttr::TemplateChild)
        }
        other => panic!("unexpected property {:?}", other),
    }
}

#[test]
fn container_widgets_cannot_be_wrapped() {
    let widget = parse_widget("gtk::Box { #[wrap(Some)] gtk::Label {} }").unwrap();
    match &widget.properties.properties[0].ty {
        PropertyType::ParseError(error) => assert_eq!(error.kind, ErrorKind::ContainerWrapper),
        other => panic!("unexpected property {:?}", other),
    }
}

#[test]
fn a_broken_property_does_not_stop_the_others() {
    let widget = parse_widget("gtk::Box { a: , b: 2, c ? 3, d: 4 }").unwrap();
    let properties = &widget.properties.properties;
    assert_eq!(properties.len(), 4);
    match &properties[0].ty {
        PropertyType::ParseError(error) => assert_eq!(error.kind, ErrorKind::ExpectedExpr),
        other => panic!("unexpected property {:?}", other),
    }
    assert!(matches!(properties[1].ty, PropertyType::Assign(_)));
    match &properties[2].ty {
        PropertyType::ParseError(error) => assert_eq!(error.kind, ErrorKind::ExpectedAssign),
        other => panic!("unexpected property {:?}", other),
    }
    assert!(matches!(properties[3].ty, PropertyType::Assign(_)));
}

#[test]
fn watch_and_track_attributes() {
    let widget = parse_widget(
        "gtk::Label { #[watch] label: &model.text, #[track(model.changed())] width: 1, #[track(.changed())] height: 2 }",
    )
    .unwrap();
    let properties = &widget.properties.properties;
    match &properties[0].ty {
        PropertyType::Assign(assign) => assert_eq!(assign.attr, AssignPropertyAttr::Watch),
        other => panic!("unexpected property {:?}", other),
    }
    match &properties[1].ty {
        PropertyType::Assign(assign) => {
            assert!(matches!(assign.attr, AssignPropertyAttr::Track(_, false)))
        }
        other => panic!("unexpected property {:?}", other),
    }
    match &properties[2].ty {
        PropertyType::Assign(assign) => {
            assert!(matches!(assign.attr, AssignPropertyAttr::Track(_, true)))
        }
        other => panic!("unexpected property {:?}", other),
    }
}

#[test]
fn signal_handlers_are_read() {
    let widget =
        parse_widget("gtk::Button { connect_clicked[sender] => move |_| { sender.input(1); } }")
            .unwrap();
    match &widget.properties.properties[0].ty {
        PropertyType::SignalHandler(handler) => {
            assert!(handler.args.is_some());
            assert_eq!(handler.handler.len(), 5);
        }
        other => panic!("unexpected property {:?}", other),
    }
}

#[test]
fn if_branches_get_their_index_as_argument() {
    let widget = parse_widget(
        "gtk::Box { if model.a { gtk::Label {} } else if model.b { gtk::Button {} } else { gtk::Entry {} } }",
    )
    .unwrap();
    match &widget.properties.properties[0].ty {
        PropertyType::ConditionalWidget(conditional) => {
            assert_eq!(conditional.name.name, "conditional_widget");
            match &conditional.branches {
                ConditionalBranches::If(branches) => {
                    assert_eq!(branches.len(), 3);
                    assert!(matches!(branches[0].cond, IfCondition::If(_, _)));
                    assert!(matches!(branches[1].cond, IfCondition::ElseIf(_, _, _)));
                    assert!(matches!(branches[2].cond, IfCondition::Else(_)));
                    for (index, branch) in branches.iter().enumerate() {
                        let args = relm4_macros::text::to_text(branch.widget.args.as_ref().unwrap());
                        assert_eq!(args, format!("Some ( \"{}\" ) ", index));
                        assert!(branch.widget.ref_token.is_some());
                    }
                }
                other => panic!("unexpected branches {:?}", other),
            }
        }
        other => panic!("unexpected property {:?}", other),
    }
}

#[test]
fn match_arms_get_their_index_as_argument() {
    let widget = parse_widget(
        "gtk::Box { match model.mode { Mode::A => gtk::Label {}, Mode::A if model.x => { gtk::Button {} } _ => gtk::Entry {} } }",
    )
    .unwrap();
    match &widget.properties.properties[0].ty {
        PropertyType::ConditionalWidget(conditional) => match &conditional.branches {
            ConditionalBranches::Match(_, scrutinee, arms) => {
                assert_eq!(relm4_macros::text::to_text(scrutinee), "model . mode ");
                assert_eq!(arms.len(), 3);
                assert!(arms[0].guard.is_none());
                assert!(arms[1].guard.is_some());
                for (index, arm) in arms.iter().enumerate() {
                    let args = relm4_macros::text::to_text(arm.widget.args.as_ref().unwrap());
                    assert_eq!(args, format!("Some ( \"{}\" ) ", index));
                    assert!(arm.widget.ref_token.is_some());
                }
                assert_eq!(relm4_macros::text::to_text(&arms[0].pattern), "Mode :: A ");
                assert_eq!(relm4_macros::text::to_text(&arms[1].pattern), "Mode :: A ");
            }
            other => panic!("unexpected branches {:?}", other),
        },
        other => panic!("unexpected property {:?}", other),
    }
}

#[test]
fn unparsable_pattern_aborts_the_conditional() {
    let widget = parse_widget("gtk::Box { match x { => gtk::Label {} } }").unwrap();
    match &widget.properties.properties[0].ty {
        PropertyType::ParseError(error) => assert_eq!(error.kind, ErrorKind::ExpectedPattern),
        other => panic!("unexpected property {:?}", other),
    }
}

#[test]
fn root_attribute_is_taken_off() {
    let tokens = tokenize("#[root] gtk::Window {}, gtk::Box {}").unwrap();
    let view = ViewWidgets::parse(&tokens).unwrap();
    assert_eq!(view.top_level_widgets.len(), 2);
    assert!(view.top_level_widgets[0].root_attr.is_some());
    assert!(view.top_level_widgets[1].root_attr.is_none());
    assert_eq!(kind_of("#[root] #[root] gtk::Window {}"), ErrorKind::AttributeTwice);
}

#[test]
fn error_messages_and_failing_code() {
    let error = ParseError::new(ErrorKind::TemplateChild, 7);
    assert_eq!(
        error.kind.message(),
        "You can't use a template child if the parent is not a template."
    );
    let code = relm4_macros::text::to_text(&error.to_failing_code());
    assert_eq!(
        code,
        ":: core :: compile_error ! { \"You can't use a template child if the parent is not a template.\" } "
    );
}

#[test]
fn attributes_that_do_not_fit_are_errors() {
    let first_error = |source: &str| {
        let widget = parse_widget(source).unwrap();
        match &widget.properties.properties[0].ty {
            PropertyType::ParseError(error) => error.kind,
            other => panic!("unexpected property {:?}", other),
        }
    };
    assert_eq!(first_error("gtk::Box { #[local] if a { gtk::Label {} } }"), ErrorKind::ConditionalAttribute);
    assert_eq!(first_error("gtk::Box { #[name(a)] label: 1 }"), ErrorKind::PropertyAttribute);
    assert_eq!(first_error("gtk::Box { #[watch] #[watch] label: 1 }"), ErrorKind::AttributeTwice);
    assert_eq!(first_error("gtk::Box { #[watch] clicked => handler }"), ErrorKind::PropertyAttribute);
    assert_eq!(first_error("gtk::Box { #[transition(a)] #[transition(b)] if a { gtk::Label {} } }"), ErrorKind::AttributeTwice);
}

#[test]
fn malformed_properties_are_errors_in_their_place() {
    let first_error = |source: &str| {
        let widget = parse_widget(source).unwrap();
        match &widget.properties.properties[0].ty {
            PropertyType::ParseError(error) => error.kind,
            other => panic!("unexpected property {:?}", other),
        }
    };
    assert_eq!(first_error("gtk::Box { gtk::Label::new(None): 1 }"), ErrorKind::PropertyName);
    assert_eq!(first_error("gtk::Box { 1: 2 }"), ErrorKind::ExpectedPath);
    assert_eq!(first_error("gtk::Box { a = b = 1 }"), ErrorKind::ExpectedPath);
    assert_eq!(first_error("gtk::Box { a = gtk::Label }"), ErrorKind::ExpectedBraces);
    assert_eq!(first_error("gtk::Box { a = 1 = gtk::Label {} }"), ErrorKind::ExpectedIdent);
    assert_eq!(first_error("gtk::Box { if a { gtk::Label {} extra } }"), ErrorKind::UnexpectedToken);
    assert_eq!(first_error("gtk::Box { if { gtk::Label {} } }"), ErrorKind::ExpectedBraces);
    assert_eq!(first_error("gtk::Box { if a gtk::Label {} }"), ErrorKind::ExpectedBraces);
    assert_eq!(first_error("gtk::Box { match { A => gtk::Label {} } }"), ErrorKind::ExpectedExpr);
    assert_eq!(first_error("gtk::Box { match a, { A => gtk::Label {} } }"), ErrorKind::ExpectedBraces);
    assert_eq!(first_error("gtk::Box { match a { A gtk::Label {} } }"), ErrorKind::ExpectedFatArrow);
    assert_eq!(first_error("gtk::Box { match a { A if => gtk::Label {} } }"), ErrorKind::ExpectedExpr);
    assert_eq!(first_error("gtk::Box { a = &gtk::Label {} -> b gtk::Page {} }"), ErrorKind::ExpectedColon);
    assert_eq!(first_error("gtk::Box { a = gtk::Label::new().(x) {} }"), ErrorKind::ExpectedIdent);
    assert_eq!(first_error("gtk::Box { a: = gtk::Label {} }"), ErrorKind::ExpectedExpr);
}

#[test]
fn a_missing_comma_is_reported_and_skipped() {
    let widget = parse_widget("gtk::Box { a: 1 b: 2, c: 3 }").unwrap();
    let properties = &widget.properties.properties;
    assert_eq!(properties.len(), 3);
    assert!(matches!(properties[0].ty, PropertyType::Assign(_)));
    match &properties[1].ty {
        PropertyType::ParseError(error) => assert_eq!(error.kind, ErrorKind::ExpectedComma),
        other => panic!("unexpected property {:?}", other),
    }
    match &properties[2].name {
        PropertyName::Ident(name) => assert_eq!(name.name, "c"),
        other => panic!("unexpected name {:?}", other),
    }
}

#[test]
fn conditional_parse_needs_if_or_match() {
    let tokens = tokenize("while a {}").unwrap();
    let error = ConditionalWidget::parse(&tokens, 0, 0, None, None).unwrap_err();
    assert_eq!(error, ParseError::new(ErrorKind::ExpectedConditional, 1));
}

#[test]
fn method_chains_and_types_of_constructors() {
    let widget = parse_widget("gtk::Button::builder().label(\"a\").build() -> gtk::Button { }").unwrap();
    assert_eq!(widget.name.name, "gtk_button_builder");
    assert_eq!(relm4_macros::text::to_text(widget.func.method_chain.as_ref().unwrap()), "label ( \"a\" ) . build ( ) ");
    assert_eq!(widget.func.ty.as_ref().unwrap().segments, vec!["gtk".to_string(), "Button".to_string()]);
}

#[test]
fn snake_case_and_decimal_digits() {
    let name = |segments: &[&str]| snake_case(&segments.iter().map(|s| s.to_string()).collect());
    assert_eq!(name(&["gtk", "Box"]), "gtk_box");
    assert_eq!(name(&["adw", "HeaderBar"]), "adw_header_bar");
    assert_eq!(name(&["GL"]), "gl");
    assert_eq!(name(&["Gtk4Window2D"]), "gtk4_window2_d");
    assert_eq!(name(&["my_widget"]), "my_widget");
    assert_eq!(name(&[]), "");
    assert!(has_prefix("set_title", "set_"));
    assert!(has_prefix("set_", "set_"));
    assert!(!has_prefix("set", "set_"));
    assert!(!has_prefix("reset_title", "set_"));
    assert_eq!(setter(&"title".to_string()), "set_title");
    assert_eq!(setter(&"set_title".to_string()), "set_title");
    assert_eq!(decimal_string(0), "0");
    assert_eq!(decimal_string(7), "7");
    assert_eq!(decimal_string(10), "10");
    assert_eq!(decimal_string(4096), "4096");
}

#[test]
fn a_literal_of_unknown_form_is_an_error() {
    // The text behind a position is handed on as a whole, so the literal is
    // in the way of everything before it.
    assert_eq!(kind_of("gtk::Box { a: c\"x\", b: 2 }"), ErrorKind::ExpectedPath);
    let widget = parse_widget("gtk::Box { a: 1e-3, b: 2 }").unwrap();
    assert!(matches!(widget.properties.properties[0].ty, PropertyType::Assign(_)));
}

#[test]
fn a_reserved_word_is_no_name() {
    assert_eq!(kind_of("type = gtk::Box {}"), ErrorKind::ExpectedIdent);
    assert_eq!(kind_of("mut self = gtk::Box {}"), ErrorKind::ExpectedIdent);
    assert_eq!(kind_of("yield = gtk::Box {}"), ErrorKind::ExpectedIdent);
    let error = ViewWidgets::parse(&tokenize("fn = gtk::Box {}").unwrap()).unwrap_err();
    assert_eq!(error, ParseError::new(ErrorKind::ExpectedIdent, 1));
    let widget = parse_widget("r#type = gtk::Box {}").unwrap();
    assert_eq!(widget.name.name, "r#type");
    let widget = parse_widget("types = gtk::Box {}").unwrap();
    assert_eq!(widget.name.name, "types");
}

#[test]
fn reserved_words_are_told_from_names() {
    for word in [
        "_", "abstract", "as", "become", "box", "break", "const", "continue", "crate", "do",
        "else", "enum", "extern", "false", "final", "fn", "for", "if", "impl", "in", "let",
        "loop", "macro", "match", "mod", "move", "mut", "override", "priv", "pub", "ref",
        "return", "Self", "self", "static", "struct", "super", "trait", "true", "type", "typeof",
        "unsafe", "unsized", "use", "virtual", "where", "while", "yield",
    ] {
        assert!(relm4_macros::tokens::is_reserved(&word.to_string()), "{}", word);
    }
    for word in ["", "a", "r#fn", "async", "await", "dyn", "try", "union", "Fn", "selfish", "ma", "matc"] {
        assert!(!relm4_macros::tokens::is_reserved(&word.to_string()), "{}", word);
    }
}
