use crate::error::{ErrorKind, ParseError};
use crate::tokens::{
    group_token_views, is_group, is_name, is_punct, is_punct2, is_word, span_of, tokens_view,
    Delimiter, Token, TokenKind,
};
use crate::widgets::{
    group_widget_views, lemma_unfold_property, lemma_unfold_property_type, lemma_unfold_widget,
    opt_attrs_view, opt_tokens_view, Attrs, Ident, Properties, PropertyType, ReturnedWidget, Widget,
    WidgetAttr, WidgetFunc, WidgetTemplateAttr,
};
use crate::widgets::parse::{parsed_view, result_view};
use crate::widgets::parse::grammar::{
    first_template_child, is_existing, names_unique, properties_wf, spec_check_props,
    spec_container_widget, spec_local_attr_name, spec_properties, spec_returned, spec_widget,
    spec_widget_func_info, widget_wf, WidgetFuncInfoView,
};
use vstd::prelude::*;

verus! {

/// What stands behind a widget's name.
pub struct WidgetFuncInfo {
    pub ref_token: Option<usize>,
    pub deref_token: Option<usize>,
    pub func: WidgetFunc,
    pub properties: Properties,
}

impl View for WidgetFuncInfo {
    type V = WidgetFuncInfoView;

    open spec fn view(&self) -> WidgetFuncInfoView {
        WidgetFuncInfoView {
            ref_token: self.ref_token,
            deref_token: self.deref_token,
            func: self.func@,
            properties: self.properties@,
        }
    }
}

fn existing(attr: WidgetAttr, template_attr: WidgetTemplateAttr) -> (b: bool)
    ensures
        b == is_existing(attr, template_attr),
{
    attr.is_local_attr() || template_attr == WidgetTemplateAttr::TemplateChild
}

impl Widget {
    /// Reads the widget that starts at `pos`. `end` is the span to blame
    /// where the tokens are used up.
    pub fn parse(
        ts: &Vec<Token>,
        pos: usize,
        end: usize,
        attributes: Option<Attrs>,
        args: Option<Vec<Token>>,
    ) -> (r: Result<(Widget, usize), ParseError>)
        requires
            pos <= ts.len(),
        ensures
            parsed_view(r) == spec_widget(
                tokens_view(ts@),
                pos as int,
                end,
                opt_attrs_view(attributes),
                opt_tokens_view(args),
            ),
            r matches Ok((_, next)) ==> pos < next <= ts.len(),
            r matches Ok((w, _)) ==> widget_wf(w@) && w@.args == opt_tokens_view(args),
        decreases ts, ts.len() - pos, 7nat,
    {
        broadcast use group_token_views;
        broadcast use group_widget_views;

        proof {
            reveal(spec_widget);
            reveal(spec_check_props);
            reveal(spec_widget_func_info);
            reveal(spec_returned);
        }
        let info = match Widget::process_attributes(attributes) {
            Ok(info) => info,
            Err(e) => {
                return Err(e);
            },
        };
        // Check if the first token is `mut`.
        let mutable = if is_word(ts, pos, "mut") {
            Some(ts[pos].span)
        } else {
            None
        };
        let pos1 = if mutable.is_some() {
            pos + 1
        } else {
            pos
        };
        let is_existing = existing(info.attr, info.template_attr);
        // Look for the `name = Widget` syntax.
        let renamed = pos1 < ts.len() && is_punct(ts, pos1 + 1, '=');
        if renamed && is_existing {
            return Err(ParseError::new(ErrorKind::RenameLocal, span_of(ts, pos1, end)));
        }
        if renamed && !is_name(ts, pos1) {
            return Err(ParseError::new(ErrorKind::ExpectedIdent, span_of(ts, pos1, end)));
        }
        let name_opt = if renamed {
            match &ts[pos1].kind {
                TokenKind::Ident(name) => Some(Ident { name: name.clone(), span: ts[pos1].span }),
                _ => None,
            }
        } else {
            None
        };
        let pos2 = if renamed {
            pos1 + 2
        } else {
            pos1
        };
        let (found, pos3) = match Widget::parse_widget_func(ts, pos2, end) {
            Ok(found) => found,
            Err(e) => {
                return Err(e);
            },
        };
        // Make sure that the name is only defined once.
        if name_opt.is_some() && info.name.is_some() {
            return Err(ParseError::new(ErrorKind::NameTwice, name_opt.unwrap().span));
        }
        if (name_opt.is_some() || info.name.is_some()) && is_existing {
            return Err(ParseError::new(ErrorKind::NameTwice, span_of(ts, pos3, end)));
        }
        let given = if name_opt.is_some() {
            name_opt
        } else {
            info.name
        };
        // Generate a name if no name was given.
        let (name, name_assigned_by_user) = match given {
            Some(name) => (name, true),
            None => if is_existing {
                match Widget::local_attr_name(&found.func) {
                    Ok(name) => (name, true),
                    Err(e) => {
                        return Err(e);
                    },
                }
            } else {
                (found.func.snake_case_name(), false)
            },
        };
        let (returned_widget, pos4) = if is_punct2(ts, pos3, '-', '>') {
            match ReturnedWidget::parse(ts, pos3 + 2, end) {
                Ok((returned, pos4)) => (Some(returned), pos4),
                Err(e) => {
                    return Err(e);
                },
            }
        } else {
            (None, pos3)
        };
        match Widget::check_props(&found.properties, &info.template_attr) {
            Ok(_) => {},
            Err(e) => {
                return Err(e);
            },
        }
        Ok(
            (
                Widget {
                    doc_attr: info.doc_attr,
                    attr: info.attr,
                    template_attr: info.template_attr,
                    mutable,
                    name,
                    name_assigned_by_user,
                    func: found.func,
                    args,
                    properties: found.properties,
                    assign_wrapper: info.assign_wrapper,
                    ref_token: found.ref_token,
                    deref_token: found.deref_token,
                    returned_widget,
                },
                pos4,
            ),
        )
    }

    /// Reads the rest of a widget that is appended to its parent: its
    /// constructor call `func` was read already and ends at `pos`.
    pub fn parse_for_container_ext(
        ts: &Vec<Token>,
        pos: usize,
        end: usize,
        func: WidgetFunc,
        attributes: Option<Attrs>,
    ) -> (r: Result<(Widget, usize), ParseError>)
        requires
            pos <= ts.len(),
        ensures
            parsed_view(r) == spec_container_widget(
                tokens_view(ts@),
                pos as int,
                end,
                func@,
                opt_attrs_view(attributes),
            ),
            r matches Ok((_, next)) ==> pos <= next <= ts.len(),
            r matches Ok((w, _)) ==> widget_wf(w@),
        decreases ts, ts.len() - pos, 5nat,
    {
        broadcast use group_token_views;
        broadcast use group_widget_views;

        proof {
            reveal(spec_container_widget);
            reveal(spec_check_props);
            reveal(spec_properties);
        }
        let info = match Widget::process_attributes(attributes) {
            Ok(info) => info,
            Err(e) => {
                return Err(e);
            },
        };
        match &info.assign_wrapper {
            Some(wrapper) => {
                return Err(ParseError::new(ErrorKind::ContainerWrapper, wrapper.span()));
            },
            None => {},
        }
        let (properties, next) = if is_punct(ts, pos, ',') {
            (Properties { properties: Vec::new() }, pos)
        } else if is_group(ts, pos, Delimiter::Brace) {
            match &ts[pos].kind {
                TokenKind::Group(_, inner) => (Properties::parse(inner, ts[pos].span), pos + 1),
                _ => (Properties { properties: Vec::new() }, pos),
            }
        } else {
            return Err(ParseError::new(ErrorKind::ExpectedBraces, span_of(ts, pos, end)));
        };
        let is_existing = existing(info.attr, info.template_attr);
        // Make sure that the name is only defined once.
        if is_existing {
            match &info.name {
                Some(name) => {
                    return Err(ParseError::new(ErrorKind::NameTwice, name.span));
                },
                None => {},
            }
        }
        // Generate a name.
        let (name, name_assigned_by_user) = match info.name {
            Some(name) => (name, true),
            None => if is_existing {
                match Widget::local_attr_name(&func) {
                    Ok(name) => (name, true),
                    Err(e) => {
                        return Err(e);
                    },
                }
            } else {
                (func.snake_case_name(), false)
            },
        };
        match Widget::check_props(&properties, &info.template_attr) {
            Ok(_) => {},
            Err(e) => {
                return Err(e);
            },
        }
        Ok(
            (
                Widget {
                    doc_attr: info.doc_attr,
                    attr: info.attr,
                    template_attr: info.template_attr,
                    mutable: None,
                    name,
                    name_assigned_by_user,
                    func,
                    args: None,
                    properties,
                    assign_wrapper: info.assign_wrapper,
                    ref_token: Some(0),
                    deref_token: None,
                    returned_widget: None,
                },
                next,
            ),
        )
    }

    /// Makes sure that a template's child is only used inside a template.
    pub fn check_props(props: &Properties, template_attr: &WidgetTemplateAttr) -> (r: Result<
        (),
        ParseError,
    >)
        ensures
            r == spec_check_props(props@, *template_attr),
    {
        
        proof {
            reveal(spec_check_props);
        }
        if *template_attr != WidgetTemplateAttr::Template {
            let ghost all = props@;
            let mut i: usize = 0;
            while i < props.properties.len()
                invariant
                    i <= props.properties.len(),
                    all == props@,
                    *template_attr != WidgetTemplateAttr::Template,
                    first_template_child(all, i as int) == first_template_child(all, 0),
                decreases props.properties.len() - i,
            {
                proof {
                    reveal(spec_check_props);
                    assert(all[i as int] == props.properties@[i as int]@);
                }
                match &props.properties[i].ty {
                    PropertyType::Widget(widget) => {
                        proof {
                            lemma_unfold_property(props.properties@[i as int]);
                            lemma_unfold_property_type(
                                props.properties@[i as int].ty,
                            );
                            lemma_unfold_widget(*widget);
                        }
                        if widget.template_attr == WidgetTemplateAttr::TemplateChild {
                            proof {
                                assert(first_template_child(all, i as int) == Some(i as int));
                            }
                            return Err(
                                ParseError::new(ErrorKind::TemplateChild, widget.name.span),
                            );
                        }
                    },
                    _ => {},
                }
                i += 1;
            }
        }
        Ok(())
    }

    /// The name of a widget that stands for an existing variable: its
    /// constructor must be a single identifier.
    pub fn local_attr_name(func: &WidgetFunc) -> (r: Result<Ident, ParseError>)
        ensures
            result_view(r) == spec_local_attr_name(func@),
    {
        broadcast use group_token_views;
        broadcast use group_widget_views;

        proof {
            reveal(spec_local_attr_name);
        }
        if func.path.tokens.len() == 1 {
            match &func.path.tokens[0].kind {
                TokenKind::Ident(name) => {
                    return Ok(Ident { name: name.clone(), span: func.path.tokens[0].span });
                },
                _ => {},
            }
        }
        Err(ParseError::new(ErrorKind::LocalIdent, func.path.span()))
    }

    /// Reads what stands behind a widget's name.
    pub fn parse_widget_func(ts: &Vec<Token>, pos: usize, end: usize) -> (r: Result<
        (WidgetFuncInfo, usize),
        ParseError,
    >)
        requires
            pos <= ts.len(),
        ensures
            parsed_view(r) == spec_widget_func_info(tokens_view(ts@), pos as int, end),
            r matches Ok((_, next)) ==> pos < next <= ts.len(),
            r matches Ok((info, _)) ==> names_unique(info@.properties) && properties_wf(
                info@.properties,
            ),
        decreases ts, ts.len() - pos, 6nat,
    {
        broadcast use group_token_views;
        broadcast use group_widget_views;

        proof {
            reveal(spec_widget_func_info);
            reveal(spec_properties);
        }
        // Look for &
        let ref_token = if is_punct(ts, pos, '&') {
            Some(ts[pos].span)
        } else {
            None
        };
        let pos1 = if ref_token.is_some() {
            pos + 1
        } else {
            pos
        };
        // Look for *
        let deref_token = if is_punct(ts, pos1, '*') {
            Some(ts[pos1].span)
        } else {
            None
        };
        let pos2 = if deref_token.is_some() {
            pos1 + 1
        } else {
            pos1
        };
        let (func, pos3) = match WidgetFunc::parse(ts, pos2, end) {
            Ok(found) => found,
            Err(e) => {
                return Err(e);
            },
        };
        if is_punct(ts, pos3, ',') {
            Ok(
                (
                    WidgetFuncInfo {
                        ref_token,
                        deref_token,
                        func,
                        properties: Properties { properties: Vec::new() },
                    },
                    pos3,
                ),
            )
        } else if is_group(ts, pos3, Delimiter::Brace) {
            match &ts[pos3].kind {
                TokenKind::Group(_, inner) => {
                    let properties = Properties::parse(inner, ts[pos3].span);
                    Ok((WidgetFuncInfo { ref_token, deref_token, func, properties }, pos3 + 1))
                },
                _ => Err(ParseError::new(ErrorKind::ExpectedBraces, span_of(ts, pos3, end))),
            }
        } else {
            Err(ParseError::new(ErrorKind::ExpectedBraces, span_of(ts, pos3, end)))
        }
    }
}

} // verus!
