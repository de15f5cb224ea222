use crate::error::{ErrorKind, ParseError};
use crate::laws::lemma_names_unique;
use crate::syntax::find_expr_end;
use crate::tokens::{
    clone_tokens, group_token_views, is_group, is_ident, is_punct, is_punct2, is_word, slice,
    span_of, tokens_view, Delimiter, Token, TokenKind,
};
use crate::widgets::{
    group_widget_views, opt_attrs_view, properties_view, AssignProperty, AssignPropertyAttr,
    AssignPropertyAttrView, AttrKind, Attrs, ConditionalWidget, Ident, Properties, Property,
    PropertyName, PropertyType, SignalHandler, Widget, WidgetFunc,
};
use crate::widgets::parse::{parsed_view, result_view};
use crate::widgets::parse::attrs::parse_attrs;
use crate::widgets::parse::grammar::{
    declared_name, declares, error_property, lemma_push_wf, names_unique, properties_wf,
    property_type_wf, skip_past_comma, spec_assign_attr, spec_conditional, spec_container_widget,
    spec_properties, spec_property, spec_property_name, spec_property_type, spec_widget,
    with_assign_attr, with_assign_attrs, without_conflict,
};
use vstd::prelude::*;

verus! {

/// The property that stands for an error.
pub fn invalid_property(e: ParseError) -> (p: Property)
    ensures
        p@ == error_property(e),
{
    Property {
        name: PropertyName::Ident(
            Ident { name: String::from_str("invalid_property"), span: e.span },
        ),
        ty: PropertyType::ParseError(e),
    }
}

/// Whether one of `props` declares `name`.
pub fn declares_name(props: &Vec<Property>, name: &String) -> (b: bool)
    ensures
        b == declares(properties_view(props@), name@),
{
    
    let ghost all = properties_view(props@);
    let mut i: usize = 0;
    while i < props.len()
        invariant
            i <= props.len(),
            all == properties_view(props@),
            forall|j: int| 0 <= j < i ==> #[trigger] declared_name(all[j]) != Some(name@),
        decreases props.len() - i,
    {
        proof {
            assert(all[i as int] == props@[i as int]@);
        }
        let found = match &props[i].ty {
            PropertyType::Widget(w) => w.name.name == *name,
            PropertyType::ConditionalWidget(c) => c.name.name == *name,
            _ => false,
        };
        if found {
            proof {
                assert(declared_name(all[i as int]) == Some(name@));
            }
            return true;
        }
        i += 1;
    }
    false
}

/// `p`, or an error in its place where it declares a name that one of
/// `before` declares already.
pub fn resolve_conflict(before: &Vec<Property>, p: Property) -> (r: Property)
    ensures
        r@ == without_conflict(properties_view(before@), p@),
        property_type_wf(p@.ty) ==> property_type_wf(r@.ty),
{
    let conflict = match &p.ty {
        PropertyType::Widget(w) => if declares_name(before, &w.name.name) {
            Some(w.name.span)
        } else {
            None
        },
        PropertyType::ConditionalWidget(c) => if declares_name(before, &c.name.name) {
            Some(c.name.span)
        } else {
            None
        },
        _ => None,
    };
    match conflict {
        Some(span) => invalid_property(ParseError::new(ErrorKind::NameConflict, span)),
        None => p,
    }
}

/// The position behind the next comma at or behind `pos`, or the end.
pub fn skip_to_comma(ts: &Vec<Token>, pos: usize) -> (r: usize)
    requires
        pos <= ts.len(),
    ensures
        r == skip_past_comma(tokens_view(ts@), pos as int),
        pos <= r <= ts.len(),
        pos < ts.len() ==> pos < r,
{
    let ghost tv = tokens_view(ts@);
    let mut at = pos;
    while at < ts.len()
        invariant
            pos <= at <= ts.len(),
            tv == tokens_view(ts@),
            skip_past_comma(tv, at as int) == skip_past_comma(tv, pos as int),
        decreases ts.len() - at,
    {
        if is_punct(ts, at, ',') {
            return at + 1;
        }
        at += 1;
    }
    at
}

/// The name of a property from what was read as a constructor call.
pub fn property_name(func: WidgetFunc) -> (r: Result<PropertyName, ParseError>)
    ensures
        result_view(r) == spec_property_name(func@),
{
    broadcast use group_token_views;
        broadcast use group_widget_views;

    proof {
        reveal(spec_property_name);
    }
    if func.args.is_some() || func.method_chain.is_some() || func.ty.is_some() {
        return Err(ParseError::new(ErrorKind::PropertyName, func.path.span()));
    }
    if func.path.tokens.len() == 1 {
        match &func.path.tokens[0].kind {
            TokenKind::Ident(name) => {
                return Ok(
                    PropertyName::Ident(
                        Ident { name: name.clone(), span: func.path.tokens[0].span },
                    ),
                );
            },
            _ => {},
        }
    }
    Ok(PropertyName::Path(func.path))
}

/// What the attributes before an assignment say of it.
pub fn assign_attr(attrs: Option<Attrs>) -> (r: Result<AssignPropertyAttr, ParseError>)
    ensures
        result_view(r) == spec_assign_attr(opt_attrs_view(attrs)),
{
    broadcast use group_token_views;
        broadcast use group_widget_views;

    proof {
        reveal(spec_assign_attr);
    }
    let ghost given = opt_attrs_view(attrs);
    let present = match attrs {
        Some(present) => present,
        None => {
            return Ok(AssignPropertyAttr::Unset);
        },
    };
    let ghost all = present@;
    let mut attr = AssignPropertyAttr::Unset;
    let list = present.inner;
    for a in it: list
        invariant
            it.seq() == list@,
            all == (Attrs { inner: list })@,
            given == Some(all),
            given == opt_attrs_view(attrs),
            with_assign_attrs(attr@, all, it.index()) == with_assign_attrs(
                AssignPropertyAttrView::Unset,
                all,
                0,
            ),
    {
        proof {
            reveal(spec_assign_attr);
        }
        let ghost before = attr@;
        let ghost av = a@;
        proof {
            assert(all[it.index()] == av);
        }
        let unset = match &attr {
            AssignPropertyAttr::Unset => true,
            _ => false,
        };
        let span = a.span;
        match a.kind {
            AttrKind::Watch => {
                if !unset {
                    return Err(ParseError::new(ErrorKind::AttributeTwice, span));
                }
                attr = AssignPropertyAttr::Watch;
                proof {
                    assert(with_assign_attr(before, av) == Ok::<AssignPropertyAttrView, ParseError>(
                        attr@,
                    ));
                }
            },
            AttrKind::Track(guard) => {
                if !unset {
                    return Err(ParseError::new(ErrorKind::AttributeTwice, span));
                }
                let paste_model = is_punct(&guard, 0, '.');
                attr = AssignPropertyAttr::Track(guard, paste_model);
                proof {
                    assert(with_assign_attr(before, av) == Ok::<AssignPropertyAttrView, ParseError>(
                        attr@,
                    ));
                }
            },
            _ => {
                return Err(ParseError::new(ErrorKind::PropertyAttribute, span));
            },
        }
    }
    Ok(attr)
}

impl Properties {
    /// Reads the properties between a widget's braces. `scope` is the span
    /// of the braces.
    pub fn parse(inner: &Vec<Token>, scope: usize) -> (props: Properties)
        ensures
            props@ == spec_properties(tokens_view(inner@), 0, scope, Seq::empty()),
            names_unique(props@),
            properties_wf(props@),
        decreases inner, inner.len(), 10nat,
    {
        broadcast use group_token_views;
        broadcast use group_widget_views;
        
        proof {
            reveal(spec_properties);
            reveal(spec_property);
        }
        let ghost tv = tokens_view(inner@);
        let mut properties: Vec<Property> = Vec::new();
        let mut pos: usize = 0;
        while pos < inner.len()
            invariant
                pos <= inner.len(),
                tv == tokens_view(inner@),
                properties_wf(properties_view(properties@)),
                spec_properties(tv, pos as int, scope, properties_view(properties@))
                    == spec_properties(tv, 0, scope, Seq::empty()),
            decreases inner.len() - pos,
        {
            proof {
                reveal(spec_properties);
                reveal(spec_property);
            reveal(spec_property);
            }
            let ghost acc = properties_view(properties@);
            match Property::parse(inner, pos, scope) {
                Ok((p, next)) => {
                    let p = resolve_conflict(&properties, p);
                    let ghost pv = p@;
                    properties.push(p);
                    proof {
                        assert(properties_view(properties@) == acc.push(pv));
                        lemma_push_wf(acc, pv);
                    }
                    if next >= inner.len() {
                        pos = inner.len();
                    } else if is_punct(inner, next, ',') {
                        pos = next + 1;
                    } else {
                        let ghost acc1 = properties_view(properties@);
                        let missing = invalid_property(
                            ParseError::new(ErrorKind::ExpectedComma, inner[next].span),
                        );
                        let ghost mv = missing@;
                        properties.push(missing);
                        proof {
                            assert(properties_view(properties@) == acc1.push(mv));
                            lemma_push_wf(acc1, mv);
                        }
                        pos = skip_to_comma(inner, next);
                    }
                },
                Err(e) => {
                    let invalid = invalid_property(e);
                    let ghost iv = invalid@;
                    properties.push(invalid);
                    proof {
                        assert(properties_view(properties@) == acc.push(iv));
                        lemma_push_wf(acc, iv);
                    }
                    pos = skip_to_comma(inner, pos);
                },
            }
        }
        proof {
            lemma_names_unique(tv, 0, scope, Seq::empty());
        }
        Properties { properties }
    }
}

impl Property {
    /// Reads the property that starts at `pos`.
    pub fn parse(ts: &Vec<Token>, pos: usize, end: usize) -> (r: Result<
        (Property, usize),
        ParseError,
    >)
        requires
            pos <= ts.len(),
        ensures
            parsed_view(r) == spec_property(tokens_view(ts@), pos as int, end),
            r matches Ok((_, next)) ==> pos < next <= ts.len(),
            r matches Ok((p, _)) ==> property_type_wf(p@.ty),
        decreases ts, ts.len() - pos, 9nat,
    {
        broadcast use group_token_views;
        broadcast use group_widget_views;

        proof {
            reveal(spec_property);
            reveal(spec_property_type);
            reveal(spec_conditional);
            reveal(spec_container_widget);
        }
        let (attrs, pos1) = match parse_attrs(ts, pos) {
            Ok(found) => found,
            Err(e) => {
                return Err(e);
            },
        };
        if is_word(ts, pos1, "if") || is_word(ts, pos1, "match") {
            return match ConditionalWidget::parse(ts, pos1, end, attrs, None) {
                Ok((c, next)) => Ok(
                    (
                        Property {
                            name: PropertyName::RelmContainerExtAssign(ts[pos1].span),
                            ty: PropertyType::ConditionalWidget(c),
                        },
                        next,
                    ),
                ),
                Err(e) => Err(e),
            };
        }
        let (func, pos2) = match WidgetFunc::parse(ts, pos1, end) {
            Ok(found) => found,
            Err(e) => {
                return Err(e);
            },
        };
        if is_group(ts, pos2, Delimiter::Brace) || is_punct(ts, pos2, ',') {
            return match Widget::parse_for_container_ext(ts, pos2, end, func, attrs) {
                Ok((w, next)) => Ok(
                    (
                        Property {
                            name: PropertyName::RelmContainerExtAssign(ts[pos1].span),
                            ty: PropertyType::Widget(w),
                        },
                        next,
                    ),
                ),
                Err(e) => Err(e),
            };
        }
        let name = match property_name(func) {
            Ok(name) => name,
            Err(e) => {
                return Err(e);
            },
        };
        match PropertyType::parse(ts, pos2, end, attrs) {
            Ok((ty, next)) => Ok((Property { name, ty }, next)),
            Err(e) => Err(e),
        }
    }
}

impl PropertyType {
    /// Reads what is assigned to a property whose name ends at `pos`.
    pub fn parse(ts: &Vec<Token>, pos: usize, end: usize, attrs: Option<Attrs>) -> (r: Result<
        (PropertyType, usize),
        ParseError,
    >)
        requires
            pos <= ts.len(),
        ensures
            parsed_view(r) == spec_property_type(
                tokens_view(ts@),
                pos as int,
                end,
                opt_attrs_view(attrs),
            ),
            r matches Ok((_, next)) ==> pos < next <= ts.len(),
            r matches Ok((ty, _)) ==> property_type_wf(ty@),
        decreases ts, ts.len() - pos, 8nat,
    {
        broadcast use group_token_views;
        broadcast use group_widget_views;

        proof {
            reveal(spec_property_type);
            reveal(spec_conditional);
            reveal(spec_widget);
        }
        let (args, pos1) = if is_group(ts, pos, Delimiter::Bracket) {
            match &ts[pos].kind {
                TokenKind::Group(_, inner) => (Some(clone_tokens(inner)), pos + 1),
                _ => (None, pos),
            }
        } else {
            (None, pos)
        };
        if is_punct2(ts, pos1, '=', '>') {
            match &attrs {
                Some(present) => {
                    // `parse_attrs` hands out attributes only where it read one.
                    let span = if present.inner.len() > 0 {
                        present.inner[0].span
                    } else {
                        end
                    };
                    return Err(ParseError::new(ErrorKind::PropertyAttribute, span));
                },
                None => {},
            }
            match find_expr_end(ts, pos1 + 2) {
                Some(e) => Ok(
                    (
                        PropertyType::SignalHandler(
                            SignalHandler { args, handler: slice(ts, pos1 + 2, e) },
                        ),
                        e,
                    ),
                ),
                None => Err(ParseError::new(ErrorKind::ExpectedExpr, span_of(ts, pos1 + 2, end))),
            }
        } else if is_punct(ts, pos1, '=') {
            match Widget::parse(ts, pos1 + 1, end, attrs, args) {
                Ok((w, next)) => Ok((PropertyType::Widget(w), next)),
                Err(e) => Err(e),
            }
        } else if is_punct(ts, pos1, ':') {
            if is_word(ts, pos1 + 1, "if") || is_word(ts, pos1 + 1, "match") {
                match ConditionalWidget::parse(ts, pos1 + 1, end, attrs, args) {
                    Ok((c, next)) => Ok((PropertyType::ConditionalWidget(c), next)),
                    Err(e) => Err(e),
                }
            } else if is_ident(ts, pos1 + 1) && ts.len() - pos1 > 2 && is_punct(ts, pos1 + 2, '=') {
                match Widget::parse(ts, pos1 + 1, end, attrs, args) {
                    Ok((w, next)) => Ok((PropertyType::Widget(w), next)),
                    Err(e) => Err(e),
                }
            } else {
                let attr = match assign_attr(attrs) {
                    Ok(attr) => attr,
                    Err(e) => {
                        return Err(e);
                    },
                };
                match find_expr_end(ts, pos1 + 1) {
                    Some(e) => Ok(
                        (
                            PropertyType::Assign(
                                AssignProperty { attr, args, expr: slice(ts, pos1 + 1, e) },
                            ),
                            e,
                        ),
                    ),
                    None => Err(
                        ParseError::new(ErrorKind::ExpectedExpr, span_of(ts, pos1 + 1, end)),
                    ),
                }
            }
        } else {
            Err(ParseError::new(ErrorKind::ExpectedAssign, span_of(ts, pos1, end)))
        }
    }
}

} // verus!
