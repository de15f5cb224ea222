use crate::error::{quoted, ErrorKind, ParseError};
use crate::names::decimal;
use crate::syntax::{condition_end, expr_end, pattern_end};
use crate::tokens::{
    at_group, at_ident, at_name, at_punct, at_punct2, at_word, group_at, group_view, ident_view,
    literal_view, span_at, Delimiter, TokenView,
};
use crate::widgets::{
    AssignPropertyAttrView, AssignPropertyView, AttrKindView, AttrView, ConditionalBranchesView,
    ConditionalWidgetView, IdentView, IfBranchView, IfConditionView, MatchArmView, PathView,
    PropertyNameView, PropertyTypeView, PropertyView, ReturnedWidgetView, SignalHandlerView,
    WidgetAttr, WidgetFuncView, WidgetTemplateAttr, WidgetView,
};
use crate::widgets::parse::attributes::spec_process_attributes;
use crate::widgets::parse::attrs::spec_attrs;
use crate::widgets::parse::widget_func::{
    path_span, spec_path, spec_snake_case_name, spec_widget_func,
};
use vstd::prelude::*;

verus! {

pub open spec fn err<T>(kind: ErrorKind, span: usize) -> Result<T, ParseError> {
    Err(ParseError { kind, span })
}

/// Whether a widget with these attributes stands for a variable that exists
/// already: a local variable or a child of a template.
pub open spec fn is_existing(attr: WidgetAttr, template_attr: WidgetTemplateAttr) -> bool {
    attr != WidgetAttr::Unset || template_attr == WidgetTemplateAttr::TemplateChild
}

/// The name of a widget that stands for an existing variable: its
/// constructor, which must be a single identifier.
#[verifier::opaque]
pub open spec fn spec_local_attr_name(func: WidgetFuncView) -> Result<IdentView, ParseError> {
    if func.path.tokens.len() == 1 && func.path.tokens[0].kind is Ident {
        Ok(
            IdentView {
                name: func.path.tokens[0].kind->Ident_0,
                span: func.path.tokens[0].span,
            },
        )
    } else {
        err(ErrorKind::LocalIdent, path_span(func.path))
    }
}

/// The first property from `from` on that is a widget marked as a template's
/// child.
pub open spec fn first_template_child(props: Seq<PropertyView>, from: int) -> Option<int>
    decreases props.len() - from,
{
    if 0 <= from < props.len() {
        if props[from].ty matches PropertyTypeView::Widget(w) && w.template_attr
            == WidgetTemplateAttr::TemplateChild {
            Some(from)
        } else {
            first_template_child(props, from + 1)
        }
    } else {
        None
    }
}

/// A template's child may stand only in a template: the error for the first
/// such widget among the properties of a widget that is none.
#[verifier::opaque]
pub open spec fn spec_check_props(props: Seq<PropertyView>, template_attr: WidgetTemplateAttr) -> Result<
    (),
    ParseError,
> {
    if template_attr != WidgetTemplateAttr::Template {
        match first_template_child(props, 0) {
            Some(i) => err(ErrorKind::TemplateChild, props[i].ty->Widget_0.name.span),
            None => Ok(()),
        }
    } else {
        Ok(())
    }
}

/// The argument that tells a conditional widget which branch a child belongs
/// to: `Some("index")`, with the index in decimal digits.
pub open spec fn args_from_index(index: nat, span: usize) -> Seq<TokenView> {
    seq![
        ident_view("Some"@, span),
        group_view(Delimiter::Parenthesis, seq![literal_view(quoted(decimal(index)), span)], span),
    ]
}

/// The name that a property declares in its block, where it declares one.
pub open spec fn declared_name(p: PropertyView) -> Option<Seq<char>> {
    match p.ty {
        PropertyTypeView::Widget(w) => Some(w.name.name),
        PropertyTypeView::ConditionalWidget(c) => Some(c.name.name),
        _ => None,
    }
}

/// The span of the name that a property declares.
pub open spec fn declared_span(p: PropertyView) -> usize {
    match p.ty {
        PropertyTypeView::Widget(w) => w.name.span,
        PropertyTypeView::ConditionalWidget(c) => c.name.span,
        _ => 0,
    }
}

/// Whether one of `props` declares `name`.
pub open spec fn declares(props: Seq<PropertyView>, name: Seq<char>) -> bool {
    exists|i: int| 0 <= i < props.len() && #[trigger] declared_name(props[i]) == Some(name)
}

/// Whether no two of `props` declare the same name.
pub open spec fn names_unique(props: Seq<PropertyView>) -> bool {
    forall|i: int, j: int|
        0 <= i < j < props.len() && declared_name(props[i]).is_some() ==> #[trigger] declared_name(
            props[i],
        ) != #[trigger] declared_name(props[j])
}

/// Whether the widget is handed to its conditional widget with the place
/// `k` as its name.
pub open spec fn named_by_place(w: WidgetView, k: int) -> bool {
    k >= 0 && w.args.is_some() && w.args->0 == args_from_index(
        k as nat,
        if w.args->0.len() > 0 {
            w.args->0[0].span
        } else {
            0
        },
    )
}

/// Whether a widget is well formed, with all that stands in it: no two
/// properties of one block declare the same name; a template's child stands
/// only in a template; the widget of each branch of a conditional widget is
/// named by the branch's place.
pub open spec fn widget_wf(w: WidgetView) -> bool
    decreases w,
{
    &&& names_unique(w.properties)
    &&& (w.template_attr != WidgetTemplateAttr::Template ==> first_template_child(
        w.properties,
        0,
    ).is_none())
    &&& properties_wf(w.properties)
    &&& match w.returned_widget {
        Some(r) => names_unique(r.properties) && properties_wf(r.properties),
        None => true,
    }
}

pub open spec fn properties_wf(props: Seq<PropertyView>) -> bool
    decreases props,
{
    forall|i: int| 0 <= i < props.len() ==> property_type_wf((#[trigger] props[i]).ty)
}

pub open spec fn property_type_wf(ty: PropertyTypeView) -> bool
    decreases ty,
{
    match ty {
        PropertyTypeView::Widget(w) => widget_wf(*w),
        PropertyTypeView::ConditionalWidget(c) => conditional_wf(c),
        _ => true,
    }
}

pub open spec fn conditional_wf(c: ConditionalWidgetView) -> bool
    decreases c,
{
    match c.branches {
        ConditionalBranchesView::If(bs) => branches_wf(bs),
        ConditionalBranchesView::Match(_, _, arms) => arms_wf(arms),
    }
}

pub open spec fn branches_wf(bs: Seq<IfBranchView>) -> bool
    decreases bs,
{
    forall|i: int|
        0 <= i < bs.len() ==> widget_wf((#[trigger] bs[i]).widget) && named_by_place(
            bs[i].widget,
            i,
        )
}

pub open spec fn arms_wf(arms: Seq<MatchArmView>) -> bool
    decreases arms,
{
    forall|i: int|
        0 <= i < arms.len() ==> widget_wf((#[trigger] arms[i]).widget) && named_by_place(
            arms[i].widget,
            i,
        )
}

pub proof fn lemma_push_wf(acc: Seq<PropertyView>, p: PropertyView)
    requires
        properties_wf(acc),
        property_type_wf(p.ty),
    ensures
        properties_wf(acc.push(p)),
{
    let grown = acc.push(p);
    assert forall|i: int| 0 <= i < grown.len() implies property_type_wf((#[trigger] grown[i]).ty) by {
        if i < acc.len() {
            assert(grown[i] == acc[i]);
        }
    }
}

pub proof fn lemma_push_branch_wf(acc: Seq<IfBranchView>, b: IfBranchView)
    requires
        branches_wf(acc),
        widget_wf(b.widget),
        named_by_place(b.widget, acc.len() as int),
    ensures
        branches_wf(acc.push(b)),
{
    let grown = acc.push(b);
    assert forall|i: int| 0 <= i < grown.len() implies widget_wf((#[trigger] grown[i]).widget)
        && named_by_place(grown[i].widget, i) by {
        if i < acc.len() {
            assert(grown[i] == acc[i]);
        }
    }
}

pub proof fn lemma_push_arm_wf(acc: Seq<MatchArmView>, a: MatchArmView)
    requires
        arms_wf(acc),
        widget_wf(a.widget),
        named_by_place(a.widget, acc.len() as int),
    ensures
        arms_wf(acc.push(a)),
{
    let grown = acc.push(a);
    assert forall|i: int| 0 <= i < grown.len() implies widget_wf((#[trigger] grown[i]).widget)
        && named_by_place(grown[i].widget, i) by {
        if i < acc.len() {
            assert(grown[i] == acc[i]);
        }
    }
}

/// The property that stands for an error.
pub open spec fn error_property(e: ParseError) -> PropertyView {
    PropertyView {
        name: PropertyNameView::Ident(IdentView { name: "invalid_property"@, span: e.span }),
        ty: PropertyTypeView::ParseError(e),
    }
}

/// `p`, or the error that stands in its place where it declares a name that
/// one of `before` declares already.
pub open spec fn without_conflict(before: Seq<PropertyView>, p: PropertyView) -> PropertyView {
    match declared_name(p) {
        Some(name) => if declares(before, name) {
            error_property(ParseError { kind: ErrorKind::NameConflict, span: declared_span(p) })
        } else {
            p
        },
        None => p,
    }
}

/// The position behind the next comma at or behind `pos`, or the end.
pub open spec fn skip_past_comma(ts: Seq<TokenView>, pos: int) -> int
    decreases ts.len() - pos,
{
    if 0 <= pos < ts.len() {
        if at_punct(ts, pos, ',') {
            pos + 1
        } else {
            skip_past_comma(ts, pos + 1)
        }
    } else {
        ts.len() as int
    }
}

/// The name of a property from what was read as a constructor call: a single
/// identifier or a path, without arguments.
#[verifier::opaque]
pub open spec fn spec_property_name(func: WidgetFuncView) -> Result<PropertyNameView, ParseError> {
    if func.args.is_some() || func.method_chain.is_some() || func.ty.is_some() {
        err(ErrorKind::PropertyName, path_span(func.path))
    } else if func.path.tokens.len() == 1 && func.path.tokens[0].kind is Ident {
        Ok(
            PropertyNameView::Ident(
                IdentView {
                    name: func.path.tokens[0].kind->Ident_0,
                    span: func.path.tokens[0].span,
                },
            ),
        )
    } else {
        Ok(PropertyNameView::Path(func.path))
    }
}

/// `attr` with one more attribute of an assignment taken in: `watch`, or
/// `track` with its guard. The model's name goes before a guard that starts
/// with a dot.
pub open spec fn with_assign_attr(attr: AssignPropertyAttrView, a: AttrView) -> Result<
    AssignPropertyAttrView,
    ParseError,
> {
    match a.kind {
        AttrKindView::Watch => if attr is Unset {
            Ok(AssignPropertyAttrView::Watch)
        } else {
            err(ErrorKind::AttributeTwice, a.span)
        },
        AttrKindView::Track(guard) => if attr is Unset {
            Ok(AssignPropertyAttrView::Track(guard, at_punct(guard, 0, '.')))
        } else {
            err(ErrorKind::AttributeTwice, a.span)
        },
        _ => err(ErrorKind::PropertyAttribute, a.span),
    }
}

pub open spec fn with_assign_attrs(attr: AssignPropertyAttrView, attrs: Seq<AttrView>, from: int) -> Result<
    AssignPropertyAttrView,
    ParseError,
>
    decreases attrs.len() - from,
{
    if 0 <= from < attrs.len() {
        match with_assign_attr(attr, attrs[from]) {
            Ok(next) => with_assign_attrs(next, attrs, from + 1),
            Err(e) => Err(e),
        }
    } else {
        Ok(attr)
    }
}

/// What the attributes before an assignment say of it.
#[verifier::opaque]
pub open spec fn spec_assign_attr(attrs: Option<Seq<AttrView>>) -> Result<
    AssignPropertyAttrView,
    ParseError,
> {
    match attrs {
        Some(attrs) => with_assign_attrs(AssignPropertyAttrView::Unset, attrs, 0),
        None => Ok(AssignPropertyAttrView::Unset),
    }
}

/// What the attributes before a conditional widget say of it.
pub struct ConditionalInfoView {
    pub doc_attr: Option<Seq<TokenView>>,
    pub transition: Option<IdentView>,
    pub assign_wrapper: Option<PathView>,
    pub name: Option<IdentView>,
}

pub open spec fn with_conditional_attr(info: ConditionalInfoView, a: AttrView) -> Result<
    ConditionalInfoView,
    ParseError,
> {
    match a.kind {
        AttrKindView::Doc(tokens) => Ok(
            ConditionalInfoView {
                doc_attr: Some(
                    match info.doc_attr {
                        Some(doc) => doc + tokens,
                        None => tokens,
                    },
                ),
                ..info
            },
        ),
        AttrKindView::Transition(t) => if info.transition.is_some() {
            err(ErrorKind::AttributeTwice, a.span)
        } else {
            Ok(ConditionalInfoView { transition: Some(t), ..info })
        },
        AttrKindView::Wrap(path) => if info.assign_wrapper.is_some() {
            err(ErrorKind::AttributeTwice, a.span)
        } else {
            Ok(ConditionalInfoView { assign_wrapper: Some(path), ..info })
        },
        AttrKindView::Name(name) => if info.name.is_some() {
            err(ErrorKind::AttributeTwice, a.span)
        } else {
            Ok(ConditionalInfoView { name: Some(name), ..info })
        },
        _ => err(ErrorKind::ConditionalAttribute, a.span),
    }
}

pub open spec fn with_conditional_attrs(info: ConditionalInfoView, attrs: Seq<AttrView>, from: int) -> Result<
    ConditionalInfoView,
    ParseError,
>
    decreases attrs.len() - from,
{
    if 0 <= from < attrs.len() {
        match with_conditional_attr(info, attrs[from]) {
            Ok(next) => with_conditional_attrs(next, attrs, from + 1),
            Err(e) => Err(e),
        }
    } else {
        Ok(info)
    }
}

#[verifier::opaque]
pub open spec fn spec_conditional_attrs(attrs: Option<Seq<AttrView>>) -> Result<
    ConditionalInfoView,
    ParseError,
> {
    let none = ConditionalInfoView {
        doc_attr: None,
        transition: None,
        assign_wrapper: None,
        name: None,
    };
    match attrs {
        Some(attrs) => with_conditional_attrs(none, attrs, 0),
        None => Ok(none),
    }
}

/// The properties from `pos` on, behind those of `acc`. A property that
/// cannot be read becomes an error in its place, and reading goes on behind
/// the next comma; so does a property that declares a name again.
#[verifier::opaque]
pub open spec fn spec_properties(ts: Seq<TokenView>, pos: int, end: usize, acc: Seq<PropertyView>) -> Seq<
    PropertyView,
>
    decreases ts, ts.len() - pos, 10nat,
{
    if 0 <= pos < ts.len() {
        match spec_property(ts, pos, end) {
            Ok((p, next)) => {
                let acc = acc.push(without_conflict(acc, p));
                if next <= pos || next >= ts.len() {
                    acc
                } else if at_punct(ts, next, ',') {
                    spec_properties(ts, next + 1, end, acc)
                } else {
                    let skipped = skip_past_comma(ts, next);
                    let acc = acc.push(
                        error_property(
                            ParseError { kind: ErrorKind::ExpectedComma, span: ts[next].span },
                        ),
                    );
                    if pos < skipped <= ts.len() {
                        spec_properties(ts, skipped, end, acc)
                    } else {
                        acc
                    }
                }
            },
            Err(e) => {
                let skipped = skip_past_comma(ts, pos);
                if pos < skipped <= ts.len() {
                    spec_properties(ts, skipped, end, acc.push(error_property(e)))
                } else {
                    acc.push(error_property(e))
                }
            },
        }
    } else {
        acc
    }
}

/// The property that starts at `pos`: attributes, then a conditional widget,
/// a widget that is appended to its parent, or a name with what is assigned
/// to it.
#[verifier::opaque]
pub open spec fn spec_property(ts: Seq<TokenView>, pos: int, end: usize) -> Result<
    (PropertyView, int),
    ParseError,
>
    decreases ts, ts.len() - pos, 9nat,
{
    match spec_attrs(ts, pos) {
        Err(e) => Err(e),
        Ok((attrs, pos1)) => if !(pos <= pos1 <= ts.len()) {
            err(ErrorKind::UnexpectedToken, end)
        } else if at_word(ts, pos1, "if"@) || at_word(ts, pos1, "match"@) {
            match spec_conditional(ts, pos1, end, attrs, None) {
                Err(e) => Err(e),
                Ok((c, next)) => Ok(
                    (
                        PropertyView {
                            name: PropertyNameView::RelmContainerExtAssign(ts[pos1].span),
                            ty: PropertyTypeView::ConditionalWidget(c),
                        },
                        next,
                    ),
                ),
            }
        } else {
            match spec_widget_func(ts, pos1, end) {
                Err(e) => Err(e),
                Ok((func, pos2)) => if !(pos1 <= pos2 <= ts.len()) {
                    err(ErrorKind::UnexpectedToken, end)
                } else if at_group(ts, pos2, Delimiter::Brace) || at_punct(ts, pos2, ',') {
                    match spec_container_widget(ts, pos2, end, func, attrs) {
                        Err(e) => Err(e),
                        Ok((w, next)) => Ok(
                            (
                                PropertyView {
                                    name: PropertyNameView::RelmContainerExtAssign(ts[pos1].span),
                                    ty: PropertyTypeView::Widget(Box::new(w)),
                                },
                                next,
                            ),
                        ),
                    }
                } else {
                    match spec_property_name(func) {
                        Err(e) => Err(e),
                        Ok(name) => match spec_property_type(ts, pos2, end, attrs) {
                            Err(e) => Err(e),
                            Ok((ty, next)) => Ok((PropertyView { name, ty }, next)),
                        },
                    }
                }
            }
        },
    }
}

/// What is assigned to a property whose name ends at `pos`: behind optional
/// arguments in square brackets, `=>` and a signal handler, `=` and a widget,
/// `:` and a conditional widget, a named widget or an expression.
#[verifier::opaque]
pub open spec fn spec_property_type(ts: Seq<TokenView>, pos: int, end: usize, attrs: Option<Seq<AttrView>>) -> Result<
    (PropertyTypeView, int),
    ParseError,
>
    decreases ts, ts.len() - pos, 8nat,
{
    let bracketed = at_group(ts, pos, Delimiter::Bracket);
    let args = if bracketed {
        Some(group_at(ts, pos))
    } else {
        None
    };
    let pos1 = if bracketed {
        pos + 1
    } else {
        pos
    };
    if pos < 0 {
        err(ErrorKind::UnexpectedToken, end)
    } else if at_punct2(ts, pos1, '=', '>') {
        if attrs.is_some() {
            err(
                ErrorKind::PropertyAttribute,
                if attrs->0.len() > 0 {
                    attrs->0[0].span
                } else {
                    end
                },
            )
        } else {
            match expr_end(ts, pos1 + 2) {
                Some(e) => if pos1 + 2 < e <= ts.len() {
                    Ok(
                        (
                            PropertyTypeView::SignalHandler(
                                SignalHandlerView { args, handler: ts.subrange(pos1 + 2, e) },
                            ),
                            e,
                        ),
                    )
                } else {
                    err(ErrorKind::ExpectedExpr, span_at(ts, pos1 + 2, end))
                },
                None => err(ErrorKind::ExpectedExpr, span_at(ts, pos1 + 2, end)),
            }
        }
    } else if at_punct(ts, pos1, '=') {
        match spec_widget(ts, pos1 + 1, end, attrs, args) {
            Err(e) => Err(e),
            Ok((w, next)) => Ok((PropertyTypeView::Widget(Box::new(w)), next)),
        }
    } else if at_punct(ts, pos1, ':') {
        if at_word(ts, pos1 + 1, "if"@) || at_word(ts, pos1 + 1, "match"@) {
            match spec_conditional(ts, pos1 + 1, end, attrs, args) {
                Err(e) => Err(e),
                Ok((c, next)) => Ok((PropertyTypeView::ConditionalWidget(c), next)),
            }
        } else if at_ident(ts, pos1 + 1) && at_punct(ts, pos1 + 2, '=') {
            match spec_widget(ts, pos1 + 1, end, attrs, args) {
                Err(e) => Err(e),
                Ok((w, next)) => Ok((PropertyTypeView::Widget(Box::new(w)), next)),
            }
        } else {
            match spec_assign_attr(attrs) {
                Err(e) => Err(e),
                Ok(attr) => match expr_end(ts, pos1 + 1) {
                    Some(e) => if pos1 + 1 < e <= ts.len() {
                        Ok(
                            (
                                PropertyTypeView::Assign(
                                    AssignPropertyView { attr, args, expr: ts.subrange(pos1 + 1, e) },
                                ),
                                e,
                            ),
                        )
                    } else {
                        err(ErrorKind::ExpectedExpr, span_at(ts, pos1 + 1, end))
                    },
                    None => err(ErrorKind::ExpectedExpr, span_at(ts, pos1 + 1, end)),
                },
            }
        }
    } else {
        err(ErrorKind::ExpectedAssign, span_at(ts, pos1, end))
    }
}

/// What stands behind a widget's name: `&` and `*` where they are given, the
/// constructor call, and the properties in braces, or none before a comma.
pub struct WidgetFuncInfoView {
    pub ref_token: Option<usize>,
    pub deref_token: Option<usize>,
    pub func: WidgetFuncView,
    pub properties: Seq<PropertyView>,
}

#[verifier::opaque]
pub open spec fn spec_widget_func_info(ts: Seq<TokenView>, pos: int, end: usize) -> Result<
    (WidgetFuncInfoView, int),
    ParseError,
>
    decreases ts, ts.len() - pos, 6nat,
{
    let ref_token = if at_punct(ts, pos, '&') {
        Some(ts[pos].span)
    } else {
        None
    };
    let pos1 = if ref_token.is_some() {
        pos + 1
    } else {
        pos
    };
    let deref_token = if at_punct(ts, pos1, '*') {
        Some(ts[pos1].span)
    } else {
        None
    };
    let pos2 = if deref_token.is_some() {
        pos1 + 1
    } else {
        pos1
    };
    match spec_widget_func(ts, pos2, end) {
        Err(e) => Err(e),
        Ok((func, pos3)) => if at_punct(ts, pos3, ',') {
            Ok(
                (
                    WidgetFuncInfoView { ref_token, deref_token, func, properties: Seq::empty() },
                    pos3,
                ),
            )
        } else if at_group(ts, pos3, Delimiter::Brace) {
            Ok(
                (
                    WidgetFuncInfoView {
                        ref_token,
                        deref_token,
                        func,
                        properties: spec_properties(group_at(ts, pos3), 0, ts[pos3].span, Seq::empty()),
                    },
                    pos3 + 1,
                ),
            )
        } else {
            err(ErrorKind::ExpectedBraces, span_at(ts, pos3, end))
        },
    }
}

/// The widget that starts at `pos`, with the attributes that were read
/// before it and the arguments that its assignment gets.
#[verifier::opaque]
pub open spec fn spec_widget(
    ts: Seq<TokenView>,
    pos: int,
    end: usize,
    attrs: Option<Seq<AttrView>>,
    args: Option<Seq<TokenView>>,
) -> Result<(WidgetView, int), ParseError>
    decreases ts, ts.len() - pos, 7nat,
{
    match spec_process_attributes(attrs) {
        Err(e) => Err(e),
        Ok(info) => {
            let mutable = if at_word(ts, pos, "mut"@) {
                Some(ts[pos].span)
            } else {
                None
            };
            let pos1 = if mutable.is_some() {
                pos + 1
            } else {
                pos
            };
            let renamed = at_punct(ts, pos1 + 1, '=');
            let existing = is_existing(info.attr, info.template_attr);
            if pos < 0 {
                err(ErrorKind::UnexpectedToken, end)
            } else if renamed && existing {
                err(ErrorKind::RenameLocal, span_at(ts, pos1, end))
            } else if renamed && !at_name(ts, pos1) {
                err(ErrorKind::ExpectedIdent, span_at(ts, pos1, end))
            } else {
                let name_opt = if renamed {
                    Some(IdentView { name: ts[pos1].kind->Ident_0, span: ts[pos1].span })
                } else {
                    None
                };
                let pos2 = if renamed {
                    pos1 + 2
                } else {
                    pos1
                };
                match spec_widget_func_info(ts, pos2, end) {
                    Err(e) => Err(e),
                    Ok((found, pos3)) => if name_opt.is_some() && info.name.is_some() {
                        err(ErrorKind::NameTwice, name_opt->0.span)
                    } else if (name_opt.is_some() || info.name.is_some()) && existing {
                        err(ErrorKind::NameTwice, span_at(ts, pos3, end))
                    } else if !(pos2 <= pos3 <= ts.len()) {
                        err(ErrorKind::UnexpectedToken, end)
                    } else {
                        let given = if name_opt.is_some() {
                            name_opt
                        } else {
                            info.name
                        };
                        let named: Result<(IdentView, bool), ParseError> = match given {
                            Some(name) => Ok((name, true)),
                            None => if existing {
                                match spec_local_attr_name(found.func) {
                                    Ok(name) => Ok((name, true)),
                                    Err(e) => Err(e),
                                }
                            } else {
                                Ok((spec_snake_case_name(found.func), false))
                            },
                        };
                        match named {
                            Err(e) => Err(e),
                            Ok((name, name_assigned_by_user)) => {
                                let returned: Result<
                                    (Option<ReturnedWidgetView>, int),
                                    ParseError,
                                > = if at_punct2(ts, pos3, '-', '>') {
                                    match spec_returned(ts, pos3 + 2, end) {
                                        Ok((r, pos4)) => Ok((Some(r), pos4)),
                                        Err(e) => Err(e),
                                    }
                                } else {
                                    Ok((None, pos3))
                                };
                                match returned {
                                    Err(e) => Err(e),
                                    Ok((returned_widget, pos4)) => match spec_check_props(
                                        found.properties,
                                        info.template_attr,
                                    ) {
                                        Err(e) => Err(e),
                                        Ok(_) => Ok(
                                            (
                                                WidgetView {
                                                    doc_attr: info.doc_attr,
                                                    attr: info.attr,
                                                    template_attr: info.template_attr,
                                                    mutable,
                                                    name,
                                                    name_assigned_by_user,
                                                    func: found.func,
                                                    args,
                                                    properties: found.properties,
                                                    assign_wrapper: info.assign_wrapper,
                                                    ref_token: found.ref_token,
                                                    deref_token: found.deref_token,
                                                    returned_widget,
                                                },
                                                pos4,
                                            ),
                                        ),
                                    },
                                }
                            },
                        }
                    },
                }
            }
        },
    }
}

/// The widget that is appended to its parent: its constructor call `func`
/// ends at `pos`; its properties follow in braces, or none before a comma.
#[verifier::opaque]
pub open spec fn spec_container_widget(
    ts: Seq<TokenView>,
    pos: int,
    end: usize,
    func: WidgetFuncView,
    attrs: Option<Seq<AttrView>>,
) -> Result<(WidgetView, int), ParseError>
    decreases ts, ts.len() - pos, 5nat,
{
    match spec_process_attributes(attrs) {
        Err(e) => Err(e),
        Ok(info) => if info.assign_wrapper.is_some() {
            err(ErrorKind::ContainerWrapper, path_span(info.assign_wrapper->0))
        } else if !at_punct(ts, pos, ',') && !at_group(ts, pos, Delimiter::Brace) {
            err(ErrorKind::ExpectedBraces, span_at(ts, pos, end))
        } else {
            let braced = !at_punct(ts, pos, ',');
            let properties = if braced {
                spec_properties(group_at(ts, pos), 0, ts[pos].span, Seq::empty())
            } else {
                Seq::empty()
            };
            let next = if braced {
                pos + 1
            } else {
                pos
            };
            let existing = is_existing(info.attr, info.template_attr);
            if existing && info.name.is_some() {
                err(ErrorKind::NameTwice, info.name->0.span)
            } else {
                let named: Result<(IdentView, bool), ParseError> = match info.name {
                    Some(name) => Ok((name, true)),
                    None => if existing {
                        match spec_local_attr_name(func) {
                            Ok(name) => Ok((name, true)),
                            Err(e) => Err(e),
                        }
                    } else {
                        Ok((spec_snake_case_name(func), false))
                    },
                };
                match named {
                    Err(e) => Err(e),
                    Ok((name, name_assigned_by_user)) => match spec_check_props(
                        properties,
                        info.template_attr,
                    ) {
                        Err(e) => Err(e),
                        Ok(_) => Ok(
                            (
                                WidgetView {
                                    doc_attr: info.doc_attr,
                                    attr: info.attr,
                                    template_attr: info.template_attr,
                                    mutable: None,
                                    name,
                                    name_assigned_by_user,
                                    func,
                                    args: None,
                                    properties,
                                    assign_wrapper: info.assign_wrapper,
                                    ref_token: Some(0),
                                    deref_token: None,
                                    returned_widget: None,
                                },
                                next,
                            ),
                        ),
                    },
                }
            }
        },
    }
}

/// The returned widget behind `->`: a name with its type, or neither; `?`
/// where the value is optional; then the properties in braces.
#[verifier::opaque]
pub open spec fn spec_returned(ts: Seq<TokenView>, pos: int, end: usize) -> Result<
    (ReturnedWidgetView, int),
    ParseError,
>
    decreases ts, ts.len() - pos, 4nat,
{
    let head: Result<(IdentView, Option<PathView>, int), ParseError> = if at_name(ts, pos) {
        if !at_punct(ts, pos + 1, ':') {
            err(ErrorKind::ExpectedColon, span_at(ts, pos + 1, end))
        } else {
            match spec_path(ts, pos + 2, end) {
                Err(e) => Err(e),
                Ok((ty, p)) => Ok(
                    (IdentView { name: ts[pos].kind->Ident_0, span: ts[pos].span }, Some(ty), p),
                ),
            }
        }
    } else {
        Ok((IdentView { name: "_returned_widget"@, span: span_at(ts, pos, end) }, None, pos))
    };
    match head {
        Err(e) => Err(e),
        Ok((name, ty, pos1)) => {
            let is_optional = at_punct(ts, pos1, '?');
            let pos2 = if is_optional {
                pos1 + 1
            } else {
                pos1
            };
            if !at_group(ts, pos2, Delimiter::Brace) {
                err(ErrorKind::ExpectedBraces, span_at(ts, pos2, end))
            } else {
                Ok(
                    (
                        ReturnedWidgetView {
                            name,
                            ty,
                            properties: spec_properties(
                                group_at(ts, pos2),
                                0,
                                ts[pos2].span,
                                Seq::empty(),
                            ),
                            is_optional,
                        },
                        pos2 + 1,
                    ),
                )
            }
        },
    }
}

/// The conditional widget that starts at `pos` with `if` or `match`.
#[verifier::opaque]
pub open spec fn spec_conditional(
    ts: Seq<TokenView>,
    pos: int,
    end: usize,
    attrs: Option<Seq<AttrView>>,
    args: Option<Seq<TokenView>>,
) -> Result<(ConditionalWidgetView, int), ParseError>
    decreases ts, ts.len() - pos, 5nat,
{
    match spec_conditional_attrs(attrs) {
        Err(e) => Err(e),
        Ok(info) => {
            let name = match info.name {
                Some(name) => name,
                None => IdentView { name: "conditional_widget"@, span: span_at(ts, pos, end) },
            };
            let branches: Result<(ConditionalBranchesView, int), ParseError> = if at_word(
                ts,
                pos,
                "if"@,
            ) {
                match spec_if_branches(ts, pos, end, Seq::empty()) {
                    Err(e) => Err(e),
                    Ok((bs, next)) => Ok((ConditionalBranchesView::If(bs), next)),
                }
            } else if at_word(ts, pos, "match"@) {
                match condition_end(ts, pos + 1) {
                    Some(e) => if !(pos + 1 < e <= ts.len()) {
                        err(ErrorKind::ExpectedExpr, span_at(ts, pos + 1, end))
                    } else if !at_group(ts, e, Delimiter::Brace) {
                        err(ErrorKind::ExpectedBraces, span_at(ts, e, end))
                    } else {
                        match spec_match_arms(group_at(ts, e), 0, ts[e].span, Seq::empty()) {
                            Err(e) => Err(e),
                            Ok(arms) => Ok(
                                (
                                    ConditionalBranchesView::Match(
                                        ts[pos].span,
                                        ts.subrange(pos + 1, e),
                                        arms,
                                    ),
                                    e + 1,
                                ),
                            ),
                        }
                    },
                    None => err(ErrorKind::ExpectedExpr, span_at(ts, pos + 1, end)),
                }
            } else {
                err(ErrorKind::ExpectedConditional, span_at(ts, pos, end))
            };
            match branches {
                Err(e) => Err(e),
                Ok((branches, next)) => Ok(
                    (
                        ConditionalWidgetView {
                            doc_attr: info.doc_attr,
                            transition: info.transition,
                            assign_wrapper: info.assign_wrapper,
                            name,
                            args,
                            branches,
                        },
                        next,
                    ),
                ),
            }
        },
    }
}

/// The head of the branch that starts at `pos`, and the position of its
/// braces.
#[verifier::opaque]
pub open spec fn spec_if_condition(ts: Seq<TokenView>, pos: int, end: usize) -> Result<
    (IfConditionView, int),
    ParseError,
> {
    if at_word(ts, pos, "if"@) {
        match condition_end(ts, pos + 1) {
            Some(e) => if pos + 1 < e <= ts.len() {
                Ok((IfConditionView::If(ts[pos].span, ts.subrange(pos + 1, e)), e))
            } else {
                err(ErrorKind::ExpectedExpr, span_at(ts, pos + 1, end))
            },
            None => err(ErrorKind::ExpectedExpr, span_at(ts, pos + 1, end)),
        }
    } else if at_word(ts, pos, "else"@) && at_word(ts, pos + 1, "if"@) {
        match condition_end(ts, pos + 2) {
            Some(e) => if pos + 2 < e <= ts.len() {
                Ok(
                    (
                        IfConditionView::ElseIf(
                            ts[pos].span,
                            ts[pos + 1].span,
                            ts.subrange(pos + 2, e),
                        ),
                        e,
                    ),
                )
            } else {
                err(ErrorKind::ExpectedExpr, span_at(ts, pos + 2, end))
            },
            None => err(ErrorKind::ExpectedExpr, span_at(ts, pos + 2, end)),
        }
    } else if at_word(ts, pos, "else"@) {
        Ok((IfConditionView::Else(ts[pos].span), pos + 1))
    } else {
        err(ErrorKind::ExpectedConditional, span_at(ts, pos, end))
    }
}

/// The branches from `pos` on, behind those of `acc`: each a head and a
/// widget in braces; the chain ends behind an `else` without `if`, or where
/// no `else` follows. A branch's index is the number of branches before it.
#[verifier::opaque]
pub open spec fn spec_if_branches(ts: Seq<TokenView>, pos: int, end: usize, acc: Seq<IfBranchView>) -> Result<
    (Seq<IfBranchView>, int),
    ParseError,
>
    decreases ts, ts.len() - pos, 4nat,
{
    match spec_if_condition(ts, pos, end) {
        Err(e) => Err(e),
        Ok((cond, pos1)) => if !(pos < pos1 <= ts.len()) {
            err(ErrorKind::UnexpectedToken, end)
        } else if !at_group(ts, pos1, Delimiter::Brace) {
            err(ErrorKind::ExpectedBraces, span_at(ts, pos1, end))
        } else {
            match spec_branch_widget(group_at(ts, pos1), ts[pos1].span, acc.len(), ts[pos1].span, 0) {
                Err(e) => Err(e),
                Ok(widget) => {
                    let acc = acc.push(IfBranchView { cond, widget });
                    if !(cond is Else) && at_word(ts, pos1 + 1, "else"@) {
                        spec_if_branches(ts, pos1 + 1, end, acc)
                    } else {
                        Ok((acc, pos1 + 1))
                    }
                },
            }
        },
    }
}

/// The widget of a branch, read from the tokens between the branch's braces:
/// attributes and a widget, and nothing behind it. The widget is taken by
/// reference, and its assignment gets the branch's index as argument.
#[verifier::opaque]
pub open spec fn spec_branch_widget(
    inner: Seq<TokenView>,
    scope: usize,
    index: nat,
    args_span: usize,
    ref_span: usize,
) -> Result<WidgetView, ParseError>
    decreases inner, inner.len(), 8nat,
{
    match spec_attrs(inner, 0) {
        Err(e) => Err(e),
        Ok((attrs, pos1)) => if !(0 <= pos1 <= inner.len()) {
            err(ErrorKind::UnexpectedToken, scope)
        } else {
            match spec_widget(inner, pos1, scope, attrs, Some(args_from_index(index, args_span))) {
                Err(e) => Err(e),
                Ok((w, next)) => if 0 <= next < inner.len() {
                    err(ErrorKind::UnexpectedToken, inner[next].span)
                } else {
                    Ok(WidgetView { ref_token: Some(ref_span), ..w })
                },
            }
        },
    }
}

/// The arms from `pos` on, behind those of `acc`. An arm's index is the
/// number of arms before it.
#[verifier::opaque]
pub open spec fn spec_match_arms(ts: Seq<TokenView>, pos: int, end: usize, acc: Seq<MatchArmView>) -> Result<
    Seq<MatchArmView>,
    ParseError,
>
    decreases ts, ts.len() - pos, 10nat,
{
    if 0 <= pos < ts.len() {
        match spec_match_arm(ts, pos, end, acc.len()) {
            Err(e) => Err(e),
            Ok((arm, next)) => if pos < next <= ts.len() {
                spec_match_arms(ts, next, end, acc.push(arm))
            } else {
                err(ErrorKind::UnexpectedToken, end)
            },
        }
    } else {
        Ok(acc)
    }
}

/// The arm that starts at `pos`: behind an optional comma, a pattern, a
/// guard unless `=>` follows at once, `=>`, and a widget, in braces or bare.
#[verifier::opaque]
pub open spec fn spec_match_arm(ts: Seq<TokenView>, pos: int, end: usize, index: nat) -> Result<
    (MatchArmView, int),
    ParseError,
>
    decreases ts, ts.len() - pos, 9nat,
{
    let pos0 = if at_punct(ts, pos, ',') {
        pos + 1
    } else {
        pos
    };
    match pattern_end(ts, pos0) {
        None => err(ErrorKind::ExpectedPattern, span_at(ts, pos0, end)),
        Some(pos1) => if !(pos0 < pos1 <= ts.len()) || pos < 0 {
            err(ErrorKind::ExpectedPattern, span_at(ts, pos0, end))
        } else {
            let pattern = ts.subrange(pos0, pos1);
            let guarded: Result<(Option<(usize, Seq<TokenView>)>, int), ParseError> = if at_punct2(
                ts,
                pos1,
                '=',
                '>',
            ) {
                Ok((None, pos1))
            } else if !at_word(ts, pos1, "if"@) {
                err(ErrorKind::ExpectedFatArrow, span_at(ts, pos1, end))
            } else {
                match expr_end(ts, pos1 + 1) {
                    Some(e) => if pos1 + 1 < e <= ts.len() {
                        Ok((Some((ts[pos1].span, ts.subrange(pos1 + 1, e))), e))
                    } else {
                        err(ErrorKind::ExpectedExpr, span_at(ts, pos1 + 1, end))
                    },
                    None => err(ErrorKind::ExpectedExpr, span_at(ts, pos1 + 1, end)),
                }
            };
            match guarded {
                Err(e) => Err(e),
                Ok((guard, pos2)) => if !at_punct2(ts, pos2, '=', '>') {
                    err(ErrorKind::ExpectedFatArrow, span_at(ts, pos2, end))
                } else {
                    let arrow = ts[pos2].span;
                    let pos3 = pos2 + 2;
                    if at_group(ts, pos3, Delimiter::Brace) {
                        let behind = span_at(ts, pos3 + 1, end);
                        match spec_branch_widget(
                            group_at(ts, pos3),
                            ts[pos3].span,
                            index,
                            behind,
                            behind,
                        ) {
                            Err(e) => Err(e),
                            Ok(widget) => Ok((MatchArmView { pattern, guard, arrow, widget }, pos3 + 1)),
                        }
                    } else {
                        match spec_attrs(ts, pos3) {
                            Err(e) => Err(e),
                            Ok((attrs, pos4)) => if !(pos3 <= pos4 <= ts.len()) {
                                err(ErrorKind::UnexpectedToken, end)
                            } else {
                                let here = span_at(ts, pos4, end);
                                match spec_widget(
                                    ts,
                                    pos4,
                                    end,
                                    attrs,
                                    Some(args_from_index(index, here)),
                                ) {
                                    Err(e) => Err(e),
                                    Ok((w, next)) => Ok(
                                        (
                                            MatchArmView {
                                                pattern,
                                                guard,
                                                arrow,
                                                widget: WidgetView { ref_token: Some(here), ..w },
                                            },
                                            next,
                                        ),
                                    ),
                                }
                            },
                        }
                    }
                },
            }
        },
    }
}

} // verus!
