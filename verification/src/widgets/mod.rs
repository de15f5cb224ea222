use crate::error::ParseError;
use crate::syntax::names_view;
use crate::tokens::{tokens_view, Token, TokenView};
use vstd::prelude::*;

pub mod generate;
pub mod parse;

verus! {

/// An identifier with the span of its token.
#[derive(Debug, PartialEq, Eq)]
pub struct Ident {
    pub name: String,
    pub span: usize,
}

pub struct IdentView {
    pub name: Seq<char>,
    pub span: usize,
}

impl View for Ident {
    type V = IdentView;

    open spec fn view(&self) -> IdentView {
        IdentView { name: self.name@, span: self.span }
    }
}

/// A path: its tokens, the names of its segments, and where among the
/// tokens the identifier of each segment stands.
#[derive(Debug, PartialEq, Eq)]
pub struct Path {
    pub tokens: Vec<Token>,
    pub segments: Vec<String>,
    pub idents: Vec<usize>,
}

pub struct PathView {
    pub tokens: Seq<TokenView>,
    pub segments: Seq<Seq<char>>,
    pub idents: Seq<usize>,
}

impl View for Path {
    type V = PathView;

    open spec fn view(&self) -> PathView {
        PathView {
            tokens: tokens_view(self.tokens@),
            segments: names_view(self.segments@),
            idents: self.idents@,
        }
    }
}

pub open spec fn opt_tokens_view(o: Option<Vec<Token>>) -> Option<Seq<TokenView>> {
    match o {
        Some(ts) => Some(tokens_view(ts@)),
        None => None,
    }
}

pub open spec fn opt_path_view(o: Option<Path>) -> Option<PathView> {
    match o {
        Some(p) => Some(p@),
        None => None,
    }
}

pub open spec fn opt_ident_view(o: Option<Ident>) -> Option<IdentView> {
    match o {
        Some(i) => Some(i@),
        None => None,
    }
}

/// Whether a widget is taken from a local variable.
#[derive(Clone, Copy, Debug, PartialEq, Eq, Structural)]
pub enum WidgetAttr {
    /// No such attribute was given.
    Unset,
    Local,
    LocalRef,
}

/// Whether a widget is a template or a child of one.
#[derive(Clone, Copy, Debug, PartialEq, Eq, Structural)]
pub enum WidgetTemplateAttr {
    /// No such attribute was given.
    Unset,
    Template,
    TemplateChild,
}

impl WidgetAttr {
    pub open spec fn spec_is_local_attr(self) -> bool {
        self != WidgetAttr::Unset
    }

    #[verifier::when_used_as_spec(spec_is_local_attr)]
    pub fn is_local_attr(self) -> (b: bool)
        ensures
            b == self.spec_is_local_attr(),
    {
        match self {
            WidgetAttr::Unset => false,
            _ => true,
        }
    }
}

/// What stands inside `#[..]`.
#[derive(Debug, PartialEq, Eq)]
pub enum AttrKind {
    /// A doc comment: the tokens inside the brackets.
    Doc(Vec<Token>),
    Local,
    LocalRef,
    Root,
    Iterate,
    Watch,
    /// The guard's tokens.
    Track(Vec<Token>),
    Name(Ident),
    Transition(Ident),
    Wrap(Path),
    Template,
    TemplateChild,
}

/// One attribute, with the span of its first word.
#[derive(Debug, PartialEq, Eq)]
pub struct Attr {
    pub kind: AttrKind,
    pub span: usize,
}

pub enum AttrKindView {
    Doc(Seq<TokenView>),
    Local,
    LocalRef,
    Root,
    Iterate,
    Watch,
    Track(Seq<TokenView>),
    Name(IdentView),
    Transition(IdentView),
    Wrap(PathView),
    Template,
    TemplateChild,
}

pub struct AttrView {
    pub kind: AttrKindView,
    pub span: usize,
}

impl View for Attr {
    type V = AttrView;

    open spec fn view(&self) -> AttrView {
        AttrView {
            kind: match self.kind {
                AttrKind::Doc(ts) => AttrKindView::Doc(tokens_view(ts@)),
                AttrKind::Local => AttrKindView::Local,
                AttrKind::LocalRef => AttrKindView::LocalRef,
                AttrKind::Root => AttrKindView::Root,
                AttrKind::Iterate => AttrKindView::Iterate,
                AttrKind::Watch => AttrKindView::Watch,
                AttrKind::Track(ts) => AttrKindView::Track(tokens_view(ts@)),
                AttrKind::Name(i) => AttrKindView::Name(i@),
                AttrKind::Transition(i) => AttrKindView::Transition(i@),
                AttrKind::Wrap(p) => AttrKindView::Wrap(p@),
                AttrKind::Template => AttrKindView::Template,
                AttrKind::TemplateChild => AttrKindView::TemplateChild,
            },
            span: self.span,
        }
    }
}

/// The attributes before one item, in order.
#[derive(Debug, PartialEq, Eq)]
pub struct Attrs {
    pub inner: Vec<Attr>,
}

impl View for Attrs {
    type V = Seq<AttrView>;

    open spec fn view(&self) -> Seq<AttrView> {
        Seq::new(self.inner@.len(), |i: int| self.inner@[i]@)
    }
}

pub open spec fn opt_attrs_view(o: Option<Attrs>) -> Option<Seq<AttrView>> {
    match o {
        Some(a) => Some(a@),
        None => None,
    }
}

/// The call that constructs a widget.
#[derive(Debug, PartialEq, Eq)]
pub struct WidgetFunc {
    pub path: Path,
    /// The tokens between the parentheses, where there are any.
    pub args: Option<Vec<Token>>,
    /// The method calls behind the arguments, without the first dot.
    pub method_chain: Option<Vec<Token>>,
    /// The type behind `->`.
    pub ty: Option<Path>,
}

pub struct WidgetFuncView {
    pub path: PathView,
    pub args: Option<Seq<TokenView>>,
    pub method_chain: Option<Seq<TokenView>>,
    pub ty: Option<PathView>,
}

impl View for WidgetFunc {
    type V = WidgetFuncView;

    open spec fn view(&self) -> WidgetFuncView {
        WidgetFuncView {
            path: self.path@,
            args: opt_tokens_view(self.args),
            method_chain: opt_tokens_view(self.method_chain),
            ty: opt_path_view(self.ty),
        }
    }
}

/// One node of the widget tree.
#[derive(Debug, PartialEq, Eq)]
pub struct Widget {
    pub doc_attr: Option<Vec<Token>>,
    pub attr: WidgetAttr,
    pub template_attr: WidgetTemplateAttr,
    /// The span of `mut`.
    pub mutable: Option<usize>,
    pub name: Ident,
    pub name_assigned_by_user: bool,
    pub func: WidgetFunc,
    /// Further arguments of the call that assigns the widget to its parent.
    pub args: Option<Vec<Token>>,
    pub properties: Properties,
    pub assign_wrapper: Option<Path>,
    /// The span of `&`.
    pub ref_token: Option<usize>,
    /// The span of `*`.
    pub deref_token: Option<usize>,
    pub returned_widget: Option<ReturnedWidget>,
}

/// The properties of a widget, in the order in which they were declared.
#[derive(Debug, PartialEq, Eq)]
pub struct Properties {
    pub properties: Vec<Property>,
}

/// What is done to a widget once it is built, under the name it is done by.
#[derive(Debug, PartialEq, Eq)]
pub struct Property {
    pub name: PropertyName,
    pub ty: PropertyType,
}

/// The name of a property: a method of the widget, or the path of a function
/// that takes the widget as its first argument.
#[derive(Debug, PartialEq, Eq)]
pub enum PropertyName {
    Ident(Ident),
    Path(Path),
    /// A widget that is appended to its parent; the span of its first token.
    RelmContainerExtAssign(usize),
}

/// What a property does: it assigns a value, connects a signal handler, or
/// holds a widget or a conditional widget; or it could not be read.
#[derive(Debug, PartialEq, Eq)]
pub enum PropertyType {
    Assign(AssignProperty),
    SignalHandler(SignalHandler),
    Widget(Widget),
    ConditionalWidget(ConditionalWidget),
    ParseError(ParseError),
}

/// When an assignment is made again after the first time.
#[derive(Debug, PartialEq, Eq)]
pub enum AssignPropertyAttr {
    /// Assigned once, when the widgets are built.
    Unset,
    Watch,
    /// The guard's tokens, and whether the model's name goes before them.
    Track(Vec<Token>, bool),
}

/// The assignment of a value to a property.
#[derive(Debug, PartialEq, Eq)]
pub struct AssignProperty {
    pub attr: AssignPropertyAttr,
    /// The tokens between the square brackets behind the name.
    pub args: Option<Vec<Token>>,
    pub expr: Vec<Token>,
}

/// The handler that is connected to a signal.
#[derive(Debug, PartialEq, Eq)]
pub struct SignalHandler {
    /// The tokens between the square brackets behind the name.
    pub args: Option<Vec<Token>>,
    pub handler: Vec<Token>,
}

/// A widget whose visible child is chosen among branches.
#[derive(Debug, PartialEq, Eq)]
pub struct ConditionalWidget {
    pub doc_attr: Option<Vec<Token>>,
    pub transition: Option<Ident>,
    pub assign_wrapper: Option<Path>,
    pub name: Ident,
    pub args: Option<Vec<Token>>,
    pub branches: ConditionalBranches,
}

/// The branches of a conditional widget, in the order in which they were
/// declared.
#[derive(Debug, PartialEq, Eq)]
pub enum ConditionalBranches {
    If(Vec<IfBranch>),
    /// The span of `match`, the tokens of the matched expression, the arms.
    Match(usize, Vec<Token>, Vec<MatchArm>),
}

/// The head of one branch: the spans of its keywords and its condition.
#[derive(Debug, PartialEq, Eq)]
pub enum IfCondition {
    If(usize, Vec<Token>),
    ElseIf(usize, usize, Vec<Token>),
    Else(usize),
}

/// One branch of an `if` chain with the widget that is shown when it is
/// taken.
#[derive(Debug, PartialEq, Eq)]
pub struct IfBranch {
    pub cond: IfCondition,
    pub widget: Widget,
}

/// One arm of a `match` with the widget that is shown when it is taken.
#[derive(Debug, PartialEq, Eq)]
pub struct MatchArm {
    pub pattern: Vec<Token>,
    /// The span of `if` and the guard's tokens.
    pub guard: Option<(usize, Vec<Token>)>,
    /// The span of `=>`.
    pub arrow: usize,
    pub widget: Widget,
}

/// A second value that the call which assigns a widget returns.
#[derive(Debug, PartialEq, Eq)]
pub struct ReturnedWidget {
    pub name: Ident,
    pub ty: Option<Path>,
    pub properties: Properties,
    pub is_optional: bool,
}

/// What a [`Widget`] is to the contracts. Each of the types that follow
/// mirrors the type it is named after, with sequences for vectors and
/// characters for strings.
pub struct WidgetView {
    pub doc_attr: Option<Seq<TokenView>>,
    pub attr: WidgetAttr,
    pub template_attr: WidgetTemplateAttr,
    pub mutable: Option<usize>,
    pub name: IdentView,
    pub name_assigned_by_user: bool,
    pub func: WidgetFuncView,
    pub args: Option<Seq<TokenView>>,
    pub properties: Seq<PropertyView>,
    pub assign_wrapper: Option<PathView>,
    pub ref_token: Option<usize>,
    pub deref_token: Option<usize>,
    pub returned_widget: Option<ReturnedWidgetView>,
}

pub struct PropertyView {
    pub name: PropertyNameView,
    pub ty: PropertyTypeView,
}

pub enum PropertyNameView {
    Ident(IdentView),
    Path(PathView),
    RelmContainerExtAssign(usize),
}

pub enum PropertyTypeView {
    Assign(AssignPropertyView),
    SignalHandler(SignalHandlerView),
    Widget(Box<WidgetView>),
    ConditionalWidget(ConditionalWidgetView),
    ParseError(ParseError),
}

pub enum AssignPropertyAttrView {
    Unset,
    Watch,
    Track(Seq<TokenView>, bool),
}

pub struct AssignPropertyView {
    pub attr: AssignPropertyAttrView,
    pub args: Option<Seq<TokenView>>,
    pub expr: Seq<TokenView>,
}

pub struct SignalHandlerView {
    pub args: Option<Seq<TokenView>>,
    pub handler: Seq<TokenView>,
}

pub struct ConditionalWidgetView {
    pub doc_attr: Option<Seq<TokenView>>,
    pub transition: Option<IdentView>,
    pub assign_wrapper: Option<PathView>,
    pub name: IdentView,
    pub args: Option<Seq<TokenView>>,
    pub branches: ConditionalBranchesView,
}

pub enum ConditionalBranchesView {
    If(Seq<IfBranchView>),
    Match(usize, Seq<TokenView>, Seq<MatchArmView>),
}

pub enum IfConditionView {
    If(usize, Seq<TokenView>),
    ElseIf(usize, usize, Seq<TokenView>),
    Else(usize),
}

pub struct IfBranchView {
    pub cond: IfConditionView,
    pub widget: WidgetView,
}

pub struct MatchArmView {
    pub pattern: Seq<TokenView>,
    pub guard: Option<(usize, Seq<TokenView>)>,
    pub arrow: usize,
    pub widget: WidgetView,
}

pub struct ReturnedWidgetView {
    pub name: IdentView,
    pub ty: Option<PathView>,
    pub properties: Seq<PropertyView>,
    pub is_optional: bool,
}

impl View for PropertyName {
    type V = PropertyNameView;

    open spec fn view(&self) -> PropertyNameView {
        match *self {
            PropertyName::Ident(i) => PropertyNameView::Ident(i@),
            PropertyName::Path(p) => PropertyNameView::Path(p@),
            PropertyName::RelmContainerExtAssign(s) => PropertyNameView::RelmContainerExtAssign(s),
        }
    }
}

impl View for AssignPropertyAttr {
    type V = AssignPropertyAttrView;

    open spec fn view(&self) -> AssignPropertyAttrView {
        match *self {
            AssignPropertyAttr::Unset => AssignPropertyAttrView::Unset,
            AssignPropertyAttr::Watch => AssignPropertyAttrView::Watch,
            AssignPropertyAttr::Track(ts, paste) => AssignPropertyAttrView::Track(
                tokens_view(ts@),
                paste,
            ),
        }
    }
}

impl View for AssignProperty {
    type V = AssignPropertyView;

    open spec fn view(&self) -> AssignPropertyView {
        AssignPropertyView {
            attr: self.attr@,
            args: opt_tokens_view(self.args),
            expr: tokens_view(self.expr@),
        }
    }
}

impl View for SignalHandler {
    type V = SignalHandlerView;

    open spec fn view(&self) -> SignalHandlerView {
        SignalHandlerView { args: opt_tokens_view(self.args), handler: tokens_view(self.handler@) }
    }
}

impl View for IfCondition {
    type V = IfConditionView;

    open spec fn view(&self) -> IfConditionView {
        match *self {
            IfCondition::If(s, ts) => IfConditionView::If(s, tokens_view(ts@)),
            IfCondition::ElseIf(e, s, ts) => IfConditionView::ElseIf(e, s, tokens_view(ts@)),
            IfCondition::Else(e) => IfConditionView::Else(e),
        }
    }
}

pub open spec fn widget_view(w: Widget) -> WidgetView
    decreases w,
{
    WidgetView {
        doc_attr: opt_tokens_view(w.doc_attr),
        attr: w.attr,
        template_attr: w.template_attr,
        mutable: w.mutable,
        name: w.name@,
        name_assigned_by_user: w.name_assigned_by_user,
        func: w.func@,
        args: opt_tokens_view(w.args),
        properties: properties_view(w.properties.properties@),
        assign_wrapper: opt_path_view(w.assign_wrapper),
        ref_token: w.ref_token,
        deref_token: w.deref_token,
        returned_widget: match w.returned_widget {
            Some(r) => Some(returned_view(r)),
            None => None,
        },
    }
}

pub open spec fn returned_view(r: ReturnedWidget) -> ReturnedWidgetView
    decreases r,
{
    ReturnedWidgetView {
        name: r.name@,
        ty: opt_path_view(r.ty),
        properties: properties_view(r.properties.properties@),
        is_optional: r.is_optional,
    }
}

pub open spec fn properties_view(ps: Seq<Property>) -> Seq<PropertyView>
    decreases ps,
{
    Seq::new(
        ps.len(),
        |i: int|
            if 0 <= i < ps.len() {
                property_view(ps[i])
            } else {
                arbitrary()
            },
    )
}

pub open spec fn property_view(p: Property) -> PropertyView
    decreases p,
{
    PropertyView { name: p.name@, ty: property_type_view(p.ty) }
}

pub open spec fn property_type_view(ty: PropertyType) -> PropertyTypeView
    decreases ty,
{
    match ty {
        PropertyType::Assign(a) => PropertyTypeView::Assign(a@),
        PropertyType::SignalHandler(s) => PropertyTypeView::SignalHandler(s@),
        PropertyType::Widget(w) => PropertyTypeView::Widget(Box::new(widget_view(w))),
        PropertyType::ConditionalWidget(c) => PropertyTypeView::ConditionalWidget(
            conditional_view(c),
        ),
        PropertyType::ParseError(e) => PropertyTypeView::ParseError(e),
    }
}

pub open spec fn conditional_view(c: ConditionalWidget) -> ConditionalWidgetView
    decreases c,
{
    ConditionalWidgetView {
        doc_attr: opt_tokens_view(c.doc_attr),
        transition: opt_ident_view(c.transition),
        assign_wrapper: opt_path_view(c.assign_wrapper),
        name: c.name@,
        args: opt_tokens_view(c.args),
        branches: match c.branches {
            ConditionalBranches::If(bs) => ConditionalBranchesView::If(if_branches_view(bs@)),
            ConditionalBranches::Match(s, e, arms) => ConditionalBranchesView::Match(
                s,
                tokens_view(e@),
                match_arms_view(arms@),
            ),
        },
    }
}

pub open spec fn if_branches_view(bs: Seq<IfBranch>) -> Seq<IfBranchView>
    decreases bs,
{
    Seq::new(
        bs.len(),
        |i: int|
            if 0 <= i < bs.len() {
                if_branch_view(bs[i])
            } else {
                arbitrary()
            },
    )
}

pub open spec fn if_branch_view(b: IfBranch) -> IfBranchView
    decreases b,
{
    IfBranchView { cond: b.cond@, widget: widget_view(b.widget) }
}

pub open spec fn match_arms_view(arms: Seq<MatchArm>) -> Seq<MatchArmView>
    decreases arms,
{
    Seq::new(
        arms.len(),
        |i: int|
            if 0 <= i < arms.len() {
                match_arm_view(arms[i])
            } else {
                arbitrary()
            },
    )
}

pub open spec fn match_arm_view(a: MatchArm) -> MatchArmView
    decreases a,
{
    MatchArmView {
        pattern: tokens_view(a.pattern@),
        guard: match a.guard {
            Some((s, ts)) => Some((s, tokens_view(ts@))),
            None => None,
        },
        arrow: a.arrow,
        widget: widget_view(a.widget),
    }
}

impl View for Widget {
    type V = WidgetView;

    open spec fn view(&self) -> WidgetView {
        widget_view(*self)
    }
}

impl View for ReturnedWidget {
    type V = ReturnedWidgetView;

    open spec fn view(&self) -> ReturnedWidgetView {
        returned_view(*self)
    }
}

impl View for Properties {
    type V = Seq<PropertyView>;

    open spec fn view(&self) -> Seq<PropertyView> {
        properties_view(self.properties@)
    }
}

impl View for Property {
    type V = PropertyView;

    open spec fn view(&self) -> PropertyView {
        property_view(*self)
    }
}

impl View for PropertyType {
    type V = PropertyTypeView;

    open spec fn view(&self) -> PropertyTypeView {
        property_type_view(*self)
    }
}

impl View for ConditionalWidget {
    type V = ConditionalWidgetView;

    open spec fn view(&self) -> ConditionalWidgetView {
        conditional_view(*self)
    }
}

impl View for IfBranch {
    type V = IfBranchView;

    open spec fn view(&self) -> IfBranchView {
        if_branch_view(*self)
    }
}

impl View for MatchArm {
    type V = MatchArmView;

    open spec fn view(&self) -> MatchArmView {
        match_arm_view(*self)
    }
}

pub broadcast proof fn lemma_properties_push(ps: Seq<Property>, p: Property)
    ensures
        #[trigger] properties_view(ps.push(p)) == properties_view(ps).push(property_view(p)),
{
    assert(properties_view(ps.push(p)) =~= properties_view(ps).push(property_view(p)));
}

pub broadcast proof fn lemma_properties_empty()
    ensures
        #[trigger] properties_view(Seq::<Property>::empty()) == Seq::<PropertyView>::empty(),
{
    assert(properties_view(Seq::<Property>::empty()) =~= Seq::<PropertyView>::empty());
}

pub broadcast proof fn lemma_properties_index(ps: Seq<Property>, i: int)
    requires
        0 <= i < ps.len(),
    ensures
        #[trigger] properties_view(ps)[i] == property_view(ps[i]),
        properties_view(ps).len() == ps.len(),
{
}

pub broadcast proof fn lemma_if_branches_push(bs: Seq<IfBranch>, b: IfBranch)
    ensures
        #[trigger] if_branches_view(bs.push(b)) == if_branches_view(bs).push(if_branch_view(b)),
{
    assert(if_branches_view(bs.push(b)) =~= if_branches_view(bs).push(if_branch_view(b)));
}

pub broadcast proof fn lemma_match_arms_push(arms: Seq<MatchArm>, a: MatchArm)
    ensures
        #[trigger] match_arms_view(arms.push(a)) == match_arms_view(arms).push(match_arm_view(a)),
{
    assert(match_arms_view(arms.push(a)) =~= match_arms_view(arms).push(match_arm_view(a)));
}

pub broadcast proof fn lemma_unfold_widget(w: Widget)
    ensures
        #[trigger] widget_view(w) == (WidgetView {
            doc_attr: opt_tokens_view(w.doc_attr),
            attr: w.attr,
            template_attr: w.template_attr,
            mutable: w.mutable,
            name: w.name@,
            name_assigned_by_user: w.name_assigned_by_user,
            func: w.func@,
            args: opt_tokens_view(w.args),
            properties: properties_view(w.properties.properties@),
            assign_wrapper: opt_path_view(w.assign_wrapper),
            ref_token: w.ref_token,
            deref_token: w.deref_token,
            returned_widget: match w.returned_widget {
                Some(r) => Some(returned_view(r)),
                None => None,
            },
        }),
{
}

pub broadcast proof fn lemma_unfold_returned(r: ReturnedWidget)
    ensures
        #[trigger] returned_view(r) == (ReturnedWidgetView {
            name: r.name@,
            ty: opt_path_view(r.ty),
            properties: properties_view(r.properties.properties@),
            is_optional: r.is_optional,
        }),
{
}

pub broadcast proof fn lemma_unfold_property(p: Property)
    ensures
        #[trigger] property_view(p) == (PropertyView {
            name: p.name@,
            ty: property_type_view(p.ty),
        }),
{
}

pub broadcast proof fn lemma_unfold_property_type(ty: PropertyType)
    ensures
        #[trigger] property_type_view(ty) == match ty {
            PropertyType::Assign(a) => PropertyTypeView::Assign(a@),
            PropertyType::SignalHandler(s) => PropertyTypeView::SignalHandler(s@),
            PropertyType::Widget(w) => PropertyTypeView::Widget(Box::new(widget_view(w))),
            PropertyType::ConditionalWidget(c) => PropertyTypeView::ConditionalWidget(
                conditional_view(c),
            ),
            PropertyType::ParseError(e) => PropertyTypeView::ParseError(e),
        },
{
}

pub broadcast proof fn lemma_unfold_conditional(c: ConditionalWidget)
    ensures
        #[trigger] conditional_view(c) == (ConditionalWidgetView {
            doc_attr: opt_tokens_view(c.doc_attr),
            transition: opt_ident_view(c.transition),
            assign_wrapper: opt_path_view(c.assign_wrapper),
            name: c.name@,
            args: opt_tokens_view(c.args),
            branches: match c.branches {
                ConditionalBranches::If(bs) => ConditionalBranchesView::If(if_branches_view(bs@)),
                ConditionalBranches::Match(s, e, arms) => ConditionalBranchesView::Match(
                    s,
                    tokens_view(e@),
                    match_arms_view(arms@),
                ),
            },
        }),
{
}

pub broadcast proof fn lemma_unfold_if_branch(b: IfBranch)
    ensures
        #[trigger] if_branch_view(b) == (IfBranchView {
            cond: b.cond@,
            widget: widget_view(b.widget),
        }),
{
}

pub broadcast proof fn lemma_unfold_match_arm(a: MatchArm)
    ensures
        #[trigger] match_arm_view(a) == (MatchArmView {
            pattern: tokens_view(a.pattern@),
            guard: match a.guard {
                Some((s, ts)) => Some((s, tokens_view(ts@))),
                None => None,
            },
            arrow: a.arrow,
            widget: widget_view(a.widget),
        }),
{
}

pub broadcast group group_widget_views {
    lemma_unfold_widget,
    lemma_unfold_returned,
    lemma_unfold_property,
    lemma_unfold_property_type,
    lemma_unfold_conditional,
    lemma_unfold_if_branch,
    lemma_unfold_match_arm,
    lemma_properties_push,
    lemma_properties_empty,
    lemma_properties_index,
    lemma_if_branches_push,
    lemma_match_arms_push,
}

} // verus!
