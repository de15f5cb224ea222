use crate::tokens::{clone_tokens, tokens_view, Token, TokenView};
use crate::widgets::{Ident, IdentView, Path};
use vstd::prelude::*;

verus! {

/// A pattern of a function's parameter, as far as it is looked at.
#[derive(Debug, PartialEq, Eq)]
pub enum Pat {
    Ident(Ident),
    Other,
}

/// A parameter of a function, with its span.
#[derive(Debug, PartialEq, Eq)]
pub enum FnArg {
    Receiver(usize),
    Typed(Pat, usize),
}

/// A statement or an expression of a function's body, as far as it is looked
/// at. Each carries its span.
#[derive(Debug, PartialEq, Eq)]
pub enum Node {
    /// `let .. = init;`
    Local(Option<Box<Node>>, usize),
    /// A macro call in the place of an expression, and the macro's name
    /// where it is a single identifier.
    Macro(Option<String>, usize),
    /// A struct literal: the last segment of its path, and its fields. What
    /// stands behind `..` counts as a field without a name.
    Struct(String, Vec<Field>, usize),
    /// A path, and its identifier where it is a single one.
    Path(Option<Ident>, usize),
    /// Tokens that are taken as they are.
    Verbatim(Vec<Token>),
    /// A statement with the code that goes before it.
    Injected(Vec<Token>, Box<Node>),
    /// Anything else, with its parts in source order.
    Other(Vec<Node>, usize),
}

/// A field of a struct literal.
#[derive(Debug, PartialEq, Eq)]
pub struct Field {
    /// The field's name, unless it is numbered.
    pub member: Option<String>,
    pub value: Node,
}

/// A macro call in the place of an item.
#[derive(Debug, PartialEq, Eq)]
pub struct ImplItemMacro {
    /// The macro's name where it is a single identifier.
    pub name: Option<String>,
    /// The tokens between the macro's delimiters.
    pub tokens: Vec<Token>,
    pub span: usize,
}

/// A function of an impl.
#[derive(Debug, PartialEq, Eq)]
pub struct ImplItemMethod {
    pub name: String,
    pub inputs: Vec<FnArg>,
    /// The span of the signature.
    pub sig_span: usize,
    /// The statements of the body.
    pub block: Vec<Node>,
    pub span: usize,
}

/// An associated type of an impl.
#[derive(Debug, PartialEq, Eq)]
pub struct ImplItemType {
    pub ident: String,
    pub ty: Vec<Token>,
    pub span: usize,
}

/// An item of an impl, as far as it is looked at.
#[derive(Debug, PartialEq, Eq)]
pub enum ImplItem {
    Macro(ImplItemMacro),
    Method(ImplItemMethod),
    Type(ImplItemType),
    Verbatim(Vec<Token>),
    /// Any other item, with its span.
    Other(usize),
}

/// The type that an impl is for.
#[derive(Debug, PartialEq, Eq)]
pub enum SelfType {
    Path(Path),
    /// Any other type, with its span.
    Other(usize),
}

/// An impl: the type it is for and its items, in order.
#[derive(Debug, PartialEq, Eq)]
pub struct ItemImpl {
    pub self_ty: SelfType,
    pub items: Vec<ImplItem>,
}

impl Node {
    pub open spec fn spec_span(self) -> usize {
        match self {
            Node::Local(_, s) => s,
            Node::Macro(_, s) => s,
            Node::Struct(_, _, s) => s,
            Node::Path(_, s) => s,
            Node::Verbatim(_) => 0,
            Node::Injected(_, _) => 0,
            Node::Other(_, s) => s,
        }
    }

    /// The span of the node; a node that was put in has none.
    pub fn span(&self) -> (s: usize)
        ensures
            s == self.spec_span(),
    {
        match self {
            Node::Local(_, s) => *s,
            Node::Macro(_, s) => *s,
            Node::Struct(_, _, s) => *s,
            Node::Path(_, s) => *s,
            Node::Verbatim(_) => 0,
            Node::Injected(_, _) => 0,
            Node::Other(_, s) => *s,
        }
    }
}

impl ImplItem {
    /// Whether the item is the empty item that stands where one was taken
    /// out.
    pub open spec fn is_null(self) -> bool {
        self matches ImplItem::Verbatim(ts) && ts@.len() == 0
    }

    pub open spec fn spec_span(self) -> usize {
        match self {
            ImplItem::Macro(m) => m.span,
            ImplItem::Method(m) => m.span,
            ImplItem::Type(t) => t.span,
            ImplItem::Verbatim(_) => 0,
            ImplItem::Other(s) => s,
        }
    }

    pub fn span(&self) -> (s: usize)
        ensures
            s == self.spec_span(),
    {
        match self {
            ImplItem::Macro(m) => m.span,
            ImplItem::Method(m) => m.span,
            ImplItem::Type(t) => t.span,
            ImplItem::Verbatim(_) => 0,
            ImplItem::Other(s) => *s,
        }
    }
}

/// An empty item that can stand where an item was taken out.
pub fn null_item() -> (item: ImplItem)
    ensures
        item.is_null(),
{
    ImplItem::Verbatim(Vec::new())
}

/// What a [`Node`] is to the contracts.
pub enum NodeView {
    Local(Option<Box<NodeView>>, usize),
    Macro(Option<Seq<char>>, usize),
    Struct(Seq<char>, Seq<FieldView>, usize),
    Path(Option<IdentView>, usize),
    Verbatim(Seq<TokenView>),
    Injected(Seq<TokenView>, Box<NodeView>),
    Other(Seq<NodeView>, usize),
}

pub struct FieldView {
    pub member: Option<Seq<char>>,
    pub value: NodeView,
}

pub enum PatView {
    Ident(IdentView),
    Other,
}

pub enum FnArgView {
    Receiver(usize),
    Typed(PatView, usize),
}

/// What an [`ImplItemMethod`] is to the contracts.
pub struct MethodView {
    pub name: Seq<char>,
    pub inputs: Seq<FnArgView>,
    pub sig_span: usize,
    pub block: Seq<NodeView>,
    pub span: usize,
}

pub open spec fn text_view(text: Option<String>) -> Option<Seq<char>> {
    match text {
        Some(t) => Some(t@),
        None => None,
    }
}

pub open spec fn node_view(n: Node) -> NodeView
    decreases n,
{
    match n {
        Node::Local(init, s) => NodeView::Local(
            match init {
                Some(b) => Some(Box::new(node_view(*b))),
                None => None,
            },
            s,
        ),
        Node::Macro(name, s) => NodeView::Macro(text_view(name), s),
        Node::Struct(name, fields, s) => NodeView::Struct(name@, literal_fields_view(fields@), s),
        Node::Path(id, s) => NodeView::Path(
            match id {
                Some(i) => Some(i@),
                None => None,
            },
            s,
        ),
        Node::Verbatim(ts) => NodeView::Verbatim(tokens_view(ts@)),
        Node::Injected(ts, b) => NodeView::Injected(tokens_view(ts@), Box::new(node_view(*b))),
        Node::Other(parts, s) => NodeView::Other(nodes_view(parts@), s),
    }
}

/// The view of each node, in order.
pub open spec fn nodes_view(ns: Seq<Node>) -> Seq<NodeView>
    decreases ns,
{
    Seq::new(
        ns.len(),
        |i: int|
            if 0 <= i < ns.len() {
                node_view(ns[i])
            } else {
                arbitrary()
            },
    )
}

pub open spec fn field_view(f: Field) -> FieldView
    decreases f,
{
    FieldView { member: text_view(f.member), value: node_view(f.value) }
}

/// The view of each field of a struct literal, in order.
pub open spec fn literal_fields_view(fs: Seq<Field>) -> Seq<FieldView>
    decreases fs,
{
    Seq::new(
        fs.len(),
        |i: int|
            if 0 <= i < fs.len() {
                field_view(fs[i])
            } else {
                arbitrary()
            },
    )
}

pub open spec fn arg_view(a: FnArg) -> FnArgView {
    match a {
        FnArg::Receiver(s) => FnArgView::Receiver(s),
        FnArg::Typed(Pat::Ident(i), s) => FnArgView::Typed(PatView::Ident(i@), s),
        FnArg::Typed(Pat::Other, s) => FnArgView::Typed(PatView::Other, s),
    }
}

pub open spec fn method_view(m: ImplItemMethod) -> MethodView {
    MethodView {
        name: m.name@,
        inputs: m.inputs@.map_values(|a: FnArg| arg_view(a)),
        sig_span: m.sig_span,
        block: nodes_view(m.block@),
        span: m.span,
    }
}

impl View for ImplItemMethod {
    type V = MethodView;

    open spec fn view(&self) -> MethodView {
        method_view(*self)
    }
}

/// A copy of a text that may be missing.
pub fn clone_text(text: &Option<String>) -> (r: Option<String>)
    ensures
        text_view(r) == text_view(*text),
{
    match text {
        Some(t) => Some(t.clone()),
        None => None,
    }
}

/// A copy of a node with all that it holds.
pub fn clone_node(n: &Node) -> (r: Node)
    ensures
        node_view(r) == node_view(*n),
    decreases n,
{
    match n {
        Node::Local(init, s) => {
            let init = match init {
                Some(b) => Some(Box::new(clone_node(b))),
                None => None,
            };
            Node::Local(init, *s)
        },
        Node::Macro(name, s) => Node::Macro(clone_text(name), *s),
        Node::Struct(name, fields, s) => Node::Struct(name.clone(), clone_fields(fields), *s),
        Node::Path(id, s) => {
            let id = match id {
                Some(i) => Some(Ident { name: i.name.clone(), span: i.span }),
                None => None,
            };
            Node::Path(id, *s)
        },
        Node::Verbatim(ts) => Node::Verbatim(clone_tokens(ts)),
        Node::Injected(ts, b) => Node::Injected(clone_tokens(ts), Box::new(clone_node(b))),
        Node::Other(parts, s) => Node::Other(clone_nodes(parts), *s),
    }
}

/// A copy of each node, in order.
pub fn clone_nodes(ns: &Vec<Node>) -> (r: Vec<Node>)
    ensures
        nodes_view(r@) == nodes_view(ns@),
    decreases ns,
{
    let mut out: Vec<Node> = Vec::new();
    let mut i: usize = 0;
    while i < ns.len()
        invariant
            i <= ns.len(),
            out@.len() == i,
            forall|j: int| 0 <= j < i ==> node_view(#[trigger] out@[j]) == node_view(ns@[j]),
        decreases ns.len() - i,
    {
        out.push(clone_node(&ns[i]));
        i += 1;
    }
    proof {
        assert(nodes_view(out@) =~= nodes_view(ns@));
    }
    out
}

/// A copy of each field of a struct literal, in order.
pub fn clone_fields(fs: &Vec<Field>) -> (r: Vec<Field>)
    ensures
        literal_fields_view(r@) == literal_fields_view(fs@),
    decreases fs,
{
    let mut out: Vec<Field> = Vec::new();
    let mut i: usize = 0;
    while i < fs.len()
        invariant
            i <= fs.len(),
            out@.len() == i,
            forall|j: int| 0 <= j < i ==> field_view(#[trigger] out@[j]) == field_view(fs@[j]),
        decreases fs.len() - i,
    {
        let field = Field { member: clone_text(&fs[i].member), value: clone_node(&fs[i].value) };
        out.push(field);
        i += 1;
    }
    proof {
        assert(literal_fields_view(out@) =~= literal_fields_view(fs@));
    }
    out
}

/// A copy of a parameter.
pub fn clone_arg(a: &FnArg) -> (r: FnArg)
    ensures
        arg_view(r) == arg_view(*a),
{
    match a {
        FnArg::Receiver(s) => FnArg::Receiver(*s),
        FnArg::Typed(Pat::Ident(i), s) => FnArg::Typed(Pat::Ident(Ident { name: i.name.clone(), span: i.span }), *s),
        FnArg::Typed(Pat::Other, s) => FnArg::Typed(Pat::Other, *s),
    }
}

/// A copy of a function with its parameters and its body.
pub fn clone_method(m: &ImplItemMethod) -> (r: ImplItemMethod)
    ensures
        r@ == m@,
{
    let mut inputs: Vec<FnArg> = Vec::new();
    let mut i: usize = 0;
    while i < m.inputs.len()
        invariant
            i <= m.inputs.len(),
            inputs@.len() == i,
            forall|j: int| 0 <= j < i ==> arg_view(#[trigger] inputs@[j]) == arg_view(m.inputs@[j]),
        decreases m.inputs.len() - i,
    {
        inputs.push(clone_arg(&m.inputs[i]));
        i += 1;
    }
    proof {
        assert(inputs@.map_values(|a: FnArg| arg_view(a)) =~= m.inputs@.map_values(|a: FnArg| arg_view(a)));
    }
    ImplItemMethod {
        name: m.name.clone(),
        inputs,
        sig_span: m.sig_span,
        block: clone_nodes(&m.block),
        span: m.span,
    }
}

} // verus!
