use crate::error::{ErrorKind, ParseError};
use crate::host::{
    clone_method, method_view, null_item, Field, FnArg, ImplItem, ImplItemMacro, ImplItemMethod,
    ImplItemType, ItemImpl, MethodView, Node, Pat,
};
use crate::menu::{MenuView, Menus};
use crate::menu::parse::spec_menus;
use crate::syntax::{are_fields, check_fields};
use crate::tokens::{clone_tokens, spells, tokens_view, Token, TokenView};
use crate::widgets::{opt_tokens_view, Ident};
use crate::widgets::parse::result_view;
use crate::widgets::parse::grammar::err;
use crate::widgets::parse::view::{spec_view, ViewWidgets, ViewWidgetsView};
use vstd::prelude::*;

verus! {

/// The fields that an `additional_fields!` block declares.
#[derive(Debug, PartialEq, Eq)]
pub struct AdditionalFields {
    pub tokens: Vec<Token>,
}

impl View for AdditionalFields {
    type V = Seq<TokenView>;

    open spec fn view(&self) -> Seq<TokenView> {
        tokens_view(self.tokens@)
    }
}

/// The name of the parameter `n` of a function, counted from zero: the
/// parameter must be a plain identifier. The error is blamed on the
/// parameter, or on the signature where the parameter is missing.
pub open spec fn param_name(inputs: Seq<FnArg>, n: int, kind: ErrorKind, sig_span: usize) -> Result<
    Ident,
    ParseError,
> {
    if 0 <= n < inputs.len() {
        match inputs[n] {
            FnArg::Typed(Pat::Ident(ident), _) => Ok(ident),
            FnArg::Typed(Pat::Other, span) => err(kind, span),
            FnArg::Receiver(span) => err(kind, span),
        }
    } else {
        err(kind, sig_span)
    }
}

/// Finds the name of the parameter `n` of a function.
pub fn find_param(inputs: &Vec<FnArg>, n: usize, kind: ErrorKind, sig_span: usize) -> (r: Result<
    Ident,
    ParseError,
>)
    ensures
        r == param_name(inputs@, n as int, kind, sig_span),
{
    if n < inputs.len() {
        match &inputs[n] {
            FnArg::Typed(pat, span) => match pat {
                Pat::Ident(ident) => Ok(Ident { name: ident.name.clone(), span: ident.span }),
                Pat::Other => Err(ParseError::new(kind, *span)),
            },
            FnArg::Receiver(span) => Err(ParseError::new(kind, *span)),
        }
    } else {
        Err(ParseError::new(kind, sig_span))
    }
}

/// What was found in an initializer so far: the model's name and the errors.
pub struct Found {
    pub model_name: Option<Ident>,
    pub errors: Seq<ParseError>,
}

/// Whether a struct of this name holds the parts of a component.
pub open spec fn is_parts(name: Seq<char>) -> bool {
    name == "ComponentParts"@ || name == "AsyncComponentParts"@
}

/// `found` after the fields from `from` on were looked at: each field named
/// `model` names the model if its value is a single identifier, and is an
/// error if not. The last such field decides.
pub open spec fn scan_fields(fields: Seq<Field>, from: int, found: Found) -> Found
    decreases fields.len() - from,
{
    if 0 <= from < fields.len() {
        let field = fields[from];
        let next = if field.member matches Some(m) && m@ == "model"@ {
            match field.value {
                Node::Path(Some(ident), _) => Found { model_name: Some(ident), ..found },
                other => Found {
                    errors: found.errors.push(
                        ParseError { kind: ErrorKind::ModelName, span: other.spec_span() },
                    ),
                    ..found
                },
            }
        } else {
            found
        };
        scan_fields(fields, from + 1, next)
    } else {
        found
    }
}

/// `found` after the node and all its parts were visited, in source order:
/// a struct literal that holds the parts of a component has its fields
/// looked at before its parts are visited.
#[verifier::opaque]
pub open spec fn visit_node(n: Node, found: Found) -> Found
    decreases n, 0nat,
{
    match n {
        Node::Struct(name, fields, _) => visit_fields(
            fields@,
            0,
            if is_parts(name@) {
                scan_fields(fields@, 0, found)
            } else {
                found
            },
        ),
        Node::Local(Some(init), _) => visit_node(*init, found),
        Node::Injected(_, stmt) => visit_node(*stmt, found),
        Node::Other(parts, _) => visit_nodes(parts@, 0, found),
        _ => found,
    }
}

#[verifier::opaque]
pub open spec fn visit_nodes(ns: Seq<Node>, from: int, found: Found) -> Found
    decreases ns, ns.len() - from,
{
    if 0 <= from < ns.len() {
        visit_nodes(ns, from + 1, visit_node(ns[from], found))
    } else {
        found
    }
}

#[verifier::opaque]
pub open spec fn visit_fields(fields: Seq<Field>, from: int, found: Found) -> Found
    decreases fields, fields.len() - from,
{
    if 0 <= from < fields.len() {
        visit_fields(fields, from + 1, visit_node(fields[from].value, found))
    } else {
        found
    }
}

/// `errors` with the error of `r`, where it is one.
pub open spec fn with_error(errors: Seq<ParseError>, r: Result<Ident, ParseError>) -> Seq<
    ParseError,
> {
    match r {
        Ok(_) => errors,
        Err(e) => errors.push(e),
    }
}

/// The name that `r` found, or the one that was known before.
pub open spec fn or_name(known: Option<Ident>, r: Result<Ident, ParseError>) -> Option<Ident> {
    match r {
        Ok(name) => Some(name),
        Err(_) => known,
    }
}

/// Looks through an `init` function for the names of the root widget, the
/// sender and the model.
#[derive(Debug)]
pub struct InitFnVisitor {
    pub root_name: Option<Ident>,
    pub model_name: Option<Ident>,
    pub sender_name: Option<Ident>,
    pub errors: Vec<ParseError>,
}

impl InitFnVisitor {
    pub open spec fn found(&self) -> Found {
        Found { model_name: self.model_name, errors: self.errors@ }
    }

    /// A visitor that has found nothing yet.
    pub fn new() -> (v: Self)
        ensures
            v.root_name.is_none(),
            v.model_name.is_none(),
            v.sender_name.is_none(),
            v.errors@ == Seq::<ParseError>::empty(),
    {
        InitFnVisitor { root_name: None, model_name: None, sender_name: None, errors: Vec::new() }
    }

    fn note(&mut self, r: Result<Ident, ParseError>) -> (name: Option<Ident>)
        ensures
            final(self).errors@ == with_error(old(self).errors@, r),
            final(self).root_name == old(self).root_name,
            final(self).sender_name == old(self).sender_name,
            final(self).model_name == old(self).model_name,
            name == match r {
                Ok(n) => Some(n),
                Err(_) => None::<Ident>,
            },
    {
        match r {
            Ok(name) => Some(name),
            Err(e) => {
                self.errors.push(e);
                None
            },
        }
    }

    /// Takes the root widget's name from the second parameter and the
    /// sender's name from the third, then visits the body.
    pub fn visit_impl_item_method(&mut self, func: &ImplItemMethod)
        ensures
            final(self).root_name == or_name(
                old(self).root_name,
                param_name(func.inputs@, 1, ErrorKind::RootName, func.sig_span),
            ),
            final(self).sender_name == or_name(
                old(self).sender_name,
                param_name(func.inputs@, 2, ErrorKind::SenderName, func.sig_span),
            ),
            final(self).found() == visit_nodes(
                func.block@,
                0,
                Found {
                    model_name: old(self).model_name,
                    errors: with_error(
                        with_error(
                            old(self).errors@,
                            param_name(func.inputs@, 1, ErrorKind::RootName, func.sig_span),
                        ),
                        param_name(func.inputs@, 2, ErrorKind::SenderName, func.sig_span),
                    ),
                },
            ),
    {
        let root_name = find_param(&func.inputs, 1, ErrorKind::RootName, func.sig_span);
        match self.note(root_name) {
            Some(name) => {
                self.root_name = Some(name);
            },
            None => {},
        }
        let sender_name = find_param(&func.inputs, 2, ErrorKind::SenderName, func.sig_span);
        match self.note(sender_name) {
            Some(name) => {
                self.sender_name = Some(name);
            },
            None => {},
        }
        self.visit_nodes(&func.block);
    }

    /// Looks at the fields of a struct literal, then visits them.
    pub fn visit_expr_struct(&mut self, name: &String, fields: &Vec<Field>)
        ensures
            final(self).found() == visit_fields(
                fields@,
                0,
                if is_parts(name@) {
                    scan_fields(fields@, 0, old(self).found())
                } else {
                    old(self).found()
                },
            ),
            final(self).root_name == old(self).root_name,
            final(self).sender_name == old(self).sender_name,
        decreases fields, fields.len() + 1,
    {
        if spells(name, "ComponentParts") || spells(name, "AsyncComponentParts") {
            let mut i: usize = 0;
            while i < fields.len()
                invariant
                    i <= fields.len(),
                    is_parts(name@),
                    self.root_name == old(self).root_name,
                    self.sender_name == old(self).sender_name,
                    scan_fields(fields@, i as int, self.found()) == scan_fields(
                        fields@,
                        0,
                        old(self).found(),
                    ),
                decreases fields.len() - i,
            {
                let field = &fields[i];
                let is_model = match &field.member {
                    Some(member) => spells(member, "model"),
                    None => false,
                };
                if is_model {
                    match &field.value {
                        Node::Path(Some(ident), _) => {
                            self.model_name = Some(
                                Ident { name: ident.name.clone(), span: ident.span },
                            );
                        },
                        other => {
                            self.errors.push(ParseError::new(ErrorKind::ModelName, other.span()));
                        },
                    }
                }
                i += 1;
            }
        }
        self.visit_fields(fields);
    }

    fn visit_fields(&mut self, fields: &Vec<Field>)
        ensures
            final(self).found() == visit_fields(fields@, 0, old(self).found()),
            final(self).root_name == old(self).root_name,
            final(self).sender_name == old(self).sender_name,
        decreases fields, fields.len(),
    {
        let mut i: usize = 0;
        while i < fields.len()
            invariant
                i <= fields.len(),
                self.root_name == old(self).root_name,
                self.sender_name == old(self).sender_name,
                visit_fields(fields@, i as int, self.found()) == visit_fields(
                    fields@,
                    0,
                    old(self).found(),
                ),
            decreases fields.len() - i,
        {
            proof {
                reveal(visit_fields);
                reveal(visit_node);
            }
            self.visit_node(&fields[i].value);
            i += 1;
        }
        proof {
            reveal(visit_fields);
        }
    }

    /// Visits the nodes in order.
    pub fn visit_nodes(&mut self, nodes: &Vec<Node>)
        ensures
            final(self).found() == visit_nodes(nodes@, 0, old(self).found()),
            final(self).root_name == old(self).root_name,
            final(self).sender_name == old(self).sender_name,
        decreases nodes, nodes.len(),
    {
        let mut i: usize = 0;
        while i < nodes.len()
            invariant
                i <= nodes.len(),
                self.root_name == old(self).root_name,
                self.sender_name == old(self).sender_name,
                visit_nodes(nodes@, i as int, self.found()) == visit_nodes(
                    nodes@,
                    0,
                    old(self).found(),
                ),
            decreases nodes.len() - i,
        {
            proof {
                reveal(visit_nodes);
                reveal(visit_node);
            }
            self.visit_node(&nodes[i]);
            i += 1;
        }
        proof {
            reveal(visit_nodes);
        }
    }

    /// Visits a node and all its parts.
    pub fn visit_node(&mut self, node: &Node)
        ensures
            final(self).found() == visit_node(*node, old(self).found()),
            final(self).root_name == old(self).root_name,
            final(self).sender_name == old(self).sender_name,
        decreases node, 0nat,
    {
        proof {
            reveal(visit_node);
            reveal(visit_nodes);
            reveal(visit_fields);
        }
        match node {
            Node::Struct(name, fields, _) => {
                self.visit_expr_struct(name, fields);
            },
            Node::Local(Some(init), _) => {
                self.visit_node(init);
            },
            Node::Injected(_, stmt) => {
                self.visit_node(stmt);
            },
            Node::Other(parts, _) => {
                self.visit_nodes(parts);
            },
            _ => {},
        }
    }
}

/// What an `init` function says: the names of the root widget and of the
/// sender from its parameters, the model's name from its body, and the
/// errors, in the order in which they were found.
pub struct InitResult {
    pub root_name: Option<Ident>,
    pub sender_name: Option<Ident>,
    pub found: Found,
}

pub open spec fn init_result(func: ImplItemMethod) -> InitResult {
    let root = param_name(func.inputs@, 1, ErrorKind::RootName, func.sig_span);
    let sender = param_name(func.inputs@, 2, ErrorKind::SenderName, func.sig_span);
    InitResult {
        root_name: or_name(None, root),
        sender_name: or_name(None, sender),
        found: visit_nodes(
            func.block@,
            0,
            Found {
                model_name: None,
                errors: with_error(with_error(Seq::empty(), root), sender),
            },
        ),
    }
}

/// The root widget's name and the errors of an `init_widgets` function: the
/// name is that of the third parameter.
pub open spec fn init_widgets_result(func: ImplItemMethod) -> Result<Ident, ParseError> {
    param_name(func.inputs@, 2, ErrorKind::RootName, func.sig_span)
}

/// Looks through an `init_widgets` function for the name of the root widget.
#[derive(Debug)]
pub struct InitWidgetsFnVisitor {
    pub root_name: Option<Ident>,
    pub errors: Vec<ParseError>,
}

impl InitWidgetsFnVisitor {
    /// A visitor that has found nothing yet.
    pub fn new() -> (v: Self)
        ensures
            v.root_name.is_none(),
            v.errors@ == Seq::<ParseError>::empty(),
    {
        InitWidgetsFnVisitor { root_name: None, errors: Vec::new() }
    }

    /// Takes the root widget's name from the third parameter.
    pub fn visit_impl_item_method(&mut self, func: &ImplItemMethod)
        ensures
            final(self).root_name == or_name(old(self).root_name, init_widgets_result(*func)),
            final(self).errors@ == with_error(old(self).errors@, init_widgets_result(*func)),
    {
        let root_name = find_param(&func.inputs, 2, ErrorKind::RootName, func.sig_span);
        match root_name {
            Ok(root_name) => {
                self.root_name = Some(root_name);
            },
            Err(e) => {
                self.errors.push(e);
            },
        }
    }
}

/// The blocks that an impl may hold once each, as far as they were found.
pub struct Blocks {
    pub view_widgets: Option<Result<ViewWidgetsView, ParseError>>,
    pub additional_fields: Option<Seq<TokenView>>,
    pub menus: Option<Seq<MenuView>>,
    pub errors: Seq<ParseError>,
}

pub open spec fn view_widgets_view(v: Option<Result<ViewWidgets, ParseError>>) -> Option<
    Result<ViewWidgetsView, ParseError>,
> {
    match v {
        Some(r) => Some(result_view(r)),
        None => None,
    }
}

pub open spec fn fields_view(f: Option<AdditionalFields>) -> Option<Seq<TokenView>> {
    match f {
        Some(f) => Some(f@),
        None => None,
    }
}

pub open spec fn menus_view(m: Option<Menus>) -> Option<Seq<MenuView>> {
    match m {
        Some(m) => Some(m@),
        None => None,
    }
}

pub open spec fn pushed_if(errors: Seq<ParseError>, condition: bool, kind: ErrorKind, span: usize) -> Seq<
    ParseError,
> {
    if condition {
        errors.push(ParseError { kind, span })
    } else {
        errors
    }
}

/// Whether a macro of this name is one of the blocks that are taken out of
/// the impl.
pub open spec fn is_block(name: Option<String>) -> bool {
    name matches Some(n) && (n@ == "view"@ || n@ == "additional_fields"@ || n@ == "menu"@)
}

/// `b` after a macro call was looked at. A `view!` block is read and kept,
/// also where it cannot be read; a second one is an error and replaces the
/// first. An `additional_fields!` or `menu!` block is kept where it can be
/// read, and then a second one is an error and replaces the first; where it
/// cannot be read, that is the error.
pub open spec fn blocks_step(b: Blocks, name: Option<String>, tokens: Seq<TokenView>, span: usize) -> Blocks {
    match name {
        Some(n) => if n@ == "view"@ {
            Blocks {
                view_widgets: Some(spec_view(tokens)),
                errors: pushed_if(
                    b.errors,
                    b.view_widgets.is_some(),
                    ErrorKind::DuplicateViewMacro,
                    span,
                ),
                ..b
            }
        } else if n@ == "additional_fields"@ {
            if are_fields(tokens) {
                Blocks {
                    additional_fields: Some(tokens),
                    errors: pushed_if(
                        b.errors,
                        b.additional_fields.is_some(),
                        ErrorKind::DuplicateAdditionalFields,
                        span,
                    ),
                    ..b
                }
            } else {
                Blocks {
                    errors: b.errors.push(ParseError { kind: ErrorKind::AdditionalFields, span }),
                    ..b
                }
            }
        } else if n@ == "menu"@ {
            match spec_menus(tokens, 0, Seq::empty()) {
                Ok(menus) => Blocks {
                    menus: Some(menus),
                    errors: pushed_if(
                        b.errors,
                        b.menus.is_some(),
                        ErrorKind::DuplicateMenuMacro,
                        span,
                    ),
                    ..b
                },
                Err(e) => Blocks { errors: b.errors.push(e), ..b },
            }
        } else {
            b
        },
        None => b,
    }
}

/// Looks at a macro call in an impl. Says whether the call is to be taken
/// out of the impl.
pub fn visit_macro(
    mac: &ImplItemMacro,
    view_widgets: &mut Option<Result<ViewWidgets, ParseError>>,
    additional_fields: &mut Option<AdditionalFields>,
    menus: &mut Option<Menus>,
    errors: &mut Vec<ParseError>,
) -> (remove: bool)
    ensures
        remove == is_block(mac.name),
        (Blocks {
            view_widgets: view_widgets_view(*final(view_widgets)),
            additional_fields: fields_view(*final(additional_fields)),
            menus: menus_view(*final(menus)),
            errors: final(errors)@,
        }) == blocks_step(
            Blocks {
                view_widgets: view_widgets_view(*old(view_widgets)),
                additional_fields: fields_view(*old(additional_fields)),
                menus: menus_view(*old(menus)),
                errors: old(errors)@,
            },
            mac.name,
            tokens_view(mac.tokens@),
            mac.span,
        ),
{
    let name = match &mac.name {
        Some(name) => name,
        None => {
            return false;
        },
    };
    if spells(name, "view") {
        if view_widgets.is_some() {
            errors.push(ParseError::new(ErrorKind::DuplicateViewMacro, mac.span));
        }
        *view_widgets = Some(ViewWidgets::parse(&mac.tokens));
        true
    } else if spells(name, "additional_fields") {
        if check_fields(&mac.tokens) {
            let existing = additional_fields.is_some();
            *additional_fields = Some(AdditionalFields { tokens: clone_tokens(&mac.tokens) });
            if existing {
                errors.push(ParseError::new(ErrorKind::DuplicateAdditionalFields, mac.span));
            }
        } else {
            errors.push(ParseError::new(ErrorKind::AdditionalFields, mac.span));
        }
        true
    } else if spells(name, "menu") {
        match Menus::parse(&mac.tokens) {
            Ok(menu) => {
                let existing = menus.is_some();
                *menus = Some(menu);
                if existing {
                    errors.push(ParseError::new(ErrorKind::DuplicateMenuMacro, mac.span));
                }
            },
            Err(e) => {
                errors.push(e);
            },
        }
        true
    } else {
        false
    }
}

/// Looks through the impl of a component for its blocks, the type of its
/// widgets, and the names that its `init` function uses. Takes the blocks
/// out of the impl.
#[derive(Debug)]
pub struct ComponentVisitor<'errors> {
    pub view_widgets: Option<Result<ViewWidgets, ParseError>>,
    pub widgets_ty: Option<Vec<Token>>,
    pub root_name: Option<Ident>,
    pub model_name: Option<Ident>,
    pub sender_name: Option<Ident>,
    pub additional_fields: Option<AdditionalFields>,
    pub menus: Option<Menus>,
    pub errors: &'errors mut Vec<ParseError>,
}

/// What a [`ComponentVisitor`] has found.
pub struct ComponentState {
    pub blocks: Blocks,
    pub widgets_ty: Option<Seq<TokenView>>,
    pub root_name: Option<Ident>,
    pub model_name: Option<Ident>,
    pub sender_name: Option<Ident>,
}

/// `s` after an item of the impl was visited: a macro call as
/// [`blocks_step`] says; an `init` function sets the three names anew, to
/// what it says of them, and adds its errors; a type named `Widgets` names the
/// type of the widgets.
pub open spec fn component_step(s: ComponentState, item: ImplItem) -> ComponentState {
    match item {
        ImplItem::Macro(mac) => ComponentState {
            blocks: blocks_step(s.blocks, mac.name, tokens_view(mac.tokens@), mac.span),
            ..s
        },
        ImplItem::Method(func) => if func.name@ == "init"@ {
            let r = init_result(func);
            ComponentState {
                blocks: Blocks { errors: s.blocks.errors + r.found.errors, ..s.blocks },
                root_name: r.root_name,
                model_name: r.found.model_name,
                sender_name: r.sender_name,
                ..s
            }
        } else {
            s
        },
        ImplItem::Type(ty) => if ty.ident@ == "Widgets"@ {
            ComponentState { widgets_ty: Some(tokens_view(ty.ty@)), ..s }
        } else {
            s
        },
        _ => s,
    }
}

/// Whether visiting takes the item out of the impl.
pub open spec fn removes(item: ImplItem) -> bool {
    item matches ImplItem::Macro(mac) && is_block(mac.name)
}

/// The item as visiting leaves it.
pub open spec fn left_behind(before: ImplItem, after: ImplItem) -> bool {
    if removes(before) {
        after.is_null()
    } else {
        after == before
    }
}

impl<'errors> ComponentVisitor<'errors> {
    pub open spec fn view(&self) -> ComponentState {
        ComponentState {
            blocks: Blocks {
                view_widgets: view_widgets_view(self.view_widgets),
                additional_fields: fields_view(self.additional_fields),
                menus: menus_view(self.menus),
                errors: self.errors@,
            },
            widgets_ty: opt_tokens_view(self.widgets_ty),
            root_name: self.root_name,
            model_name: self.model_name,
            sender_name: self.sender_name,
        }
    }

    /// A visitor that has found nothing yet and adds its errors to `errors`.
    pub fn new(errors: &'errors mut Vec<ParseError>) -> (v: Self)
        ensures
            v.view_widgets.is_none(),
            v.widgets_ty.is_none(),
            v.root_name.is_none(),
            v.model_name.is_none(),
            v.sender_name.is_none(),
            v.additional_fields.is_none(),
            v.menus.is_none(),
            v.errors@ == old(errors)@,
            *final(v.errors) == *final(errors),
    {
        ComponentVisitor {
            view_widgets: None,
            widgets_ty: None,
            root_name: None,
            model_name: None,
            sender_name: None,
            additional_fields: None,
            menus: None,
            errors,
        }
    }

    /// Visits one item of the impl.
    pub fn visit_impl_item_mut(&mut self, item: &mut ImplItem)
        ensures
            final(self)@ == component_step(old(self)@, *old(item)),
            left_behind(*old(item), *final(item)),
            *final(final(self).errors) == *final(old(self).errors),
    {
        let mut remove = false;
        match &*item {
            ImplItem::Macro(mac) => {
                remove = visit_macro(
                    mac,
                    &mut self.view_widgets,
                    &mut self.additional_fields,
                    &mut self.menus,
                    self.errors,
                );
            },
            ImplItem::Method(func) => {
                if spells(&func.name, "init") {
                    let mut init_fn_visitor = InitFnVisitor::new();
                    init_fn_visitor.visit_impl_item_method(func);
                    self.model_name = init_fn_visitor.model_name;
                    self.sender_name = init_fn_visitor.sender_name;
                    self.root_name = init_fn_visitor.root_name;
                    self.errors.append(&mut init_fn_visitor.errors);
                }
            },
            ImplItem::Type(ty) => {
                self.visit_impl_item_type_mut(ty);
            },
            _ => {},
        }
        if remove {
            *item = null_item();
        }
    }

    /// Takes the type of the widgets from a type named `Widgets`.
    pub fn visit_impl_item_type_mut(&mut self, ty: &ImplItemType)
        ensures
            final(self)@ == component_step(old(self)@, ImplItem::Type(*ty)),
            *final(final(self).errors) == *final(old(self).errors),
    {
        if spells(&ty.ident, "Widgets") {
            self.widgets_ty = Some(clone_tokens(&ty.ty));
        }
    }
}

/// `s` after the items from `from` on were visited, in order.
pub open spec fn component_steps(s: ComponentState, items: Seq<ImplItem>, from: int) -> ComponentState
    decreases items.len() - from,
{
    if 0 <= from < items.len() {
        component_steps(component_step(s, items[from]), items, from + 1)
    } else {
        s
    }
}

impl<'errors> ComponentVisitor<'errors> {
    /// Visits the items of the impl, in order.
    pub fn visit_item_impl_mut(&mut self, item_impl: &mut ItemImpl)
        ensures
            final(self)@ == component_steps(old(self)@, old(item_impl).items@, 0),
            final(item_impl).self_ty == old(item_impl).self_ty,
            final(item_impl).items@.len() == old(item_impl).items@.len(),
            forall|i: int|
                0 <= i < old(item_impl).items@.len() ==> left_behind(
                    old(item_impl).items@[i],
                    #[trigger] final(item_impl).items@[i],
                ),
            *final(final(self).errors) == *final(old(self).errors),
    {
        let ghost before = item_impl.items@;
        let mut i: usize = 0;
        while i < item_impl.items.len()
            invariant
                i <= item_impl.items.len(),
                item_impl.items@.len() == before.len(),
                before == old(item_impl).items@,
                item_impl.self_ty == old(item_impl).self_ty,
                component_steps(self@, before, i as int) == component_steps(old(self)@, before, 0),
                forall|j: int| 0 <= j < i ==> left_behind(before[j], #[trigger] item_impl.items@[j]),
                forall|j: int| i <= j < before.len() ==> #[trigger] item_impl.items@[j] == before[j],
                *final(self.errors) == *final(old(self).errors),
            decreases item_impl.items.len() - i,
        {
            self.visit_impl_item_mut(&mut item_impl.items[i]);
            i += 1;
        }
    }
}

/// What a [`FactoryComponentVisitor`] has found.
pub struct FactoryState {
    pub blocks: Blocks,
    pub widgets_ty: Option<Seq<TokenView>>,
    pub init_widgets: Option<MethodView>,
    pub root_name: Option<Ident>,
}

/// Looks through the impl of a factory component for its blocks, the type of
/// its widgets and its `init_widgets` function. Takes the blocks out of the
/// impl.
#[derive(Debug)]
pub struct FactoryComponentVisitor<'errors> {
    pub view_widgets: Option<Result<ViewWidgets, ParseError>>,
    pub widgets_ty: Option<Vec<Token>>,
    /// A copy of the `init_widgets` function that was seen last.
    pub init_widgets: Option<ImplItemMethod>,
    pub root_name: Option<Ident>,
    pub additional_fields: Option<AdditionalFields>,
    pub menus: Option<Menus>,
    pub errors: &'errors mut Vec<ParseError>,
}

/// `s` after an item of the impl was visited: a macro call as
/// [`blocks_step`] says; an `init_widgets` function sets the root's name
/// anew, to that of its third parameter, and is kept, where a second one is
/// an error; a type named `Widgets` names the type of the widgets, and one
/// named `Root` is an error.
pub open spec fn factory_step(s: FactoryState, item: ImplItem) -> FactoryState {
    match item {
        ImplItem::Macro(mac) => FactoryState {
            blocks: blocks_step(s.blocks, mac.name, tokens_view(mac.tokens@), mac.span),
            ..s
        },
        ImplItem::Method(func) => if func.name@ == "init_widgets"@ {
            let root = init_widgets_result(func);
            FactoryState {
                blocks: Blocks {
                    errors: pushed_if(
                        with_error(s.blocks.errors, root),
                        s.init_widgets.is_some(),
                        ErrorKind::DuplicateInitWidgets,
                        func.span,
                    ),
                    ..s.blocks
                },
                root_name: or_name(None, root),
                init_widgets: Some(method_view(func)),
                ..s
            }
        } else {
            s
        },
        ImplItem::Type(ty) => if ty.ident@ == "Widgets"@ {
            FactoryState { widgets_ty: Some(tokens_view(ty.ty@)), ..s }
        } else if ty.ident@ == "Root"@ {
            FactoryState {
                blocks: Blocks {
                    errors: s.blocks.errors.push(
                        ParseError { kind: ErrorKind::RootTypeDefined, span: ty.span },
                    ),
                    ..s.blocks
                },
                ..s
            }
        } else {
            s
        },
        _ => s,
    }
}

/// `s` after the items from `from` on were visited, in order.
pub open spec fn factory_steps(s: FactoryState, items: Seq<ImplItem>, from: int) -> FactoryState
    decreases items.len() - from,
{
    if 0 <= from < items.len() {
        factory_steps(factory_step(s, items[from]), items, from + 1)
    } else {
        s
    }
}

impl<'errors> FactoryComponentVisitor<'errors> {
    pub open spec fn view(&self) -> FactoryState {
        FactoryState {
            blocks: Blocks {
                view_widgets: view_widgets_view(self.view_widgets),
                additional_fields: fields_view(self.additional_fields),
                menus: menus_view(self.menus),
                errors: self.errors@,
            },
            widgets_ty: opt_tokens_view(self.widgets_ty),
            init_widgets: match self.init_widgets {
                Some(func) => Some(func@),
                None => None,
            },
            root_name: self.root_name,
        }
    }

    /// A visitor that has found nothing yet and adds its errors to `errors`.
    pub fn new(errors: &'errors mut Vec<ParseError>) -> (v: Self)
        ensures
            v.view_widgets.is_none(),
            v.widgets_ty.is_none(),
            v.init_widgets.is_none(),
            v.root_name.is_none(),
            v.additional_fields.is_none(),
            v.menus.is_none(),
            v.errors@ == old(errors)@,
            *final(v.errors) == *final(errors),
    {
        FactoryComponentVisitor {
            view_widgets: None,
            widgets_ty: None,
            init_widgets: None,
            root_name: None,
            additional_fields: None,
            menus: None,
            errors,
        }
    }

    /// Visits one item of the impl.
    pub fn visit_impl_item_mut(&mut self, item: &mut ImplItem)
        ensures
            final(self)@ == factory_step(old(self)@, *old(item)),
            left_behind(*old(item), *final(item)),
            *final(final(self).errors) == *final(old(self).errors),
    {
        let mut remove = false;
        match &*item {
            ImplItem::Macro(mac) => {
                remove = visit_macro(
                    mac,
                    &mut self.view_widgets,
                    &mut self.additional_fields,
                    &mut self.menus,
                    self.errors,
                );
            },
            ImplItem::Method(func) => {
                if spells(&func.name, "init_widgets") {
                    let mut init_fn_visitor = InitWidgetsFnVisitor::new();
                    init_fn_visitor.visit_impl_item_method(func);
                    self.root_name = init_fn_visitor.root_name;
                    let ghost had = self.errors@;
                    let ghost new = init_fn_visitor.errors@;
                    self.errors.append(&mut init_fn_visitor.errors);
                    proof {
                        assert(had + new =~= with_error(had, init_widgets_result(*func)));
                    }
                    let existing = self.init_widgets.is_some();
                    self.init_widgets = Some(clone_method(func));
                    if existing {
                        self.errors.push(
                            ParseError::new(ErrorKind::DuplicateInitWidgets, func.span),
                        );
                    }
                }
            },
            ImplItem::Type(ty) => {
                self.visit_impl_item_type_mut(ty);
            },
            _ => {},
        }
        if remove {
            *item = null_item();
        }
    }

    /// Takes the type of the widgets from a type named `Widgets`; a type
    /// named `Root` is an error.
    pub fn visit_impl_item_type_mut(&mut self, ty: &ImplItemType)
        ensures
            final(self)@ == factory_step(old(self)@, ImplItem::Type(*ty)),
            *final(final(self).errors) == *final(old(self).errors),
    {
        if spells(&ty.ident, "Widgets") {
            self.widgets_ty = Some(clone_tokens(&ty.ty));
        } else if spells(&ty.ident, "Root") {
            self.errors.push(ParseError::new(ErrorKind::RootTypeDefined, ty.span));
        }
    }

    /// Visits the items of the impl, in order.
    pub fn visit_item_impl_mut(&mut self, item_impl: &mut ItemImpl)
        ensures
            final(self)@ == factory_steps(old(self)@, old(item_impl).items@, 0),
            final(item_impl).self_ty == old(item_impl).self_ty,
            final(item_impl).items@.len() == old(item_impl).items@.len(),
            forall|i: int|
                0 <= i < old(item_impl).items@.len() ==> left_behind(
                    old(item_impl).items@[i],
                    #[trigger] final(item_impl).items@[i],
                ),
            *final(final(self).errors) == *final(old(self).errors),
    {
        let ghost before = item_impl.items@;
        let mut i: usize = 0;
        while i < item_impl.items.len()
            invariant
                i <= item_impl.items.len(),
                item_impl.items@.len() == before.len(),
                before == old(item_impl).items@,
                item_impl.self_ty == old(item_impl).self_ty,
                factory_steps(self@, before, i as int) == factory_steps(old(self)@, before, 0),
                forall|j: int| 0 <= j < i ==> left_behind(before[j], #[trigger] item_impl.items@[j]),
                forall|j: int| i <= j < before.len() ==> #[trigger] item_impl.items@[j] == before[j],
                *final(self.errors) == *final(old(self).errors),
            decreases item_impl.items.len() - i,
        {
            self.visit_impl_item_mut(&mut item_impl.items[i]);
            i += 1;
        }
    }
}

/// What a [`PreAndPostView`] has found.
pub struct Hooks {
    pub pre_view: Seq<Node>,
    pub post_view: Seq<Node>,
    pub seen_pre_view: bool,
    pub seen_post_view: bool,
    pub errors: Seq<ParseError>,
}

/// Whether the item is one of the two functions that are taken out of the
/// impl.
pub open spec fn is_hook(item: ImplItem) -> bool {
    item matches ImplItem::Method(func) && (func.name@ == "pre_view"@ || func.name@
        == "post_view"@)
}

/// `h` after an item of the impl was visited: the body of a function named
/// `pre_view` or `post_view` is kept; a second function of either name is an
/// error, and its body replaces the first.
pub open spec fn hook_step(h: Hooks, item: ImplItem) -> Hooks {
    match item {
        ImplItem::Method(func) => if func.name@ == "pre_view"@ {
            Hooks {
                pre_view: func.block@,
                seen_pre_view: true,
                errors: pushed_if(
                    h.errors,
                    h.seen_pre_view,
                    ErrorKind::DuplicatePreView,
                    func.span,
                ),
                ..h
            }
        } else if func.name@ == "post_view"@ {
            Hooks {
                post_view: func.block@,
                seen_post_view: true,
                errors: pushed_if(
                    h.errors,
                    h.seen_post_view,
                    ErrorKind::DuplicatePostView,
                    func.span,
                ),
                ..h
            }
        } else {
            h
        },
        _ => h,
    }
}

pub open spec fn hook_steps(h: Hooks, items: Seq<ImplItem>, from: int) -> Hooks
    decreases items.len() - from,
{
    if 0 <= from < items.len() {
        hook_steps(hook_step(h, items[from]), items, from + 1)
    } else {
        h
    }
}

/// The item as taking out the hooks leaves it.
pub open spec fn hook_left_behind(before: ImplItem, after: ImplItem) -> bool {
    if is_hook(before) {
        after.is_null()
    } else {
        after == before
    }
}

/// Takes the functions `pre_view` and `post_view` out of an impl and keeps
/// their bodies.
#[derive(Debug)]
pub struct PreAndPostView<'errors> {
    pub pre_view: Vec<Node>,
    pub post_view: Vec<Node>,
    /// Whether a function named `pre_view` was taken out already.
    pub seen_pre_view: bool,
    /// Whether a function named `post_view` was taken out already.
    pub seen_post_view: bool,
    pub errors: &'errors mut Vec<ParseError>,
}

impl<'errors> PreAndPostView<'errors> {
    pub open spec fn view(&self) -> Hooks {
        Hooks {
            pre_view: self.pre_view@,
            post_view: self.post_view@,
            seen_pre_view: self.seen_pre_view,
            seen_post_view: self.seen_post_view,
            errors: self.errors@,
        }
    }

    /// Takes the two functions out of the impl.
    pub fn extract(impl_: &mut ItemImpl, errors: &'errors mut Vec<ParseError>) -> (v: Self)
        ensures
            v@ == hook_steps(
                Hooks {
                    pre_view: Seq::empty(),
                    post_view: Seq::empty(),
                    seen_pre_view: false,
                    seen_post_view: false,
                    errors: old(errors)@,
                },
                old(impl_).items@,
                0,
            ),
            final(impl_).self_ty == old(impl_).self_ty,
            final(impl_).items@.len() == old(impl_).items@.len(),
            forall|i: int|
                0 <= i < old(impl_).items@.len() ==> hook_left_behind(
                    old(impl_).items@[i],
                    #[trigger] final(impl_).items@[i],
                ),
            *final(v.errors) == *final(errors),
    {
        let mut visitor = PreAndPostView {
            pre_view: Vec::new(),
            post_view: Vec::new(),
            seen_pre_view: false,
            seen_post_view: false,
            errors,
        };
        visitor.visit_item_impl_mut(impl_);
        visitor
    }

    /// Visits the items of the impl, in order.
    pub fn visit_item_impl_mut(&mut self, item_impl: &mut ItemImpl)
        ensures
            final(self)@ == hook_steps(old(self)@, old(item_impl).items@, 0),
            final(item_impl).self_ty == old(item_impl).self_ty,
            final(item_impl).items@.len() == old(item_impl).items@.len(),
            forall|i: int|
                0 <= i < old(item_impl).items@.len() ==> hook_left_behind(
                    old(item_impl).items@[i],
                    #[trigger] final(item_impl).items@[i],
                ),
            *final(final(self).errors) == *final(old(self).errors),
    {
        let ghost before = item_impl.items@;
        let mut i: usize = 0;
        while i < item_impl.items.len()
            invariant
                i <= item_impl.items.len(),
                item_impl.items@.len() == before.len(),
                before == old(item_impl).items@,
                item_impl.self_ty == old(item_impl).self_ty,
                hook_steps(self@, before, i as int) == hook_steps(old(self)@, before, 0),
                forall|j: int|
                    0 <= j < i ==> hook_left_behind(before[j], #[trigger] item_impl.items@[j]),
                forall|j: int| i <= j < before.len() ==> #[trigger] item_impl.items@[j] == before[j],
                *final(self.errors) == *final(old(self).errors),
            decreases item_impl.items.len() - i,
        {
            self.visit_impl_item_mut(&mut item_impl.items[i]);
            i += 1;
        }
    }

    /// Visits one item of the impl.
    pub fn visit_impl_item_mut(&mut self, item: &mut ImplItem)
        ensures
            final(self)@ == hook_step(old(self)@, *old(item)),
            hook_left_behind(*old(item), *final(item)),
            *final(final(self).errors) == *final(old(self).errors),
    {
        let (pre, post) = match &*item {
            ImplItem::Method(func) => (spells(&func.name, "pre_view"), spells(&func.name, "post_view")),
            _ => (false, false),
        };
        if pre || post {
            let mut taken = null_item();
            std::mem::swap(item, &mut taken);
            match taken {
                ImplItem::Method(func) => {
                    if pre {
                        if self.seen_pre_view {
                            self.errors.push(
                                ParseError::new(ErrorKind::DuplicatePreView, func.span),
                            );
                        }
                        self.pre_view = func.block;
                        self.seen_pre_view = true;
                    } else {
                        if self.seen_post_view {
                            self.errors.push(
                                ParseError::new(ErrorKind::DuplicatePostView, func.span),
                            );
                        }
                        self.post_view = func.block;
                        self.seen_post_view = true;
                    }
                },
                _ => {},
            }
        }
    }
}

/// Whether the statement is `let .. = view_output!(..);`.
pub open spec fn is_marker(stmt: Node) -> bool {
    stmt matches Node::Local(Some(init), _) && (*init matches Node::Macro(Some(name), _) && name@
        == "view_output"@)
}

/// What a marker is initialised with: the macro call.
pub open spec fn marker_init(stmt: Node) -> Node {
    *stmt->Local_0->0
}

/// The statement `after` as expanding leaves `before`: a marker is
/// initialised with `widgets_init` instead of the macro call and gets the
/// view's code before it; any other statement stays as it is.
pub open spec fn expanded_stmt(before: Node, after: Node, view_code: Seq<TokenView>, widgets_init: Node) -> bool {
    if is_marker(before) {
        after matches Node::Injected(code, stmt) && tokens_view(code@) == view_code && *stmt
            == Node::Local(Some(Box::new(widgets_init)), before->Local_1)
    } else {
        after == before
    }
}

/// What widgets are initialised with at the statement `i`: what was handed
/// in, or, behind a marker, the macro call that the last marker held.
pub open spec fn init_at(widgets_init: Node, stmts: Seq<Node>, i: int) -> Node
    decreases i,
{
    if i <= 0 || i > stmts.len() {
        widgets_init
    } else if is_marker(stmts[i - 1]) {
        marker_init(stmts[i - 1])
    } else {
        init_at(widgets_init, stmts, i - 1)
    }
}

/// Whether one of the first `i` statements is a marker.
pub open spec fn any_marker(stmts: Seq<Node>, i: int) -> bool
    decreases i,
{
    0 < i <= stmts.len() && (is_marker(stmts[i - 1]) || any_marker(stmts, i - 1))
}

/// Whether the function is one that must hold a marker.
pub open spec fn is_initializer(name: Seq<char>) -> bool {
    name == "init"@ || name == "init_widgets"@
}

/// What an expander holds besides the view's code.
pub struct Expansion {
    pub widgets_init: Node,
    pub expanded: bool,
    pub errors: Seq<ParseError>,
}

/// `e` after a function was visited: in an initializer every marker is
/// expanded; an initializer without a marker is an error.
pub open spec fn method_step(e: Expansion, method: ImplItemMethod) -> Expansion {
    if is_initializer(method.name@) {
        let n = method.block@.len() as int;
        Expansion {
            widgets_init: init_at(e.widgets_init, method.block@, n),
            expanded: e.expanded || any_marker(method.block@, n),
            errors: pushed_if(
                e.errors,
                !any_marker(method.block@, n),
                ErrorKind::InjectionPoint,
                method.span,
            ),
        }
    } else {
        e
    }
}

/// The function `after` as expanding leaves `before`.
pub open spec fn expanded_method(
    before: ImplItemMethod,
    after: ImplItemMethod,
    view_code: Seq<TokenView>,
    widgets_init: Node,
) -> bool {
    &&& after.name == before.name
    &&& after.inputs == before.inputs
    &&& after.sig_span == before.sig_span
    &&& after.span == before.span
    &&& after.block@.len() == before.block@.len()
    &&& if is_initializer(before.name@) {
        forall|i: int|
            0 <= i < before.block@.len() ==> expanded_stmt(
                before.block@[i],
                #[trigger] after.block@[i],
                view_code,
                init_at(widgets_init, before.block@, i),
            )
    } else {
        after.block@ == before.block@
    }
}

/// `e` after the first `k` items were visited.
pub open spec fn expansion_before(e: Expansion, items: Seq<ImplItem>, k: int) -> Expansion
    decreases k,
{
    if k <= 0 || k > items.len() {
        e
    } else {
        let before = expansion_before(e, items, k - 1);
        match items[k - 1] {
            ImplItem::Method(method) => method_step(before, method),
            _ => before,
        }
    }
}

/// The item `after` as expanding leaves `before`.
pub open spec fn expanded_item(before: ImplItem, after: ImplItem, view_code: Seq<TokenView>, widgets_init: Node) -> bool {
    match before {
        ImplItem::Method(method) => after matches ImplItem::Method(m) && expanded_method(
            method,
            m,
            view_code,
            widgets_init,
        ),
        _ => after == before,
    }
}

/// Expands the `view_output!` macro expression in the `init` function.
pub struct ViewOutputExpander<'errors> {
    /// Whether a `view_output!` macro expression has been successfully expanded.
    pub expanded: bool,
    /// View initialization code to inject before the view output.
    pub view_code: Vec<Token>,
    /// Widgets struct initialization.
    pub widgets_init: Node,
    pub errors: &'errors mut Vec<ParseError>,
}

impl<'errors> ViewOutputExpander<'errors> {
    pub open spec fn view(&self) -> Expansion {
        Expansion { widgets_init: self.widgets_init, expanded: self.expanded, errors: self.errors@ }
    }

    /// Expands every marker in the initializers of the impl.
    pub fn expand(
        item_impl: &mut ItemImpl,
        view_code: Vec<Token>,
        widgets_init: Node,
        errors: &'errors mut Vec<ParseError>,
    )
        ensures
            final(errors)@ == expansion_before(
                Expansion { widgets_init, expanded: false, errors: old(errors)@ },
                old(item_impl).items@,
                old(item_impl).items@.len() as int,
            ).errors,
            final(item_impl).self_ty == old(item_impl).self_ty,
            final(item_impl).items@.len() == old(item_impl).items@.len(),
            forall|k: int|
                0 <= k < old(item_impl).items@.len() ==> expanded_item(
                    old(item_impl).items@[k],
                    #[trigger] final(item_impl).items@[k],
                    tokens_view(view_code@),
                    expansion_before(
                        Expansion { widgets_init, expanded: false, errors: old(errors)@ },
                        old(item_impl).items@,
                        k,
                    ).widgets_init,
                ),
    {
        let mut expander = ViewOutputExpander { expanded: false, view_code, widgets_init, errors };
        expander.visit_item_impl_mut(item_impl);
    }

    /// Visits the items of the impl, in order.
    pub fn visit_item_impl_mut(&mut self, item_impl: &mut ItemImpl)
        ensures
            final(self)@ == expansion_before(
                old(self)@,
                old(item_impl).items@,
                old(item_impl).items@.len() as int,
            ),
            final(self).view_code == old(self).view_code,
            final(item_impl).self_ty == old(item_impl).self_ty,
            final(item_impl).items@.len() == old(item_impl).items@.len(),
            forall|k: int|
                0 <= k < old(item_impl).items@.len() ==> expanded_item(
                    old(item_impl).items@[k],
                    #[trigger] final(item_impl).items@[k],
                    tokens_view(old(self).view_code@),
                    expansion_before(old(self)@, old(item_impl).items@, k).widgets_init,
                ),
            *final(final(self).errors) == *final(old(self).errors),
    {
        let ghost start = self@;
        let ghost before = item_impl.items@;
        let ghost code = tokens_view(self.view_code@);
        let mut k: usize = 0;
        while k < item_impl.items.len()
            invariant
                k <= item_impl.items.len(),
                item_impl.items@.len() == before.len(),
                before == old(item_impl).items@,
                start == old(self)@,
                item_impl.self_ty == old(item_impl).self_ty,
                self.view_code == old(self).view_code,
                code == tokens_view(self.view_code@),
                self@ == expansion_before(start, before, k as int),
                forall|j: int|
                    0 <= j < k ==> expanded_item(
                        before[j],
                        #[trigger] item_impl.items@[j],
                        code,
                        expansion_before(start, before, j).widgets_init,
                    ),
                forall|j: int| k <= j < before.len() ==> #[trigger] item_impl.items@[j] == before[j],
                *final(self.errors) == *final(old(self).errors),
            decreases item_impl.items.len() - k,
        {
            match &mut item_impl.items[k] {
                ImplItem::Method(method) => {
                    self.visit_impl_item_method_mut(method);
                },
                _ => {},
            }
            k += 1;
        }
    }

    /// Expands the markers of an initializer; any other function stays as
    /// it is.
    pub fn visit_impl_item_method_mut(&mut self, method: &mut ImplItemMethod)
        ensures
            final(self)@ == method_step(old(self)@, *old(method)),
            final(self).view_code == old(self).view_code,
            expanded_method(
                *old(method),
                *final(method),
                tokens_view(old(self).view_code@),
                old(self).widgets_init,
            ),
            *final(final(self).errors) == *final(old(self).errors),
    {
        if spells(&method.name, "init") || spells(&method.name, "init_widgets") {
            let ghost before = method.block@;
            let ghost start = self.widgets_init;
            let ghost code = tokens_view(self.view_code@);
            let expanded_before = self.expanded;
            self.expanded = false;
            let mut i: usize = 0;
            while i < method.block.len()
                invariant
                    i <= method.block.len(),
                    method.block@.len() == before.len(),
                    before == old(method).block@,
                    start == old(self).widgets_init,
                    method.name == old(method).name,
                    method.inputs == old(method).inputs,
                    method.sig_span == old(method).sig_span,
                    method.span == old(method).span,
                    self.view_code == old(self).view_code,
                    code == tokens_view(self.view_code@),
                    self.errors@ == old(self).errors@,
                    self.widgets_init == init_at(start, before, i as int),
                    expanded_before == old(self).expanded,
                    self.expanded == any_marker(before, i as int),
                    forall|j: int|
                        0 <= j < i ==> expanded_stmt(
                            before[j],
                            #[trigger] method.block@[j],
                            code,
                            init_at(start, before, j),
                        ),
                    forall|j: int| i <= j < before.len() ==> #[trigger] method.block@[j] == before[j],
                    *final(self.errors) == *final(old(self).errors),
                decreases method.block.len() - i,
            {
                self.visit_stmt_mut(&mut method.block[i]);
                i += 1;
            }
            if !self.expanded {
                self.errors.push(ParseError::new(ErrorKind::InjectionPoint, method.span));
            }
            self.expanded = self.expanded || expanded_before;
        }
    }

    /// Expands the statement if it is a marker: the widgets' initialization
    /// takes the place of the macro call, by a swap, and the view's code goes
    /// before the statement.
    pub fn visit_stmt_mut(&mut self, stmt: &mut Node)
        ensures
            expanded_stmt(
                *old(stmt),
                *final(stmt),
                tokens_view(old(self).view_code@),
                old(self).widgets_init,
            ),
            final(self).widgets_init == if is_marker(*old(stmt)) {
                marker_init(*old(stmt))
            } else {
                old(self).widgets_init
            },
            final(self).expanded == (old(self).expanded || is_marker(*old(stmt))),
            final(self).view_code == old(self).view_code,
            final(self).errors@ == old(self).errors@,
            *final(final(self).errors) == *final(old(self).errors),
    {
        let expand = match &*stmt {
            Node::Local(Some(init), _) => match &**init {
                Node::Macro(Some(name), _) => spells(name, "view_output"),
                _ => false,
            },
            _ => false,
        };
        if expand {
            let mut taken = Node::Verbatim(Vec::new());
            std::mem::swap(stmt, &mut taken);
            match taken {
                Node::Local(Some(init), span) => {
                    let mut expr = *init;
                    // Replace the macro invocation with the widget initialization code.
                    // Perform the swap in-place to avoid a clone.
                    std::mem::swap(&mut expr, &mut self.widgets_init);
                    *stmt = Node::Injected(
                        clone_tokens(&self.view_code),
                        Box::new(Node::Local(Some(Box::new(expr)), span)),
                    );
                    self.expanded = true;
                },
                _ => {},
            }
        }
    }
}

} // verus!
