use crate::names::{setter, setter_name};
use crate::tokens::{
    clone_tokens, extend, group_token_views, group_view, ident_view, punct_view, tokens_view,
    Delimiter, Token, TokenView,
};
use crate::widgets::{
    group_widget_views, if_branches_view, lemma_unfold_returned, lemma_unfold_widget,
    match_arms_view, opt_tokens_view, AssignProperty, AssignPropertyAttr, AssignPropertyView,
    ConditionalBranches, ConditionalBranchesView, ConditionalWidget, ConditionalWidgetView, Ident,
    IdentView, IfBranchView, MatchArmView, Properties, Property, PropertyName, PropertyNameView,
    PropertyType, PropertyTypeView, PropertyView, ReturnedWidget, ReturnedWidgetView, Widget,
    WidgetTemplateAttr, WidgetView,
};
use crate::widgets::generate::{
    extend_opt, ident_token, push_group, push_ident, push_name, push_punct, span_of_tokens,
    tokens_span,
};
use crate::widgets::parse::widget_func::path_span;
use vstd::prelude::*;

verus! {

pub open spec fn no_tokens() -> Seq<TokenView> {
    Seq::<TokenView>::empty()
}

pub open spec fn opt_tokens(o: Option<Seq<TokenView>>) -> Seq<TokenView> {
    match o {
        Some(ts) => ts,
        None => no_tokens(),
    }
}

/// The span of a property's name.
pub open spec fn spec_name_span(n: PropertyNameView) -> usize {
    match n {
        PropertyNameView::Ident(i) => i.span,
        PropertyNameView::Path(p) => path_span(p),
        PropertyNameView::RelmContainerExtAssign(s) => s,
    }
}

/// The function that hands a value to the widget `w`: the method of the
/// property's name, the path itself, or `container_add`.
pub open spec fn spec_assign_fn(n: PropertyNameView, w: IdentView) -> Seq<TokenView> {
    match n {
        PropertyNameView::Ident(i) => seq![
            ident_token(w),
            punct_view('.', false, 0),
            ident_token(i),
        ],
        PropertyNameView::Path(p) => p.tokens,
        PropertyNameView::RelmContainerExtAssign(s) => seq![
            ident_token(w),
            punct_view('.', false, s),
            ident_view("container_add"@, s),
        ],
    }
}

/// The function that assigns a value to a property of the widget `w`: the
/// setter of the property's name, the path itself, or `container_add`.
pub open spec fn spec_setter_fn(n: PropertyNameView, w: IdentView) -> Seq<TokenView> {
    match n {
        PropertyNameView::Ident(i) => seq![
            ident_token(w),
            punct_view('.', false, 0),
            ident_view(setter_name(i.name), i.span),
        ],
        PropertyNameView::Path(p) => p.tokens,
        PropertyNameView::RelmContainerExtAssign(s) => seq![
            ident_token(w),
            punct_view('.', false, s),
            ident_view("container_add"@, s),
        ],
    }
}

/// The first argument where the function is a path: `&w,`.
pub open spec fn spec_assign_args(n: PropertyNameView, w: IdentView) -> Option<Seq<TokenView>> {
    match n {
        PropertyNameView::Path(_) => Some(
            seq![punct_view('&', false, w.span), ident_token(w), punct_view(',', false, w.span)],
        ),
        _ => None,
    }
}

/// Further arguments behind a comma.
pub open spec fn spec_extra_args(args: Option<Seq<TokenView>>) -> Seq<TokenView> {
    match args {
        Some(a) => seq![punct_view(',', false, tokens_span(a))] + a,
        None => no_tokens(),
    }
}

/// How a widget is handed to its parent: its name, behind `&` and `*` where
/// they were given, inside the wrapper's call where there is one.
pub open spec fn spec_widget_assignment(w: WidgetView) -> Seq<TokenView> {
    let plain = (match w.ref_token {
        Some(s) => seq![punct_view('&', false, s)],
        None => no_tokens(),
    } + match w.deref_token {
        Some(s) => seq![punct_view('*', false, s)],
        None => no_tokens(),
    }).push(ident_token(w.name));
    match w.assign_wrapper {
        Some(p) => p.tokens.push(group_view(Delimiter::Parenthesis, plain, 0)),
        None => plain,
    }
}

/// The binding of a returned widget: `let name`, with `: type` where one was
/// given.
pub open spec fn spec_return_assign(r: ReturnedWidgetView) -> Seq<TokenView> {
    seq![ident_view("let"@, 0), ident_token(r.name)] + match r.ty {
        Some(ty) => seq![punct_view(':', false, 0)] + ty.tokens,
        None => no_tokens(),
    }
}

/// `.unwrap()`
pub open spec fn spec_unwrap() -> Seq<TokenView> {
    seq![
        punct_view('.', false, 0),
        ident_view("unwrap"@, 0),
        group_view(Delimiter::Parenthesis, no_tokens(), 0),
    ]
}

/// The call `function(arguments)`, its parentheses spanned at `span`.
pub open spec fn spec_call(function: Seq<TokenView>, arguments: Seq<TokenView>, span: usize) -> Seq<
    TokenView,
> {
    function.push(group_view(Delimiter::Parenthesis, arguments, span))
}

/// The statement that hands the widget `w` to its parent `w_name` through
/// the property `p_name`. Where the call returns a second widget, the
/// statement binds it, and unwraps it where it is optional.
pub open spec fn spec_widget_statement(w: WidgetView, p_name: PropertyNameView, w_name: IdentView) -> Seq<
    TokenView,
> {
    let span = spec_name_span(p_name);
    let call = spec_call(
        spec_assign_fn(p_name, w_name),
        opt_tokens(spec_assign_args(p_name, w_name)) + spec_widget_assignment(w) + spec_extra_args(
            w.args,
        ),
        span,
    );
    match w.returned_widget {
        Some(r) => (spec_return_assign(r).push(punct_view('=', false, span)) + call + if r.is_optional {
            spec_unwrap()
        } else {
            no_tokens()
        }).push(punct_view(';', false, span)),
        None => call.push(punct_view(';', false, span)),
    }
}

/// The statement that assigns the value of `a` to the property `p_name` of
/// the widget `w_name`.
pub open spec fn spec_assign_statement(a: AssignPropertyView, p_name: PropertyNameView, w_name: IdentView) -> Seq<
    TokenView,
> {
    let span = spec_name_span(p_name);
    spec_call(
        spec_setter_fn(p_name, w_name),
        opt_tokens(spec_assign_args(p_name, w_name)) + a.expr + spec_extra_args(a.args),
        span,
    ).push(punct_view(';', false, span))
}

/// What an assignment adds to the assignments: its statement, unless the
/// widget stands in a conditional branch and the assignment is watched or
/// tracked.
pub open spec fn spec_conditional_assign_statement(
    a: AssignPropertyView,
    p_name: PropertyNameView,
    w_name: IdentView,
    is_conditional: bool,
) -> Seq<TokenView> {
    if !is_conditional || a.attr is Unset {
        spec_assign_statement(a, p_name, w_name)
    } else {
        no_tokens()
    }
}

/// The property through which a conditional widget takes in a branch.
pub open spec fn add_named(span: usize) -> PropertyNameView {
    PropertyNameView::Ident(IdentView { name: "add_named"@, span })
}

/// The statement that hands a conditional widget to its parent.
pub open spec fn spec_conditional_statement(c: ConditionalWidgetView, p_name: PropertyNameView, w_name: IdentView) -> Seq<
    TokenView,
> {
    let span = spec_name_span(p_name);
    let by_ref = seq![punct_view('&', false, 0), ident_token(c.name)];
    spec_call(
        spec_assign_fn(p_name, w_name),
        opt_tokens(spec_assign_args(p_name, w_name)) + match c.assign_wrapper {
            Some(p) => p.tokens.push(group_view(Delimiter::Parenthesis, by_ref, 0)),
            None => by_ref,
        } + spec_extra_args(c.args),
        span,
    ).push(punct_view(';', false, span))
}

/// The assignments of a widget: the statement that hands it to its parent,
/// unless it is a template's child, then the assignments of its properties
/// and of its returned widget's properties.
#[verifier::opaque]
pub open spec fn spec_widget_assign(w: WidgetView, p_name: PropertyNameView, w_name: IdentView, is_conditional: bool) -> Seq<
    TokenView,
>
    decreases w, 0nat,
{
    (if w.template_attr != WidgetTemplateAttr::TemplateChild {
        spec_widget_statement(w, p_name, w_name)
    } else {
        no_tokens()
    }) + spec_properties_assign(w.properties, 0, w.name, is_conditional) + match w.returned_widget {
        Some(r) => spec_properties_assign(r.properties, 0, r.name, is_conditional),
        None => no_tokens(),
    }
}

/// The assignments of the properties from `from` on, in order.
#[verifier::opaque]
pub open spec fn spec_properties_assign(props: Seq<PropertyView>, from: int, w_name: IdentView, is_conditional: bool) -> Seq<
    TokenView,
>
    decreases props, props.len() - from,
{
    if 0 <= from < props.len() {
        spec_property_assign(props[from], w_name, is_conditional) + spec_properties_assign(
            props,
            from + 1,
            w_name,
            is_conditional,
        )
    } else {
        no_tokens()
    }
}

/// The assignments of one property; a signal handler and an error have
/// none.
#[verifier::opaque]
pub open spec fn spec_property_assign(p: PropertyView, w_name: IdentView, is_conditional: bool) -> Seq<
    TokenView,
>
    decreases p, 0nat,
{
    match p.ty {
        PropertyTypeView::Assign(a) => spec_conditional_assign_statement(
            a,
            p.name,
            w_name,
            is_conditional,
        ),
        PropertyTypeView::Widget(w) => spec_widget_assign(*w, p.name, w_name, is_conditional),
        PropertyTypeView::ConditionalWidget(c) => spec_conditional_assign(c, p.name, w_name),
        _ => no_tokens(),
    }
}

/// The assignments of a conditional widget: the statement that hands it to
/// its parent, then the assignments of each branch's widget, which the
/// conditional widget takes in by name.
#[verifier::opaque]
pub open spec fn spec_conditional_assign(c: ConditionalWidgetView, p_name: PropertyNameView, w_name: IdentView) -> Seq<
    TokenView,
>
    decreases c, 0nat,
{
    spec_conditional_statement(c, p_name, w_name) + match c.branches {
        ConditionalBranchesView::If(bs) => spec_branches_assign(
            bs,
            0,
            spec_name_span(p_name),
            c.name,
        ),
        ConditionalBranchesView::Match(_, _, arms) => spec_arms_assign(
            arms,
            0,
            spec_name_span(p_name),
            c.name,
        ),
    }
}

#[verifier::opaque]
pub open spec fn spec_branches_assign(bs: Seq<IfBranchView>, from: int, span: usize, c_name: IdentView) -> Seq<
    TokenView,
>
    decreases bs, bs.len() - from,
{
    if 0 <= from < bs.len() {
        spec_widget_assign(bs[from].widget, add_named(span), c_name, true) + spec_branches_assign(
            bs,
            from + 1,
            span,
            c_name,
        )
    } else {
        no_tokens()
    }
}

#[verifier::opaque]
pub open spec fn spec_arms_assign(arms: Seq<MatchArmView>, from: int, span: usize, c_name: IdentView) -> Seq<
    TokenView,
>
    decreases arms, arms.len() - from,
{
    if 0 <= from < arms.len() {
        spec_widget_assign(arms[from].widget, add_named(span), c_name, true) + spec_arms_assign(
            arms,
            from + 1,
            span,
            c_name,
        )
    } else {
        no_tokens()
    }
}

impl PropertyName {
    pub fn span(&self) -> (s: usize)
        ensures
            s == spec_name_span(self@),
    {
        match self {
            PropertyName::Ident(i) => i.span,
            PropertyName::Path(p) => p.span(),
            PropertyName::RelmContainerExtAssign(s) => *s,
        }
    }

    /// The function that hands a value to the widget `w_name`.
    pub fn assign_fn_stream(&self, w_name: &Ident) -> (out: Vec<Token>)
        ensures
            tokens_view(out@) == spec_assign_fn(self@, w_name@),
    {
        broadcast use group_token_views;

        match self {
            PropertyName::Ident(ident) => {
                let mut out: Vec<Token> = Vec::new();
                push_name(&mut out, w_name);
                push_punct(&mut out, '.', false, 0);
                push_name(&mut out, ident);
                proof {
                    assert(tokens_view(out@) =~= spec_assign_fn(self@, w_name@));
                }
                out
            },
            PropertyName::Path(path) => clone_tokens(&path.tokens),
            PropertyName::RelmContainerExtAssign(span) => {
                let mut out: Vec<Token> = Vec::new();
                push_name(&mut out, w_name);
                push_punct(&mut out, '.', false, *span);
                push_ident(&mut out, "container_add", *span);
                proof {
                    assert(tokens_view(out@) =~= spec_assign_fn(self@, w_name@));
                }
                out
            },
        }
    }

    /// The function that assigns a value to a property of the widget
    /// `w_name`.
    pub fn setter_fn_stream(&self, w_name: &Ident) -> (out: Vec<Token>)
        ensures
            tokens_view(out@) == spec_setter_fn(self@, w_name@),
    {
        broadcast use group_token_views;

        match self {
            PropertyName::Ident(ident) => {
                let setter = setter(&ident.name);
                let mut out: Vec<Token> = Vec::new();
                push_name(&mut out, w_name);
                push_punct(&mut out, '.', false, 0);
                push_ident(&mut out, setter.as_str(), ident.span);
                proof {
                    assert(tokens_view(out@) =~= spec_setter_fn(self@, w_name@));
                }
                out
            },
            PropertyName::Path(path) => clone_tokens(&path.tokens),
            PropertyName::RelmContainerExtAssign(span) => {
                let mut out: Vec<Token> = Vec::new();
                push_name(&mut out, w_name);
                push_punct(&mut out, '.', false, *span);
                push_ident(&mut out, "container_add", *span);
                proof {
                    assert(tokens_view(out@) =~= spec_setter_fn(self@, w_name@));
                }
                out
            },
        }
    }

    /// The first argument where the function is a path.
    pub fn assign_args_stream(&self, w_name: &Ident) -> (out: Option<Vec<Token>>)
        ensures
            opt_tokens_view(out) == spec_assign_args(self@, w_name@),
    {
        broadcast use group_token_views;

        match self {
            PropertyName::Path(_) => {
                let mut out: Vec<Token> = Vec::new();
                push_punct(&mut out, '&', false, w_name.span);
                push_name(&mut out, w_name);
                push_punct(&mut out, ',', false, w_name.span);
                proof {
                    assert(tokens_view(out@) =~= spec_assign_args(self@, w_name@)->0);
                }
                Some(out)
            },
            _ => None,
        }
    }
}

/// Further arguments behind a comma.
pub fn extra_args(args: &Option<Vec<Token>>) -> (out: Vec<Token>)
    ensures
        tokens_view(out@) == spec_extra_args(opt_tokens_view(*args)),
{
    broadcast use group_token_views;

    let mut out: Vec<Token> = Vec::new();
    match args {
        Some(a) => {
            push_punct(&mut out, ',', false, span_of_tokens(a));
            extend(&mut out, a);
            proof {
                assert(tokens_view(out@) =~= spec_extra_args(Some(tokens_view(a@))));
            }
        },
        None => {},
    }
    out
}

/// The call `function(arguments)`.
pub fn call(function: Vec<Token>, arguments: Vec<Token>, span: usize) -> (out: Vec<Token>)
    ensures
        tokens_view(out@) == spec_call(tokens_view(function@), tokens_view(arguments@), span),
{
    let mut out = function;
    push_group(&mut out, Delimiter::Parenthesis, arguments, span);
    out
}

impl ReturnedWidget {
    /// The binding of the returned widget.
    pub fn return_assign_tokens(&self) -> (out: Vec<Token>)
        ensures
            tokens_view(out@) == spec_return_assign(self@),
    {
        broadcast use group_token_views;
        broadcast use group_widget_views;

        let mut out: Vec<Token> = Vec::new();
        push_ident(&mut out, "let", 0);
        push_name(&mut out, &self.name);
        match &self.ty {
            Some(ty) => {
                push_punct(&mut out, ':', false, 0);
                extend(&mut out, &ty.tokens);
            },
            None => {},
        }
        proof {
            assert(tokens_view(out@) =~= spec_return_assign(self@));
        }
        out
    }
}

impl Widget {
    /// How the widget is handed to its parent.
    pub fn widget_assignment(&self) -> (out: Vec<Token>)
        ensures
            tokens_view(out@) == spec_widget_assignment(self@),
    {
        broadcast use group_token_views;
        broadcast use group_widget_views;

        let mut plain: Vec<Token> = Vec::new();
        match self.ref_token {
            Some(s) => {
                push_punct(&mut plain, '&', false, s);
            },
            None => {},
        }
        match self.deref_token {
            Some(s) => {
                push_punct(&mut plain, '*', false, s);
            },
            None => {},
        }
        push_name(&mut plain, &self.name);
        proof {
            assert(tokens_view(plain@) =~= (match self@.ref_token {
                Some(s) => seq![punct_view('&', false, s)],
                None => no_tokens(),
            } + match self@.deref_token {
                Some(s) => seq![punct_view('*', false, s)],
                None => no_tokens(),
            }).push(ident_token(self@.name)));
        }
        match &self.assign_wrapper {
            Some(wrapper) => {
                let mut out = clone_tokens(&wrapper.tokens);
                push_group(&mut out, Delimiter::Parenthesis, plain, 0);
                out
            },
            None => plain,
        }
    }

    /// The statement that hands the widget to its parent.
    pub fn assign_statement(&self, p_name: &PropertyName, w_name: &Ident) -> (out: Vec<Token>)
        ensures
            tokens_view(out@) == spec_widget_statement(self@, p_name@, w_name@),
    {
        broadcast use group_token_views;
        broadcast use group_widget_views;

        let assign_fn = p_name.assign_fn_stream(w_name);
        let self_assign_args = p_name.assign_args_stream(w_name);
        let assign = self.widget_assignment();
        let span = p_name.span();
        let args = extra_args(&self.args);
        let mut arguments: Vec<Token> = Vec::new();
        extend_opt(&mut arguments, &self_assign_args);
        extend(&mut arguments, &assign);
        extend(&mut arguments, &args);
        proof {
            assert(tokens_view(arguments@) =~= opt_tokens(spec_assign_args(p_name@, w_name@))
                + spec_widget_assignment(self@) + spec_extra_args(self@.args));
        }
        let called = call(assign_fn, arguments, span);
        match &self.returned_widget {
            Some(ret_widget) => {
                let mut out = ret_widget.return_assign_tokens();
                push_punct(&mut out, '=', false, span);
                extend(&mut out, &called);
                if ret_widget.is_optional {
                    push_punct(&mut out, '.', false, 0);
                    push_ident(&mut out, "unwrap", 0);
                    push_group(&mut out, Delimiter::Parenthesis, Vec::new(), 0);
                }
                push_punct(&mut out, ';', false, span);
                proof {
                    let r = self@.returned_widget->0;
                    assert(ret_widget@ == r);
                    assert(tokens_view(out@) =~= (spec_return_assign(r).push(
                        punct_view('=', false, span),
                    ) + tokens_view(called@) + if r.is_optional {
                        spec_unwrap()
                    } else {
                        no_tokens()
                    }).push(punct_view(';', false, span)));
                }
                out
            },
            None => {
                let mut out = called;
                push_punct(&mut out, ';', false, span);
                out
            },
        }
    }

    /// Starts the assignments at the top of a view.
    pub fn start_assign_stream(&self, stream: &mut Vec<Token>)
        ensures
            tokens_view(final(stream)@) == tokens_view(old(stream)@) + spec_properties_assign(
                self@.properties,
                0,
                self@.name,
                false,
            ),
    {
        broadcast use group_widget_views;

        self.properties.assign_stream(stream, &self.name, false);
    }

    /// Appends the assignments of the widget to `stream`.
    pub fn assign_stream(
        &self,
        stream: &mut Vec<Token>,
        p_name: &PropertyName,
        w_name: &Ident,
        is_conditional: bool,
    )
        ensures
            tokens_view(final(stream)@) == tokens_view(old(stream)@) + spec_widget_assign(
                self@,
                p_name@,
                w_name@,
                is_conditional,
            ),
        decreases self, 0nat,
    {
        proof {
            reveal(spec_widget_assign);
            reveal(spec_properties_assign);
            lemma_unfold_widget(*self);
        }
        let ghost start = tokens_view(stream@);
        // Template children are already assigned by the template.
        if self.template_attr != WidgetTemplateAttr::TemplateChild {
            let statement = self.assign_statement(p_name, w_name);
            extend(stream, &statement);
        }
        let ghost first = tokens_view(stream@);
        // Recursively generate code for properties
        self.properties.assign_stream(stream, &self.name, is_conditional);
        let ghost second = tokens_view(stream@);
        match &self.returned_widget {
            Some(returned_widget) => {
                proof {
                    lemma_unfold_returned(*returned_widget);
                }
                returned_widget.properties.assign_stream(
                    stream,
                    &returned_widget.name,
                    is_conditional,
                );
            },
            None => {},
        }
        proof {
            let statement = if self@.template_attr != WidgetTemplateAttr::TemplateChild {
                spec_widget_statement(self@, p_name@, w_name@)
            } else {
                no_tokens()
            };
            let props = spec_properties_assign(self@.properties, 0, self@.name, is_conditional);
            let returned = match self@.returned_widget {
                Some(r) => spec_properties_assign(r.properties, 0, r.name, is_conditional),
                None => no_tokens(),
            };
            assert(first =~= start + statement);
            assert(second == first + props);
            assert(tokens_view(stream@) =~= second + returned);
            assert(tokens_view(stream@) =~= start + (statement + props + returned));
        }
    }
}

impl AssignProperty {
    /// The statement that assigns the value.
    pub fn assign_statement(&self, p_name: &PropertyName, w_name: &Ident) -> (out: Vec<Token>)
        ensures
            tokens_view(out@) == spec_assign_statement(self@, p_name@, w_name@),
    {
        broadcast use group_token_views;

        let setter = p_name.setter_fn_stream(w_name);
        let self_assign_args = p_name.assign_args_stream(w_name);
        let span = p_name.span();
        let args = extra_args(&self.args);
        let mut arguments: Vec<Token> = Vec::new();
        extend_opt(&mut arguments, &self_assign_args);
        extend(&mut arguments, &self.expr);
        extend(&mut arguments, &args);
        proof {
            assert(tokens_view(arguments@) =~= opt_tokens(spec_assign_args(p_name@, w_name@))
                + self@.expr + spec_extra_args(self@.args));
        }
        let mut out = call(setter, arguments, span);
        push_punct(&mut out, ';', false, span);
        out
    }

    /// Appends the statement that assigns the value to `stream`.
    pub fn assign_stream(&self, stream: &mut Vec<Token>, p_name: &PropertyName, w_name: &Ident)
        ensures
            tokens_view(final(stream)@) == tokens_view(old(stream)@) + spec_assign_statement(
                self@,
                p_name@,
                w_name@,
            ),
    {
        let statement = self.assign_statement(p_name, w_name);
        extend(stream, &statement);
    }

    /// Appends what the assignment adds to the assignments.
    pub fn conditional_assign_stream(
        &self,
        stream: &mut Vec<Token>,
        p_name: &PropertyName,
        w_name: &Ident,
        is_conditional: bool,
    )
        ensures
            tokens_view(final(stream)@) == tokens_view(old(stream)@)
                + spec_conditional_assign_statement(self@, p_name@, w_name@, is_conditional),
    {
        let unset = match &self.attr {
            AssignPropertyAttr::Unset => true,
            _ => false,
        };
        if !is_conditional || unset {
            self.assign_stream(stream, p_name, w_name);
        } else {
            proof {
                assert(tokens_view(stream@) =~= tokens_view(stream@) + no_tokens());
            }
        }
    }
}

impl Properties {
    /// Appends the assignments of the properties, in order.
    pub fn assign_stream(&self, stream: &mut Vec<Token>, w_name: &Ident, is_conditional: bool)
        ensures
            tokens_view(final(stream)@) == tokens_view(old(stream)@) + spec_properties_assign(
                self@,
                0,
                w_name@,
                is_conditional,
            ),
        decreases self, 1nat,
    {
        broadcast use group_widget_views;

        let ghost all = self@;
        let ghost start = tokens_view(stream@);
        let mut i: usize = 0;
        proof {
            assert(start =~= start + no_tokens());
        }
        while i < self.properties.len()
            invariant
                i <= self.properties.len(),
                all == self@,
                start == tokens_view(old(stream)@),
                tokens_view(stream@) + spec_properties_assign(all, i as int, w_name@, is_conditional)
                    == start + spec_properties_assign(all, 0, w_name@, is_conditional),
            decreases self.properties.len() - i,
        {
            proof {
                reveal(spec_properties_assign);
                reveal(spec_property_assign);
                assert(all[i as int] == self.properties@[i as int]@);
            }
            let ghost before = tokens_view(stream@);
            self.properties[i].assign_stream(stream, w_name, is_conditional);
            proof {
                let one = spec_property_assign(all[i as int], w_name@, is_conditional);
                let rest = spec_properties_assign(all, i + 1, w_name@, is_conditional);
                assert(before + (one + rest) =~= (before + one) + rest);
            }
            i += 1;
        }
        proof {
            reveal(spec_properties_assign);
            assert(tokens_view(stream@) + no_tokens() =~= tokens_view(stream@));
        }
    }
}

impl Property {
    /// Appends the assignments of the property.
    pub fn assign_stream(&self, stream: &mut Vec<Token>, w_name: &Ident, is_conditional: bool)
        ensures
            tokens_view(final(stream)@) == tokens_view(old(stream)@) + spec_property_assign(
                self@,
                w_name@,
                is_conditional,
            ),
        decreases self, 0nat,
    {
        broadcast use group_widget_views;

        proof {
            reveal(spec_property_assign);
            reveal(spec_widget_assign);
            reveal(spec_conditional_assign);
        }
        match &self.ty {
            PropertyType::Assign(assign) => {
                assign.conditional_assign_stream(stream, &self.name, w_name, is_conditional);
            },
            PropertyType::Widget(widget) => {
                widget.assign_stream(stream, &self.name, w_name, is_conditional);
            },
            PropertyType::ConditionalWidget(cond_widget) => {
                cond_widget.assign_stream(stream, &self.name, w_name);
            },
            PropertyType::ParseError(_) | PropertyType::SignalHandler(_) => {
                proof {
                    assert(tokens_view(stream@) =~= tokens_view(stream@) + no_tokens());
                }
            },
        }
    }
}

impl ConditionalWidget {
    /// The statement that hands the conditional widget to its parent.
    pub fn assign_statement(&self, p_name: &PropertyName, w_name: &Ident) -> (out: Vec<Token>)
        ensures
            tokens_view(out@) == spec_conditional_statement(self@, p_name@, w_name@),
    {
        broadcast use group_token_views;
        broadcast use group_widget_views;

        let assign_fn = p_name.assign_fn_stream(w_name);
        let self_assign_args = p_name.assign_args_stream(w_name);
        let span = p_name.span();
        let args = extra_args(&self.args);
        let mut by_ref: Vec<Token> = Vec::new();
        push_punct(&mut by_ref, '&', false, 0);
        push_name(&mut by_ref, &self.name);
        proof {
            assert(tokens_view(by_ref@) =~= seq![
                punct_view('&', false, 0),
                ident_token(self@.name),
            ]);
        }
        let assign = match &self.assign_wrapper {
            Some(wrapper) => {
                let mut wrapped = clone_tokens(&wrapper.tokens);
                push_group(&mut wrapped, Delimiter::Parenthesis, by_ref, 0);
                wrapped
            },
            None => by_ref,
        };
        let mut arguments: Vec<Token> = Vec::new();
        extend_opt(&mut arguments, &self_assign_args);
        extend(&mut arguments, &assign);
        extend(&mut arguments, &args);
        proof {
            assert(tokens_view(arguments@) =~= opt_tokens(spec_assign_args(p_name@, w_name@))
                + tokens_view(assign@) + spec_extra_args(self@.args));
        }
        let mut out = call(assign_fn, arguments, span);
        push_punct(&mut out, ';', false, span);
        out
    }

    /// Appends the assignments of the conditional widget.
    pub fn assign_stream(&self, stream: &mut Vec<Token>, p_name: &PropertyName, w_name: &Ident)
        ensures
            tokens_view(final(stream)@) == tokens_view(old(stream)@) + spec_conditional_assign(
                self@,
                p_name@,
                w_name@,
            ),
        decreases self, 0nat,
    {
        broadcast use group_token_views;
        broadcast use group_widget_views;

        proof {
            reveal(spec_conditional_assign);
        }
        let statement = self.assign_statement(p_name, w_name);
        extend(stream, &statement);
        let span = p_name.span();
        let branch_name = PropertyName::Ident(
            Ident { name: String::from_str("add_named"), span },
        );
        let ghost head = tokens_view(stream@);
        match &self.branches {
            ConditionalBranches::If(if_branches) => {
                let ghost bs = if_branches_view(if_branches@);
                let mut i: usize = 0;
                proof {
                    assert(head =~= head + no_tokens());
                }
                while i < if_branches.len()
                    invariant
                        i <= if_branches.len(),
                        bs == if_branches_view(if_branches@),
                        branch_name@ == add_named(span),
                        self.branches matches ConditionalBranches::If(b) && b == *if_branches,
                        tokens_view(stream@) + spec_branches_assign(bs, i as int, span, self.name@)
                            == head + spec_branches_assign(bs, 0, span, self.name@),
                    decreases if_branches.len() - i,
                {
                    proof {
                        reveal(spec_branches_assign);
                        reveal(spec_widget_assign);
                        assert(bs[i as int] == if_branches@[i as int]@);
                    }
                    let ghost before = tokens_view(stream@);
                    if_branches[i].widget.assign_stream(stream, &branch_name, &self.name, true);
                    proof {
                        let one = spec_widget_assign(
                            bs[i as int].widget,
                            add_named(span),
                            self.name@,
                            true,
                        );
                        let rest = spec_branches_assign(bs, i + 1, span, self.name@);
                        assert(before + (one + rest) =~= (before + one) + rest);
                    }
                    i += 1;
                }
                proof {
                    reveal(spec_branches_assign);
                    assert(tokens_view(stream@) + no_tokens() =~= tokens_view(stream@));
                    assert(tokens_view(stream@) =~= tokens_view(old(stream)@)
                        + spec_conditional_assign(self@, p_name@, w_name@));
                }
            },
            ConditionalBranches::Match(_, _, match_arms) => {
                let ghost arms = match_arms_view(match_arms@);
                let mut i: usize = 0;
                proof {
                    assert(head =~= head + no_tokens());
                }
                while i < match_arms.len()
                    invariant
                        i <= match_arms.len(),
                        arms == match_arms_view(match_arms@),
                        branch_name@ == add_named(span),
                        self.branches matches ConditionalBranches::Match(_, _, a) && a
                            == *match_arms,
                        tokens_view(stream@) + spec_arms_assign(arms, i as int, span, self.name@)
                            == head + spec_arms_assign(arms, 0, span, self.name@),
                    decreases match_arms.len() - i,
                {
                    proof {
                        reveal(spec_arms_assign);
                        reveal(spec_widget_assign);
                        assert(arms[i as int] == match_arms@[i as int]@);
                    }
                    let ghost before = tokens_view(stream@);
                    match_arms[i].widget.assign_stream(stream, &branch_name, &self.name, true);
                    proof {
                        let one = spec_widget_assign(
                            arms[i as int].widget,
                            add_named(span),
                            self.name@,
                            true,
                        );
                        let rest = spec_arms_assign(arms, i + 1, span, self.name@);
                        assert(before + (one + rest) =~= (before + one) + rest);
                    }
                    i += 1;
                }
                proof {
                    reveal(spec_arms_assign);
                    assert(tokens_view(stream@) + no_tokens() =~= tokens_view(stream@));
                    assert(tokens_view(stream@) =~= tokens_view(old(stream)@)
                        + spec_conditional_assign(self@, p_name@, w_name@));
                }
            },
        }
    }
}

} // verus!
