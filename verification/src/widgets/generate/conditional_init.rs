use crate::error::quoted;
use crate::names::{decimal, decimal_string};
use crate::tokens::{
    extend, group_token_views, group_view, ident_view, lemma_view_push, literal_view, punct_view,
    tokens_view, Delimiter, Token, TokenView,
};
use crate::widgets::{
    group_widget_views, if_branches_view, lemma_unfold_returned, lemma_unfold_widget,
    match_arms_view, AssignProperty, AssignPropertyAttr, AssignPropertyAttrView, AssignPropertyView,
    ConditionalBranches, ConditionalBranchesView, ConditionalWidget, ConditionalWidgetView, Ident,
    IdentView, IfBranch, IfBranchView, IfCondition, IfConditionView, MatchArm, MatchArmView,
    Properties, Property, PropertyName, PropertyNameView, PropertyType, PropertyTypeView,
    PropertyView, ReturnedWidget, Widget, WidgetView,
};
use crate::widgets::generate::{
    ident_token, push_group, push_ident, push_name, push_punct, span_of_tokens, tokens_span,
};
use crate::widgets::generate::assign::{no_tokens, spec_assign_statement};
use vstd::prelude::*;

verus! {

/// `body` behind its guard: `if`, the model's name where it is asked for,
/// the guard, and the body in braces.
pub open spec fn spec_tracked(guard: Seq<TokenView>, paste_model: bool, model_name: IdentView, body: Seq<TokenView>) -> Seq<
    TokenView,
> {
    let span = tokens_span(guard);
    (seq![ident_view("if"@, span)] + if paste_model {
        seq![ident_token(model_name)]
    } else {
        no_tokens()
    } + guard).push(group_view(Delimiter::Brace, body, span))
}

/// What an assignment does each time its conditional branch is chosen:
/// nothing outside a conditional branch, and nothing where it is neither
/// watched nor tracked; a watched one is made again; a tracked one is made
/// again behind its guard.
pub open spec fn spec_assign_conditional_init(
    a: AssignPropertyView,
    p_name: PropertyNameView,
    w_name: IdentView,
    model_name: IdentView,
    is_conditional: bool,
) -> Seq<TokenView> {
    if is_conditional {
        match a.attr {
            AssignPropertyAttrView::Unset => no_tokens(),
            AssignPropertyAttrView::Watch => spec_assign_statement(a, p_name, w_name),
            AssignPropertyAttrView::Track(guard, paste_model) => spec_tracked(
                guard,
                paste_model,
                model_name,
                spec_assign_statement(a, p_name, w_name),
            ),
        }
    } else {
        no_tokens()
    }
}

/// The string literal that names the branch `index`.
pub open spec fn index_literal(index: nat) -> TokenView {
    literal_view(quoted(decimal(index)), 0)
}

/// The keywords and the condition before a branch's block.
pub open spec fn spec_condition(c: IfConditionView) -> Seq<TokenView> {
    match c {
        IfConditionView::If(s, expr) => seq![ident_view("if"@, s)] + expr,
        IfConditionView::ElseIf(e, s, expr) => seq![ident_view("else"@, e), ident_view("if"@, s)]
            + expr,
        IfConditionView::Else(e) => seq![ident_view("else"@, e)],
    }
}

/// One branch of the chain that names the visible child: the branch's head
/// and a block that runs `inner` and then yields the branch's name.
pub open spec fn spec_update(c: IfConditionView, inner: Seq<TokenView>, index: nat) -> Seq<TokenView> {
    spec_condition(c).push(group_view(Delimiter::Brace, inner.push(index_literal(index)), 0))
}

/// One arm of the `match` that names the visible child: pattern, guard and
/// arrow as they were written, a block that runs `inner` and then yields the
/// arm's name, and a comma.
pub open spec fn spec_arm(a: MatchArmView, inner: Seq<TokenView>, index: nat) -> Seq<TokenView> {
    (a.pattern + match a.guard {
        Some((s, expr)) => seq![ident_view("if"@, s)] + expr,
        None => no_tokens(),
    } + seq![punct_view('=', true, a.arrow), punct_view('>', false, a.arrow)]).push(
        group_view(Delimiter::Brace, inner.push(index_literal(index)), 0),
    ).push(punct_view(',', false, 0))
}

/// The statements that make a conditional widget show the child that its
/// branches name.
pub open spec fn spec_switch(name: IdentView, branches: Seq<TokenView>) -> Seq<TokenView> {
    seq![
        ident_view("let"@, 0),
        ident_view("__current_page"@, 0),
        punct_view('=', false, 0),
        literal_view("\"\""@, 0),
        punct_view(';', false, 0),
        ident_token(name),
        punct_view('.', false, 0),
        ident_view("set_visible_child_name"@, 0),
        group_view(Delimiter::Parenthesis, branches, 0),
        punct_view(';', false, 0),
    ]
}

#[verifier::opaque]
pub open spec fn spec_widget_conditional_init(w: WidgetView, model_name: IdentView, is_conditional: bool) -> Seq<
    TokenView,
>
    decreases w, 0nat,
{
    spec_properties_conditional_init(w.properties, 0, w.name, model_name, is_conditional)
        + match w.returned_widget {
        Some(r) => spec_properties_conditional_init(
            r.properties,
            0,
            r.name,
            model_name,
            is_conditional,
        ),
        None => no_tokens(),
    }
}

#[verifier::opaque]
pub open spec fn spec_properties_conditional_init(
    props: Seq<PropertyView>,
    from: int,
    w_name: IdentView,
    model_name: IdentView,
    is_conditional: bool,
) -> Seq<TokenView>
    decreases props, props.len() - from,
{
    if 0 <= from < props.len() {
        spec_property_conditional_init(props[from], w_name, model_name, is_conditional)
            + spec_properties_conditional_init(props, from + 1, w_name, model_name, is_conditional)
    } else {
        no_tokens()
    }
}

#[verifier::opaque]
pub open spec fn spec_property_conditional_init(
    p: PropertyView,
    w_name: IdentView,
    model_name: IdentView,
    is_conditional: bool,
) -> Seq<TokenView>
    decreases p, 0nat,
{
    match p.ty {
        PropertyTypeView::Assign(a) => spec_assign_conditional_init(
            a,
            p.name,
            w_name,
            model_name,
            is_conditional,
        ),
        PropertyTypeView::Widget(w) => spec_widget_conditional_init(*w, model_name, is_conditional),
        PropertyTypeView::ConditionalWidget(c) => spec_conditional_conditional_init(c, model_name),
        _ => no_tokens(),
    }
}

/// What a conditional widget does on each update: it evaluates its branches
/// to the name of one of them, running what that branch's widget does when
/// it is chosen, and shows the child of that name.
#[verifier::opaque]
pub open spec fn spec_conditional_conditional_init(c: ConditionalWidgetView, model_name: IdentView) -> Seq<
    TokenView,
>
    decreases c, 0nat,
{
    spec_switch(
        c.name,
        match c.branches {
            ConditionalBranchesView::If(bs) => spec_branches_update(bs, 0, model_name),
            ConditionalBranchesView::Match(m, expr, arms) => (seq![ident_view("match"@, m)]
                + expr).push(
                group_view(Delimiter::Brace, spec_arms_update(arms, 0, model_name), 0),
            ),
        },
    )
}

/// The branches from `from` on; each is named by its place in the chain.
#[verifier::opaque]
pub open spec fn spec_branches_update(bs: Seq<IfBranchView>, from: int, model_name: IdentView) -> Seq<
    TokenView,
>
    decreases bs, bs.len() - from,
{
    if 0 <= from < bs.len() {
        spec_update(
            bs[from].cond,
            spec_widget_conditional_init(bs[from].widget, model_name, true),
            from as nat,
        ) + spec_branches_update(bs, from + 1, model_name)
    } else {
        no_tokens()
    }
}

/// The arms from `from` on; each is named by its place among the arms.
#[verifier::opaque]
pub open spec fn spec_arms_update(arms: Seq<MatchArmView>, from: int, model_name: IdentView) -> Seq<
    TokenView,
>
    decreases arms, arms.len() - from,
{
    if 0 <= from < arms.len() {
        spec_arm(
            arms[from],
            spec_widget_conditional_init(arms[from].widget, model_name, true),
            from as nat,
        ) + spec_arms_update(arms, from + 1, model_name)
    } else {
        no_tokens()
    }
}

/// The string literal that names the branch `index`.
pub fn index_token(index: usize) -> (t: Token)
    ensures
        t@ == index_literal(index as nat),
{
    let mut text = String::from_str("\"");
    text.append(decimal_string(index).as_str());
    text.append("\"");
    proof {
        reveal_strlit("\"");
        assert(text@ =~= quoted(decimal(index as nat)));
    }
    Token::literal(text.as_str(), 0)
}

fn push_condition(out: &mut Vec<Token>, cond: &IfCondition)
    ensures
        tokens_view(final(out)@) == tokens_view(old(out)@) + spec_condition(cond@),
{
    broadcast use group_token_views;

    match cond {
        IfCondition::If(s, expr) => {
            push_ident(out, "if", *s);
            extend(out, expr);
        },
        IfCondition::ElseIf(e, s, expr) => {
            push_ident(out, "else", *e);
            push_ident(out, "if", *s);
            extend(out, expr);
        },
        IfCondition::Else(e) => {
            push_ident(out, "else", *e);
        },
    }
    proof {
        assert(tokens_view(out@) =~= tokens_view(old(out)@) + spec_condition(cond@));
    }
}

/// `inner` and the name of the branch `index`, in braces.
fn branch_block(out: &mut Vec<Token>, inner: &Vec<Token>, index: usize)
    ensures
        tokens_view(final(out)@) == tokens_view(old(out)@).push(
            group_view(
                Delimiter::Brace,
                tokens_view(inner@).push(index_literal(index as nat)),
                0,
            ),
        ),
{
    broadcast use group_token_views;

    let mut block: Vec<Token> = Vec::new();
    extend(&mut block, inner);
    let name = index_token(index);
    proof {
        lemma_view_push(block@, name);
    }
    block.push(name);
    proof {
        assert(tokens_view(block@) =~= tokens_view(inner@).push(index_literal(index as nat)));
    }
    push_group(out, Delimiter::Brace, block, 0);
}

impl IfBranch {
    /// Appends the branch of the chain that names the visible child.
    pub fn update_stream(&self, stream: &mut Vec<Token>, inner_tokens: &Vec<Token>, index: usize)
        ensures
            tokens_view(final(stream)@) == tokens_view(old(stream)@) + spec_update(
                self@.cond,
                tokens_view(inner_tokens@),
                index as nat,
            ),
    {
        broadcast use group_widget_views;

        push_condition(stream, &self.cond);
        branch_block(stream, inner_tokens, index);
        proof {
            assert(tokens_view(stream@) =~= tokens_view(old(stream)@) + spec_update(
                self@.cond,
                tokens_view(inner_tokens@),
                index as nat,
            ));
        }
    }
}

impl MatchArm {
    /// Appends the arm of the `match` that names the visible child.
    pub fn update_stream(&self, stream: &mut Vec<Token>, inner_tokens: &Vec<Token>, index: usize)
        ensures
            tokens_view(final(stream)@) == tokens_view(old(stream)@) + spec_arm(
                self@,
                tokens_view(inner_tokens@),
                index as nat,
            ),
    {
        broadcast use group_token_views;
        broadcast use group_widget_views;

        let ghost start = tokens_view(stream@);
        extend(stream, &self.pattern);
        match &self.guard {
            Some((s, expr)) => {
                push_ident(stream, "if", *s);
                extend(stream, expr);
            },
            None => {},
        }
        push_punct(stream, '=', true, self.arrow);
        push_punct(stream, '>', false, self.arrow);
        proof {
            assert(tokens_view(stream@) =~= start + (self@.pattern + match self@.guard {
                Some((s, expr)) => seq![ident_view("if"@, s)] + expr,
                None => no_tokens(),
            } + seq![punct_view('=', true, self@.arrow), punct_view('>', false, self@.arrow)]));
        }
        branch_block(stream, inner_tokens, index);
        push_punct(stream, ',', false, 0);
        proof {
            assert(tokens_view(stream@) =~= start + spec_arm(
                self@,
                tokens_view(inner_tokens@),
                index as nat,
            ));
        }
    }
}

impl AssignProperty {
    /// Appends what the assignment does each time its conditional branch is
    /// chosen.
    pub fn conditional_init_stream(
        &self,
        stream: &mut Vec<Token>,
        p_name: &PropertyName,
        w_name: &Ident,
        model_name: &Ident,
        is_conditional: bool,
    )
        ensures
            tokens_view(final(stream)@) == tokens_view(old(stream)@) + spec_assign_conditional_init(
                self@,
                p_name@,
                w_name@,
                model_name@,
                is_conditional,
            ),
    {
        broadcast use group_token_views;

        let ghost start = tokens_view(stream@);
        proof {
            assert(start =~= start + no_tokens());
        }
        // Unconditional code is handled in the "normal" init stream
        if is_conditional {
            match &self.attr {
                AssignPropertyAttr::Unset => {},
                AssignPropertyAttr::Watch => {
                    self.assign_stream(stream, p_name, w_name);
                },
                AssignPropertyAttr::Track(track_stream, paste_model) => {
                    let mut assign_stream: Vec<Token> = Vec::new();
                    self.assign_stream(&mut assign_stream, p_name, w_name);
                    proof {
                        assert(tokens_view(assign_stream@) =~= spec_assign_statement(
                            self@,
                            p_name@,
                            w_name@,
                        ));
                    }
                    let span = span_of_tokens(track_stream);
                    push_ident(stream, "if", span);
                    if *paste_model {
                        push_name(stream, model_name);
                    }
                    extend(stream, track_stream);
                    push_group(stream, Delimiter::Brace, assign_stream, span);
                    proof {
                        assert(tokens_view(stream@) =~= start + spec_tracked(
                            tokens_view(track_stream@),
                            *paste_model,
                            model_name@,
                            spec_assign_statement(self@, p_name@, w_name@),
                        ));
                    }
                },
            }
        }
    }
}

impl Property {
    /// Appends what the property does each time its conditional branch is
    /// chosen.
    pub fn conditional_init_stream(
        &self,
        stream: &mut Vec<Token>,
        w_name: &Ident,
        model_name: &Ident,
        is_conditional: bool,
    )
        ensures
            tokens_view(final(stream)@) == tokens_view(old(stream)@)
                + spec_property_conditional_init(self@, w_name@, model_name@, is_conditional),
        decreases self, 0nat,
    {
        broadcast use group_widget_views;

        proof {
            reveal(spec_property_conditional_init);
            reveal(spec_widget_conditional_init);
            reveal(spec_conditional_conditional_init);
        }
        match &self.ty {
            PropertyType::Assign(assign) => assign.conditional_init_stream(
                stream,
                &self.name,
                w_name,
                model_name,
                is_conditional,
            ),
            PropertyType::Widget(widget) => {
                widget.conditional_init_stream(stream, model_name, is_conditional);
            },
            PropertyType::ConditionalWidget(cond_widget) => {
                cond_widget.conditional_init_stream(stream, model_name);
            },
            PropertyType::SignalHandler(_) | PropertyType::ParseError(_) => {
                proof {
                    assert(tokens_view(stream@) =~= tokens_view(stream@) + no_tokens());
                }
            },
        }
    }
}

impl Properties {
    /// Appends what the properties do each time their conditional branch is
    /// chosen, in order.
    pub fn conditional_init_stream(
        &self,
        stream: &mut Vec<Token>,
        w_name: &Ident,
        model_name: &Ident,
        is_conditional: bool,
    )
        ensures
            tokens_view(final(stream)@) == tokens_view(old(stream)@)
                + spec_properties_conditional_init(self@, 0, w_name@, model_name@, is_conditional),
        decreases self, 1nat,
    {
        broadcast use group_widget_views;

        let ghost all = self@;
        let ghost start = tokens_view(stream@);
        let mut i: usize = 0;
        proof {
            assert(start =~= start + no_tokens());
        }
        while i < self.properties.len()
            invariant
                i <= self.properties.len(),
                all == self@,
                start == tokens_view(old(stream)@),
                tokens_view(stream@) + spec_properties_conditional_init(
                    all,
                    i as int,
                    w_name@,
                    model_name@,
                    is_conditional,
                ) == start + spec_properties_conditional_init(
                    all,
                    0,
                    w_name@,
                    model_name@,
                    is_conditional,
                ),
            decreases self.properties.len() - i,
        {
            proof {
                reveal(spec_properties_conditional_init);
                reveal(spec_property_conditional_init);
                assert(all[i as int] == self.properties@[i as int]@);
            }
            let ghost before = tokens_view(stream@);
            self.properties[i].conditional_init_stream(stream, w_name, model_name, is_conditional);
            proof {
                let one = spec_property_conditional_init(
                    all[i as int],
                    w_name@,
                    model_name@,
                    is_conditional,
                );
                let rest = spec_properties_conditional_init(
                    all,
                    i + 1,
                    w_name@,
                    model_name@,
                    is_conditional,
                );
                assert(before + (one + rest) =~= (before + one) + rest);
            }
            i += 1;
        }
        proof {
            reveal(spec_properties_conditional_init);
            assert(tokens_view(stream@) + no_tokens() =~= tokens_view(stream@));
        }
    }
}

impl Widget {
    /// Starts at the top of a view, outside any conditional branch.
    pub fn init_conditional_init_stream(&self, stream: &mut Vec<Token>, model_name: &Ident)
        ensures
            tokens_view(final(stream)@) == tokens_view(old(stream)@) + spec_widget_conditional_init(
                self@,
                model_name@,
                false,
            ),
    {
        self.conditional_init_stream(stream, model_name, false);
    }

    /// Appends what the widget's properties, and those of its returned
    /// widget, do each time their conditional branch is chosen.
    pub fn conditional_init_stream(
        &self,
        stream: &mut Vec<Token>,
        model_name: &Ident,
        is_conditional: bool,
    )
        ensures
            tokens_view(final(stream)@) == tokens_view(old(stream)@) + spec_widget_conditional_init(
                self@,
                model_name@,
                is_conditional,
            ),
        decreases self, 0nat,
    {
        proof {
            reveal(spec_widget_conditional_init);
            reveal(spec_properties_conditional_init);
            lemma_unfold_widget(*self);
        }
        let ghost start = tokens_view(stream@);
        self.properties.conditional_init_stream(stream, &self.name, model_name, is_conditional);
        let ghost first = tokens_view(stream@);
        match &self.returned_widget {
            Some(returned_widget) => {
                proof {
                    lemma_unfold_returned(*returned_widget);
                }
                returned_widget.conditional_init_stream(stream, model_name, is_conditional);
            },
            None => {},
        }
        proof {
            let props = spec_properties_conditional_init(
                self@.properties,
                0,
                self@.name,
                model_name@,
                is_conditional,
            );
            let returned = match self@.returned_widget {
                Some(r) => spec_properties_conditional_init(
                    r.properties,
                    0,
                    r.name,
                    model_name@,
                    is_conditional,
                ),
                None => no_tokens(),
            };
            assert(first == start + props);
            assert(tokens_view(stream@) =~= first + returned);
            assert(tokens_view(stream@) =~= start + (props + returned));
        }
    }
}

impl ReturnedWidget {
    /// Appends what the returned widget's properties do each time their
    /// conditional branch is chosen.
    pub fn conditional_init_stream(
        &self,
        stream: &mut Vec<Token>,
        model_name: &Ident,
        is_conditional: bool,
    )
        ensures
            tokens_view(final(stream)@) == tokens_view(old(stream)@)
                + spec_properties_conditional_init(
                self@.properties,
                0,
                self@.name,
                model_name@,
                is_conditional,
            ),
        decreases self, 2nat,
    {
        proof {
            lemma_unfold_returned(*self);
        }
        self.properties.conditional_init_stream(stream, &self.name, model_name, is_conditional);
    }
}

impl ConditionalWidget {
    /// Appends what the conditional widget does on each update.
    pub fn conditional_init_stream(&self, stream: &mut Vec<Token>, model_name: &Ident)
        ensures
            tokens_view(final(stream)@) == tokens_view(old(stream)@)
                + spec_conditional_conditional_init(self@, model_name@),
        decreases self, 0nat,
    {
        broadcast use group_token_views;
        broadcast use group_widget_views;

        proof {
            reveal(spec_conditional_conditional_init);
        }
        let branch_stream = match &self.branches {
            ConditionalBranches::If(if_branches) => {
                let ghost bs = if_branches_view(if_branches@);
                let mut stream: Vec<Token> = Vec::new();
                let mut index: usize = 0;
                proof {
                    assert(tokens_view(stream@) =~= no_tokens());
                    assert(no_tokens() + spec_branches_update(bs, 0, model_name@)
                        =~= spec_branches_update(bs, 0, model_name@));
                }
                while index < if_branches.len()
                    invariant
                        index <= if_branches.len(),
                        bs == if_branches_view(if_branches@),
                        self.branches matches ConditionalBranches::If(b) && b == *if_branches,
                        tokens_view(stream@) + spec_branches_update(bs, index as int, model_name@)
                            == spec_branches_update(bs, 0, model_name@),
                    decreases if_branches.len() - index,
                {
                    proof {
                        reveal(spec_branches_update);
                        reveal(spec_widget_conditional_init);
                        assert(bs[index as int] == if_branches@[index as int]@);
                    }
                    let branch = &if_branches[index];
                    let mut inner_update_stream: Vec<Token> = Vec::new();
                    let ghost before = tokens_view(stream@);
                    branch.widget.conditional_init_stream(
                        &mut inner_update_stream,
                        model_name,
                        true,
                    );
                    proof {
                        assert(tokens_view(inner_update_stream@) =~= spec_widget_conditional_init(
                            bs[index as int].widget,
                            model_name@,
                            true,
                        ));
                    }
                    branch.update_stream(&mut stream, &inner_update_stream, index);
                    proof {
                        let one = spec_update(
                            bs[index as int].cond,
                            spec_widget_conditional_init(
                                bs[index as int].widget,
                                model_name@,
                                true,
                            ),
                            index as nat,
                        );
                        let rest = spec_branches_update(bs, index + 1, model_name@);
                        assert(before + (one + rest) =~= (before + one) + rest);
                    }
                    index += 1;
                }
                proof {
                    reveal(spec_branches_update);
                    assert(tokens_view(stream@) + no_tokens() =~= tokens_view(stream@));
                }
                stream
            },
            ConditionalBranches::Match(match_token, expr, match_arms) => {
                let ghost arms = match_arms_view(match_arms@);
                let mut inner_tokens: Vec<Token> = Vec::new();
                let mut index: usize = 0;
                proof {
                    assert(tokens_view(inner_tokens@) =~= no_tokens());
                    assert(no_tokens() + spec_arms_update(arms, 0, model_name@)
                        =~= spec_arms_update(arms, 0, model_name@));
                }
                while index < match_arms.len()
                    invariant
                        index <= match_arms.len(),
                        arms == match_arms_view(match_arms@),
                        self.branches matches ConditionalBranches::Match(_, _, a) && a
                            == *match_arms,
                        tokens_view(inner_tokens@) + spec_arms_update(
                            arms,
                            index as int,
                            model_name@,
                        ) == spec_arms_update(arms, 0, model_name@),
                    decreases match_arms.len() - index,
                {
                    proof {
                        reveal(spec_arms_update);
                        reveal(spec_widget_conditional_init);
                        assert(arms[index as int] == match_arms@[index as int]@);
                    }
                    let match_arm = &match_arms[index];
                    let mut inner_update_stream: Vec<Token> = Vec::new();
                    let ghost before = tokens_view(inner_tokens@);
                    match_arm.widget.conditional_init_stream(
                        &mut inner_update_stream,
                        model_name,
                        true,
                    );
                    proof {
                        assert(tokens_view(inner_update_stream@) =~= spec_widget_conditional_init(
                            arms[index as int].widget,
                            model_name@,
                            true,
                        ));
                    }
                    match_arm.update_stream(&mut inner_tokens, &inner_update_stream, index);
                    proof {
                        let one = spec_arm(
                            arms[index as int],
                            spec_widget_conditional_init(
                                arms[index as int].widget,
                                model_name@,
                                true,
                            ),
                            index as nat,
                        );
                        let rest = spec_arms_update(arms, index + 1, model_name@);
                        assert(before + (one + rest) =~= (before + one) + rest);
                    }
                    index += 1;
                }
                proof {
                    reveal(spec_arms_update);
                    assert(tokens_view(inner_tokens@) + no_tokens() =~= tokens_view(inner_tokens@));
                }
                let mut stream: Vec<Token> = Vec::new();
                push_ident(&mut stream, "match", *match_token);
                extend(&mut stream, expr);
                push_group(&mut stream, Delimiter::Brace, inner_tokens, 0);
                proof {
                    assert(tokens_view(stream@) =~= (seq![ident_view("match"@, *match_token)]
                        + tokens_view(expr@)).push(
                        group_view(Delimiter::Brace, spec_arms_update(arms, 0, model_name@), 0),
                    ));
                }
                stream
            },
        };
        let ghost start = tokens_view(stream@);
        let ghost branches = tokens_view(branch_stream@);
        push_ident(stream, "let", 0);
        push_ident(stream, "__current_page", 0);
        push_punct(stream, '=', false, 0);
        let empty = Token::literal("\"\"", 0);
        proof {
            lemma_view_push(stream@, empty);
        }
        stream.push(empty);
        push_punct(stream, ';', false, 0);
        push_name(stream, &self.name);
        push_punct(stream, '.', false, 0);
        push_ident(stream, "set_visible_child_name", 0);
        push_group(stream, Delimiter::Parenthesis, branch_stream, 0);
        push_punct(stream, ';', false, 0);
        proof {
            assert(tokens_view(stream@) =~= start + spec_switch(self@.name, branches));
        }
    }
}

} // verus!
