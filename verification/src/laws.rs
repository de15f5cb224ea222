use crate::error::{quoted, ErrorKind, ParseError};
use crate::names::{decimal, lemma_decimal_injective};
use crate::tokens::{
    at_group, at_punct, at_word, group_at, group_view, ident_view, Delimiter, TokenKindView,
    TokenView,
};
use crate::widgets::{
    AssignPropertyView, IdentView, IfBranchView, IfConditionView, MatchArmView, PropertyNameView,
    PropertyTypeView, PropertyView, WidgetTemplateAttr, WidgetView,
};
use crate::widgets::generate::tokens_span;
use crate::widgets::generate::assign::{
    no_tokens, spec_assign_statement, spec_properties_assign, spec_property_assign, spec_setter_fn,
    spec_widget_assign,
};
use crate::widgets::generate::conditional_init::{
    index_literal, spec_assign_conditional_init, spec_tracked, spec_update,
};
use crate::widgets::generate::init::{spec_properties_init, spec_template_child, spec_widget_init};
use crate::widgets::parse::grammar::{
    args_from_index, declared_name, declares, error_property, named_by_place, names_unique,
    skip_past_comma, spec_branch_widget, spec_if_branches, spec_if_condition, spec_match_arm,
    spec_match_arms, spec_properties, spec_property, spec_widget, without_conflict,
};
use vstd::prelude::*;

verus! {

/// How many statements a sequence of tokens holds: the semicolons outside
/// its groups.
pub open spec fn statements(ts: Seq<TokenView>) -> nat
    decreases ts.len(),
{
    if ts.len() == 0 {
        0
    } else {
        statements(ts.drop_last()) + if ts.last().kind matches TokenKindView::Punct(c, _) && c
            == ';' {
            1nat
        } else {
            0nat
        }
    }
}

/// The statements of two sequences add up.
pub proof fn lemma_statements_concat(a: Seq<TokenView>, b: Seq<TokenView>)
    ensures
        statements(a + b) == statements(a) + statements(b),
    decreases b.len(),
{
    if b.len() == 0 {
        assert(a + b =~= a);
    } else {
        assert((a + b).drop_last() =~= a + b.drop_last());
        assert((a + b).last() == b.last());
        lemma_statements_concat(a, b.drop_last());
    }
}

/// Whether a property's name can be written without a semicolon: an
/// identifier, or a path that holds none.
pub open spec fn plain_name(n: PropertyNameView) -> bool {
    n matches PropertyNameView::Path(p) ==> statements(p.tokens) == 0
}

/// The statements that assign the properties from `from` on, one for each,
/// in the order of the properties.
pub open spec fn assignments(props: Seq<PropertyView>, from: int, w_name: IdentView) -> Seq<TokenView>
    decreases props.len() - from,
{
    if 0 <= from < props.len() {
        spec_assign_statement(props[from].ty->Assign_0, props[from].name, w_name) + assignments(
            props,
            from + 1,
            w_name,
        )
    } else {
        no_tokens()
    }
}

proof fn lemma_one_statement(a: AssignPropertyView, p_name: PropertyNameView, w_name: IdentView)
    requires
        plain_name(p_name),
    ensures
        statements(spec_assign_statement(a, p_name, w_name)) == 1,
{
    let setter = spec_setter_fn(p_name, w_name);
    assert(statements(setter) == 0) by {
        match p_name {
            PropertyNameView::Path(p) => {},
            _ => {
                let s3 = setter;
                let s2 = s3.drop_last();
                let s1 = s2.drop_last();
                let s0 = s1.drop_last();
                assert(s0.len() == 0);
                assert(statements(s0) == 0);
                assert(statements(s1) == 0);
                assert(statements(s2) == 0);
            },
        }
    }
    let stmt = spec_assign_statement(a, p_name, w_name);
    let called = stmt.drop_last();
    assert(called.drop_last() =~= setter);
    assert(statements(called) == 0);
}

/// The assignments of a block of plain assignments, outside any conditional
/// branch, are one statement for each property, in the order in which the
/// properties were declared.
pub proof fn lemma_assignments_in_order(props: Seq<PropertyView>, from: int, w_name: IdentView)
    requires
        0 <= from <= props.len(),
        forall|i: int| from <= i < props.len() ==> (#[trigger] props[i]).ty is Assign,
        forall|i: int| from <= i < props.len() ==> plain_name((#[trigger] props[i]).name),
    ensures
        spec_properties_assign(props, from, w_name, false) == assignments(props, from, w_name),
        statements(assignments(props, from, w_name)) == props.len() - from,
    decreases props.len() - from,
{
    reveal(spec_properties_assign);
    reveal(spec_property_assign);
    if from < props.len() {
        lemma_assignments_in_order(props, from + 1, w_name);
        let first = spec_assign_statement(props[from].ty->Assign_0, props[from].name, w_name);
        lemma_one_statement(props[from].ty->Assign_0, props[from].name, w_name);
        lemma_statements_concat(first, assignments(props, from + 1, w_name));
        assert(props[from].ty is Assign);
        assert(spec_property_assign(props[from], w_name, false) == first);
        assert(spec_properties_assign(props, from, w_name, false) == first
            + spec_properties_assign(props, from + 1, w_name, false));
    } else {
        assert(spec_properties_assign(props, from, w_name, false) == no_tokens());
    }
}

/// A widget that is a template's child adds no statement of its own to the
/// assignments: only those of its properties.
pub proof fn lemma_template_child_never_assigned(
    w: WidgetView,
    p_name: PropertyNameView,
    w_name: IdentView,
    is_conditional: bool,
)
    requires
        w.template_attr == WidgetTemplateAttr::TemplateChild,
    ensures
        spec_widget_assign(w, p_name, w_name, is_conditional) == spec_properties_assign(
            w.properties,
            0,
            w.name,
            is_conditional,
        ) + match w.returned_widget {
            Some(r) => spec_properties_assign(r.properties, 0, r.name, is_conditional),
            None => no_tokens(),
        },
{
    reveal(spec_widget_assign);
    reveal(spec_properties_assign);
    let props = spec_properties_assign(w.properties, 0, w.name, is_conditional);
    assert(no_tokens() + props =~= props);
}

/// A widget that is a template's child is bound to the field of its name in
/// its parent before anything else of it is built.
pub proof fn lemma_template_child_always_bound(w: WidgetView, parent: IdentView)
    requires
        w.template_attr == WidgetTemplateAttr::TemplateChild,
    ensures
        spec_widget_init(w, Some(parent)) == spec_template_child(w.name, parent)
            + spec_properties_init(w.properties, 0, w.name) + match w.returned_widget {
            Some(r) => spec_properties_init(r.properties, 0, r.name),
            None => no_tokens(),
        },
{
    reveal(spec_widget_init);
    reveal(spec_properties_init);
}

/// What a tracked assignment does when its conditional branch is chosen is
/// one `if` with the guard as its condition and the assignment, and nothing
/// else, as its body.
pub proof fn lemma_track_guarded_once(
    a: AssignPropertyView,
    p_name: PropertyNameView,
    w_name: IdentView,
    model_name: IdentView,
)
    requires
        a.attr is Track,
    ensures
        ({
            let guard = a.attr->Track_0;
            let paste_model = a.attr->Track_1;
            let out = spec_assign_conditional_init(a, p_name, w_name, model_name, true);
            let skip: int = if paste_model {
                2
            } else {
                1
            };
            &&& out == spec_tracked(
                guard,
                paste_model,
                model_name,
                spec_assign_statement(a, p_name, w_name),
            )
            &&& out.len() == skip + guard.len() + 1
            &&& out[0] == ident_view("if"@, tokens_span(guard))
            &&& out.subrange(skip, skip + guard.len()) == guard
            &&& out.last() == group_view(
                Delimiter::Brace,
                spec_assign_statement(a, p_name, w_name),
                tokens_span(guard),
            )
        }),
{
    let guard = a.attr->Track_0;
    let paste_model = a.attr->Track_1;
    let out = spec_assign_conditional_init(a, p_name, w_name, model_name, true);
    let skip: int = if paste_model {
        2
    } else {
        1
    };
    assert(out.subrange(skip, skip + guard.len()) =~= guard);
}

/// Branches at different places have different names, whatever their
/// patterns and conditions are.
pub proof fn lemma_branch_names_distinct(i: nat, j: nat, span_i: usize, span_j: usize)
    requires
        i != j,
    ensures
        index_literal(i) != index_literal(j),
        args_from_index(i, span_i) != args_from_index(j, span_j),
{
    if quoted(decimal(i)) == quoted(decimal(j)) {
        let a = quoted(decimal(i));
        let b = quoted(decimal(j));
        assert(a.subrange(1, a.len() - 1) =~= decimal(i));
        assert(b.subrange(1, b.len() - 1) =~= decimal(j));
        lemma_decimal_injective(i, j);
    }
    if args_from_index(i, span_i) == args_from_index(j, span_j) {
        let x = args_from_index(i, span_i)[1];
        let y = args_from_index(j, span_j)[1];
        assert(x == y);
        assert(x.kind->Group_1[0] == y.kind->Group_1[0]);
    }
}

/// The block of a branch ends with the name of the branch's place, so that
/// is what the branch yields.
pub proof fn lemma_branch_yields_its_place(
    c: IfConditionView,
    inner: Seq<TokenView>,
    index: nat,
)
    ensures
        spec_update(c, inner, index).last().kind
            matches TokenKindView::Group(d, block) && d == Delimiter::Brace && block.last()
            == index_literal(index),
{
}

/// Whether the widget of each branch is handed to the conditional widget
/// with the branch's place as its name.
pub open spec fn branches_numbered(bs: Seq<IfBranchView>) -> bool {
    forall|k: int| 0 <= k < bs.len() ==> named_by_place((#[trigger] bs[k]).widget, k)
}

/// Whether the widget of each arm is handed to the conditional widget with
/// the arm's place as its name.
pub open spec fn arms_numbered(arms: Seq<MatchArmView>) -> bool {
    forall|k: int| 0 <= k < arms.len() ==> named_by_place((#[trigger] arms[k]).widget, k)
}

proof fn lemma_branch_widget_numbered(
    inner: Seq<TokenView>,
    scope: usize,
    index: nat,
    args_span: usize,
    ref_span: usize,
)
    requires
        spec_branch_widget(inner, scope, index, args_span, ref_span) is Ok,
    ensures
        spec_branch_widget(inner, scope, index, args_span, ref_span)->Ok_0.args == Some(
            args_from_index(index, args_span),
        ),
{
    reveal(spec_branch_widget);
    lemma_widget_keeps_args_all();
}

/// A widget that was read holds the arguments that it was read with.
proof fn lemma_widget_keeps_args_all()
    ensures
        forall|ts: Seq<TokenView>, pos: int, end: usize, attrs, args|
            #![trigger spec_widget(ts, pos, end, attrs, args)]
            spec_widget(ts, pos, end, attrs, args) matches Ok(
                (w, _),
            ) ==> w.args == args,
{
    reveal(spec_widget);
}

/// The branches of a chain are numbered in the order in which they were
/// declared: each widget is handed over with its branch's place as its name.
pub proof fn lemma_if_branches_numbered(ts: Seq<TokenView>, pos: int, end: usize, acc: Seq<IfBranchView>)
    requires
        branches_numbered(acc),
        spec_if_branches(ts, pos, end, acc) is Ok,
    ensures
        branches_numbered(spec_if_branches(ts, pos, end, acc)->Ok_0.0),
    decreases ts.len() - pos,
{
    reveal(spec_if_branches);
    reveal(spec_branch_widget);
    match spec_if_condition(ts, pos, end) {
        Err(e) => {},
        Ok((cond, pos1)) => {
            if pos < pos1 <= ts.len() && at_group(ts, pos1, Delimiter::Brace) {
                let inner = group_at(ts, pos1);
                let r = spec_branch_widget(inner, ts[pos1].span, acc.len(), ts[pos1].span, 0);
                match r {
                    Err(e) => {},
                    Ok(widget) => {
                        lemma_branch_widget_numbered(inner, ts[pos1].span, acc.len(), ts[pos1].span, 0);
                        let grown = acc.push(IfBranchView { cond, widget });
                        assert forall|k: int| 0 <= k < grown.len() implies named_by_place(
                            (#[trigger] grown[k]).widget,
                            k,
                        ) by {
                            if k == acc.len() {
                                assert(grown[k].widget.args->0 == args_from_index(
                                    k as nat,
                                    ts[pos1].span,
                                ));
                            } else {
                                assert(grown[k] == acc[k]);
                            }
                        }
                        if !(cond is Else) && at_word(ts, pos1 + 1, "else"@) {
                            lemma_if_branches_numbered(ts, pos1 + 1, end, grown);
                        }
                    },
                }
            }
        },
    }
}

proof fn lemma_match_arm_numbered(ts: Seq<TokenView>, pos: int, end: usize, index: nat)
    requires
        spec_match_arm(ts, pos, end, index) is Ok,
    ensures
        named_by_place(spec_match_arm(ts, pos, end, index)->Ok_0.0.widget, index as int),
{
    reveal(spec_match_arm);
    reveal(spec_branch_widget);
    lemma_widget_keeps_args_all();
}

/// The arms of a `match` are numbered in the order in which they were
/// declared: each widget is handed over with its arm's place as its name.
pub proof fn lemma_match_arms_numbered(ts: Seq<TokenView>, pos: int, end: usize, acc: Seq<MatchArmView>)
    requires
        arms_numbered(acc),
        spec_match_arms(ts, pos, end, acc) is Ok,
    ensures
        arms_numbered(spec_match_arms(ts, pos, end, acc)->Ok_0),
    decreases ts.len() - pos,
{
    reveal(spec_match_arms);
    reveal(spec_match_arm);
    if 0 <= pos < ts.len() {
        match spec_match_arm(ts, pos, end, acc.len()) {
            Err(e) => {},
            Ok((arm, next)) => {
                if pos < next <= ts.len() {
                    lemma_match_arm_numbered(ts, pos, end, acc.len());
                    let grown = acc.push(arm);
                    assert forall|k: int| 0 <= k < grown.len() implies named_by_place(
                        (#[trigger] grown[k]).widget,
                        k,
                    ) by {
                        if k < acc.len() {
                            assert(grown[k] == acc[k]);
                        }
                    }
                    lemma_match_arms_numbered(ts, next, end, grown);
                }
            },
        }
    }
}

proof fn lemma_push_keeps_names_unique(acc: Seq<PropertyView>, p: PropertyView)
    requires
        names_unique(acc),
    ensures
        names_unique(acc.push(without_conflict(acc, p))),
{
    let q = without_conflict(acc, p);
    let grown = acc.push(q);
    assert forall|i: int, j: int|
        0 <= i < j < grown.len() && declared_name(grown[i]).is_some() implies #[trigger] declared_name(
        grown[i],
    ) != #[trigger] declared_name(grown[j]) by {
        if j == acc.len() {
            assert(grown[i] == acc[i]);
            if declared_name(q) == declared_name(acc[i]) {
                let name = declared_name(acc[i])->0;
                assert(declares(acc, name));
            }
        } else {
            assert(grown[i] == acc[i]);
            assert(grown[j] == acc[j]);
        }
    }
}

proof fn lemma_push_error_keeps_names_unique(acc: Seq<PropertyView>, e: ParseError)
    requires
        names_unique(acc),
    ensures
        names_unique(acc.push(error_property(e))),
{
    let grown = acc.push(error_property(e));
    assert forall|i: int, j: int|
        0 <= i < j < grown.len() && declared_name(grown[i]).is_some() implies #[trigger] declared_name(
        grown[i],
    ) != #[trigger] declared_name(grown[j]) by {
        if j < acc.len() {
            assert(grown[i] == acc[i]);
            assert(grown[j] == acc[j]);
        }
    }
}

/// No two properties of a block that was read declare the same name: the
/// second is an error in the block.
pub proof fn lemma_names_unique(ts: Seq<TokenView>, pos: int, end: usize, acc: Seq<PropertyView>)
    requires
        names_unique(acc),
    ensures
        names_unique(spec_properties(ts, pos, end, acc)),
    decreases ts.len() - pos,
{
    reveal(spec_properties);
    if 0 <= pos < ts.len() {
        match spec_property(ts, pos, end) {
            Ok((p, next)) => {
                lemma_push_keeps_names_unique(acc, p);
                let acc1 = acc.push(without_conflict(acc, p));
                if next <= pos || next >= ts.len() {
                } else if at_punct(ts, next, ',') {
                    lemma_names_unique(ts, next + 1, end, acc1);
                } else {
                    let skipped = skip_past_comma(ts, next);
                    let e = ParseError { kind: ErrorKind::ExpectedComma, span: ts[next].span };
                    lemma_push_error_keeps_names_unique(acc1, e);
                    if pos < skipped <= ts.len() {
                        lemma_names_unique(ts, skipped, end, acc1.push(error_property(e)));
                    }
                }
            },
            Err(e) => {
                let skipped = skip_past_comma(ts, pos);
                lemma_push_error_keeps_names_unique(acc, e);
                if pos < skipped <= ts.len() {
                    lemma_names_unique(ts, skipped, end, acc.push(error_property(e)));
                }
            },
        }
    }
}

/// A name that is declared in a block is an error when it is declared
/// again: the property that declares it again does not stay in the block.
pub proof fn lemma_second_declaration_is_error(acc: Seq<PropertyView>, p: PropertyView)
    requires
        declared_name(p) matches Some(name) && declares(acc, name),
    ensures
        without_conflict(acc, p).ty matches PropertyTypeView::ParseError(e) && e.kind
            == ErrorKind::NameConflict,
{
}

} // verus!
