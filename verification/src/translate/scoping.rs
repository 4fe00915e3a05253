//! What the translation of statements does to the scope.
//!
//! Translating an expression declares nothing: it only counts the uses of
//! variables. Translating a statement declares variables in the innermost
//! scope only, and leaves that scope with the variables it had in front of
//! what it declares. In particular, what a block or a `for` loop declares
//! is declared in a scope of its own and is gone when the statement is
//! translated. For a `for` loop that steps the variable it declares, it
//! follows that the step is the last statement of the loop's body and
//! that the variable is declared mutable.

use vstd::prelude::*;
use crate::project::ProjectView;
use crate::solidity;
use crate::solidity::BinaryOperator;
use crate::naming::{Case, case_converted};
use crate::sway::model::{BlockView, ExpressionView, LetIdentifierView, LetPatternView, StatementView};
use crate::sway::shapes::{binary, decimal, identifier, statement_of, while_loop};
use crate::translate::expressions::{
    assignment_text, assignment_to, translated_assignment, translated_binary, translated_call, translated_conditional, translated_expression,
    translated_expressions, translated_step, translated_step_value, translated_subscript, translated_unary,
    TranslationState,
};
use crate::translate::model::{TranslatedVariableView, TranslationScopeView};
use crate::translate::scope::{indexed_at, last_match, named, used_at};
use crate::translate::finalize::{
    finalized, is_marked_let, lemma_finalization_keeps_last, lemma_finalization_marks_mutated,
};
use crate::translate::statement_rules::{
    entered, indexed_all, indexed_unless_blank, translated_block_statement, translated_body,
    translated_condition, translated_emit, translated_expression_statement, translated_for, translated_if,
    translated_initialization, translated_initializer, translated_list, translated_list_entry,
    translated_new, translated_optional_update, translated_return, translated_revert, translated_statement,
    translated_statements, translated_update, translated_variable_definition, translated_while,
    with_declaration_index, with_update,
};

verus! {

/// What a variable binds: the variable without the counts of its uses.
pub open spec fn binding(v: TranslatedVariableView) -> TranslatedVariableView {
    TranslatedVariableView { read_count: 0, mutation_count: 0, ..v }
}

/// What the variables bind, in order.
pub open spec fn bindings(s: Seq<TranslatedVariableView>) -> Seq<TranslatedVariableView> {
    Seq::new(s.len(), |i: int| binding(s[i]))
}

/// What a variable binds, without the place of its declaration.
pub open spec fn bare(v: TranslatedVariableView) -> TranslatedVariableView {
    TranslatedVariableView { statement_index: None, ..binding(v) }
}

/// What the variables bind, in order, without the places of their
/// declarations.
pub open spec fn bares(s: Seq<TranslatedVariableView>) -> Seq<TranslatedVariableView> {
    Seq::new(s.len(), |i: int| bare(s[i]))
}

/// Whether two scopes declare the same: the same functions and, but for
/// the counts of their uses, the same variables, scope by scope.
pub open spec fn same_bindings(a: TranslationScopeView, b: TranslationScopeView) -> bool
    decreases a,
{
    &&& bindings(a.variables) == bindings(b.variables)
    &&& a.functions == b.functions
    &&& match (a.parent, b.parent) {
        (Some(p), Some(q)) => same_bindings(*p, *q),
        (None, None) => true,
        _ => false,
    }
}

/// Whether `b` declares what `a` declares and, after that, possibly more
/// variables in the innermost scope, where it may also have recorded the
/// places of declarations.
pub open spec fn extends(a: TranslationScopeView, b: TranslationScopeView) -> bool {
    &&& a.variables.len() <= b.variables.len()
    &&& bares(a.variables) == bares(b.variables.subrange(0, a.variables.len() as int))
    &&& a.functions == b.functions
    &&& match (a.parent, b.parent) {
        (Some(p), Some(q)) => same_bindings(*p, *q),
        (None, None) => true,
        _ => false,
    }
}

pub proof fn lemma_same_refl(a: TranslationScopeView)
    ensures
        same_bindings(a, a),
    decreases a,
{
    if let Some(p) = a.parent {
        lemma_same_refl(*p);
    }
}

pub proof fn lemma_same_trans(a: TranslationScopeView, b: TranslationScopeView, c: TranslationScopeView)
    requires
        same_bindings(a, b),
        same_bindings(b, c),
    ensures
        same_bindings(a, c),
    decreases a,
{
    if let Some(p) = a.parent {
        lemma_same_trans(*p, *b.parent->0, *c.parent->0);
    }
}

pub proof fn lemma_same_extends(a: TranslationScopeView, b: TranslationScopeView)
    requires
        same_bindings(a, b),
    ensures
        extends(a, b),
{
    assert(bindings(a.variables).len() == bindings(b.variables).len());
    assert(b.variables.subrange(0, a.variables.len() as int) =~= b.variables);
    assert forall|i: int| 0 <= i < a.variables.len() implies bares(a.variables)[i] == bares(b.variables)[i] by {
        assert(bindings(a.variables)[i] == bindings(b.variables)[i]);
    }
    assert(bares(a.variables) =~= bares(b.variables));
}

pub proof fn lemma_extends_trans(a: TranslationScopeView, b: TranslationScopeView, c: TranslationScopeView)
    requires
        extends(a, b),
        extends(b, c),
    ensures
        extends(a, c),
{
    let n = a.variables.len() as int;
    let m = b.variables.len() as int;
    assert forall|i: int| 0 <= i < n implies bares(a.variables)[i] == bares(c.variables.subrange(0, n))[i] by {
        assert(bares(a.variables)[i] == bares(b.variables.subrange(0, n))[i]);
        assert(bares(b.variables)[i] == bares(c.variables.subrange(0, m))[i]);
    }
    assert(bares(a.variables) =~= bares(c.variables.subrange(0, n)));
    if let Some(p) = a.parent {
        lemma_same_trans(*p, *b.parent->0, *c.parent->0);
    }
}

pub proof fn lemma_same_then_extends(a: TranslationScopeView, b: TranslationScopeView, c: TranslationScopeView)
    requires
        same_bindings(a, b),
        extends(b, c),
    ensures
        extends(a, c),
{
    lemma_same_extends(a, b);
    lemma_extends_trans(a, b, c);
}

pub proof fn lemma_extends_then_same(a: TranslationScopeView, b: TranslationScopeView, c: TranslationScopeView)
    requires
        extends(a, b),
        same_bindings(b, c),
    ensures
        extends(a, c),
{
    lemma_same_extends(b, c);
    lemma_extends_trans(a, b, c);
}

/// Declaring a variable extends the scope.
pub proof fn lemma_declare_extends(a: TranslationScopeView, v: TranslatedVariableView)
    ensures
        extends(a, a.declare(v)),
{
    assert(a.declare(v).variables.subrange(0, a.variables.len() as int) =~= a.variables);
    if let Some(p) = a.parent {
        lemma_same_refl(*p);
    }
}

/// What is declared in a child scope is gone with the child scope.
pub proof fn lemma_child_is_discarded(a: TranslationScopeView, b: TranslationScopeView)
    requires
        extends(a.child(), b),
    ensures
        same_bindings(a, b.outer()),
{
}

proof fn lemma_used_at_keeps(s: Seq<TranslatedVariableView>, name: Seq<char>, mutation: bool)
    ensures
        used_at(s, name, mutation).len() == s.len(),
        bindings(used_at(s, name, mutation)) == bindings(s),
    decreases s.len(),
{
    if s.len() == 0 {
    } else if s.last().old_name == name {
        assert(bindings(used_at(s, name, mutation)) =~= bindings(s));
    } else {
        lemma_used_at_keeps(s.drop_last(), name, mutation);
        let t = used_at(s.drop_last(), name, mutation);
        let r = used_at(s, name, mutation);
        assert(r == t.push(s.last()));
        assert forall|i: int| 0 <= i < s.len() implies bindings(r)[i] == bindings(s)[i] by {
            if i < s.len() - 1 {
                assert(r[i] == t[i]);
                assert(bindings(t)[i] == bindings(s.drop_last())[i]);
            }
        }
        assert(bindings(r) =~= bindings(s));
    }
}

proof fn lemma_indexed_at_keeps(s: Seq<TranslatedVariableView>, name: Seq<char>, index: usize)
    ensures
        indexed_at(s, name, index).len() == s.len(),
        bares(indexed_at(s, name, index)) == bares(s),
    decreases s.len(),
{
    if s.len() == 0 {
    } else if s.last().new_name == name {
        assert(bares(indexed_at(s, name, index)) =~= bares(s));
    } else {
        lemma_indexed_at_keeps(s.drop_last(), name, index);
        let t = indexed_at(s.drop_last(), name, index);
        let r = indexed_at(s, name, index);
        assert(r == t.push(s.last()));
        assert forall|i: int| 0 <= i < s.len() implies bares(r)[i] == bares(s)[i] by {
            if i < s.len() - 1 {
                assert(r[i] == t[i]);
                assert(bares(t)[i] == bares(s.drop_last())[i]);
            }
        }
        assert(bares(r) =~= bares(s));
    }
}

/// Counting a use of a variable declares nothing.
pub proof fn lemma_use_keeps(a: TranslationScopeView, name: Seq<char>, mutation: bool)
    ensures
        same_bindings(a, a.with_use(name, mutation)),
    decreases a,
{
    if last_match(a.variables, named(name, false)) is Some {
        lemma_used_at_keeps(a.variables, name, mutation);
        if let Some(p) = a.parent {
            lemma_same_refl(*p);
        }
    } else if let Some(p) = a.parent {
        lemma_use_keeps(*p, name, mutation);
    }
}

/// Recording the index of a declaration declares nothing.
pub proof fn lemma_index_keeps(a: TranslationScopeView, statement: StatementView, index: usize)
    ensures
        extends(a, with_declaration_index(a, statement, index)),
        with_declaration_index(a, statement, index).variables.len() == a.variables.len(),
{
    lemma_same_refl(a);
    lemma_same_extends(a, a);
    match statement {
        StatementView::Let(l) => match l.pattern {
            crate::sway::model::LetPatternView::Identifier(id) => {
                lemma_indexed_all_keeps(a, seq![id], index, 1);
            },
            crate::sway::model::LetPatternView::Tuple(ids) => {
                lemma_indexed_all_keeps(a, ids, index, ids.len());
            },
        },
        StatementView::Expression(_) => {},
    }
}

proof fn lemma_indexed_all_keeps(a: TranslationScopeView, ids: Seq<LetIdentifierView>, index: usize, n: nat)
    ensures
        extends(a, indexed_all(a, ids, index, n)),
        indexed_all(a, ids, index, n).variables.len() == a.variables.len(),
    decreases n,
{
    lemma_same_refl(a);
    lemma_same_extends(a, a);
    if n > 0 {
        lemma_indexed_all_keeps(a, ids, index, (n - 1) as nat);
        let before = indexed_all(a, ids, index, (n - 1) as nat);
        let after = indexed_unless_blank(before, ids[n - 1].name, index);
        lemma_indexed_at_keeps(before.variables, ids[n - 1].name, index);
        if let Some(p) = before.parent {
            lemma_same_refl(*p);
        }
        assert(after.variables.subrange(0, before.variables.len() as int) =~= after.variables);
        assert(extends(before, after));
        lemma_extends_trans(a, before, after);
    }
}

/// Translating an expression declares nothing.
pub proof fn lemma_expression_keeps(state: TranslationState, e: solidity::Expression)
    requires
        translated_expression(state, e) is Ok,
    ensures
        same_bindings(state.scope, (translated_expression(state, e)->Ok_0).1.scope),
    decreases e, 1nat,
{
    lemma_same_refl(state.scope);
    match e {
        solidity::Expression::Variable(name) => {
            lemma_use_keeps(state.scope, name@, false);
        },
        solidity::Expression::Parenthesis(_) | solidity::Expression::Unary(_, _) => {
            lemma_unary_keeps(state, e);
        },
        solidity::Expression::PreIncrement(x) => {
            lemma_step_value_keeps(state, BinaryOperator::Add, None, *x);
        },
        solidity::Expression::PreDecrement(x) => {
            lemma_step_value_keeps(state, BinaryOperator::Subtract, None, *x);
        },
        solidity::Expression::PostIncrement(x) => {
            lemma_step_value_keeps(state, BinaryOperator::Add, Some(BinaryOperator::Subtract), *x);
        },
        solidity::Expression::PostDecrement(x) => {
            lemma_step_value_keeps(state, BinaryOperator::Subtract, Some(BinaryOperator::Add), *x);
        },
        solidity::Expression::Binary(_, _, _) => {
            lemma_binary_keeps(state, e);
        },
        solidity::Expression::Assign(_, _, _) => {
            lemma_assignment_keeps(state, e);
        },
        solidity::Expression::ConditionalOperator(_, _, _) => {
            lemma_conditional_keeps(state, e);
        },
        solidity::Expression::FunctionCall(_, _) => {
            lemma_call_keeps(state, e);
        },
        solidity::Expression::ArrayLiteral(elements) => {
            lemma_expressions_keep(state, elements@);
        },
        solidity::Expression::ArraySubscript(_, _) => {
            lemma_subscript_keeps(state, e);
        },
        _ => {},
    }
}

proof fn lemma_unary_keeps(state: TranslationState, e: solidity::Expression)
    requires
        translated_unary(state, e) is Ok,
    ensures
        same_bindings(state.scope, (translated_unary(state, e)->Ok_0).1.scope),
    decreases e, 0nat,
{
    match e {
        solidity::Expression::Parenthesis(inner) => {
            lemma_expression_keeps(state, *inner);
        },
        solidity::Expression::Unary(op, inner) => {
            lemma_expression_keeps(state, *inner);
        },
        _ => {},
    }
}

proof fn lemma_binary_keeps(state: TranslationState, e: solidity::Expression)
    requires
        translated_binary(state, e) is Ok,
    ensures
        same_bindings(state.scope, (translated_binary(state, e)->Ok_0).1.scope),
    decreases e, 0nat,
{
    match e {
        solidity::Expression::Binary(op, lhs, rhs) => {
            lemma_expression_keeps(state, *lhs);
            let s1 = (translated_expression(state, *lhs)->Ok_0).1;
            lemma_expression_keeps(s1, *rhs);
            let s2 = (translated_expression(s1, *rhs)->Ok_0).1;
            lemma_same_trans(state.scope, s1.scope, s2.scope);
        },
        _ => {},
    }
}

proof fn lemma_conditional_keeps(state: TranslationState, e: solidity::Expression)
    requires
        translated_conditional(state, e) is Ok,
    ensures
        same_bindings(state.scope, (translated_conditional(state, e)->Ok_0).1.scope),
    decreases e, 0nat,
{
    match e {
        solidity::Expression::ConditionalOperator(condition, then, otherwise) => {
            lemma_expression_keeps(state, *condition);
            let s1 = (translated_expression(state, *condition)->Ok_0).1;
            lemma_expression_keeps(s1, *then);
            let s2 = (translated_expression(s1, *then)->Ok_0).1;
            lemma_expression_keeps(s2, *otherwise);
            let s3 = (translated_expression(s2, *otherwise)->Ok_0).1;
            lemma_same_trans(state.scope, s1.scope, s2.scope);
            lemma_same_trans(state.scope, s2.scope, s3.scope);
        },
        _ => {},
    }
}

proof fn lemma_call_keeps(state: TranslationState, e: solidity::Expression)
    requires
        translated_call(state, e) is Ok,
    ensures
        same_bindings(state.scope, (translated_call(state, e)->Ok_0).1.scope),
    decreases e, 0nat,
{
    match e {
        solidity::Expression::FunctionCall(callee, arguments) => match *callee {
            solidity::Expression::Variable(name) => {
                lemma_expressions_keep(state, arguments@);
            },
            _ => {},
        },
        _ => {},
    }
}

proof fn lemma_subscript_keeps(state: TranslationState, e: solidity::Expression)
    requires
        translated_subscript(state, e) is Ok,
    ensures
        same_bindings(state.scope, (translated_subscript(state, e)->Ok_0).1.scope),
    decreases e, 0nat,
{
    match e {
        solidity::Expression::ArraySubscript(container, Some(index)) => {
            lemma_expression_keeps(state, *container);
            let s1 = (translated_expression(state, *container)->Ok_0).1;
            lemma_expression_keeps(s1, *index);
            let s2 = (translated_expression(s1, *index)->Ok_0).1;
            lemma_same_trans(state.scope, s1.scope, s2.scope);
        },
        _ => {},
    }
}

proof fn lemma_step_keeps(state: TranslationState, op: BinaryOperator, target: solidity::Expression)
    requires
        translated_step(state, op, target) is Ok,
    ensures
        same_bindings(state.scope, (translated_step(state, op, target)->Ok_0).1.scope),
    decreases target, 2nat,
{
    match target {
        solidity::Expression::Variable(name) => {
            lemma_use_keeps(state.scope, name@, true);
        },
        _ => {
            lemma_expression_keeps(state, target);
        },
    }
}

proof fn lemma_step_value_keeps(
    state: TranslationState,
    op: BinaryOperator,
    undo: Option<BinaryOperator>,
    target: solidity::Expression,
)
    requires
        translated_step_value(state, op, undo, target) is Ok,
    ensures
        same_bindings(state.scope, (translated_step_value(state, op, undo, target)->Ok_0).1.scope),
    decreases target, 3nat,
{
    lemma_step_keeps(state, op, target);
    let s1 = (translated_step(state, op, target)->Ok_0).1;
    lemma_expression_keeps(s1, target);
    let s2 = (translated_expression(s1, target)->Ok_0).1;
    lemma_same_trans(state.scope, s1.scope, s2.scope);
}

proof fn lemma_assignment_keeps(state: TranslationState, e: solidity::Expression)
    requires
        translated_assignment(state, e) is Ok,
    ensures
        same_bindings(state.scope, (translated_assignment(state, e)->Ok_0).1.scope),
    decreases e, 0nat,
{
    match e {
        solidity::Expression::Assign(op, lhs, rhs) => match *lhs {
            solidity::Expression::Variable(name) => {
                lemma_use_keeps(state.scope, name@, true);
                let s1 = TranslationState { scope: state.scope.with_mutation(name@), ..state };
                lemma_expression_keeps(s1, *rhs);
                let s2 = (translated_expression(s1, *rhs)->Ok_0).1;
                lemma_same_trans(state.scope, s1.scope, s2.scope);
            },
            _ => {
                lemma_expression_keeps(state, *lhs);
                let s1 = (translated_expression(state, *lhs)->Ok_0).1;
                lemma_expression_keeps(s1, *rhs);
                let s2 = (translated_expression(s1, *rhs)->Ok_0).1;
                lemma_same_trans(state.scope, s1.scope, s2.scope);
            },
        },
        _ => {},
    }
}

/// Translating expressions in order declares nothing.
pub proof fn lemma_expressions_keep(state: TranslationState, es: Seq<solidity::Expression>)
    requires
        translated_expressions(state, es) is Ok,
    ensures
        same_bindings(state.scope, (translated_expressions(state, es)->Ok_0).1.scope),
    decreases es, 0nat,
{
    lemma_same_refl(state.scope);
    if es.len() > 0 {
        lemma_expressions_keep(state, es.drop_last());
        let s1 = (translated_expressions(state, es.drop_last())->Ok_0).1;
        lemma_expression_keeps(s1, es.last());
        let s2 = (translated_expression(s1, es.last())->Ok_0).1;
        lemma_same_trans(state.scope, s1.scope, s2.scope);
    }
}


proof fn lemma_state_after_expression(state: TranslationState, e: solidity::Expression)
    requires
        translated_expression(state, e) is Ok,
    ensures
        extends(state.scope, (translated_expression(state, e)->Ok_0).1.scope),
{
    lemma_expression_keeps(state, e);
    lemma_same_extends(state.scope, (translated_expression(state, e)->Ok_0).1.scope);
}

proof fn lemma_list_entry_extends(
    project: ProjectView,
    state: TranslationState,
    parameter: Option<solidity::Parameter>,
)
    requires
        translated_list_entry(project, state, parameter) is Ok,
    ensures
        extends(state.scope, (translated_list_entry(project, state, parameter)->Ok_0).2.scope),
{
    lemma_same_refl(state.scope);
    lemma_same_extends(state.scope, state.scope);
    let result = (translated_list_entry(project, state, parameter)->Ok_0).2.scope;
    if result != state.scope {
        let v = choose|v: TranslatedVariableView| result == state.scope.declare(v);
        lemma_declare_extends(state.scope, v);
    }
}

proof fn lemma_list_extends(
    project: ProjectView,
    state: TranslationState,
    parameters: Seq<Option<solidity::Parameter>>,
)
    requires
        translated_list(project, state, parameters) is Ok,
    ensures
        extends(state.scope, (translated_list(project, state, parameters)->Ok_0).2.scope),
    decreases parameters.len(),
{
    lemma_same_refl(state.scope);
    lemma_same_extends(state.scope, state.scope);
    if parameters.len() > 0 {
        lemma_list_extends(project, state, parameters.drop_last());
        let s1 = (translated_list(project, state, parameters.drop_last())->Ok_0).2;
        lemma_list_entry_extends(project, s1, parameters.last());
        let s2 = (translated_list_entry(project, s1, parameters.last())->Ok_0).2;
        lemma_extends_trans(state.scope, s1.scope, s2.scope);
    }
}

proof fn lemma_expression_statement_extends(project: ProjectView, state: TranslationState, e: solidity::Expression)
    requires
        translated_expression_statement(project, state, e) is Ok,
    ensures
        extends(state.scope, (translated_expression_statement(project, state, e)->Ok_0).1.scope),
{
    match e {
        solidity::Expression::Assign(None, lhs, rhs) => match *lhs {
            solidity::Expression::List(parameters) => {
                lemma_list_extends(project, state, parameters@);
                let s1 = (translated_list(project, state, parameters@)->Ok_0).2;
                lemma_state_after_expression(s1, *rhs);
                let s2 = (translated_expression(s1, *rhs)->Ok_0).1;
                lemma_extends_trans(state.scope, s1.scope, s2.scope);
            },
            _ => {
                lemma_state_after_expression(state, e);
            },
        },
        solidity::Expression::PreDecrement(x) => {
            lemma_step_keeps(state, BinaryOperator::Subtract, *x);
            lemma_same_extends(state.scope, (translated_step(state, BinaryOperator::Subtract, *x)->Ok_0).1.scope);
        },
        solidity::Expression::PostDecrement(x) => {
            lemma_step_keeps(state, BinaryOperator::Subtract, *x);
            lemma_same_extends(state.scope, (translated_step(state, BinaryOperator::Subtract, *x)->Ok_0).1.scope);
        },
        solidity::Expression::PreIncrement(x) => {
            lemma_step_keeps(state, BinaryOperator::Add, *x);
            lemma_same_extends(state.scope, (translated_step(state, BinaryOperator::Add, *x)->Ok_0).1.scope);
        },
        solidity::Expression::PostIncrement(x) => {
            lemma_step_keeps(state, BinaryOperator::Add, *x);
            lemma_same_extends(state.scope, (translated_step(state, BinaryOperator::Add, *x)->Ok_0).1.scope);
        },
        _ => {
            lemma_state_after_expression(state, e);
        },
    }
}

proof fn lemma_initializer_keeps(
    project: ProjectView,
    state: TranslationState,
    t: crate::sway::model::TypeNameView,
    initializer: Option<solidity::Expression>,
)
    requires
        translated_initializer(project, state, t, initializer) is Ok,
    ensures
        same_bindings(state.scope, (translated_initializer(project, state, t, initializer)->Ok_0).1.scope),
{
    lemma_same_refl(state.scope);
    match initializer {
        None => {},
        Some(x) => match x {
            solidity::Expression::New(created) => {
                match *created {
                    solidity::Expression::FunctionCall(ty, arguments) => {
                        let s1 = (translated_new(project, state, t, *created)->Ok_0).1;
                        if (translated_new(project, state, t, *created)->Ok_0).0 is Some {
                            let d = s1.definition;
                            let before = choose|before: TranslationState|
                                before.scope == state.scope && #[trigger] translated_expression(before, arguments@[0]) is Ok
                                    && (translated_expression(before, arguments@[0])->Ok_0).1 == s1;
                            lemma_expression_keeps(before, arguments@[0]);
                        } else {
                            lemma_expression_keeps(s1, x);
                        }
                    },
                    _ => {},
                }
            },
            _ => {
                lemma_expression_keeps(state, x);
            },
        },
    }
}

proof fn lemma_variable_definition_extends(
    project: ProjectView,
    state: TranslationState,
    declaration: solidity::VariableDeclaration,
    initializer: Option<solidity::Expression>,
)
    requires
        translated_variable_definition(project, state, declaration, initializer) is Ok,
    ensures
        extends(
            state.scope,
            (translated_variable_definition(project, state, declaration, initializer)->Ok_0).1.scope,
        ),
{
    let result = (translated_variable_definition(project, state, declaration, initializer)->Ok_0).1.scope;
    let before = choose|before: TranslationState, t: crate::sway::model::TypeNameView|
        before.scope == state.scope && #[trigger] translated_initializer(project, before, t, initializer) is Ok && exists|
            v: TranslatedVariableView,
        | result == (translated_initializer(project, before, t, initializer)->Ok_0).1.scope.declare(v);
    let s1 = (translated_initializer(project, before.0, before.1, initializer)->Ok_0).1;
    lemma_initializer_keeps(project, before.0, before.1, initializer);
    let v = choose|v: TranslatedVariableView| result == s1.scope.declare(v);
    lemma_declare_extends(s1.scope, v);
    lemma_same_then_extends(state.scope, s1.scope, result);
}

proof fn lemma_update_keeps(state: TranslationState, update: solidity::Expression)
    requires
        translated_update(state, update) is Ok,
    ensures
        same_bindings(state.scope, (translated_update(state, update)->Ok_0).1.scope),
{
    match update {
        solidity::Expression::PreDecrement(x) => {
            lemma_step_keeps(state, BinaryOperator::Subtract, *x);
        },
        solidity::Expression::PostDecrement(x) => {
            lemma_step_keeps(state, BinaryOperator::Subtract, *x);
        },
        solidity::Expression::PreIncrement(x) => {
            lemma_step_keeps(state, BinaryOperator::Add, *x);
        },
        solidity::Expression::PostIncrement(x) => {
            lemma_step_keeps(state, BinaryOperator::Add, *x);
        },
        _ => {
            lemma_expression_keeps(state, update);
        },
    }
}

proof fn lemma_revert_keeps(state: TranslationState, error_type: Option<String>, parameters: Seq<solidity::Expression>)
    requires
        translated_revert(state, error_type, parameters) is Ok,
    ensures
        same_bindings(state.scope, (translated_revert(state, error_type, parameters)->Ok_0).1.scope),
{
    lemma_same_refl(state.scope);
    if error_type is Some {
        lemma_expressions_keep(state, parameters);
    }
}

proof fn lemma_emit_keeps(state: TranslationState, e: solidity::Expression)
    requires
        translated_emit(state, e) is Ok,
    ensures
        same_bindings(state.scope, (translated_emit(state, e)->Ok_0).1.scope),
{
    match e {
        solidity::Expression::FunctionCall(callee, arguments) => match *callee {
            solidity::Expression::Variable(name) => {
                lemma_expressions_keep(state, arguments@);
            },
            _ => {},
        },
        _ => {},
    }
}

proof fn lemma_return_keeps(state: TranslationState, e: Option<solidity::Expression>)
    requires
        translated_return(state, e) is Ok,
    ensures
        same_bindings(state.scope, (translated_return(state, e)->Ok_0).1.scope),
{
    lemma_same_refl(state.scope);
    if let Some(x) = e {
        lemma_expression_keeps(state, x);
    }
}

/// Translating a statement declares variables in the innermost scope
/// only, after the variables that the scope has.
pub proof fn lemma_statement_extends(project: ProjectView, state: TranslationState, statement: solidity::Statement)
    requires
        translated_statement(project, state, statement) is Ok,
    ensures
        extends(state.scope, (translated_statement(project, state, statement)->Ok_0).1.scope),
    decreases statement, 1nat,
{
    lemma_same_refl(state.scope);
    lemma_same_extends(state.scope, state.scope);
    match statement {
        solidity::Statement::Block { statements } => {
            lemma_block_statement_keeps(project, state, statements@);
            lemma_same_extends(
                state.scope,
                (translated_block_statement(project, state, statements@)->Ok_0).1.scope,
            );
        },
        solidity::Statement::If(_, _, _) => {
            lemma_if_extends(project, state, statement);
        },
        solidity::Statement::While(_, _) => {
            lemma_while_extends(project, state, statement);
        },
        solidity::Statement::Expression(e) => {
            lemma_expression_statement_extends(project, state, e);
        },
        solidity::Statement::VariableDefinition(declaration, initializer) => {
            lemma_variable_definition_extends(project, state, declaration, initializer);
        },
        solidity::Statement::For(_, _, _, _) => {
            lemma_for_loop_declares_nothing(project, state, statement);
            lemma_same_extends(state.scope, (translated_for(project, state, statement)->Ok_0).1.scope);
        },
        solidity::Statement::Return(e) => {
            lemma_return_keeps(state, e);
            lemma_same_extends(state.scope, (translated_return(state, e)->Ok_0).1.scope);
        },
        solidity::Statement::Revert(error_type, parameters) => {
            lemma_revert_keeps(state, error_type, parameters@);
            lemma_same_extends(state.scope, (translated_revert(state, error_type, parameters@)->Ok_0).1.scope);
        },
        solidity::Statement::Emit(e) => {
            lemma_emit_keeps(state, e);
            lemma_same_extends(state.scope, (translated_emit(state, e)->Ok_0).1.scope);
        },
        _ => {},
    }
}

proof fn lemma_if_extends(project: ProjectView, state: TranslationState, statement: solidity::Statement)
    requires
        translated_if(project, state, statement) is Ok,
    ensures
        extends(state.scope, (translated_if(project, state, statement)->Ok_0).1.scope),
    decreases statement, 0nat,
{
    match statement {
        solidity::Statement::If(condition, then, otherwise) => {
            lemma_expression_keeps(state, condition);
            let s1 = (translated_expression(state, condition)->Ok_0).1;
            lemma_statement_extends(project, s1, *then);
            let s2 = (translated_statement(project, s1, *then)->Ok_0).1;
            lemma_same_then_extends(state.scope, s1.scope, s2.scope);
            if let Some(o) = otherwise {
                lemma_statement_extends(project, s2, *o);
                let s3 = (translated_statement(project, s2, *o)->Ok_0).1;
                lemma_extends_trans(state.scope, s2.scope, s3.scope);
            }
        },
        _ => {},
    }
}

proof fn lemma_while_extends(project: ProjectView, state: TranslationState, statement: solidity::Statement)
    requires
        translated_while(project, state, statement) is Ok,
    ensures
        extends(state.scope, (translated_while(project, state, statement)->Ok_0).1.scope),
    decreases statement, 0nat,
{
    match statement {
        solidity::Statement::While(condition, body) => {
            lemma_expression_keeps(state, condition);
            let s1 = (translated_expression(state, condition)->Ok_0).1;
            lemma_statement_extends(project, s1, *body);
            let s2 = (translated_statement(project, s1, *body)->Ok_0).1;
            lemma_same_then_extends(state.scope, s1.scope, s2.scope);
        },
        _ => {},
    }
}

proof fn lemma_statements_extend(
    project: ProjectView,
    state: TranslationState,
    statements: Seq<solidity::Statement>,
)
    requires
        translated_statements(project, state, statements) is Ok,
    ensures
        extends(state.scope, (translated_statements(project, state, statements)->Ok_0).1.scope),
    decreases statements, 0nat,
{
    lemma_same_refl(state.scope);
    lemma_same_extends(state.scope, state.scope);
    if statements.len() > 0 {
        lemma_statements_extend(project, state, statements.drop_last());
        let r1 = translated_statements(project, state, statements.drop_last())->Ok_0;
        lemma_statement_extends(project, r1.1, statements.last());
        let r2 = translated_statement(project, r1.1, statements.last())->Ok_0;
        lemma_index_keeps(r2.1.scope, r2.0, r1.0.len() as usize);
        lemma_extends_trans(state.scope, r1.1.scope, r2.1.scope);
        lemma_extends_trans(
            state.scope,
            r2.1.scope,
            with_declaration_index(r2.1.scope, r2.0, r1.0.len() as usize),
        );
    }
}

proof fn lemma_block_statement_keeps(
    project: ProjectView,
    state: TranslationState,
    statements: Seq<solidity::Statement>,
)
    requires
        translated_block_statement(project, state, statements) is Ok,
    ensures
        same_bindings(state.scope, (translated_block_statement(project, state, statements)->Ok_0).1.scope),
    decreases statements, 2nat,
{
    lemma_statements_extend(project, entered(state), statements);
    let s1 = (translated_statements(project, entered(state), statements)->Ok_0).1;
    lemma_child_is_discarded(state.scope, s1.scope);
}

proof fn lemma_initialization_extends(
    project: ProjectView,
    state: TranslationState,
    initialization: Option<Box<solidity::Statement>>,
)
    requires
        translated_initialization(project, state, initialization) is Ok,
    ensures
        extends(state.scope, (translated_initialization(project, state, initialization)->Ok_0).1.scope),
    decreases initialization, 2nat,
{
    lemma_same_refl(state.scope);
    lemma_same_extends(state.scope, state.scope);
    if let Some(i) = initialization {
        lemma_statement_extends(project, state, *i);
        let r = translated_statement(project, state, *i)->Ok_0;
        lemma_index_keeps(r.1.scope, r.0, 0);
        lemma_extends_trans(state.scope, r.1.scope, with_declaration_index(r.1.scope, r.0, 0));
    }
}

proof fn lemma_body_extends(project: ProjectView, state: TranslationState, body: Option<Box<solidity::Statement>>)
    requires
        translated_body(project, state, body) is Ok,
    ensures
        extends(state.scope, (translated_body(project, state, body)->Ok_0).1.scope),
    decreases body, 2nat,
{
    lemma_same_refl(state.scope);
    lemma_same_extends(state.scope, state.scope);
    if let Some(b) = body {
        lemma_statement_extends(project, state, *b);
    }
}

/// For-loop desugaring keeps the induction variable to itself: the scope
/// after a `for` loop declares what the scope before it declares, scope
/// by scope, whatever the initialization of the loop declares.
pub proof fn lemma_for_loop_declares_nothing(
    project: ProjectView,
    state: TranslationState,
    statement: solidity::Statement,
)
    requires
        translated_for(project, state, statement) is Ok,
    ensures
        same_bindings(state.scope, (translated_for(project, state, statement)->Ok_0).1.scope),
    decreases statement, 0nat,
{
    match statement {
        solidity::Statement::For(initialization, condition, update, body) => {
            let s0 = entered(state);
            lemma_initialization_extends(project, s0, initialization);
            let s1 = (translated_initialization(project, s0, initialization)->Ok_0).1;
            lemma_same_refl(s1.scope);
            if let Some(c) = condition {
                lemma_expression_keeps(s1, *c);
            }
            let s2 = (translated_condition(s1, condition)->Ok_0).1;
            lemma_extends_then_same(s0.scope, s1.scope, s2.scope);
            lemma_body_extends(project, s2, body);
            let s3 = (translated_body(project, s2, body)->Ok_0).1;
            lemma_extends_trans(s0.scope, s2.scope, s3.scope);
            lemma_same_refl(s3.scope);
            if let Some(u) = update {
                lemma_update_keeps(s3, *u);
            }
            let s4 = (translated_optional_update(s3, update)->Ok_0).1;
            lemma_extends_then_same(s0.scope, s3.scope, s4.scope);
            lemma_child_is_discarded(state.scope, s4.scope);
        },
        _ => {},
    }
}

/// Whether the update of a loop is `name++` or `++name`.
pub open spec fn increments(update: solidity::Expression, name: Seq<char>) -> bool {
    match update {
        solidity::Expression::PreIncrement(x) => *x matches solidity::Expression::Variable(n) && n@ == name,
        solidity::Expression::PostIncrement(x) => *x matches solidity::Expression::Variable(n) && n@ == name,
        _ => false,
    }
}

/// Whether the body of a loop is absent or a block.
pub open spec fn is_block_or_absent(body: Option<Box<solidity::Statement>>) -> bool {
    match body {
        Some(b) => *b is Block,
        None => true,
    }
}

/// For-loop desugaring appends the update: a `for` loop whose update is
/// `name++` or `++name`, and whose body is a block or absent, becomes a
/// block that ends in the `while` loop of the translated condition, and
/// the body of that loop is the translated body followed by the compound
/// assignment by 1 to the variable that `name` is after the
/// initialization of the loop.
pub proof fn lemma_for_loop_appends_update(
    project: ProjectView,
    state: TranslationState,
    initialization: Option<Box<solidity::Statement>>,
    condition: Option<Box<solidity::Expression>>,
    update: solidity::Expression,
    body: Option<Box<solidity::Statement>>,
    name: Seq<char>,
)
    requires
        increments(update, name),
        is_block_or_absent(body),
        translated_for(
            project,
            state,
            solidity::Statement::For(initialization, condition, Some(Box::new(update)), body),
        ) is Ok,
    ensures
        ({
            let whole = translated_for(
                project,
                state,
                solidity::Statement::For(initialization, condition, Some(Box::new(update)), body),
            )->Ok_0.0;
            let s1 = (translated_initialization(project, entered(state), initialization)->Ok_0).1;
            let (c, s2) = translated_condition(s1, condition)->Ok_0;
            let b = (translated_body(project, s2, body)->Ok_0).0;
            let v = s1.scope.variable_from_old_name(name);
            &&& v is Some
            &&& whole matches StatementView::Expression(ExpressionView::Block(block))
            &&& block.statements.len() > 0
            &&& block.statements.last() == statement_of(
                while_loop(
                    c,
                    BlockView {
                        statements: b.statements.push(
                            statement_of(assignment_to(v->0, Some(BinaryOperator::Add), decimal(1))),
                        ),
                        final_expr: b.final_expr,
                    },
                ),
            )
        }),
{
    let s0 = entered(state);
    let (first, s1) = translated_initialization(project, s0, initialization)->Ok_0;
    if let Some(c) = condition {
        lemma_expression_keeps(s1, *c);
    }
    lemma_same_refl(s1.scope);
    let (c, s2) = translated_condition(s1, condition)->Ok_0;
    lemma_same_refl(s2.scope);
    if let Some(b) = body {
        match *b {
            solidity::Statement::Block { statements } => {
                lemma_block_statement_keeps(project, s2, statements@);
            },
            _ => {},
        }
    }
    let (b, s3) = translated_body(project, s2, body)->Ok_0;
    lemma_same_trans(s1.scope, s2.scope, s3.scope);
    lemma_same_bindings_resolve_alike(s1.scope, s3.scope, name, false);
    let (u, s4) = translated_optional_update(s3, Some(Box::new(update)))->Ok_0;
    let block = BlockView {
        statements: first.push(statement_of(while_loop(c, with_update(b, u)))),
        final_expr: None,
    };
    lemma_finalization_keeps_last(block, s4.scope);
}

/// Whether the last of the variables is the local `name`, called
/// `new_name`, whose declaration is the first statement of its block.
pub open spec fn ends_in_local(s: Seq<TranslatedVariableView>, name: Seq<char>, new_name: Seq<char>) -> bool {
    &&& s.len() > 0
    &&& s.last().old_name == name
    &&& s.last().new_name == new_name
    &&& s.last().statement_index == Some(0usize)
    &&& !s.last().is_storage
}

proof fn lemma_initialization_declares(
    project: ProjectView,
    state: TranslationState,
    declaration: solidity::VariableDeclaration,
    initializer: Option<solidity::Expression>,
    name: Seq<char>,
)
    requires
        declaration.name matches Some(n) && n@ == name,
        case_converted(name, Case::Snake) != "_"@,
        translated_initialization(
            project,
            state,
            Some(Box::new(solidity::Statement::VariableDefinition(declaration, initializer))),
        ) is Ok,
    ensures
        ({
            let (first, s1) = translated_initialization(
                project,
                state,
                Some(Box::new(solidity::Statement::VariableDefinition(declaration, initializer))),
            )->Ok_0;
            &&& first.len() == 1
            &&& first[0] matches StatementView::Let(l) && l.pattern == LetPatternView::Identifier(
                LetIdentifierView { is_mutable: false, name: case_converted(name, Case::Snake) },
            )
            &&& ends_in_local(s1.scope.variables, name, case_converted(name, Case::Snake))
        }),
{
    let new_name = case_converted(name, Case::Snake);
    let definition = solidity::Statement::VariableDefinition(declaration, initializer);
    assert(translated_statement(project, state, definition) == translated_variable_definition(
        project,
        state,
        declaration,
        initializer,
    ));
    let (x, sd) = translated_variable_definition(project, state, declaration, initializer)->Ok_0;
    assert(sd.scope.variables.last().new_name == new_name);
    assert(indexed_all(sd.scope, seq![LetIdentifierView { is_mutable: false, name: new_name }], 0, 0) == sd.scope);
}

proof fn lemma_increment_counts(state: TranslationState, update: solidity::Expression, name: Seq<char>, new_name: Seq<char>)
    requires
        increments(update, name),
        ends_in_local(state.scope.variables, name, new_name),
        translated_update(state, update) is Ok,
    ensures
        ends_in_local((translated_update(state, update)->Ok_0).1.scope.variables, name, new_name),
        (translated_update(state, update)->Ok_0).1.scope.variables.last().mutation_count > 0,
{
    assert(named(name, false)(state.scope.variables.last()));
    assert(state.scope.with_use(name, true).variables == used_at(state.scope.variables, name, true));
}

proof fn lemma_same_bindings_end_alike(
    a: TranslationScopeView,
    b: TranslationScopeView,
    name: Seq<char>,
    new_name: Seq<char>,
)
    requires
        same_bindings(a, b),
        ends_in_local(a.variables, name, new_name),
    ensures
        ends_in_local(b.variables, name, new_name),
{
    assert(bindings(a.variables).len() == bindings(b.variables).len());
    assert(bindings(a.variables)[a.variables.len() - 1] == bindings(b.variables)[a.variables.len() - 1]);
}

/// For-loop desugaring increments the loop's own variable: in the block
/// that a `for` loop becomes whose initialization declares `name`, whose
/// update is `name++` or `++name`, and whose body is a block or absent,
/// the body of the `while` loop ends in the compound assignment by 1 to
/// the new name of the variable that the initialization declares.
pub proof fn lemma_for_loop_increments_its_variable(
    project: ProjectView,
    state: TranslationState,
    declaration: solidity::VariableDeclaration,
    initializer: Option<solidity::Expression>,
    condition: Option<Box<solidity::Expression>>,
    update: solidity::Expression,
    body: Option<Box<solidity::Statement>>,
    name: Seq<char>,
)
    requires
        declaration.name matches Some(n) && n@ == name,
        case_converted(name, Case::Snake) != "_"@,
        increments(update, name),
        is_block_or_absent(body),
        translated_for(
            project,
            state,
            solidity::Statement::For(
                Some(Box::new(solidity::Statement::VariableDefinition(declaration, initializer))),
                condition,
                Some(Box::new(update)),
                body,
            ),
        ) is Ok,
    ensures
        ({
            let initialization = Some(Box::new(solidity::Statement::VariableDefinition(declaration, initializer)));
            let whole = translated_for(
                project,
                state,
                solidity::Statement::For(initialization, condition, Some(Box::new(update)), body),
            )->Ok_0.0;
            let s1 = (translated_initialization(project, entered(state), initialization)->Ok_0).1;
            let (c, s2) = translated_condition(s1, condition)->Ok_0;
            let b = (translated_body(project, s2, body)->Ok_0).0;
            &&& whole matches StatementView::Expression(ExpressionView::Block(block))
            &&& block.statements.len() > 0
            &&& block.statements.last() == statement_of(
                while_loop(
                    c,
                    BlockView {
                        statements: b.statements.push(
                            statement_of(
                                binary(
                                    assignment_text(Some(BinaryOperator::Add)),
                                    identifier(case_converted(name, Case::Snake)),
                                    decimal(1),
                                ),
                            ),
                        ),
                        final_expr: b.final_expr,
                    },
                ),
            )
        }),
{
    let initialization = Some(Box::new(solidity::Statement::VariableDefinition(declaration, initializer)));
    lemma_initialization_declares(project, entered(state), declaration, initializer, name);
    let s1 = (translated_initialization(project, entered(state), initialization)->Ok_0).1;
    assert(named(name, false)(s1.scope.variables.last()));
    assert(s1.scope.variable_from_old_name(name) == Some(s1.scope.variables.last()));
    lemma_for_loop_appends_update(project, state, initialization, condition, update, body, name);
}

/// Mutability is back-patched for the induction variable of a loop: the
/// block that a `for` loop becomes whose initialization declares `name`,
/// whose update is `name++` or `++name`, and whose body is a block or
/// absent, holds the `let` of the variable with the variable mutable.
pub proof fn lemma_induction_variable_is_mutable(
    project: ProjectView,
    state: TranslationState,
    declaration: solidity::VariableDeclaration,
    initializer: Option<solidity::Expression>,
    condition: Option<Box<solidity::Expression>>,
    update: solidity::Expression,
    body: Option<Box<solidity::Statement>>,
    name: Seq<char>,
)
    requires
        declaration.name matches Some(n) && n@ == name,
        case_converted(name, Case::Snake) != "_"@,
        increments(update, name),
        is_block_or_absent(body),
        translated_for(
            project,
            state,
            solidity::Statement::For(
                Some(Box::new(solidity::Statement::VariableDefinition(declaration, initializer))),
                condition,
                Some(Box::new(update)),
                body,
            ),
        ) is Ok,
    ensures
        ({
            let whole = translated_for(
                project,
                state,
                solidity::Statement::For(
                    Some(Box::new(solidity::Statement::VariableDefinition(declaration, initializer))),
                    condition,
                    Some(Box::new(update)),
                    body,
                ),
            )->Ok_0.0;
            &&& whole matches StatementView::Expression(ExpressionView::Block(block))
            &&& exists|j: int|
                0 <= j < block.statements.len() && (#[trigger] block.statements[j] matches StatementView::Let(l)
                    && l.pattern == LetPatternView::Identifier(
                    LetIdentifierView { is_mutable: true, name: case_converted(name, Case::Snake) },
                ))
        }),
{
    let new_name = case_converted(name, Case::Snake);
    let initialization = Some(Box::new(solidity::Statement::VariableDefinition(declaration, initializer)));
    let s0 = entered(state);
    let (first, s1) = translated_initialization(project, s0, initialization)->Ok_0;
    lemma_initialization_declares(project, s0, declaration, initializer, name);
    if let Some(c) = condition {
        lemma_expression_keeps(s1, *c);
    }
    lemma_same_refl(s1.scope);
    let (c, s2) = translated_condition(s1, condition)->Ok_0;
    lemma_same_refl(s2.scope);
    if let Some(b) = body {
        match *b {
            solidity::Statement::Block { statements } => {
                lemma_block_statement_keeps(project, s2, statements@);
            },
            _ => {},
        }
    }
    let (b, s3) = translated_body(project, s2, body)->Ok_0;
    lemma_same_trans(s1.scope, s2.scope, s3.scope);
    lemma_same_bindings_end_alike(s1.scope, s3.scope, name, new_name);
    lemma_increment_counts(s3, update, name, new_name);
    let (u, s4) = translated_optional_update(s3, Some(Box::new(update)))->Ok_0;
    let block = BlockView {
        statements: first.push(statement_of(while_loop(c, with_update(b, u)))),
        final_expr: None,
    };
    let p = s4.scope.variables.len() - 1;
    lemma_finalization_marks_mutated(block, s4.scope, p);
    let done = finalized(block, s4.scope)->Ok_0;
    let j = choose|j: int|
        0 <= j < done.statements.len() && is_marked_let(block.statements[0], #[trigger] done.statements[j], new_name);
    assert(block.statements[0] == first[0]);
    assert(done.statements[j] matches StatementView::Let(l) && l.pattern == LetPatternView::Identifier(
        LetIdentifierView { is_mutable: true, name: new_name },
    ));
}

proof fn lemma_last_match_alike(a: Seq<TranslatedVariableView>, b: Seq<TranslatedVariableView>, name: Seq<char>, new: bool)
    requires
        bindings(a) == bindings(b),
    ensures
        match (last_match(a, named(name, new)), last_match(b, named(name, new))) {
            (Some(x), Some(y)) => binding(x) == binding(y),
            (None, None) => true,
            _ => false,
        },
    decreases a.len(),
{
    assert(bindings(a).len() == a.len());
    assert(bindings(b).len() == b.len());
    if a.len() > 0 {
        assert(bindings(a)[a.len() - 1] == binding(a.last()));
        assert(bindings(b)[b.len() - 1] == binding(b.last()));
        if !named(name, new)(a.last()) {
            assert(bindings(a.drop_last()) =~= bindings(b.drop_last())) by {
                assert forall|i: int| 0 <= i < a.len() - 1 implies bindings(a.drop_last())[i] == bindings(
                    b.drop_last(),
                )[i] by {
                    assert(bindings(a)[i] == binding(a[i]));
                    assert(bindings(b)[i] == binding(b[i]));
                }
            }
            lemma_last_match_alike(a.drop_last(), b.drop_last(), name, new);
        }
    }
}

/// Scopes that declare the same resolve names alike: a name resolves in
/// both or in neither, and to variables that bind the same.
pub proof fn lemma_same_bindings_resolve_alike(
    a: TranslationScopeView,
    b: TranslationScopeView,
    name: Seq<char>,
    new: bool,
)
    requires
        same_bindings(a, b),
    ensures
        match (a.variable_named(name, new), b.variable_named(name, new)) {
            (Some(x), Some(y)) => binding(x) == binding(y),
            (None, None) => true,
            _ => false,
        },
    decreases a,
{
    lemma_last_match_alike(a.variables, b.variables, name, new);
    if last_match(a.variables, named(name, new)) is None {
        if let Some(p) = a.parent {
            lemma_same_bindings_resolve_alike(*p, *b.parent->0, name, new);
        }
    }
}

} // verus!
