//! The translation of expressions.

use vstd::prelude::*;
use vstd::string::StringExecFns;
use crate::errors::{Construct, Error, ErrorView};
use crate::project::Project;
use crate::solidity;
use crate::solidity::BinaryOperator;
use crate::sway::{Array, ArrayAccess, Block, Expression, If, Literal, Statement, TypeName};
use crate::sway::model::{
    ArrayAccessView, ArrayView, BlockView, expression_models, ExpressionView, IfView, LiteralView,
    TypeNameView,
};
use crate::sway::shapes::{
    binary, block_of, call_named, decimal, identifier, make_binary, make_block, make_call_named,
    make_decimal, make_identifier, make_member_access, make_method_call, make_unary, member_access,
    method_call, no_expressions, one_expression, one_statement, statement_of, string_literal, unary,
};
use crate::text::{text, text_eq};
use crate::translate::{TranslatedDefinition, TranslatedVariable, TranslationScope};
use crate::translate::infer::{expression_type, expression_types};
use crate::translate::literals::{literal_value, parse_literal};
use crate::translate::model::{
    NameCountView, TranslatedDefinitionView, TranslatedVariableView, TranslationScopeView,
};
use crate::translate::scope::counted_once_more;

verus! {

/// What a translation carries from one step to the next: the definition
/// being built and the scope of the names in sight.
pub ghost struct TranslationState {
    pub definition: TranslatedDefinitionView,
    pub scope: TranslationScopeView,
}

/// The state made of a definition and a scope.
pub open spec fn state_of(definition: TranslatedDefinitionView, scope: TranslationScopeView) -> TranslationState {
    TranslationState { definition, scope }
}

/// The outcome of translating an expression: the expression and the state
/// afterwards, or the error that ended the translation.
pub type Translated = Result<(ExpressionView, TranslationState), ErrorView>;

/// The outcome that a result of the translator and the state it left
/// stand for.
pub open spec fn outcome(
    r: Result<Expression, Error>,
    definition: TranslatedDefinitionView,
    scope: TranslationScopeView,
) -> Translated {
    match r {
        Ok(e) => Ok((e@, state_of(definition, scope))),
        Err(error) => Err(error@),
    }
}

/// The text of an infix operator in the target language. Raising to a
/// power is no operator there.
pub open spec fn operator_text(op: BinaryOperator) -> Seq<char> {
    match op {
        BinaryOperator::Power => "**"@,
        BinaryOperator::Multiply => "*"@,
        BinaryOperator::Divide => "/"@,
        BinaryOperator::Modulo => "%"@,
        BinaryOperator::Add => "+"@,
        BinaryOperator::Subtract => "-"@,
        BinaryOperator::ShiftLeft => "<<"@,
        BinaryOperator::ShiftRight => ">>"@,
        BinaryOperator::BitwiseAnd => "&"@,
        BinaryOperator::BitwiseXor => "^"@,
        BinaryOperator::BitwiseOr => "|"@,
        BinaryOperator::Less => "<"@,
        BinaryOperator::More => ">"@,
        BinaryOperator::LessEqual => "<="@,
        BinaryOperator::MoreEqual => ">="@,
        BinaryOperator::Equal => "=="@,
        BinaryOperator::NotEqual => "!="@,
        BinaryOperator::And => "&&"@,
        BinaryOperator::Or => "||"@,
    }
}

/// The text of an assignment operator: `=`, or the operator before `=`.
pub open spec fn assignment_text(op: Option<BinaryOperator>) -> Seq<char> {
    match op {
        None => "="@,
        Some(op) => operator_text(op) + "="@,
    }
}

/// The counters with the one of `name` counted once more; a name without
/// counter gets one that stands at 1.
pub open spec fn counted(s: Seq<NameCountView>, name: Seq<char>) -> Seq<NameCountView>
    decreases s.len(),
{
    if s.len() == 0 {
        seq![NameCountView { name, count: 1 }]
    } else if s.first().name == name {
        seq![NameCountView { count: counted_once_more(s.first().count), ..s.first() }] + s.drop_first()
    } else {
        seq![s.first()] + counted(s.drop_first(), name)
    }
}

impl TranslatedDefinitionView {
    /// This definition with one more call of the function counted.
    pub open spec fn with_call(self, name: Seq<char>) -> TranslatedDefinitionView {
        TranslatedDefinitionView { function_call_counts: counted(self.function_call_counts, name), ..self }
    }
}

/// The storage field `storage.name`.
pub open spec fn storage_access(name: Seq<char>) -> ExpressionView {
    member_access(identifier("storage"@), name)
}

/// A use of the variable as a value: a read of the storage field, or the
/// variable's name.
pub open spec fn variable_value(v: TranslatedVariableView) -> ExpressionView {
    if v.is_storage {
        method_call(storage_access(v.new_name), "read"@, Seq::empty())
    } else {
        identifier(v.new_name)
    }
}

/// The assignment of `rhs` to the variable, plain or combined with an
/// operator: a write to the storage field, or an assignment to the name.
pub open spec fn assignment_to(v: TranslatedVariableView, op: Option<BinaryOperator>, rhs: ExpressionView) -> ExpressionView {
    if v.is_storage {
        method_call(
            storage_access(v.new_name),
            "write"@,
            seq![
                match op {
                    None => rhs,
                    Some(op) => binary(operator_text(op), variable_value(v), rhs),
                },
            ],
        )
    } else {
        binary(assignment_text(op), identifier(v.new_name), rhs)
    }
}

/// The texts joined in order.
pub open spec fn concatenated(parts: Seq<String>) -> Seq<char>
    decreases parts.len(),
{
    if parts.len() == 0 {
        Seq::empty()
    } else {
        concatenated(parts.drop_last()) + parts.last()@
    }
}

/// The conditional expression `if condition { then } else { otherwise }`.
pub open spec fn conditional(condition: ExpressionView, then: ExpressionView, otherwise: ExpressionView) -> ExpressionView {
    ExpressionView::If(
        Box::new(
            IfView {
                condition: Some(condition),
                then_body: BlockView { statements: Seq::empty(), final_expr: Some(then) },
                else_if: Some(
                    Box::new(
                        IfView {
                            condition: None,
                            then_body: BlockView { statements: Seq::empty(), final_expr: Some(otherwise) },
                            else_if: None,
                        },
                    ),
                ),
            },
        ),
    )
}

/// The element of `container` at `index`, by the type of the container:
/// an unwrapped `get` for a vector, an index for an array.
pub open spec fn element_access(t: TypeNameView, container: ExpressionView, index: ExpressionView) -> Option<ExpressionView> {
    match t {
        TypeNameView::Identifier { name, generic_parameters: Some(g) } => if name == "Vec"@ {
            Some(method_call(method_call(container, "get"@, seq![index]), "unwrap"@, Seq::empty()))
        } else {
            None
        },
        TypeNameView::Array { .. } => Some(
            ExpressionView::ArrayAccess(Box::new(ArrayAccessView { expression: container, index })),
        ),
        _ => None,
    }
}

/// The assignment `target op= 1`, as increments and decrements are
/// lowered. For a variable it is the assignment to the variable, whose
/// mutation is counted; for any other target it is the compound
/// assignment to the translation of the target.
pub open spec fn translated_step(state: TranslationState, op: BinaryOperator, target: solidity::Expression) -> Translated
    decreases target, 2nat,
{
    match target {
        solidity::Expression::Variable(name) => match state.scope.variable_from_old_name(name@) {
            Some(v) => Ok(
                (
                    assignment_to(v, Some(op), decimal(1)),
                    TranslationState { scope: state.scope.with_mutation(name@), ..state },
                ),
            ),
            None => Err(ErrorView::UnknownVariable(name@)),
        },
        _ => match translated_expression(state, target) {
            Err(error) => Err(error),
            Ok((place, s1)) => Ok((binary(assignment_text(Some(op)), place, decimal(1)), s1)),
        },
    }
}

/// The translation of the assignment `e`, plain or combined with an
/// operator other than raising to a power. For a variable it is the
/// assignment to the variable, whose mutation is counted before the
/// right-hand side is translated; for any other target it is the
/// assignment to the translation of the target, which is translated
/// before the right-hand side.
pub open spec fn translated_assignment(state: TranslationState, e: solidity::Expression) -> Translated
    decreases e, 0nat,
{
    match e {
        solidity::Expression::Assign(op, lhs, rhs) => match *lhs {
            solidity::Expression::Variable(name) => match state.scope.variable_from_old_name(name@) {
                Some(v) => if op == Some(BinaryOperator::Power) {
                    Err(ErrorView::Unsupported(Construct::Expression@))
                } else {
                    match translated_expression(
                        TranslationState { scope: state.scope.with_mutation(name@), ..state },
                        *rhs,
                    ) {
                        Err(error) => Err(error),
                        Ok((value, after)) => Ok((assignment_to(v, op, value), after)),
                    }
                },
                None => Err(ErrorView::UnknownVariable(name@)),
            },
            _ => match translated_expression(state, *lhs) {
                Err(error) => Err(error),
                Ok((place, s1)) => if op == Some(BinaryOperator::Power) {
                    Err(ErrorView::Unsupported(Construct::Expression@))
                } else {
                    match translated_expression(s1, *rhs) {
                        Err(error) => Err(error),
                        Ok((value, s2)) => Ok((binary(assignment_text(op), place, value), s2)),
                    }
                },
            },
        },
        _ => Err(ErrorView::Unsupported(Construct::Expression@)),
    }
}

/// The value of an increment or decrement: a block that changes the
/// variable and then yields it, as it is (prefix form) or as it was
/// (postfix form, with the change undone by `undo`).
pub open spec fn translated_step_value(
    state: TranslationState,
    op: BinaryOperator,
    undo: Option<BinaryOperator>,
    target: solidity::Expression,
) -> Translated
    decreases target, 3nat,
{
    match translated_step(state, op, target) {
        Err(error) => Err(error),
        Ok((change, s1)) => match translated_expression(s1, target) {
            Err(error) => Err(error),
            Ok((value, s2)) => Ok(
                (
                    block_of(
                        seq![statement_of(change)],
                        Some(
                            match undo {
                                Some(undo) => binary(operator_text(undo), value, decimal(1)),
                                None => value,
                            },
                        ),
                    ),
                    s2,
                ),
            ),
        },
    }
}

/// The translation of a parenthesised expression or of a prefix operation.
pub open spec fn translated_unary(state: TranslationState, e: solidity::Expression) -> Translated
    decreases e, 0nat,
{
    match e {
        solidity::Expression::Parenthesis(inner) => match translated_expression(state, *inner) {
            Err(error) => Err(error),
            Ok((x, s1)) => Ok((ExpressionView::Tuple(seq![x]), s1)),
        },
        solidity::Expression::Unary(op, inner) => match op {
            solidity::UnaryOperator::Delete => Err(ErrorView::Unsupported(Construct::Expression@)),
            _ => match translated_expression(state, *inner) {
                Err(error) => Err(error),
                Ok((x, s1)) => Ok(
                    (
                        match op {
                            solidity::UnaryOperator::Negate => unary("-"@, x),
                            solidity::UnaryOperator::UnaryPlus => x,
                            _ => unary("!"@, x),
                        },
                        s1,
                    ),
                ),
            },
        },
        _ => Err(ErrorView::Unsupported(Construct::Expression@)),
    }
}

/// The translation of an infix operation: the operands in order, joined
/// by the operator; raising to a power becomes a call of `pow`.
pub open spec fn translated_binary(state: TranslationState, e: solidity::Expression) -> Translated
    decreases e, 0nat,
{
    match e {
        solidity::Expression::Binary(op, lhs, rhs) => match translated_expression(state, *lhs) {
            Err(error) => Err(error),
            Ok((l, s1)) => match translated_expression(s1, *rhs) {
                Err(error) => Err(error),
                Ok((r, s2)) => Ok(
                    (
                        if op == BinaryOperator::Power {
                            method_call(l, "pow"@, seq![r])
                        } else {
                            binary(operator_text(op), l, r)
                        },
                        s2,
                    ),
                ),
            },
        },
        _ => Err(ErrorView::Unsupported(Construct::Expression@)),
    }
}

/// The translation of `condition ? then : otherwise`.
pub open spec fn translated_conditional(state: TranslationState, e: solidity::Expression) -> Translated
    decreases e, 0nat,
{
    match e {
        solidity::Expression::ConditionalOperator(condition, then, otherwise) => match translated_expression(
            state,
            *condition,
        ) {
            Err(error) => Err(error),
            Ok((c, s1)) => match translated_expression(s1, *then) {
                Err(error) => Err(error),
                Ok((t, s2)) => match translated_expression(s2, *otherwise) {
                    Err(error) => Err(error),
                    Ok((o, s3)) => Ok((conditional(c, t, o), s3)),
                },
            },
        },
        _ => Err(ErrorView::Unsupported(Construct::Expression@)),
    }
}

/// The call that the translated arguments resolve to, with the call
/// counted.
pub open spec fn resolved_call(state: TranslationState, name: Seq<char>, parameters: Seq<ExpressionView>) -> Translated {
    match expression_types(state.definition, state.scope, parameters) {
        Err(error) => Err(error),
        Ok(types) => match state.scope.function_matching_types(name, parameters.len(), types) {
            Some(f) => Ok(
                (
                    call_named(f.new_name, parameters),
                    TranslationState { definition: state.definition.with_call(f.new_name), ..state },
                ),
            ),
            None => Err(ErrorView::UnknownFunction(name)),
        },
    }
}

/// The translation of a call of a function by its name: the arguments are
/// translated in order, and the function is resolved by their types.
pub open spec fn translated_call(state: TranslationState, e: solidity::Expression) -> Translated
    decreases e, 0nat,
{
    match e {
        solidity::Expression::FunctionCall(callee, arguments) => match *callee {
            solidity::Expression::Variable(name) => match translated_expressions(state, arguments@) {
                Err(error) => Err(error),
                Ok((parameters, s1)) => resolved_call(s1, name@, parameters),
            },
            _ => Err(ErrorView::Unsupported(Construct::Expression@)),
        },
        _ => Err(ErrorView::Unsupported(Construct::Expression@)),
    }
}

/// The access to the element that the translated container and index
/// stand for, by the type of the container.
pub open spec fn resolved_subscript(state: TranslationState, container: ExpressionView, index: ExpressionView) -> Translated {
    match expression_type(state.definition, state.scope, container) {
        Err(error) => Err(error),
        Ok(t) => match element_access(t, container, index) {
            Some(x) => Ok((x, state)),
            None => Err(ErrorView::Unsupported(Construct::Expression@)),
        },
    }
}

/// The translation of `container[index]`.
pub open spec fn translated_subscript(state: TranslationState, e: solidity::Expression) -> Translated
    decreases e, 0nat,
{
    match e {
        solidity::Expression::ArraySubscript(container, Some(index)) => match translated_expression(
            state,
            *container,
        ) {
            Err(error) => Err(error),
            Ok((c, s1)) => match translated_expression(s1, *index) {
                Err(error) => Err(error),
                Ok((i, s2)) => resolved_subscript(s2, c, i),
            },
        },
        _ => Err(ErrorView::Unsupported(Construct::Expression@)),
    }
}

/// The translation of a use of a variable as a value; the read is counted.
pub open spec fn translated_variable(state: TranslationState, name: Seq<char>) -> Translated {
    match state.scope.variable_from_old_name(name) {
        Some(v) => Ok((variable_value(v), TranslationState { scope: state.scope.with_read(name), ..state })),
        None => Err(ErrorView::UnknownVariable(name)),
    }
}

/// The translation of a literal.
pub open spec fn translated_literal(e: solidity::Expression) -> Result<ExpressionView, ErrorView> {
    match e {
        solidity::Expression::BoolLiteral(b) => Ok(ExpressionView::Literal(LiteralView::Bool(b))),
        solidity::Expression::NumberLiteral(digits) => match literal_value(digits@, false) {
            Some(v) => Ok(ExpressionView::Literal(LiteralView::DecInt(v))),
            None => Err(ErrorView::InvalidLiteral(digits@)),
        },
        solidity::Expression::HexNumberLiteral(digits) => match literal_value(digits@, true) {
            Some(v) => Ok(ExpressionView::Literal(LiteralView::HexInt(v))),
            None => Err(ErrorView::InvalidLiteral(digits@)),
        },
        solidity::Expression::StringLiteral(parts) => Ok(string_literal(concatenated(parts@))),
        _ => Err(ErrorView::Unsupported(Construct::Expression@)),
    }
}

/// The translation of an expression.
///
/// * Literals keep their value; a number literal has to fit in 64 bits.
/// * A variable becomes its new name, or a read of its storage field; the
///   read is counted.
/// * Operators keep their operands in order; raising to a power becomes a
///   call of `pow`.
/// * An assignment becomes an assignment to the new name, or a write to
///   the storage field; the mutation is counted.
/// * An increment or decrement becomes a block that changes the variable
///   and yields its value.
/// * A call of a function by name is resolved by the types of its
///   translated arguments; the call is counted.
/// * Indexing is lowered by the type of what is indexed.
pub open spec fn translated_expression(state: TranslationState, e: solidity::Expression) -> Translated
    decreases e, 1nat,
{
    match e {
        solidity::Expression::BoolLiteral(_) | solidity::Expression::NumberLiteral(_)
        | solidity::Expression::HexNumberLiteral(_) | solidity::Expression::StringLiteral(_) => match translated_literal(
            e,
        ) {
            Ok(x) => Ok((x, state)),
            Err(error) => Err(error),
        },
        solidity::Expression::Variable(name) => translated_variable(state, name@),
        solidity::Expression::Parenthesis(_) | solidity::Expression::Unary(_, _) => translated_unary(state, e),
        solidity::Expression::PreIncrement(x) => translated_step_value(state, BinaryOperator::Add, None, *x),
        solidity::Expression::PreDecrement(x) => translated_step_value(state, BinaryOperator::Subtract, None, *x),
        solidity::Expression::PostIncrement(x) => translated_step_value(
            state,
            BinaryOperator::Add,
            Some(BinaryOperator::Subtract),
            *x,
        ),
        solidity::Expression::PostDecrement(x) => translated_step_value(
            state,
            BinaryOperator::Subtract,
            Some(BinaryOperator::Add),
            *x,
        ),
        solidity::Expression::Binary(_, _, _) => translated_binary(state, e),
        solidity::Expression::Assign(_, _, _) => translated_assignment(state, e),
        solidity::Expression::ConditionalOperator(_, _, _) => translated_conditional(state, e),
        solidity::Expression::FunctionCall(_, _) => translated_call(state, e),
        solidity::Expression::ArrayLiteral(elements) => match translated_expressions(state, elements@) {
            Err(error) => Err(error),
            Ok((xs, s1)) => Ok((ExpressionView::Array(ArrayView { elements: xs }), s1)),
        },
        solidity::Expression::ArraySubscript(_, _) => translated_subscript(state, e),
        _ => Err(ErrorView::Unsupported(Construct::Expression@)),
    }
}

/// The translations of the expressions in order, each in the state that
/// the one before it left.
pub open spec fn translated_expressions(state: TranslationState, es: Seq<solidity::Expression>) -> Result<
    (Seq<ExpressionView>, TranslationState),
    ErrorView,
>
    decreases es, 0nat,
{
    if es.len() == 0 {
        Ok((Seq::empty(), state))
    } else {
        match translated_expressions(state, es.drop_last()) {
            Err(error) => Err(error),
            Ok((xs, s1)) => match translated_expression(s1, es.last()) {
                Err(error) => Err(error),
                Ok((x, s2)) => Ok((xs.push(x), s2)),
            },
        }
    }
}

proof fn lemma_expressions_fail(state: TranslationState, es: Seq<solidity::Expression>, n: int)
    requires
        0 <= n <= es.len(),
        translated_expressions(state, es.subrange(0, n)) is Err,
    ensures
        translated_expressions(state, es) == translated_expressions(state, es.subrange(0, n)),
    decreases es.len() - n,
{
    if n == es.len() {
        assert(es.subrange(0, n) =~= es);
    } else {
        let s = es.subrange(0, n + 1);
        assert(s.drop_last() =~= es.subrange(0, n));
        lemma_expressions_fail(state, es, n + 1);
    }
}

/// The text of an infix operator in the target language.
pub fn operator_text_of(op: BinaryOperator) -> (r: &'static str)
    ensures
        r@ == operator_text(op),
{
    match op {
        BinaryOperator::Power => "**",
        BinaryOperator::Multiply => "*",
        BinaryOperator::Divide => "/",
        BinaryOperator::Modulo => "%",
        BinaryOperator::Add => "+",
        BinaryOperator::Subtract => "-",
        BinaryOperator::ShiftLeft => "<<",
        BinaryOperator::ShiftRight => ">>",
        BinaryOperator::BitwiseAnd => "&",
        BinaryOperator::BitwiseXor => "^",
        BinaryOperator::BitwiseOr => "|",
        BinaryOperator::Less => "<",
        BinaryOperator::More => ">",
        BinaryOperator::LessEqual => "<=",
        BinaryOperator::MoreEqual => ">=",
        BinaryOperator::Equal => "==",
        BinaryOperator::NotEqual => "!=",
        BinaryOperator::And => "&&",
        BinaryOperator::Or => "||",
    }
}

fn assignment_text_of(op: Option<BinaryOperator>) -> (r: String)
    ensures
        r@ == assignment_text(op),
{
    match op {
        None => text("="),
        Some(op) => String::from_str(operator_text_of(op)).concat("="),
    }
}

fn storage_access_of(name: &str) -> (r: Expression)
    ensures
        r@ == storage_access(name@),
{
    make_member_access(make_identifier("storage"), name)
}

fn variable_value_of(v: &TranslatedVariable) -> (r: Expression)
    ensures
        r@ == variable_value(v@),
{
    if v.is_storage {
        make_method_call(storage_access_of(v.new_name.as_str()), "read", no_expressions())
    } else {
        make_identifier(v.new_name.as_str())
    }
}

fn assignment_to_variable(v: &TranslatedVariable, op: Option<BinaryOperator>, rhs: Expression) -> (r: Expression)
    ensures
        r@ == assignment_to(v@, op, rhs@),
{
    if v.is_storage {
        let value = match op {
            None => rhs,
            Some(op) => make_binary(operator_text_of(op), variable_value_of(v), rhs),
        };
        make_method_call(storage_access_of(v.new_name.as_str()), "write", one_expression(value))
    } else {
        let operator = assignment_text_of(op);
        make_binary(operator.as_str(), make_identifier(v.new_name.as_str()), rhs)
    }
}

pub fn concatenate(parts: &Vec<String>) -> (r: String)
    ensures
        r@ == concatenated(parts@),
{
    let mut r = String::new();
    let mut i: usize = 0;
    assert(parts@.subrange(0, 0) =~= Seq::empty());
    assert(r@ =~= concatenated(parts@.subrange(0, 0)));
    while i < parts.len()
        invariant
            i <= parts.len(),
            r@ == concatenated(parts@.subrange(0, i as int)),
        decreases parts.len() - i,
    {
        proof {
            let s = parts@.subrange(0, i + 1);
            assert(s.drop_last() =~= parts@.subrange(0, i as int));
            assert(s.last() == parts@[i as int]);
        }
        r.append(parts[i].as_str());
        i += 1;
    }
    assert(parts@.subrange(0, i as int) =~= parts@);
    r
}

fn make_conditional(condition: Expression, then: Expression, otherwise: Expression) -> (r: Expression)
    ensures
        r@ == conditional(condition@, then@, otherwise@),
{
    let r = Expression::If(
        Box::new(
            If {
                condition: Some(condition),
                then_body: Block { statements: Vec::new(), final_expr: Some(then) },
                else_if: Some(
                    Box::new(
                        If {
                            condition: None,
                            then_body: Block { statements: Vec::new(), final_expr: Some(otherwise) },
                            else_if: None,
                        },
                    ),
                ),
            },
        ),
    );
    proof {
        reveal_with_fuel(Expression::model, 6);
        assert(r@->If_0.then_body.statements =~= Seq::empty());
        assert(r@->If_0.else_if->0.then_body.statements =~= Seq::empty());
    }
    r
}

fn element_access_of(t: &TypeName, container: Expression, index: Expression) -> (r: Option<Expression>)
    ensures
        crate::sway::shapes::optional_expression(r) == element_access(t@, container@, index@),
{
    proof {
        reveal_with_fuel(Expression::model, 3);
    }
    match t {
        TypeName::Identifier { name, generic_parameters: Some(_) } => if text_eq(name.as_str(), "Vec") {
            Some(
                make_method_call(make_method_call(container, "get", one_expression(index)), "unwrap", no_expressions()),
            )
        } else {
            None
        },
        TypeName::Array { ty: _, length: _ } => Some(
            Expression::ArrayAccess(Box::new(ArrayAccess { expression: container, index })),
        ),
        _ => None,
    }
}

impl TranslatedDefinition {
    /// Counts one more call of the function with this new name.
    pub fn count_call(&mut self, name: &str)
        ensures
            final(self)@ == old(self)@.with_call(name@),
            old(self)@.names_kept_once() ==> final(self)@.names_kept_once(),
    {
        crate::translate::counters::count_name(&mut self.function_call_counts, name);
    }
}

/// Translates `target op= 1`, as increments and decrements are lowered.
pub fn translate_step(
    project: &Project,
    translated_definition: &mut TranslatedDefinition,
    scope: &mut TranslationScope,
    op: BinaryOperator,
    target: &solidity::Expression,
) -> (r: Result<Expression, Error>)
    ensures
        outcome(r, final(translated_definition)@, final(scope)@) == translated_step(
            state_of(old(translated_definition)@, old(scope)@),
            op,
            *target,
        ),
    decreases target, 2nat,
{
    match target {
        solidity::Expression::Variable(name) => {
            let assignment = match scope.get_variable_from_old_name(name.as_str()) {
                Some(v) => assignment_to_variable(v, Some(op), make_decimal(1)),
                None => {
                    return Err(Error::UnknownVariable(name.clone()));
                },
            };
            scope.record_mutation(name.as_str());
            return Ok(assignment);
        },
        _ => match translate_expression(project, translated_definition, scope, target) {
            Err(error) => {
                return Err(error);
            },
            Ok(place) => {
                let text = assignment_text_of(Some(op));
                return Ok(make_binary(text.as_str(), place, make_decimal(1)));
            },
        },
    }
}

/// Translates an assignment, plain or combined with an operator.
pub fn translate_assignment_expression(
    project: &Project,
    translated_definition: &mut TranslatedDefinition,
    scope: &mut TranslationScope,
    expression: &solidity::Expression,
) -> (r: Result<Expression, Error>)
    ensures
        outcome(r, final(translated_definition)@, final(scope)@) == translated_assignment(
            state_of(old(translated_definition)@, old(scope)@),
            *expression,
        ),
    decreases expression, 0nat,
{
    match expression {
        solidity::Expression::Assign(op, lhs, rhs) => {
            if let solidity::Expression::Variable(name) = &**lhs {
                let variable = match scope.get_variable_from_old_name(name.as_str()) {
                    Some(v) => v.clone(),
                    None => {
                        return Err(Error::UnknownVariable(name.clone()));
                    },
                };
                if let Some(BinaryOperator::Power) = op {
                    return Err(Error::Unsupported(Construct::Expression));
                }
                scope.record_mutation(name.as_str());
                match translate_expression(project, translated_definition, scope, &**rhs) {
                    Err(error) => {
                        return Err(error);
                    },
                    Ok(value) => {
                        return Ok(assignment_to_variable(&variable, *op, value));
                    },
                }
            }
            let place = match translate_expression(project, translated_definition, scope, &**lhs) {
                Err(error) => {
                    return Err(error);
                },
                Ok(place) => place,
            };
            if let Some(BinaryOperator::Power) = op {
                return Err(Error::Unsupported(Construct::Expression));
            }
            match translate_expression(project, translated_definition, scope, &**rhs) {
                Err(error) => {
                    return Err(error);
                },
                Ok(value) => {
                    let text = assignment_text_of(*op);
                    return Ok(make_binary(text.as_str(), place, value));
                },
            }
        },
        _ => {
            return Err(Error::Unsupported(Construct::Expression));
        },
    }
}

fn translate_step_value(
    project: &Project,
    translated_definition: &mut TranslatedDefinition,
    scope: &mut TranslationScope,
    op: BinaryOperator,
    undo: Option<BinaryOperator>,
    target: &solidity::Expression,
) -> (r: Result<Expression, Error>)
    ensures
        outcome(r, final(translated_definition)@, final(scope)@) == translated_step_value(
            state_of(old(translated_definition)@, old(scope)@),
            op,
            undo,
            *target,
        ),
    decreases target, 3nat,
{
    let change = match translate_step(project, translated_definition, scope, op, target) {
        Err(error) => {
            return Err(error);
        },
        Ok(change) => change,
    };
    match translate_expression(project, translated_definition, scope, target) {
        Err(error) => Err(error),
        Ok(value) => {
            let last = match undo {
                Some(undo) => make_binary(operator_text_of(undo), value, make_decimal(1)),
                None => value,
            };
            Ok(make_block(one_statement(Statement::Expression(change)), Some(last)))
        },
    }
}

/// Translates an increment or decrement that is used for its value.
pub fn translate_pre_or_post_operator_value_expression(
    project: &Project,
    translated_definition: &mut TranslatedDefinition,
    scope: &mut TranslationScope,
    expression: &solidity::Expression,
) -> (r: Result<Expression, Error>)
    ensures
        outcome(r, final(translated_definition)@, final(scope)@) == translated_expression(
            state_of(old(translated_definition)@, old(scope)@),
            *expression,
        ),
{
    translate_expression(project, translated_definition, scope, expression)
}

fn translate_literal(expression: &solidity::Expression) -> (r: Result<Expression, Error>)
    ensures
        match r {
            Ok(x) => translated_literal(*expression) == Ok::<ExpressionView, ErrorView>(x@),
            Err(error) => translated_literal(*expression) == Err::<ExpressionView, ErrorView>(error@),
        },
{
    match expression {
        solidity::Expression::BoolLiteral(b) => Ok(Expression::Literal(Literal::Bool(*b))),
        solidity::Expression::NumberLiteral(digits) => match parse_literal(digits.as_str(), false) {
            Some(v) => Ok(Expression::Literal(Literal::DecInt(v))),
            None => Err(Error::InvalidLiteral(digits.clone())),
        },
        solidity::Expression::HexNumberLiteral(digits) => match parse_literal(digits.as_str(), true) {
            Some(v) => Ok(Expression::Literal(Literal::HexInt(v))),
            None => Err(Error::InvalidLiteral(digits.clone())),
        },
        solidity::Expression::StringLiteral(parts) => Ok(Expression::Literal(Literal::String(concatenate(parts)))),
        _ => Err(Error::Unsupported(Construct::Expression)),
    }
}

fn translate_variable(
    scope: &mut TranslationScope,
    name: &String,
    Ghost(definition): Ghost<TranslatedDefinitionView>,
) -> (r: Result<Expression, Error>)
    ensures
        outcome(r, definition, final(scope)@) == translated_variable(state_of(definition, old(scope)@), name@),
{
    let value = match scope.get_variable_from_old_name(name.as_str()) {
        Some(v) => variable_value_of(v),
        None => {
            return Err(Error::UnknownVariable(name.clone()));
        },
    };
    scope.record_read(name.as_str());
    Ok(value)
}

fn translate_unary(
    project: &Project,
    translated_definition: &mut TranslatedDefinition,
    scope: &mut TranslationScope,
    expression: &solidity::Expression,
) -> (r: Result<Expression, Error>)
    ensures
        outcome(r, final(translated_definition)@, final(scope)@) == translated_unary(
            state_of(old(translated_definition)@, old(scope)@),
            *expression,
        ),
    decreases expression, 0nat,
{
    match expression {
        solidity::Expression::Parenthesis(inner) => match translate_expression(
            project,
            translated_definition,
            scope,
            &**inner,
        ) {
            Err(error) => Err(error),
            Ok(x) => Ok(Expression::Tuple(one_expression(x))),
        },
        solidity::Expression::Unary(op, inner) => match op {
            solidity::UnaryOperator::Delete => Err(Error::Unsupported(Construct::Expression)),
            _ => match translate_expression(project, translated_definition, scope, &**inner) {
                Err(error) => Err(error),
                Ok(x) => Ok(
                    match op {
                        solidity::UnaryOperator::Negate => make_unary("-", x),
                        solidity::UnaryOperator::UnaryPlus => x,
                        _ => make_unary("!", x),
                    },
                ),
            },
        },
        _ => Err(Error::Unsupported(Construct::Expression)),
    }
}

fn translate_binary(
    project: &Project,
    translated_definition: &mut TranslatedDefinition,
    scope: &mut TranslationScope,
    expression: &solidity::Expression,
) -> (r: Result<Expression, Error>)
    ensures
        outcome(r, final(translated_definition)@, final(scope)@) == translated_binary(
            state_of(old(translated_definition)@, old(scope)@),
            *expression,
        ),
    decreases expression, 0nat,
{
    match expression {
        solidity::Expression::Binary(op, lhs, rhs) => match translate_expression(
            project,
            translated_definition,
            scope,
            &**lhs,
        ) {
            Err(error) => Err(error),
            Ok(l) => match translate_expression(project, translated_definition, scope, &**rhs) {
                Err(error) => Err(error),
                Ok(r) => Ok(
                    if let BinaryOperator::Power = op {
                        make_method_call(l, "pow", one_expression(r))
                    } else {
                        make_binary(operator_text_of(*op), l, r)
                    },
                ),
            },
        },
        _ => Err(Error::Unsupported(Construct::Expression)),
    }
}

fn translate_conditional(
    project: &Project,
    translated_definition: &mut TranslatedDefinition,
    scope: &mut TranslationScope,
    expression: &solidity::Expression,
) -> (r: Result<Expression, Error>)
    ensures
        outcome(r, final(translated_definition)@, final(scope)@) == translated_conditional(
            state_of(old(translated_definition)@, old(scope)@),
            *expression,
        ),
    decreases expression, 0nat,
{
    match expression {
        solidity::Expression::ConditionalOperator(condition, then, otherwise) => match translate_expression(
            project,
            translated_definition,
            scope,
            &**condition,
        ) {
            Err(error) => Err(error),
            Ok(c) => match translate_expression(project, translated_definition, scope, &**then) {
                Err(error) => Err(error),
                Ok(t) => match translate_expression(project, translated_definition, scope, &**otherwise) {
                    Err(error) => Err(error),
                    Ok(o) => Ok(make_conditional(c, t, o)),
                },
            },
        },
        _ => Err(Error::Unsupported(Construct::Expression)),
    }
}

fn resolve_call(
    translated_definition: &mut TranslatedDefinition,
    scope: &TranslationScope,
    name: &String,
    parameters: Vec<Expression>,
) -> (r: Result<Expression, Error>)
    ensures
        outcome(r, final(translated_definition)@, scope@) == resolved_call(
            state_of(old(translated_definition)@, scope@),
            name@,
            expression_models(parameters@),
        ),
{
    match translated_definition.get_expression_types(scope, &parameters) {
        Err(error) => Err(error),
        Ok(types) => {
            let new_name = match scope.find_function_matching_types(
                name.as_str(),
                parameters.as_slice(),
                types.as_slice(),
            ) {
                Some(f) => f.new_name.clone(),
                None => {
                    return Err(Error::UnknownFunction(name.clone()));
                },
            };
            translated_definition.count_call(new_name.as_str());
            Ok(make_call_named(new_name.as_str(), parameters))
        },
    }
}

fn translate_call(
    project: &Project,
    translated_definition: &mut TranslatedDefinition,
    scope: &mut TranslationScope,
    expression: &solidity::Expression,
) -> (r: Result<Expression, Error>)
    ensures
        outcome(r, final(translated_definition)@, final(scope)@) == translated_call(
            state_of(old(translated_definition)@, old(scope)@),
            *expression,
        ),
    decreases expression, 0nat,
{
    match expression {
        solidity::Expression::FunctionCall(callee, arguments) => match &**callee {
            solidity::Expression::Variable(name) => match translate_expressions(
                project,
                translated_definition,
                scope,
                arguments,
            ) {
                Err(error) => Err(error),
                Ok(parameters) => resolve_call(translated_definition, scope, name, parameters),
            },
            _ => Err(Error::Unsupported(Construct::Expression)),
        },
        _ => Err(Error::Unsupported(Construct::Expression)),
    }
}

fn resolve_subscript(
    translated_definition: &TranslatedDefinition,
    scope: &TranslationScope,
    container: Expression,
    index: Expression,
) -> (r: Result<Expression, Error>)
    ensures
        outcome(r, translated_definition@, scope@) == resolved_subscript(
            state_of(translated_definition@, scope@),
            container@,
            index@,
        ),
{
    match translated_definition.get_expression_type(scope, &container) {
        Err(error) => Err(error),
        Ok(t) => match element_access_of(&t, container, index) {
            Some(x) => Ok(x),
            None => Err(Error::Unsupported(Construct::Expression)),
        },
    }
}

fn translate_subscript(
    project: &Project,
    translated_definition: &mut TranslatedDefinition,
    scope: &mut TranslationScope,
    expression: &solidity::Expression,
) -> (r: Result<Expression, Error>)
    ensures
        outcome(r, final(translated_definition)@, final(scope)@) == translated_subscript(
            state_of(old(translated_definition)@, old(scope)@),
            *expression,
        ),
    decreases expression, 0nat,
{
    match expression {
        solidity::Expression::ArraySubscript(container, Some(index)) => match translate_expression(
            project,
            translated_definition,
            scope,
            &**container,
        ) {
            Err(error) => Err(error),
            Ok(c) => match translate_expression(project, translated_definition, scope, &**index) {
                Err(error) => Err(error),
                Ok(i) => resolve_subscript(translated_definition, scope, c, i),
            },
        },
        _ => Err(Error::Unsupported(Construct::Expression)),
    }
}

/// Translates an expression.
pub fn translate_expression(
    project: &Project,
    translated_definition: &mut TranslatedDefinition,
    scope: &mut TranslationScope,
    expression: &solidity::Expression,
) -> (r: Result<Expression, Error>)
    ensures
        outcome(r, final(translated_definition)@, final(scope)@) == translated_expression(
            state_of(old(translated_definition)@, old(scope)@),
            *expression,
        ),
    decreases expression, 1nat,
{
    match expression {
        solidity::Expression::BoolLiteral(_) | solidity::Expression::NumberLiteral(_)
        | solidity::Expression::HexNumberLiteral(_) | solidity::Expression::StringLiteral(_) => {
            return translate_literal(expression);
        },
        solidity::Expression::Variable(name) => {
            return translate_variable(scope, name, Ghost(translated_definition@));
        },
        solidity::Expression::Parenthesis(_) | solidity::Expression::Unary(_, _) => {
            return translate_unary(
                project,
                translated_definition,
                scope,
                expression,
            );
        },
        solidity::Expression::PreIncrement(x) => {
            return translate_step_value(
                project,
                translated_definition,
                scope,
                BinaryOperator::Add,
                None,
                &**x,
            );
        },
        solidity::Expression::PreDecrement(x) => {
            return translate_step_value(
                project,
                translated_definition,
                scope,
                BinaryOperator::Subtract,
                None,
                &**x,
            );
        },
        solidity::Expression::PostIncrement(x) => {
            return translate_step_value(
                project,
                translated_definition,
                scope,
                BinaryOperator::Add,
                Some(BinaryOperator::Subtract),
                &**x,
            );
        },
        solidity::Expression::PostDecrement(x) => {
            return translate_step_value(
                project,
                translated_definition,
                scope,
                BinaryOperator::Subtract,
                Some(BinaryOperator::Add),
                &**x,
            );
        },
        solidity::Expression::Binary(_, _, _) => {
            return translate_binary(project, translated_definition, scope, expression);
        },
        solidity::Expression::Assign(_, _, _) => {
            return translate_assignment_expression(project, translated_definition, scope, expression);
        },
        solidity::Expression::ConditionalOperator(_, _, _) => {
            return translate_conditional(
                project,
                translated_definition,
                scope,
                expression,
            );
        },
        solidity::Expression::FunctionCall(_, _) => {
            return translate_call(project, translated_definition, scope, expression);
        },
        solidity::Expression::ArrayLiteral(elements) => match translate_expressions(
            project,
            translated_definition,
            scope,
            elements,
        ) {
            Err(error) => {
                return Err(error);
            },
            Ok(xs) => {
                proof {
                    reveal_with_fuel(Expression::model, 3);
                }
                return Ok(Expression::Array(Array { elements: xs }));
            },
        },
        solidity::Expression::ArraySubscript(_, _) => {
            return translate_subscript(
                project,
                translated_definition,
                scope,
                expression,
            );
        },
        _ => {
            return Err(Error::Unsupported(Construct::Expression));
        },
    }
}

/// Translates expressions in order.
pub fn translate_expressions(
    project: &Project,
    translated_definition: &mut TranslatedDefinition,
    scope: &mut TranslationScope,
    expressions: &Vec<solidity::Expression>,
) -> (r: Result<Vec<Expression>, Error>)
    ensures
        match r {
            Ok(xs) => translated_expressions(state_of(old(translated_definition)@, old(scope)@), expressions@) == Ok::<
                (Seq<ExpressionView>, TranslationState),
                ErrorView,
            >((expression_models(xs@), state_of(final(translated_definition)@, final(scope)@))),
            Err(error) => translated_expressions(state_of(old(translated_definition)@, old(scope)@), expressions@)
                == Err::<(Seq<ExpressionView>, TranslationState), ErrorView>(error@),
        },
    decreases expressions, 0nat,
{
    let ghost start = state_of(old(translated_definition)@, old(scope)@);
    let mut xs: Vec<Expression> = Vec::new();
    let mut i: usize = 0;
    assert(expressions@.subrange(0, 0) =~= Seq::empty());
    assert(expression_models(xs@) =~= Seq::empty());
    while i < expressions.len()
        invariant
            i <= expressions.len(),
            start == state_of(old(translated_definition)@, old(scope)@),
            translated_expressions(start, expressions@.subrange(0, i as int)) == Ok::<
                (Seq<ExpressionView>, TranslationState),
                ErrorView,
            >((expression_models(xs@), state_of(translated_definition@, scope@))),
        decreases expressions.len() - i,
    {
        proof {
            let s = expressions@.subrange(0, i + 1);
            assert(s.drop_last() =~= expressions@.subrange(0, i as int));
            assert(s.last() == expressions@[i as int]);
        }
        let ghost before = expression_models(xs@);
        match translate_expression(project, translated_definition, scope, &expressions[i]) {
            Err(error) => {
                proof {
                    assert(translated_expressions(start, expressions@.subrange(0, i + 1)) == Err::<
                        (Seq<ExpressionView>, TranslationState),
                        ErrorView,
                    >(error@));
                    lemma_expressions_fail(start, expressions@, i + 1);
                }
                return Err(error);
            },
            Ok(x) => {
                xs.push(x);
                assert(expression_models(xs@) =~= before.push(x@));
            },
        }
        i += 1;
    }
    assert(expressions@.subrange(0, i as int) =~= expressions@);
    Ok(xs)
}

} // verus!
