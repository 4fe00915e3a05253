//! Constructors of expressions and statements.
//!
//! Each shape of the tree that the translator produces has a name here,
//! once as a value and once as a function that builds it.

use vstd::prelude::*;
use crate::sway::{
    BinaryExpression, Block, Expression, FunctionCall, If, Let, LetIdentifier, LetPattern, Literal,
    MemberAccess, Statement, TypeName, UnaryExpression, While,
};
use crate::sway::model::{
    BinaryExpressionView, BlockView, expression_models, ExpressionView, FunctionCallView, IfView,
    LetIdentifierView, LetPatternView, LetView, LiteralView, MemberAccessView, statement_models,
    StatementView, TypeNameView, UnaryExpressionView, WhileView,
};
use crate::text::text;

verus! {

/// The identifier `name`.
pub open spec fn identifier(name: Seq<char>) -> ExpressionView {
    ExpressionView::Identifier(name)
}

/// The decimal integer literal of the given value.
pub open spec fn decimal(value: u64) -> ExpressionView {
    ExpressionView::Literal(LiteralView::DecInt(value))
}

/// The string literal of the given text.
pub open spec fn string_literal(s: Seq<char>) -> ExpressionView {
    ExpressionView::Literal(LiteralView::String(s))
}

/// The call of `function` with the given arguments and no type arguments.
pub open spec fn call(function: ExpressionView, parameters: Seq<ExpressionView>) -> ExpressionView {
    ExpressionView::FunctionCall(Box::new(FunctionCallView { function, generic_parameters: None, parameters }))
}

/// The call of the function named `name` with the given arguments.
pub open spec fn call_named(name: Seq<char>, parameters: Seq<ExpressionView>) -> ExpressionView {
    call(identifier(name), parameters)
}

/// The member access `expression.member`.
pub open spec fn member_access(expression: ExpressionView, member: Seq<char>) -> ExpressionView {
    ExpressionView::MemberAccess(Box::new(MemberAccessView { expression, member }))
}

/// The method call `receiver.method(parameters)`.
pub open spec fn method_call(
    receiver: ExpressionView,
    method: Seq<char>,
    parameters: Seq<ExpressionView>,
) -> ExpressionView {
    call(member_access(receiver, method), parameters)
}

/// The infix operation `lhs operator rhs`.
pub open spec fn binary(operator: Seq<char>, lhs: ExpressionView, rhs: ExpressionView) -> ExpressionView {
    ExpressionView::BinaryExpression(Box::new(BinaryExpressionView { operator, lhs, rhs }))
}

/// The prefix operation `operator expression`.
pub open spec fn unary(operator: Seq<char>, expression: ExpressionView) -> ExpressionView {
    ExpressionView::UnaryExpression(Box::new(UnaryExpressionView { operator, expression }))
}

/// The block expression with the given statements and final expression.
pub open spec fn block_of(statements: Seq<StatementView>, final_expr: Option<ExpressionView>) -> ExpressionView {
    ExpressionView::Block(Box::new(BlockView { statements, final_expr }))
}

/// The loop `while condition body`.
pub open spec fn while_loop(condition: ExpressionView, body: BlockView) -> ExpressionView {
    ExpressionView::While(Box::new(WhileView { condition, body }))
}

/// The statement `expression;`.
pub open spec fn statement_of(expression: ExpressionView) -> StatementView {
    StatementView::Expression(expression)
}

/// The statement `let name = value;`, with `mut` and a type where given.
pub open spec fn let_statement(
    name: Seq<char>,
    is_mutable: bool,
    ty: Option<TypeNameView>,
    value: ExpressionView,
) -> StatementView {
    StatementView::Let(
        LetView { pattern: LetPatternView::Identifier(LetIdentifierView { is_mutable, name }), ty, value },
    )
}

/// The statement that is the block `block`.
pub open spec fn block_statement(block: BlockView) -> StatementView {
    statement_of(ExpressionView::Block(Box::new(block)))
}

/// The conditional statement with the given condition, body and
/// continuation after `else`.
pub open spec fn if_statement(condition: ExpressionView, then_body: BlockView, else_if: Option<IfView>) -> StatementView {
    statement_of(
        ExpressionView::If(
            Box::new(
                IfView {
                    condition: Some(condition),
                    then_body,
                    else_if: match else_if {
                        Some(e) => Some(Box::new(e)),
                        None => None,
                    },
                },
            ),
        ),
    )
}

/// The statement `return value;`, or `return;` without a value.
pub open spec fn return_statement(value: Option<ExpressionView>) -> StatementView {
    statement_of(
        ExpressionView::Return(
            match value {
                Some(v) => Some(Box::new(v)),
                None => None,
            },
        ),
    )
}

/// The statement `let (names) : (types) = value;`.
pub open spec fn tuple_let(ids: Seq<LetIdentifierView>, types: Seq<TypeNameView>, value: ExpressionView) -> StatementView {
    StatementView::Let(
        LetView { pattern: LetPatternView::Tuple(ids), ty: Some(TypeNameView::Tuple { type_names: types }), value },
    )
}

/// The value of an optional conditional.
pub open spec fn optional_if(e: Option<If>) -> Option<IfView> {
    match e {
        Some(e) => Some(e@),
        None => None,
    }
}

/// The value of an optional expression.
pub open spec fn optional_expression(e: Option<Expression>) -> Option<ExpressionView> {
    match e {
        Some(e) => Some(e@),
        None => None,
    }
}

/// The value of an optional type.
pub open spec fn optional_type(t: Option<TypeName>) -> Option<TypeNameView> {
    match t {
        Some(t) => Some(t@),
        None => None,
    }
}

/// The identifier `name`.
pub fn make_identifier(name: &str) -> (r: Expression)
    ensures
        r@ == identifier(name@),
{
    Expression::Identifier(text(name))
}

/// The decimal integer literal of the given value.
pub fn make_decimal(value: u64) -> (r: Expression)
    ensures
        r@ == decimal(value),
{
    Expression::Literal(Literal::DecInt(value))
}

/// No expressions.
pub fn no_expressions() -> (r: Vec<Expression>)
    ensures
        expression_models(r@) == Seq::<ExpressionView>::empty(),
{
    let r: Vec<Expression> = Vec::new();
    assert(expression_models(r@) =~= Seq::empty());
    r
}

/// One expression.
pub fn one_expression(a: Expression) -> (r: Vec<Expression>)
    ensures
        expression_models(r@) == seq![a@],
{
    let mut r: Vec<Expression> = Vec::new();
    r.push(a);
    assert(expression_models(r@) =~= seq![a@]);
    r
}

/// Two statements.
pub fn two_statements(a: Statement, b: Statement) -> (r: Vec<Statement>)
    ensures
        statement_models(r@) == seq![a@, b@],
{
    let mut r: Vec<Statement> = Vec::new();
    r.push(a);
    r.push(b);
    assert(statement_models(r@) =~= seq![a@, b@]);
    r
}

/// One statement.
pub fn one_statement(a: Statement) -> (r: Vec<Statement>)
    ensures
        statement_models(r@) == seq![a@],
{
    let mut r: Vec<Statement> = Vec::new();
    r.push(a);
    assert(statement_models(r@) =~= seq![a@]);
    r
}

/// No statements.
pub fn no_statements() -> (r: Vec<Statement>)
    ensures
        statement_models(r@) == Seq::<StatementView>::empty(),
{
    let r: Vec<Statement> = Vec::new();
    assert(statement_models(r@) =~= Seq::empty());
    r
}

/// The call of `function` with the given arguments and no type arguments.
pub fn make_call(function: Expression, parameters: Vec<Expression>) -> (r: Expression)
    ensures
        r@ == call(function@, expression_models(parameters@)),
{
    proof {
        reveal_with_fuel(Expression::model, 3);
    }
    Expression::FunctionCall(Box::new(FunctionCall { function, generic_parameters: None, parameters }))
}

/// The call of the function named `name` with the given arguments.
pub fn make_call_named(name: &str, parameters: Vec<Expression>) -> (r: Expression)
    ensures
        r@ == call_named(name@, expression_models(parameters@)),
{
    make_call(make_identifier(name), parameters)
}

/// The member access `expression.member`.
pub fn make_member_access(expression: Expression, member: &str) -> (r: Expression)
    ensures
        r@ == member_access(expression@, member@),
{
    proof {
        reveal_with_fuel(Expression::model, 3);
    }
    Expression::MemberAccess(Box::new(MemberAccess { expression, member: text(member) }))
}

/// The method call `receiver.method(parameters)`.
pub fn make_method_call(receiver: Expression, method: &str, parameters: Vec<Expression>) -> (r: Expression)
    ensures
        r@ == method_call(receiver@, method@, expression_models(parameters@)),
{
    make_call(make_member_access(receiver, method), parameters)
}

/// The infix operation `lhs operator rhs`.
pub fn make_binary(operator: &str, lhs: Expression, rhs: Expression) -> (r: Expression)
    ensures
        r@ == binary(operator@, lhs@, rhs@),
{
    proof {
        reveal_with_fuel(Expression::model, 3);
    }
    Expression::BinaryExpression(Box::new(BinaryExpression { operator: text(operator), lhs, rhs }))
}

/// The prefix operation `operator expression`.
pub fn make_unary(operator: &str, expression: Expression) -> (r: Expression)
    ensures
        r@ == unary(operator@, expression@),
{
    proof {
        reveal_with_fuel(Expression::model, 3);
    }
    Expression::UnaryExpression(Box::new(UnaryExpression { operator: text(operator), expression }))
}

/// The block expression with the given statements and final expression.
pub fn make_block(statements: Vec<Statement>, final_expr: Option<Expression>) -> (r: Expression)
    ensures
        r@ == block_of(statement_models(statements@), optional_expression(final_expr)),
{
    proof {
        reveal_with_fuel(Expression::model, 3);
    }
    Expression::Block(Box::new(Block { statements, final_expr }))
}

/// The loop `while condition body`.
pub fn make_while(condition: Expression, body: Block) -> (r: Expression)
    ensures
        r@ == while_loop(condition@, body@),
{
    proof {
        reveal_with_fuel(Expression::model, 3);
    }
    Expression::While(Box::new(While { condition, body }))
}

/// The statement that is the block `block`.
pub fn make_block_statement(block: Block) -> (r: Statement)
    ensures
        r@ == block_statement(block@),
{
    proof {
        reveal_with_fuel(Statement::model, 2);
    }
    Statement::Expression(Expression::Block(Box::new(block)))
}

/// The conditional statement with the given condition, body and
/// continuation after `else`.
pub fn make_if(condition: Expression, then_body: Block, else_if: Option<If>) -> (r: Statement)
    ensures
        r@ == if_statement(condition@, then_body@, optional_if(else_if)),
{
    proof {
        reveal_with_fuel(Statement::model, 3);
    }
    Statement::Expression(
        Expression::If(
            Box::new(
                If {
                    condition: Some(condition),
                    then_body,
                    else_if: match else_if {
                        Some(e) => Some(Box::new(e)),
                        None => None,
                    },
                },
            ),
        ),
    )
}

/// The statement `return value;`, or `return;` without a value.
pub fn make_return(value: Option<Expression>) -> (r: Statement)
    ensures
        r@ == return_statement(optional_expression(value)),
{
    proof {
        reveal_with_fuel(Statement::model, 2);
    }
    Statement::Expression(
        Expression::Return(
            match value {
                Some(v) => Some(Box::new(v)),
                None => None,
            },
        ),
    )
}

/// The statement `let (names) : (types) = value;`.
pub fn make_tuple_let(ids: Vec<LetIdentifier>, types: Vec<TypeName>, value: Expression) -> (r: Statement)
    ensures
        r@ == tuple_let(
            crate::sway::model::let_identifier_models(ids@),
            crate::sway::model::type_name_models(types@),
            value@,
        ),
{
    proof {
        reveal_with_fuel(Statement::model, 2);
        reveal_with_fuel(TypeName::model, 2);
    }
    Statement::Let(Let { pattern: LetPattern::Tuple(ids), ty: Some(TypeName::Tuple { type_names: types }), value })
}

/// The statement `let name = value;`, with `mut` and a type where given.
pub fn make_let(name: &str, is_mutable: bool, ty: Option<TypeName>, value: Expression) -> (r: Statement)
    ensures
        r@ == let_statement(name@, is_mutable, optional_type(ty), value@),
{
    proof {
        reveal_with_fuel(Statement::model, 3);
    }
    Statement::Let(Let { pattern: LetPattern::Identifier(LetIdentifier { is_mutable, name: text(name) }), ty, value })
}

} // verus!
