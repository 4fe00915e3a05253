//! What statements are translated to.

use vstd::prelude::*;
use crate::errors::{Construct, Error, ErrorView};
use crate::naming::{Case, case_converted};
use crate::project::ProjectView;
use crate::solidity;
use crate::solidity::BinaryOperator;
use crate::sway::{Block, Enum, Expression, If, Let, Literal, Statement, While};
use crate::sway::model::{
    BlockView, EnumVariantView, EnumView, ExpressionView, IfView, ImplView, LetIdentifierView,
    LetPatternView, LiteralView, StatementView, TypeNameView,
};
use crate::sway::shapes::{
    binary, block_of, block_statement, call_named, decimal, identifier, if_statement, let_statement,
    method_call, return_statement, statement_of, string_literal, tuple_let, while_loop,
};
use crate::sway::typing::named_type;
use crate::translate::expressions::{
    concatenated, outcome, state_of, Translated, translated_expression, translated_expressions,
    translated_step, TranslationState,
};
use crate::translate::finalize::finalized;
use crate::translate::model::{TranslatedDefinitionView, TranslatedVariableView, TranslationScopeView};
use crate::translate::scope::{first_match, indexed};
use crate::translate::type_names::translated_type_name;
use crate::translate::values::default_value;

verus! {

/// The outcome of translating a statement: the statement and the state
/// afterwards, or the error that ended the translation.
pub type TranslatedStatement = Result<(StatementView, TranslationState), ErrorView>;

/// The outcome that a result of the translator and the state it left
/// stand for.
pub open spec fn statement_outcome(
    r: Result<Statement, Error>,
    definition: TranslatedDefinitionView,
    scope: TranslationScopeView,
) -> TranslatedStatement {
    match r {
        Ok(s) => Ok((s@, state_of(definition, scope))),
        Err(error) => Err(error@),
    }
}

/// The outcome of an expression, as the statement that evaluates it.
pub open spec fn as_statement(t: Translated) -> TranslatedStatement {
    match t {
        Ok((x, state)) => Ok((statement_of(x), state)),
        Err(error) => Err(error),
    }
}

/// The block that a statement stands for as the body of a conditional or
/// of a loop: the block itself, if the statement is one, and else a block
/// with the statement as its only content.
pub open spec fn body_of(statement: StatementView) -> BlockView {
    match statement {
        StatementView::Expression(ExpressionView::Block(b)) => *b,
        _ => BlockView { statements: seq![statement], final_expr: None },
    }
}

/// What a statement stands for after `else`: the conditional itself, if
/// the statement is one, and else a branch without condition around its
/// body.
pub open spec fn else_branch_of(statement: StatementView) -> IfView {
    match statement {
        StatementView::Expression(ExpressionView::If(i)) => *i,
        _ => IfView { condition: None, then_body: body_of(statement), else_if: None },
    }
}

/// The payload of an event or of an error: the variant by itself if it
/// has no arguments, a call of it with the one argument, or a call of it
/// with the tuple of its arguments.
pub open spec fn packed(variant: Seq<char>, arguments: Seq<ExpressionView>) -> ExpressionView {
    if arguments.len() == 0 {
        identifier(variant)
    } else {
        call_named(variant, seq![if arguments.len() == 1 { arguments[0] } else { ExpressionView::Tuple(arguments) }])
    }
}

/// The call `log(payload)`.
pub open spec fn log_call(payload: ExpressionView) -> ExpressionView {
    call_named("log"@, seq![payload])
}

/// The call `revert(0)`.
pub open spec fn revert_call() -> ExpressionView {
    call_named("revert"@, seq![decimal(0)])
}

/// The block that logs a payload and then reverts.
pub open spec fn log_and_revert(payload: ExpressionView) -> StatementView {
    statement_of(block_of(seq![statement_of(log_call(payload)), statement_of(revert_call())], None))
}

/// The test "is the variant named `name`".
pub open spec fn is_variant_named(name: Seq<char>) -> spec_fn(EnumVariantView) -> bool {
    |v: EnumVariantView| v.name == name
}

/// The test "is an enum with a variant named `name`".
pub open spec fn has_variant(name: Seq<char>) -> spec_fn((EnumView, ImplView)) -> bool {
    |e: (EnumView, ImplView)| first_match(e.0.variants, is_variant_named(name)) is Some
}

/// The qualified name `Enum::Variant` of the variant named `name` of the
/// first of the enums that has one.
pub open spec fn qualified_variant(enums: Seq<(EnumView, ImplView)>, name: Seq<char>) -> Option<Seq<char>> {
    match first_match(enums, has_variant(name)) {
        Some(e) => Some(e.0.name + "::"@ + name),
        None => None,
    }
}

/// The scope with the statement index set for the variable named `name`,
/// unless the name is `_`.
pub open spec fn indexed_unless_blank(scope: TranslationScopeView, name: Seq<char>, index: usize) -> TranslationScopeView {
    if name == "_"@ {
        scope
    } else {
        indexed(scope, name, index)
    }
}

/// The scope with the statement index set for the first `n` of the names,
/// except for the name `_`.
pub open spec fn indexed_all(
    scope: TranslationScopeView,
    ids: Seq<LetIdentifierView>,
    index: usize,
    n: nat,
) -> TranslationScopeView
    decreases n,
{
    if n == 0 {
        scope
    } else {
        indexed_unless_blank(indexed_all(scope, ids, index, (n - 1) as nat), ids[n - 1].name, index)
    }
}

/// The scope with the statement index recorded for the variables that the
/// statement declares, if it is a `let`.
pub open spec fn with_declaration_index(
    scope: TranslationScopeView,
    statement: StatementView,
    index: usize,
) -> TranslationScopeView {
    match statement {
        StatementView::Let(l) => match l.pattern {
            LetPatternView::Identifier(id) => indexed_all(scope, seq![id], index, 1),
            LetPatternView::Tuple(ids) => indexed_all(scope, ids, index, ids.len()),
        },
        StatementView::Expression(_) => scope,
    }
}

/// A variable of a function body: a name of the source, its name in the
/// target and its type.
pub open spec fn declared_variable(old_name: Seq<char>, new_name: Seq<char>, ty: TypeNameView) -> TranslatedVariableView {
    TranslatedVariableView { old_name, new_name, ty, ..TranslatedVariableView::empty() }
}

/// The block that builds a vector of `length` default values of the
/// element type `element` of the vector type `t`:
/// `{ let mut v = Vec::with_capacity(length); let mut i = 0;
///    while i < length { v.push(default); i += 1; } v }`.
pub open spec fn new_vector(t: TypeNameView, element: TypeNameView, length: ExpressionView) -> ExpressionView {
    block_of(
        seq![
            let_statement("v"@, true, Some(t), call_named("Vec::with_capacity"@, seq![length])),
            let_statement("i"@, true, None, decimal(0)),
            statement_of(
                while_loop(
                    binary("<"@, identifier("i"@), length),
                    BlockView {
                        statements: seq![
                            statement_of(method_call(identifier("v"@), "push"@, seq![default_value(element)])),
                            statement_of(binary("+="@, identifier("i"@), decimal(1))),
                        ],
                        final_expr: None,
                    },
                ),
            ),
        ],
        Some(identifier("v"@)),
    )
}

/// The element type of a vector type.
pub open spec fn vector_element(t: TypeNameView) -> Option<TypeNameView> {
    match t {
        TypeNameView::Identifier { name, generic_parameters: Some(g) } => if name == "Vec"@ && g.entries.len() > 0 {
            Some(g.entries[0].ty)
        } else {
            None
        },
        _ => None,
    }
}

/// The translation of `revert`: with the name of an error, a block that
/// logs the error's payload and reverts; without arguments, a call of
/// `revert`; with a reason, a block that logs the reason and reverts.
pub open spec fn translated_revert(
    state: TranslationState,
    error_type: Option<String>,
    parameters: Seq<solidity::Expression>,
) -> TranslatedStatement {
    match error_type {
        Some(name) => match qualified_variant(state.definition.errors_enums, name@) {
            None => Err(ErrorView::UnknownVariant(name@)),
            Some(variant) => match translated_expressions(state, parameters) {
                Err(error) => Err(error),
                Ok((arguments, s1)) => Ok((log_and_revert(packed(variant, arguments)), s1)),
            },
        },
        None => if parameters.len() == 0 {
            Ok((statement_of(revert_call()), state))
        } else {
            match parameters[0] {
                solidity::Expression::StringLiteral(parts) => Ok(
                    (log_and_revert(string_literal(concatenated(parts@))), state),
                ),
                _ => Err(ErrorView::Unsupported(Construct::RevertArguments@)),
            }
        },
    }
}

/// The translation of `emit Event(arguments)`: a call of `log` with the
/// event's payload.
pub open spec fn translated_emit(state: TranslationState, e: solidity::Expression) -> TranslatedStatement {
    match e {
        solidity::Expression::FunctionCall(callee, arguments) => match *callee {
            solidity::Expression::Variable(name) => match qualified_variant(state.definition.events_enums, name@) {
                None => Err(ErrorView::UnknownVariant(name@)),
                Some(variant) => match translated_expressions(state, arguments@) {
                    Err(error) => Err(error),
                    Ok((xs, s1)) => Ok((statement_of(log_call(packed(variant, xs))), s1)),
                },
            },
            _ => Err(ErrorView::Unsupported(Construct::EmitExpression@)),
        },
        _ => Err(ErrorView::Unsupported(Construct::EmitExpression@)),
    }
}

/// The translation of `return`, with or without a value.
pub open spec fn translated_return(state: TranslationState, e: Option<solidity::Expression>) -> TranslatedStatement {
    match e {
        Some(x) => match translated_expression(state, x) {
            Err(error) => Err(error),
            Ok((v, s1)) => Ok((return_statement(Some(v)), s1)),
        },
        None => Ok((return_statement(None), state)),
    }
}

/// The name and the type that one entry of a list of declarations binds,
/// and the state after its type is translated and its name is declared.
/// An entry that is left out, or that has no name, binds `_`.
pub open spec fn translated_list_entry(
    project: ProjectView,
    state: TranslationState,
    parameter: Option<solidity::Parameter>,
) -> Result<(LetIdentifierView, TypeNameView, TranslationState), ErrorView> {
    match parameter {
        None => Ok((LetIdentifierView { is_mutable: false, name: "_"@ }, named_type("_"@), state)),
        Some(p) => match translated_type_name(project, state.definition, p.ty, false) {
            Err(error) => Err(error),
            Ok((t, d)) => match p.name {
                None => Ok(
                    (LetIdentifierView { is_mutable: false, name: "_"@ }, t, TranslationState { definition: d, ..state }),
                ),
                Some(name) => Ok(
                    (
                        LetIdentifierView { is_mutable: false, name: case_converted(name@, Case::Snake) },
                        t,
                        TranslationState {
                            definition: d,
                            scope: state.scope.declare(
                                declared_variable(name@, case_converted(name@, Case::Snake), t),
                            ),
                        },
                    ),
                ),
            },
        },
    }
}

/// The names and types that a list of declarations binds, and the state
/// after their types are translated and the named ones are declared.
pub open spec fn translated_list(
    project: ProjectView,
    state: TranslationState,
    parameters: Seq<Option<solidity::Parameter>>,
) -> Result<(Seq<LetIdentifierView>, Seq<TypeNameView>, TranslationState), ErrorView>
    decreases parameters.len(),
{
    if parameters.len() == 0 {
        Ok((Seq::empty(), Seq::empty(), state))
    } else {
        match translated_list(project, state, parameters.drop_last()) {
            Err(error) => Err(error),
            Ok((ids, types, s1)) => match translated_list_entry(project, s1, parameters.last()) {
                Err(error) => Err(error),
                Ok((id, t, s2)) => Ok((ids.push(id), types.push(t), s2)),
            },
        }
    }
}

/// The translation of an expression statement.
///
/// * `(a, b) = value` declares the names of the list and becomes a `let`
///   with a tuple pattern, annotated with the tuple of their types.
/// * An increment or a decrement becomes `target += 1` or `target -= 1`.
/// * Any other expression is translated as it is.
pub open spec fn translated_expression_statement(
    project: ProjectView,
    state: TranslationState,
    e: solidity::Expression,
) -> TranslatedStatement {
    match e {
        solidity::Expression::Assign(None, lhs, rhs) => match *lhs {
            solidity::Expression::List(parameters) => match translated_list(project, state, parameters@) {
                Err(error) => Err(error),
                Ok((ids, types, s1)) => match translated_expression(s1, *rhs) {
                    Err(error) => Err(error),
                    Ok((value, s2)) => Ok((tuple_let(ids, types, value), s2)),
                },
            },
            _ => as_statement(translated_expression(state, e)),
        },
        solidity::Expression::PreDecrement(x) => as_statement(translated_step(state, BinaryOperator::Subtract, *x)),
        solidity::Expression::PostDecrement(x) => as_statement(translated_step(state, BinaryOperator::Subtract, *x)),
        solidity::Expression::PreIncrement(x) => as_statement(translated_step(state, BinaryOperator::Add, *x)),
        solidity::Expression::PostIncrement(x) => as_statement(translated_step(state, BinaryOperator::Add, *x)),
        _ => as_statement(translated_expression(state, e)),
    }
}

/// The value that a `new` expression gives a variable of type `t`: for a
/// vector, the block that builds it with the given length.
pub open spec fn translated_new(
    project: ProjectView,
    state: TranslationState,
    t: TypeNameView,
    created: solidity::Expression,
) -> Result<(Option<ExpressionView>, TranslationState), ErrorView> {
    match created {
        solidity::Expression::FunctionCall(ty, arguments) => match translated_type_name(
            project,
            state.definition,
            *ty,
            false,
        ) {
            Err(error) => Err(error),
            Ok((found, d)) => if found != t {
                Err(ErrorView::TypeMismatch { expected: t, found })
            } else {
                match vector_element(t) {
                    Some(element) => if arguments@.len() != 1 {
                        Err(ErrorView::Unsupported(Construct::NewExpression@))
                    } else {
                        match translated_expression(TranslationState { definition: d, ..state }, arguments@[0]) {
                            Err(error) => Err(error),
                            Ok((length, s1)) => Ok((Some(new_vector(t, element, length)), s1)),
                        }
                    },
                    None => Ok((None, TranslationState { definition: d, ..state })),
                }
            },
        },
        _ => Err(ErrorView::Unsupported(Construct::NewExpression@)),
    }
}

/// The value that a variable of type `t` is declared with: what its
/// initializer is translated to, or the default value of its type.
pub open spec fn translated_initializer(
    project: ProjectView,
    state: TranslationState,
    t: TypeNameView,
    initializer: Option<solidity::Expression>,
) -> Translated {
    match initializer {
        None => Ok((default_value(t), state)),
        Some(x) => match x {
            solidity::Expression::New(created) => match translated_new(project, state, t, *created) {
                Err(error) => Err(error),
                Ok((Some(value), s1)) => Ok((value, s1)),
                Ok((None, s1)) => translated_expression(s1, x),
            },
            _ => translated_expression(state, x),
        },
    }
}

/// The translation of the definition of a local variable: a `let` of the
/// variable's new name, immutable for now, and the variable declared in
/// the scope once its initializer is translated.
pub open spec fn translated_variable_definition(
    project: ProjectView,
    state: TranslationState,
    declaration: solidity::VariableDeclaration,
    initializer: Option<solidity::Expression>,
) -> TranslatedStatement {
    match declaration.name {
        None => Err(ErrorView::MissingName),
        Some(name) => match translated_type_name(project, state.definition, declaration.ty, false) {
            Err(error) => Err(error),
            Ok((t, d)) => match translated_initializer(project, TranslationState { definition: d, ..state }, t, initializer) {
                Err(error) => Err(error),
                Ok((value, s1)) => Ok(
                    (
                        let_statement(case_converted(name@, Case::Snake), false, None, value),
                        TranslationState {
                            scope: s1.scope.declare(declared_variable(name@, case_converted(name@, Case::Snake), t)),
                            ..s1
                        },
                    ),
                ),
            },
        },
    }
}

/// The state inside a new, empty scope.
pub open spec fn entered(state: TranslationState) -> TranslationState {
    TranslationState { scope: state.scope.child(), ..state }
}

/// The state with the innermost scope discarded.
pub open spec fn left(state: TranslationState) -> TranslationState {
    TranslationState { scope: state.scope.outer(), ..state }
}

/// The update of a `for` loop, as the last statement of its body:
/// increments and decrements become `target += 1` and `target -= 1`.
pub open spec fn translated_update(state: TranslationState, update: solidity::Expression) -> Translated {
    match update {
        solidity::Expression::PreDecrement(x) => translated_step(state, BinaryOperator::Subtract, *x),
        solidity::Expression::PostDecrement(x) => translated_step(state, BinaryOperator::Subtract, *x),
        solidity::Expression::PreIncrement(x) => translated_step(state, BinaryOperator::Add, *x),
        solidity::Expression::PostIncrement(x) => translated_step(state, BinaryOperator::Add, *x),
        _ => translated_expression(state, update),
    }
}

/// The body of a loop with the update appended to it, if there is one.
pub open spec fn with_update(body: BlockView, update: Option<ExpressionView>) -> BlockView {
    match update {
        Some(u) => BlockView { statements: body.statements.push(statement_of(u)), ..body },
        None => body,
    }
}

/// The condition of a `for` loop: `true` if it has none.
pub open spec fn translated_condition(state: TranslationState, condition: Option<Box<solidity::Expression>>) -> Translated {
    match condition {
        Some(c) => translated_expression(state, *c),
        None => Ok((ExpressionView::Literal(LiteralView::Bool(true)), state)),
    }
}

/// The update of a `for` loop, if it has one.
pub open spec fn translated_optional_update(
    state: TranslationState,
    update: Option<Box<solidity::Expression>>,
) -> Result<(Option<ExpressionView>, TranslationState), ErrorView> {
    match update {
        Some(u) => match translated_update(state, *u) {
            Err(error) => Err(error),
            Ok((x, s1)) => Ok((Some(x), s1)),
        },
        None => Ok((None, state)),
    }
}

/// The initialization of a `for` loop, as the first statement of the
/// block that the loop becomes; a `let` records its index.
pub open spec fn translated_initialization(
    project: ProjectView,
    state: TranslationState,
    initialization: Option<Box<solidity::Statement>>,
) -> Result<(Seq<StatementView>, TranslationState), ErrorView>
    decreases initialization, 2nat,
{
    match initialization {
        Some(i) => match translated_statement(project, state, *i) {
            Err(error) => Err(error),
            Ok((x, s1)) => Ok((seq![x], TranslationState { scope: with_declaration_index(s1.scope, x, 0), ..s1 })),
        },
        None => Ok((Seq::empty(), state)),
    }
}

/// The body of a `for` loop: an empty block if it has none.
pub open spec fn translated_body(
    project: ProjectView,
    state: TranslationState,
    body: Option<Box<solidity::Statement>>,
) -> Result<(BlockView, TranslationState), ErrorView>
    decreases body, 2nat,
{
    match body {
        Some(b) => match translated_statement(project, state, *b) {
            Err(error) => Err(error),
            Ok((x, s1)) => Ok((body_of(x), s1)),
        },
        None => Ok((BlockView::empty(), state)),
    }
}

/// The block that a `for` loop becomes, completed in the scope of the
/// loop: the initialization, then the `while` loop of the condition
/// around the body and the update.
pub open spec fn for_block(
    first: Seq<StatementView>,
    condition: ExpressionView,
    body: BlockView,
    update: Option<ExpressionView>,
    scope: TranslationScopeView,
) -> Result<StatementView, ErrorView> {
    match finalized(
        BlockView {
            statements: first.push(statement_of(while_loop(condition, with_update(body, update)))),
            final_expr: None,
        },
        scope,
    ) {
        Ok(block) => Ok(block_statement(block)),
        Err(error) => Err(error),
    }
}

/// The translation of `for (initialization; condition; update) body`:
/// the block `{ initialization; while condition { body; update } }`,
/// translated in a scope of its own that is discarded at the end, so that
/// what the initialization declares is not declared after the loop.
pub open spec fn translated_for(project: ProjectView, state: TranslationState, statement: solidity::Statement) -> TranslatedStatement
    decreases statement, 0nat,
{
    match statement {
        solidity::Statement::For(initialization, condition, update, body) => match translated_initialization(
            project,
            entered(state),
            initialization,
        ) {
            Err(error) => Err(error),
            Ok((first, s1)) => match translated_condition(s1, condition) {
                Err(error) => Err(error),
                Ok((c, s2)) => match translated_body(project, s2, body) {
                    Err(error) => Err(error),
                    Ok((b, s3)) => match translated_optional_update(s3, update) {
                        Err(error) => Err(error),
                        Ok((u, s4)) => match for_block(first, c, b, u, s4.scope) {
                            Err(error) => Err(error),
                            Ok(x) => Ok((x, left(s4))),
                        },
                    },
                },
            },
        },
        _ => Err(ErrorView::Unsupported(Construct::UnparsedStatement@)),
    }
}

/// The translation of `if condition then else otherwise`.
pub open spec fn translated_if(project: ProjectView, state: TranslationState, statement: solidity::Statement) -> TranslatedStatement
    decreases statement, 0nat,
{
    match statement {
        solidity::Statement::If(condition, then, otherwise) => match translated_expression(state, condition) {
            Err(error) => Err(error),
            Ok((c, s1)) => match translated_statement(project, s1, *then) {
                Err(error) => Err(error),
                Ok((t, s2)) => match otherwise {
                    None => Ok((if_statement(c, body_of(t), None), s2)),
                    Some(o) => match translated_statement(project, s2, *o) {
                        Err(error) => Err(error),
                        Ok((e, s3)) => Ok((if_statement(c, body_of(t), Some(else_branch_of(e))), s3)),
                    },
                },
            },
        },
        _ => Err(ErrorView::Unsupported(Construct::UnparsedStatement@)),
    }
}

/// The translation of `while condition body`.
pub open spec fn translated_while(project: ProjectView, state: TranslationState, statement: solidity::Statement) -> TranslatedStatement
    decreases statement, 0nat,
{
    match statement {
        solidity::Statement::While(condition, body) => match translated_expression(state, condition) {
            Err(error) => Err(error),
            Ok((c, s1)) => match translated_statement(project, s1, *body) {
                Err(error) => Err(error),
                Ok((b, s2)) => Ok((statement_of(while_loop(c, body_of(b))), s2)),
            },
        },
        _ => Err(ErrorView::Unsupported(Construct::UnparsedStatement@)),
    }
}

/// The translation of the statements of a block in order; each `let`
/// records its index for the variables it declares.
pub open spec fn translated_statements(
    project: ProjectView,
    state: TranslationState,
    statements: Seq<solidity::Statement>,
) -> Result<(Seq<StatementView>, TranslationState), ErrorView>
    decreases statements, 0nat,
{
    if statements.len() == 0 {
        Ok((Seq::empty(), state))
    } else {
        match translated_statements(project, state, statements.drop_last()) {
            Err(error) => Err(error),
            Ok((xs, s1)) => match translated_statement(project, s1, statements.last()) {
                Err(error) => Err(error),
                Ok((x, s2)) => Ok(
                    (
                        xs.push(x),
                        TranslationState { scope: with_declaration_index(s2.scope, x, xs.len() as usize), ..s2 },
                    ),
                ),
            },
        }
    }
}

/// The translation of a block: its statements in order, and the block
/// completed in the scope they were translated in.
pub open spec fn translated_block(
    project: ProjectView,
    state: TranslationState,
    statements: Seq<solidity::Statement>,
) -> Result<(BlockView, TranslationState), ErrorView>
    decreases statements, 1nat,
{
    match translated_statements(project, state, statements) {
        Err(error) => Err(error),
        Ok((xs, s1)) => match finalized(BlockView { statements: xs, final_expr: None }, s1.scope) {
            Err(error) => Err(error),
            Ok(block) => Ok((block, s1)),
        },
    }
}

/// The translation of a block as a statement: the block is translated in
/// a scope of its own, which is discarded at the end.
pub open spec fn translated_block_statement(
    project: ProjectView,
    state: TranslationState,
    statements: Seq<solidity::Statement>,
) -> TranslatedStatement
    decreases statements, 2nat,
{
    match translated_block(project, entered(state), statements) {
        Err(error) => Err(error),
        Ok((b, s1)) => Ok((block_statement(b), left(s1))),
    }
}

/// The translation of a statement.
///
/// A block is translated in a scope of its own. Inline assembly, named
/// arguments, `do`-`while`, `try` and `revert` with named arguments are
/// not translated.
pub open spec fn translated_statement(project: ProjectView, state: TranslationState, statement: solidity::Statement) -> TranslatedStatement
    decreases statement, 1nat,
{
    match statement {
        solidity::Statement::Block { statements } => translated_block_statement(project, state, statements@),
        solidity::Statement::Assembly => Err(ErrorView::Unsupported(Construct::AssemblyStatement@)),
        solidity::Statement::Args => Err(ErrorView::Unsupported(Construct::ArgsStatement@)),
        solidity::Statement::If(_, _, _) => translated_if(project, state, statement),
        solidity::Statement::While(_, _) => translated_while(project, state, statement),
        solidity::Statement::Expression(e) => translated_expression_statement(project, state, e),
        solidity::Statement::VariableDefinition(declaration, initializer) => translated_variable_definition(
            project,
            state,
            declaration,
            initializer,
        ),
        solidity::Statement::For(_, _, _, _) => translated_for(project, state, statement),
        solidity::Statement::DoWhile => Err(ErrorView::Unsupported(Construct::DoWhileStatement@)),
        solidity::Statement::Continue => Ok((statement_of(ExpressionView::Continue), state)),
        solidity::Statement::Break => Ok((statement_of(ExpressionView::Break), state)),
        solidity::Statement::Return(e) => translated_return(state, e),
        solidity::Statement::Revert(error_type, parameters) => translated_revert(state, error_type, parameters@),
        solidity::Statement::RevertNamedArgs => Err(ErrorView::Unsupported(Construct::RevertNamedArgs@)),
        solidity::Statement::Emit(e) => translated_emit(state, e),
        solidity::Statement::Try => Err(ErrorView::Unsupported(Construct::TryStatement@)),
        solidity::Statement::Error => Err(ErrorView::Unsupported(Construct::UnparsedStatement@)),
    }
}

/// Revert lowering: `revert Error(argument)`, for an error of the
/// definition and with one argument, becomes a block of exactly two
/// statements: a call of `log` with the error's variant applied to the
/// translated argument, and a call of `revert` with zero.
pub proof fn lemma_revert_with_one_argument(
    state: TranslationState,
    name: String,
    argument: solidity::Expression,
    variant: Seq<char>,
)
    requires
        qualified_variant(state.definition.errors_enums, name@) == Some(variant),
        translated_expression(state, argument) is Ok,
    ensures
        translated_revert(state, Some(name), seq![argument]) is Ok,
        ({
            let translated = translated_expression(state, argument)->Ok_0;
            let lowered = translated_revert(state, Some(name), seq![argument])->Ok_0;
            &&& lowered.1 == translated.1
            &&& lowered.0 == statement_of(
                block_of(
                    seq![
                        statement_of(call_named("log"@, seq![call_named(variant, seq![translated.0])])),
                        statement_of(call_named("revert"@, seq![decimal(0)])),
                    ],
                    None,
                ),
            )
        }),
{
    let parameters = seq![argument];
    assert(parameters.drop_last() =~= Seq::empty());
    assert(parameters.last() == argument);
    reveal_with_fuel(translated_expressions, 2);
    let translated = translated_expression(state, argument)->Ok_0;
    assert(Seq::<ExpressionView>::empty().push(translated.0) =~= seq![translated.0]);
}

} // verus!
