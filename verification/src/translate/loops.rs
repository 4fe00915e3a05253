//! The translation of `for` loops.

use vstd::prelude::*;
use crate::errors::{Construct, Error, ErrorView};
use crate::project::Project;
use crate::solidity;
use crate::solidity::BinaryOperator;
use crate::sway::{Block, Expression, Literal, Statement};
use crate::sway::model::{BlockView, ExpressionView, statement_models, StatementView};
use crate::sway::shapes::{make_block_statement, make_while, one_statement, optional_expression};
use crate::translate::{TranslatedDefinition, TranslationScope};
use crate::translate::expressions::{
    outcome, state_of, translate_expression, translate_step, TranslationState,
};
use crate::translate::finalize::finalize_block_translation;
use crate::translate::statement_rules::{
    for_block, statement_outcome, translated_body, translated_condition, translated_for,
    translated_initialization, translated_optional_update, translated_update, with_update,
};
use crate::translate::statements::{body_from, record_declaration_index, translate_statement};

verus! {

fn translate_update(
    project: &Project,
    translated_definition: &mut TranslatedDefinition,
    scope: &mut TranslationScope,
    update: &solidity::Expression,
) -> (r: Result<Expression, Error>)
    ensures
        outcome(r, final(translated_definition)@, final(scope)@) == translated_update(
            state_of(old(translated_definition)@, old(scope)@),
            *update,
        ),
{
    match update {
        solidity::Expression::PreDecrement(x) => {
            return translate_step(project, translated_definition, scope, BinaryOperator::Subtract, &**x);
        },
        solidity::Expression::PostDecrement(x) => {
            return translate_step(project, translated_definition, scope, BinaryOperator::Subtract, &**x);
        },
        solidity::Expression::PreIncrement(x) => {
            return translate_step(project, translated_definition, scope, BinaryOperator::Add, &**x);
        },
        solidity::Expression::PostIncrement(x) => {
            return translate_step(project, translated_definition, scope, BinaryOperator::Add, &**x);
        },
        _ => {
            return translate_expression(project, translated_definition, scope, update);
        },
    }
}

fn translate_initialization(
    project: &Project,
    translated_definition: &mut TranslatedDefinition,
    scope: &mut TranslationScope,
    initialization: &Option<Box<solidity::Statement>>,
) -> (r: Result<Vec<Statement>, Error>)
    ensures
        match r {
            Ok(first) => translated_initialization(
                project@,
                state_of(old(translated_definition)@, old(scope)@),
                *initialization,
            ) == Ok::<(Seq<StatementView>, TranslationState), ErrorView>(
                (statement_models(first@), state_of(final(translated_definition)@, final(scope)@)),
            ),
            Err(error) => translated_initialization(
                project@,
                state_of(old(translated_definition)@, old(scope)@),
                *initialization,
            ) == Err::<(Seq<StatementView>, TranslationState), ErrorView>(error@),
        },
    decreases initialization, 2nat,
{
    match initialization {
        Some(i) => match translate_statement(project, translated_definition, scope, &**i) {
            Err(error) => {
                return Err(error);
            },
            Ok(x) => {
                record_declaration_index(scope, &x, 0);
                return Ok(one_statement(x));
            },
        },
        None => {
            return Ok(crate::sway::shapes::no_statements());
        },
    }
}

fn translate_condition(
    project: &Project,
    translated_definition: &mut TranslatedDefinition,
    scope: &mut TranslationScope,
    condition: &Option<Box<solidity::Expression>>,
) -> (r: Result<Expression, Error>)
    ensures
        outcome(r, final(translated_definition)@, final(scope)@) == translated_condition(
            state_of(old(translated_definition)@, old(scope)@),
            *condition,
        ),
{
    match condition {
        Some(c) => {
            return translate_expression(project, translated_definition, scope, &**c);
        },
        None => {
            return Ok(Expression::Literal(Literal::Bool(true)));
        },
    }
}

fn translate_body(
    project: &Project,
    translated_definition: &mut TranslatedDefinition,
    scope: &mut TranslationScope,
    body: &Option<Box<solidity::Statement>>,
) -> (r: Result<Block, Error>)
    ensures
        match r {
            Ok(b) => translated_body(project@, state_of(old(translated_definition)@, old(scope)@), *body) == Ok::<
                (BlockView, TranslationState),
                ErrorView,
            >((b@, state_of(final(translated_definition)@, final(scope)@))),
            Err(error) => translated_body(project@, state_of(old(translated_definition)@, old(scope)@), *body)
                == Err::<(BlockView, TranslationState), ErrorView>(error@),
        },
    decreases body, 2nat,
{
    match body {
        Some(b) => match translate_statement(project, translated_definition, scope, &**b) {
            Err(error) => {
                return Err(error);
            },
            Ok(x) => {
                return Ok(body_from(x));
            },
        },
        None => {
            return Ok(Block::default());
        },
    }
}

fn translate_optional_update(
    project: &Project,
    translated_definition: &mut TranslatedDefinition,
    scope: &mut TranslationScope,
    update: &Option<Box<solidity::Expression>>,
) -> (r: Result<Option<Expression>, Error>)
    ensures
        match r {
            Ok(u) => translated_optional_update(state_of(old(translated_definition)@, old(scope)@), *update) == Ok::<
                (Option<ExpressionView>, TranslationState),
                ErrorView,
            >((optional_expression(u), state_of(final(translated_definition)@, final(scope)@))),
            Err(error) => translated_optional_update(state_of(old(translated_definition)@, old(scope)@), *update)
                == Err::<(Option<ExpressionView>, TranslationState), ErrorView>(error@),
        },
{
    match update {
        Some(u) => match translate_update(project, translated_definition, scope, &**u) {
            Err(error) => {
                return Err(error);
            },
            Ok(x) => {
                return Ok(Some(x));
            },
        },
        None => {
            return Ok(None);
        },
    }
}

fn append_update(body: Block, update: Option<Expression>) -> (r: Block)
    ensures
        r@ == with_update(body@, optional_expression(update)),
{
    match update {
        Some(u) => {
            let mut statements = body.statements;
            let ghost before = statement_models(statements@);
            let last = Statement::Expression(u);
            statements.push(last);
            assert(statement_models(statements@) =~= before.push(last@));
            Block { statements, final_expr: body.final_expr }
        },
        None => body,
    }
}

fn make_for_block(
    first: Vec<Statement>,
    condition: Expression,
    body: Block,
    update: Option<Expression>,
    scope: &TranslationScope,
) -> (r: Result<Statement, Error>)
    ensures
        match r {
            Ok(x) => for_block(statement_models(first@), condition@, body@, optional_expression(update), scope@)
                == Ok::<StatementView, ErrorView>(x@),
            Err(error) => for_block(statement_models(first@), condition@, body@, optional_expression(update), scope@)
                == Err::<StatementView, ErrorView>(error@),
        },
{
    let mut statements = first;
    let ghost before = statement_models(statements@);
    let looping = Statement::Expression(make_while(condition, append_update(body, update)));
    statements.push(looping);
    assert(statement_models(statements@) =~= before.push(looping@));
    let mut whole = Block { statements, final_expr: None };
    match finalize_block_translation(scope, &mut whole) {
        Err(error) => {
            return Err(error);
        },
        Ok(()) => {
            return Ok(make_block_statement(whole));
        },
    }
}

/// Translates a `for` loop into a block that holds the initialization and
/// a `while` loop, in a scope of its own. After an error the scope is as it
/// was before.
pub fn translate_for_statement(
    project: &Project,
    translated_definition: &mut TranslatedDefinition,
    scope: &mut TranslationScope,
    statement: &solidity::Statement,
) -> (r: Result<Statement, Error>)
    ensures
        statement_outcome(r, final(translated_definition)@, final(scope)@) == translated_for(
            project@,
            state_of(old(translated_definition)@, old(scope)@),
            *statement,
        ),
        r is Err ==> final(scope)@ == old(scope)@,
    decreases statement, 0nat,
{
    match statement {
        solidity::Statement::For(initialization, condition, update, body) => {
            let saved = scope.clone();
            scope.enter();
            let first = match translate_initialization(project, translated_definition, scope, initialization) {
                Err(error) => {
                    *scope = saved;
                    return Err(error);
                },
                Ok(first) => first,
            };
            let c = match translate_condition(project, translated_definition, scope, condition) {
                Err(error) => {
                    *scope = saved;
                    return Err(error);
                },
                Ok(c) => c,
            };
            let b = match translate_body(project, translated_definition, scope, body) {
                Err(error) => {
                    *scope = saved;
                    return Err(error);
                },
                Ok(b) => b,
            };
            let u = match translate_optional_update(project, translated_definition, scope, update) {
                Err(error) => {
                    *scope = saved;
                    return Err(error);
                },
                Ok(u) => u,
            };
            match make_for_block(first, c, b, u, scope) {
                Err(error) => {
                    *scope = saved;
                    return Err(error);
                },
                Ok(result) => {
                    scope.leave();
                    return Ok(result);
                },
            }
        },
        _ => {
            return Err(Error::Unsupported(Construct::UnparsedStatement));
        },
    }
}

} // verus!
