//! The translation of statements.

use vstd::prelude::*;
use crate::errors::{Construct, Error, ErrorView};
use crate::project::Project;
use crate::solidity;
use crate::sway::{Block, Expression, If, Let, LetIdentifier, LetPattern, Statement};
use crate::sway::model::{BlockView, let_identifier_models, statement_models, StatementView};
use crate::sway::shapes::{make_block_statement, make_if, make_return, make_while, one_statement};
use crate::text::text_eq;
use crate::translate::{TranslatedDefinition, TranslationScope};
pub use crate::translate::declarations::{translate_expression_statement, translate_variable_definition_statement};
use crate::translate::expressions::{state_of, translate_expression, TranslationState};
use crate::translate::finalize::finalize_block_translation;
pub use crate::translate::loops::translate_for_statement;
pub use crate::translate::reverts::{translate_emit_statement, translate_revert_statement};
use crate::translate::statement_rules::{
    body_of, else_branch_of, indexed_all, indexed_unless_blank, statement_outcome, translated_block,
    translated_block_statement, translated_if, translated_return, translated_statement,
    translated_statements, translated_while, with_declaration_index,
};

verus! {

pub(crate) fn body_from(statement: Statement) -> (r: Block)
    ensures
        r@ == body_of(statement@),
{
    proof {
        reveal_with_fuel(Statement::model, 2);
    }
    match statement {
        Statement::Expression(Expression::Block(b)) => *b,
        other => Block { statements: one_statement(other), final_expr: None },
    }
}

pub(crate) fn else_branch_from(statement: Statement) -> (r: If)
    ensures
        r@ == else_branch_of(statement@),
{
    proof {
        reveal_with_fuel(Statement::model, 2);
    }
    match statement {
        Statement::Expression(Expression::If(i)) => *i,
        other => If { condition: None, then_body: body_from(other), else_if: None },
    }
}

fn index_name(scope: &mut TranslationScope, name: &str, index: usize)
    ensures
        final(scope)@ == indexed_unless_blank(old(scope)@, name@, index),
{
    if text_eq(name, "_") {
        return ;
    }
    scope.set_statement_index(name, index);
}

fn index_names(scope: &mut TranslationScope, ids: &Vec<LetIdentifier>, index: usize)
    ensures
        final(scope)@ == indexed_all(old(scope)@, let_identifier_models(ids@), index, ids.len() as nat),
{
    let mut k: usize = 0;
    while k < ids.len()
        invariant
            k <= ids.len(),
            scope@ == indexed_all(old(scope)@, let_identifier_models(ids@), index, k as nat),
        decreases ids.len() - k,
    {
        index_name(scope, ids[k].name.as_str(), index);
        k += 1;
    }
}

pub(crate) fn record_declaration_index(scope: &mut TranslationScope, statement: &Statement, index: usize)
    ensures
        final(scope)@ == with_declaration_index(old(scope)@, statement@, index),
{
    proof {
        reveal_with_fuel(Statement::model, 2);
    }
    match statement {
        Statement::Let(l) => match &l.pattern {
            LetPattern::Identifier(id) => {
                proof {
                    reveal_with_fuel(indexed_all, 2);
                }
                index_name(scope, id.name.as_str(), index);
                return ;
            },
            LetPattern::Tuple(ids) => {
                index_names(scope, ids, index);
                return ;
            },
        },
        Statement::Expression(_) => {
            return ;
        },
    }
}

/// Translates `revert`, with or without the name of an error.

/// Translates `emit Event(arguments)`.

/// Translates `return`, with or without a value.

pub fn translate_return_statement(
    project: &Project,
    translated_definition: &mut TranslatedDefinition,
    scope: &mut TranslationScope,
    expression: &Option<solidity::Expression>,
) -> (r: Result<Statement, Error>)
    ensures
        statement_outcome(r, final(translated_definition)@, final(scope)@) == translated_return(
            state_of(old(translated_definition)@, old(scope)@),
            *expression,
        ),
{
    match expression {
        Some(x) => match translate_expression(project, translated_definition, scope, x) {
            Err(error) => {
                return Err(error);
            },
            Ok(v) => {
                return Ok(make_return(Some(v)));
            },
        },
        None => {
            return Ok(make_return(None));
        },
    }
}

/// Named arguments are not translated.

pub fn translate_args_statement() -> (r: Result<Statement, Error>)
    ensures
        r matches Err(error) && error@ == ErrorView::Unsupported(Construct::ArgsStatement@),
{
    Err(Error::Unsupported(Construct::ArgsStatement))
}

/// Translates an expression statement.

/// Translates the definition of a local variable.

/// Translates a `for` loop.

/// Translates a conditional.

pub fn translate_if_statement(
    project: &Project,
    translated_definition: &mut TranslatedDefinition,
    scope: &mut TranslationScope,
    statement: &solidity::Statement,
) -> (r: Result<Statement, Error>)
    ensures
        statement_outcome(r, final(translated_definition)@, final(scope)@) == translated_if(
            project@,
            state_of(old(translated_definition)@, old(scope)@),
            *statement,
        ),
    decreases statement, 0nat,
{
    match statement {
        solidity::Statement::If(condition, then, otherwise) => {
            let c = match translate_expression(project, translated_definition, scope, condition) {
                Err(error) => {
                    return Err(error);
                },
                Ok(c) => c,
            };
            let then_body = match translate_statement(project, translated_definition, scope, &**then) {
                Err(error) => {
                    return Err(error);
                },
                Ok(t) => body_from(t),
            };
            match otherwise {
                None => {
                    return Ok(make_if(c, then_body, None));
                },
                Some(o) => match translate_statement(project, translated_definition, scope, &**o) {
                    Err(error) => {
                        return Err(error);
                    },
                    Ok(e) => {
                        return Ok(make_if(c, then_body, Some(else_branch_from(e))));
                    },
                },
            }
        },
        _ => {
            return Err(Error::Unsupported(Construct::UnparsedStatement));
        },
    }
}

/// Translates a `while` loop.

pub fn translate_while_statement(
    project: &Project,
    translated_definition: &mut TranslatedDefinition,
    scope: &mut TranslationScope,
    statement: &solidity::Statement,
) -> (r: Result<Statement, Error>)
    ensures
        statement_outcome(r, final(translated_definition)@, final(scope)@) == translated_while(
            project@,
            state_of(old(translated_definition)@, old(scope)@),
            *statement,
        ),
    decreases statement, 0nat,
{
    match statement {
        solidity::Statement::While(condition, body) => {
            let c = match translate_expression(project, translated_definition, scope, condition) {
                Err(error) => {
                    return Err(error);
                },
                Ok(c) => c,
            };
            match translate_statement(project, translated_definition, scope, &**body) {
                Err(error) => {
                    return Err(error);
                },
                Ok(b) => {
                    return Ok(Statement::Expression(make_while(c, body_from(b))));
                },
            }
        },
        _ => {
            return Err(Error::Unsupported(Construct::UnparsedStatement));
        },
    }
}

proof fn lemma_statements_fail(
    project: crate::project::ProjectView,
    state: TranslationState,
    statements: Seq<solidity::Statement>,
    n: int,
)
    requires
        0 <= n <= statements.len(),
        translated_statements(project, state, statements.subrange(0, n)) is Err,
    ensures
        translated_statements(project, state, statements) == translated_statements(
            project,
            state,
            statements.subrange(0, n),
        ),
    decreases statements.len() - n,
{
    if n == statements.len() {
        assert(statements.subrange(0, n) =~= statements);
    } else {
        let s = statements.subrange(0, n + 1);
        assert(s.drop_last() =~= statements.subrange(0, n));
        lemma_statements_fail(project, state, statements, n + 1);
    }
}

/// Translates the statements of a block in the given scope and completes

/// the block.

pub fn translate_block(
    project: &Project,
    translated_definition: &mut TranslatedDefinition,
    scope: &mut TranslationScope,
    statements: &Vec<solidity::Statement>,
) -> (r: Result<Block, Error>)
    ensures
        match r {
            Ok(block) => translated_block(project@, state_of(old(translated_definition)@, old(scope)@), statements@)
                == Ok::<(BlockView, TranslationState), ErrorView>(
                (block@, state_of(final(translated_definition)@, final(scope)@)),
            ),
            Err(error) => translated_block(project@, state_of(old(translated_definition)@, old(scope)@), statements@)
                == Err::<(BlockView, TranslationState), ErrorView>(error@),
        },
    decreases statements, 1nat,
{
    let ghost start = state_of(old(translated_definition)@, old(scope)@);
    let mut xs: Vec<Statement> = Vec::new();
    let mut i: usize = 0;
    assert(statements@.subrange(0, 0) =~= Seq::empty());
    assert(statement_models(xs@) =~= Seq::empty());
    while i < statements.len()
        invariant
            i <= statements.len(),
            xs.len() == i,
            start == state_of(old(translated_definition)@, old(scope)@),
            translated_statements(project@, start, statements@.subrange(0, i as int)) == Ok::<
                (Seq<StatementView>, TranslationState),
                ErrorView,
            >((statement_models(xs@), state_of(translated_definition@, scope@))),
        decreases statements.len() - i,
    {
        proof {
            let s = statements@.subrange(0, i + 1);
            assert(s.drop_last() =~= statements@.subrange(0, i as int));
            assert(s.last() == statements@[i as int]);
        }
        let ghost before = statement_models(xs@);
        match translate_statement(project, translated_definition, scope, &statements[i]) {
            Err(error) => {
                proof {
                    lemma_statements_fail(project@, start, statements@, i + 1);
                }
                return Err(error);
            },
            Ok(x) => {
                record_declaration_index(scope, &x, i);
                xs.push(x);
                assert(statement_models(xs@) =~= before.push(x@));
            },
        }
        i += 1;
    }
    assert(statements@.subrange(0, i as int) =~= statements@);
    let mut block = Block { statements: xs, final_expr: None };
    match finalize_block_translation(scope, &mut block) {
        Err(error) => {
            return Err(error);
        },
        Ok(()) => {
            return Ok(block);
        },
    }
}

/// Translates a block in a scope of its own. After an error the scope is
/// as it was before.
pub fn translate_block_statement(
    project: &Project,
    translated_definition: &mut TranslatedDefinition,
    scope: &mut TranslationScope,
    statements: &Vec<solidity::Statement>,
) -> (r: Result<Statement, Error>)
    ensures
        statement_outcome(r, final(translated_definition)@, final(scope)@) == translated_block_statement(
            project@,
            state_of(old(translated_definition)@, old(scope)@),
            statements@,
        ),
        r is Err ==> final(scope)@ == old(scope)@,
    decreases statements, 2nat,
{
    let saved = scope.clone();
    scope.enter();
    match translate_block(project, translated_definition, scope, statements) {
        Err(error) => {
            *scope = saved;
            return Err(error);
        },
        Ok(block) => {
            let result = make_block_statement(block);
            scope.leave();
            return Ok(result);
        },
    }
}

/// Translates a statement.

pub fn translate_statement(
    project: &Project,
    translated_definition: &mut TranslatedDefinition,
    scope: &mut TranslationScope,
    statement: &solidity::Statement,
) -> (r: Result<Statement, Error>)
    ensures
        statement_outcome(r, final(translated_definition)@, final(scope)@) == translated_statement(
            project@,
            state_of(old(translated_definition)@, old(scope)@),
            *statement,
        ),
    decreases statement, 1nat,
{
    match statement {
        solidity::Statement::Block { statements } => {
            return translate_block_statement(project, translated_definition, scope, statements);
        },
        solidity::Statement::Assembly => {
            return Err(Error::Unsupported(Construct::AssemblyStatement));
        },
        solidity::Statement::Args => {
            return translate_args_statement();
        },
        solidity::Statement::If(_, _, _) => {
            return translate_if_statement(project, translated_definition, scope, statement);
        },
        solidity::Statement::While(_, _) => {
            return translate_while_statement(project, translated_definition, scope, statement);
        },
        solidity::Statement::Expression(e) => {
            return translate_expression_statement(project, translated_definition, scope, e);
        },
        solidity::Statement::VariableDefinition(declaration, initializer) => {
            return translate_variable_definition_statement(
                project,
                translated_definition,
                scope,
                declaration,
                initializer,
            );
        },
        solidity::Statement::For(_, _, _, _) => {
            return translate_for_statement(project, translated_definition, scope, statement);
        },
        solidity::Statement::DoWhile => {
            return Err(Error::Unsupported(Construct::DoWhileStatement));
        },
        solidity::Statement::Continue => {
            return Ok(Statement::Expression(Expression::Continue));
        },
        solidity::Statement::Break => {
            return Ok(Statement::Expression(Expression::Break));
        },
        solidity::Statement::Return(e) => {
            return translate_return_statement(project, translated_definition, scope, e);
        },
        solidity::Statement::Revert(error_type, parameters) => {
            return translate_revert_statement(project, translated_definition, scope, error_type, parameters);
        },
        solidity::Statement::RevertNamedArgs => {
            return Err(Error::Unsupported(Construct::RevertNamedArgs));
        },
        solidity::Statement::Emit(e) => {
            return translate_emit_statement(project, translated_definition, scope, e);
        },
        solidity::Statement::Try => {
            return Err(Error::Unsupported(Construct::TryStatement));
        },
        solidity::Statement::Error => {
            return Err(Error::Unsupported(Construct::UnparsedStatement));
        },
    }
}

} // verus!
