//! The translation of expression statements and of the definitions of
//! local variables.

use vstd::prelude::*;
use crate::errors::{Construct, Error, ErrorView};
use crate::naming::{Case, translate_naming_convention};
use crate::project::Project;
use crate::solidity;
use crate::solidity::BinaryOperator;
use crate::sway::{Block, Expression, LetIdentifier, Statement, TypeName};
use crate::sway::model::{
    ExpressionView, let_identifier_models, LetIdentifierView, statement_models, type_name_models,
    TypeNameView,
};
use crate::sway::shapes::{
    make_binary, make_block, make_call_named, make_decimal, make_identifier, make_let, make_method_call,
    make_tuple_let, make_while, one_expression, optional_expression, two_statements,
};
use crate::sway::typing::type_named;
use crate::text::{text, text_eq};
use crate::translate::{TranslatedDefinition, TranslatedVariable, TranslationScope};
use crate::translate::expressions::{
    translate_pre_or_post_operator_value_expression,
    outcome, state_of, translate_expression, translate_step, TranslationState,
};
use crate::translate::statement_rules::{
    as_statement, declared_variable, new_vector, statement_outcome, translated_expression_statement,
    translated_initializer, translated_list, translated_list_entry, translated_new,
    translated_variable_definition, vector_element,
};
use crate::translate::type_names::translate_type_name;
use crate::translate::values::create_default_value;

verus! {

pub(crate) fn declare_in(scope: &mut TranslationScope, old_name: &String, new_name: &String, ty: &TypeName)
    ensures
        final(scope)@ == old(scope)@.declare(declared_variable(old_name@, new_name@, ty@)),
{
    scope.declare(
        TranslatedVariable {
            old_name: old_name.clone(),
            new_name: new_name.clone(),
            ty: ty.clone(),
            abi_type_name: None,
            is_storage: false,
            is_configurable: false,
            is_constant: false,
            statement_index: None,
            read_count: 0,
            mutation_count: 0,
        },
    );
}

fn translate_list_entry(
    project: &Project,
    translated_definition: &mut TranslatedDefinition,
    scope: &mut TranslationScope,
    parameter: &Option<solidity::Parameter>,
) -> (r: Result<(LetIdentifier, TypeName), Error>)
    ensures
        match r {
            Ok((id, t)) => translated_list_entry(
                project@,
                state_of(old(translated_definition)@, old(scope)@),
                *parameter,
            ) == Ok::<(LetIdentifierView, TypeNameView, TranslationState), ErrorView>(
                (id@, t@, state_of(final(translated_definition)@, final(scope)@)),
            ),
            Err(error) => translated_list_entry(
                project@,
                state_of(old(translated_definition)@, old(scope)@),
                *parameter,
            ) == Err::<(LetIdentifierView, TypeNameView, TranslationState), ErrorView>(error@),
        },
{
    match parameter {
        None => {
            return Ok((LetIdentifier { is_mutable: false, name: text("_") }, type_named("_")));
        },
        Some(p) => {
            let t = match translate_type_name(project, translated_definition, &p.ty, false) {
                Err(error) => {
                    return Err(error);
                },
                Ok(t) => t,
            };
            match &p.name {
                None => {
                    return Ok((LetIdentifier { is_mutable: false, name: text("_") }, t));
                },
                Some(name) => {
                    let new_name = translate_naming_convention(name.as_str(), Case::Snake);
                    declare_in(scope, name, &new_name, &t);
                    return Ok((LetIdentifier { is_mutable: false, name: new_name }, t));
                },
            }
        },
    }
}

pub(crate) fn translate_list(
    project: &Project,
    translated_definition: &mut TranslatedDefinition,
    scope: &mut TranslationScope,
    parameters: &Vec<Option<solidity::Parameter>>,
) -> (r: Result<(Vec<LetIdentifier>, Vec<TypeName>), Error>)
    ensures
        match r {
            Ok((ids, types)) => translated_list(
                project@,
                state_of(old(translated_definition)@, old(scope)@),
                parameters@,
            ) == Ok::<(Seq<LetIdentifierView>, Seq<TypeNameView>, TranslationState), ErrorView>(
                (
                    let_identifier_models(ids@),
                    type_name_models(types@),
                    state_of(final(translated_definition)@, final(scope)@),
                ),
            ) && ids.len() == types.len(),
            Err(error) => translated_list(project@, state_of(old(translated_definition)@, old(scope)@), parameters@)
                == Err::<(Seq<LetIdentifierView>, Seq<TypeNameView>, TranslationState), ErrorView>(error@),
        },
{
    let ghost start = state_of(old(translated_definition)@, old(scope)@);
    let mut ids: Vec<LetIdentifier> = Vec::new();
    let mut types: Vec<TypeName> = Vec::new();
    let mut i: usize = 0;
    assert(parameters@.subrange(0, 0) =~= Seq::empty());
    assert(let_identifier_models(ids@) =~= Seq::empty());
    assert(type_name_models(types@) =~= Seq::empty());
    while i < parameters.len()
        invariant
            i <= parameters.len(),
            ids.len() == types.len(),
            start == state_of(old(translated_definition)@, old(scope)@),
            translated_list(project@, start, parameters@.subrange(0, i as int)) == Ok::<
                (Seq<LetIdentifierView>, Seq<TypeNameView>, TranslationState),
                ErrorView,
            >((let_identifier_models(ids@), type_name_models(types@), state_of(translated_definition@, scope@))),
        decreases parameters.len() - i,
    {
        proof {
            let s = parameters@.subrange(0, i + 1);
            assert(s.drop_last() =~= parameters@.subrange(0, i as int));
            assert(s.last() == parameters@[i as int]);
        }
        let ghost ids_before = let_identifier_models(ids@);
        let ghost types_before = type_name_models(types@);
        match translate_list_entry(project, translated_definition, scope, &parameters[i]) {
            Err(error) => {
                proof {
                    lemma_list_fails(project@, start, parameters@, i + 1);
                }
                return Err(error);
            },
            Ok((id, t)) => {
                ids.push(id);
                types.push(t);
                assert(let_identifier_models(ids@) =~= ids_before.push(id@));
                assert(type_name_models(types@) =~= types_before.push(t@));
            },
        }
        i += 1;
    }
    assert(parameters@.subrange(0, i as int) =~= parameters@);
    Ok((ids, types))
}

proof fn lemma_list_fails(
    project: crate::project::ProjectView,
    state: TranslationState,
    parameters: Seq<Option<solidity::Parameter>>,
    n: int,
)
    requires
        0 <= n <= parameters.len(),
        translated_list(project, state, parameters.subrange(0, n)) is Err,
    ensures
        translated_list(project, state, parameters) == translated_list(project, state, parameters.subrange(0, n)),
    decreases parameters.len() - n,
{
    if n == parameters.len() {
        assert(parameters.subrange(0, n) =~= parameters);
    } else {
        let s = parameters.subrange(0, n + 1);
        assert(s.drop_last() =~= parameters.subrange(0, n));
        lemma_list_fails(project, state, parameters, n + 1);
    }
}

fn step_statement(
    project: &Project,
    translated_definition: &mut TranslatedDefinition,
    scope: &mut TranslationScope,
    op: BinaryOperator,
    target: &solidity::Expression,
) -> (r: Result<Statement, Error>)
    ensures
        statement_outcome(r, final(translated_definition)@, final(scope)@) == as_statement(
            crate::translate::expressions::translated_step(
                state_of(old(translated_definition)@, old(scope)@),
                op,
                *target,
            ),
        ),
{
    match translate_step(project, translated_definition, scope, op, target) {
        Err(error) => Err(error),
        Ok(x) => Ok(Statement::Expression(x)),
    }
}

fn plain_statement(
    project: &Project,
    translated_definition: &mut TranslatedDefinition,
    scope: &mut TranslationScope,
    expression: &solidity::Expression,
) -> (r: Result<Statement, Error>)
    ensures
        statement_outcome(r, final(translated_definition)@, final(scope)@) == as_statement(
            crate::translate::expressions::translated_expression(
                state_of(old(translated_definition)@, old(scope)@),
                *expression,
            ),
        ),
{
    match translate_expression(project, translated_definition, scope, expression) {
        Err(error) => Err(error),
        Ok(x) => Ok(Statement::Expression(x)),
    }
}

pub fn translate_expression_statement(
    project: &Project,
    translated_definition: &mut TranslatedDefinition,
    scope: &mut TranslationScope,
    expression: &solidity::Expression,
) -> (r: Result<Statement, Error>)
    ensures
        statement_outcome(r, final(translated_definition)@, final(scope)@) == translated_expression_statement(
            project@,
            state_of(old(translated_definition)@, old(scope)@),
            *expression,
        ),
{
    match expression {
        solidity::Expression::Assign(None, lhs, rhs) => match &**lhs {
            solidity::Expression::List(parameters) => {
                let (ids, types) = match translate_list(project, translated_definition, scope, parameters) {
                    Err(error) => {
                        return Err(error);
                    },
                    Ok(declared) => declared,
                };
                match translate_expression(project, translated_definition, scope, &**rhs) {
                    Err(error) => {
                        return Err(error);
                    },
                    Ok(value) => {
                        return Ok(make_tuple_let(ids, types, value));
                    },
                }
            },
            _ => {
                return plain_statement(project, translated_definition, scope, expression);
            },
        },
        solidity::Expression::PreDecrement(x) => {
            return step_statement(project, translated_definition, scope, BinaryOperator::Subtract, &**x);
        },
        solidity::Expression::PostDecrement(x) => {
            return step_statement(project, translated_definition, scope, BinaryOperator::Subtract, &**x);
        },
        solidity::Expression::PreIncrement(x) => {
            return step_statement(project, translated_definition, scope, BinaryOperator::Add, &**x);
        },
        solidity::Expression::PostIncrement(x) => {
            return step_statement(project, translated_definition, scope, BinaryOperator::Add, &**x);
        },
        _ => {
            return plain_statement(project, translated_definition, scope, expression);
        },
    }
}

fn vector_element_of(t: &TypeName) -> (r: Option<TypeName>)
    ensures
        crate::sway::shapes::optional_type(r) == vector_element(t@),
{
    proof {
        reveal_with_fuel(TypeName::model, 4);
    }
    match t {
        TypeName::Identifier { name, generic_parameters: Some(g) } => if text_eq(name.as_str(), "Vec") && g.entries.len()
            > 0 {
            Some(g.entries[0].ty.clone())
        } else {
            None
        },
        _ => None,
    }
}

fn make_new_vector(t: &TypeName, element: &TypeName, length: Expression) -> (r: Expression)
    ensures
        r@ == new_vector(t@, element@, length@),
{
    let push = make_method_call(make_identifier("v"), "push", one_expression(create_default_value(element)));
    let count = make_binary("+=", make_identifier("i"), make_decimal(1));
    let body = Block {
        statements: two_statements(Statement::Expression(push), Statement::Expression(count)),
        final_expr: None,
    };
    let condition = make_binary("<", make_identifier("i"), length.clone());
    let mut statements: Vec<Statement> = Vec::new();
    let first = make_let("v", true, Some(t.clone()), make_call_named("Vec::with_capacity", one_expression(length)));
    let second = make_let("i", true, None, make_decimal(0));
    let third = Statement::Expression(make_while(condition, body));
    statements.push(first);
    statements.push(second);
    statements.push(third);
    assert(statement_models(statements@) =~= seq![first@, second@, third@]);
    make_block(statements, Some(make_identifier("v")))
}

fn translate_new(
    project: &Project,
    translated_definition: &mut TranslatedDefinition,
    scope: &mut TranslationScope,
    t: &TypeName,
    created: &solidity::Expression,
) -> (r: Result<Option<Expression>, Error>)
    ensures
        match r {
            Ok(value) => translated_new(
                project@,
                state_of(old(translated_definition)@, old(scope)@),
                t@,
                *created,
            ) == Ok::<(Option<ExpressionView>, TranslationState), ErrorView>(
                (optional_expression(value), state_of(final(translated_definition)@, final(scope)@)),
            ),
            Err(error) => translated_new(project@, state_of(old(translated_definition)@, old(scope)@), t@, *created)
                == Err::<(Option<ExpressionView>, TranslationState), ErrorView>(error@),
        },
{
    match created {
        solidity::Expression::FunctionCall(ty, arguments) => {
            let found = match translate_type_name(project, translated_definition, &**ty, false) {
                Err(error) => {
                    return Err(error);
                },
                Ok(found) => found,
            };
            if !found.eq(t) {
                return Err(Error::TypeMismatch { expected: t.clone(), found });
            }
            match vector_element_of(t) {
                Some(element) => {
                    if arguments.len() != 1 {
                        return Err(Error::Unsupported(Construct::NewExpression));
                    }
                    match translate_expression(project, translated_definition, scope, &arguments[0]) {
                        Err(error) => {
                            return Err(error);
                        },
                        Ok(length) => {
                            return Ok(Some(make_new_vector(t, &element, length)));
                        },
                    }
                },
                None => {
                    return Ok(None);
                },
            }
        },
        _ => {
            return Err(Error::Unsupported(Construct::NewExpression));
        },
    }
}

fn translate_initializer(
    project: &Project,
    translated_definition: &mut TranslatedDefinition,
    scope: &mut TranslationScope,
    t: &TypeName,
    initializer: &Option<solidity::Expression>,
) -> (r: Result<Expression, Error>)
    ensures
        outcome(r, final(translated_definition)@, final(scope)@) == translated_initializer(
            project@,
            state_of(old(translated_definition)@, old(scope)@),
            t@,
            *initializer,
        ),
{
    match initializer {
        None => {
            return Ok(create_default_value(t));
        },
        Some(x) => match x {
            solidity::Expression::New(created) => {
                match translate_new(project, translated_definition, scope, t, &**created) {
                    Err(error) => {
                        return Err(error);
                    },
                    Ok(Some(value)) => {
                        return Ok(value);
                    },
                    Ok(None) => {
                        return translate_pre_or_post_operator_value_expression(project, translated_definition, scope, x);
                    },
                }
            },
            _ => {
                return translate_pre_or_post_operator_value_expression(project, translated_definition, scope, x);
            },
        },
    }
}

pub fn translate_variable_definition_statement(
    project: &Project,
    translated_definition: &mut TranslatedDefinition,
    scope: &mut TranslationScope,
    variable_declaration: &solidity::VariableDeclaration,
    initializer: &Option<solidity::Expression>,
) -> (r: Result<Statement, Error>)
    ensures
        statement_outcome(r, final(translated_definition)@, final(scope)@) == translated_variable_definition(
            project@,
            state_of(old(translated_definition)@, old(scope)@),
            *variable_declaration,
            *initializer,
        ),
{
    let old_name = match &variable_declaration.name {
        None => {
            return Err(Error::MissingName);
        },
        Some(name) => name,
    };
    let new_name = translate_naming_convention(old_name.as_str(), Case::Snake);
    let t = match translate_type_name(project, translated_definition, &variable_declaration.ty, false) {
        Err(error) => {
            return Err(error);
        },
        Ok(t) => t,
    };
    let value = match translate_initializer(project, translated_definition, scope, &t, initializer) {
        Err(error) => {
            return Err(error);
        },
        Ok(value) => value,
    };
    let statement = make_let(new_name.as_str(), false, None, value);
    declare_in(scope, old_name, &new_name, &t);
    Ok(statement)
}

} // verus!
