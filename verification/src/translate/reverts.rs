//! The translation of `revert` and `emit`.

use vstd::prelude::*;
use crate::errors::{Construct, Error};
use crate::project::Project;
use crate::solidity;
use crate::sway::{Enum, EnumVariant, Expression, Impl, Literal, Statement};
use crate::sway::model::{enum_variant_models, EnumVariantView, EnumView, expression_models, ImplView};
use crate::sway::shapes::{
    make_block, make_call_named, make_decimal, make_identifier, one_expression, two_statements,
};
use crate::text::{join3, text_eq};
use crate::translate::{TranslatedDefinition, TranslationScope};
use crate::translate::expressions::{concatenate, state_of, translate_expressions};
use crate::translate::model::enum_impl_models;
use crate::translate::scope::first_where;
use crate::translate::statement_rules::{
    has_variant, is_variant_named, log_and_revert, log_call, packed, qualified_variant, revert_call,
    statement_outcome, translated_emit, translated_revert,
};

verus! {

fn pack(variant: &str, arguments: Vec<Expression>) -> (r: Expression)
    ensures
        r@ == packed(variant@, expression_models(arguments@)),
{
    if arguments.len() == 0 {
        make_identifier(variant)
    } else if arguments.len() == 1 {
        let mut arguments = arguments;
        let ghost before = expression_models(arguments@);
        let only = match arguments.pop() {
            Some(x) => x,
            None => vstd::pervasive::unreached(),
        };
        assert(only@ == before[0]);
        make_call_named(variant, one_expression(only))
    } else {
        make_call_named(variant, one_expression(Expression::Tuple(arguments)))
    }
}

fn log_of(payload: Expression) -> (r: Expression)
    ensures
        r@ == log_call(payload@),
{
    make_call_named("log", one_expression(payload))
}

fn revert_zero() -> (r: Expression)
    ensures
        r@ == revert_call(),
{
    make_call_named("revert", one_expression(make_decimal(0)))
}

fn log_then_revert(payload: Expression) -> (r: Statement)
    ensures
        r@ == log_and_revert(payload@),
{
    Statement::Expression(
        make_block(two_statements(Statement::Expression(log_of(payload)), Statement::Expression(revert_zero())), None),
    )
}

fn qualified_variant_of(enums: &Vec<(Enum, Impl)>, name: &str) -> (r: Option<String>)
    ensures
        match r {
            Some(q) => qualified_variant(enum_impl_models(enums@), name@) == Some(q@),
            None => qualified_variant(enum_impl_models(enums@), name@) is None,
        },
{
    let found = first_where::<(Enum, Impl), (EnumView, ImplView), _>(
        enums,
        (|e: &(Enum, Impl)| -> (b: bool)
            ensures
                b == has_variant(name@)((e.0@, e.1@)),
            {
                first_where::<EnumVariant, EnumVariantView, _>(
                    &e.0.variants,
                    (|v: &EnumVariant| -> (b: bool)
                        ensures
                            b == (v@.name == name@),
                        {
                            text_eq(v.name.as_str(), name)
                        }),
                    Ghost(enum_variant_models(e.0.variants@)),
                    Ghost(is_variant_named(name@)),
                ).is_some()
            }),
        Ghost(enum_impl_models(enums@)),
        Ghost(has_variant(name@)),
    );
    match found {
        Some(i) => Some(join3(enums[i].0.name.as_str(), "::", name)),
        None => None,
    }
}

pub fn translate_revert_statement(
    project: &Project,
    translated_definition: &mut TranslatedDefinition,
    scope: &mut TranslationScope,
    error_type: &Option<String>,
    parameters: &Vec<solidity::Expression>,
) -> (r: Result<Statement, Error>)
    ensures
        statement_outcome(r, final(translated_definition)@, final(scope)@) == translated_revert(
            state_of(old(translated_definition)@, old(scope)@),
            *error_type,
            parameters@,
        ),
{
    match error_type {
        Some(name) => {
            let variant = match qualified_variant_of(&translated_definition.errors_enums, name.as_str()) {
                Some(variant) => variant,
                None => {
                    return Err(Error::UnknownVariant(name.clone()));
                },
            };
            match translate_expressions(project, translated_definition, scope, parameters) {
                Err(error) => {
                    return Err(error);
                },
                Ok(arguments) => {
                    return Ok(log_then_revert(pack(variant.as_str(), arguments)));
                },
            }
        },
        None => {
            if parameters.len() == 0 {
                return Ok(Statement::Expression(revert_zero()));
            }
            match &parameters[0] {
                solidity::Expression::StringLiteral(parts) => {
                    return Ok(log_then_revert(Expression::Literal(Literal::String(concatenate(parts)))));
                },
                _ => {
                    return Err(Error::Unsupported(Construct::RevertArguments));
                },
            }
        },
    }
}

pub fn translate_emit_statement(
    project: &Project,
    translated_definition: &mut TranslatedDefinition,
    scope: &mut TranslationScope,
    expression: &solidity::Expression,
) -> (r: Result<Statement, Error>)
    ensures
        statement_outcome(r, final(translated_definition)@, final(scope)@) == translated_emit(
            state_of(old(translated_definition)@, old(scope)@),
            *expression,
        ),
{
    match expression {
        solidity::Expression::FunctionCall(callee, arguments) => match &**callee {
            solidity::Expression::Variable(name) => {
                let variant = match qualified_variant_of(&translated_definition.events_enums, name.as_str()) {
                    Some(variant) => variant,
                    None => {
                        return Err(Error::UnknownVariant(name.clone()));
                    },
                };
                match translate_expressions(project, translated_definition, scope, arguments) {
                    Err(error) => {
                        return Err(error);
                    },
                    Ok(xs) => {
                        return Ok(Statement::Expression(log_of(pack(variant.as_str(), xs))));
                    },
                }
            },
            _ => {
                return Err(Error::Unsupported(Construct::EmitExpression));
            },
        },
        _ => {
            return Err(Error::Unsupported(Construct::EmitExpression));
        },
    }
}

} // verus!
