//! What the functions of a contract are translated to.
//!
//! The functions of a contract are translated in two passes. The first
//! declares every function in the top-level scope, with its names, its
//! parameters and its return type, so that the body of a function can call
//! any function of the contract. The second translates the bodies.

use vstd::prelude::*;
use crate::errors::ErrorView;
use crate::naming::{Case, case_converted};
use crate::project::ProjectView;
use crate::solidity;
use crate::solidity::{ContractPart, FunctionAttribute, FunctionTy, Visibility};
use crate::sway::model::{
    BlockView, FunctionView, ImplItemView, LetIdentifierView, ParameterListView, ParameterView, TypeNameView,
};
use crate::translate::counters::numbered;
use crate::translate::expressions::{counted, state_of, TranslationState};
use crate::translate::model::{TranslatedDefinitionView, TranslatedFunctionView, TranslationScopeView};
use crate::translate::statement_rules::{
    body_of, declared_variable, translated_block, translated_list, translated_statement,
};
use crate::translate::type_names::translated_return_type_name;

verus! {

/// Whether the attribute makes a function callable from outside.
pub open spec fn exposes(a: FunctionAttribute) -> bool {
    a matches FunctionAttribute::Visibility(v) && (v is External || v is Public)
}

/// Whether one of the attributes makes a function callable from outside.
pub open spec fn is_public_function(attrs: Seq<FunctionAttribute>) -> bool {
    exists|i: int| 0 <= i < attrs.len() && exposes(#[trigger] attrs[i])
}

/// Whether a function of the source becomes a function of the contract's
/// interface: it is a constructor or callable from outside.
pub open spec fn is_interface_function(f: solidity::FunctionDefinition) -> bool {
    f.ty is Constructor || is_public_function(f.attributes@)
}

/// The name by which the source knows a function: its own name, or what it
/// is if it has none to have. Modifiers are not translated.
pub open spec fn source_name(f: solidity::FunctionDefinition) -> Result<Option<Seq<char>>, ErrorView> {
    match f.ty {
        FunctionTy::Constructor => Ok(Some("constructor"@)),
        FunctionTy::Fallback => Ok(Some("fallback"@)),
        FunctionTy::Receive => Ok(Some("receive"@)),
        FunctionTy::Modifier => Ok(None),
        FunctionTy::Function => match f.name {
            Some(name) => Ok(Some(name@)),
            None => Err(ErrorView::MissingName),
        },
    }
}

/// The name of the function that stands for the function `name` of the
/// source, and the definition with that choice counted: the name in snake
/// case, followed by the number of functions given that name so far if
/// there were others before.
pub open spec fn function_name(definition: TranslatedDefinitionView, name: Seq<char>) -> (
    Seq<char>,
    TranslatedDefinitionView,
) {
    let base = case_converted(name, Case::Snake);
    (
        numbered(definition.function_name_counts, base),
        TranslatedDefinitionView { function_name_counts: counted(definition.function_name_counts, base), ..definition },
    )
}

/// The parameters with the given names and types.
pub open spec fn parameters_from(ids: Seq<LetIdentifierView>, types: Seq<TypeNameView>) -> Seq<ParameterView> {
    Seq::new(
        ids.len(),
        |i: int| ParameterView { is_ref: false, is_mut: false, name: ids[i].name, ty: Some(types[i]) },
    )
}

/// The type that a function with the given result types returns: none
/// without results, the type of the one result as a function returns it,
/// or the tuple of the types of the results.
pub open spec fn returned(
    project: ProjectView,
    definition: TranslatedDefinitionView,
    types: Seq<TypeNameView>,
) -> (Option<TypeNameView>, TranslatedDefinitionView) {
    if types.len() == 0 {
        (None, definition)
    } else if types.len() == 1 {
        (
            Some(translated_return_type_name(project, definition, types[0]).0),
            translated_return_type_name(project, definition, types[0]).1,
        )
    } else {
        (Some(TypeNameView::Tuple { type_names: types }), definition)
    }
}

/// The scope that the parameters and results of a function are declared
/// in while only its signature is translated.
pub open spec fn signature_scope() -> TranslationScopeView {
    TranslationScopeView::empty()
}

/// The signature of a function: its parameters and its return type, with
/// the definition as it is after their types are translated.
pub open spec fn translated_signature(
    project: ProjectView,
    definition: TranslatedDefinitionView,
    f: solidity::FunctionDefinition,
) -> Result<(Seq<ParameterView>, Option<TypeNameView>, TranslatedDefinitionView), ErrorView> {
    match translated_list(project, state_of(definition, signature_scope()), f.params@) {
        Err(error) => Err(error),
        Ok((ids, types, s1)) => match translated_list(project, state_of(s1.definition, signature_scope()), f.returns@) {
            Err(error) => Err(error),
            Ok((_, results, s2)) => Ok(
                (
                    parameters_from(ids, types),
                    returned(project, s2.definition, results).0,
                    returned(project, s2.definition, results).1,
                ),
            ),
        },
    }
}

/// The definition with a function of the source declared in its
/// top-level scope.
pub open spec fn with_function_declared(
    project: ProjectView,
    definition: TranslatedDefinitionView,
    f: solidity::FunctionDefinition,
) -> Result<TranslatedDefinitionView, ErrorView> {
    match source_name(f) {
        Err(error) => Err(error),
        Ok(None) => Ok(definition),
        Ok(Some(old_name)) => match translated_signature(project, function_name(definition, old_name).1, f) {
            Err(error) => Err(error),
            Ok((parameters, return_type, d)) => Ok(
                TranslatedDefinitionView {
                    toplevel_scope: TranslationScopeView {
                        functions: d.toplevel_scope.functions.push(
                            TranslatedFunctionView {
                                old_name,
                                new_name: function_name(definition, old_name).0,
                                parameters: ParameterListView { entries: parameters },
                                constructor_calls: Seq::empty(),
                                modifiers: Seq::empty(),
                                return_type,
                            },
                        ),
                        ..d.toplevel_scope
                    },
                    ..d
                },
            ),
        },
    }
}

/// The definition with the functions among the members declared, in
/// order.
pub open spec fn with_functions_declared(
    project: ProjectView,
    definition: TranslatedDefinitionView,
    parts: Seq<ContractPart>,
) -> Result<TranslatedDefinitionView, ErrorView>
    decreases parts.len(),
{
    if parts.len() == 0 {
        Ok(definition)
    } else {
        match with_functions_declared(project, definition, parts.drop_last()) {
            Err(error) => Err(error),
            Ok(d) => match parts.last() {
                ContractPart::FunctionDefinition(f) => with_function_declared(project, d, f),
                _ => Ok(d),
            },
        }
    }
}

/// The scope with the first `n` parameters declared that have a name in
/// the source, each under the name and with the type it was declared
/// with.
pub open spec fn with_parameters(
    scope: TranslationScopeView,
    source: Seq<Option<solidity::Parameter>>,
    declared: Seq<ParameterView>,
    n: nat,
) -> TranslationScopeView
    decreases n,
{
    if n == 0 {
        scope
    } else {
        let before = with_parameters(scope, source, declared, (n - 1) as nat);
        match source[n - 1] {
            Some(p) => match (p.name, declared[n - 1].ty) {
                (Some(name), Some(t)) => before.declare(declared_variable(name@, declared[n - 1].name, t)),
                _ => before,
            },
            None => before,
        }
    }
}

/// The number of parameters that both the source and the declaration
/// have.
pub open spec fn common_parameters(source: Seq<Option<solidity::Parameter>>, declared: Seq<ParameterView>) -> nat {
    if source.len() <= declared.len() {
        source.len()
    } else {
        declared.len()
    }
}

/// The body of a function: the translation of its block, or of its one
/// statement as a block. A function without body has none.
pub open spec fn translated_function_body(
    project: ProjectView,
    state: TranslationState,
    body: Option<solidity::Statement>,
) -> Result<(Option<BlockView>, TranslationState), ErrorView> {
    match body {
        None => Ok((None, state)),
        Some(solidity::Statement::Block { statements }) => match translated_block(project, state, statements@) {
            Err(error) => Err(error),
            Ok((b, s1)) => Ok((Some(b), s1)),
        },
        Some(statement) => match translated_statement(project, state, statement) {
            Err(error) => Err(error),
            Ok((x, s1)) => Ok((Some(body_of(x)), s1)),
        },
    }
}

/// The function of the target that a declared function stands for, with
/// the given body.
pub open spec fn function_of(declared: TranslatedFunctionView, body: Option<BlockView>) -> FunctionView {
    FunctionView {
        attributes: None,
        is_public: false,
        name: declared.new_name,
        generic_parameters: None,
        parameters: declared.parameters,
        return_type: declared.return_type,
        body,
    }
}

/// The definition with a translated function put in its place: a function
/// of the interface is declared in the abi and defined in the impl of the
/// contract; any other function is a function of the definition.
pub open spec fn with_function_placed(
    definition: TranslatedDefinitionView,
    f: FunctionView,
    interface: bool,
) -> TranslatedDefinitionView {
    if interface {
        definition.with_abi_function(FunctionView { body: None, ..f }).with_contract_impl_item(
            ImplItemView::Function(f),
        )
    } else {
        definition.with_function(f)
    }
}

/// The definition with the body of the function translated that was
/// declared as the `k`-th function of the top-level scope. The body is
/// translated in a new scope inside the top-level scope that declares the
/// parameters; the variables of the top-level scope keep the uses counted
/// there.
pub open spec fn with_function_translated(
    project: ProjectView,
    definition: TranslatedDefinitionView,
    f: solidity::FunctionDefinition,
    k: int,
) -> Result<TranslatedDefinitionView, ErrorView> {
    if 0 <= k < definition.toplevel_scope.functions.len() {
        let declared = definition.toplevel_scope.functions[k];
        match translated_function_body(
            project,
            state_of(
                definition,
                with_parameters(
                    definition.toplevel_scope.child(),
                    f.params@,
                    declared.parameters.entries,
                    common_parameters(f.params@, declared.parameters.entries),
                ),
            ),
            f.body,
        ) {
            Err(error) => Err(error),
            Ok((body, s1)) => Ok(
                with_function_placed(
                    s1.definition.with_counts_of(s1.scope.outer()),
                    function_of(declared, body),
                    is_interface_function(f),
                ),
            ),
        }
    } else {
        Err(ErrorView::UnknownFunction(Seq::empty()))
    }
}

/// The definition with the bodies of the functions among the members
/// translated, in order, and the number of functions translated so far;
/// the first of them was declared as the `first`-th function of the
/// top-level scope.
pub open spec fn with_functions_translated(
    project: ProjectView,
    definition: TranslatedDefinitionView,
    parts: Seq<ContractPart>,
    first: int,
) -> Result<(TranslatedDefinitionView, int), ErrorView>
    decreases parts.len(),
{
    if parts.len() == 0 {
        Ok((definition, first))
    } else {
        match with_functions_translated(project, definition, parts.drop_last(), first) {
            Err(error) => Err(error),
            Ok((d, k)) => match parts.last() {
                ContractPart::FunctionDefinition(f) => if f.ty is Modifier {
                    Ok((d, k))
                } else {
                    match with_function_translated(project, d, f, k) {
                        Err(error) => Err(error),
                        Ok(d1) => Ok((d1, k + 1)),
                    }
                },
                _ => Ok((d, k)),
            },
        }
    }
}

/// The translation of a contract: a new definition of its name and kind,
/// with what its members declare, then its functions declared, then the
/// bodies of its functions.
pub open spec fn translated_contract(project: ProjectView, contract: solidity::ContractDefinition) -> Result<
    TranslatedDefinitionView,
    ErrorView,
> {
    match contract.name {
        None => Err(ErrorView::MissingName),
        Some(name) => match crate::translate::contract_rules::with_declarations(
            project,
            TranslatedDefinitionView::new(Seq::empty(), contract.ty, name@, crate::sway::model::string_views(contract.base@)),
            contract.parts@,
        ) {
            Err(error) => Err(error),
            Ok(d1) => match with_functions_declared(project, d1, contract.parts@) {
                Err(error) => Err(error),
                Ok(d2) => match with_functions_translated(
                    project,
                    d2,
                    contract.parts@,
                    d1.toplevel_scope.functions.len() as int,
                ) {
                    Err(error) => Err(error),
                    Ok((d3, _)) => Ok(d3),
                },
            },
        },
    }
}

} // verus!
