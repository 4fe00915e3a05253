//! The translation of the functions of a contract.

use vstd::prelude::*;
use crate::errors::{Error, ErrorView};
use crate::naming::{Case, translate_naming_convention};
use crate::project::{Project, ProjectView};
use crate::solidity;
use crate::solidity::{ContractPart, FunctionAttribute, FunctionTy, Visibility};
use crate::sway::{Block, Function, ImplItem, LetIdentifier, Parameter, ParameterList, TypeName};
use crate::sway::model::{
    BlockView, let_identifier_models, parameter_models, ParameterView, type_name_models, TypeNameView,
};
use crate::sway::shapes::optional_type;
use crate::text::text;
use crate::translate::{TranslatedDefinition, TranslatedFunction, TranslatedVariable, TranslationScope};
use crate::translate::contracts::translate_declarations;
use crate::translate::counters::number_name;
use crate::translate::declarations::translate_list;
use crate::translate::expressions::{state_of, TranslationState};
use crate::translate::function_rules::{
    common_parameters, exposes, function_name, function_of, is_interface_function, is_public_function,
    parameters_from, returned, source_name, translated_contract, translated_function_body,
    translated_signature, with_function_declared, with_function_placed, with_function_translated,
    with_functions_declared, with_functions_translated, with_parameters,
};
use crate::translate::model::TranslatedDefinitionView;
use crate::translate::statement_rules::declared_variable;
use crate::translate::statements::{body_from, translate_block, translate_statement};
use crate::translate::type_names::translate_return_type_name;

verus! {

fn has_exposure(attrs: &Vec<FunctionAttribute>) -> (r: bool)
    ensures
        r == is_public_function(attrs@),
{
    let mut i: usize = 0;
    while i < attrs.len()
        invariant
            i <= attrs.len(),
            forall|j: int| 0 <= j < i ==> !exposes(#[trigger] attrs[j]),
        decreases attrs.len() - i,
    {
        if let FunctionAttribute::Visibility(v) = &attrs[i] {
            match v {
                Visibility::External => {
                    return true;
                },
                Visibility::Public => {
                    return true;
                },
                _ => {},
            }
        }
        i += 1;
    }
    false
}

fn is_interface(f: &solidity::FunctionDefinition) -> (r: bool)
    ensures
        r == is_interface_function(*f),
{
    if let FunctionTy::Constructor = f.ty {
        return true;
    }
    has_exposure(&f.attributes)
}

fn source_name_of(f: &solidity::FunctionDefinition) -> (r: Result<Option<String>, Error>)
    ensures
        match r {
            Ok(Some(name)) => source_name(*f) == Ok::<Option<Seq<char>>, ErrorView>(Some(name@)),
            Ok(None) => source_name(*f) == Ok::<Option<Seq<char>>, ErrorView>(None),
            Err(error) => source_name(*f) == Err::<Option<Seq<char>>, ErrorView>(error@),
        },
{
    match f.ty {
        FunctionTy::Constructor => Ok(Some(text("constructor"))),
        FunctionTy::Fallback => Ok(Some(text("fallback"))),
        FunctionTy::Receive => Ok(Some(text("receive"))),
        FunctionTy::Modifier => Ok(None),
        FunctionTy::Function => match &f.name {
            Some(name) => Ok(Some(name.clone())),
            None => Err(Error::MissingName),
        },
    }
}

fn function_name_of(translated_definition: &mut TranslatedDefinition, name: &str) -> (r: String)
    ensures
        (r@, final(translated_definition)@) == function_name(old(translated_definition)@, name@),
{
    let base = translate_naming_convention(name, Case::Snake);
    number_name(&mut translated_definition.function_name_counts, base)
}

fn make_parameters(ids: &Vec<LetIdentifier>, types: Vec<TypeName>) -> (r: Vec<Parameter>)
    requires
        ids.len() == types.len(),
    ensures
        parameter_models(r@) == parameters_from(let_identifier_models(ids@), type_name_models(types@)),
{
    let mut parameters: Vec<Parameter> = Vec::new();
    let mut i: usize = 0;
    while i < ids.len()
        invariant
            i <= ids.len(),
            ids.len() == types.len(),
            parameters.len() == i,
            forall|j: int|
                0 <= j < i ==> (#[trigger] parameters[j])@ == (ParameterView {
                    is_ref: false,
                    is_mut: false,
                    name: ids[j]@.name,
                    ty: Some(types[j]@),
                }),
        decreases ids.len() - i,
    {
        parameters.push(
            Parameter { is_ref: false, is_mut: false, name: ids[i].name.clone(), ty: Some(types[i].clone()) },
        );
        i += 1;
    }
    assert(parameter_models(parameters@) =~= parameters_from(let_identifier_models(ids@), type_name_models(types@)));
    parameters
}

fn return_type_of(project: &Project, translated_definition: &mut TranslatedDefinition, types: Vec<TypeName>) -> (r:
    Option<TypeName>)
    ensures
        (optional_type(r), final(translated_definition)@) == returned(
            project@,
            old(translated_definition)@,
            type_name_models(types@),
        ),
{
    if types.len() == 0 {
        return None;
    }
    if types.len() == 1 {
        let mut types = types;
        let ghost before = type_name_models(types@);
        match types.pop() {
            Some(t) => {
                assert(t@ == before[0]);
                return Some(translate_return_type_name(project, translated_definition, t));
            },
            None => {
                return None;
            },
        }
    }
    proof {
        reveal_with_fuel(TypeName::model, 2);
    }
    Some(TypeName::Tuple { type_names: types })
}

fn translate_signature(
    project: &Project,
    translated_definition: &mut TranslatedDefinition,
    f: &solidity::FunctionDefinition,
) -> (r: Result<(Vec<Parameter>, Option<TypeName>), Error>)
    ensures
        match r {
            Ok((parameters, return_type)) => translated_signature(project@, old(translated_definition)@, *f) == Ok::<
                (Seq<ParameterView>, Option<TypeNameView>, TranslatedDefinitionView),
                ErrorView,
            >((parameter_models(parameters@), optional_type(return_type), final(translated_definition)@)),
            Err(error) => translated_signature(project@, old(translated_definition)@, *f) == Err::<
                (Seq<ParameterView>, Option<TypeNameView>, TranslatedDefinitionView),
                ErrorView,
            >(error@),
        },
{
    let mut scratch = TranslationScope::new();
    let (ids, types) = match translate_list(project, translated_definition, &mut scratch, &f.params) {
        Err(error) => {
            return Err(error);
        },
        Ok(declared) => declared,
    };
    let parameters = make_parameters(&ids, types);
    let mut scratch = TranslationScope::new();
    let (_, results) = match translate_list(project, translated_definition, &mut scratch, &f.returns) {
        Err(error) => {
            return Err(error);
        },
        Ok(declared) => declared,
    };
    let return_type = return_type_of(project, translated_definition, results);
    Ok((parameters, return_type))
}

/// Declares a function of the source in the top-level scope of the
/// definition.
pub fn declare_function(
    project: &Project,
    translated_definition: &mut TranslatedDefinition,
    f: &solidity::FunctionDefinition,
) -> (r: Result<(), Error>)
    ensures
        match r {
            Ok(()) => with_function_declared(project@, old(translated_definition)@, *f) == Ok::<
                TranslatedDefinitionView,
                ErrorView,
            >(final(translated_definition)@),
            Err(error) => with_function_declared(project@, old(translated_definition)@, *f) == Err::<
                TranslatedDefinitionView,
                ErrorView,
            >(error@),
        },
{
    let old_name = match source_name_of(f) {
        Err(error) => {
            return Err(error);
        },
        Ok(None) => {
            return Ok(());
        },
        Ok(Some(name)) => name,
    };
    let new_name = function_name_of(translated_definition, old_name.as_str());
    let (parameters, return_type) = match translate_signature(project, translated_definition, f) {
        Err(error) => {
            return Err(error);
        },
        Ok(signature) => signature,
    };
    let ghost before = translated_definition@;
    let declared = TranslatedFunction {
        old_name,
        new_name,
        parameters: ParameterList { entries: parameters },
        constructor_calls: Vec::new(),
        modifiers: Vec::new(),
        return_type,
    };
    assert(declared@.constructor_calls =~= Seq::empty());
    assert(declared@.modifiers =~= Seq::empty());
    translated_definition.toplevel_scope.functions.push(declared);
    assert(final(translated_definition)@.toplevel_scope.functions =~= before.toplevel_scope.functions.push(declared@));
    Ok(())
}

proof fn lemma_declared_fail(
    project: ProjectView,
    definition: TranslatedDefinitionView,
    parts: Seq<ContractPart>,
    n: int,
)
    requires
        0 <= n <= parts.len(),
        with_functions_declared(project, definition, parts.subrange(0, n)) is Err,
    ensures
        with_functions_declared(project, definition, parts) == with_functions_declared(
            project,
            definition,
            parts.subrange(0, n),
        ),
    decreases parts.len() - n,
{
    if n == parts.len() {
        assert(parts.subrange(0, n) =~= parts);
    } else {
        let s = parts.subrange(0, n + 1);
        assert(s.drop_last() =~= parts.subrange(0, n));
        lemma_declared_fail(project, definition, parts, n + 1);
    }
}

fn declare_part(project: &Project, translated_definition: &mut TranslatedDefinition, part: &ContractPart) -> (r: Result<
    (),
    Error,
>)
    ensures
        match r {
            Ok(()) => (match *part {
                ContractPart::FunctionDefinition(f) => with_function_declared(project@, old(translated_definition)@, f),
                _ => Ok(old(translated_definition)@),
            }) == Ok::<TranslatedDefinitionView, ErrorView>(final(translated_definition)@),
            Err(error) => (match *part {
                ContractPart::FunctionDefinition(f) => with_function_declared(project@, old(translated_definition)@, f),
                _ => Ok(old(translated_definition)@),
            }) == Err::<TranslatedDefinitionView, ErrorView>(error@),
        },
{
    match part {
        ContractPart::FunctionDefinition(f) => {
            return declare_function(project, translated_definition, f);
        },
        _ => {
            return Ok(());
        },
    }
}

/// Declares the functions among the members of a contract.
pub fn declare_functions(project: &Project, translated_definition: &mut TranslatedDefinition, parts: &Vec<ContractPart>) -> (r:
    Result<(), Error>)
    ensures
        match r {
            Ok(()) => with_functions_declared(project@, old(translated_definition)@, parts@) == Ok::<
                TranslatedDefinitionView,
                ErrorView,
            >(final(translated_definition)@),
            Err(error) => with_functions_declared(project@, old(translated_definition)@, parts@) == Err::<
                TranslatedDefinitionView,
                ErrorView,
            >(error@),
        },
{
    let ghost start = old(translated_definition)@;
    let mut i: usize = 0;
    assert(parts@.subrange(0, 0) =~= Seq::empty());
    while i < parts.len()
        invariant
            i <= parts.len(),
            start == old(translated_definition)@,
            with_functions_declared(project@, start, parts@.subrange(0, i as int)) == Ok::<
                TranslatedDefinitionView,
                ErrorView,
            >(translated_definition@),
        decreases parts.len() - i,
    {
        proof {
            let s = parts@.subrange(0, i + 1);
            assert(s.drop_last() =~= parts@.subrange(0, i as int));
            assert(s.last() == parts@[i as int]);
        }
        match declare_part(project, translated_definition, &parts[i]) {
            Err(error) => {
                proof {
                    lemma_declared_fail(project@, start, parts@, i + 1);
                }
                return Err(error);
            },
            Ok(()) => {},
        }
        i += 1;
    }
    assert(parts@.subrange(0, i as int) =~= parts@);
    Ok(())
}

fn declare_parameter(scope: &mut TranslationScope, source: &Option<solidity::Parameter>, declared: &Parameter)
    ensures
        final(scope)@ == (match *source {
            Some(p) => match (p.name, declared@.ty) {
                (Some(name), Some(t)) => old(scope)@.declare(declared_variable(name@, declared@.name, t)),
                _ => old(scope)@,
            },
            None => old(scope)@,
        }),
{
    match source {
        Some(p) => match &p.name {
            Some(name) => match &declared.ty {
                Some(t) => {
                    scope.declare(
                        TranslatedVariable {
                            old_name: name.clone(),
                            new_name: declared.name.clone(),
                            ty: t.clone(),
                            abi_type_name: None,
                            is_storage: false,
                            is_configurable: false,
                            is_constant: false,
                            statement_index: None,
                            read_count: 0,
                            mutation_count: 0,
                        },
                    );
                    return ;
                },
                None => {
                    return ;
                },
            },
            None => {
                return ;
            },
        },
        None => {
            return ;
        },
    }
}

fn declare_parameters(
    scope: &mut TranslationScope,
    source: &Vec<Option<solidity::Parameter>>,
    declared: &Vec<Parameter>,
)
    ensures
        final(scope)@ == with_parameters(
            old(scope)@,
            source@,
            parameter_models(declared@),
            common_parameters(source@, parameter_models(declared@)),
        ),
{
    let n = if source.len() <= declared.len() { source.len() } else { declared.len() };
    let mut k: usize = 0;
    while k < n
        invariant
            k <= n,
            n <= source.len(),
            n <= declared.len(),
            scope@ == with_parameters(old(scope)@, source@, parameter_models(declared@), k as nat),
        decreases n - k,
    {
        declare_parameter(scope, &source[k], &declared[k]);
        k += 1;
    }
}

fn translate_function_body(
    project: &Project,
    translated_definition: &mut TranslatedDefinition,
    scope: &mut TranslationScope,
    body: &Option<solidity::Statement>,
) -> (r: Result<Option<Block>, Error>)
    ensures
        match r {
            Ok(b) => translated_function_body(project@, state_of(old(translated_definition)@, old(scope)@), *body)
                == Ok::<(Option<BlockView>, TranslationState), ErrorView>(
                (
                    match b {
                        Some(b) => Some(b@),
                        None => None,
                    },
                    state_of(final(translated_definition)@, final(scope)@),
                ),
            ),
            Err(error) => translated_function_body(project@, state_of(old(translated_definition)@, old(scope)@), *body)
                == Err::<(Option<BlockView>, TranslationState), ErrorView>(error@),
        },
{
    match body {
        None => {
            return Ok(None);
        },
        Some(solidity::Statement::Block { statements }) => {
            match translate_block(project, translated_definition, scope, statements) {
                Err(error) => {
                    return Err(error);
                },
                Ok(b) => {
                    return Ok(Some(b));
                },
            }
        },
        Some(statement) => match translate_statement(project, translated_definition, scope, statement) {
            Err(error) => {
                return Err(error);
            },
            Ok(x) => {
                return Ok(Some(body_from(x)));
            },
        },
    }
}

fn make_function(declared: &TranslatedFunction, body: Option<Block>) -> (r: Function)
    ensures
        r@ == function_of(
            declared@,
            match body {
                Some(b) => Some(b@),
                None => None,
            },
        ),
{
    Function {
        attributes: None,
        is_public: false,
        name: declared.new_name.clone(),
        generic_parameters: None,
        parameters: declared.parameters.clone(),
        return_type: match &declared.return_type {
            Some(t) => Some(t.clone()),
            None => None,
        },
        body,
    }
}

fn place_function(translated_definition: &mut TranslatedDefinition, f: Function, interface: bool)
    ensures
        final(translated_definition)@ == with_function_placed(old(translated_definition)@, f@, interface),
{
    if !interface {
        translated_definition.add_function(f);
        return ;
    }
    let declaration = Function {
        attributes: match &f.attributes {
            Some(a) => Some(a.clone()),
            None => None,
        },
        is_public: f.is_public,
        name: f.name.clone(),
        generic_parameters: match &f.generic_parameters {
            Some(g) => Some(g.clone()),
            None => None,
        },
        parameters: f.parameters.clone(),
        return_type: match &f.return_type {
            Some(t) => Some(t.clone()),
            None => None,
        },
        body: None,
    };
    translated_definition.add_abi_function(declaration);
    translated_definition.add_contract_impl_item(ImplItem::Function(f));
}

/// Translates the body of the function that was declared as the `k`-th
/// function of the top-level scope, and adds the function to the
/// definition.
pub fn translate_function_definition(
    project: &Project,
    translated_definition: &mut TranslatedDefinition,
    f: &solidity::FunctionDefinition,
    k: usize,
) -> (r: Result<(), Error>)
    ensures
        match r {
            Ok(()) => with_function_translated(project@, old(translated_definition)@, *f, k as int) == Ok::<
                TranslatedDefinitionView,
                ErrorView,
            >(final(translated_definition)@),
            Err(error) => with_function_translated(project@, old(translated_definition)@, *f, k as int) == Err::<
                TranslatedDefinitionView,
                ErrorView,
            >(error@),
        },
{
    if k >= translated_definition.toplevel_scope.functions.len() {
        let unknown = Error::UnknownFunction(String::new());
        return Err(unknown);
    }
    let declared = translated_definition.toplevel_scope.functions[k].clone();
    let mut scope = translated_definition.toplevel_scope.clone();
    scope.enter();
    declare_parameters(&mut scope, &f.params, &declared.parameters.entries);
    let body = match translate_function_body(project, translated_definition, &mut scope, &f.body) {
        Err(error) => {
            return Err(error);
        },
        Ok(body) => body,
    };
    scope.leave();
    translated_definition.toplevel_scope.take_counts(&scope);
    place_function(translated_definition, make_function(&declared, body), is_interface(f));
    Ok(())
}

proof fn lemma_translated_fail(
    project: ProjectView,
    definition: TranslatedDefinitionView,
    parts: Seq<ContractPart>,
    first: int,
    n: int,
)
    requires
        0 <= n <= parts.len(),
        with_functions_translated(project, definition, parts.subrange(0, n), first) is Err,
    ensures
        with_functions_translated(project, definition, parts, first) == with_functions_translated(
            project,
            definition,
            parts.subrange(0, n),
            first,
        ),
    decreases parts.len() - n,
{
    if n == parts.len() {
        assert(parts.subrange(0, n) =~= parts);
    } else {
        let s = parts.subrange(0, n + 1);
        assert(s.drop_last() =~= parts.subrange(0, n));
        lemma_translated_fail(project, definition, parts, first, n + 1);
    }
}

fn translate_part(
    project: &Project,
    translated_definition: &mut TranslatedDefinition,
    part: &ContractPart,
    k: u128,
) -> (r: Result<bool, Error>)
    ensures
        match *part {
            ContractPart::FunctionDefinition(f) => if f.ty is Modifier {
                r == Ok::<bool, Error>(false) && final(translated_definition)@ == old(translated_definition)@
            } else {
                match r {
                    Ok(counted) => counted && with_function_translated(
                        project@,
                        old(translated_definition)@,
                        f,
                        k as int,
                    ) == Ok::<TranslatedDefinitionView, ErrorView>(final(translated_definition)@),
                    Err(error) => with_function_translated(project@, old(translated_definition)@, f, k as int)
                        == Err::<TranslatedDefinitionView, ErrorView>(error@),
                }
            },
            _ => r == Ok::<bool, Error>(false) && final(translated_definition)@ == old(translated_definition)@,
        },
{
    match part {
        ContractPart::FunctionDefinition(f) => {
            if let FunctionTy::Modifier = f.ty {
                return Ok(false);
            }
            if k >= translated_definition.toplevel_scope.functions.len() as u128 {
                let unknown = Error::UnknownFunction(String::new());
                return Err(unknown);
            }
            match translate_function_definition(project, translated_definition, f, k as usize) {
                Err(error) => {
                    return Err(error);
                },
                Ok(()) => {
                    return Ok(true);
                },
            }
        },
        _ => {
            return Ok(false);
        },
    }
}

/// Translates the bodies of the functions among the members of a
/// contract; the first of them was declared as the `first`-th function of
/// the top-level scope.
pub fn translate_functions(
    project: &Project,
    translated_definition: &mut TranslatedDefinition,
    parts: &Vec<ContractPart>,
    first: usize,
) -> (r: Result<(), Error>)
    ensures
        match r {
            Ok(()) => match with_functions_translated(project@, old(translated_definition)@, parts@, first as int) {
                Ok((d, _)) => d == final(translated_definition)@,
                Err(_) => false,
            },
            Err(error) => with_functions_translated(project@, old(translated_definition)@, parts@, first as int)
                == Err::<(TranslatedDefinitionView, int), ErrorView>(error@),
        },
{
    let ghost start = old(translated_definition)@;
    let mut k: u128 = first as u128;
    let mut i: usize = 0;
    assert(parts@.subrange(0, 0) =~= Seq::empty());
    while i < parts.len()
        invariant
            i <= parts.len(),
            first <= k <= first + i,
            start == old(translated_definition)@,
            with_functions_translated(project@, start, parts@.subrange(0, i as int), first as int) == Ok::<
                (TranslatedDefinitionView, int),
                ErrorView,
            >((translated_definition@, k as int)),
        decreases parts.len() - i,
    {
        proof {
            let s = parts@.subrange(0, i + 1);
            assert(s.drop_last() =~= parts@.subrange(0, i as int));
            assert(s.last() == parts@[i as int]);
        }
        match translate_part(project, translated_definition, &parts[i], k) {
            Err(error) => {
                proof {
                    lemma_translated_fail(project@, start, parts@, first as int, i + 1);
                }
                return Err(error);
            },
            Ok(counted) => {
                if counted {
                    k += 1;
                }
            },
        }
        i += 1;
    }
    assert(parts@.subrange(0, i as int) =~= parts@);
    Ok(())
}

/// Translates a contract, an interface or a library of the source.
pub fn translate_contract_definition(project: &Project, contract_definition: &solidity::ContractDefinition) -> (r: Result<
    TranslatedDefinition,
    Error,
>)
    ensures
        match r {
            Ok(d) => translated_contract(project@, *contract_definition) == Ok::<TranslatedDefinitionView, ErrorView>(
                d@,
            ),
            Err(error) => translated_contract(project@, *contract_definition) == Err::<
                TranslatedDefinitionView,
                ErrorView,
            >(error@),
        },
{
    let name = match &contract_definition.name {
        None => {
            return Err(Error::MissingName);
        },
        Some(name) => name,
    };
    let mut definition = TranslatedDefinition::new("", contract_definition.ty, name.as_str(), &contract_definition.base);
    proof {
        reveal_strlit("");
        assert(""@ =~= Seq::<char>::empty());
    }
    match translate_declarations(project, &mut definition, &contract_definition.parts) {
        Err(error) => {
            return Err(error);
        },
        Ok(()) => {},
    }
    let first = definition.toplevel_scope.functions.len();
    match declare_functions(project, &mut definition, &contract_definition.parts) {
        Err(error) => {
            return Err(error);
        },
        Ok(()) => {},
    }
    match translate_functions(project, &mut definition, &contract_definition.parts, first) {
        Err(error) => {
            return Err(error);
        },
        Ok(()) => {},
    }
    Ok(definition)
}

} // verus!
