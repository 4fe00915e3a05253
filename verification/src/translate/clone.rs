

use vstd::prelude::*;
use crate::sway::{Enum, Impl};
use crate::sway::clone::{
    clone_abis, clone_constants, clone_function_calls, clone_functions, clone_impls, clone_strings,
    clone_structs, clone_type_definitions, clone_uses,
};
use crate::translate::{
    NameCount, NameMapping, TranslatedDefinition, TranslatedEnum, TranslatedFunction, TranslatedModifier,
    TranslatedUsingDirective, TranslatedVariable, TranslationScope, Warning,
};
use crate::translate::model::{
    enum_impl_models, name_count_models, name_mapping_models, translated_enum_models,
    translated_function_models, translated_modifier_models, translated_using_directive_models,
    translated_variable_models, warning_models,
};

verus! {

/// Copies a vector of [`TranslatedFunction`].
pub fn clone_translated_functions(v: &Vec<TranslatedFunction>) -> (r: Vec<TranslatedFunction>)
    ensures
        translated_function_models(r@) == translated_function_models(v@),
    decreases v,
{
    let mut r: Vec<TranslatedFunction> = Vec::new();
    let mut i: usize = 0;
    while i < v.len()
        invariant
            i <= v.len(),
            r.len() == i,
            forall|j: int| 0 <= j < i ==> r[j].model() == v[j].model(),
        decreases v.len() - i,
    {
        r.push(v[i].clone());
        i += 1;
    }
    assert(translated_function_models(r@) =~= translated_function_models(v@));
    r
}

/// Copies a vector of [`TranslatedVariable`].
pub fn clone_translated_variables(v: &Vec<TranslatedVariable>) -> (r: Vec<TranslatedVariable>)
    ensures
        translated_variable_models(r@) == translated_variable_models(v@),
    decreases v,
{
    let mut r: Vec<TranslatedVariable> = Vec::new();
    let mut i: usize = 0;
    while i < v.len()
        invariant
            i <= v.len(),
            r.len() == i,
            forall|j: int| 0 <= j < i ==> r[j].model() == v[j].model(),
        decreases v.len() - i,
    {
        r.push(v[i].clone());
        i += 1;
    }
    assert(translated_variable_models(r@) =~= translated_variable_models(v@));
    r
}

/// Copies a vector of [`TranslatedUsingDirective`].
pub fn clone_translated_using_directives(v: &Vec<TranslatedUsingDirective>) -> (r: Vec<TranslatedUsingDirective>)
    ensures
        translated_using_directive_models(r@) == translated_using_directive_models(v@),
    decreases v,
{
    let mut r: Vec<TranslatedUsingDirective> = Vec::new();
    let mut i: usize = 0;
    while i < v.len()
        invariant
            i <= v.len(),
            r.len() == i,
            forall|j: int| 0 <= j < i ==> r[j].model() == v[j].model(),
        decreases v.len() - i,
    {
        r.push(v[i].clone());
        i += 1;
    }
    assert(translated_using_directive_models(r@) =~= translated_using_directive_models(v@));
    r
}

/// Copies a vector of [`TranslatedEnum`].
pub fn clone_translated_enums(v: &Vec<TranslatedEnum>) -> (r: Vec<TranslatedEnum>)
    ensures
        translated_enum_models(r@) == translated_enum_models(v@),
    decreases v,
{
    let mut r: Vec<TranslatedEnum> = Vec::new();
    let mut i: usize = 0;
    while i < v.len()
        invariant
            i <= v.len(),
            r.len() == i,
            forall|j: int| 0 <= j < i ==> r[j].model() == v[j].model(),
        decreases v.len() - i,
    {
        r.push(v[i].clone());
        i += 1;
    }
    assert(translated_enum_models(r@) =~= translated_enum_models(v@));
    r
}

/// Copies a vector of [`TranslatedModifier`].
pub fn clone_translated_modifiers(v: &Vec<TranslatedModifier>) -> (r: Vec<TranslatedModifier>)
    ensures
        translated_modifier_models(r@) == translated_modifier_models(v@),
    decreases v,
{
    let mut r: Vec<TranslatedModifier> = Vec::new();
    let mut i: usize = 0;
    while i < v.len()
        invariant
            i <= v.len(),
            r.len() == i,
            forall|j: int| 0 <= j < i ==> r[j].model() == v[j].model(),
        decreases v.len() - i,
    {
        r.push(v[i].clone());
        i += 1;
    }
    assert(translated_modifier_models(r@) =~= translated_modifier_models(v@));
    r
}

/// Copies a vector of [`NameCount`].
pub fn clone_name_counts(v: &Vec<NameCount>) -> (r: Vec<NameCount>)
    ensures
        name_count_models(r@) == name_count_models(v@),
    decreases v,
{
    let mut r: Vec<NameCount> = Vec::new();
    let mut i: usize = 0;
    while i < v.len()
        invariant
            i <= v.len(),
            r.len() == i,
            forall|j: int| 0 <= j < i ==> r[j].model() == v[j].model(),
        decreases v.len() - i,
    {
        r.push(v[i].clone());
        i += 1;
    }
    assert(name_count_models(r@) =~= name_count_models(v@));
    r
}

/// Copies a vector of [`NameMapping`].
pub fn clone_name_mappings(v: &Vec<NameMapping>) -> (r: Vec<NameMapping>)
    ensures
        name_mapping_models(r@) == name_mapping_models(v@),
    decreases v,
{
    let mut r: Vec<NameMapping> = Vec::new();
    let mut i: usize = 0;
    while i < v.len()
        invariant
            i <= v.len(),
            r.len() == i,
            forall|j: int| 0 <= j < i ==> r[j].model() == v[j].model(),
        decreases v.len() - i,
    {
        r.push(v[i].clone());
        i += 1;
    }
    assert(name_mapping_models(r@) =~= name_mapping_models(v@));
    r
}

/// Copies a vector of [`Warning`].
pub fn clone_warnings(v: &Vec<Warning>) -> (r: Vec<Warning>)
    ensures
        warning_models(r@) == warning_models(v@),
    decreases v,
{
    let mut r: Vec<Warning> = Vec::new();
    let mut i: usize = 0;
    while i < v.len()
        invariant
            i <= v.len(),
            r.len() == i,
            forall|j: int| 0 <= j < i ==> r[j].model() == v[j].model(),
        decreases v.len() - i,
    {
        r.push(v[i].clone());
        i += 1;
    }
    assert(warning_models(r@) =~= warning_models(v@));
    r
}

/// Copies a vector of pairs.
pub fn clone_enum_impls(v: &Vec<(Enum, Impl)>) -> (r: Vec<(Enum, Impl)>)
    ensures
        enum_impl_models(r@) == enum_impl_models(v@),
{
    let mut r: Vec<(Enum, Impl)> = Vec::new();
    let mut i: usize = 0;
    while i < v.len()
        invariant
            i <= v.len(),
            r.len() == i,
            forall|j: int| 0 <= j < i ==> r[j].0.model() == v[j].0.model() && r[j].1.model() == v[j].1.model(),
        decreases v.len() - i,
    {
        r.push((v[i].0.clone(), v[i].1.clone()));
        i += 1;
    }
    assert(enum_impl_models(r@) =~= enum_impl_models(v@));
    r
}

impl Clone for TranslatedUsingDirective {
    fn clone(&self) -> (r: Self)
        ensures
            r@ == self@,
        decreases self,
    {
        TranslatedUsingDirective {
            library_name: (&self.library_name).clone(),
            for_type: match (&self.for_type) { Some(x) => Some(x.clone()), None => None },
            functions: clone_translated_functions((&self.functions)),
        }
    }
}

impl Clone for TranslatedEnum {
    fn clone(&self) -> (r: Self)
        ensures
            r@ == self@,
        decreases self,
    {
        TranslatedEnum {
            type_definition: (&self.type_definition).clone(),
            variants_impl: (&self.variants_impl).clone(),
        }
    }
}

impl Clone for TranslatedVariable {
    fn clone(&self) -> (r: Self)
        ensures
            r@ == self@,
        decreases self,
    {
        TranslatedVariable {
            old_name: (&self.old_name).clone(),
            new_name: (&self.new_name).clone(),
            ty: (&self.ty).clone(),
            abi_type_name: match (&self.abi_type_name) { Some(x) => Some(x.clone()), None => None },
            is_storage: *(&self.is_storage),
            is_configurable: *(&self.is_configurable),
            is_constant: *(&self.is_constant),
            statement_index: *(&self.statement_index),
            read_count: *(&self.read_count),
            mutation_count: *(&self.mutation_count),
        }
    }
}

impl Clone for TranslatedFunction {
    fn clone(&self) -> (r: Self)
        ensures
            r@ == self@,
        decreases self,
    {
        TranslatedFunction {
            old_name: (&self.old_name).clone(),
            new_name: (&self.new_name).clone(),
            parameters: (&self.parameters).clone(),
            constructor_calls: clone_function_calls((&self.constructor_calls)),
            modifiers: clone_function_calls((&self.modifiers)),
            return_type: match (&self.return_type) { Some(x) => Some(x.clone()), None => None },
        }
    }
}

impl Clone for TranslatedModifier {
    fn clone(&self) -> (r: Self)
        ensures
            r@ == self@,
        decreases self,
    {
        TranslatedModifier {
            old_name: (&self.old_name).clone(),
            new_name: (&self.new_name).clone(),
            parameters: (&self.parameters).clone(),
            has_underscore: *(&self.has_underscore),
            pre_body: match (&self.pre_body) { Some(x) => Some(x.clone()), None => None },
            post_body: match (&self.post_body) { Some(x) => Some(x.clone()), None => None },
        }
    }
}

impl Clone for TranslationScope {
    fn clone(&self) -> (r: Self)
        ensures
            r@ == self@,
        decreases self,
    {
        TranslationScope {
            parent: match (&self.parent) { Some(x) => Some(Box::new((&**x).clone())), None => None },
            variables: clone_translated_variables((&self.variables)),
            functions: clone_translated_functions((&self.functions)),
        }
    }
}

impl Clone for NameCount {
    fn clone(&self) -> (r: Self)
        ensures
            r@ == self@,
        decreases self,
    {
        NameCount {
            name: (&self.name).clone(),
            count: *(&self.count),
        }
    }
}

impl Clone for NameMapping {
    fn clone(&self) -> (r: Self)
        ensures
            r@ == self@,
        decreases self,
    {
        NameMapping {
            old_name: (&self.old_name).clone(),
            new_name: (&self.new_name).clone(),
        }
    }
}

impl Clone for Warning {
    fn clone(&self) -> (r: Self)
        ensures
            r@ == self@,
        decreases self,
    {
        match self {
            Warning::UnsupportedBitWidth { bits, used } => Warning::UnsupportedBitWidth { bits: *bits, used: *used },
        }
    }
}

impl Clone for TranslatedDefinition {
    fn clone(&self) -> (r: Self)
        ensures
            r@ == self@,
        decreases self,
    {
        TranslatedDefinition {
            path: (&self.path).clone(),
            toplevel_scope: (&self.toplevel_scope).clone(),
            kind: *(&self.kind),
            dependencies: clone_strings((&self.dependencies)),
            uses: clone_uses((&self.uses)),
            name: (&self.name).clone(),
            inherits: clone_strings((&self.inherits)),
            using_directives: clone_translated_using_directives((&self.using_directives)),
            type_definitions: clone_type_definitions((&self.type_definitions)),
            structs: clone_structs((&self.structs)),
            enums: clone_translated_enums((&self.enums)),
            events_enums: clone_enum_impls((&self.events_enums)),
            errors_enums: clone_enum_impls((&self.errors_enums)),
            constants: clone_constants((&self.constants)),
            abis: clone_abis((&self.abis)),
            abi: match (&self.abi) { Some(x) => Some(x.clone()), None => None },
            configurable: match (&self.configurable) { Some(x) => Some(x.clone()), None => None },
            storage: match (&self.storage) { Some(x) => Some(x.clone()), None => None },
            modifiers: clone_translated_modifiers((&self.modifiers)),
            functions: clone_functions((&self.functions)),
            impls: clone_impls((&self.impls)),
            struct_names: clone_strings((&self.struct_names)),
            contract_names: clone_strings((&self.contract_names)),
            function_name_counts: clone_name_counts((&self.function_name_counts)),
            function_names: clone_name_mappings((&self.function_names)),
            function_call_counts: clone_name_counts((&self.function_call_counts)),
            storage_fields_name_counts: clone_name_counts((&self.storage_fields_name_counts)),
            storage_fields_names: clone_name_mappings((&self.storage_fields_names)),
            warnings: clone_warnings((&self.warnings)),
        }
    }
}

} // verus!
