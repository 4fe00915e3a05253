//! The translation of contracts: what is kept about each definition while it
//! is translated, and the scopes its names are resolved in.

use vstd::prelude::*;
use crate::solidity::ContractTy;
use crate::sway::{
    Abi, Block, Configurable, Constant, Enum, Function, FunctionCall, Impl, ParameterList, Storage, Struct,
    TypeDefinition, TypeName, Use,
};

pub mod model;
pub mod clone;
pub mod eq;
pub mod scope;
pub mod infer;
pub mod definition;
pub mod literals;
pub mod type_names;
pub mod values;
pub mod expressions;
pub mod finalize;
pub mod statement_rules;
pub mod statements;
pub mod reverts;
pub mod declarations;
pub mod loops;
pub mod counters;
pub mod storage_rules;
pub mod storage;
pub mod contract_rules;
pub mod contracts;
pub mod function_rules;
pub mod functions;
pub mod assembly;
pub mod render;
pub mod scoping;

verus! {

/// A `using Library for Type` directive: the library functions it attaches.
#[derive(Debug)]
pub struct TranslatedUsingDirective {
    pub library_name: String,
    pub for_type: Option<TypeName>,
    pub functions: Vec<TranslatedFunction>,
}

/// A source enum: a type alias and an impl holding one constant per variant.
#[derive(Debug)]
pub struct TranslatedEnum {
    pub type_definition: TypeDefinition,
    pub variants_impl: Impl,
}

/// One bound name: where it came from, what it became and how it is used.
#[derive(Debug)]
pub struct TranslatedVariable {
    pub old_name: String,
    pub new_name: String,
    pub ty: TypeName,
    pub abi_type_name: Option<TypeName>,
    pub is_storage: bool,
    pub is_configurable: bool,
    pub is_constant: bool,
    pub statement_index: Option<usize>,
    pub read_count: usize,
    pub mutation_count: usize,
}

/// One translated function: its two names, its parameters and its return type.
#[derive(Debug)]
pub struct TranslatedFunction {
    pub old_name: String,
    pub new_name: String,
    pub parameters: ParameterList,
    pub constructor_calls: Vec<FunctionCall>,
    pub modifiers: Vec<FunctionCall>,
    pub return_type: Option<TypeName>,
}

/// One translated modifier, split around its placeholder.
#[derive(Debug)]
pub struct TranslatedModifier {
    pub old_name: String,
    pub new_name: String,
    pub parameters: ParameterList,
    pub has_underscore: bool,
    pub pre_body: Option<Block>,
    pub post_body: Option<Block>,
}

/// The bindings of one block, with the enclosing scope as parent.
#[derive(Debug)]
pub struct TranslationScope {
    pub parent: Option<Box<TranslationScope>>,
    pub variables: Vec<TranslatedVariable>,
    pub functions: Vec<TranslatedFunction>,
}

/// A counter kept under a name. In a table of counters no name has two.
#[derive(Debug)]
pub struct NameCount {
    pub name: String,
    pub count: usize,
}

/// The target name chosen for a source name. In a table of mappings no
/// source name has two.
#[derive(Debug)]
pub struct NameMapping {
    pub old_name: String,
    pub new_name: String,
}

/// A departure from the source that does not stop the translation.
#[derive(Debug)]
pub enum Warning {
    /// An integer width the target lacks, and the next supported width used for it.
    UnsupportedBitWidth {
        bits: u16,
        used: u16,
    },
}

/// Everything generated for one contract or library of the source.
#[derive(Debug)]
pub struct TranslatedDefinition {
    pub path: String,
    pub toplevel_scope: TranslationScope,
    pub kind: Option<ContractTy>,
    pub dependencies: Vec<String>,
    pub uses: Vec<Use>,
    pub name: String,
    pub inherits: Vec<String>,
    pub using_directives: Vec<TranslatedUsingDirective>,
    pub type_definitions: Vec<TypeDefinition>,
    pub structs: Vec<Struct>,
    pub enums: Vec<TranslatedEnum>,
    pub events_enums: Vec<(Enum, Impl)>,
    pub errors_enums: Vec<(Enum, Impl)>,
    pub constants: Vec<Constant>,
    pub abis: Vec<Abi>,
    pub abi: Option<Abi>,
    pub configurable: Option<Configurable>,
    pub storage: Option<Storage>,
    pub modifiers: Vec<TranslatedModifier>,
    pub functions: Vec<Function>,
    pub impls: Vec<Impl>,
    pub struct_names: Vec<String>,
    pub contract_names: Vec<String>,
    pub function_name_counts: Vec<NameCount>,
    pub function_names: Vec<NameMapping>,
    pub function_call_counts: Vec<NameCount>,
    pub storage_fields_name_counts: Vec<NameCount>,
    pub storage_fields_names: Vec<NameMapping>,
    pub warnings: Vec<Warning>,
}

} // verus!
