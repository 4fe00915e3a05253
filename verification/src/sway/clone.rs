

use vstd::prelude::*;
use crate::sway::{
    Abi, Array, ArrayAccess, AsmBlock, AsmFinalExpression, AsmInstruction, AsmRegister, Attribute,
    AttributeList, BinaryExpression, Block, Configurable, ConfigurableField, Constant, Constructor,
    ConstructorField, Enum, EnumVariant, Expression, Function, FunctionCall, GenericParameter,
    GenericParameterList, If, Impl, ImplItem, Let, LetIdentifier, LetPattern, Literal, Match, MatchBranch,
    MemberAccess, Module, ModuleItem, ModuleKind, Parameter, ParameterList, Statement, Storage, StorageField,
    Struct, StructField, Trait, TraitItem, TypeDefinition, TypeName, UnaryExpression, Use, UseTree, While,
};
use crate::sway::model::{
    abi_models, asm_instruction_models, asm_register_models, attribute_models, configurable_field_models,
    constant_models, constructor_field_models, enum_variant_models, expression_models, function_call_models,
    function_models, generic_parameter_models, impl_item_models, impl_models, let_identifier_models,
    match_branch_models, module_item_models, parameter_models, statement_models, storage_field_models,
    string_views, struct_field_models, struct_models, trait_item_models, type_definition_models,
    type_name_models, use_models, use_tree_models,
};

verus! {

/// Copies a vector of strings.
pub fn clone_strings(v: &Vec<String>) -> (r: Vec<String>)
    ensures
        string_views(r@) == string_views(v@),
{
    let mut r: Vec<String> = Vec::new();
    let mut i: usize = 0;
    while i < v.len()
        invariant
            i <= v.len(),
            r.len() == i,
            forall|j: int| 0 <= j < i ==> r[j]@ == v[j]@,
        decreases v.len() - i,
    {
        r.push(v[i].clone());
        i += 1;
    }
    assert(string_views(r@) =~= string_views(v@));
    r
}

/// Copies a vector of [`ModuleItem`].
pub fn clone_module_items(v: &Vec<ModuleItem>) -> (r: Vec<ModuleItem>)
    ensures
        module_item_models(r@) == module_item_models(v@),
    decreases v,
{
    let mut r: Vec<ModuleItem> = Vec::new();
    let mut i: usize = 0;
    while i < v.len()
        invariant
            i <= v.len(),
            r.len() == i,
            forall|j: int| 0 <= j < i ==> r[j].model() == v[j].model(),
        decreases v.len() - i,
    {
        r.push(v[i].clone());
        i += 1;
    }
    assert(module_item_models(r@) =~= module_item_models(v@));
    r
}

/// Copies a vector of [`Use`].
pub fn clone_uses(v: &Vec<Use>) -> (r: Vec<Use>)
    ensures
        use_models(r@) == use_models(v@),
    decreases v,
{
    let mut r: Vec<Use> = Vec::new();
    let mut i: usize = 0;
    while i < v.len()
        invariant
            i <= v.len(),
            r.len() == i,
            forall|j: int| 0 <= j < i ==> r[j].model() == v[j].model(),
        decreases v.len() - i,
    {
        r.push(v[i].clone());
        i += 1;
    }
    assert(use_models(r@) =~= use_models(v@));
    r
}

/// Copies a vector of [`UseTree`].
pub fn clone_use_trees(v: &Vec<UseTree>) -> (r: Vec<UseTree>)
    ensures
        use_tree_models(r@) == use_tree_models(v@),
    decreases v,
{
    let mut r: Vec<UseTree> = Vec::new();
    let mut i: usize = 0;
    while i < v.len()
        invariant
            i <= v.len(),
            r.len() == i,
            forall|j: int| 0 <= j < i ==> r[j].model() == v[j].model(),
        decreases v.len() - i,
    {
        r.push(v[i].clone());
        i += 1;
    }
    assert(use_tree_models(r@) =~= use_tree_models(v@));
    r
}

/// Copies a vector of [`GenericParameter`].
pub fn clone_generic_parameters(v: &Vec<GenericParameter>) -> (r: Vec<GenericParameter>)
    ensures
        generic_parameter_models(r@) == generic_parameter_models(v@),
    decreases v,
{
    let mut r: Vec<GenericParameter> = Vec::new();
    let mut i: usize = 0;
    while i < v.len()
        invariant
            i <= v.len(),
            r.len() == i,
            forall|j: int| 0 <= j < i ==> r[j].model() == v[j].model(),
        decreases v.len() - i,
    {
        r.push(v[i].clone());
        i += 1;
    }
    assert(generic_parameter_models(r@) =~= generic_parameter_models(v@));
    r
}

/// Copies a vector of [`Attribute`].
pub fn clone_attributes(v: &Vec<Attribute>) -> (r: Vec<Attribute>)
    ensures
        attribute_models(r@) == attribute_models(v@),
    decreases v,
{
    let mut r: Vec<Attribute> = Vec::new();
    let mut i: usize = 0;
    while i < v.len()
        invariant
            i <= v.len(),
            r.len() == i,
            forall|j: int| 0 <= j < i ==> r[j].model() == v[j].model(),
        decreases v.len() - i,
    {
        r.push(v[i].clone());
        i += 1;
    }
    assert(attribute_models(r@) =~= attribute_models(v@));
    r
}

/// Copies a vector of [`TypeName`].
pub fn clone_type_names(v: &Vec<TypeName>) -> (r: Vec<TypeName>)
    ensures
        type_name_models(r@) == type_name_models(v@),
    decreases v,
{
    let mut r: Vec<TypeName> = Vec::new();
    let mut i: usize = 0;
    while i < v.len()
        invariant
            i <= v.len(),
            r.len() == i,
            forall|j: int| 0 <= j < i ==> r[j].model() == v[j].model(),
        decreases v.len() - i,
    {
        r.push(v[i].clone());
        i += 1;
    }
    assert(type_name_models(r@) =~= type_name_models(v@));
    r
}

/// Copies a vector of [`TypeDefinition`].
pub fn clone_type_definitions(v: &Vec<TypeDefinition>) -> (r: Vec<TypeDefinition>)
    ensures
        type_definition_models(r@) == type_definition_models(v@),
    decreases v,
{
    let mut r: Vec<TypeDefinition> = Vec::new();
    let mut i: usize = 0;
    while i < v.len()
        invariant
            i <= v.len(),
            r.len() == i,
            forall|j: int| 0 <= j < i ==> r[j].model() == v[j].model(),
        decreases v.len() - i,
    {
        r.push(v[i].clone());
        i += 1;
    }
    assert(type_definition_models(r@) =~= type_definition_models(v@));
    r
}

/// Copies a vector of [`Constant`].
pub fn clone_constants(v: &Vec<Constant>) -> (r: Vec<Constant>)
    ensures
        constant_models(r@) == constant_models(v@),
    decreases v,
{
    let mut r: Vec<Constant> = Vec::new();
    let mut i: usize = 0;
    while i < v.len()
        invariant
            i <= v.len(),
            r.len() == i,
            forall|j: int| 0 <= j < i ==> r[j].model() == v[j].model(),
        decreases v.len() - i,
    {
        r.push(v[i].clone());
        i += 1;
    }
    assert(constant_models(r@) =~= constant_models(v@));
    r
}

/// Copies a vector of [`Struct`].
pub fn clone_structs(v: &Vec<Struct>) -> (r: Vec<Struct>)
    ensures
        struct_models(r@) == struct_models(v@),
    decreases v,
{
    let mut r: Vec<Struct> = Vec::new();
    let mut i: usize = 0;
    while i < v.len()
        invariant
            i <= v.len(),
            r.len() == i,
            forall|j: int| 0 <= j < i ==> r[j].model() == v[j].model(),
        decreases v.len() - i,
    {
        r.push(v[i].clone());
        i += 1;
    }
    assert(struct_models(r@) =~= struct_models(v@));
    r
}

/// Copies a vector of [`StructField`].
pub fn clone_struct_fields(v: &Vec<StructField>) -> (r: Vec<StructField>)
    ensures
        struct_field_models(r@) == struct_field_models(v@),
    decreases v,
{
    let mut r: Vec<StructField> = Vec::new();
    let mut i: usize = 0;
    while i < v.len()
        invariant
            i <= v.len(),
            r.len() == i,
            forall|j: int| 0 <= j < i ==> r[j].model() == v[j].model(),
        decreases v.len() - i,
    {
        r.push(v[i].clone());
        i += 1;
    }
    assert(struct_field_models(r@) =~= struct_field_models(v@));
    r
}

/// Copies a vector of [`EnumVariant`].
pub fn clone_enum_variants(v: &Vec<EnumVariant>) -> (r: Vec<EnumVariant>)
    ensures
        enum_variant_models(r@) == enum_variant_models(v@),
    decreases v,
{
    let mut r: Vec<EnumVariant> = Vec::new();
    let mut i: usize = 0;
    while i < v.len()
        invariant
            i <= v.len(),
            r.len() == i,
            forall|j: int| 0 <= j < i ==> r[j].model() == v[j].model(),
        decreases v.len() - i,
    {
        r.push(v[i].clone());
        i += 1;
    }
    assert(enum_variant_models(r@) =~= enum_variant_models(v@));
    r
}

/// Copies a vector of [`Abi`].
pub fn clone_abis(v: &Vec<Abi>) -> (r: Vec<Abi>)
    ensures
        abi_models(r@) == abi_models(v@),
    decreases v,
{
    let mut r: Vec<Abi> = Vec::new();
    let mut i: usize = 0;
    while i < v.len()
        invariant
            i <= v.len(),
            r.len() == i,
            forall|j: int| 0 <= j < i ==> r[j].model() == v[j].model(),
        decreases v.len() - i,
    {
        r.push(v[i].clone());
        i += 1;
    }
    assert(abi_models(r@) =~= abi_models(v@));
    r
}

/// Copies a vector of [`TraitItem`].
pub fn clone_trait_items(v: &Vec<TraitItem>) -> (r: Vec<TraitItem>)
    ensures
        trait_item_models(r@) == trait_item_models(v@),
    decreases v,
{
    let mut r: Vec<TraitItem> = Vec::new();
    let mut i: usize = 0;
    while i < v.len()
        invariant
            i <= v.len(),
            r.len() == i,
            forall|j: int| 0 <= j < i ==> r[j].model() == v[j].model(),
        decreases v.len() - i,
    {
        r.push(v[i].clone());
        i += 1;
    }
    assert(trait_item_models(r@) =~= trait_item_models(v@));
    r
}

/// Copies a vector of [`StorageField`].
pub fn clone_storage_fields(v: &Vec<StorageField>) -> (r: Vec<StorageField>)
    ensures
        storage_field_models(r@) == storage_field_models(v@),
    decreases v,
{
    let mut r: Vec<StorageField> = Vec::new();
    let mut i: usize = 0;
    while i < v.len()
        invariant
            i <= v.len(),
            r.len() == i,
            forall|j: int| 0 <= j < i ==> r[j].model() == v[j].model(),
        decreases v.len() - i,
    {
        r.push(v[i].clone());
        i += 1;
    }
    assert(storage_field_models(r@) =~= storage_field_models(v@));
    r
}

/// Copies a vector of [`ConfigurableField`].
pub fn clone_configurable_fields(v: &Vec<ConfigurableField>) -> (r: Vec<ConfigurableField>)
    ensures
        configurable_field_models(r@) == configurable_field_models(v@),
    decreases v,
{
    let mut r: Vec<ConfigurableField> = Vec::new();
    let mut i: usize = 0;
    while i < v.len()
        invariant
            i <= v.len(),
            r.len() == i,
            forall|j: int| 0 <= j < i ==> r[j].model() == v[j].model(),
        decreases v.len() - i,
    {
        r.push(v[i].clone());
        i += 1;
    }
    assert(configurable_field_models(r@) =~= configurable_field_models(v@));
    r
}

/// Copies a vector of [`Function`].
pub fn clone_functions(v: &Vec<Function>) -> (r: Vec<Function>)
    ensures
        function_models(r@) == function_models(v@),
    decreases v,
{
    let mut r: Vec<Function> = Vec::new();
    let mut i: usize = 0;
    while i < v.len()
        invariant
            i <= v.len(),
            r.len() == i,
            forall|j: int| 0 <= j < i ==> r[j].model() == v[j].model(),
        decreases v.len() - i,
    {
        r.push(v[i].clone());
        i += 1;
    }
    assert(function_models(r@) =~= function_models(v@));
    r
}

/// Copies a vector of [`Parameter`].
pub fn clone_parameters(v: &Vec<Parameter>) -> (r: Vec<Parameter>)
    ensures
        parameter_models(r@) == parameter_models(v@),
    decreases v,
{
    let mut r: Vec<Parameter> = Vec::new();
    let mut i: usize = 0;
    while i < v.len()
        invariant
            i <= v.len(),
            r.len() == i,
            forall|j: int| 0 <= j < i ==> r[j].model() == v[j].model(),
        decreases v.len() - i,
    {
        r.push(v[i].clone());
        i += 1;
    }
    assert(parameter_models(r@) =~= parameter_models(v@));
    r
}

/// Copies a vector of [`Impl`].
pub fn clone_impls(v: &Vec<Impl>) -> (r: Vec<Impl>)
    ensures
        impl_models(r@) == impl_models(v@),
    decreases v,
{
    let mut r: Vec<Impl> = Vec::new();
    let mut i: usize = 0;
    while i < v.len()
        invariant
            i <= v.len(),
            r.len() == i,
            forall|j: int| 0 <= j < i ==> r[j].model() == v[j].model(),
        decreases v.len() - i,
    {
        r.push(v[i].clone());
        i += 1;
    }
    assert(impl_models(r@) =~= impl_models(v@));
    r
}

/// Copies a vector of [`ImplItem`].
pub fn clone_impl_items(v: &Vec<ImplItem>) -> (r: Vec<ImplItem>)
    ensures
        impl_item_models(r@) == impl_item_models(v@),
    decreases v,
{
    let mut r: Vec<ImplItem> = Vec::new();
    let mut i: usize = 0;
    while i < v.len()
        invariant
            i <= v.len(),
            r.len() == i,
            forall|j: int| 0 <= j < i ==> r[j].model() == v[j].model(),
        decreases v.len() - i,
    {
        r.push(v[i].clone());
        i += 1;
    }
    assert(impl_item_models(r@) =~= impl_item_models(v@));
    r
}

/// Copies a vector of [`Statement`].
pub fn clone_statements(v: &Vec<Statement>) -> (r: Vec<Statement>)
    ensures
        statement_models(r@) == statement_models(v@),
    decreases v,
{
    let mut r: Vec<Statement> = Vec::new();
    let mut i: usize = 0;
    while i < v.len()
        invariant
            i <= v.len(),
            r.len() == i,
            forall|j: int| 0 <= j < i ==> r[j].model() == v[j].model(),
        decreases v.len() - i,
    {
        r.push(v[i].clone());
        i += 1;
    }
    assert(statement_models(r@) =~= statement_models(v@));
    r
}

/// Copies a vector of [`LetIdentifier`].
pub fn clone_let_identifiers(v: &Vec<LetIdentifier>) -> (r: Vec<LetIdentifier>)
    ensures
        let_identifier_models(r@) == let_identifier_models(v@),
    decreases v,
{
    let mut r: Vec<LetIdentifier> = Vec::new();
    let mut i: usize = 0;
    while i < v.len()
        invariant
            i <= v.len(),
            r.len() == i,
            forall|j: int| 0 <= j < i ==> r[j].model() == v[j].model(),
        decreases v.len() - i,
    {
        r.push(v[i].clone());
        i += 1;
    }
    assert(let_identifier_models(r@) =~= let_identifier_models(v@));
    r
}

/// Copies a vector of [`Expression`].
pub fn clone_expressions(v: &Vec<Expression>) -> (r: Vec<Expression>)
    ensures
        expression_models(r@) == expression_models(v@),
    decreases v,
{
    let mut r: Vec<Expression> = Vec::new();
    let mut i: usize = 0;
    while i < v.len()
        invariant
            i <= v.len(),
            r.len() == i,
            forall|j: int| 0 <= j < i ==> r[j].model() == v[j].model(),
        decreases v.len() - i,
    {
        r.push(v[i].clone());
        i += 1;
    }
    assert(expression_models(r@) =~= expression_models(v@));
    r
}

/// Copies a vector of [`FunctionCall`].
pub fn clone_function_calls(v: &Vec<FunctionCall>) -> (r: Vec<FunctionCall>)
    ensures
        function_call_models(r@) == function_call_models(v@),
    decreases v,
{
    let mut r: Vec<FunctionCall> = Vec::new();
    let mut i: usize = 0;
    while i < v.len()
        invariant
            i <= v.len(),
            r.len() == i,
            forall|j: int| 0 <= j < i ==> r[j].model() == v[j].model(),
        decreases v.len() - i,
    {
        r.push(v[i].clone());
        i += 1;
    }
    assert(function_call_models(r@) =~= function_call_models(v@));
    r
}

/// Copies a vector of [`MatchBranch`].
pub fn clone_match_branches(v: &Vec<MatchBranch>) -> (r: Vec<MatchBranch>)
    ensures
        match_branch_models(r@) == match_branch_models(v@),
    decreases v,
{
    let mut r: Vec<MatchBranch> = Vec::new();
    let mut i: usize = 0;
    while i < v.len()
        invariant
            i <= v.len(),
            r.len() == i,
            forall|j: int| 0 <= j < i ==> r[j].model() == v[j].model(),
        decreases v.len() - i,
    {
        r.push(v[i].clone());
        i += 1;
    }
    assert(match_branch_models(r@) =~= match_branch_models(v@));
    r
}

/// Copies a vector of [`ConstructorField`].
pub fn clone_constructor_fields(v: &Vec<ConstructorField>) -> (r: Vec<ConstructorField>)
    ensures
        constructor_field_models(r@) == constructor_field_models(v@),
    decreases v,
{
    let mut r: Vec<ConstructorField> = Vec::new();
    let mut i: usize = 0;
    while i < v.len()
        invariant
            i <= v.len(),
            r.len() == i,
            forall|j: int| 0 <= j < i ==> r[j].model() == v[j].model(),
        decreases v.len() - i,
    {
        r.push(v[i].clone());
        i += 1;
    }
    assert(constructor_field_models(r@) =~= constructor_field_models(v@));
    r
}

/// Copies a vector of [`AsmRegister`].
pub fn clone_asm_registers(v: &Vec<AsmRegister>) -> (r: Vec<AsmRegister>)
    ensures
        asm_register_models(r@) == asm_register_models(v@),
    decreases v,
{
    let mut r: Vec<AsmRegister> = Vec::new();
    let mut i: usize = 0;
    while i < v.len()
        invariant
            i <= v.len(),
            r.len() == i,
            forall|j: int| 0 <= j < i ==> r[j].model() == v[j].model(),
        decreases v.len() - i,
    {
        r.push(v[i].clone());
        i += 1;
    }
    assert(asm_register_models(r@) =~= asm_register_models(v@));
    r
}

/// Copies a vector of [`AsmInstruction`].
pub fn clone_asm_instructions(v: &Vec<AsmInstruction>) -> (r: Vec<AsmInstruction>)
    ensures
        asm_instruction_models(r@) == asm_instruction_models(v@),
    decreases v,
{
    let mut r: Vec<AsmInstruction> = Vec::new();
    let mut i: usize = 0;
    while i < v.len()
        invariant
            i <= v.len(),
            r.len() == i,
            forall|j: int| 0 <= j < i ==> r[j].model() == v[j].model(),
        decreases v.len() - i,
    {
        r.push(v[i].clone());
        i += 1;
    }
    assert(asm_instruction_models(r@) =~= asm_instruction_models(v@));
    r
}

impl Clone for ModuleKind {
    fn clone(&self) -> (r: Self)
        ensures
            r@ == self@,
        decreases self,
    {
        match self {
            ModuleKind::Contract => ModuleKind::Contract,
            ModuleKind::Library => ModuleKind::Library,
            ModuleKind::Script => ModuleKind::Script,
            ModuleKind::Predicate => ModuleKind::Predicate,
        }
    }
}

impl Clone for Module {
    fn clone(&self) -> (r: Self)
        ensures
            r@ == self@,
        decreases self,
    {
        Module {
            kind: (&self.kind).clone(),
            items: clone_module_items((&self.items)),
        }
    }
}

impl Clone for ModuleItem {
    fn clone(&self) -> (r: Self)
        ensures
            r@ == self@,
        decreases self,
    {
        match self {
            ModuleItem::Use(x0) => ModuleItem::Use(x0.clone()),
            ModuleItem::TypeDefinition(x0) => ModuleItem::TypeDefinition(x0.clone()),
            ModuleItem::Constant(x0) => ModuleItem::Constant(x0.clone()),
            ModuleItem::Struct(x0) => ModuleItem::Struct(x0.clone()),
            ModuleItem::Enum(x0) => ModuleItem::Enum(x0.clone()),
            ModuleItem::Abi(x0) => ModuleItem::Abi(x0.clone()),
            ModuleItem::Trait(x0) => ModuleItem::Trait(x0.clone()),
            ModuleItem::Storage(x0) => ModuleItem::Storage(x0.clone()),
            ModuleItem::Configurable(x0) => ModuleItem::Configurable(x0.clone()),
            ModuleItem::Function(x0) => ModuleItem::Function(x0.clone()),
            ModuleItem::Impl(x0) => ModuleItem::Impl(x0.clone()),
        }
    }
}

impl Clone for Use {
    fn clone(&self) -> (r: Self)
        ensures
            r@ == self@,
        decreases self,
    {
        Use {
            is_public: *(&self.is_public),
            tree: (&self.tree).clone(),
        }
    }
}

impl Clone for UseTree {
    fn clone(&self) -> (r: Self)
        ensures
            r@ == self@,
        decreases self,
    {
        match self {
            UseTree::Path { prefix, suffix } => UseTree::Path { prefix: prefix.clone(), suffix: Box::new((&**suffix).clone()) },
            UseTree::Group { imports } => UseTree::Group { imports: clone_use_trees(imports) },
            UseTree::Name { name } => UseTree::Name { name: name.clone() },
            UseTree::Rename { name, alias } => UseTree::Rename { name: name.clone(), alias: alias.clone() },
            UseTree::Glob => UseTree::Glob,
        }
    }
}

impl Clone for GenericParameter {
    fn clone(&self) -> (r: Self)
        ensures
            r@ == self@,
        decreases self,
    {
        GenericParameter {
            ty: (&self.ty).clone(),
            implements: match (&self.implements) { Some(x) => Some(clone_type_names(x)), None => None },
        }
    }
}

impl Clone for GenericParameterList {
    fn clone(&self) -> (r: Self)
        ensures
            r@ == self@,
        decreases self,
    {
        GenericParameterList {
            entries: clone_generic_parameters((&self.entries)),
        }
    }
}

impl Clone for Attribute {
    fn clone(&self) -> (r: Self)
        ensures
            r@ == self@,
        decreases self,
    {
        Attribute {
            name: (&self.name).clone(),
            parameters: match (&self.parameters) { Some(x) => Some(clone_strings(x)), None => None },
        }
    }
}

impl Clone for AttributeList {
    fn clone(&self) -> (r: Self)
        ensures
            r@ == self@,
        decreases self,
    {
        AttributeList {
            attributes: clone_attributes((&self.attributes)),
        }
    }
}

impl Clone for TypeName {
    fn clone(&self) -> (r: Self)
        ensures
            r@ == self@,
        decreases self,
    {
        match self {
            TypeName::Undefined => TypeName::Undefined,
            TypeName::Identifier { name, generic_parameters } => TypeName::Identifier { name: name.clone(), generic_parameters: match generic_parameters { Some(x) => Some(x.clone()), None => None } },
            TypeName::Array { ty, length } => TypeName::Array { ty: Box::new((&**ty).clone()), length: *length },
            TypeName::Tuple { type_names } => TypeName::Tuple { type_names: clone_type_names(type_names) },
            TypeName::StringSlice => TypeName::StringSlice,
            TypeName::StringArray { length } => TypeName::StringArray { length: *length },
        }
    }
}

impl Clone for TypeDefinition {
    fn clone(&self) -> (r: Self)
        ensures
            r@ == self@,
        decreases self,
    {
        TypeDefinition {
            is_public: *(&self.is_public),
            name: (&self.name).clone(),
            underlying_type: match (&self.underlying_type) { Some(x) => Some(x.clone()), None => None },
        }
    }
}

impl Clone for Constant {
    fn clone(&self) -> (r: Self)
        ensures
            r@ == self@,
        decreases self,
    {
        Constant {
            is_public: *(&self.is_public),
            name: (&self.name).clone(),
            ty: (&self.ty).clone(),
            value: match (&self.value) { Some(x) => Some(x.clone()), None => None },
        }
    }
}

impl Clone for Literal {
    fn clone(&self) -> (r: Self)
        ensures
            r@ == self@,
        decreases self,
    {
        match self {
            Literal::Bool(x0) => Literal::Bool(*x0),
            Literal::DecInt(x0) => Literal::DecInt(*x0),
            Literal::HexInt(x0) => Literal::HexInt(*x0),
            Literal::String(x0) => Literal::String(x0.clone()),
        }
    }
}

impl Clone for Struct {
    fn clone(&self) -> (r: Self)
        ensures
            r@ == self@,
        decreases self,
    {
        Struct {
            attributes: match (&self.attributes) { Some(x) => Some(x.clone()), None => None },
            is_public: *(&self.is_public),
            name: (&self.name).clone(),
            generic_parameters: match (&self.generic_parameters) { Some(x) => Some(x.clone()), None => None },
            fields: clone_struct_fields((&self.fields)),
        }
    }
}

impl Clone for StructField {
    fn clone(&self) -> (r: Self)
        ensures
            r@ == self@,
        decreases self,
    {
        StructField {
            is_public: *(&self.is_public),
            name: (&self.name).clone(),
            ty: (&self.ty).clone(),
        }
    }
}

impl Clone for Enum {
    fn clone(&self) -> (r: Self)
        ensures
            r@ == self@,
        decreases self,
    {
        Enum {
            attributes: match (&self.attributes) { Some(x) => Some(x.clone()), None => None },
            is_public: *(&self.is_public),
            name: (&self.name).clone(),
            generic_parameters: match (&self.generic_parameters) { Some(x) => Some(x.clone()), None => None },
            variants: clone_enum_variants((&self.variants)),
        }
    }
}

impl Clone for EnumVariant {
    fn clone(&self) -> (r: Self)
        ensures
            r@ == self@,
        decreases self,
    {
        EnumVariant {
            name: (&self.name).clone(),
            ty: (&self.ty).clone(),
        }
    }
}

impl Clone for Abi {
    fn clone(&self) -> (r: Self)
        ensures
            r@ == self@,
        decreases self,
    {
        Abi {
            name: (&self.name).clone(),
            inherits: clone_strings((&self.inherits)),
            functions: clone_functions((&self.functions)),
        }
    }
}

impl Clone for Trait {
    fn clone(&self) -> (r: Self)
        ensures
            r@ == self@,
        decreases self,
    {
        Trait {
            attributes: match (&self.attributes) { Some(x) => Some(x.clone()), None => None },
            is_public: *(&self.is_public),
            name: (&self.name).clone(),
            generic_parameters: match (&self.generic_parameters) { Some(x) => Some(x.clone()), None => None },
            items: clone_trait_items((&self.items)),
        }
    }
}

impl Clone for TraitItem {
    fn clone(&self) -> (r: Self)
        ensures
            r@ == self@,
        decreases self,
    {
        match self {
            TraitItem::Constant(x0) => TraitItem::Constant(x0.clone()),
            TraitItem::TypeName(x0) => TraitItem::TypeName(x0.clone()),
            TraitItem::Function(x0) => TraitItem::Function(x0.clone()),
        }
    }
}

impl Clone for Storage {
    fn clone(&self) -> (r: Self)
        ensures
            r@ == self@,
        decreases self,
    {
        Storage {
            fields: clone_storage_fields((&self.fields)),
        }
    }
}

impl Clone for StorageField {
    fn clone(&self) -> (r: Self)
        ensures
            r@ == self@,
        decreases self,
    {
        StorageField {
            name: (&self.name).clone(),
            ty: (&self.ty).clone(),
            value: (&self.value).clone(),
        }
    }
}

impl Clone for Configurable {
    fn clone(&self) -> (r: Self)
        ensures
            r@ == self@,
        decreases self,
    {
        Configurable {
            fields: clone_configurable_fields((&self.fields)),
        }
    }
}

impl Clone for ConfigurableField {
    fn clone(&self) -> (r: Self)
        ensures
            r@ == self@,
        decreases self,
    {
        ConfigurableField {
            name: (&self.name).clone(),
            ty: (&self.ty).clone(),
            value: (&self.value).clone(),
        }
    }
}

impl Clone for Function {
    fn clone(&self) -> (r: Self)
        ensures
            r@ == self@,
        decreases self,
    {
        Function {
            attributes: match (&self.attributes) { Some(x) => Some(x.clone()), None => None },
            is_public: *(&self.is_public),
            name: (&self.name).clone(),
            generic_parameters: match (&self.generic_parameters) { Some(x) => Some(x.clone()), None => None },
            parameters: (&self.parameters).clone(),
            return_type: match (&self.return_type) { Some(x) => Some(x.clone()), None => None },
            body: match (&self.body) { Some(x) => Some(x.clone()), None => None },
        }
    }
}

impl Clone for Parameter {
    fn clone(&self) -> (r: Self)
        ensures
            r@ == self@,
        decreases self,
    {
        Parameter {
            is_ref: *(&self.is_ref),
            is_mut: *(&self.is_mut),
            name: (&self.name).clone(),
            ty: match (&self.ty) { Some(x) => Some(x.clone()), None => None },
        }
    }
}

impl Clone for ParameterList {
    fn clone(&self) -> (r: Self)
        ensures
            r@ == self@,
        decreases self,
    {
        ParameterList {
            entries: clone_parameters((&self.entries)),
        }
    }
}

impl Clone for Impl {
    fn clone(&self) -> (r: Self)
        ensures
            r@ == self@,
        decreases self,
    {
        Impl {
            generic_parameters: match (&self.generic_parameters) { Some(x) => Some(x.clone()), None => None },
            ty: (&self.ty).clone(),
            for_type_name: match (&self.for_type_name) { Some(x) => Some(x.clone()), None => None },
            items: clone_impl_items((&self.items)),
        }
    }
}

impl Clone for ImplItem {
    fn clone(&self) -> (r: Self)
        ensures
            r@ == self@,
        decreases self,
    {
        match self {
            ImplItem::Constant(x0) => ImplItem::Constant(x0.clone()),
            ImplItem::TypeDefinition(x0) => ImplItem::TypeDefinition(x0.clone()),
            ImplItem::Function(x0) => ImplItem::Function(x0.clone()),
        }
    }
}

impl Clone for Block {
    fn clone(&self) -> (r: Self)
        ensures
            r@ == self@,
        decreases self,
    {
        Block {
            statements: clone_statements((&self.statements)),
            final_expr: match (&self.final_expr) { Some(x) => Some(x.clone()), None => None },
        }
    }
}

impl Clone for Statement {
    fn clone(&self) -> (r: Self)
        ensures
            r@ == self@,
        decreases self,
    {
        match self {
            Statement::Let(x0) => Statement::Let(x0.clone()),
            Statement::Expression(x0) => Statement::Expression(x0.clone()),
        }
    }
}

impl Clone for Let {
    fn clone(&self) -> (r: Self)
        ensures
            r@ == self@,
        decreases self,
    {
        Let {
            pattern: (&self.pattern).clone(),
            ty: match (&self.ty) { Some(x) => Some(x.clone()), None => None },
            value: (&self.value).clone(),
        }
    }
}

impl Clone for LetPattern {
    fn clone(&self) -> (r: Self)
        ensures
            r@ == self@,
        decreases self,
    {
        match self {
            LetPattern::Identifier(x0) => LetPattern::Identifier(x0.clone()),
            LetPattern::Tuple(x0) => LetPattern::Tuple(clone_let_identifiers(x0)),
        }
    }
}

impl Clone for LetIdentifier {
    fn clone(&self) -> (r: Self)
        ensures
            r@ == self@,
        decreases self,
    {
        LetIdentifier {
            is_mutable: *(&self.is_mutable),
            name: (&self.name).clone(),
        }
    }
}

impl Clone for Expression {
    fn clone(&self) -> (r: Self)
        ensures
            r@ == self@,
        decreases self,
    {
        match self {
            Expression::Literal(x0) => Expression::Literal(x0.clone()),
            Expression::Identifier(x0) => Expression::Identifier(x0.clone()),
            Expression::FunctionCall(x0) => Expression::FunctionCall(Box::new((&**x0).clone())),
            Expression::Block(x0) => Expression::Block(Box::new((&**x0).clone())),
            Expression::Return(x0) => Expression::Return(match x0 { Some(x) => Some(Box::new((&**x).clone())), None => None }),
            Expression::Array(x0) => Expression::Array(x0.clone()),
            Expression::ArrayAccess(x0) => Expression::ArrayAccess(Box::new((&**x0).clone())),
            Expression::MemberAccess(x0) => Expression::MemberAccess(Box::new((&**x0).clone())),
            Expression::Tuple(x0) => Expression::Tuple(clone_expressions(x0)),
            Expression::If(x0) => Expression::If(Box::new((&**x0).clone())),
            Expression::Match(x0) => Expression::Match(Box::new((&**x0).clone())),
            Expression::While(x0) => Expression::While(Box::new((&**x0).clone())),
            Expression::UnaryExpression(x0) => Expression::UnaryExpression(Box::new((&**x0).clone())),
            Expression::BinaryExpression(x0) => Expression::BinaryExpression(Box::new((&**x0).clone())),
            Expression::Constructor(x0) => Expression::Constructor(Box::new((&**x0).clone())),
            Expression::Continue => Expression::Continue,
            Expression::Break => Expression::Break,
            Expression::AsmBlock(x0) => Expression::AsmBlock(Box::new((&**x0).clone())),
            Expression::Commented(x0, x1) => Expression::Commented(x0.clone(), Box::new((&**x1).clone())),
        }
    }
}

impl Clone for FunctionCall {
    fn clone(&self) -> (r: Self)
        ensures
            r@ == self@,
        decreases self,
    {
        FunctionCall {
            function: (&self.function).clone(),
            generic_parameters: match (&self.generic_parameters) { Some(x) => Some(x.clone()), None => None },
            parameters: clone_expressions((&self.parameters)),
        }
    }
}

impl Clone for Array {
    fn clone(&self) -> (r: Self)
        ensures
            r@ == self@,
        decreases self,
    {
        Array {
            elements: clone_expressions((&self.elements)),
        }
    }
}

impl Clone for ArrayAccess {
    fn clone(&self) -> (r: Self)
        ensures
            r@ == self@,
        decreases self,
    {
        ArrayAccess {
            expression: (&self.expression).clone(),
            index: (&self.index).clone(),
        }
    }
}

impl Clone for MemberAccess {
    fn clone(&self) -> (r: Self)
        ensures
            r@ == self@,
        decreases self,
    {
        MemberAccess {
            expression: (&self.expression).clone(),
            member: (&self.member).clone(),
        }
    }
}

impl Clone for If {
    fn clone(&self) -> (r: Self)
        ensures
            r@ == self@,
        decreases self,
    {
        If {
            condition: match (&self.condition) { Some(x) => Some(x.clone()), None => None },
            then_body: (&self.then_body).clone(),
            else_if: match (&self.else_if) { Some(x) => Some(Box::new((&**x).clone())), None => None },
        }
    }
}

impl Clone for Match {
    fn clone(&self) -> (r: Self)
        ensures
            r@ == self@,
        decreases self,
    {
        Match {
            expression: (&self.expression).clone(),
            branches: clone_match_branches((&self.branches)),
        }
    }
}

impl Clone for MatchBranch {
    fn clone(&self) -> (r: Self)
        ensures
            r@ == self@,
        decreases self,
    {
        MatchBranch {
            pattern: (&self.pattern).clone(),
            value: (&self.value).clone(),
        }
    }
}

impl Clone for While {
    fn clone(&self) -> (r: Self)
        ensures
            r@ == self@,
        decreases self,
    {
        While {
            condition: (&self.condition).clone(),
            body: (&self.body).clone(),
        }
    }
}

impl Clone for UnaryExpression {
    fn clone(&self) -> (r: Self)
        ensures
            r@ == self@,
        decreases self,
    {
        UnaryExpression {
            operator: (&self.operator).clone(),
            expression: (&self.expression).clone(),
        }
    }
}

impl Clone for BinaryExpression {
    fn clone(&self) -> (r: Self)
        ensures
            r@ == self@,
        decreases self,
    {
        BinaryExpression {
            operator: (&self.operator).clone(),
            lhs: (&self.lhs).clone(),
            rhs: (&self.rhs).clone(),
        }
    }
}

impl Clone for Constructor {
    fn clone(&self) -> (r: Self)
        ensures
            r@ == self@,
        decreases self,
    {
        Constructor {
            ty: (&self.ty).clone(),
            fields: clone_constructor_fields((&self.fields)),
        }
    }
}

impl Clone for ConstructorField {
    fn clone(&self) -> (r: Self)
        ensures
            r@ == self@,
        decreases self,
    {
        ConstructorField {
            name: (&self.name).clone(),
            value: (&self.value).clone(),
        }
    }
}

impl Clone for AsmBlock {
    fn clone(&self) -> (r: Self)
        ensures
            r@ == self@,
        decreases self,
    {
        AsmBlock {
            registers: clone_asm_registers((&self.registers)),
            instructions: clone_asm_instructions((&self.instructions)),
            final_expression: match (&self.final_expression) { Some(x) => Some(x.clone()), None => None },
        }
    }
}

impl Clone for AsmRegister {
    fn clone(&self) -> (r: Self)
        ensures
            r@ == self@,
        decreases self,
    {
        AsmRegister {
            name: (&self.name).clone(),
            value: match (&self.value) { Some(x) => Some(x.clone()), None => None },
        }
    }
}

impl Clone for AsmInstruction {
    fn clone(&self) -> (r: Self)
        ensures
            r@ == self@,
        decreases self,
    {
        AsmInstruction {
            op_code: (&self.op_code).clone(),
            args: clone_strings((&self.args)),
        }
    }
}

impl Clone for AsmFinalExpression {
    fn clone(&self) -> (r: Self)
        ensures
            r@ == self@,
        decreases self,
    {
        AsmFinalExpression {
            register: (&self.register).clone(),
            ty: match (&self.ty) { Some(x) => Some(x.clone()), None => None },
        }
    }
}

} // verus!
