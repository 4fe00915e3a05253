

use vstd::prelude::*;
use vstd::std_specs::cmp::PartialEqSpecImpl;
use crate::sway::{
    Abi, Array, ArrayAccess, AsmBlock, AsmFinalExpression, AsmInstruction, AsmRegister, Attribute,
    AttributeList, BinaryExpression, Block, Configurable, ConfigurableField, Constant, Constructor,
    ConstructorField, Enum, EnumVariant, Expression, Function, FunctionCall, GenericParameter,
    GenericParameterList, If, Impl, ImplItem, Let, LetIdentifier, LetPattern, Literal, Match, MatchBranch,
    MemberAccess, Module, ModuleItem, ModuleKind, Parameter, ParameterList, Statement, Storage, StorageField,
    Struct, StructField, Trait, TraitItem, TypeDefinition, TypeName, UnaryExpression, Use, UseTree, While,
};
use crate::sway::model::{
    asm_instruction_models, asm_register_models, attribute_models, configurable_field_models,
    constructor_field_models, enum_variant_models, expression_models, function_call_models, function_models,
    generic_parameter_models, impl_item_models, let_identifier_models, match_branch_models,
    module_item_models, parameter_models, statement_models, storage_field_models, string_views,
    struct_field_models, trait_item_models, type_name_models, use_tree_models,
};

verus! {

/// Whether two vectors of strings hold the same texts in the same order.
pub fn eq_strings(a: &Vec<String>, b: &Vec<String>) -> (r: bool)
    ensures
        r == (string_views(a@) == string_views(b@)),
{
    if a.len() != b.len() {
        assert(string_views(a@).len() != string_views(b@).len());
        return false;
    }
    let mut i: usize = 0;
    while i < a.len()
        invariant
            i <= a.len(),
            a.len() == b.len(),
            forall|j: int| 0 <= j < i ==> a[j]@ == b[j]@,
        decreases a.len() - i,
    {
        if !a[i].eq(&b[i]) {
            assert(string_views(a@)[i as int] != string_views(b@)[i as int]);
            return false;
        }
        i += 1;
    }
    assert(string_views(a@) =~= string_views(b@));
    true
}

/// Whether two vectors of [`ModuleItem`] hold the same values in the same order.
pub fn eq_module_items(a: &Vec<ModuleItem>, b: &Vec<ModuleItem>) -> (r: bool)
    ensures
        r == (module_item_models(a@) == module_item_models(b@)),
    decreases a,
{
    if a.len() != b.len() {
        assert(module_item_models(a@).len() != module_item_models(b@).len());
        return false;
    }
    let mut i: usize = 0;
    while i < a.len()
        invariant
            i <= a.len(),
            a.len() == b.len(),
            forall|j: int| 0 <= j < i ==> a[j].model() == b[j].model(),
        decreases a.len() - i,
    {
        if !a[i].eq(&b[i]) {
            assert(module_item_models(a@)[i as int] != module_item_models(b@)[i as int]);
            return false;
        }
        i += 1;
    }
    assert(module_item_models(a@) =~= module_item_models(b@));
    true
}

/// Whether two vectors of [`UseTree`] hold the same values in the same order.
pub fn eq_use_trees(a: &Vec<UseTree>, b: &Vec<UseTree>) -> (r: bool)
    ensures
        r == (use_tree_models(a@) == use_tree_models(b@)),
    decreases a,
{
    if a.len() != b.len() {
        assert(use_tree_models(a@).len() != use_tree_models(b@).len());
        return false;
    }
    let mut i: usize = 0;
    while i < a.len()
        invariant
            i <= a.len(),
            a.len() == b.len(),
            forall|j: int| 0 <= j < i ==> a[j].model() == b[j].model(),
        decreases a.len() - i,
    {
        if !a[i].eq(&b[i]) {
            assert(use_tree_models(a@)[i as int] != use_tree_models(b@)[i as int]);
            return false;
        }
        i += 1;
    }
    assert(use_tree_models(a@) =~= use_tree_models(b@));
    true
}

/// Whether two vectors of [`GenericParameter`] hold the same values in the same order.
pub fn eq_generic_parameters(a: &Vec<GenericParameter>, b: &Vec<GenericParameter>) -> (r: bool)
    ensures
        r == (generic_parameter_models(a@) == generic_parameter_models(b@)),
    decreases a,
{
    if a.len() != b.len() {
        assert(generic_parameter_models(a@).len() != generic_parameter_models(b@).len());
        return false;
    }
    let mut i: usize = 0;
    while i < a.len()
        invariant
            i <= a.len(),
            a.len() == b.len(),
            forall|j: int| 0 <= j < i ==> a[j].model() == b[j].model(),
        decreases a.len() - i,
    {
        if !a[i].eq(&b[i]) {
            assert(generic_parameter_models(a@)[i as int] != generic_parameter_models(b@)[i as int]);
            return false;
        }
        i += 1;
    }
    assert(generic_parameter_models(a@) =~= generic_parameter_models(b@));
    true
}

/// Whether two vectors of [`Attribute`] hold the same values in the same order.
pub fn eq_attributes(a: &Vec<Attribute>, b: &Vec<Attribute>) -> (r: bool)
    ensures
        r == (attribute_models(a@) == attribute_models(b@)),
    decreases a,
{
    if a.len() != b.len() {
        assert(attribute_models(a@).len() != attribute_models(b@).len());
        return false;
    }
    let mut i: usize = 0;
    while i < a.len()
        invariant
            i <= a.len(),
            a.len() == b.len(),
            forall|j: int| 0 <= j < i ==> a[j].model() == b[j].model(),
        decreases a.len() - i,
    {
        if !a[i].eq(&b[i]) {
            assert(attribute_models(a@)[i as int] != attribute_models(b@)[i as int]);
            return false;
        }
        i += 1;
    }
    assert(attribute_models(a@) =~= attribute_models(b@));
    true
}

/// Whether two vectors of [`TypeName`] hold the same values in the same order.
pub fn eq_type_names(a: &Vec<TypeName>, b: &Vec<TypeName>) -> (r: bool)
    ensures
        r == (type_name_models(a@) == type_name_models(b@)),
    decreases a,
{
    if a.len() != b.len() {
        assert(type_name_models(a@).len() != type_name_models(b@).len());
        return false;
    }
    let mut i: usize = 0;
    while i < a.len()
        invariant
            i <= a.len(),
            a.len() == b.len(),
            forall|j: int| 0 <= j < i ==> a[j].model() == b[j].model(),
        decreases a.len() - i,
    {
        if !a[i].eq(&b[i]) {
            assert(type_name_models(a@)[i as int] != type_name_models(b@)[i as int]);
            return false;
        }
        i += 1;
    }
    assert(type_name_models(a@) =~= type_name_models(b@));
    true
}

/// Whether two vectors of [`StructField`] hold the same values in the same order.
pub fn eq_struct_fields(a: &Vec<StructField>, b: &Vec<StructField>) -> (r: bool)
    ensures
        r == (struct_field_models(a@) == struct_field_models(b@)),
    decreases a,
{
    if a.len() != b.len() {
        assert(struct_field_models(a@).len() != struct_field_models(b@).len());
        return false;
    }
    let mut i: usize = 0;
    while i < a.len()
        invariant
            i <= a.len(),
            a.len() == b.len(),
            forall|j: int| 0 <= j < i ==> a[j].model() == b[j].model(),
        decreases a.len() - i,
    {
        if !a[i].eq(&b[i]) {
            assert(struct_field_models(a@)[i as int] != struct_field_models(b@)[i as int]);
            return false;
        }
        i += 1;
    }
    assert(struct_field_models(a@) =~= struct_field_models(b@));
    true
}

/// Whether two vectors of [`EnumVariant`] hold the same values in the same order.
pub fn eq_enum_variants(a: &Vec<EnumVariant>, b: &Vec<EnumVariant>) -> (r: bool)
    ensures
        r == (enum_variant_models(a@) == enum_variant_models(b@)),
    decreases a,
{
    if a.len() != b.len() {
        assert(enum_variant_models(a@).len() != enum_variant_models(b@).len());
        return false;
    }
    let mut i: usize = 0;
    while i < a.len()
        invariant
            i <= a.len(),
            a.len() == b.len(),
            forall|j: int| 0 <= j < i ==> a[j].model() == b[j].model(),
        decreases a.len() - i,
    {
        if !a[i].eq(&b[i]) {
            assert(enum_variant_models(a@)[i as int] != enum_variant_models(b@)[i as int]);
            return false;
        }
        i += 1;
    }
    assert(enum_variant_models(a@) =~= enum_variant_models(b@));
    true
}

/// Whether two vectors of [`TraitItem`] hold the same values in the same order.
pub fn eq_trait_items(a: &Vec<TraitItem>, b: &Vec<TraitItem>) -> (r: bool)
    ensures
        r == (trait_item_models(a@) == trait_item_models(b@)),
    decreases a,
{
    if a.len() != b.len() {
        assert(trait_item_models(a@).len() != trait_item_models(b@).len());
        return false;
    }
    let mut i: usize = 0;
    while i < a.len()
        invariant
            i <= a.len(),
            a.len() == b.len(),
            forall|j: int| 0 <= j < i ==> a[j].model() == b[j].model(),
        decreases a.len() - i,
    {
        if !a[i].eq(&b[i]) {
            assert(trait_item_models(a@)[i as int] != trait_item_models(b@)[i as int]);
            return false;
        }
        i += 1;
    }
    assert(trait_item_models(a@) =~= trait_item_models(b@));
    true
}

/// Whether two vectors of [`StorageField`] hold the same values in the same order.
pub fn eq_storage_fields(a: &Vec<StorageField>, b: &Vec<StorageField>) -> (r: bool)
    ensures
        r == (storage_field_models(a@) == storage_field_models(b@)),
    decreases a,
{
    if a.len() != b.len() {
        assert(storage_field_models(a@).len() != storage_field_models(b@).len());
        return false;
    }
    let mut i: usize = 0;
    while i < a.len()
        invariant
            i <= a.len(),
            a.len() == b.len(),
            forall|j: int| 0 <= j < i ==> a[j].model() == b[j].model(),
        decreases a.len() - i,
    {
        if !a[i].eq(&b[i]) {
            assert(storage_field_models(a@)[i as int] != storage_field_models(b@)[i as int]);
            return false;
        }
        i += 1;
    }
    assert(storage_field_models(a@) =~= storage_field_models(b@));
    true
}

/// Whether two vectors of [`ConfigurableField`] hold the same values in the same order.
pub fn eq_configurable_fields(a: &Vec<ConfigurableField>, b: &Vec<ConfigurableField>) -> (r: bool)
    ensures
        r == (configurable_field_models(a@) == configurable_field_models(b@)),
    decreases a,
{
    if a.len() != b.len() {
        assert(configurable_field_models(a@).len() != configurable_field_models(b@).len());
        return false;
    }
    let mut i: usize = 0;
    while i < a.len()
        invariant
            i <= a.len(),
            a.len() == b.len(),
            forall|j: int| 0 <= j < i ==> a[j].model() == b[j].model(),
        decreases a.len() - i,
    {
        if !a[i].eq(&b[i]) {
            assert(configurable_field_models(a@)[i as int] != configurable_field_models(b@)[i as int]);
            return false;
        }
        i += 1;
    }
    assert(configurable_field_models(a@) =~= configurable_field_models(b@));
    true
}

/// Whether two vectors of [`Function`] hold the same values in the same order.
pub fn eq_functions(a: &Vec<Function>, b: &Vec<Function>) -> (r: bool)
    ensures
        r == (function_models(a@) == function_models(b@)),
    decreases a,
{
    if a.len() != b.len() {
        assert(function_models(a@).len() != function_models(b@).len());
        return false;
    }
    let mut i: usize = 0;
    while i < a.len()
        invariant
            i <= a.len(),
            a.len() == b.len(),
            forall|j: int| 0 <= j < i ==> a[j].model() == b[j].model(),
        decreases a.len() - i,
    {
        if !a[i].eq(&b[i]) {
            assert(function_models(a@)[i as int] != function_models(b@)[i as int]);
            return false;
        }
        i += 1;
    }
    assert(function_models(a@) =~= function_models(b@));
    true
}

/// Whether two vectors of [`Parameter`] hold the same values in the same order.
pub fn eq_parameters(a: &Vec<Parameter>, b: &Vec<Parameter>) -> (r: bool)
    ensures
        r == (parameter_models(a@) == parameter_models(b@)),
    decreases a,
{
    if a.len() != b.len() {
        assert(parameter_models(a@).len() != parameter_models(b@).len());
        return false;
    }
    let mut i: usize = 0;
    while i < a.len()
        invariant
            i <= a.len(),
            a.len() == b.len(),
            forall|j: int| 0 <= j < i ==> a[j].model() == b[j].model(),
        decreases a.len() - i,
    {
        if !a[i].eq(&b[i]) {
            assert(parameter_models(a@)[i as int] != parameter_models(b@)[i as int]);
            return false;
        }
        i += 1;
    }
    assert(parameter_models(a@) =~= parameter_models(b@));
    true
}

/// Whether two vectors of [`ImplItem`] hold the same values in the same order.
pub fn eq_impl_items(a: &Vec<ImplItem>, b: &Vec<ImplItem>) -> (r: bool)
    ensures
        r == (impl_item_models(a@) == impl_item_models(b@)),
    decreases a,
{
    if a.len() != b.len() {
        assert(impl_item_models(a@).len() != impl_item_models(b@).len());
        return false;
    }
    let mut i: usize = 0;
    while i < a.len()
        invariant
            i <= a.len(),
            a.len() == b.len(),
            forall|j: int| 0 <= j < i ==> a[j].model() == b[j].model(),
        decreases a.len() - i,
    {
        if !a[i].eq(&b[i]) {
            assert(impl_item_models(a@)[i as int] != impl_item_models(b@)[i as int]);
            return false;
        }
        i += 1;
    }
    assert(impl_item_models(a@) =~= impl_item_models(b@));
    true
}

/// Whether two vectors of [`Statement`] hold the same values in the same order.
pub fn eq_statements(a: &Vec<Statement>, b: &Vec<Statement>) -> (r: bool)
    ensures
        r == (statement_models(a@) == statement_models(b@)),
    decreases a,
{
    if a.len() != b.len() {
        assert(statement_models(a@).len() != statement_models(b@).len());
        return false;
    }
    let mut i: usize = 0;
    while i < a.len()
        invariant
            i <= a.len(),
            a.len() == b.len(),
            forall|j: int| 0 <= j < i ==> a[j].model() == b[j].model(),
        decreases a.len() - i,
    {
        if !a[i].eq(&b[i]) {
            assert(statement_models(a@)[i as int] != statement_models(b@)[i as int]);
            return false;
        }
        i += 1;
    }
    assert(statement_models(a@) =~= statement_models(b@));
    true
}

/// Whether two vectors of [`LetIdentifier`] hold the same values in the same order.
pub fn eq_let_identifiers(a: &Vec<LetIdentifier>, b: &Vec<LetIdentifier>) -> (r: bool)
    ensures
        r == (let_identifier_models(a@) == let_identifier_models(b@)),
    decreases a,
{
    if a.len() != b.len() {
        assert(let_identifier_models(a@).len() != let_identifier_models(b@).len());
        return false;
    }
    let mut i: usize = 0;
    while i < a.len()
        invariant
            i <= a.len(),
            a.len() == b.len(),
            forall|j: int| 0 <= j < i ==> a[j].model() == b[j].model(),
        decreases a.len() - i,
    {
        if !a[i].eq(&b[i]) {
            assert(let_identifier_models(a@)[i as int] != let_identifier_models(b@)[i as int]);
            return false;
        }
        i += 1;
    }
    assert(let_identifier_models(a@) =~= let_identifier_models(b@));
    true
}

/// Whether two vectors of [`Expression`] hold the same values in the same order.
pub fn eq_expressions(a: &Vec<Expression>, b: &Vec<Expression>) -> (r: bool)
    ensures
        r == (expression_models(a@) == expression_models(b@)),
    decreases a,
{
    if a.len() != b.len() {
        assert(expression_models(a@).len() != expression_models(b@).len());
        return false;
    }
    let mut i: usize = 0;
    while i < a.len()
        invariant
            i <= a.len(),
            a.len() == b.len(),
            forall|j: int| 0 <= j < i ==> a[j].model() == b[j].model(),
        decreases a.len() - i,
    {
        if !a[i].eq(&b[i]) {
            assert(expression_models(a@)[i as int] != expression_models(b@)[i as int]);
            return false;
        }
        i += 1;
    }
    assert(expression_models(a@) =~= expression_models(b@));
    true
}

/// Whether two vectors of [`FunctionCall`] hold the same values in the same order.
pub fn eq_function_calls(a: &Vec<FunctionCall>, b: &Vec<FunctionCall>) -> (r: bool)
    ensures
        r == (function_call_models(a@) == function_call_models(b@)),
    decreases a,
{
    if a.len() != b.len() {
        assert(function_call_models(a@).len() != function_call_models(b@).len());
        return false;
    }
    let mut i: usize = 0;
    while i < a.len()
        invariant
            i <= a.len(),
            a.len() == b.len(),
            forall|j: int| 0 <= j < i ==> a[j].model() == b[j].model(),
        decreases a.len() - i,
    {
        if !a[i].eq(&b[i]) {
            assert(function_call_models(a@)[i as int] != function_call_models(b@)[i as int]);
            return false;
        }
        i += 1;
    }
    assert(function_call_models(a@) =~= function_call_models(b@));
    true
}

/// Whether two vectors of [`MatchBranch`] hold the same values in the same order.
pub fn eq_match_branches(a: &Vec<MatchBranch>, b: &Vec<MatchBranch>) -> (r: bool)
    ensures
        r == (match_branch_models(a@) == match_branch_models(b@)),
    decreases a,
{
    if a.len() != b.len() {
        assert(match_branch_models(a@).len() != match_branch_models(b@).len());
        return false;
    }
    let mut i: usize = 0;
    while i < a.len()
        invariant
            i <= a.len(),
            a.len() == b.len(),
            forall|j: int| 0 <= j < i ==> a[j].model() == b[j].model(),
        decreases a.len() - i,
    {
        if !a[i].eq(&b[i]) {
            assert(match_branch_models(a@)[i as int] != match_branch_models(b@)[i as int]);
            return false;
        }
        i += 1;
    }
    assert(match_branch_models(a@) =~= match_branch_models(b@));
    true
}

/// Whether two vectors of [`ConstructorField`] hold the same values in the same order.
pub fn eq_constructor_fields(a: &Vec<ConstructorField>, b: &Vec<ConstructorField>) -> (r: bool)
    ensures
        r == (constructor_field_models(a@) == constructor_field_models(b@)),
    decreases a,
{
    if a.len() != b.len() {
        assert(constructor_field_models(a@).len() != constructor_field_models(b@).len());
        return false;
    }
    let mut i: usize = 0;
    while i < a.len()
        invariant
            i <= a.len(),
            a.len() == b.len(),
            forall|j: int| 0 <= j < i ==> a[j].model() == b[j].model(),
        decreases a.len() - i,
    {
        if !a[i].eq(&b[i]) {
            assert(constructor_field_models(a@)[i as int] != constructor_field_models(b@)[i as int]);
            return false;
        }
        i += 1;
    }
    assert(constructor_field_models(a@) =~= constructor_field_models(b@));
    true
}

/// Whether two vectors of [`AsmRegister`] hold the same values in the same order.
pub fn eq_asm_registers(a: &Vec<AsmRegister>, b: &Vec<AsmRegister>) -> (r: bool)
    ensures
        r == (asm_register_models(a@) == asm_register_models(b@)),
    decreases a,
{
    if a.len() != b.len() {
        assert(asm_register_models(a@).len() != asm_register_models(b@).len());
        return false;
    }
    let mut i: usize = 0;
    while i < a.len()
        invariant
            i <= a.len(),
            a.len() == b.len(),
            forall|j: int| 0 <= j < i ==> a[j].model() == b[j].model(),
        decreases a.len() - i,
    {
        if !a[i].eq(&b[i]) {
            assert(asm_register_models(a@)[i as int] != asm_register_models(b@)[i as int]);
            return false;
        }
        i += 1;
    }
    assert(asm_register_models(a@) =~= asm_register_models(b@));
    true
}

/// Whether two vectors of [`AsmInstruction`] hold the same values in the same order.
pub fn eq_asm_instructions(a: &Vec<AsmInstruction>, b: &Vec<AsmInstruction>) -> (r: bool)
    ensures
        r == (asm_instruction_models(a@) == asm_instruction_models(b@)),
    decreases a,
{
    if a.len() != b.len() {
        assert(asm_instruction_models(a@).len() != asm_instruction_models(b@).len());
        return false;
    }
    let mut i: usize = 0;
    while i < a.len()
        invariant
            i <= a.len(),
            a.len() == b.len(),
            forall|j: int| 0 <= j < i ==> a[j].model() == b[j].model(),
        decreases a.len() - i,
    {
        if !a[i].eq(&b[i]) {
            assert(asm_instruction_models(a@)[i as int] != asm_instruction_models(b@)[i as int]);
            return false;
        }
        i += 1;
    }
    assert(asm_instruction_models(a@) =~= asm_instruction_models(b@));
    true
}

impl PartialEq for ModuleKind {
    fn eq(&self, other: &Self) -> (r: bool)
        decreases self,
    {
        match self {
            ModuleKind::Contract => match other { ModuleKind::Contract => true, _ => false },
            ModuleKind::Library => match other { ModuleKind::Library => true, _ => false },
            ModuleKind::Script => match other { ModuleKind::Script => true, _ => false },
            ModuleKind::Predicate => match other { ModuleKind::Predicate => true, _ => false },
        }
    }
}

impl PartialEqSpecImpl for ModuleKind {
    open spec fn obeys_eq_spec() -> bool {
        true
    }

    open spec fn eq_spec(&self, other: &Self) -> bool {
        self@ == other@
    }
}

impl PartialEq for Module {
    fn eq(&self, other: &Self) -> (r: bool)
        decreases self,
    {
        ((&self.kind).eq((&other.kind)))
            && (eq_module_items((&self.items), (&other.items)))
    }
}

impl PartialEqSpecImpl for Module {
    open spec fn obeys_eq_spec() -> bool {
        true
    }

    open spec fn eq_spec(&self, other: &Self) -> bool {
        self@ == other@
    }
}

impl PartialEq for ModuleItem {
    fn eq(&self, other: &Self) -> (r: bool)
        decreases self,
    {
        match self {
            ModuleItem::Use(x0) => match other {
                ModuleItem::Use(x0_o) => (x0.eq(x0_o)),
                _ => false,
            },
            ModuleItem::TypeDefinition(x0) => match other {
                ModuleItem::TypeDefinition(x0_o) => (x0.eq(x0_o)),
                _ => false,
            },
            ModuleItem::Constant(x0) => match other {
                ModuleItem::Constant(x0_o) => (x0.eq(x0_o)),
                _ => false,
            },
            ModuleItem::Struct(x0) => match other {
                ModuleItem::Struct(x0_o) => (x0.eq(x0_o)),
                _ => false,
            },
            ModuleItem::Enum(x0) => match other {
                ModuleItem::Enum(x0_o) => (x0.eq(x0_o)),
                _ => false,
            },
            ModuleItem::Abi(x0) => match other {
                ModuleItem::Abi(x0_o) => (x0.eq(x0_o)),
                _ => false,
            },
            ModuleItem::Trait(x0) => match other {
                ModuleItem::Trait(x0_o) => (x0.eq(x0_o)),
                _ => false,
            },
            ModuleItem::Storage(x0) => match other {
                ModuleItem::Storage(x0_o) => (x0.eq(x0_o)),
                _ => false,
            },
            ModuleItem::Configurable(x0) => match other {
                ModuleItem::Configurable(x0_o) => (x0.eq(x0_o)),
                _ => false,
            },
            ModuleItem::Function(x0) => match other {
                ModuleItem::Function(x0_o) => (x0.eq(x0_o)),
                _ => false,
            },
            ModuleItem::Impl(x0) => match other {
                ModuleItem::Impl(x0_o) => (x0.eq(x0_o)),
                _ => false,
            },
        }
    }
}

impl PartialEqSpecImpl for ModuleItem {
    open spec fn obeys_eq_spec() -> bool {
        true
    }

    open spec fn eq_spec(&self, other: &Self) -> bool {
        self@ == other@
    }
}

impl PartialEq for Use {
    fn eq(&self, other: &Self) -> (r: bool)
        decreases self,
    {
        (*(&self.is_public) == *(&other.is_public))
            && ((&self.tree).eq((&other.tree)))
    }
}

impl PartialEqSpecImpl for Use {
    open spec fn obeys_eq_spec() -> bool {
        true
    }

    open spec fn eq_spec(&self, other: &Self) -> bool {
        self@ == other@
    }
}

impl PartialEq for UseTree {
    fn eq(&self, other: &Self) -> (r: bool)
        decreases self,
    {
        match self {
            UseTree::Path { prefix, suffix } => match other {
                UseTree::Path { prefix: prefix_o, suffix: suffix_o } => (prefix.eq(prefix_o)) && ((&**suffix).eq((&**suffix_o))),
                _ => false,
            },
            UseTree::Group { imports } => match other {
                UseTree::Group { imports: imports_o } => (eq_use_trees(imports, imports_o)),
                _ => false,
            },
            UseTree::Name { name } => match other {
                UseTree::Name { name: name_o } => (name.eq(name_o)),
                _ => false,
            },
            UseTree::Rename { name, alias } => match other {
                UseTree::Rename { name: name_o, alias: alias_o } => (name.eq(name_o)) && (alias.eq(alias_o)),
                _ => false,
            },
            UseTree::Glob => match other { UseTree::Glob => true, _ => false },
        }
    }
}

impl PartialEqSpecImpl for UseTree {
    open spec fn obeys_eq_spec() -> bool {
        true
    }

    open spec fn eq_spec(&self, other: &Self) -> bool {
        self@ == other@
    }
}

impl PartialEq for GenericParameter {
    fn eq(&self, other: &Self) -> (r: bool)
        decreases self,
    {
        ((&self.ty).eq((&other.ty)))
            && (match ((&self.implements), (&other.implements)) { (Some(x), Some(y)) => eq_type_names(x, y), (None, None) => true, _ => false })
    }
}

impl PartialEqSpecImpl for GenericParameter {
    open spec fn obeys_eq_spec() -> bool {
        true
    }

    open spec fn eq_spec(&self, other: &Self) -> bool {
        self@ == other@
    }
}

impl PartialEq for GenericParameterList {
    fn eq(&self, other: &Self) -> (r: bool)
        decreases self,
    {
        (eq_generic_parameters((&self.entries), (&other.entries)))
    }
}

impl PartialEqSpecImpl for GenericParameterList {
    open spec fn obeys_eq_spec() -> bool {
        true
    }

    open spec fn eq_spec(&self, other: &Self) -> bool {
        self@ == other@
    }
}

impl PartialEq for Attribute {
    fn eq(&self, other: &Self) -> (r: bool)
        decreases self,
    {
        ((&self.name).eq((&other.name)))
            && (match ((&self.parameters), (&other.parameters)) { (Some(x), Some(y)) => eq_strings(x, y), (None, None) => true, _ => false })
    }
}

impl PartialEqSpecImpl for Attribute {
    open spec fn obeys_eq_spec() -> bool {
        true
    }

    open spec fn eq_spec(&self, other: &Self) -> bool {
        self@ == other@
    }
}

impl PartialEq for AttributeList {
    fn eq(&self, other: &Self) -> (r: bool)
        decreases self,
    {
        (eq_attributes((&self.attributes), (&other.attributes)))
    }
}

impl PartialEqSpecImpl for AttributeList {
    open spec fn obeys_eq_spec() -> bool {
        true
    }

    open spec fn eq_spec(&self, other: &Self) -> bool {
        self@ == other@
    }
}

impl PartialEq for TypeName {
    fn eq(&self, other: &Self) -> (r: bool)
        decreases self,
    {
        match self {
            TypeName::Undefined => match other { TypeName::Undefined => true, _ => false },
            TypeName::Identifier { name, generic_parameters } => match other {
                TypeName::Identifier { name: name_o, generic_parameters: generic_parameters_o } => (name.eq(name_o)) && (match (generic_parameters, generic_parameters_o) { (Some(x), Some(y)) => x.eq(y), (None, None) => true, _ => false }),
                _ => false,
            },
            TypeName::Array { ty, length } => match other {
                TypeName::Array { ty: ty_o, length: length_o } => ((&**ty).eq((&**ty_o))) && (*length == *length_o),
                _ => false,
            },
            TypeName::Tuple { type_names } => match other {
                TypeName::Tuple { type_names: type_names_o } => (eq_type_names(type_names, type_names_o)),
                _ => false,
            },
            TypeName::StringSlice => match other { TypeName::StringSlice => true, _ => false },
            TypeName::StringArray { length } => match other {
                TypeName::StringArray { length: length_o } => (*length == *length_o),
                _ => false,
            },
        }
    }
}

impl PartialEqSpecImpl for TypeName {
    open spec fn obeys_eq_spec() -> bool {
        true
    }

    open spec fn eq_spec(&self, other: &Self) -> bool {
        self@ == other@
    }
}

impl PartialEq for TypeDefinition {
    fn eq(&self, other: &Self) -> (r: bool)
        decreases self,
    {
        (*(&self.is_public) == *(&other.is_public))
            && ((&self.name).eq((&other.name)))
            && (match ((&self.underlying_type), (&other.underlying_type)) { (Some(x), Some(y)) => x.eq(y), (None, None) => true, _ => false })
    }
}

impl PartialEqSpecImpl for TypeDefinition {
    open spec fn obeys_eq_spec() -> bool {
        true
    }

    open spec fn eq_spec(&self, other: &Self) -> bool {
        self@ == other@
    }
}

impl PartialEq for Constant {
    fn eq(&self, other: &Self) -> (r: bool)
        decreases self,
    {
        (*(&self.is_public) == *(&other.is_public))
            && ((&self.name).eq((&other.name)))
            && ((&self.ty).eq((&other.ty)))
            && (match ((&self.value), (&other.value)) { (Some(x), Some(y)) => x.eq(y), (None, None) => true, _ => false })
    }
}

impl PartialEqSpecImpl for Constant {
    open spec fn obeys_eq_spec() -> bool {
        true
    }

    open spec fn eq_spec(&self, other: &Self) -> bool {
        self@ == other@
    }
}

impl PartialEq for Literal {
    fn eq(&self, other: &Self) -> (r: bool)
        decreases self,
    {
        match self {
            Literal::Bool(x0) => match other {
                Literal::Bool(x0_o) => (*x0 == *x0_o),
                _ => false,
            },
            Literal::DecInt(x0) => match other {
                Literal::DecInt(x0_o) => (*x0 == *x0_o),
                _ => false,
            },
            Literal::HexInt(x0) => match other {
                Literal::HexInt(x0_o) => (*x0 == *x0_o),
                _ => false,
            },
            Literal::String(x0) => match other {
                Literal::String(x0_o) => (x0.eq(x0_o)),
                _ => false,
            },
        }
    }
}

impl PartialEqSpecImpl for Literal {
    open spec fn obeys_eq_spec() -> bool {
        true
    }

    open spec fn eq_spec(&self, other: &Self) -> bool {
        self@ == other@
    }
}

impl PartialEq for Struct {
    fn eq(&self, other: &Self) -> (r: bool)
        decreases self,
    {
        (match ((&self.attributes), (&other.attributes)) { (Some(x), Some(y)) => x.eq(y), (None, None) => true, _ => false })
            && (*(&self.is_public) == *(&other.is_public))
            && ((&self.name).eq((&other.name)))
            && (match ((&self.generic_parameters), (&other.generic_parameters)) { (Some(x), Some(y)) => x.eq(y), (None, None) => true, _ => false })
            && (eq_struct_fields((&self.fields), (&other.fields)))
    }
}

impl PartialEqSpecImpl for Struct {
    open spec fn obeys_eq_spec() -> bool {
        true
    }

    open spec fn eq_spec(&self, other: &Self) -> bool {
        self@ == other@
    }
}

impl PartialEq for StructField {
    fn eq(&self, other: &Self) -> (r: bool)
        decreases self,
    {
        (*(&self.is_public) == *(&other.is_public))
            && ((&self.name).eq((&other.name)))
            && ((&self.ty).eq((&other.ty)))
    }
}

impl PartialEqSpecImpl for StructField {
    open spec fn obeys_eq_spec() -> bool {
        true
    }

    open spec fn eq_spec(&self, other: &Self) -> bool {
        self@ == other@
    }
}

impl PartialEq for Enum {
    fn eq(&self, other: &Self) -> (r: bool)
        decreases self,
    {
        (match ((&self.attributes), (&other.attributes)) { (Some(x), Some(y)) => x.eq(y), (None, None) => true, _ => false })
            && (*(&self.is_public) == *(&other.is_public))
            && ((&self.name).eq((&other.name)))
            && (match ((&self.generic_parameters), (&other.generic_parameters)) { (Some(x), Some(y)) => x.eq(y), (None, None) => true, _ => false })
            && (eq_enum_variants((&self.variants), (&other.variants)))
    }
}

impl PartialEqSpecImpl for Enum {
    open spec fn obeys_eq_spec() -> bool {
        true
    }

    open spec fn eq_spec(&self, other: &Self) -> bool {
        self@ == other@
    }
}

impl PartialEq for EnumVariant {
    fn eq(&self, other: &Self) -> (r: bool)
        decreases self,
    {
        ((&self.name).eq((&other.name)))
            && ((&self.ty).eq((&other.ty)))
    }
}

impl PartialEqSpecImpl for EnumVariant {
    open spec fn obeys_eq_spec() -> bool {
        true
    }

    open spec fn eq_spec(&self, other: &Self) -> bool {
        self@ == other@
    }
}

impl PartialEq for Abi {
    fn eq(&self, other: &Self) -> (r: bool)
        decreases self,
    {
        ((&self.name).eq((&other.name)))
            && (eq_strings((&self.inherits), (&other.inherits)))
            && (eq_functions((&self.functions), (&other.functions)))
    }
}

impl PartialEqSpecImpl for Abi {
    open spec fn obeys_eq_spec() -> bool {
        true
    }

    open spec fn eq_spec(&self, other: &Self) -> bool {
        self@ == other@
    }
}

impl PartialEq for Trait {
    fn eq(&self, other: &Self) -> (r: bool)
        decreases self,
    {
        (match ((&self.attributes), (&other.attributes)) { (Some(x), Some(y)) => x.eq(y), (None, None) => true, _ => false })
            && (*(&self.is_public) == *(&other.is_public))
            && ((&self.name).eq((&other.name)))
            && (match ((&self.generic_parameters), (&other.generic_parameters)) { (Some(x), Some(y)) => x.eq(y), (None, None) => true, _ => false })
            && (eq_trait_items((&self.items), (&other.items)))
    }
}

impl PartialEqSpecImpl for Trait {
    open spec fn obeys_eq_spec() -> bool {
        true
    }

    open spec fn eq_spec(&self, other: &Self) -> bool {
        self@ == other@
    }
}

impl PartialEq for TraitItem {
    fn eq(&self, other: &Self) -> (r: bool)
        decreases self,
    {
        match self {
            TraitItem::Constant(x0) => match other {
                TraitItem::Constant(x0_o) => (x0.eq(x0_o)),
                _ => false,
            },
            TraitItem::TypeName(x0) => match other {
                TraitItem::TypeName(x0_o) => (x0.eq(x0_o)),
                _ => false,
            },
            TraitItem::Function(x0) => match other {
                TraitItem::Function(x0_o) => (x0.eq(x0_o)),
                _ => false,
            },
        }
    }
}

impl PartialEqSpecImpl for TraitItem {
    open spec fn obeys_eq_spec() -> bool {
        true
    }

    open spec fn eq_spec(&self, other: &Self) -> bool {
        self@ == other@
    }
}

impl PartialEq for Storage {
    fn eq(&self, other: &Self) -> (r: bool)
        decreases self,
    {
        (eq_storage_fields((&self.fields), (&other.fields)))
    }
}

impl PartialEqSpecImpl for Storage {
    open spec fn obeys_eq_spec() -> bool {
        true
    }

    open spec fn eq_spec(&self, other: &Self) -> bool {
        self@ == other@
    }
}

impl PartialEq for StorageField {
    fn eq(&self, other: &Self) -> (r: bool)
        decreases self,
    {
        ((&self.name).eq((&other.name)))
            && ((&self.ty).eq((&other.ty)))
            && ((&self.value).eq((&other.value)))
    }
}

impl PartialEqSpecImpl for StorageField {
    open spec fn obeys_eq_spec() -> bool {
        true
    }

    open spec fn eq_spec(&self, other: &Self) -> bool {
        self@ == other@
    }
}

impl PartialEq for Configurable {
    fn eq(&self, other: &Self) -> (r: bool)
        decreases self,
    {
        (eq_configurable_fields((&self.fields), (&other.fields)))
    }
}

impl PartialEqSpecImpl for Configurable {
    open spec fn obeys_eq_spec() -> bool {
        true
    }

    open spec fn eq_spec(&self, other: &Self) -> bool {
        self@ == other@
    }
}

impl PartialEq for ConfigurableField {
    fn eq(&self, other: &Self) -> (r: bool)
        decreases self,
    {
        ((&self.name).eq((&other.name)))
            && ((&self.ty).eq((&other.ty)))
            && ((&self.value).eq((&other.value)))
    }
}

impl PartialEqSpecImpl for ConfigurableField {
    open spec fn obeys_eq_spec() -> bool {
        true
    }

    open spec fn eq_spec(&self, other: &Self) -> bool {
        self@ == other@
    }
}

impl PartialEq for Function {
    fn eq(&self, other: &Self) -> (r: bool)
        decreases self,
    {
        (match ((&self.attributes), (&other.attributes)) { (Some(x), Some(y)) => x.eq(y), (None, None) => true, _ => false })
            && (*(&self.is_public) == *(&other.is_public))
            && ((&self.name).eq((&other.name)))
            && (match ((&self.generic_parameters), (&other.generic_parameters)) { (Some(x), Some(y)) => x.eq(y), (None, None) => true, _ => false })
            && ((&self.parameters).eq((&other.parameters)))
            && (match ((&self.return_type), (&other.return_type)) { (Some(x), Some(y)) => x.eq(y), (None, None) => true, _ => false })
            && (match ((&self.body), (&other.body)) { (Some(x), Some(y)) => x.eq(y), (None, None) => true, _ => false })
    }
}

impl PartialEqSpecImpl for Function {
    open spec fn obeys_eq_spec() -> bool {
        true
    }

    open spec fn eq_spec(&self, other: &Self) -> bool {
        self@ == other@
    }
}

impl PartialEq for Parameter {
    fn eq(&self, other: &Self) -> (r: bool)
        decreases self,
    {
        (*(&self.is_ref) == *(&other.is_ref))
            && (*(&self.is_mut) == *(&other.is_mut))
            && ((&self.name).eq((&other.name)))
            && (match ((&self.ty), (&other.ty)) { (Some(x), Some(y)) => x.eq(y), (None, None) => true, _ => false })
    }
}

impl PartialEqSpecImpl for Parameter {
    open spec fn obeys_eq_spec() -> bool {
        true
    }

    open spec fn eq_spec(&self, other: &Self) -> bool {
        self@ == other@
    }
}

impl PartialEq for ParameterList {
    fn eq(&self, other: &Self) -> (r: bool)
        decreases self,
    {
        (eq_parameters((&self.entries), (&other.entries)))
    }
}

impl PartialEqSpecImpl for ParameterList {
    open spec fn obeys_eq_spec() -> bool {
        true
    }

    open spec fn eq_spec(&self, other: &Self) -> bool {
        self@ == other@
    }
}

impl PartialEq for Impl {
    fn eq(&self, other: &Self) -> (r: bool)
        decreases self,
    {
        (match ((&self.generic_parameters), (&other.generic_parameters)) { (Some(x), Some(y)) => x.eq(y), (None, None) => true, _ => false })
            && ((&self.ty).eq((&other.ty)))
            && (match ((&self.for_type_name), (&other.for_type_name)) { (Some(x), Some(y)) => x.eq(y), (None, None) => true, _ => false })
            && (eq_impl_items((&self.items), (&other.items)))
    }
}

impl PartialEqSpecImpl for Impl {
    open spec fn obeys_eq_spec() -> bool {
        true
    }

    open spec fn eq_spec(&self, other: &Self) -> bool {
        self@ == other@
    }
}

impl PartialEq for ImplItem {
    fn eq(&self, other: &Self) -> (r: bool)
        decreases self,
    {
        match self {
            ImplItem::Constant(x0) => match other {
                ImplItem::Constant(x0_o) => (x0.eq(x0_o)),
                _ => false,
            },
            ImplItem::TypeDefinition(x0) => match other {
                ImplItem::TypeDefinition(x0_o) => (x0.eq(x0_o)),
                _ => false,
            },
            ImplItem::Function(x0) => match other {
                ImplItem::Function(x0_o) => (x0.eq(x0_o)),
                _ => false,
            },
        }
    }
}

impl PartialEqSpecImpl for ImplItem {
    open spec fn obeys_eq_spec() -> bool {
        true
    }

    open spec fn eq_spec(&self, other: &Self) -> bool {
        self@ == other@
    }
}

impl PartialEq for Block {
    fn eq(&self, other: &Self) -> (r: bool)
        decreases self,
    {
        (eq_statements((&self.statements), (&other.statements)))
            && (match ((&self.final_expr), (&other.final_expr)) { (Some(x), Some(y)) => x.eq(y), (None, None) => true, _ => false })
    }
}

impl PartialEqSpecImpl for Block {
    open spec fn obeys_eq_spec() -> bool {
        true
    }

    open spec fn eq_spec(&self, other: &Self) -> bool {
        self@ == other@
    }
}

impl PartialEq for Statement {
    fn eq(&self, other: &Self) -> (r: bool)
        decreases self,
    {
        match self {
            Statement::Let(x0) => match other {
                Statement::Let(x0_o) => (x0.eq(x0_o)),
                _ => false,
            },
            Statement::Expression(x0) => match other {
                Statement::Expression(x0_o) => (x0.eq(x0_o)),
                _ => false,
            },
        }
    }
}

impl PartialEqSpecImpl for Statement {
    open spec fn obeys_eq_spec() -> bool {
        true
    }

    open spec fn eq_spec(&self, other: &Self) -> bool {
        self@ == other@
    }
}

impl PartialEq for Let {
    fn eq(&self, other: &Self) -> (r: bool)
        decreases self,
    {
        ((&self.pattern).eq((&other.pattern)))
            && (match ((&self.ty), (&other.ty)) { (Some(x), Some(y)) => x.eq(y), (None, None) => true, _ => false })
            && ((&self.value).eq((&other.value)))
    }
}

impl PartialEqSpecImpl for Let {
    open spec fn obeys_eq_spec() -> bool {
        true
    }

    open spec fn eq_spec(&self, other: &Self) -> bool {
        self@ == other@
    }
}

impl PartialEq for LetPattern {
    fn eq(&self, other: &Self) -> (r: bool)
        decreases self,
    {
        match self {
            LetPattern::Identifier(x0) => match other {
                LetPattern::Identifier(x0_o) => (x0.eq(x0_o)),
                _ => false,
            },
            LetPattern::Tuple(x0) => match other {
                LetPattern::Tuple(x0_o) => (eq_let_identifiers(x0, x0_o)),
                _ => false,
            },
        }
    }
}

impl PartialEqSpecImpl for LetPattern {
    open spec fn obeys_eq_spec() -> bool {
        true
    }

    open spec fn eq_spec(&self, other: &Self) -> bool {
        self@ == other@
    }
}

impl PartialEq for LetIdentifier {
    fn eq(&self, other: &Self) -> (r: bool)
        decreases self,
    {
        (*(&self.is_mutable) == *(&other.is_mutable))
            && ((&self.name).eq((&other.name)))
    }
}

impl PartialEqSpecImpl for LetIdentifier {
    open spec fn obeys_eq_spec() -> bool {
        true
    }

    open spec fn eq_spec(&self, other: &Self) -> bool {
        self@ == other@
    }
}

impl PartialEq for Expression {
    fn eq(&self, other: &Self) -> (r: bool)
        decreases self,
    {
        match self {
            Expression::Literal(x0) => match other {
                Expression::Literal(x0_o) => (x0.eq(x0_o)),
                _ => false,
            },
            Expression::Identifier(x0) => match other {
                Expression::Identifier(x0_o) => (x0.eq(x0_o)),
                _ => false,
            },
            Expression::FunctionCall(x0) => match other {
                Expression::FunctionCall(x0_o) => ((&**x0).eq((&**x0_o))),
                _ => false,
            },
            Expression::Block(x0) => match other {
                Expression::Block(x0_o) => ((&**x0).eq((&**x0_o))),
                _ => false,
            },
            Expression::Return(x0) => match other {
                Expression::Return(x0_o) => (match (x0, x0_o) { (Some(x), Some(y)) => (&**x).eq((&**y)), (None, None) => true, _ => false }),
                _ => false,
            },
            Expression::Array(x0) => match other {
                Expression::Array(x0_o) => (x0.eq(x0_o)),
                _ => false,
            },
            Expression::ArrayAccess(x0) => match other {
                Expression::ArrayAccess(x0_o) => ((&**x0).eq((&**x0_o))),
                _ => false,
            },
            Expression::MemberAccess(x0) => match other {
                Expression::MemberAccess(x0_o) => ((&**x0).eq((&**x0_o))),
                _ => false,
            },
            Expression::Tuple(x0) => match other {
                Expression::Tuple(x0_o) => (eq_expressions(x0, x0_o)),
                _ => false,
            },
            Expression::If(x0) => match other {
                Expression::If(x0_o) => ((&**x0).eq((&**x0_o))),
                _ => false,
            },
            Expression::Match(x0) => match other {
                Expression::Match(x0_o) => ((&**x0).eq((&**x0_o))),
                _ => false,
            },
            Expression::While(x0) => match other {
                Expression::While(x0_o) => ((&**x0).eq((&**x0_o))),
                _ => false,
            },
            Expression::UnaryExpression(x0) => match other {
                Expression::UnaryExpression(x0_o) => ((&**x0).eq((&**x0_o))),
                _ => false,
            },
            Expression::BinaryExpression(x0) => match other {
                Expression::BinaryExpression(x0_o) => ((&**x0).eq((&**x0_o))),
                _ => false,
            },
            Expression::Constructor(x0) => match other {
                Expression::Constructor(x0_o) => ((&**x0).eq((&**x0_o))),
                _ => false,
            },
            Expression::Continue => match other { Expression::Continue => true, _ => false },
            Expression::Break => match other { Expression::Break => true, _ => false },
            Expression::AsmBlock(x0) => match other {
                Expression::AsmBlock(x0_o) => ((&**x0).eq((&**x0_o))),
                _ => false,
            },
            Expression::Commented(x0, x1) => match other {
                Expression::Commented(x0_o, x1_o) => (x0.eq(x0_o)) && ((&**x1).eq((&**x1_o))),
                _ => false,
            },
        }
    }
}

impl PartialEqSpecImpl for Expression {
    open spec fn obeys_eq_spec() -> bool {
        true
    }

    open spec fn eq_spec(&self, other: &Self) -> bool {
        self@ == other@
    }
}

impl PartialEq for FunctionCall {
    fn eq(&self, other: &Self) -> (r: bool)
        decreases self,
    {
        ((&self.function).eq((&other.function)))
            && (match ((&self.generic_parameters), (&other.generic_parameters)) { (Some(x), Some(y)) => x.eq(y), (None, None) => true, _ => false })
            && (eq_expressions((&self.parameters), (&other.parameters)))
    }
}

impl PartialEqSpecImpl for FunctionCall {
    open spec fn obeys_eq_spec() -> bool {
        true
    }

    open spec fn eq_spec(&self, other: &Self) -> bool {
        self@ == other@
    }
}

impl PartialEq for Array {
    fn eq(&self, other: &Self) -> (r: bool)
        decreases self,
    {
        (eq_expressions((&self.elements), (&other.elements)))
    }
}

impl PartialEqSpecImpl for Array {
    open spec fn obeys_eq_spec() -> bool {
        true
    }

    open spec fn eq_spec(&self, other: &Self) -> bool {
        self@ == other@
    }
}

impl PartialEq for ArrayAccess {
    fn eq(&self, other: &Self) -> (r: bool)
        decreases self,
    {
        ((&self.expression).eq((&other.expression)))
            && ((&self.index).eq((&other.index)))
    }
}

impl PartialEqSpecImpl for ArrayAccess {
    open spec fn obeys_eq_spec() -> bool {
        true
    }

    open spec fn eq_spec(&self, other: &Self) -> bool {
        self@ == other@
    }
}

impl PartialEq for MemberAccess {
    fn eq(&self, other: &Self) -> (r: bool)
        decreases self,
    {
        ((&self.expression).eq((&other.expression)))
            && ((&self.member).eq((&other.member)))
    }
}

impl PartialEqSpecImpl for MemberAccess {
    open spec fn obeys_eq_spec() -> bool {
        true
    }

    open spec fn eq_spec(&self, other: &Self) -> bool {
        self@ == other@
    }
}

impl PartialEq for If {
    fn eq(&self, other: &Self) -> (r: bool)
        decreases self,
    {
        (match ((&self.condition), (&other.condition)) { (Some(x), Some(y)) => x.eq(y), (None, None) => true, _ => false })
            && ((&self.then_body).eq((&other.then_body)))
            && (match ((&self.else_if), (&other.else_if)) { (Some(x), Some(y)) => (&**x).eq((&**y)), (None, None) => true, _ => false })
    }
}

impl PartialEqSpecImpl for If {
    open spec fn obeys_eq_spec() -> bool {
        true
    }

    open spec fn eq_spec(&self, other: &Self) -> bool {
        self@ == other@
    }
}

impl PartialEq for Match {
    fn eq(&self, other: &Self) -> (r: bool)
        decreases self,
    {
        ((&self.expression).eq((&other.expression)))
            && (eq_match_branches((&self.branches), (&other.branches)))
    }
}

impl PartialEqSpecImpl for Match {
    open spec fn obeys_eq_spec() -> bool {
        true
    }

    open spec fn eq_spec(&self, other: &Self) -> bool {
        self@ == other@
    }
}

impl PartialEq for MatchBranch {
    fn eq(&self, other: &Self) -> (r: bool)
        decreases self,
    {
        ((&self.pattern).eq((&other.pattern)))
            && ((&self.value).eq((&other.value)))
    }
}

impl PartialEqSpecImpl for MatchBranch {
    open spec fn obeys_eq_spec() -> bool {
        true
    }

    open spec fn eq_spec(&self, other: &Self) -> bool {
        self@ == other@
    }
}

impl PartialEq for While {
    fn eq(&self, other: &Self) -> (r: bool)
        decreases self,
    {
        ((&self.condition).eq((&other.condition)))
            && ((&self.body).eq((&other.body)))
    }
}

impl PartialEqSpecImpl for While {
    open spec fn obeys_eq_spec() -> bool {
        true
    }

    open spec fn eq_spec(&self, other: &Self) -> bool {
        self@ == other@
    }
}

impl PartialEq for UnaryExpression {
    fn eq(&self, other: &Self) -> (r: bool)
        decreases self,
    {
        ((&self.operator).eq((&other.operator)))
            && ((&self.expression).eq((&other.expression)))
    }
}

impl PartialEqSpecImpl for UnaryExpression {
    open spec fn obeys_eq_spec() -> bool {
        true
    }

    open spec fn eq_spec(&self, other: &Self) -> bool {
        self@ == other@
    }
}

impl PartialEq for BinaryExpression {
    fn eq(&self, other: &Self) -> (r: bool)
        decreases self,
    {
        ((&self.operator).eq((&other.operator)))
            && ((&self.lhs).eq((&other.lhs)))
            && ((&self.rhs).eq((&other.rhs)))
    }
}

impl PartialEqSpecImpl for BinaryExpression {
    open spec fn obeys_eq_spec() -> bool {
        true
    }

    open spec fn eq_spec(&self, other: &Self) -> bool {
        self@ == other@
    }
}

impl PartialEq for Constructor {
    fn eq(&self, other: &Self) -> (r: bool)
        decreases self,
    {
        ((&self.ty).eq((&other.ty)))
            && (eq_constructor_fields((&self.fields), (&other.fields)))
    }
}

impl PartialEqSpecImpl for Constructor {
    open spec fn obeys_eq_spec() -> bool {
        true
    }

    open spec fn eq_spec(&self, other: &Self) -> bool {
        self@ == other@
    }
}

impl PartialEq for ConstructorField {
    fn eq(&self, other: &Self) -> (r: bool)
        decreases self,
    {
        ((&self.name).eq((&other.name)))
            && ((&self.value).eq((&other.value)))
    }
}

impl PartialEqSpecImpl for ConstructorField {
    open spec fn obeys_eq_spec() -> bool {
        true
    }

    open spec fn eq_spec(&self, other: &Self) -> bool {
        self@ == other@
    }
}

impl PartialEq for AsmBlock {
    fn eq(&self, other: &Self) -> (r: bool)
        decreases self,
    {
        (eq_asm_registers((&self.registers), (&other.registers)))
            && (eq_asm_instructions((&self.instructions), (&other.instructions)))
            && (match ((&self.final_expression), (&other.final_expression)) { (Some(x), Some(y)) => x.eq(y), (None, None) => true, _ => false })
    }
}

impl PartialEqSpecImpl for AsmBlock {
    open spec fn obeys_eq_spec() -> bool {
        true
    }

    open spec fn eq_spec(&self, other: &Self) -> bool {
        self@ == other@
    }
}

impl PartialEq for AsmRegister {
    fn eq(&self, other: &Self) -> (r: bool)
        decreases self,
    {
        ((&self.name).eq((&other.name)))
            && (match ((&self.value), (&other.value)) { (Some(x), Some(y)) => x.eq(y), (None, None) => true, _ => false })
    }
}

impl PartialEqSpecImpl for AsmRegister {
    open spec fn obeys_eq_spec() -> bool {
        true
    }

    open spec fn eq_spec(&self, other: &Self) -> bool {
        self@ == other@
    }
}

impl PartialEq for AsmInstruction {
    fn eq(&self, other: &Self) -> (r: bool)
        decreases self,
    {
        ((&self.op_code).eq((&other.op_code)))
            && (eq_strings((&self.args), (&other.args)))
    }
}

impl PartialEqSpecImpl for AsmInstruction {
    open spec fn obeys_eq_spec() -> bool {
        true
    }

    open spec fn eq_spec(&self, other: &Self) -> bool {
        self@ == other@
    }
}

impl PartialEq for AsmFinalExpression {
    fn eq(&self, other: &Self) -> (r: bool)
        decreases self,
    {
        ((&self.register).eq((&other.register)))
            && (match ((&self.ty), (&other.ty)) { (Some(x), Some(y)) => x.eq(y), (None, None) => true, _ => false })
    }
}

impl PartialEqSpecImpl for AsmFinalExpression {
    open spec fn obeys_eq_spec() -> bool {
        true
    }

    open spec fn eq_spec(&self, other: &Self) -> bool {
        self@ == other@
    }
}

} // verus!
