//! The text of the nodes of the tree.
//!
//! A node is either shown, if its text has no line breaks, or rendered at
//! a depth: the lines that it starts after its first are indented by four
//! spaces for each level of depth. Each function that builds a text is
//! stated against the text as a value.

use vstd::prelude::*;
use crate::sway::{
    Abi, Array, ArrayAccess, AsmBlock, AsmFinalExpression, AsmInstruction, AsmRegister, Attribute,
    AttributeList, BinaryExpression, Block, Configurable, ConfigurableField, Constant, Constructor,
    ConstructorField, Enum, EnumVariant, Expression, Function, FunctionCall, GenericParameter,
    GenericParameterList, If, Impl, ImplItem, Let, LetIdentifier, LetPattern, Literal, Match, MatchBranch,
    MemberAccess, Module, ModuleItem, ModuleKind, Parameter, ParameterList, Statement, Storage, StorageField,
    Struct, StructField, Trait, TraitItem, TypeDefinition, TypeName, UnaryExpression, Use, UseTree, While,
};
use crate::sway::model::{
    AbiView, ArrayAccessView, ArrayView, asm_instruction_models, asm_register_models, AsmBlockView,
    AsmFinalExpressionView, AsmInstructionView, AsmRegisterView, attribute_models, AttributeListView,
    AttributeView, BinaryExpressionView, BlockView, configurable_field_models, ConfigurableFieldView,
    ConfigurableView, ConstantView, constructor_field_models, ConstructorFieldView, ConstructorView,
    enum_variant_models, EnumVariantView, EnumView, expression_models, ExpressionView, function_models,
    FunctionCallView, FunctionView, generic_parameter_models, GenericParameterListView, GenericParameterView,
    IfView, impl_item_models, ImplItemView, ImplView, let_identifier_models, LetIdentifierView,
    LetPatternView, LetView, LiteralView, match_branch_models, MatchBranchView, MatchView, MemberAccessView,
    module_item_models, ModuleItemView, ModuleKindView, ModuleView, parameter_models, ParameterListView,
    ParameterView, statement_models, StatementView, storage_field_models, StorageFieldView, StorageView,
    string_views, struct_field_models, StructFieldView, StructView, trait_item_models, TraitItemView,
    TraitView, type_name_models, TypeDefinitionView, TypeNameView, UnaryExpressionView, use_tree_models,
    UseTreeView, UseView, WhileView,
};
use crate::text::{decimal_digits, decimal_text, text};

verus! {

/// The depth one level further in, as far as depths go.
pub open spec fn deeper(depth: usize) -> usize {
    if depth < usize::MAX {
        (depth + 1) as usize
    } else {
        depth
    }
}

/// The indentation of a line at the given depth: four spaces for each
/// level.
pub open spec fn indentation(depth: usize) -> Seq<char>
    decreases depth,
{
    if depth == 0 {
        Seq::empty()
    } else {
        indentation((depth - 1) as usize) + "    "@
    }
}

/// The hexadecimal digits of a number in upper case, most significant
/// first.
pub open spec fn hex_digits(n: nat) -> Seq<char>
    decreases n,
{
    if n < 16 {
        "0123456789ABCDEF"@.subrange(n as int, n as int + 1)
    } else {
        hex_digits(n / 16) + "0123456789ABCDEF"@.subrange((n % 16) as int, (n % 16) as int + 1)
    }
}

/// Whether an expression ends with a block, so that no semicolon follows
/// it as a statement.
pub open spec fn ends_with_block(e: ExpressionView) -> bool {
    e is Block || e is If || e is Match || e is While || e is AsmBlock
}

/// The separator before an item of an impl block: nothing before the
/// first item and between two constants, and a blank line otherwise.
pub open spec fn impl_item_separator(s: Seq<ImplItemView>) -> Seq<char> {
    if s.len() > 1 && !(s[s.len() - 2] is Constant && s.last() is Constant) {
        "\n"@
    } else {
        Seq::empty()
    }
}

/// The items of an impl block, each on lines of its own.
pub open spec fn rendered_impl_items(s: Seq<ImplItemView>, depth: usize) -> Seq<char>
    decreases s,
{
    if s.len() == 0 {
        Seq::empty()
    } else {
        rendered_impl_items(s.drop_last(), depth) + impl_item_separator(s) + (Seq::<char>::empty() + indentation(
                deeper(depth),
            ) + rendered_impl_item(s.last(), deeper(depth)) + "\n"@)
    }
}

/// The elements in order, separated by `, `.
pub open spec fn shown_texts_with_commas(s: Seq<Seq<char>>, depth: usize) -> Seq<char>
    decreases s,
{
    if s.len() == 0 {
        Seq::empty()
    } else {
        shown_texts_with_commas(s.drop_last(), depth) + (if s.len() > 1 { ", "@ } else { Seq::<char>::empty() }) + (Seq::<char>::empty() + s.last())
    }
}

/// The elements in order, separated by ` + `.
pub open spec fn shown_texts_with_plus(s: Seq<Seq<char>>, depth: usize) -> Seq<char>
    decreases s,
{
    if s.len() == 0 {
        Seq::empty()
    } else {
        shown_texts_with_plus(s.drop_last(), depth) + (if s.len() > 1 { " + "@ } else { Seq::<char>::empty() }) + (Seq::<char>::empty() + s.last())
    }
}

/// The elements in order.
pub open spec fn shown_arguments(s: Seq<Seq<char>>, depth: usize) -> Seq<char>
    decreases s,
{
    if s.len() == 0 {
        Seq::empty()
    } else {
        shown_arguments(s.drop_last(), depth) + (if s.len() > 1 { ""@ } else { Seq::<char>::empty() }) + (Seq::<char>::empty() + " "@ + s.last())
    }
}

/// The elements in order, separated by `, `.
pub open spec fn shown_use_trees(s: Seq<UseTreeView>, depth: usize) -> Seq<char>
    decreases s,
{
    if s.len() == 0 {
        Seq::empty()
    } else {
        shown_use_trees(s.drop_last(), depth) + (if s.len() > 1 { ", "@ } else { Seq::<char>::empty() }) + (Seq::<char>::empty() + shown_use_tree(s.last()))
    }
}

/// The elements in order, separated by ` + `.
pub open spec fn shown_bounds(s: Seq<TypeNameView>, depth: usize) -> Seq<char>
    decreases s,
{
    if s.len() == 0 {
        Seq::empty()
    } else {
        shown_bounds(s.drop_last(), depth) + (if s.len() > 1 { " + "@ } else { Seq::<char>::empty() }) + (Seq::<char>::empty() + shown_type_name(s.last()))
    }
}

/// The elements in order, separated by `, `.
pub open spec fn shown_type_names(s: Seq<TypeNameView>, depth: usize) -> Seq<char>
    decreases s,
{
    if s.len() == 0 {
        Seq::empty()
    } else {
        shown_type_names(s.drop_last(), depth) + (if s.len() > 1 { ", "@ } else { Seq::<char>::empty() }) + (Seq::<char>::empty() + shown_type_name(s.last()))
    }
}

/// The elements in order, separated by `, `.
pub open spec fn shown_generic_parameters(s: Seq<GenericParameterView>, depth: usize) -> Seq<char>
    decreases s,
{
    if s.len() == 0 {
        Seq::empty()
    } else {
        shown_generic_parameters(s.drop_last(), depth) + (if s.len() > 1 { ", "@ } else { Seq::<char>::empty() }) + (Seq::<char>::empty() + shown_generic_parameter(s.last()))
    }
}

/// The elements in order, separated by `, `.
pub open spec fn shown_attributes(s: Seq<AttributeView>, depth: usize) -> Seq<char>
    decreases s,
{
    if s.len() == 0 {
        Seq::empty()
    } else {
        shown_attributes(s.drop_last(), depth) + (if s.len() > 1 { ", "@ } else { Seq::<char>::empty() }) + (Seq::<char>::empty() + shown_attribute(s.last()))
    }
}

/// The elements in order, separated by `, `.
pub open spec fn shown_parameters(s: Seq<ParameterView>, depth: usize) -> Seq<char>
    decreases s,
{
    if s.len() == 0 {
        Seq::empty()
    } else {
        shown_parameters(s.drop_last(), depth) + (if s.len() > 1 { ", "@ } else { Seq::<char>::empty() }) + (Seq::<char>::empty() + shown_parameter(s.last()))
    }
}

/// The elements in order, separated by `, `.
pub open spec fn shown_let_identifiers(s: Seq<LetIdentifierView>, depth: usize) -> Seq<char>
    decreases s,
{
    if s.len() == 0 {
        Seq::empty()
    } else {
        shown_let_identifiers(s.drop_last(), depth) + (if s.len() > 1 { ", "@ } else { Seq::<char>::empty() }) + (Seq::<char>::empty() + shown_let_identifier(s.last()))
    }
}

/// The elements in order, separated by `\n`.
pub open spec fn rendered_module_items(s: Seq<ModuleItemView>, depth: usize) -> Seq<char>
    decreases s,
{
    if s.len() == 0 {
        Seq::empty()
    } else {
        rendered_module_items(s.drop_last(), depth) + (if s.len() > 1 { "\n"@ } else { Seq::<char>::empty() }) + (Seq::<char>::empty() + rendered_module_item(s.last(), depth) + "\n"@)
    }
}

/// The elements in order.
pub open spec fn rendered_struct_fields(s: Seq<StructFieldView>, depth: usize) -> Seq<char>
    decreases s,
{
    if s.len() == 0 {
        Seq::empty()
    } else {
        rendered_struct_fields(s.drop_last(), depth) + (if s.len() > 1 { ""@ } else { Seq::<char>::empty() }) + (Seq::<char>::empty() + indentation(deeper(depth)) + shown_struct_field(s.last()) + ",\n"@)
    }
}

/// The elements in order.
pub open spec fn rendered_enum_variants(s: Seq<EnumVariantView>, depth: usize) -> Seq<char>
    decreases s,
{
    if s.len() == 0 {
        Seq::empty()
    } else {
        rendered_enum_variants(s.drop_last(), depth) + (if s.len() > 1 { ""@ } else { Seq::<char>::empty() }) + (Seq::<char>::empty() + indentation(deeper(depth)) + shown_enum_variant(s.last()) + ",\n"@)
    }
}

/// The elements in order, separated by `\n`.
pub open spec fn rendered_abi_functions(s: Seq<FunctionView>, depth: usize) -> Seq<char>
    decreases s,
{
    if s.len() == 0 {
        Seq::empty()
    } else {
        rendered_abi_functions(s.drop_last(), depth) + (if s.len() > 1 { "\n"@ } else { Seq::<char>::empty() }) + (Seq::<char>::empty() + indentation(deeper(depth)) + rendered_function(s.last(), deeper(depth)) + "\n"@)
    }
}

/// The elements in order.
pub open spec fn rendered_trait_items(s: Seq<TraitItemView>, depth: usize) -> Seq<char>
    decreases s,
{
    if s.len() == 0 {
        Seq::empty()
    } else {
        rendered_trait_items(s.drop_last(), depth) + (if s.len() > 1 { ""@ } else { Seq::<char>::empty() }) + (Seq::<char>::empty() + indentation(deeper(depth)) + rendered_trait_item(s.last(), deeper(depth)))
    }
}

/// The elements in order.
pub open spec fn rendered_storage_fields(s: Seq<StorageFieldView>, depth: usize) -> Seq<char>
    decreases s,
{
    if s.len() == 0 {
        Seq::empty()
    } else {
        rendered_storage_fields(s.drop_last(), depth) + (if s.len() > 1 { ""@ } else { Seq::<char>::empty() }) + (Seq::<char>::empty() + indentation(deeper(depth)) + rendered_storage_field(s.last(), deeper(depth)) + ",\n"@)
    }
}

/// The elements in order.
pub open spec fn rendered_configurable_fields(s: Seq<ConfigurableFieldView>, depth: usize) -> Seq<char>
    decreases s,
{
    if s.len() == 0 {
        Seq::empty()
    } else {
        rendered_configurable_fields(s.drop_last(), depth) + (if s.len() > 1 { ""@ } else { Seq::<char>::empty() }) + (Seq::<char>::empty() + indentation(deeper(depth)) + rendered_configurable_field(s.last(), deeper(depth)) + ",\n"@)
    }
}

/// The elements in order.
pub open spec fn rendered_statements(s: Seq<StatementView>, depth: usize) -> Seq<char>
    decreases s,
{
    if s.len() == 0 {
        Seq::empty()
    } else {
        rendered_statements(s.drop_last(), depth) + (if s.len() > 1 { ""@ } else { Seq::<char>::empty() }) + (Seq::<char>::empty() + indentation(deeper(depth)) + rendered_statement(s.last(), deeper(depth)) + "\n"@)
    }
}

/// The elements in order, separated by `, `.
pub open spec fn rendered_expressions(s: Seq<ExpressionView>, depth: usize) -> Seq<char>
    decreases s,
{
    if s.len() == 0 {
        Seq::empty()
    } else {
        rendered_expressions(s.drop_last(), depth) + (if s.len() > 1 { ", "@ } else { Seq::<char>::empty() }) + (Seq::<char>::empty() + rendered_expression(s.last(), depth))
    }
}

/// The elements in order.
pub open spec fn rendered_match_branches(s: Seq<MatchBranchView>, depth: usize) -> Seq<char>
    decreases s,
{
    if s.len() == 0 {
        Seq::empty()
    } else {
        rendered_match_branches(s.drop_last(), depth) + (if s.len() > 1 { ""@ } else { Seq::<char>::empty() }) + (Seq::<char>::empty() + indentation(deeper(depth)) + rendered_match_branch(s.last(), deeper(depth)) + "\n"@)
    }
}

/// The elements in order.
pub open spec fn rendered_constructor_fields(s: Seq<ConstructorFieldView>, depth: usize) -> Seq<char>
    decreases s,
{
    if s.len() == 0 {
        Seq::empty()
    } else {
        rendered_constructor_fields(s.drop_last(), depth) + (if s.len() > 1 { ""@ } else { Seq::<char>::empty() }) + (Seq::<char>::empty() + indentation(deeper(depth)) + rendered_constructor_field(s.last(), deeper(depth)) + "\n"@)
    }
}

/// The elements in order, separated by `, `.
pub open spec fn rendered_asm_registers(s: Seq<AsmRegisterView>, depth: usize) -> Seq<char>
    decreases s,
{
    if s.len() == 0 {
        Seq::empty()
    } else {
        rendered_asm_registers(s.drop_last(), depth) + (if s.len() > 1 { ", "@ } else { Seq::<char>::empty() }) + (Seq::<char>::empty() + rendered_asm_register(s.last(), depth))
    }
}

/// The elements in order.
pub open spec fn rendered_asm_instructions(s: Seq<AsmInstructionView>, depth: usize) -> Seq<char>
    decreases s,
{
    if s.len() == 0 {
        Seq::empty()
    } else {
        rendered_asm_instructions(s.drop_last(), depth) + (if s.len() > 1 { ""@ } else { Seq::<char>::empty() }) + (Seq::<char>::empty() + indentation(deeper(depth)) + shown_asm_instruction(s.last()) + "\n"@)
    }
}

/// The keyword of a kind of module.
pub open spec fn shown_module_kind(x: ModuleKindView) -> Seq<char>
    decreases x,
{
    match x {
        ModuleKindView::Contract => Seq::<char>::empty() + "contract"@,
        ModuleKindView::Library => Seq::<char>::empty() + "library"@,
        ModuleKindView::Script => Seq::<char>::empty() + "script"@,
        ModuleKindView::Predicate => Seq::<char>::empty() + "predicate"@,
    }
}

/// A module: its kind, then its items with a blank line between them.
pub open spec fn rendered_module(x: ModuleView, depth: usize) -> Seq<char>
    decreases x,
{
    Seq::<char>::empty() + shown_module_kind(x.kind) + ";\n"@ + "\n"@ + rendered_module_items(x.items, depth)
}

/// An item of a module.
pub open spec fn rendered_module_item(x: ModuleItemView, depth: usize) -> Seq<char>
    decreases x,
{
    match x {
        ModuleItemView::Use(x0) => Seq::<char>::empty() + indentation(depth) + shown_use(x0),
        ModuleItemView::TypeDefinition(x0) => Seq::<char>::empty() + indentation(depth) + shown_type_definition(x0),
        ModuleItemView::Constant(x0) => Seq::<char>::empty() + rendered_constant(x0, depth),
        ModuleItemView::Struct(x0) => Seq::<char>::empty() + rendered_struct(x0, depth),
        ModuleItemView::Enum(x0) => Seq::<char>::empty() + rendered_enum(x0, depth),
        ModuleItemView::Abi(x0) => Seq::<char>::empty() + rendered_abi(x0, depth),
        ModuleItemView::Trait(x0) => Seq::<char>::empty() + rendered_trait(x0, depth),
        ModuleItemView::Storage(x0) => Seq::<char>::empty() + rendered_storage(x0, depth),
        ModuleItemView::Configurable(x0) => Seq::<char>::empty() + rendered_configurable(x0, depth),
        ModuleItemView::Function(x0) => Seq::<char>::empty() + rendered_function(x0, depth),
        ModuleItemView::Impl(x0) => Seq::<char>::empty() + rendered_impl(x0, depth),
    }
}

/// A `use` declaration.
pub open spec fn shown_use(x: UseView) -> Seq<char>
    decreases x,
{
    Seq::<char>::empty() + (if x.is_public { Seq::<char>::empty() + "pub "@ } else { Seq::<char>::empty() }) + "use "@ + shown_use_tree(x.tree) + ";"@
}

/// The path of an import.
pub open spec fn shown_use_tree(x: UseTreeView) -> Seq<char>
    decreases x,
{
    match x {
        UseTreeView::Path { prefix, suffix } => Seq::<char>::empty() + prefix + "::"@ + shown_use_tree(*suffix),
        UseTreeView::Group { imports } => Seq::<char>::empty() + "{"@ + shown_use_trees(imports, 0) + "}"@,
        UseTreeView::Name { name } => Seq::<char>::empty() + name,
        UseTreeView::Rename { name, alias } => Seq::<char>::empty() + name + " as "@ + alias,
        UseTreeView::Glob => Seq::<char>::empty() + "*"@,
    }
}

/// A generic parameter, with its bounds.
pub open spec fn shown_generic_parameter(x: GenericParameterView) -> Seq<char>
    decreases x,
{
    Seq::<char>::empty() + shown_type_name(x.ty) + (match x.implements { Some(bounds) => Seq::<char>::empty() + ": "@ + shown_bounds(bounds, 0), None => Seq::<char>::empty() })
}

/// Generic parameters between angle brackets.
pub open spec fn shown_generic_parameter_list(x: GenericParameterListView) -> Seq<char>
    decreases x,
{
    Seq::<char>::empty() + "<"@ + shown_generic_parameters(x.entries, 0) + ">"@
}

/// An attribute, with its parameters.
pub open spec fn shown_attribute(x: AttributeView) -> Seq<char>
    decreases x,
{
    Seq::<char>::empty() + x.name + (match x.parameters { Some(p) => Seq::<char>::empty() + "("@ + shown_texts_with_commas(p, 0) + ")"@, None => Seq::<char>::empty() })
}

/// A line of attributes.
pub open spec fn shown_attribute_list(x: AttributeListView) -> Seq<char>
    decreases x,
{
    Seq::<char>::empty() + "#["@ + shown_attributes(x.attributes, 0) + "]"@
}

/// The name of a type. The undefined type is written `_`.
pub open spec fn shown_type_name(x: TypeNameView) -> Seq<char>
    decreases x,
{
    match x {
        TypeNameView::Undefined => Seq::<char>::empty() + "_"@,
        TypeNameView::Identifier { name, generic_parameters } => Seq::<char>::empty() + name + (match generic_parameters { Some(g) => Seq::<char>::empty() + shown_generic_parameter_list(g), None => Seq::<char>::empty() }),
        TypeNameView::Array { ty, length } => Seq::<char>::empty() + "["@ + shown_type_name(*ty) + "; "@ + decimal_digits(length as nat) + "]"@,
        TypeNameView::Tuple { type_names } => Seq::<char>::empty() + "("@ + shown_type_names(type_names, 0) + ")"@,
        TypeNameView::StringSlice => Seq::<char>::empty() + "str"@,
        TypeNameView::StringArray { length } => Seq::<char>::empty() + "str["@ + decimal_digits(length as nat) + "]"@,
    }
}

/// A type alias.
pub open spec fn shown_type_definition(x: TypeDefinitionView) -> Seq<char>
    decreases x,
{
    Seq::<char>::empty() + (if x.is_public { Seq::<char>::empty() + "pub "@ } else { Seq::<char>::empty() }) + "type "@ + shown_type_name(x.name) + (match x.underlying_type { Some(u) => Seq::<char>::empty() + " = "@ + shown_type_name(u), None => Seq::<char>::empty() }) + ";"@
}

/// A constant.
pub open spec fn rendered_constant(x: ConstantView, depth: usize) -> Seq<char>
    decreases x,
{
    Seq::<char>::empty() + (if x.is_public { Seq::<char>::empty() + "pub "@ } else { Seq::<char>::empty() }) + "const "@ + x.name + ": "@ + shown_type_name(x.ty) + (match x.value { Some(v) => Seq::<char>::empty() + " = "@ + rendered_expression(v, depth), None => Seq::<char>::empty() }) + ";"@
}

/// A literal: hexadecimal integers in upper case, strings between double quotes.
pub open spec fn shown_literal(x: LiteralView) -> Seq<char>
    decreases x,
{
    match x {
        LiteralView::Bool(x0) => Seq::<char>::empty() + (if x0 { Seq::<char>::empty() + "true"@ } else { Seq::<char>::empty() + "false"@ }),
        LiteralView::DecInt(x0) => Seq::<char>::empty() + decimal_digits(x0 as nat),
        LiteralView::HexInt(x0) => Seq::<char>::empty() + "0x"@ + hex_digits(x0 as nat),
        LiteralView::String(x0) => Seq::<char>::empty() + "\""@ + x0 + "\""@,
    }
}

/// A struct, one field on each line.
pub open spec fn rendered_struct(x: StructView, depth: usize) -> Seq<char>
    decreases x,
{
    Seq::<char>::empty() + (match x.attributes { Some(a) => Seq::<char>::empty() + shown_attribute_list(a) + "\n"@ + indentation(depth), None => Seq::<char>::empty() }) + (if x.is_public { Seq::<char>::empty() + "pub "@ } else { Seq::<char>::empty() }) + "struct "@ + x.name + (match x.generic_parameters { Some(g) => Seq::<char>::empty() + shown_generic_parameter_list(g), None => Seq::<char>::empty() }) + " {\n"@ + rendered_struct_fields(x.fields, depth) + indentation(depth) + "}"@
}

/// A field of a struct.
pub open spec fn shown_struct_field(x: StructFieldView) -> Seq<char>
    decreases x,
{
    Seq::<char>::empty() + (if x.is_public { Seq::<char>::empty() + "pub "@ } else { Seq::<char>::empty() }) + x.name + ": "@ + shown_type_name(x.ty)
}

/// An enum, one variant on each line.
pub open spec fn rendered_enum(x: EnumView, depth: usize) -> Seq<char>
    decreases x,
{
    Seq::<char>::empty() + (match x.attributes { Some(a) => Seq::<char>::empty() + shown_attribute_list(a) + "\n"@ + indentation(depth), None => Seq::<char>::empty() }) + (if x.is_public { Seq::<char>::empty() + "pub "@ } else { Seq::<char>::empty() }) + "enum "@ + x.name + (match x.generic_parameters { Some(g) => Seq::<char>::empty() + shown_generic_parameter_list(g), None => Seq::<char>::empty() }) + " {\n"@ + rendered_enum_variants(x.variants, depth) + indentation(depth) + "}"@
}

/// A variant of an enum.
pub open spec fn shown_enum_variant(x: EnumVariantView) -> Seq<char>
    decreases x,
{
    Seq::<char>::empty() + x.name + ": "@ + shown_type_name(x.ty)
}

/// An abi, with a blank line between its functions.
pub open spec fn rendered_abi(x: AbiView, depth: usize) -> Seq<char>
    decreases x,
{
    Seq::<char>::empty() + "abi "@ + x.name + (if x.inherits.len() > 0 { Seq::<char>::empty() + ": "@ + shown_texts_with_plus(x.inherits, depth) } else { Seq::<char>::empty() }) + " {\n"@ + rendered_abi_functions(x.functions, depth) + indentation(depth) + "}"@
}

/// A trait.
pub open spec fn rendered_trait(x: TraitView, depth: usize) -> Seq<char>
    decreases x,
{
    Seq::<char>::empty() + (match x.attributes { Some(a) => Seq::<char>::empty() + shown_attribute_list(a) + "\n"@ + indentation(depth), None => Seq::<char>::empty() }) + (if x.is_public { Seq::<char>::empty() + "pub "@ } else { Seq::<char>::empty() }) + "trait "@ + x.name + (match x.generic_parameters { Some(g) => Seq::<char>::empty() + shown_generic_parameter_list(g), None => Seq::<char>::empty() }) + " {\n"@ + rendered_trait_items(x.items, depth) + indentation(depth) + "}"@
}

/// An item of a trait.
pub open spec fn rendered_trait_item(x: TraitItemView, depth: usize) -> Seq<char>
    decreases x,
{
    match x {
        TraitItemView::Constant(x0) => Seq::<char>::empty() + rendered_constant(x0, depth),
        TraitItemView::TypeName(x0) => Seq::<char>::empty() + indentation(depth) + shown_generic_parameter(x0),
        TraitItemView::Function(x0) => Seq::<char>::empty() + rendered_function(x0, depth),
    }
}

/// The storage block, one field on each line.
pub open spec fn rendered_storage(x: StorageView, depth: usize) -> Seq<char>
    decreases x,
{
    Seq::<char>::empty() + "storage {\n"@ + rendered_storage_fields(x.fields, depth) + indentation(depth) + "}"@
}

/// A field of the storage block.
pub open spec fn rendered_storage_field(x: StorageFieldView, depth: usize) -> Seq<char>
    decreases x,
{
    Seq::<char>::empty() + x.name + ": "@ + shown_type_name(x.ty) + " = "@ + rendered_expression(x.value, depth)
}

/// The configurable block, one field on each line.
pub open spec fn rendered_configurable(x: ConfigurableView, depth: usize) -> Seq<char>
    decreases x,
{
    Seq::<char>::empty() + "configurable {\n"@ + rendered_configurable_fields(x.fields, depth) + "}\n"@
}

/// A field of the configurable block.
pub open spec fn rendered_configurable_field(x: ConfigurableFieldView, depth: usize) -> Seq<char>
    decreases x,
{
    Seq::<char>::empty() + x.name + ": "@ + shown_type_name(x.ty) + " = "@ + rendered_expression(x.value, depth)
}

/// A function: its signature, then its body or a semicolon.
pub open spec fn rendered_function(x: FunctionView, depth: usize) -> Seq<char>
    decreases x,
{
    Seq::<char>::empty() + (match x.attributes { Some(a) => Seq::<char>::empty() + shown_attribute_list(a) + "\n"@ + indentation(depth), None => Seq::<char>::empty() }) + (if x.is_public { Seq::<char>::empty() + "pub "@ } else { Seq::<char>::empty() }) + "fn "@ + x.name + (match x.generic_parameters { Some(g) => Seq::<char>::empty() + shown_generic_parameter_list(g), None => Seq::<char>::empty() }) + shown_parameter_list(x.parameters) + (match x.return_type { Some(r) => Seq::<char>::empty() + " -> "@ + shown_type_name(r), None => Seq::<char>::empty() }) + (match x.body { Some(b) => Seq::<char>::empty() + " "@ + rendered_block(b, depth), None => Seq::<char>::empty() + ";"@ })
}

/// A parameter.
pub open spec fn shown_parameter(x: ParameterView) -> Seq<char>
    decreases x,
{
    Seq::<char>::empty() + (if x.is_ref { Seq::<char>::empty() + "ref "@ } else { Seq::<char>::empty() }) + (if x.is_mut { Seq::<char>::empty() + "mut "@ } else { Seq::<char>::empty() }) + x.name + (match x.ty { Some(t) => Seq::<char>::empty() + ": "@ + shown_type_name(t), None => Seq::<char>::empty() })
}

/// Parameters between round brackets.
pub open spec fn shown_parameter_list(x: ParameterListView) -> Seq<char>
    decreases x,
{
    Seq::<char>::empty() + "("@ + shown_parameters(x.entries, 0) + ")"@
}

/// An impl block, with a blank line between its items but not between two constants.
pub open spec fn rendered_impl(x: ImplView, depth: usize) -> Seq<char>
    decreases x,
{
    Seq::<char>::empty() + "impl"@ + (match x.generic_parameters { Some(g) => Seq::<char>::empty() + shown_generic_parameter_list(g), None => Seq::<char>::empty() }) + " "@ + shown_type_name(x.ty) + (match x.for_type_name { Some(t) => Seq::<char>::empty() + " for "@ + shown_type_name(t), None => Seq::<char>::empty() }) + " {\n"@ + rendered_impl_items(x.items, depth) + "}"@
}

/// An item of an impl block.
pub open spec fn rendered_impl_item(x: ImplItemView, depth: usize) -> Seq<char>
    decreases x,
{
    match x {
        ImplItemView::Constant(x0) => Seq::<char>::empty() + rendered_constant(x0, depth),
        ImplItemView::TypeDefinition(x0) => Seq::<char>::empty() + indentation(depth) + shown_type_definition(x0),
        ImplItemView::Function(x0) => Seq::<char>::empty() + rendered_function(x0, depth),
    }
}

/// A block: each statement and the final expression on a line of its own.
pub open spec fn rendered_block(x: BlockView, depth: usize) -> Seq<char>
    decreases x,
{
    Seq::<char>::empty() + "{\n"@ + rendered_statements(x.statements, depth) + (match x.final_expr { Some(e) => Seq::<char>::empty() + indentation(deeper(depth)) + rendered_expression(e, deeper(depth)) + "\n"@, None => Seq::<char>::empty() }) + indentation(depth) + "}"@
}

/// A statement; a semicolon ends it unless it ends with a block.
pub open spec fn rendered_statement(x: StatementView, depth: usize) -> Seq<char>
    decreases x,
{
    match x {
        StatementView::Let(x0) => Seq::<char>::empty() + rendered_let(x0, depth) + ";"@,
        StatementView::Expression(x0) => Seq::<char>::empty() + rendered_expression(x0, depth) + (if ends_with_block(x0) { Seq::<char>::empty() } else { Seq::<char>::empty() + ";"@ }),
    }
}

/// A `let` declaration.
pub open spec fn rendered_let(x: LetView, depth: usize) -> Seq<char>
    decreases x,
{
    Seq::<char>::empty() + "let "@ + shown_let_pattern(x.pattern) + (match x.ty { Some(t) => Seq::<char>::empty() + ": "@ + shown_type_name(t), None => Seq::<char>::empty() }) + " = "@ + rendered_expression(x.value, depth)
}

/// The pattern of a `let` declaration.
pub open spec fn shown_let_pattern(x: LetPatternView) -> Seq<char>
    decreases x,
{
    match x {
        LetPatternView::Identifier(x0) => Seq::<char>::empty() + shown_let_identifier(x0),
        LetPatternView::Tuple(x0) => Seq::<char>::empty() + "("@ + shown_let_identifiers(x0, 0) + ")"@,
    }
}

/// A name bound by a `let` declaration.
pub open spec fn shown_let_identifier(x: LetIdentifierView) -> Seq<char>
    decreases x,
{
    Seq::<char>::empty() + (if x.is_mutable { Seq::<char>::empty() + "mut "@ } else { Seq::<char>::empty() }) + x.name
}

/// An expression.
pub open spec fn rendered_expression(x: ExpressionView, depth: usize) -> Seq<char>
    decreases x,
{
    match x {
        ExpressionView::Literal(x0) => Seq::<char>::empty() + shown_literal(x0),
        ExpressionView::Identifier(x0) => Seq::<char>::empty() + x0,
        ExpressionView::FunctionCall(x0) => Seq::<char>::empty() + rendered_function_call(*x0, depth),
        ExpressionView::Block(x0) => Seq::<char>::empty() + rendered_block(*x0, depth),
        ExpressionView::Return(x0) => Seq::<char>::empty() + "return"@ + (match x0 { Some(v) => Seq::<char>::empty() + " "@ + rendered_expression(*v, depth), None => Seq::<char>::empty() }),
        ExpressionView::Array(x0) => Seq::<char>::empty() + rendered_array(x0, depth),
        ExpressionView::ArrayAccess(x0) => Seq::<char>::empty() + rendered_array_access(*x0, depth),
        ExpressionView::MemberAccess(x0) => Seq::<char>::empty() + rendered_member_access(*x0, depth),
        ExpressionView::Tuple(x0) => Seq::<char>::empty() + "("@ + rendered_expressions(x0, depth) + ")"@,
        ExpressionView::If(x0) => Seq::<char>::empty() + rendered_if(*x0, depth),
        ExpressionView::Match(x0) => Seq::<char>::empty() + rendered_match(*x0, depth),
        ExpressionView::While(x0) => Seq::<char>::empty() + rendered_while(*x0, depth),
        ExpressionView::UnaryExpression(x0) => Seq::<char>::empty() + rendered_unary_expression(*x0, depth),
        ExpressionView::BinaryExpression(x0) => Seq::<char>::empty() + rendered_binary_expression(*x0, depth),
        ExpressionView::Constructor(x0) => Seq::<char>::empty() + rendered_constructor(*x0, depth),
        ExpressionView::Continue => Seq::<char>::empty() + "continue"@,
        ExpressionView::Break => Seq::<char>::empty() + "break"@,
        ExpressionView::AsmBlock(x0) => Seq::<char>::empty() + rendered_asm_block(*x0, depth),
        ExpressionView::Commented(x0, x1) => Seq::<char>::empty() + "/*"@ + x0 + "*/ "@ + rendered_expression(*x1, depth),
    }
}

/// A call.
pub open spec fn rendered_function_call(x: FunctionCallView, depth: usize) -> Seq<char>
    decreases x,
{
    Seq::<char>::empty() + rendered_expression(x.function, depth) + (match x.generic_parameters { Some(g) => Seq::<char>::empty() + "::"@ + shown_generic_parameter_list(g), None => Seq::<char>::empty() }) + "("@ + rendered_expressions(x.parameters, depth) + ")"@
}

/// An array literal.
pub open spec fn rendered_array(x: ArrayView, depth: usize) -> Seq<char>
    decreases x,
{
    Seq::<char>::empty() + "["@ + rendered_expressions(x.elements, depth) + "]"@
}

/// An indexing expression.
pub open spec fn rendered_array_access(x: ArrayAccessView, depth: usize) -> Seq<char>
    decreases x,
{
    Seq::<char>::empty() + rendered_expression(x.expression, depth) + "["@ + rendered_expression(x.index, depth) + "]"@
}

/// A member access.
pub open spec fn rendered_member_access(x: MemberAccessView, depth: usize) -> Seq<char>
    decreases x,
{
    Seq::<char>::empty() + rendered_expression(x.expression, depth) + "."@ + x.member
}

/// A conditional and what follows its `else`.
pub open spec fn rendered_if(x: IfView, depth: usize) -> Seq<char>
    decreases x,
{
    Seq::<char>::empty() + (match x.condition { Some(c) => Seq::<char>::empty() + "if "@ + rendered_expression(c, depth) + " "@, None => Seq::<char>::empty() }) + rendered_block(x.then_body, depth) + (match x.else_if { Some(e) => Seq::<char>::empty() + " else "@ + rendered_if(*e, depth), None => Seq::<char>::empty() })
}

/// A `match` expression, one arm on each line.
pub open spec fn rendered_match(x: MatchView, depth: usize) -> Seq<char>
    decreases x,
{
    Seq::<char>::empty() + "match "@ + rendered_expression(x.expression, depth) + " {\n"@ + rendered_match_branches(x.branches, depth) + indentation(depth) + "}"@
}

/// An arm of a `match` expression.
pub open spec fn rendered_match_branch(x: MatchBranchView, depth: usize) -> Seq<char>
    decreases x,
{
    Seq::<char>::empty() + rendered_expression(x.pattern, depth) + " => "@ + rendered_expression(x.value, depth) + ","@
}

/// A `while` loop.
pub open spec fn rendered_while(x: WhileView, depth: usize) -> Seq<char>
    decreases x,
{
    Seq::<char>::empty() + "while "@ + rendered_expression(x.condition, depth) + " "@ + rendered_block(x.body, depth)
}

/// A prefix operation.
pub open spec fn rendered_unary_expression(x: UnaryExpressionView, depth: usize) -> Seq<char>
    decreases x,
{
    Seq::<char>::empty() + x.operator + rendered_expression(x.expression, depth)
}

/// An infix operation.
pub open spec fn rendered_binary_expression(x: BinaryExpressionView, depth: usize) -> Seq<char>
    decreases x,
{
    Seq::<char>::empty() + rendered_expression(x.lhs, depth) + " "@ + x.operator + " "@ + rendered_expression(x.rhs, depth)
}

/// A struct literal, one field on each line.
pub open spec fn rendered_constructor(x: ConstructorView, depth: usize) -> Seq<char>
    decreases x,
{
    Seq::<char>::empty() + shown_type_name(x.ty) + " {"@ + (if x.fields.len() > 0 { Seq::<char>::empty() + "\n"@ } else { Seq::<char>::empty() }) + rendered_constructor_fields(x.fields, depth) + "}"@
}

/// A field of a struct literal.
pub open spec fn rendered_constructor_field(x: ConstructorFieldView, depth: usize) -> Seq<char>
    decreases x,
{
    Seq::<char>::empty() + x.name + ": "@ + rendered_expression(x.value, depth)
}

/// An `asm` block.
pub open spec fn rendered_asm_block(x: AsmBlockView, depth: usize) -> Seq<char>
    decreases x,
{
    Seq::<char>::empty() + "asm ("@ + rendered_asm_registers(x.registers, depth) + ") {\n"@ + rendered_asm_instructions(x.instructions, depth) + (match x.final_expression { Some(e) => Seq::<char>::empty() + indentation(deeper(depth)) + shown_asm_final_expression(e) + "\n"@, None => Seq::<char>::empty() }) + indentation(depth) + "}"@
}

/// A register of an `asm` block.
pub open spec fn rendered_asm_register(x: AsmRegisterView, depth: usize) -> Seq<char>
    decreases x,
{
    Seq::<char>::empty() + indentation(depth) + x.name + (match x.value { Some(v) => Seq::<char>::empty() + ": "@ + rendered_expression(v, depth), None => Seq::<char>::empty() })
}

/// An instruction of an `asm` block.
pub open spec fn shown_asm_instruction(x: AsmInstructionView) -> Seq<char>
    decreases x,
{
    Seq::<char>::empty() + x.op_code + shown_arguments(x.args, 0) + ";"@
}

/// The register that an `asm` block returns.
pub open spec fn shown_asm_final_expression(x: AsmFinalExpressionView) -> Seq<char>
    decreases x,
{
    Seq::<char>::empty() + x.register + (match x.ty { Some(t) => Seq::<char>::empty() + ": "@ + shown_type_name(t), None => Seq::<char>::empty() })
}

/// The depth one level further in, as far as depths go.
pub fn deeper_level(depth: usize) -> (r: usize)
    ensures
        r == deeper(depth),
{
    if depth < usize::MAX {
        depth + 1
    } else {
        depth
    }
}

/// The indentation of a line at the given depth.
pub fn indent(depth: usize) -> (r: String)
    ensures
        r@ == indentation(depth),
{
    let mut out = String::new();
    let mut i: usize = 0;
    while i < depth
        invariant
            i <= depth,
            out@ == indentation(i),
        decreases depth - i,
    {
        out.append("    ");
        i += 1;
    }
    out
}

/// The hexadecimal digits of a number in upper case.
pub fn hex_text(n: u64) -> (r: String)
    ensures
        r@ == hex_digits(n as nat),
    decreases n,
{
    let digits = "0123456789ABCDEF";
    proof {
        reveal_strlit("0123456789ABCDEF");
    }
    if n < 16 {
        String::from_str(digits.substring_char(n as usize, n as usize + 1))
    } else {
        let last = (n % 16) as usize;
        let mut r = hex_text(n / 16);
        r.append(digits.substring_char(last, last + 1));
        r
    }
}

/// Whether an expression ends with a block.
pub fn ends_in_block(e: &Expression) -> (r: bool)
    ensures
        r == ends_with_block(e@),
{
    match e {
        Expression::Block(_) => true,
        Expression::If(_) => true,
        Expression::Match(_) => true,
        Expression::While(_) => true,
        Expression::AsmBlock(_) => true,
        _ => false,
    }
}

/// The items of an impl block, each on lines of its own.
pub fn render_impl_items(v: &Vec<ImplItem>, depth: usize) -> (r: String)
    ensures
        r@ == rendered_impl_items(impl_item_models(v@), depth),
    decreases v,
{
    let ghost models = impl_item_models(v@);
    let mut out = String::new();
    let mut i: usize = 0;
    assert(models.subrange(0, 0) =~= Seq::empty());
    while i < v.len()
        invariant
            i <= v.len(),
            models == impl_item_models(v@),
            out@ == rendered_impl_items(models.subrange(0, i as int), depth),
        decreases v.len() - i,
    {
        proof {
            let s = models.subrange(0, i + 1);
            assert(s.drop_last() =~= models.subrange(0, i as int));
            assert(s.last() == models[i as int]);
            if i > 0 {
                assert(s[s.len() - 2] == models[i - 1]);
            }
        }
        let both_constants = i > 0 && is_constant_item(&v[i - 1]) && is_constant_item(&v[i]);
        let separator = if i > 0 && !both_constants {
            text("\n")
        } else {
            String::new()
        };
        let element = {
            let mut t = String::new();
            let a = indent(deeper_level(depth));
            t.append(a.as_str());
            let b = render_impl_item(&v[i], deeper_level(depth));
            t.append(b.as_str());
            t.append("\n");
            t
        };
        out.append(separator.as_str());
        out.append(element.as_str());
        i += 1;
    }
    assert(models.subrange(0, i as int) =~= models);
    out
}

fn is_constant_item(item: &ImplItem) -> (r: bool)
    ensures
        r == (item@ is Constant),
{
    match item {
        ImplItem::Constant(_) => true,
        _ => false,
    }
}

/// The elements in order, separated by `, `.
pub fn show_texts_with_commas(v: &Vec<String>, depth: usize) -> (r: String)
    ensures
        r@ == shown_texts_with_commas(string_views(v@), depth),
    decreases v,
{
    let ghost models = string_views(v@);
    let mut out = String::new();
    let mut i: usize = 0;
    assert(models.subrange(0, 0) =~= Seq::empty());
    while i < v.len()
        invariant
            i <= v.len(),
            models == string_views(v@),
            out@ == shown_texts_with_commas(models.subrange(0, i as int), depth),
        decreases v.len() - i,
    {
        proof {
            let s = models.subrange(0, i + 1);
            assert(s.drop_last() =~= models.subrange(0, i as int));
            assert(s.last() == models[i as int]);
        }
        let x = &v[i];
        let separator = if i > 0 {
            text(", ")
        } else {
            String::new()
        };
        let element = {
            let mut inner = String::new();
            inner.append(x.as_str());
            inner
        };
        out.append(separator.as_str());
        out.append(element.as_str());
        i += 1;
    }
    assert(models.subrange(0, i as int) =~= models);
    out
}

/// The elements in order, separated by ` + `.
pub fn show_texts_with_plus(v: &Vec<String>, depth: usize) -> (r: String)
    ensures
        r@ == shown_texts_with_plus(string_views(v@), depth),
    decreases v,
{
    let ghost models = string_views(v@);
    let mut out = String::new();
    let mut i: usize = 0;
    assert(models.subrange(0, 0) =~= Seq::empty());
    while i < v.len()
        invariant
            i <= v.len(),
            models == string_views(v@),
            out@ == shown_texts_with_plus(models.subrange(0, i as int), depth),
        decreases v.len() - i,
    {
        proof {
            let s = models.subrange(0, i + 1);
            assert(s.drop_last() =~= models.subrange(0, i as int));
            assert(s.last() == models[i as int]);
        }
        let x = &v[i];
        let separator = if i > 0 {
            text(" + ")
        } else {
            String::new()
        };
        let element = {
            let mut inner = String::new();
            inner.append(x.as_str());
            inner
        };
        out.append(separator.as_str());
        out.append(element.as_str());
        i += 1;
    }
    assert(models.subrange(0, i as int) =~= models);
    out
}

/// The elements in order.
pub fn show_arguments(v: &Vec<String>, depth: usize) -> (r: String)
    ensures
        r@ == shown_arguments(string_views(v@), depth),
    decreases v,
{
    let ghost models = string_views(v@);
    let mut out = String::new();
    let mut i: usize = 0;
    assert(models.subrange(0, 0) =~= Seq::empty());
    while i < v.len()
        invariant
            i <= v.len(),
            models == string_views(v@),
            out@ == shown_arguments(models.subrange(0, i as int), depth),
        decreases v.len() - i,
    {
        proof {
            let s = models.subrange(0, i + 1);
            assert(s.drop_last() =~= models.subrange(0, i as int));
            assert(s.last() == models[i as int]);
        }
        let x = &v[i];
        let separator = if i > 0 {
            text("")
        } else {
            String::new()
        };
        let element = {
            let mut inner = String::new();
            inner.append(" ");
            inner.append(x.as_str());
            inner
        };
        out.append(separator.as_str());
        out.append(element.as_str());
        i += 1;
    }
    assert(models.subrange(0, i as int) =~= models);
    out
}

/// The elements in order, separated by `, `.
pub fn show_use_trees(v: &Vec<UseTree>, depth: usize) -> (r: String)
    ensures
        r@ == shown_use_trees(use_tree_models(v@), depth),
    decreases v,
{
    let ghost models = use_tree_models(v@);
    let mut out = String::new();
    let mut i: usize = 0;
    assert(models.subrange(0, 0) =~= Seq::empty());
    while i < v.len()
        invariant
            i <= v.len(),
            models == use_tree_models(v@),
            out@ == shown_use_trees(models.subrange(0, i as int), depth),
        decreases v.len() - i,
    {
        proof {
            let s = models.subrange(0, i + 1);
            assert(s.drop_last() =~= models.subrange(0, i as int));
            assert(s.last() == models[i as int]);
        }
        let x = &v[i];
        let separator = if i > 0 {
            text(", ")
        } else {
            String::new()
        };
        let element = {
            let mut inner = String::new();
            let piece = show_use_tree(x);
            inner.append(piece.as_str());
            inner
        };
        out.append(separator.as_str());
        out.append(element.as_str());
        i += 1;
    }
    assert(models.subrange(0, i as int) =~= models);
    out
}

/// The elements in order, separated by ` + `.
pub fn show_bounds(v: &Vec<TypeName>, depth: usize) -> (r: String)
    ensures
        r@ == shown_bounds(type_name_models(v@), depth),
    decreases v,
{
    let ghost models = type_name_models(v@);
    let mut out = String::new();
    let mut i: usize = 0;
    assert(models.subrange(0, 0) =~= Seq::empty());
    while i < v.len()
        invariant
            i <= v.len(),
            models == type_name_models(v@),
            out@ == shown_bounds(models.subrange(0, i as int), depth),
        decreases v.len() - i,
    {
        proof {
            let s = models.subrange(0, i + 1);
            assert(s.drop_last() =~= models.subrange(0, i as int));
            assert(s.last() == models[i as int]);
        }
        let x = &v[i];
        let separator = if i > 0 {
            text(" + ")
        } else {
            String::new()
        };
        let element = {
            let mut inner = String::new();
            let piece = show_type_name(x);
            inner.append(piece.as_str());
            inner
        };
        out.append(separator.as_str());
        out.append(element.as_str());
        i += 1;
    }
    assert(models.subrange(0, i as int) =~= models);
    out
}

/// The elements in order, separated by `, `.
pub fn show_type_names(v: &Vec<TypeName>, depth: usize) -> (r: String)
    ensures
        r@ == shown_type_names(type_name_models(v@), depth),
    decreases v,
{
    let ghost models = type_name_models(v@);
    let mut out = String::new();
    let mut i: usize = 0;
    assert(models.subrange(0, 0) =~= Seq::empty());
    while i < v.len()
        invariant
            i <= v.len(),
            models == type_name_models(v@),
            out@ == shown_type_names(models.subrange(0, i as int), depth),
        decreases v.len() - i,
    {
        proof {
            let s = models.subrange(0, i + 1);
            assert(s.drop_last() =~= models.subrange(0, i as int));
            assert(s.last() == models[i as int]);
        }
        let x = &v[i];
        let separator = if i > 0 {
            text(", ")
        } else {
            String::new()
        };
        let element = {
            let mut inner = String::new();
            let piece = show_type_name(x);
            inner.append(piece.as_str());
            inner
        };
        out.append(separator.as_str());
        out.append(element.as_str());
        i += 1;
    }
    assert(models.subrange(0, i as int) =~= models);
    out
}

/// The elements in order, separated by `, `.
pub fn show_generic_parameters(v: &Vec<GenericParameter>, depth: usize) -> (r: String)
    ensures
        r@ == shown_generic_parameters(generic_parameter_models(v@), depth),
    decreases v,
{
    let ghost models = generic_parameter_models(v@);
    let mut out = String::new();
    let mut i: usize = 0;
    assert(models.subrange(0, 0) =~= Seq::empty());
    while i < v.len()
        invariant
            i <= v.len(),
            models == generic_parameter_models(v@),
            out@ == shown_generic_parameters(models.subrange(0, i as int), depth),
        decreases v.len() - i,
    {
        proof {
            let s = models.subrange(0, i + 1);
            assert(s.drop_last() =~= models.subrange(0, i as int));
            assert(s.last() == models[i as int]);
        }
        let x = &v[i];
        let separator = if i > 0 {
            text(", ")
        } else {
            String::new()
        };
        let element = {
            let mut inner = String::new();
            let piece = show_generic_parameter(x);
            inner.append(piece.as_str());
            inner
        };
        out.append(separator.as_str());
        out.append(element.as_str());
        i += 1;
    }
    assert(models.subrange(0, i as int) =~= models);
    out
}

/// The elements in order, separated by `, `.
pub fn show_attributes(v: &Vec<Attribute>, depth: usize) -> (r: String)
    ensures
        r@ == shown_attributes(attribute_models(v@), depth),
    decreases v,
{
    let ghost models = attribute_models(v@);
    let mut out = String::new();
    let mut i: usize = 0;
    assert(models.subrange(0, 0) =~= Seq::empty());
    while i < v.len()
        invariant
            i <= v.len(),
            models == attribute_models(v@),
            out@ == shown_attributes(models.subrange(0, i as int), depth),
        decreases v.len() - i,
    {
        proof {
            let s = models.subrange(0, i + 1);
            assert(s.drop_last() =~= models.subrange(0, i as int));
            assert(s.last() == models[i as int]);
        }
        let x = &v[i];
        let separator = if i > 0 {
            text(", ")
        } else {
            String::new()
        };
        let element = {
            let mut inner = String::new();
            let piece = show_attribute(x);
            inner.append(piece.as_str());
            inner
        };
        out.append(separator.as_str());
        out.append(element.as_str());
        i += 1;
    }
    assert(models.subrange(0, i as int) =~= models);
    out
}

/// The elements in order, separated by `, `.
pub fn show_parameters(v: &Vec<Parameter>, depth: usize) -> (r: String)
    ensures
        r@ == shown_parameters(parameter_models(v@), depth),
    decreases v,
{
    let ghost models = parameter_models(v@);
    let mut out = String::new();
    let mut i: usize = 0;
    assert(models.subrange(0, 0) =~= Seq::empty());
    while i < v.len()
        invariant
            i <= v.len(),
            models == parameter_models(v@),
            out@ == shown_parameters(models.subrange(0, i as int), depth),
        decreases v.len() - i,
    {
        proof {
            let s = models.subrange(0, i + 1);
            assert(s.drop_last() =~= models.subrange(0, i as int));
            assert(s.last() == models[i as int]);
        }
        let x = &v[i];
        let separator = if i > 0 {
            text(", ")
        } else {
            String::new()
        };
        let element = {
            let mut inner = String::new();
            let piece = show_parameter(x);
            inner.append(piece.as_str());
            inner
        };
        out.append(separator.as_str());
        out.append(element.as_str());
        i += 1;
    }
    assert(models.subrange(0, i as int) =~= models);
    out
}

/// The elements in order, separated by `, `.
pub fn show_let_identifiers(v: &Vec<LetIdentifier>, depth: usize) -> (r: String)
    ensures
        r@ == shown_let_identifiers(let_identifier_models(v@), depth),
    decreases v,
{
    let ghost models = let_identifier_models(v@);
    let mut out = String::new();
    let mut i: usize = 0;
    assert(models.subrange(0, 0) =~= Seq::empty());
    while i < v.len()
        invariant
            i <= v.len(),
            models == let_identifier_models(v@),
            out@ == shown_let_identifiers(models.subrange(0, i as int), depth),
        decreases v.len() - i,
    {
        proof {
            let s = models.subrange(0, i + 1);
            assert(s.drop_last() =~= models.subrange(0, i as int));
            assert(s.last() == models[i as int]);
        }
        let x = &v[i];
        let separator = if i > 0 {
            text(", ")
        } else {
            String::new()
        };
        let element = {
            let mut inner = String::new();
            let piece = show_let_identifier(x);
            inner.append(piece.as_str());
            inner
        };
        out.append(separator.as_str());
        out.append(element.as_str());
        i += 1;
    }
    assert(models.subrange(0, i as int) =~= models);
    out
}

/// The elements in order, separated by `\n`.
pub fn render_module_items(v: &Vec<ModuleItem>, depth: usize) -> (r: String)
    ensures
        r@ == rendered_module_items(module_item_models(v@), depth),
    decreases v,
{
    let ghost models = module_item_models(v@);
    let mut out = String::new();
    let mut i: usize = 0;
    assert(models.subrange(0, 0) =~= Seq::empty());
    while i < v.len()
        invariant
            i <= v.len(),
            models == module_item_models(v@),
            out@ == rendered_module_items(models.subrange(0, i as int), depth),
        decreases v.len() - i,
    {
        proof {
            let s = models.subrange(0, i + 1);
            assert(s.drop_last() =~= models.subrange(0, i as int));
            assert(s.last() == models[i as int]);
        }
        let x = &v[i];
        let separator = if i > 0 {
            text("\n")
        } else {
            String::new()
        };
        let element = {
            let mut inner = String::new();
            let piece = render_module_item(x, depth);
            inner.append(piece.as_str());
            inner.append("\n");
            inner
        };
        out.append(separator.as_str());
        out.append(element.as_str());
        i += 1;
    }
    assert(models.subrange(0, i as int) =~= models);
    out
}

/// The elements in order.
pub fn render_struct_fields(v: &Vec<StructField>, depth: usize) -> (r: String)
    ensures
        r@ == rendered_struct_fields(struct_field_models(v@), depth),
    decreases v,
{
    let ghost models = struct_field_models(v@);
    let mut out = String::new();
    let mut i: usize = 0;
    assert(models.subrange(0, 0) =~= Seq::empty());
    while i < v.len()
        invariant
            i <= v.len(),
            models == struct_field_models(v@),
            out@ == rendered_struct_fields(models.subrange(0, i as int), depth),
        decreases v.len() - i,
    {
        proof {
            let s = models.subrange(0, i + 1);
            assert(s.drop_last() =~= models.subrange(0, i as int));
            assert(s.last() == models[i as int]);
        }
        let x = &v[i];
        let separator = if i > 0 {
            text("")
        } else {
            String::new()
        };
        let element = {
            let mut inner = String::new();
            let piece = indent(deeper_level(depth));
            inner.append(piece.as_str());
            let piece = show_struct_field(x);
            inner.append(piece.as_str());
            inner.append(",\n");
            inner
        };
        out.append(separator.as_str());
        out.append(element.as_str());
        i += 1;
    }
    assert(models.subrange(0, i as int) =~= models);
    out
}

/// The elements in order.
pub fn render_enum_variants(v: &Vec<EnumVariant>, depth: usize) -> (r: String)
    ensures
        r@ == rendered_enum_variants(enum_variant_models(v@), depth),
    decreases v,
{
    let ghost models = enum_variant_models(v@);
    let mut out = String::new();
    let mut i: usize = 0;
    assert(models.subrange(0, 0) =~= Seq::empty());
    while i < v.len()
        invariant
            i <= v.len(),
            models == enum_variant_models(v@),
            out@ == rendered_enum_variants(models.subrange(0, i as int), depth),
        decreases v.len() - i,
    {
        proof {
            let s = models.subrange(0, i + 1);
            assert(s.drop_last() =~= models.subrange(0, i as int));
            assert(s.last() == models[i as int]);
        }
        let x = &v[i];
        let separator = if i > 0 {
            text("")
        } else {
            String::new()
        };
        let element = {
            let mut inner = String::new();
            let piece = indent(deeper_level(depth));
            inner.append(piece.as_str());
            let piece = show_enum_variant(x);
            inner.append(piece.as_str());
            inner.append(",\n");
            inner
        };
        out.append(separator.as_str());
        out.append(element.as_str());
        i += 1;
    }
    assert(models.subrange(0, i as int) =~= models);
    out
}

/// The elements in order, separated by `\n`.
pub fn render_abi_functions(v: &Vec<Function>, depth: usize) -> (r: String)
    ensures
        r@ == rendered_abi_functions(function_models(v@), depth),
    decreases v,
{
    let ghost models = function_models(v@);
    let mut out = String::new();
    let mut i: usize = 0;
    assert(models.subrange(0, 0) =~= Seq::empty());
    while i < v.len()
        invariant
            i <= v.len(),
            models == function_models(v@),
            out@ == rendered_abi_functions(models.subrange(0, i as int), depth),
        decreases v.len() - i,
    {
        proof {
            let s = models.subrange(0, i + 1);
            assert(s.drop_last() =~= models.subrange(0, i as int));
            assert(s.last() == models[i as int]);
        }
        let x = &v[i];
        let separator = if i > 0 {
            text("\n")
        } else {
            String::new()
        };
        let element = {
            let mut inner = String::new();
            let piece = indent(deeper_level(depth));
            inner.append(piece.as_str());
            let piece = render_function(x, deeper_level(depth));
            inner.append(piece.as_str());
            inner.append("\n");
            inner
        };
        out.append(separator.as_str());
        out.append(element.as_str());
        i += 1;
    }
    assert(models.subrange(0, i as int) =~= models);
    out
}

/// The elements in order.
pub fn render_trait_items(v: &Vec<TraitItem>, depth: usize) -> (r: String)
    ensures
        r@ == rendered_trait_items(trait_item_models(v@), depth),
    decreases v,
{
    let ghost models = trait_item_models(v@);
    let mut out = String::new();
    let mut i: usize = 0;
    assert(models.subrange(0, 0) =~= Seq::empty());
    while i < v.len()
        invariant
            i <= v.len(),
            models == trait_item_models(v@),
            out@ == rendered_trait_items(models.subrange(0, i as int), depth),
        decreases v.len() - i,
    {
        proof {
            let s = models.subrange(0, i + 1);
            assert(s.drop_last() =~= models.subrange(0, i as int));
            assert(s.last() == models[i as int]);
        }
        let x = &v[i];
        let separator = if i > 0 {
            text("")
        } else {
            String::new()
        };
        let element = {
            let mut inner = String::new();
            let piece = indent(deeper_level(depth));
            inner.append(piece.as_str());
            let piece = render_trait_item(x, deeper_level(depth));
            inner.append(piece.as_str());
            inner
        };
        out.append(separator.as_str());
        out.append(element.as_str());
        i += 1;
    }
    assert(models.subrange(0, i as int) =~= models);
    out
}

/// The elements in order.
pub fn render_storage_fields(v: &Vec<StorageField>, depth: usize) -> (r: String)
    ensures
        r@ == rendered_storage_fields(storage_field_models(v@), depth),
    decreases v,
{
    let ghost models = storage_field_models(v@);
    let mut out = String::new();
    let mut i: usize = 0;
    assert(models.subrange(0, 0) =~= Seq::empty());
    while i < v.len()
        invariant
            i <= v.len(),
            models == storage_field_models(v@),
            out@ == rendered_storage_fields(models.subrange(0, i as int), depth),
        decreases v.len() - i,
    {
        proof {
            let s = models.subrange(0, i + 1);
            assert(s.drop_last() =~= models.subrange(0, i as int));
            assert(s.last() == models[i as int]);
        }
        let x = &v[i];
        let separator = if i > 0 {
            text("")
        } else {
            String::new()
        };
        let element = {
            let mut inner = String::new();
            let piece = indent(deeper_level(depth));
            inner.append(piece.as_str());
            let piece = render_storage_field(x, deeper_level(depth));
            inner.append(piece.as_str());
            inner.append(",\n");
            inner
        };
        out.append(separator.as_str());
        out.append(element.as_str());
        i += 1;
    }
    assert(models.subrange(0, i as int) =~= models);
    out
}

/// The elements in order.
pub fn render_configurable_fields(v: &Vec<ConfigurableField>, depth: usize) -> (r: String)
    ensures
        r@ == rendered_configurable_fields(configurable_field_models(v@), depth),
    decreases v,
{
    let ghost models = configurable_field_models(v@);
    let mut out = String::new();
    let mut i: usize = 0;
    assert(models.subrange(0, 0) =~= Seq::empty());
    while i < v.len()
        invariant
            i <= v.len(),
            models == configurable_field_models(v@),
            out@ == rendered_configurable_fields(models.subrange(0, i as int), depth),
        decreases v.len() - i,
    {
        proof {
            let s = models.subrange(0, i + 1);
            assert(s.drop_last() =~= models.subrange(0, i as int));
            assert(s.last() == models[i as int]);
        }
        let x = &v[i];
        let separator = if i > 0 {
            text("")
        } else {
            String::new()
        };
        let element = {
            let mut inner = String::new();
            let piece = indent(deeper_level(depth));
            inner.append(piece.as_str());
            let piece = render_configurable_field(x, deeper_level(depth));
            inner.append(piece.as_str());
            inner.append(",\n");
            inner
        };
        out.append(separator.as_str());
        out.append(element.as_str());
        i += 1;
    }
    assert(models.subrange(0, i as int) =~= models);
    out
}

/// The elements in order.
pub fn render_statements(v: &Vec<Statement>, depth: usize) -> (r: String)
    ensures
        r@ == rendered_statements(statement_models(v@), depth),
    decreases v,
{
    let ghost models = statement_models(v@);
    let mut out = String::new();
    let mut i: usize = 0;
    assert(models.subrange(0, 0) =~= Seq::empty());
    while i < v.len()
        invariant
            i <= v.len(),
            models == statement_models(v@),
            out@ == rendered_statements(models.subrange(0, i as int), depth),
        decreases v.len() - i,
    {
        proof {
            let s = models.subrange(0, i + 1);
            assert(s.drop_last() =~= models.subrange(0, i as int));
            assert(s.last() == models[i as int]);
        }
        let x = &v[i];
        let separator = if i > 0 {
            text("")
        } else {
            String::new()
        };
        let element = {
            let mut inner = String::new();
            let piece = indent(deeper_level(depth));
            inner.append(piece.as_str());
            let piece = render_statement(x, deeper_level(depth));
            inner.append(piece.as_str());
            inner.append("\n");
            inner
        };
        out.append(separator.as_str());
        out.append(element.as_str());
        i += 1;
    }
    assert(models.subrange(0, i as int) =~= models);
    out
}

/// The elements in order, separated by `, `.
pub fn render_expressions(v: &Vec<Expression>, depth: usize) -> (r: String)
    ensures
        r@ == rendered_expressions(expression_models(v@), depth),
    decreases v,
{
    let ghost models = expression_models(v@);
    let mut out = String::new();
    let mut i: usize = 0;
    assert(models.subrange(0, 0) =~= Seq::empty());
    while i < v.len()
        invariant
            i <= v.len(),
            models == expression_models(v@),
            out@ == rendered_expressions(models.subrange(0, i as int), depth),
        decreases v.len() - i,
    {
        proof {
            let s = models.subrange(0, i + 1);
            assert(s.drop_last() =~= models.subrange(0, i as int));
            assert(s.last() == models[i as int]);
        }
        let x = &v[i];
        let separator = if i > 0 {
            text(", ")
        } else {
            String::new()
        };
        let element = {
            let mut inner = String::new();
            let piece = render_expression(x, depth);
            inner.append(piece.as_str());
            inner
        };
        out.append(separator.as_str());
        out.append(element.as_str());
        i += 1;
    }
    assert(models.subrange(0, i as int) =~= models);
    out
}

/// The elements in order.
pub fn render_match_branches(v: &Vec<MatchBranch>, depth: usize) -> (r: String)
    ensures
        r@ == rendered_match_branches(match_branch_models(v@), depth),
    decreases v,
{
    let ghost models = match_branch_models(v@);
    let mut out = String::new();
    let mut i: usize = 0;
    assert(models.subrange(0, 0) =~= Seq::empty());
    while i < v.len()
        invariant
            i <= v.len(),
            models == match_branch_models(v@),
            out@ == rendered_match_branches(models.subrange(0, i as int), depth),
        decreases v.len() - i,
    {
        proof {
            let s = models.subrange(0, i + 1);
            assert(s.drop_last() =~= models.subrange(0, i as int));
            assert(s.last() == models[i as int]);
        }
        let x = &v[i];
        let separator = if i > 0 {
            text("")
        } else {
            String::new()
        };
        let element = {
            let mut inner = String::new();
            let piece = indent(deeper_level(depth));
            inner.append(piece.as_str());
            let piece = render_match_branch(x, deeper_level(depth));
            inner.append(piece.as_str());
            inner.append("\n");
            inner
        };
        out.append(separator.as_str());
        out.append(element.as_str());
        i += 1;
    }
    assert(models.subrange(0, i as int) =~= models);
    out
}

/// The elements in order.
pub fn render_constructor_fields(v: &Vec<ConstructorField>, depth: usize) -> (r: String)
    ensures
        r@ == rendered_constructor_fields(constructor_field_models(v@), depth),
    decreases v,
{
    let ghost models = constructor_field_models(v@);
    let mut out = String::new();
    let mut i: usize = 0;
    assert(models.subrange(0, 0) =~= Seq::empty());
    while i < v.len()
        invariant
            i <= v.len(),
            models == constructor_field_models(v@),
            out@ == rendered_constructor_fields(models.subrange(0, i as int), depth),
        decreases v.len() - i,
    {
        proof {
            let s = models.subrange(0, i + 1);
            assert(s.drop_last() =~= models.subrange(0, i as int));
            assert(s.last() == models[i as int]);
        }
        let x = &v[i];
        let separator = if i > 0 {
            text("")
        } else {
            String::new()
        };
        let element = {
            let mut inner = String::new();
            let piece = indent(deeper_level(depth));
            inner.append(piece.as_str());
            let piece = render_constructor_field(x, deeper_level(depth));
            inner.append(piece.as_str());
            inner.append("\n");
            inner
        };
        out.append(separator.as_str());
        out.append(element.as_str());
        i += 1;
    }
    assert(models.subrange(0, i as int) =~= models);
    out
}

/// The elements in order, separated by `, `.
pub fn render_asm_registers(v: &Vec<AsmRegister>, depth: usize) -> (r: String)
    ensures
        r@ == rendered_asm_registers(asm_register_models(v@), depth),
    decreases v,
{
    let ghost models = asm_register_models(v@);
    let mut out = String::new();
    let mut i: usize = 0;
    assert(models.subrange(0, 0) =~= Seq::empty());
    while i < v.len()
        invariant
            i <= v.len(),
            models == asm_register_models(v@),
            out@ == rendered_asm_registers(models.subrange(0, i as int), depth),
        decreases v.len() - i,
    {
        proof {
            let s = models.subrange(0, i + 1);
            assert(s.drop_last() =~= models.subrange(0, i as int));
            assert(s.last() == models[i as int]);
        }
        let x = &v[i];
        let separator = if i > 0 {
            text(", ")
        } else {
            String::new()
        };
        let element = {
            let mut inner = String::new();
            let piece = render_asm_register(x, depth);
            inner.append(piece.as_str());
            inner
        };
        out.append(separator.as_str());
        out.append(element.as_str());
        i += 1;
    }
    assert(models.subrange(0, i as int) =~= models);
    out
}

/// The elements in order.
pub fn render_asm_instructions(v: &Vec<AsmInstruction>, depth: usize) -> (r: String)
    ensures
        r@ == rendered_asm_instructions(asm_instruction_models(v@), depth),
    decreases v,
{
    let ghost models = asm_instruction_models(v@);
    let mut out = String::new();
    let mut i: usize = 0;
    assert(models.subrange(0, 0) =~= Seq::empty());
    while i < v.len()
        invariant
            i <= v.len(),
            models == asm_instruction_models(v@),
            out@ == rendered_asm_instructions(models.subrange(0, i as int), depth),
        decreases v.len() - i,
    {
        proof {
            let s = models.subrange(0, i + 1);
            assert(s.drop_last() =~= models.subrange(0, i as int));
            assert(s.last() == models[i as int]);
        }
        let x = &v[i];
        let separator = if i > 0 {
            text("")
        } else {
            String::new()
        };
        let element = {
            let mut inner = String::new();
            let piece = indent(deeper_level(depth));
            inner.append(piece.as_str());
            let piece = show_asm_instruction(x);
            inner.append(piece.as_str());
            inner.append("\n");
            inner
        };
        out.append(separator.as_str());
        out.append(element.as_str());
        i += 1;
    }
    assert(models.subrange(0, i as int) =~= models);
    out
}

/// The keyword of a kind of module.
pub fn show_module_kind(x: &ModuleKind) -> (r: String)
    ensures
        r@ == shown_module_kind(x@),
    decreases x,
{
    match x {
        ModuleKind::Contract => {
            let mut out = String::new();
            out.append("contract");
            out
        },
        ModuleKind::Library => {
            let mut out = String::new();
            out.append("library");
            out
        },
        ModuleKind::Script => {
            let mut out = String::new();
            out.append("script");
            out
        },
        ModuleKind::Predicate => {
            let mut out = String::new();
            out.append("predicate");
            out
        },
    }
}

/// A module: its kind, then its items with a blank line between them.
pub fn render_module(x: &Module, depth: usize) -> (r: String)
    ensures
        r@ == rendered_module(x@, depth),
    decreases x,
{
    let mut out = String::new();
    let piece = show_module_kind(&x.kind);
    out.append(piece.as_str());
    out.append(";\n");
    out.append("\n");
    let piece = render_module_items(&x.items, depth);
    out.append(piece.as_str());
    out
}

/// An item of a module.
pub fn render_module_item(x: &ModuleItem, depth: usize) -> (r: String)
    ensures
        r@ == rendered_module_item(x@, depth),
    decreases x,
{
    match x {
        ModuleItem::Use(x0) => {
            let mut out = String::new();
            let piece = indent(depth);
            out.append(piece.as_str());
            let piece = show_use(x0);
            out.append(piece.as_str());
            out
        },
        ModuleItem::TypeDefinition(x0) => {
            let mut out = String::new();
            let piece = indent(depth);
            out.append(piece.as_str());
            let piece = show_type_definition(x0);
            out.append(piece.as_str());
            out
        },
        ModuleItem::Constant(x0) => {
            let mut out = String::new();
            let piece = render_constant(x0, depth);
            out.append(piece.as_str());
            out
        },
        ModuleItem::Struct(x0) => {
            let mut out = String::new();
            let piece = render_struct(x0, depth);
            out.append(piece.as_str());
            out
        },
        ModuleItem::Enum(x0) => {
            let mut out = String::new();
            let piece = render_enum(x0, depth);
            out.append(piece.as_str());
            out
        },
        ModuleItem::Abi(x0) => {
            let mut out = String::new();
            let piece = render_abi(x0, depth);
            out.append(piece.as_str());
            out
        },
        ModuleItem::Trait(x0) => {
            let mut out = String::new();
            let piece = render_trait(x0, depth);
            out.append(piece.as_str());
            out
        },
        ModuleItem::Storage(x0) => {
            let mut out = String::new();
            let piece = render_storage(x0, depth);
            out.append(piece.as_str());
            out
        },
        ModuleItem::Configurable(x0) => {
            let mut out = String::new();
            let piece = render_configurable(x0, depth);
            out.append(piece.as_str());
            out
        },
        ModuleItem::Function(x0) => {
            let mut out = String::new();
            let piece = render_function(x0, depth);
            out.append(piece.as_str());
            out
        },
        ModuleItem::Impl(x0) => {
            let mut out = String::new();
            let piece = render_impl(x0, depth);
            out.append(piece.as_str());
            out
        },
    }
}

/// A `use` declaration.
pub fn show_use(x: &Use) -> (r: String)
    ensures
        r@ == shown_use(x@),
    decreases x,
{
    let mut out = String::new();
    let piece = if x.is_public {
        let mut inner = String::new();
        inner.append("pub ");
        inner
    } else {
        String::new()
    };
    out.append(piece.as_str());
    out.append("use ");
    let piece = show_use_tree(&x.tree);
    out.append(piece.as_str());
    out.append(";");
    out
}

/// The path of an import.
pub fn show_use_tree(x: &UseTree) -> (r: String)
    ensures
        r@ == shown_use_tree(x@),
    decreases x,
{
    match x {
        UseTree::Path { prefix, suffix } => {
            let mut out = String::new();
            out.append(prefix.as_str());
            out.append("::");
            let piece = show_use_tree(&**suffix);
            out.append(piece.as_str());
            out
        },
        UseTree::Group { imports } => {
            let mut out = String::new();
            out.append("{");
            let piece = show_use_trees(imports, 0);
            out.append(piece.as_str());
            out.append("}");
            out
        },
        UseTree::Name { name } => {
            let mut out = String::new();
            out.append(name.as_str());
            out
        },
        UseTree::Rename { name, alias } => {
            let mut out = String::new();
            out.append(name.as_str());
            out.append(" as ");
            out.append(alias.as_str());
            out
        },
        UseTree::Glob => {
            let mut out = String::new();
            out.append("*");
            out
        },
    }
}

/// A generic parameter, with its bounds.
pub fn show_generic_parameter(x: &GenericParameter) -> (r: String)
    ensures
        r@ == shown_generic_parameter(x@),
    decreases x,
{
    let mut out = String::new();
    let piece = show_type_name(&x.ty);
    out.append(piece.as_str());
    let piece = match &x.implements {
        Some(bounds) => {
            let mut inner = String::new();
            inner.append(": ");
            let piece = show_bounds(bounds, 0);
            inner.append(piece.as_str());
            inner
        },
        None => String::new(),
    };
    out.append(piece.as_str());
    out
}

/// Generic parameters between angle brackets.
pub fn show_generic_parameter_list(x: &GenericParameterList) -> (r: String)
    ensures
        r@ == shown_generic_parameter_list(x@),
    decreases x,
{
    let mut out = String::new();
    out.append("<");
    let piece = show_generic_parameters(&x.entries, 0);
    out.append(piece.as_str());
    out.append(">");
    out
}

/// An attribute, with its parameters.
pub fn show_attribute(x: &Attribute) -> (r: String)
    ensures
        r@ == shown_attribute(x@),
    decreases x,
{
    let mut out = String::new();
    out.append(x.name.as_str());
    let piece = match &x.parameters {
        Some(p) => {
            let mut inner = String::new();
            inner.append("(");
            let piece = show_texts_with_commas(p, 0);
            inner.append(piece.as_str());
            inner.append(")");
            inner
        },
        None => String::new(),
    };
    out.append(piece.as_str());
    out
}

/// A line of attributes.
pub fn show_attribute_list(x: &AttributeList) -> (r: String)
    ensures
        r@ == shown_attribute_list(x@),
    decreases x,
{
    let mut out = String::new();
    out.append("#[");
    let piece = show_attributes(&x.attributes, 0);
    out.append(piece.as_str());
    out.append("]");
    out
}

/// The name of a type. The undefined type is written `_`.
pub fn show_type_name(x: &TypeName) -> (r: String)
    ensures
        r@ == shown_type_name(x@),
    decreases x,
{
    match x {
        TypeName::Undefined => {
            let mut out = String::new();
            out.append("_");
            out
        },
        TypeName::Identifier { name, generic_parameters } => {
            let mut out = String::new();
            out.append(name.as_str());
            let piece = match generic_parameters {
                Some(g) => {
                    let mut inner = String::new();
                    let piece = show_generic_parameter_list(g);
                    inner.append(piece.as_str());
                    inner
                },
                None => String::new(),
            };
            out.append(piece.as_str());
            out
        },
        TypeName::Array { ty, length } => {
            let mut out = String::new();
            out.append("[");
            let piece = show_type_name(&**ty);
            out.append(piece.as_str());
            out.append("; ");
            let piece = decimal_text(*length as u64);
            out.append(piece.as_str());
            out.append("]");
            out
        },
        TypeName::Tuple { type_names } => {
            let mut out = String::new();
            out.append("(");
            let piece = show_type_names(type_names, 0);
            out.append(piece.as_str());
            out.append(")");
            out
        },
        TypeName::StringSlice => {
            let mut out = String::new();
            out.append("str");
            out
        },
        TypeName::StringArray { length } => {
            let mut out = String::new();
            out.append("str[");
            let piece = decimal_text(*length as u64);
            out.append(piece.as_str());
            out.append("]");
            out
        },
    }
}

/// A type alias.
pub fn show_type_definition(x: &TypeDefinition) -> (r: String)
    ensures
        r@ == shown_type_definition(x@),
    decreases x,
{
    let mut out = String::new();
    let piece = if x.is_public {
        let mut inner = String::new();
        inner.append("pub ");
        inner
    } else {
        String::new()
    };
    out.append(piece.as_str());
    out.append("type ");
    let piece = show_type_name(&x.name);
    out.append(piece.as_str());
    let piece = match &x.underlying_type {
        Some(u) => {
            let mut inner = String::new();
            inner.append(" = ");
            let piece = show_type_name(u);
            inner.append(piece.as_str());
            inner
        },
        None => String::new(),
    };
    out.append(piece.as_str());
    out.append(";");
    out
}

/// A constant.
pub fn render_constant(x: &Constant, depth: usize) -> (r: String)
    ensures
        r@ == rendered_constant(x@, depth),
    decreases x,
{
    let mut out = String::new();
    let piece = if x.is_public {
        let mut inner = String::new();
        inner.append("pub ");
        inner
    } else {
        String::new()
    };
    out.append(piece.as_str());
    out.append("const ");
    out.append(x.name.as_str());
    out.append(": ");
    let piece = show_type_name(&x.ty);
    out.append(piece.as_str());
    let piece = match &x.value {
        Some(v) => {
            let mut inner = String::new();
            inner.append(" = ");
            let piece = render_expression(v, depth);
            inner.append(piece.as_str());
            inner
        },
        None => String::new(),
    };
    out.append(piece.as_str());
    out.append(";");
    out
}

/// A literal: hexadecimal integers in upper case, strings between double quotes.
pub fn show_literal(x: &Literal) -> (r: String)
    ensures
        r@ == shown_literal(x@),
    decreases x,
{
    match x {
        Literal::Bool(x0) => {
            let mut out = String::new();
            let piece = if *x0 {
                let mut inner = String::new();
                inner.append("true");
                inner
            } else {
                let mut inner = String::new();
                inner.append("false");
                inner
            };
            out.append(piece.as_str());
            out
        },
        Literal::DecInt(x0) => {
            let mut out = String::new();
            let piece = decimal_text(*x0 as u64);
            out.append(piece.as_str());
            out
        },
        Literal::HexInt(x0) => {
            let mut out = String::new();
            out.append("0x");
            let piece = hex_text(*x0);
            out.append(piece.as_str());
            out
        },
        Literal::String(x0) => {
            let mut out = String::new();
            out.append("\"");
            out.append(x0.as_str());
            out.append("\"");
            out
        },
    }
}

/// A struct, one field on each line.
pub fn render_struct(x: &Struct, depth: usize) -> (r: String)
    ensures
        r@ == rendered_struct(x@, depth),
    decreases x,
{
    let mut out = String::new();
    let piece = match &x.attributes {
        Some(a) => {
            let mut inner = String::new();
            let piece = show_attribute_list(a);
            inner.append(piece.as_str());
            inner.append("\n");
            let piece = indent(depth);
            inner.append(piece.as_str());
            inner
        },
        None => String::new(),
    };
    out.append(piece.as_str());
    let piece = if x.is_public {
        let mut inner = String::new();
        inner.append("pub ");
        inner
    } else {
        String::new()
    };
    out.append(piece.as_str());
    out.append("struct ");
    out.append(x.name.as_str());
    let piece = match &x.generic_parameters {
        Some(g) => {
            let mut inner = String::new();
            let piece = show_generic_parameter_list(g);
            inner.append(piece.as_str());
            inner
        },
        None => String::new(),
    };
    out.append(piece.as_str());
    out.append(" {\n");
    let piece = render_struct_fields(&x.fields, depth);
    out.append(piece.as_str());
    let piece = indent(depth);
    out.append(piece.as_str());
    out.append("}");
    out
}

/// A field of a struct.
pub fn show_struct_field(x: &StructField) -> (r: String)
    ensures
        r@ == shown_struct_field(x@),
    decreases x,
{
    let mut out = String::new();
    let piece = if x.is_public {
        let mut inner = String::new();
        inner.append("pub ");
        inner
    } else {
        String::new()
    };
    out.append(piece.as_str());
    out.append(x.name.as_str());
    out.append(": ");
    let piece = show_type_name(&x.ty);
    out.append(piece.as_str());
    out
}

/// An enum, one variant on each line.
pub fn render_enum(x: &Enum, depth: usize) -> (r: String)
    ensures
        r@ == rendered_enum(x@, depth),
    decreases x,
{
    let mut out = String::new();
    let piece = match &x.attributes {
        Some(a) => {
            let mut inner = String::new();
            let piece = show_attribute_list(a);
            inner.append(piece.as_str());
            inner.append("\n");
            let piece = indent(depth);
            inner.append(piece.as_str());
            inner
        },
        None => String::new(),
    };
    out.append(piece.as_str());
    let piece = if x.is_public {
        let mut inner = String::new();
        inner.append("pub ");
        inner
    } else {
        String::new()
    };
    out.append(piece.as_str());
    out.append("enum ");
    out.append(x.name.as_str());
    let piece = match &x.generic_parameters {
        Some(g) => {
            let mut inner = String::new();
            let piece = show_generic_parameter_list(g);
            inner.append(piece.as_str());
            inner
        },
        None => String::new(),
    };
    out.append(piece.as_str());
    out.append(" {\n");
    let piece = render_enum_variants(&x.variants, depth);
    out.append(piece.as_str());
    let piece = indent(depth);
    out.append(piece.as_str());
    out.append("}");
    out
}

/// A variant of an enum.
pub fn show_enum_variant(x: &EnumVariant) -> (r: String)
    ensures
        r@ == shown_enum_variant(x@),
    decreases x,
{
    let mut out = String::new();
    out.append(x.name.as_str());
    out.append(": ");
    let piece = show_type_name(&x.ty);
    out.append(piece.as_str());
    out
}

/// An abi, with a blank line between its functions.
pub fn render_abi(x: &Abi, depth: usize) -> (r: String)
    ensures
        r@ == rendered_abi(x@, depth),
    decreases x,
{
    let mut out = String::new();
    out.append("abi ");
    out.append(x.name.as_str());
    let piece = if x.inherits.len() > 0 {
        let mut inner = String::new();
        inner.append(": ");
        let piece = show_texts_with_plus(&x.inherits, depth);
        inner.append(piece.as_str());
        inner
    } else {
        String::new()
    };
    out.append(piece.as_str());
    out.append(" {\n");
    let piece = render_abi_functions(&x.functions, depth);
    out.append(piece.as_str());
    let piece = indent(depth);
    out.append(piece.as_str());
    out.append("}");
    out
}

/// A trait.
pub fn render_trait(x: &Trait, depth: usize) -> (r: String)
    ensures
        r@ == rendered_trait(x@, depth),
    decreases x,
{
    let mut out = String::new();
    let piece = match &x.attributes {
        Some(a) => {
            let mut inner = String::new();
            let piece = show_attribute_list(a);
            inner.append(piece.as_str());
            inner.append("\n");
            let piece = indent(depth);
            inner.append(piece.as_str());
            inner
        },
        None => String::new(),
    };
    out.append(piece.as_str());
    let piece = if x.is_public {
        let mut inner = String::new();
        inner.append("pub ");
        inner
    } else {
        String::new()
    };
    out.append(piece.as_str());
    out.append("trait ");
    out.append(x.name.as_str());
    let piece = match &x.generic_parameters {
        Some(g) => {
            let mut inner = String::new();
            let piece = show_generic_parameter_list(g);
            inner.append(piece.as_str());
            inner
        },
        None => String::new(),
    };
    out.append(piece.as_str());
    out.append(" {\n");
    let piece = render_trait_items(&x.items, depth);
    out.append(piece.as_str());
    let piece = indent(depth);
    out.append(piece.as_str());
    out.append("}");
    out
}

/// An item of a trait.
pub fn render_trait_item(x: &TraitItem, depth: usize) -> (r: String)
    ensures
        r@ == rendered_trait_item(x@, depth),
    decreases x,
{
    match x {
        TraitItem::Constant(x0) => {
            let mut out = String::new();
            let piece = render_constant(x0, depth);
            out.append(piece.as_str());
            out
        },
        TraitItem::TypeName(x0) => {
            let mut out = String::new();
            let piece = indent(depth);
            out.append(piece.as_str());
            let piece = show_generic_parameter(x0);
            out.append(piece.as_str());
            out
        },
        TraitItem::Function(x0) => {
            let mut out = String::new();
            let piece = render_function(x0, depth);
            out.append(piece.as_str());
            out
        },
    }
}

/// The storage block, one field on each line.
pub fn render_storage(x: &Storage, depth: usize) -> (r: String)
    ensures
        r@ == rendered_storage(x@, depth),
    decreases x,
{
    let mut out = String::new();
    out.append("storage {\n");
    let piece = render_storage_fields(&x.fields, depth);
    out.append(piece.as_str());
    let piece = indent(depth);
    out.append(piece.as_str());
    out.append("}");
    out
}

/// A field of the storage block.
pub fn render_storage_field(x: &StorageField, depth: usize) -> (r: String)
    ensures
        r@ == rendered_storage_field(x@, depth),
    decreases x,
{
    let mut out = String::new();
    out.append(x.name.as_str());
    out.append(": ");
    let piece = show_type_name(&x.ty);
    out.append(piece.as_str());
    out.append(" = ");
    let piece = render_expression(&x.value, depth);
    out.append(piece.as_str());
    out
}

/// The configurable block, one field on each line.
pub fn render_configurable(x: &Configurable, depth: usize) -> (r: String)
    ensures
        r@ == rendered_configurable(x@, depth),
    decreases x,
{
    let mut out = String::new();
    out.append("configurable {\n");
    let piece = render_configurable_fields(&x.fields, depth);
    out.append(piece.as_str());
    out.append("}\n");
    out
}

/// A field of the configurable block.
pub fn render_configurable_field(x: &ConfigurableField, depth: usize) -> (r: String)
    ensures
        r@ == rendered_configurable_field(x@, depth),
    decreases x,
{
    let mut out = String::new();
    out.append(x.name.as_str());
    out.append(": ");
    let piece = show_type_name(&x.ty);
    out.append(piece.as_str());
    out.append(" = ");
    let piece = render_expression(&x.value, depth);
    out.append(piece.as_str());
    out
}

/// A function: its signature, then its body or a semicolon.
pub fn render_function(x: &Function, depth: usize) -> (r: String)
    ensures
        r@ == rendered_function(x@, depth),
    decreases x,
{
    let mut out = String::new();
    let piece = match &x.attributes {
        Some(a) => {
            let mut inner = String::new();
            let piece = show_attribute_list(a);
            inner.append(piece.as_str());
            inner.append("\n");
            let piece = indent(depth);
            inner.append(piece.as_str());
            inner
        },
        None => String::new(),
    };
    out.append(piece.as_str());
    let piece = if x.is_public {
        let mut inner = String::new();
        inner.append("pub ");
        inner
    } else {
        String::new()
    };
    out.append(piece.as_str());
    out.append("fn ");
    out.append(x.name.as_str());
    let piece = match &x.generic_parameters {
        Some(g) => {
            let mut inner = String::new();
            let piece = show_generic_parameter_list(g);
            inner.append(piece.as_str());
            inner
        },
        None => String::new(),
    };
    out.append(piece.as_str());
    let piece = show_parameter_list(&x.parameters);
    out.append(piece.as_str());
    let piece = match &x.return_type {
        Some(r) => {
            let mut inner = String::new();
            inner.append(" -> ");
            let piece = show_type_name(r);
            inner.append(piece.as_str());
            inner
        },
        None => String::new(),
    };
    out.append(piece.as_str());
    let piece = match &x.body {
        Some(b) => {
            let mut inner = String::new();
            inner.append(" ");
            let piece = render_block(b, depth);
            inner.append(piece.as_str());
            inner
        },
        None => {
            let mut inner = String::new();
            inner.append(";");
            inner
        },
    };
    out.append(piece.as_str());
    out
}

/// A parameter.
pub fn show_parameter(x: &Parameter) -> (r: String)
    ensures
        r@ == shown_parameter(x@),
    decreases x,
{
    let mut out = String::new();
    let piece = if x.is_ref {
        let mut inner = String::new();
        inner.append("ref ");
        inner
    } else {
        String::new()
    };
    out.append(piece.as_str());
    let piece = if x.is_mut {
        let mut inner = String::new();
        inner.append("mut ");
        inner
    } else {
        String::new()
    };
    out.append(piece.as_str());
    out.append(x.name.as_str());
    let piece = match &x.ty {
        Some(t) => {
            let mut inner = String::new();
            inner.append(": ");
            let piece = show_type_name(t);
            inner.append(piece.as_str());
            inner
        },
        None => String::new(),
    };
    out.append(piece.as_str());
    out
}

/// Parameters between round brackets.
pub fn show_parameter_list(x: &ParameterList) -> (r: String)
    ensures
        r@ == shown_parameter_list(x@),
    decreases x,
{
    let mut out = String::new();
    out.append("(");
    let piece = show_parameters(&x.entries, 0);
    out.append(piece.as_str());
    out.append(")");
    out
}

/// An impl block, with a blank line between its items but not between two constants.
pub fn render_impl(x: &Impl, depth: usize) -> (r: String)
    ensures
        r@ == rendered_impl(x@, depth),
    decreases x,
{
    let mut out = String::new();
    out.append("impl");
    let piece = match &x.generic_parameters {
        Some(g) => {
            let mut inner = String::new();
            let piece = show_generic_parameter_list(g);
            inner.append(piece.as_str());
            inner
        },
        None => String::new(),
    };
    out.append(piece.as_str());
    out.append(" ");
    let piece = show_type_name(&x.ty);
    out.append(piece.as_str());
    let piece = match &x.for_type_name {
        Some(t) => {
            let mut inner = String::new();
            inner.append(" for ");
            let piece = show_type_name(t);
            inner.append(piece.as_str());
            inner
        },
        None => String::new(),
    };
    out.append(piece.as_str());
    out.append(" {\n");
    let piece = render_impl_items(&x.items, depth);
    out.append(piece.as_str());
    out.append("}");
    out
}

/// An item of an impl block.
pub fn render_impl_item(x: &ImplItem, depth: usize) -> (r: String)
    ensures
        r@ == rendered_impl_item(x@, depth),
    decreases x,
{
    match x {
        ImplItem::Constant(x0) => {
            let mut out = String::new();
            let piece = render_constant(x0, depth);
            out.append(piece.as_str());
            out
        },
        ImplItem::TypeDefinition(x0) => {
            let mut out = String::new();
            let piece = indent(depth);
            out.append(piece.as_str());
            let piece = show_type_definition(x0);
            out.append(piece.as_str());
            out
        },
        ImplItem::Function(x0) => {
            let mut out = String::new();
            let piece = render_function(x0, depth);
            out.append(piece.as_str());
            out
        },
    }
}

/// A block: each statement and the final expression on a line of its own.
pub fn render_block(x: &Block, depth: usize) -> (r: String)
    ensures
        r@ == rendered_block(x@, depth),
    decreases x,
{
    let mut out = String::new();
    out.append("{\n");
    let piece = render_statements(&x.statements, depth);
    out.append(piece.as_str());
    let piece = match &x.final_expr {
        Some(e) => {
            let mut inner = String::new();
            let piece = indent(deeper_level(depth));
            inner.append(piece.as_str());
            let piece = render_expression(e, deeper_level(depth));
            inner.append(piece.as_str());
            inner.append("\n");
            inner
        },
        None => String::new(),
    };
    out.append(piece.as_str());
    let piece = indent(depth);
    out.append(piece.as_str());
    out.append("}");
    out
}

/// A statement; a semicolon ends it unless it ends with a block.
pub fn render_statement(x: &Statement, depth: usize) -> (r: String)
    ensures
        r@ == rendered_statement(x@, depth),
    decreases x,
{
    match x {
        Statement::Let(x0) => {
            let mut out = String::new();
            let piece = render_let(x0, depth);
            out.append(piece.as_str());
            out.append(";");
            out
        },
        Statement::Expression(x0) => {
            let mut out = String::new();
            let piece = render_expression(x0, depth);
            out.append(piece.as_str());
            let piece = if ends_in_block(x0) {
                String::new()
            } else {
                let mut inner = String::new();
                inner.append(";");
                inner
            };
            out.append(piece.as_str());
            out
        },
    }
}

/// A `let` declaration.
pub fn render_let(x: &Let, depth: usize) -> (r: String)
    ensures
        r@ == rendered_let(x@, depth),
    decreases x,
{
    let mut out = String::new();
    out.append("let ");
    let piece = show_let_pattern(&x.pattern);
    out.append(piece.as_str());
    let piece = match &x.ty {
        Some(t) => {
            let mut inner = String::new();
            inner.append(": ");
            let piece = show_type_name(t);
            inner.append(piece.as_str());
            inner
        },
        None => String::new(),
    };
    out.append(piece.as_str());
    out.append(" = ");
    let piece = render_expression(&x.value, depth);
    out.append(piece.as_str());
    out
}

/// The pattern of a `let` declaration.
pub fn show_let_pattern(x: &LetPattern) -> (r: String)
    ensures
        r@ == shown_let_pattern(x@),
    decreases x,
{
    match x {
        LetPattern::Identifier(x0) => {
            let mut out = String::new();
            let piece = show_let_identifier(x0);
            out.append(piece.as_str());
            out
        },
        LetPattern::Tuple(x0) => {
            let mut out = String::new();
            out.append("(");
            let piece = show_let_identifiers(x0, 0);
            out.append(piece.as_str());
            out.append(")");
            out
        },
    }
}

/// A name bound by a `let` declaration.
pub fn show_let_identifier(x: &LetIdentifier) -> (r: String)
    ensures
        r@ == shown_let_identifier(x@),
    decreases x,
{
    let mut out = String::new();
    let piece = if x.is_mutable {
        let mut inner = String::new();
        inner.append("mut ");
        inner
    } else {
        String::new()
    };
    out.append(piece.as_str());
    out.append(x.name.as_str());
    out
}

/// An expression.
pub fn render_expression(x: &Expression, depth: usize) -> (r: String)
    ensures
        r@ == rendered_expression(x@, depth),
    decreases x,
{
    match x {
        Expression::Literal(x0) => {
            let mut out = String::new();
            let piece = show_literal(x0);
            out.append(piece.as_str());
            out
        },
        Expression::Identifier(x0) => {
            let mut out = String::new();
            out.append(x0.as_str());
            out
        },
        Expression::FunctionCall(x0) => {
            let mut out = String::new();
            let piece = render_function_call(&**x0, depth);
            out.append(piece.as_str());
            out
        },
        Expression::Block(x0) => {
            let mut out = String::new();
            let piece = render_block(&**x0, depth);
            out.append(piece.as_str());
            out
        },
        Expression::Return(x0) => {
            let mut out = String::new();
            out.append("return");
            let piece = match x0 {
                Some(v) => {
                    let mut inner = String::new();
                    inner.append(" ");
                    let piece = render_expression(&**v, depth);
                    inner.append(piece.as_str());
                    inner
                },
                None => String::new(),
            };
            out.append(piece.as_str());
            out
        },
        Expression::Array(x0) => {
            let mut out = String::new();
            let piece = render_array(x0, depth);
            out.append(piece.as_str());
            out
        },
        Expression::ArrayAccess(x0) => {
            let mut out = String::new();
            let piece = render_array_access(&**x0, depth);
            out.append(piece.as_str());
            out
        },
        Expression::MemberAccess(x0) => {
            let mut out = String::new();
            let piece = render_member_access(&**x0, depth);
            out.append(piece.as_str());
            out
        },
        Expression::Tuple(x0) => {
            let mut out = String::new();
            out.append("(");
            let piece = render_expressions(x0, depth);
            out.append(piece.as_str());
            out.append(")");
            out
        },
        Expression::If(x0) => {
            let mut out = String::new();
            let piece = render_if(&**x0, depth);
            out.append(piece.as_str());
            out
        },
        Expression::Match(x0) => {
            let mut out = String::new();
            let piece = render_match(&**x0, depth);
            out.append(piece.as_str());
            out
        },
        Expression::While(x0) => {
            let mut out = String::new();
            let piece = render_while(&**x0, depth);
            out.append(piece.as_str());
            out
        },
        Expression::UnaryExpression(x0) => {
            let mut out = String::new();
            let piece = render_unary_expression(&**x0, depth);
            out.append(piece.as_str());
            out
        },
        Expression::BinaryExpression(x0) => {
            let mut out = String::new();
            let piece = render_binary_expression(&**x0, depth);
            out.append(piece.as_str());
            out
        },
        Expression::Constructor(x0) => {
            let mut out = String::new();
            let piece = render_constructor(&**x0, depth);
            out.append(piece.as_str());
            out
        },
        Expression::Continue => {
            let mut out = String::new();
            out.append("continue");
            out
        },
        Expression::Break => {
            let mut out = String::new();
            out.append("break");
            out
        },
        Expression::AsmBlock(x0) => {
            let mut out = String::new();
            let piece = render_asm_block(&**x0, depth);
            out.append(piece.as_str());
            out
        },
        Expression::Commented(x0, x1) => {
            let mut out = String::new();
            out.append("/*");
            out.append(x0.as_str());
            out.append("*/ ");
            let piece = render_expression(&**x1, depth);
            out.append(piece.as_str());
            out
        },
    }
}

/// A call.
pub fn render_function_call(x: &FunctionCall, depth: usize) -> (r: String)
    ensures
        r@ == rendered_function_call(x@, depth),
    decreases x,
{
    let mut out = String::new();
    let piece = render_expression(&x.function, depth);
    out.append(piece.as_str());
    let piece = match &x.generic_parameters {
        Some(g) => {
            let mut inner = String::new();
            inner.append("::");
            let piece = show_generic_parameter_list(g);
            inner.append(piece.as_str());
            inner
        },
        None => String::new(),
    };
    out.append(piece.as_str());
    out.append("(");
    let piece = render_expressions(&x.parameters, depth);
    out.append(piece.as_str());
    out.append(")");
    out
}

/// An array literal.
pub fn render_array(x: &Array, depth: usize) -> (r: String)
    ensures
        r@ == rendered_array(x@, depth),
    decreases x,
{
    let mut out = String::new();
    out.append("[");
    let piece = render_expressions(&x.elements, depth);
    out.append(piece.as_str());
    out.append("]");
    out
}

/// An indexing expression.
pub fn render_array_access(x: &ArrayAccess, depth: usize) -> (r: String)
    ensures
        r@ == rendered_array_access(x@, depth),
    decreases x,
{
    let mut out = String::new();
    let piece = render_expression(&x.expression, depth);
    out.append(piece.as_str());
    out.append("[");
    let piece = render_expression(&x.index, depth);
    out.append(piece.as_str());
    out.append("]");
    out
}

/// A member access.
pub fn render_member_access(x: &MemberAccess, depth: usize) -> (r: String)
    ensures
        r@ == rendered_member_access(x@, depth),
    decreases x,
{
    let mut out = String::new();
    let piece = render_expression(&x.expression, depth);
    out.append(piece.as_str());
    out.append(".");
    out.append(x.member.as_str());
    out
}

/// A conditional and what follows its `else`.
pub fn render_if(x: &If, depth: usize) -> (r: String)
    ensures
        r@ == rendered_if(x@, depth),
    decreases x,
{
    let mut out = String::new();
    let piece = match &x.condition {
        Some(c) => {
            let mut inner = String::new();
            inner.append("if ");
            let piece = render_expression(c, depth);
            inner.append(piece.as_str());
            inner.append(" ");
            inner
        },
        None => String::new(),
    };
    out.append(piece.as_str());
    let piece = render_block(&x.then_body, depth);
    out.append(piece.as_str());
    let piece = match &x.else_if {
        Some(e) => {
            let mut inner = String::new();
            inner.append(" else ");
            let piece = render_if(&**e, depth);
            inner.append(piece.as_str());
            inner
        },
        None => String::new(),
    };
    out.append(piece.as_str());
    out
}

/// A `match` expression, one arm on each line.
pub fn render_match(x: &Match, depth: usize) -> (r: String)
    ensures
        r@ == rendered_match(x@, depth),
    decreases x,
{
    let mut out = String::new();
    out.append("match ");
    let piece = render_expression(&x.expression, depth);
    out.append(piece.as_str());
    out.append(" {\n");
    let piece = render_match_branches(&x.branches, depth);
    out.append(piece.as_str());
    let piece = indent(depth);
    out.append(piece.as_str());
    out.append("}");
    out
}

/// An arm of a `match` expression.
pub fn render_match_branch(x: &MatchBranch, depth: usize) -> (r: String)
    ensures
        r@ == rendered_match_branch(x@, depth),
    decreases x,
{
    let mut out = String::new();
    let piece = render_expression(&x.pattern, depth);
    out.append(piece.as_str());
    out.append(" => ");
    let piece = render_expression(&x.value, depth);
    out.append(piece.as_str());
    out.append(",");
    out
}

/// A `while` loop.
pub fn render_while(x: &While, depth: usize) -> (r: String)
    ensures
        r@ == rendered_while(x@, depth),
    decreases x,
{
    let mut out = String::new();
    out.append("while ");
    let piece = render_expression(&x.condition, depth);
    out.append(piece.as_str());
    out.append(" ");
    let piece = render_block(&x.body, depth);
    out.append(piece.as_str());
    out
}

/// A prefix operation.
pub fn render_unary_expression(x: &UnaryExpression, depth: usize) -> (r: String)
    ensures
        r@ == rendered_unary_expression(x@, depth),
    decreases x,
{
    let mut out = String::new();
    out.append(x.operator.as_str());
    let piece = render_expression(&x.expression, depth);
    out.append(piece.as_str());
    out
}

/// An infix operation.
pub fn render_binary_expression(x: &BinaryExpression, depth: usize) -> (r: String)
    ensures
        r@ == rendered_binary_expression(x@, depth),
    decreases x,
{
    let mut out = String::new();
    let piece = render_expression(&x.lhs, depth);
    out.append(piece.as_str());
    out.append(" ");
    out.append(x.operator.as_str());
    out.append(" ");
    let piece = render_expression(&x.rhs, depth);
    out.append(piece.as_str());
    out
}

/// A struct literal, one field on each line.
pub fn render_constructor(x: &Constructor, depth: usize) -> (r: String)
    ensures
        r@ == rendered_constructor(x@, depth),
    decreases x,
{
    let mut out = String::new();
    let piece = show_type_name(&x.ty);
    out.append(piece.as_str());
    out.append(" {");
    let piece = if x.fields.len() > 0 {
        let mut inner = String::new();
        inner.append("\n");
        inner
    } else {
        String::new()
    };
    out.append(piece.as_str());
    let piece = render_constructor_fields(&x.fields, depth);
    out.append(piece.as_str());
    out.append("}");
    out
}

/// A field of a struct literal.
pub fn render_constructor_field(x: &ConstructorField, depth: usize) -> (r: String)
    ensures
        r@ == rendered_constructor_field(x@, depth),
    decreases x,
{
    let mut out = String::new();
    out.append(x.name.as_str());
    out.append(": ");
    let piece = render_expression(&x.value, depth);
    out.append(piece.as_str());
    out
}

/// An `asm` block.
pub fn render_asm_block(x: &AsmBlock, depth: usize) -> (r: String)
    ensures
        r@ == rendered_asm_block(x@, depth),
    decreases x,
{
    let mut out = String::new();
    out.append("asm (");
    let piece = render_asm_registers(&x.registers, depth);
    out.append(piece.as_str());
    out.append(") {\n");
    let piece = render_asm_instructions(&x.instructions, depth);
    out.append(piece.as_str());
    let piece = match &x.final_expression {
        Some(e) => {
            let mut inner = String::new();
            let piece = indent(deeper_level(depth));
            inner.append(piece.as_str());
            let piece = show_asm_final_expression(e);
            inner.append(piece.as_str());
            inner.append("\n");
            inner
        },
        None => String::new(),
    };
    out.append(piece.as_str());
    let piece = indent(depth);
    out.append(piece.as_str());
    out.append("}");
    out
}

/// A register of an `asm` block.
pub fn render_asm_register(x: &AsmRegister, depth: usize) -> (r: String)
    ensures
        r@ == rendered_asm_register(x@, depth),
    decreases x,
{
    let mut out = String::new();
    let piece = indent(depth);
    out.append(piece.as_str());
    out.append(x.name.as_str());
    let piece = match &x.value {
        Some(v) => {
            let mut inner = String::new();
            inner.append(": ");
            let piece = render_expression(v, depth);
            inner.append(piece.as_str());
            inner
        },
        None => String::new(),
    };
    out.append(piece.as_str());
    out
}

/// An instruction of an `asm` block.
pub fn show_asm_instruction(x: &AsmInstruction) -> (r: String)
    ensures
        r@ == shown_asm_instruction(x@),
    decreases x,
{
    let mut out = String::new();
    out.append(x.op_code.as_str());
    let piece = show_arguments(&x.args, 0);
    out.append(piece.as_str());
    out.append(";");
    out
}

/// The register that an `asm` block returns.
pub fn show_asm_final_expression(x: &AsmFinalExpression) -> (r: String)
    ensures
        r@ == shown_asm_final_expression(x@),
    decreases x,
{
    let mut out = String::new();
    out.append(x.register.as_str());
    let piece = match &x.ty {
        Some(t) => {
            let mut inner = String::new();
            inner.append(": ");
            let piece = show_type_name(t);
            inner.append(piece.as_str());
            inner
        },
        None => String::new(),
    };
    out.append(piece.as_str());
    out
}

} // verus!
