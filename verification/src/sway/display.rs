//! Texts at a depth.

use vstd::prelude::*;
use vstd::string::StringExecFns;
use crate::sway::{
    Abi, Array, ArrayAccess, AsmBlock, AsmFinalExpression, AsmInstruction, AsmRegister, Attribute,
    AttributeList, BinaryExpression, Block, Configurable, ConfigurableField, Constant, Constructor,
    ConstructorField, Enum, EnumVariant, Expression, Function, FunctionCall, GenericParameter,
    GenericParameterList, If, Impl, ImplItem, Let, LetIdentifier, LetPattern, Literal, Match, MatchBranch,
    MemberAccess, Module, ModuleItem, ModuleKind, Parameter, ParameterList, Statement, Storage, StorageField,
    Struct, StructField, Trait, TraitItem, TypeDefinition, TypeName, UnaryExpression, Use, UseTree, While,
};
use crate::sway::render::{
    indent, indentation, render_abi, render_array, render_array_access, render_asm_block,
    render_asm_register, render_binary_expression, render_block, render_configurable,
    render_configurable_field, render_constant, render_constructor, render_constructor_field, render_enum,
    render_expression, render_function, render_function_call, render_if, render_impl, render_impl_item,
    render_let, render_match, render_match_branch, render_member_access, render_module, render_module_item,
    render_statement, render_storage, render_storage_field, render_struct, render_trait, render_trait_item,
    render_unary_expression, render_while, rendered_abi, rendered_array, rendered_array_access,
    rendered_asm_block, rendered_asm_register, rendered_binary_expression, rendered_block,
    rendered_configurable, rendered_configurable_field, rendered_constant, rendered_constructor,
    rendered_constructor_field, rendered_enum, rendered_expression, rendered_function,
    rendered_function_call, rendered_if, rendered_impl, rendered_impl_item, rendered_let, rendered_match,
    rendered_match_branch, rendered_member_access, rendered_module, rendered_module_item, rendered_statement,
    rendered_storage, rendered_storage_field, rendered_struct, rendered_trait, rendered_trait_item,
    rendered_unary_expression, rendered_while, show_asm_final_expression, show_asm_instruction,
    show_attribute, show_attribute_list, show_enum_variant, show_generic_parameter,
    show_generic_parameter_list, show_let_identifier, show_let_pattern, show_literal, show_module_kind,
    show_parameter, show_parameter_list, show_struct_field, show_type_definition, show_type_name, show_use,
    show_use_tree, shown_asm_final_expression, shown_asm_instruction, shown_attribute, shown_attribute_list,
    shown_enum_variant, shown_generic_parameter, shown_generic_parameter_list, shown_let_identifier,
    shown_let_pattern, shown_literal, shown_module_kind, shown_parameter, shown_parameter_list,
    shown_struct_field, shown_type_definition, shown_type_name, shown_use, shown_use_tree,
};

verus! {

/// What can be written out at a depth of nesting: the lines that the text
/// starts after its first are indented for that depth. A text without
/// line breaks is indented as a whole.
pub trait TabbedDisplay {
    /// The text at the given depth.
    spec fn tabbed_view(&self, depth: usize) -> Seq<char>;

    /// Writes the text at the given depth.
    fn tabbed_text(&self, depth: usize) -> (r: String)
        ensures
            r@ == self.tabbed_view(depth),
    ;
}

/// A node together with the way to write it out from the outermost level.
pub struct TabbedDisplayer<'a, T: TabbedDisplay>(pub &'a T);

impl<'a, T: TabbedDisplay> TabbedDisplayer<'a, T> {
    /// The text of the node at depth 0.
    pub fn text(&self) -> (r: String)
        ensures
            r@ == self.0.tabbed_view(0),
    {
        self.0.tabbed_text(0)
    }
}

impl TabbedDisplay for ModuleKind {
    open spec fn tabbed_view(&self, depth: usize) -> Seq<char> {
        indentation(depth) + shown_module_kind(self@)
    }

    fn tabbed_text(&self, depth: usize) -> (r: String) {
        let mut out = indent(depth);
        let piece = show_module_kind(self);
        out.append(piece.as_str());
        out
    }
}

impl TabbedDisplay for Module {
    open spec fn tabbed_view(&self, depth: usize) -> Seq<char> {
        rendered_module(self@, depth)
    }

    fn tabbed_text(&self, depth: usize) -> (r: String) {
        render_module(self, depth)
    }
}

impl TabbedDisplay for ModuleItem {
    open spec fn tabbed_view(&self, depth: usize) -> Seq<char> {
        rendered_module_item(self@, depth)
    }

    fn tabbed_text(&self, depth: usize) -> (r: String) {
        render_module_item(self, depth)
    }
}

impl TabbedDisplay for Use {
    open spec fn tabbed_view(&self, depth: usize) -> Seq<char> {
        indentation(depth) + shown_use(self@)
    }

    fn tabbed_text(&self, depth: usize) -> (r: String) {
        let mut out = indent(depth);
        let piece = show_use(self);
        out.append(piece.as_str());
        out
    }
}

impl TabbedDisplay for UseTree {
    open spec fn tabbed_view(&self, depth: usize) -> Seq<char> {
        indentation(depth) + shown_use_tree(self@)
    }

    fn tabbed_text(&self, depth: usize) -> (r: String) {
        let mut out = indent(depth);
        let piece = show_use_tree(self);
        out.append(piece.as_str());
        out
    }
}

impl TabbedDisplay for GenericParameter {
    open spec fn tabbed_view(&self, depth: usize) -> Seq<char> {
        indentation(depth) + shown_generic_parameter(self@)
    }

    fn tabbed_text(&self, depth: usize) -> (r: String) {
        let mut out = indent(depth);
        let piece = show_generic_parameter(self);
        out.append(piece.as_str());
        out
    }
}

impl TabbedDisplay for GenericParameterList {
    open spec fn tabbed_view(&self, depth: usize) -> Seq<char> {
        indentation(depth) + shown_generic_parameter_list(self@)
    }

    fn tabbed_text(&self, depth: usize) -> (r: String) {
        let mut out = indent(depth);
        let piece = show_generic_parameter_list(self);
        out.append(piece.as_str());
        out
    }
}

impl TabbedDisplay for Attribute {
    open spec fn tabbed_view(&self, depth: usize) -> Seq<char> {
        indentation(depth) + shown_attribute(self@)
    }

    fn tabbed_text(&self, depth: usize) -> (r: String) {
        let mut out = indent(depth);
        let piece = show_attribute(self);
        out.append(piece.as_str());
        out
    }
}

impl TabbedDisplay for AttributeList {
    open spec fn tabbed_view(&self, depth: usize) -> Seq<char> {
        indentation(depth) + shown_attribute_list(self@)
    }

    fn tabbed_text(&self, depth: usize) -> (r: String) {
        let mut out = indent(depth);
        let piece = show_attribute_list(self);
        out.append(piece.as_str());
        out
    }
}

impl TabbedDisplay for TypeName {
    open spec fn tabbed_view(&self, depth: usize) -> Seq<char> {
        indentation(depth) + shown_type_name(self@)
    }

    fn tabbed_text(&self, depth: usize) -> (r: String) {
        let mut out = indent(depth);
        let piece = show_type_name(self);
        out.append(piece.as_str());
        out
    }
}

impl TabbedDisplay for TypeDefinition {
    open spec fn tabbed_view(&self, depth: usize) -> Seq<char> {
        indentation(depth) + shown_type_definition(self@)
    }

    fn tabbed_text(&self, depth: usize) -> (r: String) {
        let mut out = indent(depth);
        let piece = show_type_definition(self);
        out.append(piece.as_str());
        out
    }
}

impl TabbedDisplay for Constant {
    open spec fn tabbed_view(&self, depth: usize) -> Seq<char> {
        rendered_constant(self@, depth)
    }

    fn tabbed_text(&self, depth: usize) -> (r: String) {
        render_constant(self, depth)
    }
}

impl TabbedDisplay for Literal {
    open spec fn tabbed_view(&self, depth: usize) -> Seq<char> {
        indentation(depth) + shown_literal(self@)
    }

    fn tabbed_text(&self, depth: usize) -> (r: String) {
        let mut out = indent(depth);
        let piece = show_literal(self);
        out.append(piece.as_str());
        out
    }
}

impl TabbedDisplay for Struct {
    open spec fn tabbed_view(&self, depth: usize) -> Seq<char> {
        rendered_struct(self@, depth)
    }

    fn tabbed_text(&self, depth: usize) -> (r: String) {
        render_struct(self, depth)
    }
}

impl TabbedDisplay for StructField {
    open spec fn tabbed_view(&self, depth: usize) -> Seq<char> {
        indentation(depth) + shown_struct_field(self@)
    }

    fn tabbed_text(&self, depth: usize) -> (r: String) {
        let mut out = indent(depth);
        let piece = show_struct_field(self);
        out.append(piece.as_str());
        out
    }
}

impl TabbedDisplay for Enum {
    open spec fn tabbed_view(&self, depth: usize) -> Seq<char> {
        rendered_enum(self@, depth)
    }

    fn tabbed_text(&self, depth: usize) -> (r: String) {
        render_enum(self, depth)
    }
}

impl TabbedDisplay for EnumVariant {
    open spec fn tabbed_view(&self, depth: usize) -> Seq<char> {
        indentation(depth) + shown_enum_variant(self@)
    }

    fn tabbed_text(&self, depth: usize) -> (r: String) {
        let mut out = indent(depth);
        let piece = show_enum_variant(self);
        out.append(piece.as_str());
        out
    }
}

impl TabbedDisplay for Abi {
    open spec fn tabbed_view(&self, depth: usize) -> Seq<char> {
        rendered_abi(self@, depth)
    }

    fn tabbed_text(&self, depth: usize) -> (r: String) {
        render_abi(self, depth)
    }
}

impl TabbedDisplay for Trait {
    open spec fn tabbed_view(&self, depth: usize) -> Seq<char> {
        rendered_trait(self@, depth)
    }

    fn tabbed_text(&self, depth: usize) -> (r: String) {
        render_trait(self, depth)
    }
}

impl TabbedDisplay for TraitItem {
    open spec fn tabbed_view(&self, depth: usize) -> Seq<char> {
        rendered_trait_item(self@, depth)
    }

    fn tabbed_text(&self, depth: usize) -> (r: String) {
        render_trait_item(self, depth)
    }
}

impl TabbedDisplay for Storage {
    open spec fn tabbed_view(&self, depth: usize) -> Seq<char> {
        rendered_storage(self@, depth)
    }

    fn tabbed_text(&self, depth: usize) -> (r: String) {
        render_storage(self, depth)
    }
}

impl TabbedDisplay for StorageField {
    open spec fn tabbed_view(&self, depth: usize) -> Seq<char> {
        rendered_storage_field(self@, depth)
    }

    fn tabbed_text(&self, depth: usize) -> (r: String) {
        render_storage_field(self, depth)
    }
}

impl TabbedDisplay for Configurable {
    open spec fn tabbed_view(&self, depth: usize) -> Seq<char> {
        rendered_configurable(self@, depth)
    }

    fn tabbed_text(&self, depth: usize) -> (r: String) {
        render_configurable(self, depth)
    }
}

impl TabbedDisplay for ConfigurableField {
    open spec fn tabbed_view(&self, depth: usize) -> Seq<char> {
        rendered_configurable_field(self@, depth)
    }

    fn tabbed_text(&self, depth: usize) -> (r: String) {
        render_configurable_field(self, depth)
    }
}

impl TabbedDisplay for Function {
    open spec fn tabbed_view(&self, depth: usize) -> Seq<char> {
        rendered_function(self@, depth)
    }

    fn tabbed_text(&self, depth: usize) -> (r: String) {
        render_function(self, depth)
    }
}

impl TabbedDisplay for Parameter {
    open spec fn tabbed_view(&self, depth: usize) -> Seq<char> {
        indentation(depth) + shown_parameter(self@)
    }

    fn tabbed_text(&self, depth: usize) -> (r: String) {
        let mut out = indent(depth);
        let piece = show_parameter(self);
        out.append(piece.as_str());
        out
    }
}

impl TabbedDisplay for ParameterList {
    open spec fn tabbed_view(&self, depth: usize) -> Seq<char> {
        indentation(depth) + shown_parameter_list(self@)
    }

    fn tabbed_text(&self, depth: usize) -> (r: String) {
        let mut out = indent(depth);
        let piece = show_parameter_list(self);
        out.append(piece.as_str());
        out
    }
}

impl TabbedDisplay for Impl {
    open spec fn tabbed_view(&self, depth: usize) -> Seq<char> {
        rendered_impl(self@, depth)
    }

    fn tabbed_text(&self, depth: usize) -> (r: String) {
        render_impl(self, depth)
    }
}

impl TabbedDisplay for ImplItem {
    open spec fn tabbed_view(&self, depth: usize) -> Seq<char> {
        rendered_impl_item(self@, depth)
    }

    fn tabbed_text(&self, depth: usize) -> (r: String) {
        render_impl_item(self, depth)
    }
}

impl TabbedDisplay for Block {
    open spec fn tabbed_view(&self, depth: usize) -> Seq<char> {
        rendered_block(self@, depth)
    }

    fn tabbed_text(&self, depth: usize) -> (r: String) {
        render_block(self, depth)
    }
}

impl TabbedDisplay for Statement {
    open spec fn tabbed_view(&self, depth: usize) -> Seq<char> {
        rendered_statement(self@, depth)
    }

    fn tabbed_text(&self, depth: usize) -> (r: String) {
        render_statement(self, depth)
    }
}

impl TabbedDisplay for Let {
    open spec fn tabbed_view(&self, depth: usize) -> Seq<char> {
        rendered_let(self@, depth)
    }

    fn tabbed_text(&self, depth: usize) -> (r: String) {
        render_let(self, depth)
    }
}

impl TabbedDisplay for LetPattern {
    open spec fn tabbed_view(&self, depth: usize) -> Seq<char> {
        indentation(depth) + shown_let_pattern(self@)
    }

    fn tabbed_text(&self, depth: usize) -> (r: String) {
        let mut out = indent(depth);
        let piece = show_let_pattern(self);
        out.append(piece.as_str());
        out
    }
}

impl TabbedDisplay for LetIdentifier {
    open spec fn tabbed_view(&self, depth: usize) -> Seq<char> {
        indentation(depth) + shown_let_identifier(self@)
    }

    fn tabbed_text(&self, depth: usize) -> (r: String) {
        let mut out = indent(depth);
        let piece = show_let_identifier(self);
        out.append(piece.as_str());
        out
    }
}

impl TabbedDisplay for Expression {
    open spec fn tabbed_view(&self, depth: usize) -> Seq<char> {
        rendered_expression(self@, depth)
    }

    fn tabbed_text(&self, depth: usize) -> (r: String) {
        render_expression(self, depth)
    }
}

impl TabbedDisplay for FunctionCall {
    open spec fn tabbed_view(&self, depth: usize) -> Seq<char> {
        rendered_function_call(self@, depth)
    }

    fn tabbed_text(&self, depth: usize) -> (r: String) {
        render_function_call(self, depth)
    }
}

impl TabbedDisplay for Array {
    open spec fn tabbed_view(&self, depth: usize) -> Seq<char> {
        rendered_array(self@, depth)
    }

    fn tabbed_text(&self, depth: usize) -> (r: String) {
        render_array(self, depth)
    }
}

impl TabbedDisplay for ArrayAccess {
    open spec fn tabbed_view(&self, depth: usize) -> Seq<char> {
        rendered_array_access(self@, depth)
    }

    fn tabbed_text(&self, depth: usize) -> (r: String) {
        render_array_access(self, depth)
    }
}

impl TabbedDisplay for MemberAccess {
    open spec fn tabbed_view(&self, depth: usize) -> Seq<char> {
        rendered_member_access(self@, depth)
    }

    fn tabbed_text(&self, depth: usize) -> (r: String) {
        render_member_access(self, depth)
    }
}

impl TabbedDisplay for If {
    open spec fn tabbed_view(&self, depth: usize) -> Seq<char> {
        rendered_if(self@, depth)
    }

    fn tabbed_text(&self, depth: usize) -> (r: String) {
        render_if(self, depth)
    }
}

impl TabbedDisplay for Match {
    open spec fn tabbed_view(&self, depth: usize) -> Seq<char> {
        rendered_match(self@, depth)
    }

    fn tabbed_text(&self, depth: usize) -> (r: String) {
        render_match(self, depth)
    }
}

impl TabbedDisplay for MatchBranch {
    open spec fn tabbed_view(&self, depth: usize) -> Seq<char> {
        rendered_match_branch(self@, depth)
    }

    fn tabbed_text(&self, depth: usize) -> (r: String) {
        render_match_branch(self, depth)
    }
}

impl TabbedDisplay for While {
    open spec fn tabbed_view(&self, depth: usize) -> Seq<char> {
        rendered_while(self@, depth)
    }

    fn tabbed_text(&self, depth: usize) -> (r: String) {
        render_while(self, depth)
    }
}

impl TabbedDisplay for UnaryExpression {
    open spec fn tabbed_view(&self, depth: usize) -> Seq<char> {
        rendered_unary_expression(self@, depth)
    }

    fn tabbed_text(&self, depth: usize) -> (r: String) {
        render_unary_expression(self, depth)
    }
}

impl TabbedDisplay for BinaryExpression {
    open spec fn tabbed_view(&self, depth: usize) -> Seq<char> {
        rendered_binary_expression(self@, depth)
    }

    fn tabbed_text(&self, depth: usize) -> (r: String) {
        render_binary_expression(self, depth)
    }
}

impl TabbedDisplay for Constructor {
    open spec fn tabbed_view(&self, depth: usize) -> Seq<char> {
        rendered_constructor(self@, depth)
    }

    fn tabbed_text(&self, depth: usize) -> (r: String) {
        render_constructor(self, depth)
    }
}

impl TabbedDisplay for ConstructorField {
    open spec fn tabbed_view(&self, depth: usize) -> Seq<char> {
        rendered_constructor_field(self@, depth)
    }

    fn tabbed_text(&self, depth: usize) -> (r: String) {
        render_constructor_field(self, depth)
    }
}

impl TabbedDisplay for AsmBlock {
    open spec fn tabbed_view(&self, depth: usize) -> Seq<char> {
        rendered_asm_block(self@, depth)
    }

    fn tabbed_text(&self, depth: usize) -> (r: String) {
        render_asm_block(self, depth)
    }
}

impl TabbedDisplay for AsmRegister {
    open spec fn tabbed_view(&self, depth: usize) -> Seq<char> {
        rendered_asm_register(self@, depth)
    }

    fn tabbed_text(&self, depth: usize) -> (r: String) {
        render_asm_register(self, depth)
    }
}

impl TabbedDisplay for AsmInstruction {
    open spec fn tabbed_view(&self, depth: usize) -> Seq<char> {
        indentation(depth) + shown_asm_instruction(self@)
    }

    fn tabbed_text(&self, depth: usize) -> (r: String) {
        let mut out = indent(depth);
        let piece = show_asm_instruction(self);
        out.append(piece.as_str());
        out
    }
}

impl TabbedDisplay for AsmFinalExpression {
    open spec fn tabbed_view(&self, depth: usize) -> Seq<char> {
        indentation(depth) + shown_asm_final_expression(self@)
    }

    fn tabbed_text(&self, depth: usize) -> (r: String) {
        let mut out = indent(depth);
        let piece = show_asm_final_expression(self);
        out.append(piece.as_str());
        out
    }
}

} // verus!
