//! The type of an expression of the target language.
//!
//! Containers of the target language are generic, so that lowering an index,
//! a member access or a method call needs the type of the expression it is
//! applied to. That type is recovered from the expression itself, the
//! definition it belongs to and the scope it stands in.

use vstd::prelude::*;
use crate::errors::{Error, ErrorView};
use crate::sway::{
    Abi, Block, Expression, Function, ImplItem, LetIdentifier, Literal, Statement, Struct, StructField,
    TypeName,
};
use crate::sway::model::{
    abi_models, AbiView, expression_models, ExpressionView, function_models, FunctionView,
    GenericParameterListView, impl_item_models, ImplItemView, LetIdentifierView, LetPatternView, LiteralView,
    StatementView, struct_field_models, struct_models, StructFieldView, StructView, type_name_models,
    TypeNameView,
};
use crate::sway::typing::{
    generic_type, generic_type1, generic_type2, named_type, pair_type, pair_type_name, type_named, unit_type,
    unit_type_name,
};
use crate::text::{join3, text, text_eq};
use crate::translate::{TranslatedDefinition, TranslatedEnum, TranslatedVariable, TranslationScope};
use crate::translate::model::{
    translated_enum_models, TranslatedDefinitionView, TranslatedEnumView, TranslatedVariableView,
    TranslationScopeView,
};
use crate::translate::scope::{first_match, first_where, last_where, variable_view};

verus! {

/// The value of an optional type.
pub open spec fn type_view(t: Option<TypeName>) -> Option<TypeNameView> {
    match t {
        Some(t) => Some(t@),
        None => None,
    }
}

/// The value of the outcome of typing an expression.
pub open spec fn typing_view(r: Result<TypeName, Error>) -> Result<TypeNameView, ErrorView> {
    match r {
        Ok(t) => Ok(t@),
        Err(e) => Err(e@),
    }
}

/// A local variable of the target language: it has no name in the source.
pub open spec fn local_variable(name: Seq<char>, ty: TypeNameView) -> TranslatedVariableView {
    TranslatedVariableView { new_name: name, ty, ..TranslatedVariableView::empty() }
}

/// The test "is the function named `name`".
pub open spec fn is_function_named(name: Seq<char>) -> spec_fn(FunctionView) -> bool {
    |f: FunctionView| f.name == name
}

/// The test "is the struct named `name`".
pub open spec fn is_struct_named(name: Seq<char>) -> spec_fn(StructView) -> bool {
    |s: StructView| s.name == name
}

/// The test "is the field named `name`".
pub open spec fn is_field_named(name: Seq<char>) -> spec_fn(StructFieldView) -> bool {
    |f: StructFieldView| f.name == name
}

/// The test "is the constant `identifier` of the type named `owner`",
/// where the identifier has the form `owner::constant`.
pub open spec fn is_constant_of(owner: Seq<char>, identifier: Seq<char>) -> spec_fn(ImplItemView) -> bool {
    |item: ImplItemView|
    match item {
        ImplItemView::Constant(c) => identifier == owner + "::"@ + c.name,
        _ => false,
    }
}

/// The test "is an enum with the variant `identifier`", where the
/// identifier has the form `Enum::Variant`.
pub open spec fn declares_variant(identifier: Seq<char>) -> spec_fn(TranslatedEnumView) -> bool {
    |e: TranslatedEnumView|
    match e.type_definition.name {
        TypeNameView::Identifier { name, generic_parameters: None } => first_match(
            e.variants_impl.items,
            is_constant_of(name, identifier),
        ) is Some,
        _ => false,
    }
}

/// The type of what a call of the function returns.
pub open spec fn returned_type(return_type: Option<TypeNameView>) -> TypeNameView {
    match return_type {
        Some(t) => t,
        None => unit_type(),
    }
}

/// The type that calling `member` of the abi returns, if the abi declares it.
pub open spec fn abi_function_type(abi: AbiView, member: Seq<char>) -> Option<TypeNameView> {
    match first_match(abi.functions, is_function_named(member)) {
        Some(f) => Some(returned_type(f.return_type)),
        None => None,
    }
}

/// The test "is the abi named `name` and declares `member`".
pub open spec fn declares_function(name: Seq<char>, member: Seq<char>) -> spec_fn(AbiView) -> bool {
    |abi: AbiView| abi.name == name && abi_function_type(abi, member) is Some
}

/// The type that calling `member` on a value of the contract type `name`
/// returns: as the definition's own abi declares it, if that abi has this
/// name and this function, or else as the first imported abi with this name
/// and this function declares it.
pub open spec fn interface_function_type(
    definition: TranslatedDefinitionView,
    name: Seq<char>,
    member: Seq<char>,
) -> Option<TypeNameView> {
    if definition.abi is Some && declares_function(name, member)(definition.abi->0) {
        abi_function_type(definition.abi->0, member)
    } else {
        match first_match(definition.abis, declares_function(name, member)) {
            Some(abi) => abi_function_type(abi, member),
            None => None,
        }
    }
}

/// The type of a call of the method `member` on what a storage key of type
/// `value` points to, for the storage containers.
pub open spec fn stored_method_type(value: TypeNameView, member: Seq<char>) -> Option<TypeNameView> {
    match value {
        TypeNameView::Identifier { name, generic_parameters: None } => {
            if name == "StorageBytes"@ {
                if member == "clear"@ {
                    Some(named_type("bool"@))
                } else if member == "len"@ {
                    Some(named_type("u64"@))
                } else if member == "read_slice"@ {
                    Some(generic_type("Option"@, seq![named_type("Bytes"@)]))
                } else if member == "write_slice"@ {
                    Some(unit_type())
                } else {
                    None
                }
            } else if name == "StorageString"@ {
                if member == "clear"@ {
                    Some(named_type("bool"@))
                } else if member == "len"@ {
                    Some(named_type("u64"@))
                } else if member == "read_slice"@ {
                    Some(generic_type("Option"@, seq![named_type("String"@)]))
                } else if member == "write_slice"@ {
                    Some(unit_type())
                } else {
                    None
                }
            } else {
                None
            }
        },
        TypeNameView::Identifier { name, generic_parameters: Some(g) } => {
            if name == "StorageMap"@ && g.entries.len() == 2 {
                if member == "get"@ {
                    Some(generic_type("StorageKey"@, seq![g.entries[1].ty]))
                } else if member == "insert"@ {
                    Some(unit_type())
                } else if member == "remove"@ {
                    Some(named_type("bool"@))
                } else if member == "try_insert"@ {
                    Some(generic_type("Result"@, seq![g.entries[0].ty, generic_type("StorageMapError"@, seq![g.entries[0].ty])]))
                } else {
                    None
                }
            } else if name == "StorageVec"@ && g.entries.len() == 1 {
                if member == "fill"@ {
                    Some(unit_type())
                } else if member == "first"@ {
                    Some(generic_type("Option"@, seq![generic_type("StorageKey"@, seq![g.entries[0].ty])]))
                } else if member == "get"@ {
                    Some(generic_type("Option"@, seq![generic_type("StorageKey"@, seq![g.entries[0].ty])]))
                } else if member == "insert"@ {
                    Some(unit_type())
                } else if member == "is_empty"@ {
                    Some(named_type("bool"@))
                } else if member == "last"@ {
                    Some(generic_type("Option"@, seq![generic_type("StorageKey"@, seq![g.entries[0].ty])]))
                } else if member == "len"@ {
                    Some(named_type("u64"@))
                } else if member == "load_vec"@ {
                    Some(generic_type("Vec"@, seq![g.entries[0].ty]))
                } else if member == "pop"@ {
                    Some(generic_type("Option"@, seq![g.entries[0].ty]))
                } else if member == "push"@ {
                    Some(unit_type())
                } else if member == "remove"@ {
                    Some(g.entries[0].ty)
                } else if member == "resize"@ {
                    Some(unit_type())
                } else if member == "reverse"@ {
                    Some(unit_type())
                } else if member == "set"@ {
                    Some(unit_type())
                } else if member == "store_vec"@ {
                    Some(unit_type())
                } else if member == "swap_remove"@ {
                    Some(g.entries[0].ty)
                } else if member == "swap"@ {
                    Some(unit_type())
                } else {
                    None
                }
            } else {
                None
            }
        },
        _ => None,
    }
}

/// The type of a call of the method `member` on a value of type
/// `receiver`: a fixed table for the built-in types, and the declared
/// return type for the functions of a contract interface. `None` where no
/// rule applies.
pub open spec fn method_type(
    definition: TranslatedDefinitionView,
    receiver: TypeNameView,
    member: Seq<char>,
) -> Option<TypeNameView> {
    match receiver {
        TypeNameView::Identifier { name, generic_parameters: None } => {
            if name == "b256"@ {
                if member == "as_u256"@ {
                    Some(named_type("u256"@))
                } else if member == "to_be_bytes"@ {
                    Some(named_type("Bytes"@))
                } else if member == "to_le_bytes"@ {
                    Some(named_type("Bytes"@))
                } else {
                    None
                }
            } else if name == "u8"@ {
                if member == "as_u16"@ {
                    Some(named_type("u16"@))
                } else if member == "as_u32"@ {
                    Some(named_type("u32"@))
                } else if member == "as_u64"@ {
                    Some(named_type("u64"@))
                } else if member == "as_u256"@ {
                    Some(named_type("u256"@))
                } else if member == "pow"@ {
                    Some(named_type("u8"@))
                } else {
                    None
                }
            } else if name == "u16"@ {
                if member == "as_u32"@ {
                    Some(named_type("u32"@))
                } else if member == "as_u64"@ {
                    Some(named_type("u64"@))
                } else if member == "as_u256"@ {
                    Some(named_type("u256"@))
                } else if member == "pow"@ {
                    Some(named_type("u16"@))
                } else if member == "to_be_bytes"@ {
                    Some(named_type("Bytes"@))
                } else if member == "to_le_bytes"@ {
                    Some(named_type("Bytes"@))
                } else {
                    None
                }
            } else if name == "u32"@ {
                if member == "as_u64"@ {
                    Some(named_type("u64"@))
                } else if member == "as_u256"@ {
                    Some(named_type("u256"@))
                } else if member == "pow"@ {
                    Some(named_type("u32"@))
                } else if member == "to_be_bytes"@ {
                    Some(named_type("Bytes"@))
                } else if member == "to_le_bytes"@ {
                    Some(named_type("Bytes"@))
                } else {
                    None
                }
            } else if name == "u64"@ {
                if member == "as_u256"@ {
                    Some(named_type("u256"@))
                } else if member == "pow"@ {
                    Some(named_type("u64"@))
                } else if member == "to_be_bytes"@ {
                    Some(named_type("Bytes"@))
                } else if member == "to_le_bytes"@ {
                    Some(named_type("Bytes"@))
                } else {
                    None
                }
            } else if name == "u256"@ {
                if member == "as_b256"@ {
                    Some(named_type("b256"@))
                } else if member == "pow"@ {
                    Some(named_type("u256"@))
                } else if member == "to_be_bytes"@ {
                    Some(named_type("Bytes"@))
                } else if member == "to_le_bytes"@ {
                    Some(named_type("Bytes"@))
                } else {
                    None
                }
            } else if name == "Bytes"@ {
                if member == "len"@ {
                    Some(named_type("u64"@))
                } else if member == "split_at"@ {
                    Some(pair_type(named_type("Bytes"@), named_type("Bytes"@)))
                } else if member == "as_raw_slice"@ {
                    Some(named_type("RawSlice"@))
                } else {
                    None
                }
            } else if name == "Identity"@ {
                if member == "as_address"@ {
                    Some(generic_type("Option"@, seq![named_type("Address"@)]))
                } else if member == "as_contract_id"@ {
                    Some(generic_type("Option"@, seq![named_type("ContractId"@)]))
                } else if member == "is_address"@ {
                    Some(named_type("bool"@))
                } else if member == "is_contract_id"@ {
                    Some(named_type("bool"@))
                } else {
                    None
                }
            } else if name == "String"@ {
                if member == "len"@ {
                    Some(named_type("u64"@))
                } else {
                    None
                }
            } else {
                interface_function_type(definition, name, member)
            }
        },
        TypeNameView::Identifier { name, generic_parameters: Some(g) } => {
            if name == "Option"@ && g.entries.len() == 1 {
                if member == "unwrap"@ {
                    Some(g.entries[0].ty)
                } else {
                    None
                }
            } else if name == "Result"@ && g.entries.len() == 2 {
                if member == "unwrap"@ {
                    Some(g.entries[0].ty)
                } else {
                    None
                }
            } else if name == "StorageKey"@ && g.entries.len() == 1 {
                if member == "clear"@ {
                    Some(named_type("bool"@))
                } else if member == "read"@ {
                    Some(g.entries[0].ty)
                } else if member == "try_read"@ {
                    Some(generic_type("Option"@, seq![g.entries[0].ty]))
                } else if member == "write"@ {
                    Some(unit_type())
                } else {
                    stored_method_type(g.entries[0].ty, member)
                }
            } else if name == "Vec"@ && g.entries.len() == 1 {
                if member == "get"@ {
                    Some(
                        TypeNameView::Identifier {
                            name: "Option"@,
                            generic_parameters: Some(GenericParameterListView { entries: seq![g.entries[0]] }),
                        },
                    )
                } else if member == "len"@ {
                    Some(named_type("u64"@))
                } else {
                    None
                }
            } else {
                None
            }
        },
        TypeNameView::StringSlice => {
            if member == "len"@ {
                Some(named_type("u64"@))
            } else {
                None
            }
        },
        _ => None,
    }
}

/// The type of a call of one of the built-in functions, by its name.
pub open spec fn builtin_function_type(name: Seq<char>) -> Option<TypeNameView> {
    if name == "todo!"@ {
        Some(named_type("todo!"@))
    } else if name == "b256::from"@ {
        Some(named_type("b256"@))
    } else if name == "Bytes::new"@ || name == "Bytes::from"@ {
        Some(named_type("Bytes"@))
    } else if name == "Identity::Address"@ || name == "Identity::ContractId"@ || name == "Identity::from"@ {
        Some(named_type("Identity"@))
    } else if name == "msg_sender"@ {
        Some(generic_type("Option"@, seq![named_type("Identity"@)]))
    } else if name == "std::block::height"@ {
        Some(named_type("u32"@))
    } else if name == "std::block::timestamp"@ {
        Some(named_type("u64"@))
    } else if name == "std::context::this_balance"@ {
        Some(named_type("u64"@))
    } else if name == "std::hash::keccak256"@ {
        Some(named_type("b256"@))
    } else if name == "u64::try_from"@ {
        Some(generic_type("Option"@, seq![named_type("u64"@)]))
    } else {
        None
    }
}

/// The type of the member `member` of a value of type `container`: the
/// unsigned integer under a signed integer wrapper, or the type of a field
/// of a struct of the definition. `None` where no rule applies.
pub open spec fn member_type(
    definition: TranslatedDefinitionView,
    container: TypeNameView,
    member: Seq<char>,
) -> Option<TypeNameView> {
    match container {
        TypeNameView::Identifier { name, generic_parameters } => {
            if generic_parameters is None && (name == "I8"@ || name == "I16"@ || name == "I32"@ || name == "I64"@ || name == "I128"@ || name == "I256"@) {
                if name == "I8"@ {
                    if member == "underlying"@ {
                        Some(named_type("u8"@))
                    } else {
                        None
                    }
                } else if name == "I16"@ {
                    if member == "underlying"@ {
                        Some(named_type("u16"@))
                    } else {
                        None
                    }
                } else if name == "I32"@ {
                    if member == "underlying"@ {
                        Some(named_type("u32"@))
                    } else {
                        None
                    }
                } else if name == "I64"@ {
                    if member == "underlying"@ {
                        Some(named_type("u64"@))
                    } else {
                        None
                    }
                } else if name == "I128"@ {
                    if member == "underlying"@ {
                        Some(named_type("u128"@))
                    } else {
                        None
                    }
                } else if name == "I256"@ {
                    if member == "underlying"@ {
                        Some(named_type("u256"@))
                    } else {
                        None
                    }
                } else {
                    None
                }
            } else {
                match first_match(definition.structs, is_struct_named(name)) {
                    Some(s) => match first_match(s.fields, is_field_named(member)) {
                        Some(f) => Some(f.ty),
                        None => None,
                    },
                    None => None,
                }
            }
        },
        _ => None,
    }
}

/// The type of an element of a value of type `t`: the type argument of a
/// vector, the element type of an array. `None` for any other type.
pub open spec fn element_type(t: TypeNameView) -> Option<TypeNameView> {
    match t {
        TypeNameView::Identifier { name, generic_parameters: Some(g) } => if name == "Vec"@ && g.entries.len() > 0 {
            Some(g.entries[0].ty)
        } else {
            None
        },
        TypeNameView::Array { ty, length } => Some(*ty),
        _ => None,
    }
}

/// The test "is the storage field with the new name `name`".
pub open spec fn is_storage_field(name: Seq<char>) -> spec_fn(TranslatedVariableView) -> bool {
    |v: TranslatedVariableView| v.is_storage && v.new_name == name
}

/// The scope with the first `n` of the names declared, each with the type
/// in its place.
pub open spec fn with_locals(
    scope: TranslationScopeView,
    names: Seq<LetIdentifierView>,
    types: Seq<TypeNameView>,
    n: nat,
) -> TranslationScopeView
    decreases n,
{
    if n == 0 {
        scope
    } else {
        with_locals(scope, names, types, (n - 1) as nat).declare(local_variable(names[n - 1].name, types[n - 1]))
    }
}

/// The smaller of two lengths.
pub open spec fn shorter(a: nat, b: nat) -> nat {
    if a <= b {
        a
    } else {
        b
    }
}

/// The type of an expression.
///
/// * A literal has the type of its kind; integers are `u64`.
/// * An identifier `Enum::Variant` of an enum of the definition has the
///   enum's type; any other identifier has the type of the variable it
///   resolves to, which must not be a storage field.
/// * A call of a built-in function has the type the table gives; a call of
///   another function has the return type of the function it resolves to
///   by its new name and the types of its arguments; a method call has the
///   type `method_type` gives for the type of its receiver.
/// * A block without final expression is of the empty tuple type; else
///   it has the type of its final expression in a scope that declares the
///   variables of its `let` statements.
/// * `storage.field` is a storage key of the field's type; another member
///   access has the type `member_type` gives.
/// * An array, a tuple, a conditional, a `match`, a unary or binary
///   operation take their type from their first part; loops and jumps are
///   of the empty tuple type.
pub open spec fn expression_type(
    definition: TranslatedDefinitionView,
    scope: TranslationScopeView,
    e: ExpressionView,
) -> Result<TypeNameView, ErrorView>
    decreases e,
{
    match e {
        ExpressionView::Literal(l) => Ok(
            match l {
                LiteralView::Bool(_) => named_type("bool"@),
                LiteralView::DecInt(_) => named_type("u64"@),
                LiteralView::HexInt(_) => named_type("u64"@),
                LiteralView::String(_) => TypeNameView::StringSlice,
            },
        ),
        ExpressionView::Identifier(name) => match first_match(definition.enums, declares_variant(name)) {
            Some(e) => Ok(named_type(e.type_definition.name->Identifier_name)),
            None => match scope.variable_from_new_name(name) {
                Some(v) => if v.is_storage {
                    Err(ErrorView::UnknownVariable(name))
                } else {
                    Ok(v.ty)
                },
                None => Err(ErrorView::UnknownVariable(name)),
            },
        },
        ExpressionView::FunctionCall(call) => match call.function {
            ExpressionView::Identifier(name) => {
                if name == "abi"@ {
                    if call.parameters.len() == 2 && call.parameters[0] is Identifier {
                        Ok(named_type(call.parameters[0]->Identifier_0))
                    } else {
                        Err(ErrorView::NoTypeRule(e))
                    }
                } else if builtin_function_type(name) is Some {
                    Ok(builtin_function_type(name)->0)
                } else {
                    match expression_types(definition, scope, call.parameters) {
                        Err(error) => Err(error),
                        Ok(types) => match scope.function_accepting(name, true, call.parameters.len(), types) {
                            Some(f) => Ok(returned_type(f.return_type)),
                            None => Err(ErrorView::UnknownFunction(name)),
                        },
                    }
                }
            },
            ExpressionView::MemberAccess(access) => match expression_type(definition, scope, access.expression) {
                Err(error) => Err(error),
                Ok(receiver) => if receiver is Undefined {
                    Err(ErrorView::UndefinedType)
                } else {
                    match method_type(definition, receiver, access.member) {
                        Some(t) => Ok(t),
                        None => Err(ErrorView::NoTypeRule(e)),
                    }
                },
            },
            _ => Err(ErrorView::NoTypeRule(e)),
        },
        ExpressionView::Block(block) => match block.final_expr {
            None => Ok(unit_type()),
            Some(last) => match scope_after(definition, scope.child(), block.statements) {
                Err(error) => Err(error),
                Ok(inner) => expression_type(definition, inner, last),
            },
        },
        ExpressionView::Return(value) => match value {
            Some(x) => expression_type(definition, scope, *x),
            None => Ok(unit_type()),
        },
        ExpressionView::Array(array) => if array.elements.len() == 0 {
            Ok(TypeNameView::Array { ty: Box::new(unit_type()), length: 0 })
        } else {
            match expression_type(definition, scope, array.elements[0]) {
                Err(error) => Err(error),
                Ok(t) => Ok(TypeNameView::Array { ty: Box::new(t), length: array.elements.len() as usize }),
            }
        },
        ExpressionView::ArrayAccess(access) => match expression_type(definition, scope, access.expression) {
            Err(error) => Err(error),
            Ok(t) => match element_type(t) {
                Some(element) => Ok(element),
                None => Err(ErrorView::NoTypeRule(e)),
            },
        },
        ExpressionView::MemberAccess(access) => match access.expression {
            ExpressionView::Identifier(name) => if name == "storage"@ {
                match scope.variable_where(is_storage_field(access.member)) {
                    Some(v) => Ok(generic_type("StorageKey"@, seq![v.ty])),
                    None => Err(ErrorView::UnknownVariable(access.member)),
                }
            } else {
                match expression_type(definition, scope, access.expression) {
                    Err(error) => Err(error),
                    Ok(container) => match member_type(definition, container, access.member) {
                        Some(t) => Ok(t),
                        None => Err(ErrorView::NoTypeRule(e)),
                    },
                }
            },
            _ => Err(ErrorView::NoTypeRule(e)),
        },
        ExpressionView::Tuple(elements) => match expression_types(definition, scope, elements) {
            Err(error) => Err(error),
            Ok(types) => Ok(TypeNameView::Tuple { type_names: types }),
        },
        ExpressionView::If(conditional) => match conditional.then_body.final_expr {
            Some(x) => expression_type(definition, scope, x),
            None => Ok(unit_type()),
        },
        ExpressionView::Match(m) => if m.branches.len() == 0 {
            Ok(unit_type())
        } else {
            expression_type(definition, scope, m.branches[0].value)
        },
        ExpressionView::While(_) => Ok(unit_type()),
        ExpressionView::UnaryExpression(unary) => expression_type(definition, scope, unary.expression),
        ExpressionView::BinaryExpression(binary) => expression_type(definition, scope, binary.lhs),
        ExpressionView::Constructor(constructor) => Ok(constructor.ty),
        ExpressionView::Continue => Ok(unit_type()),
        ExpressionView::Break => Ok(unit_type()),
        ExpressionView::AsmBlock(_) => Err(ErrorView::NoTypeRule(e)),
        ExpressionView::Commented(_, x) => expression_type(definition, scope, *x),
    }
}

/// The types of the expressions in order, or the error of the first that
/// has no type.
pub open spec fn expression_types(
    definition: TranslatedDefinitionView,
    scope: TranslationScopeView,
    es: Seq<ExpressionView>,
) -> Result<Seq<TypeNameView>, ErrorView>
    decreases es,
{
    if es.len() == 0 {
        Ok(Seq::empty())
    } else {
        match expression_types(definition, scope, es.drop_last()) {
            Err(error) => Err(error),
            Ok(types) => match expression_type(definition, scope, es.last()) {
                Err(error) => Err(error),
                Ok(t) => Ok(types.push(t)),
            },
        }
    }
}

/// The scope after the statements: each `let` declares its names, with the
/// type it is annotated with or else the type of its value.
pub open spec fn scope_after(
    definition: TranslatedDefinitionView,
    scope: TranslationScopeView,
    statements: Seq<StatementView>,
) -> Result<TranslationScopeView, ErrorView>
    decreases statements,
{
    if statements.len() == 0 {
        Ok(scope)
    } else {
        match scope_after(definition, scope, statements.drop_last()) {
            Err(error) => Err(error),
            Ok(before) => match statements.last() {
                StatementView::Let(l) => match (match l.ty {
                        Some(t) => Ok(t),
                        None => expression_type(definition, before, l.value),
                }) {
                    Err(error) => Err(error),
                    Ok(t) => match l.pattern {
                        LetPatternView::Identifier(id) => Ok(before.declare(local_variable(id.name, t))),
                        LetPatternView::Tuple(ids) => match t {
                            TypeNameView::Tuple { type_names } => Ok(
                                with_locals(before, ids, type_names, shorter(ids.len(), type_names.len())),
                            ),
                            _ => Err(ErrorView::ExpectedTuple(t)),
                        },
                    },
                },
                StatementView::Expression(_) => Ok(before),
            },
        }
    }
}

fn stored_method_type_of(value: &TypeName, member: &str) -> (r: Option<TypeName>)
    ensures
        type_view(r) == stored_method_type(value@, member@),
{
    proof {
        reveal_with_fuel(TypeName::model, 5);
    }
    match value {
        TypeName::Identifier { name, generic_parameters: None } => {
            let name = name.as_str();
            if text_eq(name, "StorageBytes") {
                if text_eq(member, "clear") {
                    Some(type_named("bool"))
                } else if text_eq(member, "len") {
                    Some(type_named("u64"))
                } else if text_eq(member, "read_slice") {
                    Some(generic_type1("Option", type_named("Bytes")))
                } else if text_eq(member, "write_slice") {
                    Some(unit_type_name())
                } else {
                    None
                }
            } else if text_eq(name, "StorageString") {
                if text_eq(member, "clear") {
                    Some(type_named("bool"))
                } else if text_eq(member, "len") {
                    Some(type_named("u64"))
                } else if text_eq(member, "read_slice") {
                    Some(generic_type1("Option", type_named("String")))
                } else if text_eq(member, "write_slice") {
                    Some(unit_type_name())
                } else {
                    None
                }
            } else {
                None
            }
        },
        TypeName::Identifier { name, generic_parameters: Some(g) } => {
            let name = name.as_str();
            if text_eq(name, "StorageMap") && g.entries.len() == 2 {
                if text_eq(member, "get") {
                    Some(generic_type1("StorageKey", g.entries[1].ty.clone()))
                } else if text_eq(member, "insert") {
                    Some(unit_type_name())
                } else if text_eq(member, "remove") {
                    Some(type_named("bool"))
                } else if text_eq(member, "try_insert") {
                    Some(generic_type2("Result", g.entries[0].ty.clone(), generic_type1("StorageMapError", g.entries[0].ty.clone())))
                } else {
                    None
                }
            } else if text_eq(name, "StorageVec") && g.entries.len() == 1 {
                if text_eq(member, "fill") {
                    Some(unit_type_name())
                } else if text_eq(member, "first") {
                    Some(generic_type1("Option", generic_type1("StorageKey", g.entries[0].ty.clone())))
                } else if text_eq(member, "get") {
                    Some(generic_type1("Option", generic_type1("StorageKey", g.entries[0].ty.clone())))
                } else if text_eq(member, "insert") {
                    Some(unit_type_name())
                } else if text_eq(member, "is_empty") {
                    Some(type_named("bool"))
                } else if text_eq(member, "last") {
                    Some(generic_type1("Option", generic_type1("StorageKey", g.entries[0].ty.clone())))
                } else if text_eq(member, "len") {
                    Some(type_named("u64"))
                } else if text_eq(member, "load_vec") {
                    Some(generic_type1("Vec", g.entries[0].ty.clone()))
                } else if text_eq(member, "pop") {
                    Some(generic_type1("Option", g.entries[0].ty.clone()))
                } else if text_eq(member, "push") {
                    Some(unit_type_name())
                } else if text_eq(member, "remove") {
                    Some(g.entries[0].ty.clone())
                } else if text_eq(member, "resize") {
                    Some(unit_type_name())
                } else if text_eq(member, "reverse") {
                    Some(unit_type_name())
                } else if text_eq(member, "set") {
                    Some(unit_type_name())
                } else if text_eq(member, "store_vec") {
                    Some(unit_type_name())
                } else if text_eq(member, "swap_remove") {
                    Some(g.entries[0].ty.clone())
                } else if text_eq(member, "swap") {
                    Some(unit_type_name())
                } else {
                    None
                }
            } else {
                None
            }
        },
        _ => None,
    }
}

fn abi_function_type_of(abi: &Abi, member: &str) -> (r: Option<TypeName>)
    ensures
        type_view(r) == abi_function_type(abi@, member@),
{
    let found = first_where::<Function, FunctionView, _>(
        &abi.functions,
        (|f: &Function| -> (b: bool)
                ensures
                    b == (f@.name == member@),
            {
                text_eq(f.name.as_str(), member)
        }),
        Ghost(function_models(abi.functions@)),
        Ghost(is_function_named(member@)),
    );
    match found {
        Some(i) => match &abi.functions[i].return_type {
            Some(t) => Some(t.clone()),
            None => Some(unit_type_name()),
        },
        None => None,
    }
}

fn interface_function_type_of(definition: &TranslatedDefinition, name: &str, member: &str) -> (r: Option<TypeName>)
    ensures
        type_view(r) == interface_function_type(definition@, name@, member@),
{
    match &definition.abi {
        Some(abi) => {
            if text_eq(abi.name.as_str(), name) {
                let t = abi_function_type_of(abi, member);
                if t.is_some() {
                    return t;
                }
            }
        },
        None => {},
    }
    let found = first_where::<Abi, AbiView, _>(
        &definition.abis,
        (|abi: &Abi| -> (b: bool)
                ensures
                    b == declares_function(name@, member@)(abi@),
            {
                text_eq(abi.name.as_str(), name) && abi_function_type_of(abi, member).is_some()
        }),
        Ghost(abi_models(definition.abis@)),
        Ghost(declares_function(name@, member@)),
    );
    match found {
        Some(i) => abi_function_type_of(&definition.abis[i], member),
        None => None,
    }
}

fn method_type_of(definition: &TranslatedDefinition, receiver: &TypeName, member: &str) -> (r: Option<TypeName>)
    ensures
        type_view(r) == method_type(definition@, receiver@, member@),
{
    proof {
        reveal_with_fuel(TypeName::model, 5);
    }
    match receiver {
        TypeName::Identifier { name, generic_parameters: None } => {
            let name = name.as_str();
            if text_eq(name, "b256") {
                if text_eq(member, "as_u256") {
                    Some(type_named("u256"))
                } else if text_eq(member, "to_be_bytes") {
                    Some(type_named("Bytes"))
                } else if text_eq(member, "to_le_bytes") {
                    Some(type_named("Bytes"))
                } else {
                    None
                }
            } else if text_eq(name, "u8") {
                if text_eq(member, "as_u16") {
                    Some(type_named("u16"))
                } else if text_eq(member, "as_u32") {
                    Some(type_named("u32"))
                } else if text_eq(member, "as_u64") {
                    Some(type_named("u64"))
                } else if text_eq(member, "as_u256") {
                    Some(type_named("u256"))
                } else if text_eq(member, "pow") {
                    Some(type_named("u8"))
                } else {
                    None
                }
            } else if text_eq(name, "u16") {
                if text_eq(member, "as_u32") {
                    Some(type_named("u32"))
                } else if text_eq(member, "as_u64") {
                    Some(type_named("u64"))
                } else if text_eq(member, "as_u256") {
                    Some(type_named("u256"))
                } else if text_eq(member, "pow") {
                    Some(type_named("u16"))
                } else if text_eq(member, "to_be_bytes") {
                    Some(type_named("Bytes"))
                } else if text_eq(member, "to_le_bytes") {
                    Some(type_named("Bytes"))
                } else {
                    None
                }
            } else if text_eq(name, "u32") {
                if text_eq(member, "as_u64") {
                    Some(type_named("u64"))
                } else if text_eq(member, "as_u256") {
                    Some(type_named("u256"))
                } else if text_eq(member, "pow") {
                    Some(type_named("u32"))
                } else if text_eq(member, "to_be_bytes") {
                    Some(type_named("Bytes"))
                } else if text_eq(member, "to_le_bytes") {
                    Some(type_named("Bytes"))
                } else {
                    None
                }
            } else if text_eq(name, "u64") {
                if text_eq(member, "as_u256") {
                    Some(type_named("u256"))
                } else if text_eq(member, "pow") {
                    Some(type_named("u64"))
                } else if text_eq(member, "to_be_bytes") {
                    Some(type_named("Bytes"))
                } else if text_eq(member, "to_le_bytes") {
                    Some(type_named("Bytes"))
                } else {
                    None
                }
            } else if text_eq(name, "u256") {
                if text_eq(member, "as_b256") {
                    Some(type_named("b256"))
                } else if text_eq(member, "pow") {
                    Some(type_named("u256"))
                } else if text_eq(member, "to_be_bytes") {
                    Some(type_named("Bytes"))
                } else if text_eq(member, "to_le_bytes") {
                    Some(type_named("Bytes"))
                } else {
                    None
                }
            } else if text_eq(name, "Bytes") {
                if text_eq(member, "len") {
                    Some(type_named("u64"))
                } else if text_eq(member, "split_at") {
                    Some(pair_type_name(type_named("Bytes"), type_named("Bytes")))
                } else if text_eq(member, "as_raw_slice") {
                    Some(type_named("RawSlice"))
                } else {
                    None
                }
            } else if text_eq(name, "Identity") {
                if text_eq(member, "as_address") {
                    Some(generic_type1("Option", type_named("Address")))
                } else if text_eq(member, "as_contract_id") {
                    Some(generic_type1("Option", type_named("ContractId")))
                } else if text_eq(member, "is_address") {
                    Some(type_named("bool"))
                } else if text_eq(member, "is_contract_id") {
                    Some(type_named("bool"))
                } else {
                    None
                }
            } else if text_eq(name, "String") {
                if text_eq(member, "len") {
                    Some(type_named("u64"))
                } else {
                    None
                }
            } else {
                interface_function_type_of(definition, name, member)
            }
        },
        TypeName::Identifier { name, generic_parameters: Some(g) } => {
            let name = name.as_str();
            if text_eq(name, "Option") && g.entries.len() == 1 {
                if text_eq(member, "unwrap") {
                    Some(g.entries[0].ty.clone())
                } else {
                    None
                }
            } else if text_eq(name, "Result") && g.entries.len() == 2 {
                if text_eq(member, "unwrap") {
                    Some(g.entries[0].ty.clone())
                } else {
                    None
                }
            } else if text_eq(name, "StorageKey") && g.entries.len() == 1 {
                if text_eq(member, "clear") {
                    Some(type_named("bool"))
                } else if text_eq(member, "read") {
                    Some(g.entries[0].ty.clone())
                } else if text_eq(member, "try_read") {
                    Some(generic_type1("Option", g.entries[0].ty.clone()))
                } else if text_eq(member, "write") {
                    Some(unit_type_name())
                } else {
                    stored_method_type_of(&g.entries[0].ty, member)
                }
            } else if text_eq(name, "Vec") && g.entries.len() == 1 {
                if text_eq(member, "get") {
                    let mut entries = Vec::new();
                    entries.push(g.entries[0].clone());
                    let r = TypeName::Identifier {
                        name: text("Option"),
                        generic_parameters: Some(crate::sway::GenericParameterList { entries }),
                    };
                    assert(r@->Identifier_generic_parameters->0.entries =~= seq![g@.entries[0]]);
                    Some(r)
                } else if text_eq(member, "len") {
                    Some(type_named("u64"))
                } else {
                    None
                }
            } else {
                None
            }
        },
        TypeName::StringSlice => {
            if text_eq(member, "len") {
                Some(type_named("u64"))
            } else {
                None
            }
        },
        _ => None,
    }
}

fn builtin_function_type_of(name: &str) -> (r: Option<TypeName>)
    ensures
        type_view(r) == builtin_function_type(name@),
{
    if text_eq(name, "todo!") {
        Some(type_named("todo!"))
    } else if text_eq(name, "b256::from") {
        Some(type_named("b256"))
    } else if text_eq(name, "Bytes::new") || text_eq(name, "Bytes::from") {
        Some(type_named("Bytes"))
    } else if text_eq(name, "Identity::Address") || text_eq(name, "Identity::ContractId") || text_eq(name, "Identity::from") {
        Some(type_named("Identity"))
    } else if text_eq(name, "msg_sender") {
        Some(generic_type1("Option", type_named("Identity")))
    } else if text_eq(name, "std::block::height") {
        Some(type_named("u32"))
    } else if text_eq(name, "std::block::timestamp") {
        Some(type_named("u64"))
    } else if text_eq(name, "std::context::this_balance") {
        Some(type_named("u64"))
    } else if text_eq(name, "std::hash::keccak256") {
        Some(type_named("b256"))
    } else if text_eq(name, "u64::try_from") {
        Some(generic_type1("Option", type_named("u64")))
    } else {
        None
    }
}

fn member_type_of(definition: &TranslatedDefinition, container: &TypeName, member: &str) -> (r: Option<TypeName>)
    ensures
        type_view(r) == member_type(definition@, container@, member@),
{
    match container {
        TypeName::Identifier { name, generic_parameters } => {
            let name = name.as_str();
            if generic_parameters.is_none() && (text_eq(name, "I8") || text_eq(name, "I16") || text_eq(name, "I32") || text_eq(name, "I64") || text_eq(name, "I128") || text_eq(name, "I256")) {
                if text_eq(name, "I8") {
                    if text_eq(member, "underlying") {
                        Some(type_named("u8"))
                    } else {
                        None
                    }
                } else if text_eq(name, "I16") {
                    if text_eq(member, "underlying") {
                        Some(type_named("u16"))
                    } else {
                        None
                    }
                } else if text_eq(name, "I32") {
                    if text_eq(member, "underlying") {
                        Some(type_named("u32"))
                    } else {
                        None
                    }
                } else if text_eq(name, "I64") {
                    if text_eq(member, "underlying") {
                        Some(type_named("u64"))
                    } else {
                        None
                    }
                } else if text_eq(name, "I128") {
                    if text_eq(member, "underlying") {
                        Some(type_named("u128"))
                    } else {
                        None
                    }
                } else if text_eq(name, "I256") {
                    if text_eq(member, "underlying") {
                        Some(type_named("u256"))
                    } else {
                        None
                    }
                } else {
                    None
                }
            } else {
                let found = first_where::<Struct, StructView, _>(
                    &definition.structs,
                    (|s: &Struct| -> (b: bool)
                            ensures
                                b == (s@.name == name@),
                        {
                            text_eq(s.name.as_str(), name)
                    }),
                    Ghost(struct_models(definition.structs@)),
                    Ghost(is_struct_named(name@)),
                );
                match found {
                    Some(i) => {
                        let s = &definition.structs[i];
                        let field = first_where::<StructField, StructFieldView, _>(
                            &s.fields,
                            (|f: &StructField| -> (b: bool)
                                    ensures
                                        b == (f@.name == member@),
                                {
                                    text_eq(f.name.as_str(), member)
                            }),
                            Ghost(struct_field_models(s.fields@)),
                            Ghost(is_field_named(member@)),
                        );
                        match field {
                            Some(k) => Some(s.fields[k].ty.clone()),
                            None => None,
                        }
                    },
                    None => None,
                }
            }
        },
        _ => None,
    }
}

fn element_type_of(t: &TypeName) -> (r: Option<TypeName>)
    ensures
        type_view(r) == element_type(t@),
{
    proof {
        reveal_with_fuel(TypeName::model, 5);
    }
    match t {
        TypeName::Identifier { name, generic_parameters: Some(g) } => if text_eq(name.as_str(), "Vec") && g.entries.len()
        > 0 {
            Some(g.entries[0].ty.clone())
        } else {
            None
        },
        TypeName::Array { ty, length: _ } => Some((&**ty).clone()),
        _ => None,
    }
}

fn enum_declaring(definition: &TranslatedDefinition, identifier: &str) -> (r: Option<TypeName>)
    ensures
        type_view(r) == match first_match(definition@.enums, declares_variant(identifier@)) {
            Some(e) => Some(named_type(e.type_definition.name->Identifier_name)),
            None => None,
        },
{
    let found = first_where::<TranslatedEnum, TranslatedEnumView, _>(
        &definition.enums,
        (|e: &TranslatedEnum| -> (b: bool)
                ensures
                    b == declares_variant(identifier@)(e@),
            {
                declares(e, identifier)
        }),
        Ghost(translated_enum_models(definition.enums@)),
        Ghost(declares_variant(identifier@)),
    );
    match found {
        Some(i) => match &definition.enums[i].type_definition.name {
            TypeName::Identifier { name, generic_parameters: _ } => Some(type_named(name.as_str())),
            _ => None,
        },
        None => None,
    }
}

fn declares(e: &TranslatedEnum, identifier: &str) -> (r: bool)
    ensures
        r == declares_variant(identifier@)(e@),
{
    match &e.type_definition.name {
        TypeName::Identifier { name, generic_parameters: None } => {
            let found = first_where::<ImplItem, ImplItemView, _>(
                &e.variants_impl.items,
                (|item: &ImplItem| -> (b: bool)
                        ensures
                            b == is_constant_of(name@, identifier@)(item@),
                    {
                        match item {
                            ImplItem::Constant(c) => {
                                let qualified = join3(name.as_str(), "::", c.name.as_str());
                                text_eq(identifier, qualified.as_str())
                            },
                            _ => false,
                        }
                }),
                Ghost(impl_item_models(e.variants_impl.items@)),
                Ghost(is_constant_of(name@, identifier@)),
            );
            found.is_some()
        },
        _ => false,
    }
}

fn local(name: &String, ty: TypeName) -> (r: TranslatedVariable)
    ensures
        r@ == local_variable(name@, ty@),
{
    TranslatedVariable {
        old_name: String::new(),
        new_name: name.clone(),
        ty,
        abi_type_name: None,
        is_storage: false,
        is_configurable: false,
        is_constant: false,
        statement_index: None,
        read_count: 0,
        mutation_count: 0,
    }
}

impl TranslatedDefinition {
    /// The type of an expression of the target language that stands in the
    /// given scope of this definition.
    pub fn get_expression_type(&self, scope: &TranslationScope, expression: &Expression) -> (r: Result<
        TypeName,
        Error,
        >)
        ensures
            typing_view(r) == expression_type(self@, scope@, expression@),
        decreases expression,
    {
        proof {
            reveal_with_fuel(Expression::model, 4);
            reveal_with_fuel(expression_type, 2);
        }
        match expression {
            Expression::Literal(l) => Ok(
                match l {
                    Literal::Bool(_) => type_named("bool"),
                    Literal::DecInt(_) => type_named("u64"),
                    Literal::HexInt(_) => type_named("u64"),
                    Literal::String(_) => TypeName::StringSlice,
                },
            ),
            Expression::Identifier(name) => match enum_declaring(self, name.as_str()) {
                Some(t) => Ok(t),
                None => match scope.get_variable_from_new_name(name.as_str()) {
                    Some(v) => if v.is_storage {
                        Err(Error::UnknownVariable(name.clone()))
                    } else {
                        Ok(v.ty.clone())
                    },
                    None => Err(Error::UnknownVariable(name.clone())),
                },
            },
            Expression::FunctionCall(call) => match &call.function {
                Expression::Identifier(name) => {
                    if text_eq(name.as_str(), "abi") {
                        if call.parameters.len() == 2 {
                            match &call.parameters[0] {
                                Expression::Identifier(definition_name) => {
                                    return Ok(type_named(definition_name.as_str()));
                                },
                                _ => {},
                            }
                        }
                        return Err(Error::NoTypeRule(expression.clone()));
                    }
                    match builtin_function_type_of(name.as_str()) {
                        Some(t) => Ok(t),
                        None => match self.get_expression_types(scope, &call.parameters) {
                            Err(error) => Err(error),
                            Ok(types) => match scope.find_function_accepting(
                                name.as_str(),
                                true,
                                call.parameters.len(),
                                types.as_slice(),
                            ) {
                                Some(f) => match &f.return_type {
                                    Some(t) => Ok(t.clone()),
                                    None => Ok(unit_type_name()),
                                },
                                None => Err(Error::UnknownFunction(name.clone())),
                            },
                        },
                    }
                },
                Expression::MemberAccess(access) => match self.get_expression_type(scope, &access.expression) {
                    Err(error) => Err(error),
                    Ok(receiver) => {
                        if let TypeName::Undefined = receiver {
                            return Err(Error::UndefinedType);
                        }
                        match method_type_of(self, &receiver, access.member.as_str()) {
                            Some(t) => Ok(t),
                            None => Err(Error::NoTypeRule(expression.clone())),
                        }
                    },
                },
                _ => Err(Error::NoTypeRule(expression.clone())),
            },
            Expression::Block(block) => match &block.final_expr {
                None => Ok(unit_type_name()),
                Some(last) => {
                    let mut inner = scope.clone();
                    inner.enter();
                    match self.declare_locals(&mut inner, &block.statements) {
                        Err(error) => Err(error),
                        Ok(()) => self.get_expression_type(&inner, last),
                    }
                },
            },
            Expression::Return(value) => match value {
                Some(x) => self.get_expression_type(scope, &**x),
                None => Ok(unit_type_name()),
            },
            Expression::Array(array) => if array.elements.len() == 0 {
                Ok(TypeName::Array { ty: Box::new(unit_type_name()), length: 0 })
            } else {
                match self.get_expression_type(scope, &array.elements[0]) {
                    Err(error) => Err(error),
                    Ok(t) => Ok(TypeName::Array { ty: Box::new(t), length: array.elements.len() }),
                }
            },
            Expression::ArrayAccess(access) => match self.get_expression_type(scope, &access.expression) {
                Err(error) => Err(error),
                Ok(t) => match element_type_of(&t) {
                    Some(element) => Ok(element),
                    None => Err(Error::NoTypeRule(expression.clone())),
                },
            },
            Expression::MemberAccess(access) => match &access.expression {
                Expression::Identifier(name) => if text_eq(name.as_str(), "storage") {
                    match storage_field(scope, access.member.as_str()) {
                        Some(v) => Ok(generic_type1("StorageKey", v.ty.clone())),
                        None => Err(Error::UnknownVariable(access.member.clone())),
                    }
                } else {
                    match self.get_expression_type(scope, &access.expression) {
                        Err(error) => Err(error),
                        Ok(container) => match member_type_of(self, &container, access.member.as_str()) {
                            Some(t) => Ok(t),
                            None => Err(Error::NoTypeRule(expression.clone())),
                        },
                    }
                },
                _ => Err(Error::NoTypeRule(expression.clone())),
            },
            Expression::Tuple(elements) => match self.get_expression_types(scope, elements) {
                Err(error) => Err(error),
                Ok(types) => Ok(TypeName::Tuple { type_names: types }),
            },
            Expression::If(conditional) => match &conditional.then_body.final_expr {
                Some(x) => self.get_expression_type(scope, x),
                None => Ok(unit_type_name()),
            },
            Expression::Match(m) => if m.branches.len() == 0 {
                Ok(unit_type_name())
            } else {
                self.get_expression_type(scope, &m.branches[0].value)
            },
            Expression::While(_) => Ok(unit_type_name()),
            Expression::UnaryExpression(unary) => self.get_expression_type(scope, &unary.expression),
            Expression::BinaryExpression(binary) => self.get_expression_type(scope, &binary.lhs),
            Expression::Constructor(constructor) => Ok(constructor.ty.clone()),
            Expression::Continue => Ok(unit_type_name()),
            Expression::Break => Ok(unit_type_name()),
            Expression::AsmBlock(_) => Err(Error::NoTypeRule(expression.clone())),
            Expression::Commented(_, x) => self.get_expression_type(scope, &**x),
        }
    }

    /// The types of the expressions in order, or the error of the first
    /// that has no type.
    pub fn get_expression_types(&self, scope: &TranslationScope, expressions: &Vec<Expression>) -> (r: Result<
        Vec<TypeName>,
        Error,
        >)
        ensures
            match r {
                Ok(types) => expression_types(self@, scope@, expression_models(expressions@)) == Ok::<
                Seq<TypeNameView>,
                ErrorView,
                >(type_name_models(types@)) && types.len() == expressions.len(),
                Err(error) => expression_types(self@, scope@, expression_models(expressions@)) == Err::<
                Seq<TypeNameView>,
                ErrorView,
                >(error@),
            },
        decreases expressions,
    {
        let ghost models = expression_models(expressions@);
        let mut types: Vec<TypeName> = Vec::new();
        let mut i: usize = 0;
        assert(models.subrange(0, 0) =~= Seq::empty());
        assert(type_name_models(types@) =~= Seq::empty());
        while i < expressions.len()
            invariant
                i <= expressions.len(),
                types.len() == i,
                models == expression_models(expressions@),
                expression_types(self@, scope@, models.subrange(0, i as int)) == Ok::<Seq<TypeNameView>, ErrorView>(
                    type_name_models(types@),
                ),
            decreases expressions.len() - i,
        {
            proof {
                let s = models.subrange(0, i + 1);
                assert(s.drop_last() =~= models.subrange(0, i as int));
                assert(s.last() == expressions[i as int]@);
            }
            let ghost before = type_name_models(types@);
            match self.get_expression_type(scope, &expressions[i]) {
                Err(error) => {
                    proof {
                        lemma_types_fail(self@, scope@, models, i + 1);
                    }
                    return Err(error);
                },
                Ok(t) => {
                    types.push(t);
                    assert(type_name_models(types@) =~= before.push(t@));
                },
            }
            i += 1;
        }
        assert(models.subrange(0, i as int) =~= models);
        Ok(types)
    }

    /// Declares in `scope` the variables of the `let` statements, in order.
    fn declare_locals(&self, scope: &mut TranslationScope, statements: &Vec<Statement>) -> (r: Result<(), Error>)
        ensures
            match r {
                Ok(()) => scope_after(self@, old(scope)@, crate::sway::model::statement_models(statements@)) == Ok::<
                TranslationScopeView,
                ErrorView,
                >(final(scope)@),
                Err(error) => scope_after(self@, old(scope)@, crate::sway::model::statement_models(statements@))
                    == Err::<TranslationScopeView, ErrorView>(error@),
            },
        decreases statements,
    {
        let ghost models = crate::sway::model::statement_models(statements@);
        let mut i: usize = 0;
        assert(models.subrange(0, 0) =~= Seq::empty());
        while i < statements.len()
            invariant
                i <= statements.len(),
                models == crate::sway::model::statement_models(statements@),
                scope_after(self@, old(scope)@, models.subrange(0, i as int)) == Ok::<TranslationScopeView, ErrorView>(
                    scope@,
                ),
            decreases statements.len() - i,
        {
            proof {
                let s = models.subrange(0, i + 1);
                assert(s.drop_last() =~= models.subrange(0, i as int));
                assert(s.last() == statements[i as int]@);
                reveal_with_fuel(Statement::model, 4);
            }
            match &statements[i] {
                Statement::Let(l) => {
                    let typed = match &l.ty {
                        Some(t) => Ok(t.clone()),
                        None => self.get_expression_type(scope, &l.value),
                    };
                    match typed {
                        Err(error) => {
                            proof {
                                lemma_scope_fails(self@, old(scope)@, models, i + 1);
                            }
                            return Err(error);
                        },
                        Ok(t) => match &l.pattern {
                            crate::sway::LetPattern::Identifier(id) => {
                                scope.declare(local(&id.name, t));
                            },
                            crate::sway::LetPattern::Tuple(ids) => match t {
                                TypeName::Tuple { type_names } => {
                                    declare_all(scope, ids, &type_names);
                                },
                                _ => {
                                    proof {
                                        lemma_scope_fails(self@, old(scope)@, models, i + 1);
                                    }
                                    return Err(Error::ExpectedTuple(t));
                                },
                            },
                        },
                    }
                },
                Statement::Expression(_) => {},
            }
            i += 1;
        }
        assert(models.subrange(0, i as int) =~= models);
        Ok(())
    }
}

fn declare_all(scope: &mut TranslationScope, names: &Vec<LetIdentifier>, types: &Vec<TypeName>)
    ensures
        final(scope)@ == with_locals(
            old(scope)@,
            crate::sway::model::let_identifier_models(names@),
            type_name_models(types@),
            shorter(names.len() as nat, types.len() as nat),
        ),
{
    let n = if names.len() <= types.len() { names.len() } else { types.len() };
    let mut k: usize = 0;
    while k < n
        invariant
            k <= n,
            n <= names.len(),
            n <= types.len(),
            scope@ == with_locals(
                old(scope)@,
                crate::sway::model::let_identifier_models(names@),
                type_name_models(types@),
                k as nat,
            ),
        decreases n - k,
    {
        scope.declare(local(&names[k].name, types[k].clone()));
        k += 1;
    }
}

fn storage_field<'a>(scope: &'a TranslationScope, name: &str) -> (r: Option<&'a TranslatedVariable>)
    ensures
        variable_view(r) == scope@.variable_where(is_storage_field(name@)),
    decreases scope,
{
    let found = last_where::<TranslatedVariable, TranslatedVariableView, _>(
        &scope.variables,
        (|v: &TranslatedVariable| -> (b: bool)
                ensures
                    b == is_storage_field(name@)(v@),
            {
                v.is_storage && text_eq(v.new_name.as_str(), name)
        }),
        Ghost(crate::translate::model::translated_variable_models(scope.variables@)),
        Ghost(is_storage_field(name@)),
    );
    match found {
        Some(i) => Some(&scope.variables[i]),
        None => match &scope.parent {
            Some(p) => storage_field(p, name),
            None => None,
        },
    }
}

proof fn lemma_types_fail(
    definition: TranslatedDefinitionView,
    scope: TranslationScopeView,
    es: Seq<ExpressionView>,
    n: int,
)
    requires
        0 <= n <= es.len(),
        expression_types(definition, scope, es.subrange(0, n)) is Err,
    ensures
        expression_types(definition, scope, es) == expression_types(definition, scope, es.subrange(0, n)),
    decreases es.len() - n,
{
    if n == es.len() {
        assert(es.subrange(0, n) =~= es);
    } else {
        let s = es.subrange(0, n + 1);
        assert(s.drop_last() =~= es.subrange(0, n));
        lemma_types_fail(definition, scope, es, n + 1);
    }
}

proof fn lemma_scope_fails(
    definition: TranslatedDefinitionView,
    scope: TranslationScopeView,
    statements: Seq<StatementView>,
    n: int,
)
    requires
        0 <= n <= statements.len(),
        scope_after(definition, scope, statements.subrange(0, n)) is Err,
    ensures
        scope_after(definition, scope, statements) == scope_after(definition, scope, statements.subrange(0, n)),
    decreases statements.len() - n,
{
    if n == statements.len() {
        assert(statements.subrange(0, n) =~= statements);
    } else {
        let s = statements.subrange(0, n + 1);
        assert(s.drop_last() =~= statements.subrange(0, n));
        lemma_scope_fails(definition, scope, statements, n + 1);
    }
}

} // verus!
