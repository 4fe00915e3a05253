//! The translation of type names.

use vstd::prelude::*;
use crate::errors::{Construct, Error, ErrorView};
use crate::project::{Project, ProjectView};
use crate::solidity;
use crate::sway::{Abi, Struct, TypeDefinition, TypeName};
use crate::sway::model::{
    abi_models, AbiView, struct_models, type_definition_models, TypeDefinitionView, TypeNameView,
};
use crate::sway::typing::{generic_type, generic_type1, generic_type2, named_type, type_named};
use crate::text::text_eq;
use crate::translate::{TranslatedDefinition, TranslatedEnum, Warning};
use crate::translate::infer::is_struct_named;
use crate::translate::literals::{literal_value, parse_literal};
use crate::translate::model::{
    translated_enum_models, TranslatedDefinitionView, TranslatedEnumView, WarningView,
};
use crate::translate::scope::{first_match, first_where};

verus! {

/// The width of the unsigned integer type that stands for an unsigned
/// integer of `bits` bits: the next of 8, 16, 32, 64 and 256 that is not
/// smaller. `None` for 0 bits and for more than 256.
pub open spec fn canonical_width(bits: u16) -> Option<u16> {
    if bits == 0 {
        None
    } else if bits <= 8 {
        Some(8)
    } else if bits <= 16 {
        Some(16)
    } else if bits <= 32 {
        Some(32)
    } else if bits <= 64 {
        Some(64)
    } else if bits <= 256 {
        Some(256)
    } else {
        None
    }
}

/// The name of the unsigned integer type of a canonical width.
pub open spec fn uint_name(width: u16) -> Seq<char> {
    if width == 8 {
        "u8"@
    } else if width == 16 {
        "u16"@
    } else if width == 32 {
        "u32"@
    } else if width == 64 {
        "u64"@
    } else {
        "u256"@
    }
}

/// The test "is the type alias named `name`".
pub open spec fn is_alias_named(name: Seq<char>) -> spec_fn(TypeDefinitionView) -> bool {
    |t: TypeDefinitionView| t.name == named_type(name)
}

/// The test "is the enum named `name`".
pub open spec fn is_enum_named(name: Seq<char>) -> spec_fn(TranslatedEnumView) -> bool {
    |e: TranslatedEnumView| e.type_definition.name == named_type(name)
}

/// The test "is the abi named `name`".
pub open spec fn is_abi_called(name: Seq<char>) -> spec_fn(AbiView) -> bool {
    |a: AbiView| a.name == name
}

/// The test "is this enum".
pub open spec fn is_enum(e: TranslatedEnumView) -> spec_fn(TranslatedEnumView) -> bool {
    |x: TranslatedEnumView| x == e
}

impl TranslatedDefinitionView {
    /// This definition with one more warning.
    pub open spec fn with_warning(self, warning: WarningView) -> TranslatedDefinitionView {
        TranslatedDefinitionView { warnings: self.warnings.push(warning), ..self }
    }

    /// Whether the definition declares a type alias, a struct or an enum
    /// with this name.
    pub open spec fn declares_type(self, name: Seq<char>) -> bool {
        ||| first_match(self.type_definitions, is_alias_named(name)) is Some
        ||| first_match(self.structs, is_struct_named(name)) is Some
        ||| first_match(self.enums, is_enum_named(name)) is Some
    }

    /// This definition with the abi imported, unless one of its name is
    /// imported already.
    pub open spec fn with_abi(self, abi: AbiView) -> TranslatedDefinitionView {
        if first_match(self.abis, is_abi_called(abi.name)) is Some {
            self
        } else {
            TranslatedDefinitionView { abis: self.abis.push(abi), ..self }
        }
    }
}

/// The translation of an unsigned integer type: its target type, and the
/// definition with a warning added where the width had to be rounded up.
pub open spec fn translated_uint(definition: TranslatedDefinitionView, bits: u16) -> Result<
    (TypeNameView, TranslatedDefinitionView),
    ErrorView,
> {
    match canonical_width(bits) {
        Some(width) => Ok(
            (
                named_type(uint_name(width)),
                if width == bits {
                    definition
                } else {
                    definition.with_warning(WarningView::UnsupportedBitWidth { bits, used: width })
                },
            ),
        ),
        None => Err(ErrorView::InvalidBitWidth(bits)),
    }
}

/// The length that an expression denotes as the length of an array: the
/// value of a number literal that fits in `usize`.
pub open spec fn array_length(e: solidity::Expression) -> Option<usize> {
    match e {
        solidity::Expression::NumberLiteral(digits) => match literal_value(digits@, false) {
            Some(v) => if v <= usize::MAX {
                Some(v as usize)
            } else {
                None
            },
            None => None,
        },
        solidity::Expression::HexNumberLiteral(digits) => match literal_value(digits@, true) {
            Some(v) => if v <= usize::MAX {
                Some(v as usize)
            } else {
                None
            },
            None => None,
        },
        _ => None,
    }
}

/// The translation of a type name of the source: the type name of the
/// target, and the definition with the imports that the type needs.
///
/// * Addresses become `Identity`, booleans `bool`, unsigned integers the
///   unsigned integer type of the next supported width.
/// * Byte arrays of 32 bytes become `b256`, other fixed byte arrays arrays
///   of `u8`, dynamic byte arrays `Bytes`.
/// * Strings become `StorageString` in storage and string slices elsewhere;
///   dynamic arrays become `StorageVec` in storage and `Vec` elsewhere;
///   mappings become `StorageMap`.
/// * An identifier is a type alias, a struct or an enum of the definition,
///   or else a contract of the project with an abi, which is then imported.
/// * `T[n]` is an array where `n` is a number literal.
/// * `Contract.Enum` is an enum of another definition, which is imported.
pub open spec fn translated_type_name(
    project: ProjectView,
    definition: TranslatedDefinitionView,
    ty: solidity::Expression,
    is_storage: bool,
) -> Result<(TypeNameView, TranslatedDefinitionView), ErrorView>
    decreases ty,
{
    match ty {
        solidity::Expression::Type(t) => match t {
            solidity::Type::Address => Ok((named_type("Identity"@), definition)),
            solidity::Type::AddressPayable => Ok((named_type("Identity"@), definition)),
            solidity::Type::Payable => Err(ErrorView::Unsupported(Construct::PayableType@)),
            solidity::Type::Bool => Ok((named_type("bool"@), definition)),
            solidity::Type::String => if is_storage {
                Ok((named_type("StorageString"@), definition.with_use("std::storage::storage_string::*"@)))
            } else {
                Ok((TypeNameView::StringSlice, definition))
            },
            solidity::Type::Int(_) => Err(ErrorView::Unsupported(Construct::SignedIntegerType@)),
            solidity::Type::Uint(bits) => translated_uint(definition, bits),
            solidity::Type::Bytes(length) => if length == 32 {
                Ok((named_type("b256"@), definition))
            } else {
                Ok((TypeNameView::Array { ty: Box::new(named_type("u8"@)), length: length as usize }, definition))
            },
            solidity::Type::Rational => Err(ErrorView::Unsupported(Construct::RationalType@)),
            solidity::Type::DynamicBytes => Ok((named_type("Bytes"@), definition.with_use("std::bytes::Bytes"@))),
            solidity::Type::Mapping { key, value } => match translated_type_name(
                project,
                definition.with_use("std::hash::Hash"@),
                *key,
                is_storage,
            ) {
                Err(error) => Err(error),
                Ok((k, d1)) => match translated_type_name(project, d1, *value, is_storage) {
                    Err(error) => Err(error),
                    Ok((v, d2)) => Ok((generic_type("StorageMap"@, seq![k, v]), d2)),
                },
            },
            solidity::Type::Function => Err(ErrorView::Unsupported(Construct::FunctionType@)),
        },
        solidity::Expression::Variable(name) => if definition.declares_type(name@) {
            Ok((named_type(name@), definition))
        } else {
            match project.definition_with_abi(name@) {
                Some(external) => Ok((named_type(external.name), definition.with_abi(external.abi->0))),
                None => Err(ErrorView::UnknownType(name@)),
            }
        },
        solidity::Expression::ArraySubscript(element, length) => match length {
            Some(length) => match translated_type_name(project, definition, *element, is_storage) {
                Err(error) => Err(error),
                Ok((t, d)) => match array_length(*length) {
                    Some(n) => Ok((TypeNameView::Array { ty: Box::new(t), length: n }, d)),
                    None => Err(ErrorView::InvalidArrayLength),
                },
            },
            None => match translated_type_name(
                project,
                if is_storage {
                    definition.with_use("std::storage::storage_vec::*"@)
                } else {
                    definition
                },
                *element,
                is_storage,
            ) {
                Err(error) => Err(error),
                Ok((t, d)) => Ok((generic_type(if is_storage { "StorageVec"@ } else { "Vec"@ }, seq![t]), d)),
            },
        },
        solidity::Expression::MemberAccess(container, member) => match *container {
            solidity::Expression::Variable(name) => match project.definition_named(name@) {
                Some(external) => match first_match(external.enums, is_enum_named(member@)) {
                    Some(e) => Ok(
                        (
                            e.type_definition.name,
                            if first_match(definition.enums, is_enum(e)) is Some {
                                definition
                            } else {
                                definition.with_enum(e)
                            },
                        ),
                    ),
                    None => Err(ErrorView::UnknownType(member@)),
                },
                None => Err(ErrorView::UnknownType(member@)),
            },
            _ => Err(ErrorView::Unsupported(Construct::TypeExpression@)),
        },
        _ => Err(ErrorView::Unsupported(Construct::TypeExpression@)),
    }
}

/// The type that a function returns for a value of type `t`: an owned
/// string for a string slice, `Identity` for a contract of the project
/// with an abi, and `t` itself otherwise.
pub open spec fn translated_return_type_name(
    project: ProjectView,
    definition: TranslatedDefinitionView,
    t: TypeNameView,
) -> (TypeNameView, TranslatedDefinitionView) {
    match t {
        TypeNameView::StringSlice => (named_type("String"@), definition.with_use("std::string::*"@)),
        TypeNameView::Identifier { name, generic_parameters: None } => if project.definition_with_abi(name) is Some {
            (named_type("Identity"@), definition)
        } else {
            (t, definition)
        },
        _ => (t, definition),
    }
}

/// Width rounding is idempotent: the width that a width is rounded to is
/// rounded to itself, and an unsigned integer of that width is translated
/// to the same type, with the definition left as it is.
pub proof fn lemma_width_rounding_is_idempotent(definition: TranslatedDefinitionView, bits: u16)
    requires
        canonical_width(bits) is Some,
    ensures
        canonical_width(canonical_width(bits)->0) == canonical_width(bits),
        translated_uint(definition, canonical_width(bits)->0) == Ok::<(TypeNameView, TranslatedDefinitionView), ErrorView>(
            (translated_uint(definition, bits)->Ok_0.0, definition),
        ),
{
}

fn translate_uint(translated_definition: &mut TranslatedDefinition, bits: u16) -> (r: Result<TypeName, Error>)
    ensures
        match r {
            Ok(t) => translated_uint(old(translated_definition)@, bits) == Ok::<
                (TypeNameView, TranslatedDefinitionView),
                ErrorView,
            >((t@, final(translated_definition)@)),
            Err(error) => translated_uint(old(translated_definition)@, bits) == Err::<
                (TypeNameView, TranslatedDefinitionView),
                ErrorView,
            >(error@) && final(translated_definition)@ == old(translated_definition)@,
        },
{
    let width: u16 = if bits == 0 {
        return Err(Error::InvalidBitWidth(bits));
    } else if bits <= 8 {
        8
    } else if bits <= 16 {
        16
    } else if bits <= 32 {
        32
    } else if bits <= 64 {
        64
    } else if bits <= 256 {
        256
    } else {
        return Err(Error::InvalidBitWidth(bits));
    };
    if width != bits {
        translated_definition.warnings.push(Warning::UnsupportedBitWidth { bits, used: width });
        assert(final(translated_definition)@.warnings =~= old(translated_definition)@.warnings.push(
            WarningView::UnsupportedBitWidth { bits, used: width },
        ));
    }
    Ok(
        if width == 8 {
            type_named("u8")
        } else if width == 16 {
            type_named("u16")
        } else if width == 32 {
            type_named("u32")
        } else if width == 64 {
            type_named("u64")
        } else {
            type_named("u256")
        },
    )
}

fn array_length_of(e: &solidity::Expression) -> (r: Option<usize>)
    ensures
        r == array_length(*e),
{
    let value = match e {
        solidity::Expression::NumberLiteral(digits) => parse_literal(digits.as_str(), false),
        solidity::Expression::HexNumberLiteral(digits) => parse_literal(digits.as_str(), true),
        _ => None,
    };
    match value {
        Some(v) => if v <= usize::MAX as u64 {
            Some(v as usize)
        } else {
            None
        },
        None => None,
    }
}

fn declares_type(definition: &TranslatedDefinition, name: &str) -> (r: bool)
    ensures
        r == definition@.declares_type(name@),
{
    let ghost wanted = named_type(name@);
    let alias = first_where::<TypeDefinition, TypeDefinitionView, _>(
        &definition.type_definitions,
        (|t: &TypeDefinition| -> (b: bool)
            ensures
                b == (t@.name == named_type(name@)),
            {
                is_type_named(&t.name, name)
            }),
        Ghost(type_definition_models(definition.type_definitions@)),
        Ghost(is_alias_named(name@)),
    );
    if alias.is_some() {
        return true;
    }
    let structure = first_where::<Struct, crate::sway::model::StructView, _>(
        &definition.structs,
        (|s: &Struct| -> (b: bool)
            ensures
                b == (s@.name == name@),
            {
                text_eq(s.name.as_str(), name)
            }),
        Ghost(struct_models(definition.structs@)),
        Ghost(is_struct_named(name@)),
    );
    if structure.is_some() {
        return true;
    }
    let enumeration = first_where::<TranslatedEnum, TranslatedEnumView, _>(
        &definition.enums,
        (|e: &TranslatedEnum| -> (b: bool)
            ensures
                b == (e@.type_definition.name == named_type(name@)),
            {
                is_type_named(&e.type_definition.name, name)
            }),
        Ghost(translated_enum_models(definition.enums@)),
        Ghost(is_enum_named(name@)),
    );
    enumeration.is_some()
}

/// Whether a type is the type of this name without type arguments.
pub fn is_type_named(t: &TypeName, name: &str) -> (r: bool)
    ensures
        r == (t@ == named_type(name@)),
{
    match t {
        TypeName::Identifier { name: n, generic_parameters: None } => text_eq(n.as_str(), name),
        _ => false,
    }
}

fn import_abi(translated_definition: &mut TranslatedDefinition, abi: &Abi)
    ensures
        final(translated_definition)@ == old(translated_definition)@.with_abi(abi@),
{
    let found = first_where::<Abi, AbiView, _>(
        &translated_definition.abis,
        (|a: &Abi| -> (b: bool)
            ensures
                b == (a@.name == abi@.name),
            {
                text_eq(a.name.as_str(), abi.name.as_str())
            }),
        Ghost(abi_models(translated_definition.abis@)),
        Ghost(is_abi_called(abi@.name)),
    );
    if found.is_none() {
        translated_definition.abis.push(abi.clone());
        assert(final(translated_definition)@.abis =~= old(translated_definition)@.abis.push(abi@));
    }
}

/// The value of the outcome of translating a type name, with the
/// definition as it is afterwards.
pub open spec fn translation_view(r: Result<TypeName, Error>, definition: TranslatedDefinitionView) -> Result<
    (TypeNameView, TranslatedDefinitionView),
    ErrorView,
> {
    match r {
        Ok(t) => Ok((t@, definition)),
        Err(error) => Err(error@),
    }
}

/// Translates a type name of the source. `is_storage` tells whether the
/// type is that of a storage field.
pub fn translate_type_name(
    project: &Project,
    translated_definition: &mut TranslatedDefinition,
    ty: &solidity::Expression,
    is_storage: bool,
) -> (r: Result<TypeName, Error>)
    ensures
        translation_view(r, final(translated_definition)@) == translated_type_name(
            project@,
            old(translated_definition)@,
            *ty,
            is_storage,
        ),
    decreases ty,
{
    match ty {
        solidity::Expression::Type(t) => match t {
            solidity::Type::Address => Ok(type_named("Identity")),
            solidity::Type::AddressPayable => Ok(type_named("Identity")),
            solidity::Type::Payable => Err(Error::Unsupported(Construct::PayableType)),
            solidity::Type::Bool => Ok(type_named("bool")),
            solidity::Type::String => if is_storage {
                translated_definition.ensure_use_declared("std::storage::storage_string::*");
                Ok(type_named("StorageString"))
            } else {
                Ok(TypeName::StringSlice)
            },
            solidity::Type::Int(_) => Err(Error::Unsupported(Construct::SignedIntegerType)),
            solidity::Type::Uint(bits) => translate_uint(translated_definition, *bits),
            solidity::Type::Bytes(length) => if *length == 32 {
                Ok(type_named("b256"))
            } else {
                Ok(TypeName::Array { ty: Box::new(type_named("u8")), length: *length as usize })
            },
            solidity::Type::Rational => Err(Error::Unsupported(Construct::RationalType)),
            solidity::Type::DynamicBytes => {
                translated_definition.ensure_use_declared("std::bytes::Bytes");
                Ok(type_named("Bytes"))
            },
            solidity::Type::Mapping { key, value } => {
                translated_definition.ensure_use_declared("std::hash::Hash");
                match translate_type_name(project, translated_definition, &**key, is_storage) {
                    Err(error) => Err(error),
                    Ok(k) => match translate_type_name(project, translated_definition, &**value, is_storage) {
                        Err(error) => Err(error),
                        Ok(v) => Ok(generic_type2("StorageMap", k, v)),
                    },
                }
            },
            solidity::Type::Function => Err(Error::Unsupported(Construct::FunctionType)),
        },
        solidity::Expression::Variable(name) => if declares_type(translated_definition, name.as_str()) {
            Ok(type_named(name.as_str()))
        } else {
            match project.find_definition_with_abi(name.as_str()) {
                Some(external) => {
                    match &external.abi {
                        Some(abi) => {
                            import_abi(translated_definition, abi);
                        },
                        None => {},
                    }
                    Ok(type_named(external.name.as_str()))
                },
                None => Err(Error::UnknownType(name.clone())),
            }
        },
        solidity::Expression::ArraySubscript(element, length) => match length {
            Some(length) => match translate_type_name(project, translated_definition, &**element, is_storage) {
                Err(error) => Err(error),
                Ok(t) => match array_length_of(&**length) {
                    Some(n) => Ok(TypeName::Array { ty: Box::new(t), length: n }),
                    None => Err(Error::InvalidArrayLength),
                },
            },
            None => {
                if is_storage {
                    translated_definition.ensure_use_declared("std::storage::storage_vec::*");
                }
                match translate_type_name(project, translated_definition, &**element, is_storage) {
                    Err(error) => Err(error),
                    Ok(t) => Ok(generic_type1(if is_storage { "StorageVec" } else { "Vec" }, t)),
                }
            },
        },
        solidity::Expression::MemberAccess(container, member) => match &**container {
            solidity::Expression::Variable(name) => match project.find_definition(name.as_str()) {
                Some(external) => {
                    let found = first_where::<TranslatedEnum, TranslatedEnumView, _>(
                        &external.enums,
                        (|e: &TranslatedEnum| -> (b: bool)
                            ensures
                                b == (e@.type_definition.name == named_type(member@)),
                            {
                                is_type_named(&e.type_definition.name, member.as_str())
                            }),
                        Ghost(translated_enum_models(external.enums@)),
                        Ghost(is_enum_named(member@)),
                    );
                    match found {
                        Some(i) => {
                            let external_enum = &external.enums[i];
                            let known = first_where::<TranslatedEnum, TranslatedEnumView, _>(
                                &translated_definition.enums,
                                (|e: &TranslatedEnum| -> (b: bool)
                                    ensures
                                        b == (e@ == external_enum@),
                                    {
                                        e.eq(external_enum)
                                    }),
                                Ghost(translated_enum_models(translated_definition.enums@)),
                                Ghost(is_enum(external_enum@)),
                            );
                            if known.is_none() {
                                translated_definition.import_enum(external_enum);
                            }
                            Ok(external_enum.type_definition.name.clone())
                        },
                        None => Err(Error::UnknownType(member.clone())),
                    }
                },
                None => Err(Error::UnknownType(member.clone())),
            },
            _ => Err(Error::Unsupported(Construct::TypeExpression)),
        },
        _ => Err(Error::Unsupported(Construct::TypeExpression)),
    }
}

/// Translates the type of a value into the type that a function returns
/// for it.
pub fn translate_return_type_name(
    project: &Project,
    translated_definition: &mut TranslatedDefinition,
    ty: TypeName,
) -> (r: TypeName)
    ensures
        (r@, final(translated_definition)@) == translated_return_type_name(
            project@,
            old(translated_definition)@,
            ty@,
        ),
{
    match &ty {
        TypeName::StringSlice => {
            translated_definition.ensure_use_declared("std::string::*");
            type_named("String")
        },
        TypeName::Identifier { name, generic_parameters: None } => {
            if project.find_definition_with_abi(name.as_str()).is_some() {
                type_named("Identity")
            } else {
                ty
            }
        },
        _ => ty,
    }
}

} // verus!
