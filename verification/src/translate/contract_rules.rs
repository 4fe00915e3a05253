//! What the members of a contract are translated to.

use vstd::prelude::*;
use crate::errors::ErrorView;
use crate::naming::{Case, case_converted};
use crate::project::ProjectView;
use crate::solidity;
use crate::solidity::ContractPart;
use crate::sway::model::{
    ConstantView, EnumVariantView, EnumView, ImplItemView, ImplView, StructFieldView, StructView,
    TypeDefinitionView, TypeNameView,
};
use crate::sway::shapes::decimal;
use crate::sway::typing::{named_type, unit_type};
use crate::translate::model::{TranslatedDefinitionView, TranslatedEnumView};
use crate::translate::storage_rules::translated_state_variable;
use crate::translate::type_names::translated_type_name;

verus! {

/// The field of a struct that a declaration of the source stands for.
pub open spec fn translated_field(
    project: ProjectView,
    definition: TranslatedDefinitionView,
    declaration: solidity::VariableDeclaration,
) -> Result<(StructFieldView, TranslatedDefinitionView), ErrorView> {
    match declaration.name {
        None => Err(ErrorView::MissingName),
        Some(name) => match translated_type_name(project, definition, declaration.ty, false) {
            Err(error) => Err(error),
            Ok((t, d)) => Ok((StructFieldView { is_public: true, name: case_converted(name@, Case::Snake), ty: t }, d)),
        },
    }
}

/// The fields of a struct, in order.
pub open spec fn translated_fields(
    project: ProjectView,
    definition: TranslatedDefinitionView,
    declarations: Seq<solidity::VariableDeclaration>,
) -> Result<(Seq<StructFieldView>, TranslatedDefinitionView), ErrorView>
    decreases declarations.len(),
{
    if declarations.len() == 0 {
        Ok((Seq::empty(), definition))
    } else {
        match translated_fields(project, definition, declarations.drop_last()) {
            Err(error) => Err(error),
            Ok((fields, d1)) => match translated_field(project, d1, declarations.last()) {
                Err(error) => Err(error),
                Ok((field, d2)) => Ok((fields.push(field), d2)),
            },
        }
    }
}

/// The definition with a struct of the source added: a public struct of
/// the same name whose fields are named in snake case.
pub open spec fn with_struct(
    project: ProjectView,
    definition: TranslatedDefinitionView,
    s: solidity::StructDefinition,
) -> Result<TranslatedDefinitionView, ErrorView> {
    match s.name {
        None => Err(ErrorView::MissingName),
        Some(name) => match translated_fields(project, definition, s.fields@) {
            Err(error) => Err(error),
            Ok((fields, d)) => Ok(
                TranslatedDefinitionView {
                    structs: d.structs.push(
                        StructView { attributes: None, is_public: true, name: name@, generic_parameters: None, fields },
                    ),
                    struct_names: d.struct_names.push(name@),
                    ..d
                },
            ),
        },
    }
}

/// The name of a value of an enum: `_` where the source gives none.
pub open spec fn value_name(value: Option<String>) -> Seq<char> {
    match value {
        Some(v) => v@,
        None => "_"@,
    }
}

/// The constants that stand for the values of an enum: the `i`-th value
/// is the constant of its name with the value `i`.
pub open spec fn variant_constants(owner: Seq<char>, values: Seq<Option<String>>) -> Seq<ImplItemView> {
    Seq::new(
        values.len(),
        |i: int|
            ImplItemView::Constant(
                ConstantView {
                    is_public: false,
                    name: value_name(values[i]),
                    ty: named_type(owner),
                    value: Some(decimal(i as u64)),
                },
            ),
    )
}

/// What an enum of the source becomes: an alias of `u8` of the same name,
/// and an impl of that type with one constant for each value.
pub open spec fn translated_enum(name: Seq<char>, values: Seq<Option<String>>) -> TranslatedEnumView {
    TranslatedEnumView {
        type_definition: TypeDefinitionView {
            is_public: true,
            name: named_type(name),
            underlying_type: Some(named_type("u8"@)),
        },
        variants_impl: ImplView {
            generic_parameters: None,
            ty: named_type(name),
            for_type_name: None,
            items: variant_constants(name, values),
        },
    }
}

/// The definition with an enum of the source added.
pub open spec fn with_enum_definition(definition: TranslatedDefinitionView, e: solidity::EnumDefinition) -> Result<
    TranslatedDefinitionView,
    ErrorView,
> {
    match e.name {
        None => Err(ErrorView::MissingName),
        Some(name) => Ok(definition.with_enum(translated_enum(name@, e.values@))),
    }
}

/// The types of the parameters of an event or of an error, in order.
pub open spec fn translated_parameter_types(
    project: ProjectView,
    definition: TranslatedDefinitionView,
    parameters: Seq<solidity::Parameter>,
) -> Result<(Seq<TypeNameView>, TranslatedDefinitionView), ErrorView>
    decreases parameters.len(),
{
    if parameters.len() == 0 {
        Ok((Seq::empty(), definition))
    } else {
        match translated_parameter_types(project, definition, parameters.drop_last()) {
            Err(error) => Err(error),
            Ok((types, d1)) => match translated_type_name(project, d1, parameters.last().ty, false) {
                Err(error) => Err(error),
                Ok((t, d2)) => Ok((types.push(t), d2)),
            },
        }
    }
}

/// The type of the payload of an event or of an error: the empty tuple
/// without parameters, the type of the one parameter, or the tuple of the
/// types of the parameters.
pub open spec fn payload_type(types: Seq<TypeNameView>) -> TypeNameView {
    if types.len() == 0 {
        unit_type()
    } else if types.len() == 1 {
        types[0]
    } else {
        TypeNameView::Tuple { type_names: types }
    }
}

/// The test "is the enum named `name`".
pub open spec fn is_enum_called(name: Seq<char>) -> spec_fn((EnumView, ImplView)) -> bool {
    |e: (EnumView, ImplView)| e.0.name == name
}

/// The position of the first enum named `name`, or the number of enums if
/// there is none.
pub open spec fn enum_position(enums: Seq<(EnumView, ImplView)>, name: Seq<char>) -> int
    decreases enums.len(),
{
    if enums.len() == 0 {
        0
    } else if enums.first().0.name == name {
        0
    } else {
        1 + enum_position(enums.drop_first(), name)
    }
}

/// An enum without variants, and the impl that encodes its values.
pub open spec fn empty_payload_enum(name: Seq<char>) -> (EnumView, ImplView) {
    (
        EnumView { attributes: None, is_public: false, name, generic_parameters: None, variants: Seq::empty() },
        ImplView {
            generic_parameters: None,
            ty: named_type("AbiEncode"@),
            for_type_name: Some(named_type(name)),
            items: Seq::empty(),
        },
    )
}

/// The enums with one more variant in the enum named `name`, which is
/// created if there is none.
pub open spec fn with_variant(
    enums: Seq<(EnumView, ImplView)>,
    name: Seq<char>,
    variant: EnumVariantView,
) -> Seq<(EnumView, ImplView)> {
    let i = enum_position(enums, name);
    let all = if i < enums.len() {
        enums
    } else {
        enums.push(empty_payload_enum(name))
    };
    all.update(i, (EnumView { variants: all[i].0.variants.push(variant), ..all[i].0 }, all[i].1))
}

/// The variant that an event or an error of the source stands for.
pub open spec fn translated_variant(
    project: ProjectView,
    definition: TranslatedDefinitionView,
    name: Option<String>,
    fields: Seq<solidity::Parameter>,
) -> Result<(EnumVariantView, TranslatedDefinitionView), ErrorView> {
    match name {
        None => Err(ErrorView::MissingName),
        Some(name) => match translated_parameter_types(project, definition, fields) {
            Err(error) => Err(error),
            Ok((types, d)) => Ok((EnumVariantView { name: name@, ty: payload_type(types) }, d)),
        },
    }
}

/// The definition with an event of the source added: a variant of the
/// enum of the definition's events.
pub open spec fn with_event(
    project: ProjectView,
    definition: TranslatedDefinitionView,
    e: solidity::EventDefinition,
) -> Result<TranslatedDefinitionView, ErrorView> {
    match translated_variant(project, definition, e.name, e.fields@) {
        Err(error) => Err(error),
        Ok((variant, d)) => Ok(
            TranslatedDefinitionView { events_enums: with_variant(d.events_enums, d.name + "Event"@, variant), ..d },
        ),
    }
}

/// The definition with an error of the source added: a variant of the
/// enum of the definition's errors.
pub open spec fn with_error(
    project: ProjectView,
    definition: TranslatedDefinitionView,
    e: solidity::ErrorDefinition,
) -> Result<TranslatedDefinitionView, ErrorView> {
    match translated_variant(project, definition, e.name, e.fields@) {
        Err(error) => Err(error),
        Ok((variant, d)) => Ok(
            TranslatedDefinitionView { errors_enums: with_variant(d.errors_enums, d.name + "Error"@, variant), ..d },
        ),
    }
}

/// The definition with a user-defined value type added: a public alias
/// of the translated type.
pub open spec fn with_type_definition(
    project: ProjectView,
    definition: TranslatedDefinitionView,
    t: solidity::TypeDefinition,
) -> Result<TranslatedDefinitionView, ErrorView> {
    match translated_type_name(project, definition, t.ty, false) {
        Err(error) => Err(error),
        Ok((underlying, d)) => Ok(
            TranslatedDefinitionView {
                type_definitions: d.type_definitions.push(
                    TypeDefinitionView { is_public: true, name: named_type(t.name@), underlying_type: Some(underlying) },
                ),
                ..d
            },
        ),
    }
}

/// The definition with the declarations of one member of a contract
/// added. Functions are not translated here: their bodies may refer to
/// any member of the contract.
pub open spec fn with_declaration(
    project: ProjectView,
    definition: TranslatedDefinitionView,
    part: ContractPart,
) -> Result<TranslatedDefinitionView, ErrorView> {
    match part {
        ContractPart::StructDefinition(s) => with_struct(project, definition, s),
        ContractPart::EventDefinition(e) => with_event(project, definition, e),
        ContractPart::EnumDefinition(e) => with_enum_definition(definition, e),
        ContractPart::ErrorDefinition(e) => with_error(project, definition, e),
        ContractPart::VariableDefinition(v) => translated_state_variable(project, definition, v),
        ContractPart::TypeDefinition(t) => with_type_definition(project, definition, t),
        _ => Ok(definition),
    }
}

/// The definition with the declarations of the members of a contract
/// added, in order.
pub open spec fn with_declarations(
    project: ProjectView,
    definition: TranslatedDefinitionView,
    parts: Seq<ContractPart>,
) -> Result<TranslatedDefinitionView, ErrorView>
    decreases parts.len(),
{
    if parts.len() == 0 {
        Ok(definition)
    } else {
        match with_declarations(project, definition, parts.drop_last()) {
            Err(error) => Err(error),
            Ok(d) => with_declaration(project, d, parts.last()),
        }
    }
}

} // verus!
