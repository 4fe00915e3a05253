//! The translation of the members of a contract.

use vstd::prelude::*;
use crate::errors::{Error, ErrorView};
use crate::naming::{Case, translate_naming_convention};
use crate::project::{Project, ProjectView};
use crate::solidity;
use crate::solidity::ContractPart;
use crate::sway::{
    Constant, Enum, EnumVariant, Expression, Impl, ImplItem, Literal, Struct, StructField, TypeDefinition,
    TypeName,
};
use crate::sway::model::{
    EnumVariantView, EnumView, impl_item_models, ImplView, struct_field_models, StructFieldView,
    type_name_models, TypeNameView,
};
use crate::sway::typing::{type_named, unit_type_name};
use crate::text::{join2, text, text_eq};
use crate::translate::{TranslatedDefinition, TranslatedEnum};
use crate::translate::contract_rules::{
    empty_payload_enum, enum_position, is_enum_called, payload_type, translated_field, translated_fields,
    translated_parameter_types, translated_variant, variant_constants, with_declaration, with_declarations,
    with_enum_definition, with_error, with_event, with_struct, with_type_definition, with_variant,
};
use crate::translate::model::{enum_impl_models, TranslatedDefinitionView};
use crate::translate::scope::first_where;
use crate::translate::storage::translate_state_variable;
use crate::translate::type_names::translate_type_name;

verus! {

fn translate_field(
    project: &Project,
    translated_definition: &mut TranslatedDefinition,
    declaration: &solidity::VariableDeclaration,
) -> (r: Result<StructField, Error>)
    ensures
        match r {
            Ok(field) => translated_field(project@, old(translated_definition)@, *declaration) == Ok::<
                (StructFieldView, TranslatedDefinitionView),
                ErrorView,
            >((field@, final(translated_definition)@)),
            Err(error) => translated_field(project@, old(translated_definition)@, *declaration) == Err::<
                (StructFieldView, TranslatedDefinitionView),
                ErrorView,
            >(error@),
        },
{
    let name = match &declaration.name {
        None => {
            return Err(Error::MissingName);
        },
        Some(name) => name,
    };
    match translate_type_name(project, translated_definition, &declaration.ty, false) {
        Err(error) => {
            return Err(error);
        },
        Ok(t) => {
            return Ok(
                StructField { is_public: true, name: translate_naming_convention(name.as_str(), Case::Snake), ty: t },
            );
        },
    }
}

proof fn lemma_fields_fail(
    project: ProjectView,
    definition: TranslatedDefinitionView,
    declarations: Seq<solidity::VariableDeclaration>,
    n: int,
)
    requires
        0 <= n <= declarations.len(),
        translated_fields(project, definition, declarations.subrange(0, n)) is Err,
    ensures
        translated_fields(project, definition, declarations) == translated_fields(
            project,
            definition,
            declarations.subrange(0, n),
        ),
    decreases declarations.len() - n,
{
    if n == declarations.len() {
        assert(declarations.subrange(0, n) =~= declarations);
    } else {
        let s = declarations.subrange(0, n + 1);
        assert(s.drop_last() =~= declarations.subrange(0, n));
        lemma_fields_fail(project, definition, declarations, n + 1);
    }
}

fn translate_fields(
    project: &Project,
    translated_definition: &mut TranslatedDefinition,
    declarations: &Vec<solidity::VariableDeclaration>,
) -> (r: Result<Vec<StructField>, Error>)
    ensures
        match r {
            Ok(fields) => translated_fields(project@, old(translated_definition)@, declarations@) == Ok::<
                (Seq<StructFieldView>, TranslatedDefinitionView),
                ErrorView,
            >((struct_field_models(fields@), final(translated_definition)@)),
            Err(error) => translated_fields(project@, old(translated_definition)@, declarations@) == Err::<
                (Seq<StructFieldView>, TranslatedDefinitionView),
                ErrorView,
            >(error@),
        },
{
    let ghost start = old(translated_definition)@;
    let mut fields: Vec<StructField> = Vec::new();
    let mut i: usize = 0;
    assert(declarations@.subrange(0, 0) =~= Seq::empty());
    assert(struct_field_models(fields@) =~= Seq::empty());
    while i < declarations.len()
        invariant
            i <= declarations.len(),
            start == old(translated_definition)@,
            translated_fields(project@, start, declarations@.subrange(0, i as int)) == Ok::<
                (Seq<StructFieldView>, TranslatedDefinitionView),
                ErrorView,
            >((struct_field_models(fields@), translated_definition@)),
        decreases declarations.len() - i,
    {
        proof {
            let s = declarations@.subrange(0, i + 1);
            assert(s.drop_last() =~= declarations@.subrange(0, i as int));
            assert(s.last() == declarations@[i as int]);
        }
        let ghost before = struct_field_models(fields@);
        match translate_field(project, translated_definition, &declarations[i]) {
            Err(error) => {
                proof {
                    lemma_fields_fail(project@, start, declarations@, i + 1);
                }
                return Err(error);
            },
            Ok(field) => {
                fields.push(field);
                assert(struct_field_models(fields@) =~= before.push(field@));
            },
        }
        i += 1;
    }
    assert(declarations@.subrange(0, i as int) =~= declarations@);
    Ok(fields)
}

/// Adds a struct of the source to the definition.
pub fn translate_struct_definition(
    project: &Project,
    translated_definition: &mut TranslatedDefinition,
    struct_definition: &solidity::StructDefinition,
) -> (r: Result<(), Error>)
    ensures
        match r {
            Ok(()) => with_struct(project@, old(translated_definition)@, *struct_definition) == Ok::<
                TranslatedDefinitionView,
                ErrorView,
            >(final(translated_definition)@),
            Err(error) => with_struct(project@, old(translated_definition)@, *struct_definition) == Err::<
                TranslatedDefinitionView,
                ErrorView,
            >(error@),
        },
{
    let name = match &struct_definition.name {
        None => {
            return Err(Error::MissingName);
        },
        Some(name) => name,
    };
    let fields = match translate_fields(project, translated_definition, &struct_definition.fields) {
        Err(error) => {
            return Err(error);
        },
        Ok(fields) => fields,
    };
    let ghost before = translated_definition@;
    let s = Struct { attributes: None, is_public: true, name: name.clone(), generic_parameters: None, fields };
    translated_definition.structs.push(s);
    translated_definition.struct_names.push(name.clone());
    assert(final(translated_definition)@.structs =~= before.structs.push(s@));
    assert(final(translated_definition)@.struct_names =~= before.struct_names.push(name@));
    Ok(())
}

fn make_variant_constants(owner: &String, values: &Vec<Option<String>>) -> (r: Vec<ImplItem>)
    ensures
        impl_item_models(r@) == variant_constants(owner@, values@),
{
    let mut items: Vec<ImplItem> = Vec::new();
    let mut i: usize = 0;
    while i < values.len()
        invariant
            i <= values.len(),
            items.len() == i,
            forall|j: int| 0 <= j < i ==> (#[trigger] items[j])@ == variant_constants(owner@, values@)[j],
        decreases values.len() - i,
    {
        let name = match &values[i] {
            Some(v) => v.clone(),
            None => text("_"),
        };
        let item = ImplItem::Constant(
            Constant {
                is_public: false,
                name,
                ty: type_named(owner.as_str()),
                value: Some(Expression::Literal(Literal::DecInt(i as u64))),
            },
        );
        items.push(item);
        i += 1;
    }
    assert(impl_item_models(items@) =~= variant_constants(owner@, values@));
    items
}

/// Adds an enum of the source to the definition.
pub fn translate_enum_definition(
    translated_definition: &mut TranslatedDefinition,
    enum_definition: &solidity::EnumDefinition,
) -> (r: Result<(), Error>)
    ensures
        match r {
            Ok(()) => with_enum_definition(old(translated_definition)@, *enum_definition) == Ok::<
                TranslatedDefinitionView,
                ErrorView,
            >(final(translated_definition)@),
            Err(error) => with_enum_definition(old(translated_definition)@, *enum_definition) == Err::<
                TranslatedDefinitionView,
                ErrorView,
            >(error@),
        },
{
    let name = match &enum_definition.name {
        None => {
            return Err(Error::MissingName);
        },
        Some(name) => name,
    };
    let translated = TranslatedEnum {
        type_definition: TypeDefinition {
            is_public: true,
            name: type_named(name.as_str()),
            underlying_type: Some(type_named("u8")),
        },
        variants_impl: Impl {
            generic_parameters: None,
            ty: type_named(name.as_str()),
            for_type_name: None,
            items: make_variant_constants(name, &enum_definition.values),
        },
    };
    translated_definition.import_enum(&translated);
    Ok(())
}

proof fn lemma_parameter_types_fail(
    project: ProjectView,
    definition: TranslatedDefinitionView,
    parameters: Seq<solidity::Parameter>,
    n: int,
)
    requires
        0 <= n <= parameters.len(),
        translated_parameter_types(project, definition, parameters.subrange(0, n)) is Err,
    ensures
        translated_parameter_types(project, definition, parameters) == translated_parameter_types(
            project,
            definition,
            parameters.subrange(0, n),
        ),
    decreases parameters.len() - n,
{
    if n == parameters.len() {
        assert(parameters.subrange(0, n) =~= parameters);
    } else {
        let s = parameters.subrange(0, n + 1);
        assert(s.drop_last() =~= parameters.subrange(0, n));
        lemma_parameter_types_fail(project, definition, parameters, n + 1);
    }
}

fn translate_parameter_types(
    project: &Project,
    translated_definition: &mut TranslatedDefinition,
    parameters: &Vec<solidity::Parameter>,
) -> (r: Result<Vec<TypeName>, Error>)
    ensures
        match r {
            Ok(types) => translated_parameter_types(project@, old(translated_definition)@, parameters@) == Ok::<
                (Seq<TypeNameView>, TranslatedDefinitionView),
                ErrorView,
            >((type_name_models(types@), final(translated_definition)@)),
            Err(error) => translated_parameter_types(project@, old(translated_definition)@, parameters@) == Err::<
                (Seq<TypeNameView>, TranslatedDefinitionView),
                ErrorView,
            >(error@),
        },
{
    let ghost start = old(translated_definition)@;
    let mut types: Vec<TypeName> = Vec::new();
    let mut i: usize = 0;
    assert(parameters@.subrange(0, 0) =~= Seq::empty());
    assert(type_name_models(types@) =~= Seq::empty());
    while i < parameters.len()
        invariant
            i <= parameters.len(),
            start == old(translated_definition)@,
            translated_parameter_types(project@, start, parameters@.subrange(0, i as int)) == Ok::<
                (Seq<TypeNameView>, TranslatedDefinitionView),
                ErrorView,
            >((type_name_models(types@), translated_definition@)),
        decreases parameters.len() - i,
    {
        proof {
            let s = parameters@.subrange(0, i + 1);
            assert(s.drop_last() =~= parameters@.subrange(0, i as int));
            assert(s.last() == parameters@[i as int]);
        }
        let ghost before = type_name_models(types@);
        match translate_type_name(project, translated_definition, &parameters[i].ty, false) {
            Err(error) => {
                proof {
                    lemma_parameter_types_fail(project@, start, parameters@, i + 1);
                }
                return Err(error);
            },
            Ok(t) => {
                types.push(t);
                assert(type_name_models(types@) =~= before.push(t@));
            },
        }
        i += 1;
    }
    assert(parameters@.subrange(0, i as int) =~= parameters@);
    Ok(types)
}

fn payload_type_of(types: Vec<TypeName>) -> (r: TypeName)
    ensures
        r@ == payload_type(type_name_models(types@)),
{
    if types.len() == 0 {
        return unit_type_name();
    }
    if types.len() == 1 {
        let mut types = types;
        let ghost before = type_name_models(types@);
        match types.pop() {
            Some(t) => {
                assert(t@ == before[0]);
                return t;
            },
            None => {
                return unit_type_name();
            },
        }
    }
    proof {
        reveal_with_fuel(TypeName::model, 2);
    }
    TypeName::Tuple { type_names: types }
}

fn translate_variant(
    project: &Project,
    translated_definition: &mut TranslatedDefinition,
    name: &Option<String>,
    fields: &Vec<solidity::Parameter>,
) -> (r: Result<EnumVariant, Error>)
    ensures
        match r {
            Ok(variant) => translated_variant(project@, old(translated_definition)@, *name, fields@) == Ok::<
                (EnumVariantView, TranslatedDefinitionView),
                ErrorView,
            >((variant@, final(translated_definition)@)),
            Err(error) => translated_variant(project@, old(translated_definition)@, *name, fields@) == Err::<
                (EnumVariantView, TranslatedDefinitionView),
                ErrorView,
            >(error@),
        },
{
    let name = match name {
        None => {
            return Err(Error::MissingName);
        },
        Some(name) => name,
    };
    match translate_parameter_types(project, translated_definition, fields) {
        Err(error) => {
            return Err(error);
        },
        Ok(types) => {
            return Ok(EnumVariant { name: name.clone(), ty: payload_type_of(types) });
        },
    }
}

proof fn lemma_enum_position(enums: Seq<(EnumView, ImplView)>, name: Seq<char>, i: int)
    requires
        0 <= i <= enums.len(),
        forall|j: int| 0 <= j < i ==> (#[trigger] enums[j]).0.name != name,
        i < enums.len() ==> enums[i].0.name == name,
    ensures
        enum_position(enums, name) == i,
    decreases enums.len(),
{
    if enums.len() == 0 {
    } else if i == 0 {
    } else {
        assert(enums[0].0.name != name);
        let t = enums.drop_first();
        assert forall|j: int| 0 <= j < i - 1 implies (#[trigger] t[j]).0.name != name by {
            assert(t[j] == enums[j + 1]);
        }
        if i < enums.len() {
            assert(t[i - 1] == enums[i]);
        }
        lemma_enum_position(t, name, i - 1);
    }
}

fn add_variant(enums: &mut Vec<(Enum, Impl)>, name: &str, variant: EnumVariant)
    ensures
        enum_impl_models(final(enums)@) == with_variant(enum_impl_models(old(enums)@), name@, variant@),
{
    let ghost before = enum_impl_models(enums@);
    let found = first_where::<(Enum, Impl), (EnumView, ImplView), _>(
        enums,
        (|e: &(Enum, Impl)| -> (b: bool)
            ensures
                b == (e.0@.name == name@),
            {
                text_eq(e.0.name.as_str(), name)
            }),
        Ghost(enum_impl_models(enums@)),
        Ghost(is_enum_called(name@)),
    );
    let i = match found {
        Some(i) => {
            proof {
                lemma_enum_position(before, name@, i as int);
            }
            i
        },
        None => {
            proof {
                lemma_enum_position(before, name@, before.len() as int);
            }
            let declaration = Enum {
                attributes: None,
                is_public: false,
                name: text(name),
                generic_parameters: None,
                variants: Vec::new(),
            };
            let encoder = Impl {
                generic_parameters: None,
                ty: type_named("AbiEncode"),
                for_type_name: Some(type_named(name)),
                items: Vec::new(),
            };
            assert(declaration@.variants =~= Seq::empty());
            assert(encoder@.items =~= Seq::empty());
            enums.push((declaration, encoder));
            assert(enum_impl_models(enums@) =~= before.push(empty_payload_enum(name@)));
            enums.len() - 1
        },
    };
    let ghost all = enum_impl_models(enums@);
    let ghost variants = all[i as int].0.variants;
    enums[i].0.variants.push(variant);
    assert(enums[i as int].0@.variants =~= variants.push(variant@));
    assert(enum_impl_models(enums@) =~= with_variant(before, name@, variant@));
}

/// Adds an event of the source to the definition.
pub fn translate_event_definition(
    project: &Project,
    translated_definition: &mut TranslatedDefinition,
    event_definition: &solidity::EventDefinition,
) -> (r: Result<(), Error>)
    ensures
        match r {
            Ok(()) => with_event(project@, old(translated_definition)@, *event_definition) == Ok::<
                TranslatedDefinitionView,
                ErrorView,
            >(final(translated_definition)@),
            Err(error) => with_event(project@, old(translated_definition)@, *event_definition) == Err::<
                TranslatedDefinitionView,
                ErrorView,
            >(error@),
        },
{
    let variant = match translate_variant(
        project,
        translated_definition,
        &event_definition.name,
        &event_definition.fields,
    ) {
        Err(error) => {
            return Err(error);
        },
        Ok(variant) => variant,
    };
    let name = join2(translated_definition.name.as_str(), "Event");
    add_variant(&mut translated_definition.events_enums, name.as_str(), variant);
    Ok(())
}

/// Adds an error of the source to the definition.
pub fn translate_error_definition(
    project: &Project,
    translated_definition: &mut TranslatedDefinition,
    error_definition: &solidity::ErrorDefinition,
) -> (r: Result<(), Error>)
    ensures
        match r {
            Ok(()) => with_error(project@, old(translated_definition)@, *error_definition) == Ok::<
                TranslatedDefinitionView,
                ErrorView,
            >(final(translated_definition)@),
            Err(error) => with_error(project@, old(translated_definition)@, *error_definition) == Err::<
                TranslatedDefinitionView,
                ErrorView,
            >(error@),
        },
{
    let variant = match translate_variant(
        project,
        translated_definition,
        &error_definition.name,
        &error_definition.fields,
    ) {
        Err(error) => {
            return Err(error);
        },
        Ok(variant) => variant,
    };
    let name = join2(translated_definition.name.as_str(), "Error");
    add_variant(&mut translated_definition.errors_enums, name.as_str(), variant);
    Ok(())
}

/// Adds a user-defined value type of the source to the definition.
pub fn translate_type_definition(
    project: &Project,
    translated_definition: &mut TranslatedDefinition,
    type_definition: &solidity::TypeDefinition,
) -> (r: Result<(), Error>)
    ensures
        match r {
            Ok(()) => with_type_definition(project@, old(translated_definition)@, *type_definition) == Ok::<
                TranslatedDefinitionView,
                ErrorView,
            >(final(translated_definition)@),
            Err(error) => with_type_definition(project@, old(translated_definition)@, *type_definition) == Err::<
                TranslatedDefinitionView,
                ErrorView,
            >(error@),
        },
{
    let underlying = match translate_type_name(project, translated_definition, &type_definition.ty, false) {
        Err(error) => {
            return Err(error);
        },
        Ok(t) => t,
    };
    let ghost before = translated_definition@;
    let alias = TypeDefinition {
        is_public: true,
        name: type_named(type_definition.name.as_str()),
        underlying_type: Some(underlying),
    };
    translated_definition.type_definitions.push(alias);
    assert(final(translated_definition)@.type_definitions =~= before.type_definitions.push(alias@));
    Ok(())
}

fn declare_part(project: &Project, translated_definition: &mut TranslatedDefinition, part: &ContractPart) -> (r: Result<
    (),
    Error,
>)
    ensures
        match r {
            Ok(()) => with_declaration(project@, old(translated_definition)@, *part) == Ok::<
                TranslatedDefinitionView,
                ErrorView,
            >(final(translated_definition)@),
            Err(error) => with_declaration(project@, old(translated_definition)@, *part) == Err::<
                TranslatedDefinitionView,
                ErrorView,
            >(error@),
        },
{
    match part {
        ContractPart::StructDefinition(s) => {
            return translate_struct_definition(project, translated_definition, s);
        },
        ContractPart::EventDefinition(e) => {
            return translate_event_definition(project, translated_definition, e);
        },
        ContractPart::EnumDefinition(e) => {
            return translate_enum_definition(translated_definition, e);
        },
        ContractPart::ErrorDefinition(e) => {
            return translate_error_definition(project, translated_definition, e);
        },
        ContractPart::VariableDefinition(v) => {
            return translate_state_variable(project, translated_definition, v);
        },
        ContractPart::TypeDefinition(t) => {
            return translate_type_definition(project, translated_definition, t);
        },
        _ => {
            return Ok(());
        },
    }
}

proof fn lemma_declarations_fail(
    project: ProjectView,
    definition: TranslatedDefinitionView,
    parts: Seq<ContractPart>,
    n: int,
)
    requires
        0 <= n <= parts.len(),
        with_declarations(project, definition, parts.subrange(0, n)) is Err,
    ensures
        with_declarations(project, definition, parts) == with_declarations(project, definition, parts.subrange(0, n)),
    decreases parts.len() - n,
{
    if n == parts.len() {
        assert(parts.subrange(0, n) =~= parts);
    } else {
        let s = parts.subrange(0, n + 1);
        assert(s.drop_last() =~= parts.subrange(0, n));
        lemma_declarations_fail(project, definition, parts, n + 1);
    }
}

/// Adds to the definition what the members of a contract declare, apart
/// from its functions.
pub fn translate_declarations(
    project: &Project,
    translated_definition: &mut TranslatedDefinition,
    parts: &Vec<ContractPart>,
) -> (r: Result<(), Error>)
    ensures
        match r {
            Ok(()) => with_declarations(project@, old(translated_definition)@, parts@) == Ok::<
                TranslatedDefinitionView,
                ErrorView,
            >(final(translated_definition)@),
            Err(error) => with_declarations(project@, old(translated_definition)@, parts@) == Err::<
                TranslatedDefinitionView,
                ErrorView,
            >(error@),
        },
{
    let ghost start = old(translated_definition)@;
    let mut i: usize = 0;
    assert(parts@.subrange(0, 0) =~= Seq::empty());
    while i < parts.len()
        invariant
            i <= parts.len(),
            start == old(translated_definition)@,
            with_declarations(project@, start, parts@.subrange(0, i as int)) == Ok::<
                TranslatedDefinitionView,
                ErrorView,
            >(translated_definition@),
        decreases parts.len() - i,
    {
        proof {
            let s = parts@.subrange(0, i + 1);
            assert(s.drop_last() =~= parts@.subrange(0, i as int));
            assert(s.last() == parts@[i as int]);
        }
        match declare_part(project, translated_definition, &parts[i]) {
            Err(error) => {
                proof {
                    lemma_declarations_fail(project@, start, parts@, i + 1);
                }
                return Err(error);
            },
            Ok(()) => {},
        }
        i += 1;
    }
    assert(parts@.subrange(0, i as int) =~= parts@);
    Ok(())
}

} // verus!
