//! What state variables are translated to.

use vstd::prelude::*;
use crate::errors::{Construct, ErrorView};
use crate::naming::{Case, case_converted};
use crate::project::ProjectView;
use crate::solidity;
use crate::solidity::{VariableAttribute, Visibility};
use crate::sway::model::{
    AbiView, AttributeListView, AttributeView, BlockView, ConfigurableFieldView, ConfigurableView,
    ConstantView, ExpressionView, FunctionView, ImplItemView, ImplView, ParameterListView, ParameterView,
    StorageFieldView, StorageView, TypeNameView,
};
use crate::sway::module::empty_impl_for;
use crate::sway::shapes::{call_named, identifier, method_call};
use crate::sway::typing::{generic_type, getter_layers, getter_parameters, getter_signature, named_type};
use crate::translate::counters::{numbered, mapped};
use crate::translate::definition::is_contract_impl;
use crate::translate::expressions::{counted, state_of, storage_access, translated_expression};
use crate::translate::model::{
    NameMappingView, TranslatedDefinitionView, TranslatedVariableView, TranslationScopeView,
};
use crate::translate::scope::first_match;
use crate::translate::type_names::translated_type_name;
use crate::translate::values::default_value;

verus! {

/// Whether one of the attributes makes a state variable public.
pub open spec fn is_public_variable(attrs: Seq<VariableAttribute>) -> bool {
    exists|i: int| 0 <= i < attrs.len() && makes_public(#[trigger] attrs[i])
}

/// Whether the attribute makes a state variable public.
pub open spec fn makes_public(a: VariableAttribute) -> bool {
    a matches VariableAttribute::Visibility(v) && (v is External || v is Public)
}

/// Whether one of the attributes is `constant`.
pub open spec fn is_constant_variable(attrs: Seq<VariableAttribute>) -> bool {
    exists|i: int| 0 <= i < attrs.len() && (#[trigger] attrs[i]) is Constant
}

/// Whether one of the attributes is `immutable`.
pub open spec fn is_immutable_variable(attrs: Seq<VariableAttribute>) -> bool {
    exists|i: int| 0 <= i < attrs.len() && (#[trigger] attrs[i]) is Immutable
}

/// The name of the storage field for the state variable `name`, and the
/// definition with that choice recorded. A variable that has a field keeps
/// its name. A new field is named in snake case; if other variables
/// were given that name before, the number of variables given it so far is
/// appended.
pub open spec fn storage_name(definition: TranslatedDefinitionView, name: Seq<char>) -> (
    Seq<char>,
    TranslatedDefinitionView,
) {
    match mapped(definition.storage_fields_names, name) {
        Some(n) => (n, definition),
        None => {
            let base = case_converted(name, Case::Snake);
            let new_name = numbered(definition.storage_fields_name_counts, base);
            (
                new_name,
                TranslatedDefinitionView {
                    storage_fields_name_counts: counted(definition.storage_fields_name_counts, base),
                    storage_fields_names: definition.storage_fields_names.push(
                        NameMappingView { old_name: name, new_name },
                    ),
                    ..definition
                },
            )
        },
    }
}

/// What is known of a state variable before its value is translated.
pub ghost struct StateVariable {
    pub is_public: bool,
    pub is_constant: bool,
    pub is_immutable: bool,
    pub old_name: Seq<char>,
    pub new_name: Seq<char>,
    pub ty: TypeNameView,
    pub abi_type_name: Option<TypeNameView>,
}

impl StateVariable {
    /// Whether the variable is a storage field: neither constant nor
    /// immutable.
    pub open spec fn is_storage(self) -> bool {
        !self.is_constant && !self.is_immutable
    }

    /// The variable as the top-level scope declares it.
    pub open spec fn declaration(self) -> TranslatedVariableView {
        TranslatedVariableView {
            old_name: self.old_name,
            new_name: self.new_name,
            ty: self.ty,
            abi_type_name: self.abi_type_name,
            is_storage: self.is_storage(),
            is_configurable: self.is_immutable && !self.is_constant,
            is_constant: self.is_constant,
            ..TranslatedVariableView::empty()
        }
    }
}

/// The type of a state variable whose declared type is `t`: a contract of
/// the project with an abi is held as an `Identity`, and its declared type
/// is kept aside.
pub open spec fn held_type(project: ProjectView, t: TypeNameView) -> (TypeNameView, Option<TypeNameView>) {
    match t {
        TypeNameView::Identifier { name, generic_parameters: None } => if project.definition_with_abi(name) is Some {
            (named_type("Identity"@), Some(t))
        } else {
            (t, None)
        },
        _ => (t, None),
    }
}

/// The names and the type of a state variable: constants and immutable
/// variables are named in upper snake case, storage fields by
/// `storage_name`; the type is translated as a storage type for storage
/// fields only.
pub open spec fn described(
    project: ProjectView,
    definition: TranslatedDefinitionView,
    v: solidity::VariableDefinition,
) -> Result<(StateVariable, TranslatedDefinitionView), ErrorView> {
    let is_constant = is_constant_variable(v.attrs@);
    let is_immutable = is_immutable_variable(v.attrs@);
    match v.name {
        None => Err(ErrorView::MissingName),
        Some(name) => {
            let (new_name, d1) = if is_constant || is_immutable {
                (case_converted(name@, Case::ScreamingSnake), definition)
            } else {
                storage_name(definition, name@)
            };
            match translated_type_name(project, d1, v.ty, !is_constant && !is_immutable) {
                Err(error) => Err(error),
                Ok((t, d2)) => Ok(
                    (
                        StateVariable {
                            is_public: is_public_variable(v.attrs@),
                            is_constant,
                            is_immutable,
                            old_name: name@,
                            new_name,
                            ty: held_type(project, t).0,
                            abi_type_name: held_type(project, t).1,
                        },
                        d2,
                    ),
                ),
            }
        },
    }
}

/// The value that a state variable starts with: its initializer,
/// translated in a new scope inside the top-level scope, whose variables
/// keep the uses counted there; without initializer, no value for a
/// constant and the default value of its type for any other variable.
pub open spec fn initial_value(
    definition: TranslatedDefinitionView,
    variable: StateVariable,
    initializer: Option<solidity::Expression>,
) -> Result<(Option<ExpressionView>, TranslatedDefinitionView), ErrorView> {
    match initializer {
        Some(x) => match translated_expression(state_of(definition, definition.toplevel_scope.child()), x) {
            Err(error) => Err(error),
            Ok((value, s1)) => Ok((Some(value), s1.definition.with_counts_of(s1.scope.outer()))),
        },
        None => if variable.is_constant {
            Ok((None, definition))
        } else {
            Ok((Some(default_value(variable.ty)), definition))
        },
    }
}

/// The definition with the variable added as a constant, as a field of
/// the configurable block or as a field of the storage block, and
/// declared in the top-level scope.
pub open spec fn with_state_variable(
    definition: TranslatedDefinitionView,
    variable: StateVariable,
    value: Option<ExpressionView>,
) -> TranslatedDefinitionView {
    let declared = TranslationScopeView {
        variables: definition.toplevel_scope.variables.push(variable.declaration()),
        ..definition.toplevel_scope
    };
    if variable.is_constant {
        TranslatedDefinitionView {
            constants: definition.constants.push(
                ConstantView { is_public: variable.is_public, name: variable.new_name, ty: variable.ty, value },
            ),
            toplevel_scope: declared,
            ..definition
        }
    } else if variable.is_immutable {
        TranslatedDefinitionView {
            configurable: Some(
                ConfigurableView {
                    fields: (match definition.configurable {
                        Some(c) => c.fields,
                        None => Seq::empty(),
                    }).push(ConfigurableFieldView { name: variable.new_name, ty: variable.ty, value: value->0 }),
                },
            ),
            toplevel_scope: declared,
            ..definition
        }
    } else {
        TranslatedDefinitionView {
            storage: Some(
                StorageView {
                    fields: (match definition.storage {
                        Some(s) => s.fields,
                        None => Seq::empty(),
                    }).push(StorageFieldView { name: variable.new_name, ty: variable.ty, value: value->0 }),
                },
            ),
            toplevel_scope: declared,
            ..definition
        }
    }
}

/// The parameters of a getter, without the marks that tell which
/// selections are unwrapped.
pub open spec fn parameters_of(parameters: Seq<(ParameterView, bool)>) -> Seq<ParameterView> {
    Seq::new(parameters.len(), |i: int| parameters[i].0)
}

/// The declaration of the getter of a state variable: a function of the
/// variable's name that reads storage if the variable is a storage field.
pub open spec fn getter_declaration(
    name: Seq<char>,
    is_storage: bool,
    parameters: Seq<(ParameterView, bool)>,
    return_type: TypeNameView,
) -> FunctionView {
    FunctionView {
        attributes: if is_storage {
            Some(
                AttributeListView {
                    attributes: seq![AttributeView { name: "storage"@, parameters: Some(seq!["read"@]) }],
                },
            )
        } else {
            None
        },
        is_public: false,
        name,
        generic_parameters: None,
        parameters: ParameterListView { entries: parameters_of(parameters) },
        return_type: Some(return_type),
        body: None,
    }
}

/// The selection of an element of `expression` for each parameter in
/// turn: `.get(parameter)`, followed by `.unwrap()` where the parameter is
/// marked.
pub open spec fn accessor(expression: ExpressionView, parameters: Seq<(ParameterView, bool)>) -> ExpressionView
    decreases parameters.len(),
{
    if parameters.len() == 0 {
        expression
    } else {
        let selected = method_call(
            accessor(expression, parameters.drop_last()),
            "get"@,
            seq![identifier(parameters.last().0.name)],
        );
        if parameters.last().1 {
            method_call(selected, "unwrap"@, Seq::empty())
        } else {
            selected
        }
    }
}

/// What the getter of a state variable returns: for a storage field, what
/// is read from the field at the given keys and indices; for a constant,
/// the constant. A configurable field has no getter.
pub open spec fn getter_value(variable: StateVariable, parameters: Seq<(ParameterView, bool)>) -> Option<ExpressionView> {
    if variable.is_storage() {
        Some(method_call(accessor(storage_access(variable.new_name), parameters), "read"@, Seq::empty()))
    } else if variable.is_constant {
        Some(identifier(variable.new_name))
    } else {
        None
    }
}

/// The function with the block that yields `value` as its body.
pub open spec fn with_body(f: FunctionView, value: ExpressionView) -> FunctionView {
    FunctionView { body: Some(BlockView { statements: Seq::empty(), final_expr: Some(value) }), ..f }
}

/// The test "is this function".
pub open spec fn is_function(f: FunctionView) -> spec_fn(FunctionView) -> bool {
    |g: FunctionView| g == f
}

/// The test "is this item".
pub open spec fn is_item(item: ImplItemView) -> spec_fn(ImplItemView) -> bool {
    |x: ImplItemView| x == item
}

/// The position of the first impl of the contract `name` for `Contract`,
/// or the number of impls if there is none.
pub open spec fn contract_impl_position(impls: Seq<ImplView>, name: Seq<char>) -> int
    decreases impls.len(),
{
    if impls.len() == 0 {
        0
    } else if is_contract_impl(name)(impls.first()) {
        0
    } else {
        1 + contract_impl_position(impls.drop_first(), name)
    }
}

impl TranslatedDefinitionView {
    /// This definition with the function declared in its abi, unless the
    /// abi declares the same function already. The abi is created if the
    /// definition has none.
    pub open spec fn with_abi_function(self, f: FunctionView) -> TranslatedDefinitionView {
        let abi = self.abi_or_empty();
        TranslatedDefinitionView {
            abi: Some(
                if first_match(abi.functions, is_function(f)) is Some {
                    abi
                } else {
                    AbiView { functions: abi.functions.push(f), ..abi }
                },
            ),
            ..self
        }
    }

    /// This definition with one more function.
    pub open spec fn with_function(self, f: FunctionView) -> TranslatedDefinitionView {
        TranslatedDefinitionView { functions: self.functions.push(f), ..self }
    }

    /// This definition with the item added to the impl of the contract for
    /// `Contract`, unless the impl has the same item already. The impl is
    /// created if the definition has none.
    pub open spec fn with_contract_impl_item(self, item: ImplItemView) -> TranslatedDefinitionView {
        let i = contract_impl_position(self.impls, self.name);
        let impls = if i < self.impls.len() {
            self.impls
        } else {
            self.impls.push(empty_impl_for(self.name, "Contract"@))
        };
        TranslatedDefinitionView {
            impls: if first_match(impls[i].items, is_item(item)) is Some {
                impls
            } else {
                impls.update(i, ImplView { items: impls[i].items.push(item), ..impls[i] })
            },
            ..self
        }
    }
}

/// The type that the getter of a variable of type `t` returns, if the
/// type is no container, and the definition with what that type needs
/// imported: an owned string for a string slice.
pub open spec fn plain_getter_type(definition: TranslatedDefinitionView, t: TypeNameView) -> (
    TypeNameView,
    TranslatedDefinitionView,
) {
    match t {
        TypeNameView::StringSlice => (named_type("String"@), definition.with_use("std::string::*"@)),
        _ => (t, definition),
    }
}

/// The parameters of a getter as the arguments of a call: their names.
pub open spec fn arguments_of(parameters: Seq<(ParameterView, bool)>) -> Seq<ExpressionView> {
    Seq::new(parameters.len(), |i: int| identifier(parameters[i].0.name))
}

/// The definition with the getter of a public state variable: its
/// declaration in the abi, a top-level function that yields the value, and
/// a function in the impl of the contract that calls the top-level
/// function with its own parameters.
pub open spec fn with_getter(definition: TranslatedDefinitionView, variable: StateVariable) -> Result<
    TranslatedDefinitionView,
    ErrorView,
> {
    let (plain, d1) = plain_getter_type(definition, variable.ty);
    let (parameters, return_type) = match getter_signature(variable.ty) {
        Some((p, r)) => (p, r),
        None => (Seq::empty(), plain),
    };
    let declaration = getter_declaration(variable.new_name, variable.is_storage(), parameters, return_type);
    match getter_value(variable, parameters) {
        None => Err(ErrorView::Unsupported(Construct::ConfigurableGetter@)),
        Some(value) => Ok(
            d1.with_abi_function(declaration).with_function(with_body(declaration, value)).with_contract_impl_item(
                ImplItemView::Function(
                    with_body(declaration, call_named("::"@ + variable.new_name, arguments_of(parameters))),
                ),
            ),
        ),
    }
}

/// The translation of a state variable: the definition with the variable
/// added, and with its getter if the variable is public.
pub open spec fn translated_state_variable(
    project: ProjectView,
    definition: TranslatedDefinitionView,
    v: solidity::VariableDefinition,
) -> Result<TranslatedDefinitionView, ErrorView> {
    match described(project, definition, v) {
        Err(error) => Err(error),
        Ok((variable, d1)) => match initial_value(d1, variable, v.initializer) {
            Err(error) => Err(error),
            Ok((value, d2)) => {
                let d3 = with_state_variable(d2, variable, value);
                if variable.is_public {
                    with_getter(d3, variable)
                } else {
                    Ok(d3)
                }
            },
        },
    }
}

/// Getter synthesis for a mapping: the getter of a storage map from `key`
/// to a `value` that is no container takes one parameter `a` of the key's
/// type, returns the value's type, and reads `field.get(a).read()`.
pub proof fn lemma_map_getter(variable: StateVariable, key: TypeNameView, value: TypeNameView)
    requires
        variable.ty == generic_type("StorageMap"@, seq![key, value]),
        variable.is_storage(),
        getter_layers(value) is None,
    ensures
        getter_signature(variable.ty) == Some(
            (
                seq![(ParameterView { is_ref: false, is_mut: false, name: "a"@, ty: Some(key) }, false)],
                value,
            ),
        ),
        getter_value(variable, (getter_signature(variable.ty)->0).0) == Some(
            method_call(
                method_call(storage_access(variable.new_name), "get"@, seq![identifier("a"@)]),
                "read"@,
                Seq::empty(),
            ),
        ),
{
    reveal_strlit("abcdefghijklmnopqrstuvwxyz");
    reveal_strlit("a");
    let layers = seq![(key, false)];
    assert(getter_layers(variable.ty) == Some((layers, value))) by {
        assert(generic_type("StorageMap"@, seq![key, value])->Identifier_generic_parameters->0.entries.len() == 2);
    }
    let parameters = getter_parameters(layers);
    assert(crate::sway::typing::getter_parameter_name(0) =~= "a"@);
    assert(parameters =~= seq![(ParameterView { is_ref: false, is_mut: false, name: "a"@, ty: Some(key) }, false)]);
    assert(parameters.drop_last() =~= Seq::empty());
    reveal_with_fuel(accessor, 2);
}

/// Getter synthesis for a nested mapping: the getter of a storage map
/// from `outer` to a storage map from `inner` to a `value` that is no
/// container takes the parameters `a` and `b` in that order, returns the
/// value's type, and reads `field.get(a).get(b).read()`.
pub proof fn lemma_nested_map_getter(
    variable: StateVariable,
    outer: TypeNameView,
    inner: TypeNameView,
    value: TypeNameView,
)
    requires
        variable.ty == generic_type("StorageMap"@, seq![outer, generic_type("StorageMap"@, seq![inner, value])]),
        variable.is_storage(),
        getter_layers(value) is None,
    ensures
        getter_signature(variable.ty) == Some(
            (
                seq![
                    (ParameterView { is_ref: false, is_mut: false, name: "a"@, ty: Some(outer) }, false),
                    (ParameterView { is_ref: false, is_mut: false, name: "b"@, ty: Some(inner) }, false),
                ],
                value,
            ),
        ),
        getter_value(variable, (getter_signature(variable.ty)->0).0) == Some(
            method_call(
                method_call(
                    method_call(storage_access(variable.new_name), "get"@, seq![identifier("a"@)]),
                    "get"@,
                    seq![identifier("b"@)],
                ),
                "read"@,
                Seq::empty(),
            ),
        ),
{
    reveal_strlit("abcdefghijklmnopqrstuvwxyz");
    reveal_strlit("a");
    reveal_strlit("b");
    let nested = generic_type("StorageMap"@, seq![inner, value]);
    assert(nested->Identifier_generic_parameters->0.entries.len() == 2);
    assert(getter_layers(nested) == Some((seq![(inner, false)], value)));
    assert(variable.ty->Identifier_generic_parameters->0.entries.len() == 2);
    let layers = seq![(outer, false), (inner, false)];
    assert(seq![(outer, false)] + seq![(inner, false)] =~= layers);
    assert(getter_layers(variable.ty) == Some((layers, value)));
    let parameters = getter_parameters(layers);
    assert(crate::sway::typing::getter_parameter_name(0) =~= "a"@);
    assert(crate::sway::typing::getter_parameter_name(1) =~= "b"@);
    let expected = seq![
        (ParameterView { is_ref: false, is_mut: false, name: "a"@, ty: Some(outer) }, false),
        (ParameterView { is_ref: false, is_mut: false, name: "b"@, ty: Some(inner) }, false),
    ];
    assert(parameters =~= expected);
    assert(expected.drop_last() =~= seq![expected[0]]);
    assert(seq![expected[0]].drop_last() =~= Seq::empty());
    reveal_with_fuel(accessor, 3);
}

} // verus!
