//! The translation of state variables.

use vstd::prelude::*;
use vstd::string::StringExecFns;
use crate::errors::{Construct, Error, ErrorView};
use crate::naming::{Case, translate_naming_convention};
use crate::project::Project;
use crate::solidity;
use crate::solidity::{VariableAttribute, Visibility};
use crate::sway::{
    Attribute, AttributeList, Block, ConfigurableField, Constant, Expression, Function, Impl, ImplItem,
    Parameter, ParameterList, StorageField, TypeName,
};
use crate::sway::model::{
    expression_models, ExpressionView, function_models, FunctionView, impl_item_models, impl_models,
    ImplItemView, ImplView, parameter_models,
};
use crate::sway::shapes::{
    identifier, make_call_named, make_identifier, make_member_access, make_method_call, no_expressions,
    one_expression, optional_expression, optional_type,
};
use crate::sway::typing::{getter_parameter_models, type_named};
use crate::text::{join2, text};
use crate::translate::{NameMapping, TranslatedDefinition, TranslatedVariable};
use crate::translate::counters::{
    lemma_counting_keeps_names_once, lemma_mapping_keeps_names_once, mapped, mapped_name, number_name, numbered,
};
use crate::translate::expressions::translate_expression;
use crate::translate::model::TranslatedDefinitionView;
use crate::translate::scope::first_where;
use crate::translate::storage_rules::{
    accessor, arguments_of, contract_impl_position, described, getter_declaration, getter_value, held_type, initial_value,
    is_constant_variable, is_function, is_immutable_variable, is_item, is_public_variable, makes_public,
    parameters_of, plain_getter_type, StateVariable, storage_name, translated_state_variable, with_body,
    with_getter, with_state_variable,
};
use crate::translate::type_names::translate_type_name;
use crate::translate::values::create_default_value;

verus! {

/// What is known of a state variable before its value is translated.
pub struct StateVariableParts {
    pub is_public: bool,
    pub is_constant: bool,
    pub is_immutable: bool,
    pub old_name: String,
    pub new_name: String,
    pub ty: TypeName,
    pub abi_type_name: Option<TypeName>,
}

impl View for StateVariableParts {
    type V = StateVariable;

    open spec fn view(&self) -> StateVariable {
        StateVariable {
            is_public: self.is_public,
            is_constant: self.is_constant,
            is_immutable: self.is_immutable,
            old_name: self.old_name@,
            new_name: self.new_name@,
            ty: self.ty@,
            abi_type_name: optional_type(self.abi_type_name),
        }
    }
}

/// Translates the name of a state variable into the name of its storage
/// field.
pub fn translate_storage_name(project: &Project, translated_definition: &mut TranslatedDefinition, name: &str) -> (r:
    String)
    ensures
        (r@, final(translated_definition)@) == storage_name(old(translated_definition)@, name@),
        old(translated_definition)@.names_kept_once() ==> final(translated_definition)@.names_kept_once(),
{
    proof {
        let d = old(translated_definition)@;
        if d.names_kept_once() && mapped(d.storage_fields_names, name@) is None {
            let base = crate::naming::case_converted(name@, Case::Snake);
            lemma_counting_keeps_names_once(d.storage_fields_name_counts, base);
            lemma_mapping_keeps_names_once(
                d.storage_fields_names,
                crate::translate::model::NameMappingView {
                    old_name: name@,
                    new_name: numbered(d.storage_fields_name_counts, base),
                },
            );
        }
    }
    match mapped_name(&translated_definition.storage_fields_names, name) {
        Some(known) => {
            return known;
        },
        None => {},
    }
    let base = translate_naming_convention(name, Case::Snake);
    let new_name = number_name(&mut translated_definition.storage_fields_name_counts, base);
    translated_definition.storage_fields_names.push(NameMapping { old_name: text(name), new_name: new_name.clone() });
    assert(final(translated_definition)@.storage_fields_names =~= old(translated_definition)@.storage_fields_names.push(
        crate::translate::model::NameMappingView { old_name: name@, new_name: new_name@ },
    ));
    new_name
}

fn has_public(attrs: &Vec<VariableAttribute>) -> (r: bool)
    ensures
        r == is_public_variable(attrs@),
{
    let mut i: usize = 0;
    while i < attrs.len()
        invariant
            i <= attrs.len(),
            forall|j: int| 0 <= j < i ==> !makes_public(#[trigger] attrs[j]),
        decreases attrs.len() - i,
    {
        if let VariableAttribute::Visibility(v) = &attrs[i] {
            match v {
                Visibility::External => {
                    return true;
                },
                Visibility::Public => {
                    return true;
                },
                _ => {},
            }
        }
        i += 1;
    }
    false
}

fn has_constant(attrs: &Vec<VariableAttribute>) -> (r: bool)
    ensures
        r == is_constant_variable(attrs@),
{
    let mut i: usize = 0;
    while i < attrs.len()
        invariant
            i <= attrs.len(),
            forall|j: int| 0 <= j < i ==> !((#[trigger] attrs[j]) is Constant),
        decreases attrs.len() - i,
    {
        if let VariableAttribute::Constant = &attrs[i] {
            return true;
        }
        i += 1;
    }
    false
}

fn has_immutable(attrs: &Vec<VariableAttribute>) -> (r: bool)
    ensures
        r == is_immutable_variable(attrs@),
{
    let mut i: usize = 0;
    while i < attrs.len()
        invariant
            i <= attrs.len(),
            forall|j: int| 0 <= j < i ==> !((#[trigger] attrs[j]) is Immutable),
        decreases attrs.len() - i,
    {
        if let VariableAttribute::Immutable = &attrs[i] {
            return true;
        }
        i += 1;
    }
    false
}

fn hold(project: &Project, t: TypeName) -> (r: (TypeName, Option<TypeName>))
    ensures
        (r.0@, optional_type(r.1)) == held_type(project@, t@),
{
    let is_contract = match &t {
        TypeName::Identifier { name, generic_parameters: None } => project.find_definition_with_abi(
            name.as_str(),
        ).is_some(),
        _ => false,
    };
    if is_contract {
        (type_named("Identity"), Some(t))
    } else {
        (t, None)
    }
}

fn describe(
    project: &Project,
    translated_definition: &mut TranslatedDefinition,
    variable_definition: &solidity::VariableDefinition,
) -> (r: Result<StateVariableParts, Error>)
    ensures
        match r {
            Ok(v) => described(project@, old(translated_definition)@, *variable_definition) == Ok::<
                (StateVariable, TranslatedDefinitionView),
                ErrorView,
            >((v@, final(translated_definition)@)),
            Err(error) => described(project@, old(translated_definition)@, *variable_definition) == Err::<
                (StateVariable, TranslatedDefinitionView),
                ErrorView,
            >(error@),
        },
{
    let is_public = has_public(&variable_definition.attrs);
    let is_constant = has_constant(&variable_definition.attrs);
    let is_immutable = has_immutable(&variable_definition.attrs);
    let old_name = match &variable_definition.name {
        None => {
            return Err(Error::MissingName);
        },
        Some(name) => name,
    };
    let new_name = if is_constant || is_immutable {
        translate_naming_convention(old_name.as_str(), Case::ScreamingSnake)
    } else {
        translate_storage_name(project, translated_definition, old_name.as_str())
    };
    let declared = match translate_type_name(
        project,
        translated_definition,
        &variable_definition.ty,
        !is_constant && !is_immutable,
    ) {
        Err(error) => {
            return Err(error);
        },
        Ok(t) => t,
    };
    let (ty, abi_type_name) = hold(project, declared);
    Ok(
        StateVariableParts {
            is_public,
            is_constant,
            is_immutable,
            old_name: old_name.clone(),
            new_name,
            ty,
            abi_type_name,
        },
    )
}

fn translate_initial_value(
    project: &Project,
    translated_definition: &mut TranslatedDefinition,
    variable: &StateVariableParts,
    initializer: &Option<solidity::Expression>,
) -> (r: Result<Option<Expression>, Error>)
    ensures
        match r {
            Ok(value) => initial_value(old(translated_definition)@, variable@, *initializer) == Ok::<
                (Option<ExpressionView>, TranslatedDefinitionView),
                ErrorView,
            >((optional_expression(value), final(translated_definition)@)),
            Err(error) => initial_value(old(translated_definition)@, variable@, *initializer) == Err::<
                (Option<ExpressionView>, TranslatedDefinitionView),
                ErrorView,
            >(error@),
        },
{
    match initializer {
        Some(x) => {
            let mut scope = translated_definition.toplevel_scope.clone();
            scope.enter();
            match translate_expression(project, translated_definition, &mut scope, x) {
                Err(error) => {
                    return Err(error);
                },
                Ok(value) => {
                    scope.leave();
                    translated_definition.toplevel_scope.take_counts(&scope);
                    return Ok(Some(value));
                },
            }
        },
        None => {
            if variable.is_constant {
                return Ok(None);
            }
            return Ok(Some(create_default_value(&variable.ty)));
        },
    }
}

fn declaration_of(variable: &StateVariableParts) -> (r: TranslatedVariable)
    ensures
        r@ == variable@.declaration(),
{
    TranslatedVariable {
        old_name: variable.old_name.clone(),
        new_name: variable.new_name.clone(),
        ty: variable.ty.clone(),
        abi_type_name: match &variable.abi_type_name {
            Some(t) => Some(t.clone()),
            None => None,
        },
        is_storage: !variable.is_constant && !variable.is_immutable,
        is_configurable: variable.is_immutable && !variable.is_constant,
        is_constant: variable.is_constant,
        statement_index: None,
        read_count: 0,
        mutation_count: 0,
    }
}

fn add_state_variable(
    translated_definition: &mut TranslatedDefinition,
    variable: &StateVariableParts,
    value: Option<Expression>,
)
    requires
        !variable.is_constant ==> value is Some,
    ensures
        final(translated_definition)@ == with_state_variable(
            old(translated_definition)@,
            variable@,
            optional_expression(value),
        ),
{
    let declared = declaration_of(variable);
    translated_definition.toplevel_scope.variables.push(declared);
    assert(translated_definition@.toplevel_scope.variables =~= old(
        translated_definition,
    )@.toplevel_scope.variables.push(declared@));
    if variable.is_constant {
        let constant = Constant {
            is_public: variable.is_public,
            name: variable.new_name.clone(),
            ty: variable.ty.clone(),
            value,
        };
        translated_definition.constants.push(constant);
        assert(final(translated_definition)@.constants =~= old(translated_definition)@.constants.push(constant@));
        return ;
    }
    let value = match value {
        Some(v) => v,
        None => vstd::pervasive::unreached(),
    };
    if variable.is_immutable {
        let field = ConfigurableField { name: variable.new_name.clone(), ty: variable.ty.clone(), value };
        let configurable = translated_definition.get_configurable();
        let ghost before = configurable@.fields;
        configurable.fields.push(field);
        assert(configurable@.fields =~= before.push(field@));
        return ;
    }
    let field = StorageField { name: variable.new_name.clone(), ty: variable.ty.clone(), value };
    let storage = translated_definition.get_storage();
    let ghost before = storage@.fields;
    storage.fields.push(field);
    assert(storage@.fields =~= before.push(field@));
}

fn declare_getter(name: &String, is_storage: bool, parameters: &Vec<(Parameter, bool)>, return_type: TypeName) -> (r:
    Function)
    ensures
        r@ == getter_declaration(name@, is_storage, getter_parameter_models(parameters@), return_type@),
{
    let mut entries: Vec<Parameter> = Vec::new();
    let mut i: usize = 0;
    while i < parameters.len()
        invariant
            i <= parameters.len(),
            entries.len() == i,
            forall|j: int| 0 <= j < i ==> (#[trigger] entries[j])@ == parameters[j].0@,
        decreases parameters.len() - i,
    {
        entries.push(parameters[i].0.clone());
        i += 1;
    }
    assert(parameter_models(entries@) =~= parameters_of(getter_parameter_models(parameters@)));
    let attributes = if is_storage {
        let mut read: Vec<String> = Vec::new();
        read.push(text("read"));
        assert(crate::sway::model::string_views(read@) =~= seq!["read"@]);
        let attribute = Attribute { name: text("storage"), parameters: Some(read) };
        let mut attributes: Vec<Attribute> = Vec::new();
        attributes.push(attribute);
        assert(crate::sway::model::attribute_models(attributes@) =~= seq![attribute@]);
        Some(AttributeList { attributes })
    } else {
        None
    };
    Function {
        attributes,
        is_public: false,
        name: name.clone(),
        generic_parameters: None,
        parameters: ParameterList { entries },
        return_type: Some(return_type),
        body: None,
    }
}

fn access(expression: Expression, parameters: &Vec<(Parameter, bool)>) -> (r: Expression)
    ensures
        r@ == accessor(expression@, getter_parameter_models(parameters@)),
{
    let ghost models = getter_parameter_models(parameters@);
    let mut selected = expression;
    let mut i: usize = 0;
    assert(models.subrange(0, 0) =~= Seq::empty());
    while i < parameters.len()
        invariant
            i <= parameters.len(),
            models == getter_parameter_models(parameters@),
            selected@ == accessor(expression@, models.subrange(0, i as int)),
        decreases parameters.len() - i,
    {
        proof {
            let s = models.subrange(0, i + 1);
            assert(s.drop_last() =~= models.subrange(0, i as int));
            assert(s.last() == models[i as int]);
        }
        let got = make_method_call(
            selected,
            "get",
            one_expression(make_identifier(parameters[i].0.name.as_str())),
        );
        selected = if parameters[i].1 {
            make_method_call(got, "unwrap", no_expressions())
        } else {
            got
        };
        i += 1;
    }
    assert(models.subrange(0, i as int) =~= models);
    selected
}

fn arguments(parameters: &Vec<(Parameter, bool)>) -> (r: Vec<Expression>)
    ensures
        expression_models(r@) == arguments_of(getter_parameter_models(parameters@)),
{
    let mut r: Vec<Expression> = Vec::new();
    let mut i: usize = 0;
    while i < parameters.len()
        invariant
            i <= parameters.len(),
            r.len() == i,
            forall|j: int| 0 <= j < i ==> (#[trigger] r[j])@ == identifier(parameters[j].0@.name),
        decreases parameters.len() - i,
    {
        r.push(make_identifier(parameters[i].0.name.as_str()));
        i += 1;
    }
    assert(expression_models(r@) =~= arguments_of(getter_parameter_models(parameters@)));
    r
}

fn get_value(variable: &StateVariableParts, parameters: &Vec<(Parameter, bool)>) -> (r: Option<Expression>)
    ensures
        optional_expression(r) == getter_value(variable@, getter_parameter_models(parameters@)),
{
    if !variable.is_constant && !variable.is_immutable {
        let field = make_member_access(make_identifier("storage"), variable.new_name.as_str());
        Some(make_method_call(access(field, parameters), "read", no_expressions()))
    } else if variable.is_constant {
        Some(make_identifier(variable.new_name.as_str()))
    } else {
        None
    }
}

fn give_body(f: &Function, value: Expression) -> (r: Function)
    ensures
        r@ == with_body(f@, value@),
{
    let block = Block { statements: Vec::new(), final_expr: Some(value) };
    assert(block@.statements =~= Seq::empty());
    Function {
        attributes: match &f.attributes {
            Some(a) => Some(a.clone()),
            None => None,
        },
        is_public: f.is_public,
        name: f.name.clone(),
        generic_parameters: match &f.generic_parameters {
            Some(g) => Some(g.clone()),
            None => None,
        },
        parameters: f.parameters.clone(),
        return_type: match &f.return_type {
            Some(t) => Some(t.clone()),
            None => None,
        },
        body: Some(block),
    }
}

fn getter_types(translated_definition: &mut TranslatedDefinition, t: &TypeName) -> (r: (
    Vec<(Parameter, bool)>,
    TypeName,
))
    ensures
        ({
            let (plain, d1) = plain_getter_type(old(translated_definition)@, t@);
            &&& final(translated_definition)@ == d1
            &&& (getter_parameter_models(r.0@), r.1@) == match crate::sway::typing::getter_signature(t@) {
                Some((p, v)) => (p, v),
                None => (Seq::empty(), plain),
            }
        }),
{
    let plain = match t {
        TypeName::StringSlice => {
            translated_definition.ensure_use_declared("std::string::*");
            type_named("String")
        },
        _ => t.clone(),
    };
    match t.getter_function_parameters_and_return_type() {
        Some(signature) => signature,
        None => {
            let parameters: Vec<(Parameter, bool)> = Vec::new();
            assert(getter_parameter_models(parameters@) =~= Seq::empty());
            (parameters, plain)
        },
    }
}

impl TranslatedDefinition {
    /// Declares a function in the abi of the definition, unless the abi
    /// declares the same function already.
    pub fn add_abi_function(&mut self, f: Function)
        ensures
            final(self)@ == old(self)@.with_abi_function(f@),
    {
        let abi = self.get_abi();
        let found = first_where::<Function, FunctionView, _>(
            &abi.functions,
            (|g: &Function| -> (b: bool)
                ensures
                    b == (g@ == f@),
                {
                    g.eq(&f)
                }),
            Ghost(function_models(abi.functions@)),
            Ghost(is_function(f@)),
        );
        if found.is_none() {
            let ghost before = abi@.functions;
            abi.functions.push(f);
            assert(abi@.functions =~= before.push(f@));
        }
    }

    /// Adds a function to the definition.
    pub fn add_function(&mut self, f: Function)
        ensures
            final(self)@ == old(self)@.with_function(f@),
    {
        self.functions.push(f);
        assert(final(self)@.functions =~= old(self)@.functions.push(f@));
    }

    /// Gets the translated definition's implementation for `Contract`. If
    /// it doesn't exist, it gets created.
    pub fn get_contract_impl(&mut self) -> (r: &mut Impl)
        ensures
            ({
                let i = contract_impl_position(old(self)@.impls, old(self)@.name);
                let impls = if i < old(self)@.impls.len() {
                    old(self)@.impls
                } else {
                    old(self)@.impls.push(crate::sway::module::empty_impl_for(old(self)@.name, "Contract"@))
                };
                &&& 0 <= i < impls.len()
                &&& r@ == impls[i]
                &&& final(self)@ == (TranslatedDefinitionView { impls: impls.update(i, final(r)@), ..old(self)@ })
            }),
    {
        let i = match self.contract_impl_position() {
            Some(i) => {
                proof {
                    lemma_position(self@.impls, self@.name, i as int);
                }
                i
            },
            None => {
                proof {
                    crate::translate::scope::lemma_first_match_is_first(
                        self@.impls,
                        crate::translate::definition::is_contract_impl(self@.name),
                    );
                    lemma_position(self@.impls, self@.name, self@.impls.len() as int);
                }
                let created = Impl {
                    generic_parameters: None,
                    ty: type_named(self.name.as_str()),
                    for_type_name: Some(type_named("Contract")),
                    items: Vec::new(),
                };
                assert(created@.items =~= Seq::empty());
                self.impls.push(created);
                assert(self@.impls =~= old(self)@.impls.push(created@));
                self.impls.len() - 1
            },
        };
        proof {
            lemma_update_impls(self.impls@, i as int);
        }
        &mut self.impls[i]
    }

    /// The impl of the contract for `Contract`, if the definition has one,
    /// to be changed in place.
    pub fn find_contract_impl_mut(&mut self) -> (r: Option<&mut Impl>)
        ensures
            match r {
                Some(x) => {
                    let i = contract_impl_position(old(self)@.impls, old(self)@.name);
                    &&& 0 <= i < old(self)@.impls.len()
                    &&& x@ == old(self)@.impls[i]
                    &&& final(self)@ == (TranslatedDefinitionView {
                        impls: old(self)@.impls.update(i, final(x)@),
                        ..old(self)@
                    })
                },
                None => old(self)@.contract_impl() is None && final(self)@ == old(self)@,
            },
    {
        match self.contract_impl_position() {
            Some(i) => {
                proof {
                    lemma_position(self@.impls, self@.name, i as int);
                    lemma_update_impls(self.impls@, i as int);
                }
                Some(&mut self.impls[i])
            },
            None => None,
        }
    }

    /// Adds an item to the impl of the contract for `Contract`, unless the
    /// impl has the same item already.
    pub fn add_contract_impl_item(&mut self, item: ImplItem)
        ensures
            final(self)@ == old(self)@.with_contract_impl_item(item@),
    {
        proof {
            let i = contract_impl_position(self@.impls, self@.name);
            let impls = if i < self@.impls.len() {
                self@.impls
            } else {
                self@.impls.push(crate::sway::module::empty_impl_for(self@.name, "Contract"@))
            };
            if 0 <= i < impls.len() {
                assert(impls.update(i, impls[i]) =~= impls);
            }
        }
        let contract_impl = self.get_contract_impl();
        let found = first_where::<ImplItem, ImplItemView, _>(
            &contract_impl.items,
            (|x: &ImplItem| -> (b: bool)
                ensures
                    b == (x@ == item@),
                {
                    x.eq(&item)
                }),
            Ghost(impl_item_models(contract_impl.items@)),
            Ghost(is_item(item@)),
        );
        if found.is_none() {
            let ghost before = contract_impl@.items;
            contract_impl.items.push(item);
            assert(contract_impl@.items =~= before.push(item@));
        }
    }
}

proof fn lemma_position(impls: Seq<ImplView>, name: Seq<char>, i: int)
    requires
        0 <= i <= impls.len(),
        forall|j: int| 0 <= j < i ==> !crate::translate::definition::is_contract_impl(name)(#[trigger] impls[j]),
        i < impls.len() ==> crate::translate::definition::is_contract_impl(name)(impls[i]),
    ensures
        contract_impl_position(impls, name) == i,
    decreases impls.len(),
{
    if impls.len() == 0 {
    } else if i == 0 {
    } else {
        assert(!crate::translate::definition::is_contract_impl(name)(impls[0]));
        let t = impls.drop_first();
        assert forall|j: int| 0 <= j < i - 1 implies !crate::translate::definition::is_contract_impl(name)(
            #[trigger] t[j],
        ) by {
            assert(t[j] == impls[j + 1]);
        }
        if i < impls.len() {
            assert(t[i - 1] == impls[i]);
        }
        lemma_position(t, name, i - 1);
    }
}

proof fn lemma_update_impls(impls: Seq<Impl>, i: int)
    requires
        0 <= i < impls.len(),
    ensures
        forall|x: Impl| #[trigger] impl_models(impls.update(i, x)) == impl_models(impls).update(i, x.model()),
{
    assert forall|x: Impl| #[trigger] impl_models(impls.update(i, x)) == impl_models(impls).update(i, x.model()) by {
        assert(impl_models(impls.update(i, x)) =~= impl_models(impls).update(i, x.model()));
    }
}

fn add_getter(translated_definition: &mut TranslatedDefinition, variable: &StateVariableParts) -> (r: Result<(), Error>)
    ensures
        match r {
            Ok(()) => with_getter(old(translated_definition)@, variable@) == Ok::<TranslatedDefinitionView, ErrorView>(
                final(translated_definition)@,
            ),
            Err(error) => with_getter(old(translated_definition)@, variable@) == Err::<
                TranslatedDefinitionView,
                ErrorView,
            >(error@),
        },
{
    let (parameters, return_type) = getter_types(translated_definition, &variable.ty);
    let declaration = declare_getter(
        &variable.new_name,
        !variable.is_constant && !variable.is_immutable,
        &parameters,
        return_type,
    );
    let value = match get_value(variable, &parameters) {
        None => {
            return Err(Error::Unsupported(Construct::ConfigurableGetter));
        },
        Some(value) => value,
    };
    let function = give_body(&declaration, value);
    let target = join2("::", variable.new_name.as_str());
    let wrapper = give_body(&declaration, make_call_named(target.as_str(), arguments(&parameters)));
    translated_definition.add_abi_function(declaration);
    translated_definition.add_function(function);
    translated_definition.add_contract_impl_item(ImplItem::Function(wrapper));
    Ok(())
}

/// Translates a state variable: adds it to the definition as a constant,
/// a configurable field or a storage field, declares it in the top-level
/// scope, and generates its getter if it is public.
pub fn translate_state_variable(
    project: &Project,
    translated_definition: &mut TranslatedDefinition,
    variable_definition: &solidity::VariableDefinition,
) -> (r: Result<(), Error>)
    ensures
        match r {
            Ok(()) => translated_state_variable(project@, old(translated_definition)@, *variable_definition) == Ok::<
                TranslatedDefinitionView,
                ErrorView,
            >(final(translated_definition)@),
            Err(error) => translated_state_variable(project@, old(translated_definition)@, *variable_definition)
                == Err::<TranslatedDefinitionView, ErrorView>(error@),
        },
{
    let variable = match describe(project, translated_definition, variable_definition) {
        Err(error) => {
            return Err(error);
        },
        Ok(variable) => variable,
    };
    let value = match translate_initial_value(
        project,
        translated_definition,
        &variable,
        &variable_definition.initializer,
    ) {
        Err(error) => {
            return Err(error);
        },
        Ok(value) => value,
    };
    add_state_variable(translated_definition, &variable, value);
    if !variable.is_public {
        return Ok(());
    }
    add_getter(translated_definition, &variable)
}

} // verus!
