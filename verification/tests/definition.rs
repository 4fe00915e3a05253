use charcoal::solidity::ContractTy;
use charcoal::sway::{
    Configurable, Constant, Expression, Function, Impl, ImplItem, Literal, Module, ModuleItem, ModuleKind,
    ParameterList, TypeDefinition, TypeName, Use, UseTree,
};
use charcoal::translate::definition::split_path;
use charcoal::translate::literals::parse_literal;
use charcoal::translate::values::{create_default_value, create_value_expression};
use charcoal::translate::{TranslatedDefinition, TranslatedEnum, TranslatedFunction, TranslatedVariable, TranslationScope};

fn named(name: &str) -> TypeName {
    TypeName::Identifier { name: name.into(), generic_parameters: None }
}

fn definition() -> TranslatedDefinition {
    TranslatedDefinition::new("token.sol", ContractTy::Contract, "Token", &vec!["Ownable".to_string()])
}

fn function(name: &str) -> Function {
    Function {
        attributes: None,
        is_public: false,
        name: name.into(),
        generic_parameters: None,
        parameters: ParameterList::default(),
        return_type: None,
        body: None,
    }
}

#[test]
fn a_new_definition_is_empty() {
    let d = definition();
    assert_eq!(d.path, "token.sol");
    assert_eq!(d.kind, Some(ContractTy::Contract));
    assert_eq!(d.name, "Token");
    assert_eq!(d.inherits, vec!["Ownable".to_string()]);
    assert!(d.uses.is_empty() && d.functions.is_empty() && d.impls.is_empty() && d.warnings.is_empty());
    assert!(d.abi.is_none() && d.storage.is_none() && d.configurable.is_none());
    assert!(d.toplevel_scope.parent.is_none() && d.toplevel_scope.variables.is_empty());
}

#[test]
fn paths_are_split_at_double_colons() {
    assert_eq!(split_path("std::bytes::Bytes"), vec!["std", "bytes", "Bytes"]);
    assert_eq!(split_path("std"), vec!["std"]);
    assert_eq!(split_path(""), vec![""]);
    assert_eq!(split_path("a:::b"), vec!["a", ":b"]);
    assert_eq!(split_path("a::"), vec!["a", ""]);
    assert_eq!(split_path("::a"), vec!["", "a"]);
}

#[test]
fn a_glob_ends_an_import() {
    let mut d = definition();
    d.ensure_use_declared("std::storage::*");
    d.ensure_use_declared("core");
    d.ensure_use_declared("std::*::ignored");
    d.ensure_use_declared("std::storage::*");
    let path = |prefix: &str, suffix: UseTree| UseTree::Path { prefix: prefix.into(), suffix: Box::new(suffix) };
    assert_eq!(
        d.uses,
        vec![
            Use { is_public: false, tree: path("std", path("storage", UseTree::Glob)) },
            Use { is_public: false, tree: UseTree::Name { name: "core".into() } },
            Use { is_public: false, tree: path("std", UseTree::Glob) },
        ]
    );
}

#[test]
fn blocks_of_a_definition_are_created_once() {
    let mut d = definition();
    assert_eq!(d.get_abi().name, "Token");
    d.get_abi().functions.push(function("f"));
    assert_eq!(d.get_abi().functions.len(), 1);
    d.add_abi_function(function("f"));
    d.add_abi_function(function("g"));
    assert_eq!(d.get_abi().functions.len(), 2);
    assert_eq!(*d.get_configurable(), Configurable::default());
    assert!(d.get_storage().fields.is_empty());
    assert!(d.storage.is_some() && d.configurable.is_some());
}

#[test]
fn the_contract_impl_is_found_or_created() {
    let mut d = definition();
    d.impls.push(Impl { ty: named("Token"), for_type_name: Some(named("Other")), ..Default::default() });
    assert!(d.find_contract_impl().is_none());
    assert!(d.find_contract_impl_mut().is_none());
    d.get_contract_impl().items.push(ImplItem::Function(function("f")));
    assert_eq!(d.impls.len(), 2);
    assert_eq!(d.impls[1].for_type_name, Some(named("Contract")));
    assert_eq!(d.find_contract_impl().unwrap().items.len(), 1);
    d.find_contract_impl_mut().unwrap().items.push(ImplItem::Function(function("g")));
    d.add_contract_impl_item(ImplItem::Function(function("g")));
    d.add_contract_impl_item(ImplItem::Function(function("h")));
    assert_eq!(d.get_contract_impl().items.len(), 3);
    assert_eq!(d.impls.len(), 2);
}

#[test]
fn importing_an_enum_declares_its_variants() {
    let mut d = definition();
    let constant = |name: &str| ImplItem::Constant(Constant { is_public: false, name: name.into(), ty: named("Color"), value: None });
    let color = TranslatedEnum {
        type_definition: TypeDefinition { is_public: true, name: named("Color"), underlying_type: Some(named("u8")) },
        variants_impl: Impl { ty: named("Color"), items: vec![constant("Red"), ImplItem::Function(function("f")), constant("Blue")], ..Default::default() },
    };
    d.import_enum(&color);
    assert_eq!(d.enums, vec![color]);
    let names: Vec<&str> = d.toplevel_scope.variables.iter().map(|v| v.new_name.as_str()).collect();
    assert_eq!(names, vec!["Color::Red", "Color::Blue"]);
    assert_eq!(d.toplevel_scope.variables[0].ty, named("Color"));
    assert_eq!(d.toplevel_scope.variables[0].old_name, "");
    d.type_definitions.push(TypeDefinition { is_public: true, name: named("Shade"), underlying_type: Some(named("Color")) });
    assert_eq!(d.get_underlying_type(&named("Shade")), named("u8"));
    assert_eq!(d.get_underlying_type(&named("u64")), named("u64"));
    d.type_definitions.push(TypeDefinition { is_public: true, name: named("A"), underlying_type: Some(named("B")) });
    d.type_definitions.push(TypeDefinition { is_public: true, name: named("B"), underlying_type: Some(named("A")) });
    assert!(matches!(d.get_underlying_type(&named("A")), TypeName::Identifier { .. }));
}

#[test]
fn items_of_a_module_are_found_again() {
    let mut module = Module::new(ModuleKind::Script);
    module.get_or_create_impl_for("Token", "Contract").items.push(ImplItem::Function(function("f")));
    module.get_or_create_configurable();
    module.get_or_create_impl_for("Token", "Abi");
    assert_eq!(module.get_or_create_impl_for("Token", "Contract").items.len(), 1);
    module.get_or_create_abi("Token").functions.push(function("f"));
    module.get_or_create_abi("Other");
    assert_eq!(module.get_or_create_abi("Token").functions.len(), 1);
    module.get_or_create_configurable();
    let kinds: Vec<&str> = module
        .items
        .iter()
        .map(|item| match item {
            ModuleItem::Impl(_) => "impl",
            ModuleItem::Configurable(_) => "configurable",
            ModuleItem::Abi(_) => "abi",
            _ => "other",
        })
        .collect();
    assert_eq!(kinds, vec!["impl", "configurable", "impl", "abi", "abi"]);
}

#[test]
fn searches_follow_the_shadowing_order() {
    let mut scope = TranslationScope::default();
    let variable = |name: &str, is_storage: bool| TranslatedVariable { old_name: name.into(), new_name: name.into(), is_storage, ..Default::default() };
    scope.declare(variable("a", true));
    scope.declare(variable("b", true));
    scope.functions.push(TranslatedFunction {
        old_name: "f".into(),
        new_name: "outer".into(),
        parameters: ParameterList::default(),
        constructor_calls: vec![],
        modifiers: vec![],
        return_type: None,
    });
    scope.enter();
    scope.declare(variable("c", false));
    scope.declare(variable("d", true));
    assert_eq!(scope.find_variable(|v| v.is_storage).unwrap().new_name, "d");
    assert_eq!(scope.find_variable(|v| !v.new_name.is_empty()).unwrap().new_name, "d");
    assert_eq!(scope.find_variable(|v| v.new_name != "c" && v.new_name != "d").unwrap().new_name, "b");
    assert!(scope.find_variable(|v| v.new_name == "z").is_none());
    assert_eq!(scope.find_function(|f| f.old_name == "f").unwrap().new_name, "outer");
    assert!(scope.find_function(|f| f.old_name == "g").is_none());
    scope.record_mutation("a");
    scope.record_mutation("a");
    scope.record_read("d");
    scope.record_read("missing");
    scope.set_statement_index("c", 7);
    assert_eq!(scope.get_variable_from_old_name("a").unwrap().mutation_count, 2);
    assert_eq!(scope.get_variable_from_old_name("d").unwrap().read_count, 1);
    assert_eq!(scope.get_variable_from_new_name("c").unwrap().statement_index, Some(7));
    assert_eq!(scope.get_variable_from_new_name("d").unwrap().statement_index, None);
}

#[test]
fn number_literals_have_values() {
    assert_eq!(parse_literal("0", false), Some(0));
    assert_eq!(parse_literal("0042", false), Some(42));
    assert_eq!(parse_literal("0x2A", true), Some(42));
    assert_eq!(parse_literal("0xffffffffffffffff", true), Some(u64::MAX));
    assert_eq!(parse_literal("0x10000000000000000", true), None);
    assert_eq!(parse_literal("0x", true), None);
    assert_eq!(parse_literal("2A", true), None);
    assert_eq!(parse_literal("ff", false), None);
    assert_eq!(parse_literal("-1", false), None);
}

#[test]
fn default_values_follow_the_type() {
    let call = |name: &str, parameters: Vec<Expression>| {
        Expression::FunctionCall(Box::new(charcoal::sway::FunctionCall {
            function: Expression::Identifier(name.into()),
            generic_parameters: None,
            parameters,
        }))
    };
    assert_eq!(create_default_value(&named("bool")), Expression::Literal(Literal::Bool(false)));
    assert_eq!(create_default_value(&named("u256")), Expression::Literal(Literal::DecInt(0)));
    assert_eq!(create_default_value(&named("b256")), call("b256::zero", vec![]));
    assert_eq!(create_default_value(&named("Bytes")), call("Bytes::new", vec![]));
    assert_eq!(create_default_value(&TypeName::StringSlice), Expression::Literal(Literal::String(String::new())));
    assert_eq!(create_default_value(&named("Account")), call("todo!", vec![]));
    assert_eq!(
        create_default_value(&TypeName::Array { ty: Box::new(named("u8")), length: 2 }),
        Expression::Array(charcoal::sway::Array { elements: vec![Expression::Literal(Literal::DecInt(0)), Expression::Literal(Literal::DecInt(0))] })
    );
    assert_eq!(
        create_default_value(&TypeName::Tuple { type_names: vec![named("bool"), named("u8")] }),
        Expression::Tuple(vec![Expression::Literal(Literal::Bool(false)), Expression::Literal(Literal::DecInt(0))])
    );
    assert_eq!(create_value_expression(&named("u8"), Some(Expression::Break)), Expression::Break);
    assert_eq!(create_value_expression(&named("u8"), None), Expression::Literal(Literal::DecInt(0)));
}

#[test]
fn names_are_numbered_from_the_second_time_on() {
    let mut counters = vec![];
    assert_eq!(charcoal::translate::counters::number_name(&mut counters, "total".into()), "total");
    assert_eq!(charcoal::translate::counters::number_name(&mut counters, "total".into()), "total_2");
    assert_eq!(charcoal::translate::counters::number_name(&mut counters, "other".into()), "other");
    assert_eq!(charcoal::translate::counters::number_name(&mut counters, "total".into()), "total_3");
    assert_eq!(counters.len(), 2);
    assert_eq!(charcoal::translate::counters::count_name(&mut counters, "other"), 2);
}
