use charcoal::errors::{Construct, Error};
use charcoal::project::Project;
use charcoal::solidity::{self, ContractTy};
use charcoal::sway::{GenericParameter, GenericParameterList, Parameter, TypeName, Use, UseTree};
use charcoal::translate::type_names::{translate_return_type_name, translate_type_name};
use charcoal::translate::{TranslatedDefinition, Warning};

fn definition() -> TranslatedDefinition {
    TranslatedDefinition::new("", ContractTy::Contract, "Token", &vec![])
}

fn named(name: &str) -> TypeName {
    TypeName::Identifier { name: name.into(), generic_parameters: None }
}

fn generic(name: &str, arguments: Vec<TypeName>) -> TypeName {
    TypeName::Identifier {
        name: name.into(),
        generic_parameters: Some(GenericParameterList {
            entries: arguments.into_iter().map(|ty| GenericParameter { ty, implements: None }).collect(),
        }),
    }
}

fn ty(t: solidity::Type) -> solidity::Expression {
    solidity::Expression::Type(t)
}

fn mapping(key: solidity::Expression, value: solidity::Expression) -> solidity::Expression {
    ty(solidity::Type::Mapping { key: Box::new(key), value: Box::new(value) })
}

fn path(segments: &[&str]) -> UseTree {
    let mut tree = match *segments.last().unwrap() {
        "*" => UseTree::Glob,
        name => UseTree::Name { name: name.into() },
    };
    for prefix in segments[..segments.len() - 1].iter().rev() {
        tree = UseTree::Path { prefix: (*prefix).into(), suffix: Box::new(tree) };
    }
    tree
}

#[test]
fn supported_widths_map_to_themselves() {
    let project = Project::new();
    let mut d = definition();
    for (bits, name) in [(8, "u8"), (16, "u16"), (32, "u32"), (64, "u64"), (256, "u256")] {
        assert_eq!(translate_type_name(&project, &mut d, &ty(solidity::Type::Uint(bits)), false), Ok(named(name)));
    }
    assert!(d.warnings.is_empty());
}

#[test]
fn unsupported_widths_round_up_with_a_warning() {
    let project = Project::new();
    let mut d = definition();
    for (bits, name) in [(1, "u8"), (7, "u8"), (9, "u16"), (17, "u32"), (24, "u32"), (33, "u64"), (65, "u256"), (128, "u256"), (255, "u256")] {
        assert_eq!(translate_type_name(&project, &mut d, &ty(solidity::Type::Uint(bits)), false), Ok(named(name)));
    }
    assert_eq!(d.warnings.len(), 9);
    assert_eq!(d.warnings[1], Warning::UnsupportedBitWidth { bits: 7, used: 8 });
    assert_eq!(d.warnings[7], Warning::UnsupportedBitWidth { bits: 128, used: 256 });
}

#[test]
fn width_rounding_is_idempotent() {
    let project = Project::new();
    for bits in 1..=256u16 {
        let mut d = definition();
        let first = translate_type_name(&project, &mut d, &ty(solidity::Type::Uint(bits)), false).unwrap();
        let TypeName::Identifier { name, .. } = &first else { panic!("expected an identifier") };
        let width: u16 = name[1..].parse().unwrap();
        let mut again = definition();
        assert_eq!(translate_type_name(&project, &mut again, &ty(solidity::Type::Uint(width)), false), Ok(first));
        assert!(again.warnings.is_empty());
    }
}

#[test]
fn widths_out_of_range_are_rejected() {
    let project = Project::new();
    let mut d = definition();
    assert_eq!(translate_type_name(&project, &mut d, &ty(solidity::Type::Uint(0)), false), Err(Error::InvalidBitWidth(0)));
    assert_eq!(translate_type_name(&project, &mut d, &ty(solidity::Type::Uint(257)), false), Err(Error::InvalidBitWidth(257)));
}

#[test]
fn addresses_booleans_and_bytes() {
    let project = Project::new();
    let mut d = definition();
    assert_eq!(translate_type_name(&project, &mut d, &ty(solidity::Type::Address), false), Ok(named("Identity")));
    assert_eq!(translate_type_name(&project, &mut d, &ty(solidity::Type::AddressPayable), true), Ok(named("Identity")));
    assert_eq!(translate_type_name(&project, &mut d, &ty(solidity::Type::Bool), false), Ok(named("bool")));
    assert_eq!(translate_type_name(&project, &mut d, &ty(solidity::Type::Bytes(32)), false), Ok(named("b256")));
    assert_eq!(
        translate_type_name(&project, &mut d, &ty(solidity::Type::Bytes(4)), false),
        Ok(TypeName::Array { ty: Box::new(named("u8")), length: 4 })
    );
    assert!(d.uses.is_empty());
    assert_eq!(translate_type_name(&project, &mut d, &ty(solidity::Type::DynamicBytes), false), Ok(named("Bytes")));
    assert_eq!(d.uses, vec![Use { is_public: false, tree: path(&["std", "bytes", "Bytes"]) }]);
}

#[test]
fn strings_depend_on_storage() {
    let project = Project::new();
    let mut d = definition();
    assert_eq!(translate_type_name(&project, &mut d, &ty(solidity::Type::String), false), Ok(TypeName::StringSlice));
    assert!(d.uses.is_empty());
    assert_eq!(translate_type_name(&project, &mut d, &ty(solidity::Type::String), true), Ok(named("StorageString")));
    assert_eq!(d.uses, vec![Use { is_public: false, tree: path(&["std", "storage", "storage_string", "*"]) }]);
}

#[test]
fn imports_are_declared_once() {
    let project = Project::new();
    let mut d = definition();
    let map = mapping(ty(solidity::Type::Address), ty(solidity::Type::Uint(256)));
    assert_eq!(translate_type_name(&project, &mut d, &map, true), Ok(generic("StorageMap", vec![named("Identity"), named("u256")])));
    assert_eq!(translate_type_name(&project, &mut d, &map, true), Ok(generic("StorageMap", vec![named("Identity"), named("u256")])));
    assert_eq!(d.uses, vec![Use { is_public: false, tree: path(&["std", "hash", "Hash"]) }]);
}

#[test]
fn arrays_with_and_without_length() {
    let project = Project::new();
    let mut d = definition();
    let element = || Box::new(ty(solidity::Type::Uint(64)));
    let fixed = solidity::Expression::ArraySubscript(element(), Some(Box::new(solidity::Expression::NumberLiteral("3".into()))));
    assert_eq!(translate_type_name(&project, &mut d, &fixed, false), Ok(TypeName::Array { ty: Box::new(named("u64")), length: 3 }));
    let hex = solidity::Expression::ArraySubscript(element(), Some(Box::new(solidity::Expression::HexNumberLiteral("0x10".into()))));
    assert_eq!(translate_type_name(&project, &mut d, &hex, false), Ok(TypeName::Array { ty: Box::new(named("u64")), length: 16 }));
    let dynamic = solidity::Expression::ArraySubscript(element(), None);
    assert_eq!(translate_type_name(&project, &mut d, &dynamic, false), Ok(generic("Vec", vec![named("u64")])));
    assert!(d.uses.is_empty());
    let dynamic = solidity::Expression::ArraySubscript(element(), None);
    assert_eq!(translate_type_name(&project, &mut d, &dynamic, true), Ok(generic("StorageVec", vec![named("u64")])));
    assert_eq!(d.uses, vec![Use { is_public: false, tree: path(&["std", "storage", "storage_vec", "*"]) }]);
    let unknown = solidity::Expression::ArraySubscript(element(), Some(Box::new(solidity::Expression::Variable("n".into()))));
    assert_eq!(translate_type_name(&project, &mut d, &unknown, false), Err(Error::InvalidArrayLength));
}

#[test]
fn unsupported_types_are_rejected() {
    let project = Project::new();
    let mut d = definition();
    assert_eq!(translate_type_name(&project, &mut d, &ty(solidity::Type::Payable), false), Err(Error::Unsupported(Construct::PayableType)));
    assert_eq!(translate_type_name(&project, &mut d, &ty(solidity::Type::Int(8)), false), Err(Error::Unsupported(Construct::SignedIntegerType)));
    assert_eq!(translate_type_name(&project, &mut d, &ty(solidity::Type::Rational), false), Err(Error::Unsupported(Construct::RationalType)));
    assert_eq!(translate_type_name(&project, &mut d, &ty(solidity::Type::Function), false), Err(Error::Unsupported(Construct::FunctionType)));
    assert_eq!(translate_type_name(&project, &mut d, &solidity::Expression::BoolLiteral(true), false), Err(Error::Unsupported(Construct::TypeExpression)));
    assert_eq!(translate_type_name(&project, &mut d, &solidity::Expression::Variable("Missing".into()), false), Err(Error::UnknownType("Missing".into())));
}

#[test]
fn contracts_with_an_abi_are_imported() {
    let mut project = Project::new();
    let mut other = TranslatedDefinition::new("", ContractTy::Contract, "Oracle", &vec![]);
    other.get_abi();
    project.translated_definitions.push(other);
    let mut d = definition();
    assert_eq!(translate_type_name(&project, &mut d, &solidity::Expression::Variable("Oracle".into()), false), Ok(named("Oracle")));
    assert_eq!(d.abis.len(), 1);
    assert_eq!(d.abis[0].name, "Oracle");
    assert_eq!(translate_type_name(&project, &mut d, &solidity::Expression::Variable("Oracle".into()), false), Ok(named("Oracle")));
    assert_eq!(d.abis.len(), 1);
    assert_eq!(translate_return_type_name(&project, &mut d, named("Oracle")), named("Identity"));
    assert_eq!(translate_return_type_name(&project, &mut d, named("u64")), named("u64"));
    assert_eq!(translate_return_type_name(&project, &mut d, TypeName::StringSlice), named("String"));
    assert_eq!(d.uses, vec![Use { is_public: false, tree: path(&["std", "string", "*"]) }]);
}

#[test]
fn getter_of_a_map_takes_the_key() {
    let map = generic("StorageMap", vec![named("Identity"), named("u64")]);
    let (parameters, value) = map.getter_function_parameters_and_return_type().unwrap();
    assert_eq!(parameters, vec![(Parameter { is_ref: false, is_mut: false, name: "a".into(), ty: Some(named("Identity")) }, false)]);
    assert_eq!(value, named("u64"));
}

#[test]
fn getter_of_nested_containers_takes_a_parameter_for_each_layer() {
    let nested = generic("StorageMap", vec![named("Identity"), generic("StorageVec", vec![generic("StorageMap", vec![named("b256"), named("bool")])])]);
    let (parameters, value) = nested.getter_function_parameters_and_return_type().unwrap();
    let names: Vec<(&str, bool)> = parameters.iter().map(|(p, unwrap)| (p.name.as_str(), *unwrap)).collect();
    assert_eq!(names, vec![("a", false), ("b", true), ("c", false)]);
    assert_eq!(parameters[0].0.ty, Some(named("Identity")));
    assert_eq!(parameters[1].0.ty, Some(named("u64")));
    assert_eq!(parameters[2].0.ty, Some(named("b256")));
    assert_eq!(value, named("bool"));
    assert!(named("u64").getter_function_parameters_and_return_type().is_none());
    assert!(generic("Vec", vec![named("u64")]).getter_function_parameters_and_return_type().is_none());
    assert!(TypeName::Undefined.getter_function_parameters_and_return_type().is_none());
}

#[test]
fn getter_parameters_are_named_by_successive_letters() {
    let mut nested = named("u64");
    for _ in 0..28 {
        nested = generic("StorageVec", vec![nested]);
    }
    let (parameters, value) = nested.getter_function_parameters_and_return_type().unwrap();
    assert_eq!(value, named("u64"));
    let names: Vec<&str> = parameters.iter().map(|(p, _)| p.name.as_str()).collect();
    assert_eq!(names.len(), 28);
    assert_eq!(&names[..3], ["a", "b", "c"]);
    assert_eq!(&names[23..], ["x", "y", "z", "aa", "ab"]);
}

#[test]
fn unsigned_integer_types_are_recognised() {
    for name in ["u8", "u16", "u32", "u64", "u256"] {
        assert!(named(name).is_uint());
    }
    assert!(!named("u128").is_uint());
    assert!(!named("bool").is_uint());
    assert!(!generic("u8", vec![named("u8")]).is_uint());
    assert!(!TypeName::StringSlice.is_uint());
    assert!(named("u8").is_compatible_with(&named("u256")));
    assert!(!named("u8").is_compatible_with(&named("bool")));
    assert!(generic("Vec", vec![named("u8")]).is_compatible_with(&generic("Vec", vec![named("u64")])));
    assert!(!generic("Vec", vec![named("u8")]).is_compatible_with(&generic("Option", vec![named("u8")])));
}
