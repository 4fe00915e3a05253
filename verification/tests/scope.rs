use charcoal::sway::{Expression, Literal, Module, ModuleItem, ModuleKind, Parameter, ParameterList, TypeName};
use charcoal::translate::{TranslatedFunction, TranslatedVariable, TranslationScope};

fn variable(old_name: &str, new_name: &str, ty: &str) -> TranslatedVariable {
    TranslatedVariable {
        old_name: old_name.into(),
        new_name: new_name.into(),
        ty: TypeName::Identifier { name: ty.into(), generic_parameters: None },
        ..Default::default()
    }
}

#[test]
fn unique_name_skips_taken_names() {
    let mut scope = TranslationScope::default();
    scope.declare(variable("x", "x", "u64"));
    scope.enter();
    scope.declare(variable("y", "_x", "u64"));
    assert_eq!(scope.generate_unique_variable_name("x"), "__x");
    assert_eq!(scope.generate_unique_variable_name("z"), "z");
}

#[test]
fn inner_declaration_shadows_outer() {
    let mut scope = TranslationScope::default();
    scope.declare(variable("a", "a", "u8"));
    scope.declare(variable("a", "a", "u16"));
    assert_eq!(scope.get_variable_from_new_name("a").unwrap().ty, TypeName::Identifier { name: "u16".into(), generic_parameters: None });
    scope.enter();
    scope.declare(variable("a", "a", "u32"));
    assert_eq!(scope.get_variable_from_old_name("a").unwrap().ty, TypeName::Identifier { name: "u32".into(), generic_parameters: None });
    scope.leave();
    assert_eq!(scope.get_variable_from_new_name("a").unwrap().ty, TypeName::Identifier { name: "u16".into(), generic_parameters: None });
    assert!(scope.get_variable_from_new_name("b").is_none());
}

#[test]
fn todo_message_is_escaped() {
    let e = Expression::create_todo(Some("a \"b\" \\ c".to_string()));
    let Expression::FunctionCall(call) = e else { panic!("expected a call") };
    assert_eq!(call.function, Expression::Identifier("todo!".into()));
    assert_eq!(call.parameters, vec![Expression::Literal(Literal::String("a \\\"b\\\" \\\\ c".into()))]);
}

#[test]
fn storage_is_created_once() {
    let mut module = Module::new(ModuleKind::Contract);
    module.get_or_create_storage();
    module.get_or_create_abi("Token");
    module.get_or_create_storage();
    assert_eq!(module.items.len(), 2);
    assert!(matches!(module.items[0], ModuleItem::Storage(_)));
}

#[test]
fn overload_is_resolved_by_types() {
    let mut scope = TranslationScope::default();
    let function = |new_name: &str, ty: &str| TranslatedFunction {
        old_name: "f".into(),
        new_name: new_name.into(),
        parameters: ParameterList {
            entries: vec![Parameter { is_ref: false, is_mut: false, name: "x".into(), ty: Some(TypeName::Identifier { name: ty.into(), generic_parameters: None }) }],
        },
        constructor_calls: vec![],
        modifiers: vec![],
        return_type: None,
    };
    scope.functions.push(function("f_bool", "bool"));
    scope.functions.push(function("f_uint", "u8"));
    scope.functions.push(function("f_uint_2", "u64"));
    let args = [Expression::Literal(Literal::DecInt(1))];
    let types = [TypeName::Identifier { name: "u64".into(), generic_parameters: None }];
    assert_eq!(scope.find_function_matching_types("f", &args, &types).unwrap().new_name, "f_uint");
    assert!(scope.find_function_matching_types("g", &args, &types).is_none());
}
