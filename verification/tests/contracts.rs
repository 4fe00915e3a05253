use charcoal::errors::{Construct, Error};
use charcoal::project::Project;
use charcoal::solidity::{
    self, BinaryOperator, ContractDefinition, ContractPart, ContractTy, FunctionAttribute, FunctionDefinition, FunctionTy,
    SourceUnit, SourceUnitPart, VariableAttribute, VariableDefinition, Visibility,
};
use charcoal::sway::{
    Attribute, AttributeList, BinaryExpression, Block, Expression, Function, FunctionCall, GenericParameter,
    GenericParameterList, ImplItem, Literal, MemberAccess, ModuleItem, ModuleKind, Parameter, ParameterList, Statement,
    TypeName,
};
use charcoal::translate::storage::{translate_state_variable, translate_storage_name};
use charcoal::translate::TranslatedDefinition;

fn named(name: &str) -> TypeName {
    TypeName::Identifier { name: name.into(), generic_parameters: None }
}

fn generic(name: &str, arguments: Vec<TypeName>) -> TypeName {
    TypeName::Identifier {
        name: name.into(),
        generic_parameters: Some(GenericParameterList {
            entries: arguments.into_iter().map(|ty| GenericParameter { ty, implements: None }).collect(),
        }),
    }
}

fn id(name: &str) -> Expression {
    Expression::Identifier(name.into())
}

fn call(function: Expression, parameters: Vec<Expression>) -> Expression {
    Expression::FunctionCall(Box::new(FunctionCall { function, generic_parameters: None, parameters }))
}

fn member(expression: Expression, member: &str) -> Expression {
    Expression::MemberAccess(Box::new(MemberAccess { expression, member: member.into() }))
}

fn ty(t: solidity::Type) -> solidity::Expression {
    solidity::Expression::Type(t)
}

fn mapping(key: solidity::Expression, value: solidity::Expression) -> solidity::Expression {
    ty(solidity::Type::Mapping { key: Box::new(key), value: Box::new(value) })
}

fn state_variable(name: &str, ty: solidity::Expression, attrs: Vec<VariableAttribute>, initializer: Option<solidity::Expression>) -> VariableDefinition {
    VariableDefinition { ty, attrs, name: Some(name.into()), initializer }
}

fn public() -> VariableAttribute {
    VariableAttribute::Visibility(Visibility::Public)
}

fn parameter(name: &str, ty: TypeName) -> Parameter {
    Parameter { is_ref: false, is_mut: false, name: name.into(), ty: Some(ty) }
}

fn yielding(value: Expression) -> Option<Block> {
    Some(Block { statements: vec![], final_expr: Some(value) })
}

fn storage_read() -> Option<AttributeList> {
    Some(AttributeList { attributes: vec![Attribute { name: "storage".into(), parameters: Some(vec!["read".into()]) }] })
}

#[test]
fn public_mapping_gets_a_getter() {
    let project = Project::new();
    let mut d = TranslatedDefinition::new("", ContractTy::Contract, "Token", &vec![]);
    let variable = state_variable("balances", mapping(ty(solidity::Type::Address), ty(solidity::Type::Uint(256))), vec![public()], None);
    assert_eq!(translate_state_variable(&project, &mut d, &variable), Ok(()));
    let map = generic("StorageMap", vec![named("Identity"), named("u256")]);
    let storage = d.storage.as_ref().unwrap();
    assert_eq!(storage.fields.len(), 1);
    assert_eq!(storage.fields[0].name, "balances");
    assert_eq!(storage.fields[0].ty, map);
    let declared = &d.toplevel_scope.variables[0];
    assert_eq!((declared.old_name.as_str(), declared.new_name.as_str()), ("balances", "balances"));
    assert!(declared.is_storage && !declared.is_constant && !declared.is_configurable);
    let declaration = Function {
        attributes: storage_read(),
        is_public: false,
        name: "balances".into(),
        generic_parameters: None,
        parameters: ParameterList { entries: vec![parameter("a", named("Identity"))] },
        return_type: Some(named("u256")),
        body: None,
    };
    assert_eq!(d.abi.as_ref().unwrap().name, "Token");
    assert_eq!(d.abi.as_ref().unwrap().functions, vec![declaration.clone()]);
    let read = call(member(call(member(member(id("storage"), "balances"), "get"), vec![id("a")]), "read"), vec![]);
    assert_eq!(d.functions, vec![Function { body: yielding(read), ..declaration.clone() }]);
    assert_eq!(d.impls.len(), 1);
    assert_eq!(d.impls[0].ty, named("Token"));
    assert_eq!(d.impls[0].for_type_name, Some(named("Contract")));
    assert_eq!(d.impls[0].items, vec![ImplItem::Function(Function { body: yielding(call(id("::balances"), vec![id("a")])), ..declaration })]);
}

#[test]
fn nested_mapping_getter_takes_two_keys() {
    let project = Project::new();
    let mut d = TranslatedDefinition::new("", ContractTy::Contract, "Token", &vec![]);
    let inner = mapping(ty(solidity::Type::Address), ty(solidity::Type::Uint(256)));
    let variable = state_variable("allowances", mapping(ty(solidity::Type::Address), inner), vec![public()], None);
    assert_eq!(translate_state_variable(&project, &mut d, &variable), Ok(()));
    let getter = &d.functions[0];
    assert_eq!(getter.parameters.entries, vec![parameter("a", named("Identity")), parameter("b", named("Identity"))]);
    assert_eq!(getter.return_type, Some(named("u256")));
    let chain = call(member(call(member(member(id("storage"), "allowances"), "get"), vec![id("a")]), "get"), vec![id("b")]);
    assert_eq!(getter.body, yielding(call(member(chain, "read"), vec![])));
    let ImplItem::Function(wrapper) = &d.impls[0].items[0] else { panic!("the impl holds the getter") };
    assert_eq!(wrapper.body, yielding(call(id("::allowances"), vec![id("a"), id("b")])));
}

#[test]
fn vector_getter_unwraps_the_element() {
    let project = Project::new();
    let mut d = TranslatedDefinition::new("", ContractTy::Contract, "Token", &vec![]);
    let array = solidity::Expression::ArraySubscript(Box::new(ty(solidity::Type::Bool)), None);
    assert_eq!(translate_state_variable(&project, &mut d, &state_variable("flags", array, vec![public()], None)), Ok(()));
    let getter = &d.functions[0];
    assert_eq!(getter.parameters.entries, vec![parameter("a", named("u64"))]);
    assert_eq!(getter.return_type, Some(named("bool")));
    let got = call(member(call(member(member(id("storage"), "flags"), "get"), vec![id("a")]), "unwrap"), vec![]);
    assert_eq!(getter.body, yielding(call(member(got, "read"), vec![])));
}

#[test]
fn constants_and_immutables() {
    let project = Project::new();
    let mut d = TranslatedDefinition::new("", ContractTy::Contract, "Token", &vec![]);
    let constant = state_variable("maxSupply", ty(solidity::Type::Uint(64)), vec![VariableAttribute::Constant, public()], Some(solidity::Expression::NumberLiteral("1000".into())));
    assert_eq!(translate_state_variable(&project, &mut d, &constant), Ok(()));
    assert_eq!(d.constants.len(), 1);
    assert_eq!(d.constants[0].name, "MAX_SUPPLY");
    assert!(d.constants[0].is_public);
    assert_eq!(d.constants[0].value, Some(Expression::Literal(Literal::DecInt(1000))));
    assert!(d.storage.is_none());
    assert_eq!(d.functions[0].attributes, None);
    assert_eq!(d.functions[0].body, yielding(id("MAX_SUPPLY")));
    let immutable = state_variable("owner", ty(solidity::Type::Address), vec![VariableAttribute::Immutable], None);
    assert_eq!(translate_state_variable(&project, &mut d, &immutable), Ok(()));
    let configurable = d.configurable.as_ref().unwrap();
    assert_eq!(configurable.fields[0].name, "OWNER");
    assert_eq!(
        configurable.fields[0].value,
        call(id("Identity::Address"), vec![call(id("Address::from"), vec![call(id("b256::zero"), vec![])])])
    );
    assert!(d.toplevel_scope.variables[1].is_configurable);
    let exposed = state_variable("fee", ty(solidity::Type::Uint(8)), vec![VariableAttribute::Immutable, public()], None);
    assert_eq!(translate_state_variable(&project, &mut d, &exposed), Err(Error::Unsupported(Construct::ConfigurableGetter)));
    let nameless = VariableDefinition { ty: ty(solidity::Type::Bool), attrs: vec![], name: None, initializer: None };
    assert_eq!(translate_state_variable(&project, &mut d, &nameless), Err(Error::MissingName));
}

#[test]
fn storage_names_are_kept_apart() {
    let project = Project::new();
    let mut d = TranslatedDefinition::new("", ContractTy::Contract, "Token", &vec![]);
    assert_eq!(translate_storage_name(&project, &mut d, "totalSupply"), "total_supply");
    assert_eq!(translate_storage_name(&project, &mut d, "total_supply"), "total_supply_2");
    assert_eq!(translate_storage_name(&project, &mut d, "TotalSupply"), "total_supply_3");
    assert_eq!(translate_storage_name(&project, &mut d, "totalSupply"), "total_supply");
    assert_eq!(translate_storage_name(&project, &mut d, "owner"), "owner");
    assert_eq!(d.storage_fields_names.len(), 4);
}

fn token() -> ContractDefinition {
    let uint = || ty(solidity::Type::Uint(64));
    let var = |name: &str| solidity::Expression::Variable(name.into());
    let function = |name: &str, visibility: Visibility, params: Vec<Option<solidity::Parameter>>, returns: Vec<Option<solidity::Parameter>>, body: Vec<solidity::Statement>| {
        ContractPart::FunctionDefinition(FunctionDefinition {
            ty: FunctionTy::Function,
            name: Some(name.into()),
            params,
            attributes: vec![FunctionAttribute::Other, FunctionAttribute::Visibility(visibility)],
            returns,
            body: Some(solidity::Statement::Block { statements: body }),
        })
    };
    ContractDefinition {
        ty: ContractTy::Contract,
        name: Some("Token".into()),
        base: vec![],
        parts: vec![
            ContractPart::VariableDefinition(state_variable("totalSupply", uint(), vec![], None)),
            ContractPart::ErrorDefinition(solidity::ErrorDefinition {
                name: Some("TooMuch".into()),
                fields: vec![solidity::Parameter { ty: uint(), name: Some("amount".into()) }],
            }),
            ContractPart::EventDefinition(solidity::EventDefinition { name: Some("Minted".into()), fields: vec![] }),
            ContractPart::EnumDefinition(solidity::EnumDefinition { name: Some("Phase".into()), values: vec![Some("Open".into()), Some("Closed".into())] }),
            ContractPart::StructDefinition(solidity::StructDefinition {
                name: Some("Account".into()),
                fields: vec![solidity::VariableDeclaration { ty: uint(), name: Some("lastSeen".into()) }],
            }),
            function(
                "mint",
                Visibility::External,
                vec![Some(solidity::Parameter { ty: uint(), name: Some("mintAmount".into()) })],
                vec![],
                vec![
                    solidity::Statement::If(
                        solidity::Expression::Binary(BinaryOperator::More, Box::new(var("mintAmount")), Box::new(solidity::Expression::FunctionCall(Box::new(var("limit")), vec![]))),
                        Box::new(solidity::Statement::Revert(Some("TooMuch".into()), vec![var("mintAmount")])),
                        None,
                    ),
                    solidity::Statement::Expression(solidity::Expression::Assign(Some(BinaryOperator::Add), Box::new(var("totalSupply")), Box::new(var("mintAmount")))),
                    solidity::Statement::Emit(solidity::Expression::FunctionCall(Box::new(var("Minted")), vec![])),
                ],
            ),
            function(
                "limit",
                Visibility::Internal,
                vec![],
                vec![Some(solidity::Parameter { ty: uint(), name: None })],
                vec![solidity::Statement::Return(Some(solidity::Expression::NumberLiteral("100".into())))],
            ),
            ContractPart::FunctionDefinition(FunctionDefinition {
                ty: FunctionTy::Modifier,
                name: Some("onlyOwner".into()),
                params: vec![],
                attributes: vec![],
                returns: vec![],
                body: Some(solidity::Statement::Try),
            }),
            ContractPart::Using,
        ],
    }
}

#[test]
fn a_contract_is_translated_member_by_member() {
    let mut project = Project::new();
    let units = vec![SourceUnit { parts: vec![SourceUnitPart::Other, SourceUnitPart::ContractDefinition(token())] }];
    assert_eq!(project.translate(&units), Ok(()));
    assert_eq!(project.translated_definitions.len(), 1);
    let d = &project.translated_definitions[0];
    assert_eq!(d.name, "Token");
    assert_eq!(d.structs[0].fields[0].name, "last_seen");
    assert_eq!(d.enums[0].type_definition.name, named("Phase"));
    assert_eq!(d.toplevel_scope.variables.iter().map(|v| v.new_name.as_str()).collect::<Vec<_>>(), vec!["total_supply", "Phase::Open", "Phase::Closed"]);
    assert_eq!((d.toplevel_scope.variables[0].mutation_count, d.toplevel_scope.variables[0].read_count), (1, 0));
    assert_eq!(d.toplevel_scope.variables[1].mutation_count, 0);
    assert_eq!(d.errors_enums[0].0.name, "TokenError");
    assert_eq!(d.errors_enums[0].0.variants[0].ty, named("u64"));
    assert_eq!(d.events_enums[0].0.name, "TokenEvent");
    assert_eq!(d.events_enums[0].0.variants[0].ty, TypeName::Tuple { type_names: vec![] });
    assert_eq!(d.toplevel_scope.functions.iter().map(|f| f.new_name.as_str()).collect::<Vec<_>>(), vec!["mint", "limit"]);
    let abi = d.abi.as_ref().unwrap();
    assert_eq!(abi.functions.len(), 1);
    assert_eq!(abi.functions[0].name, "mint");
    assert_eq!(abi.functions[0].parameters.entries, vec![parameter("mint_amount", named("u64"))]);
    assert_eq!(abi.functions[0].body, None);
    assert_eq!(d.functions.len(), 1);
    assert_eq!(d.functions[0].name, "limit");
    assert_eq!(d.functions[0].return_type, Some(named("u64")));
    assert_eq!(
        d.functions[0].body,
        Some(Block { statements: vec![Statement::Expression(Expression::Return(Some(Box::new(Expression::Literal(Literal::DecInt(100))))))], final_expr: None })
    );
    let ImplItem::Function(mint) = &d.impls[0].items[0] else { panic!("expected a function") };
    let body = mint.body.as_ref().unwrap();
    assert_eq!(body.statements.len(), 3);
    let supply = || member(id("storage"), "total_supply");
    assert_eq!(
        body.statements[1],
        Statement::Expression(call(
            member(supply(), "write"),
            vec![Expression::BinaryExpression(Box::new(BinaryExpression {
                operator: "+".into(),
                lhs: call(member(supply(), "read"), vec![]),
                rhs: id("mint_amount"),
            }))]
        ))
    );
    assert_eq!(body.statements[2], Statement::Expression(call(id("log"), vec![id("TokenEvent::Minted")])));
    assert_eq!(d.function_call_counts.len(), 1);
    assert_eq!((d.function_call_counts[0].name.as_str(), d.function_call_counts[0].count), ("limit", 1));
    let module = d.to_module();
    assert_eq!(module.kind, ModuleKind::Contract);
    let kinds: Vec<&str> = module
        .items
        .iter()
        .map(|item| match item {
            ModuleItem::Use(_) => "use",
            ModuleItem::TypeDefinition(_) => "type",
            ModuleItem::Constant(_) => "const",
            ModuleItem::Struct(_) => "struct",
            ModuleItem::Enum(_) => "enum",
            ModuleItem::Abi(_) => "abi",
            ModuleItem::Trait(_) => "trait",
            ModuleItem::Storage(_) => "storage",
            ModuleItem::Configurable(_) => "configurable",
            ModuleItem::Function(_) => "fn",
            ModuleItem::Impl(_) => "impl",
        })
        .collect();
    assert_eq!(kinds, vec!["type", "impl", "struct", "enum", "impl", "enum", "impl", "abi", "storage", "fn", "impl"]);
}

#[test]
fn the_first_error_ends_the_translation() {
    let mut project = Project::new();
    let broken = ContractDefinition { ty: ContractTy::Library, name: None, base: vec![], parts: vec![] };
    let units = vec![
        SourceUnit { parts: vec![SourceUnitPart::ContractDefinition(token())] },
        SourceUnit { parts: vec![SourceUnitPart::ContractDefinition(broken), SourceUnitPart::ContractDefinition(token())] },
    ];
    assert_eq!(project.translate(&units), Err(Error::MissingName));
    assert_eq!(project.translated_definitions.len(), 1);
    assert!(project.find_definition_with_abi("Token").is_some());
    assert!(project.find_definition_with_abi("Other").is_none());
}

#[test]
fn uncalled_functions_are_pruned_only_when_counted() {
    let mut d = TranslatedDefinition::new("", ContractTy::Library, "Math", &vec![]);
    let function = |name: &str| Function {
        attributes: None,
        is_public: false,
        name: name.into(),
        generic_parameters: None,
        parameters: ParameterList::default(),
        return_type: None,
        body: None,
    };
    d.functions.push(function("used"));
    d.functions.push(function("unused"));
    d.functions.push(function("uncounted"));
    d.count_call("used");
    d.function_call_counts.push(charcoal::translate::NameCount { name: "unused".into(), count: 0 });
    let module = d.to_module();
    assert_eq!(module.kind, ModuleKind::Library);
    assert_eq!(module.items, vec![ModuleItem::Function(function("used")), ModuleItem::Function(function("uncounted"))]);
    assert_eq!(d.get_underlying_type(&named("u8")), named("u8"));
}
