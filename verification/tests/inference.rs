use charcoal::errors::Error;
use charcoal::solidity::ContractTy;
use charcoal::sway::{
    Abi, Array, ArrayAccess, AsmBlock, BinaryExpression, Block, Constant, Expression, Function, FunctionCall,
    GenericParameter, GenericParameterList, Impl, ImplItem, Let, LetIdentifier, LetPattern, Literal, MemberAccess,
    Parameter, ParameterList, Statement, Struct, StructField, TypeDefinition, TypeName,
};
use charcoal::translate::{TranslatedDefinition, TranslatedEnum, TranslatedFunction, TranslatedVariable, TranslationScope};

fn named(name: &str) -> TypeName {
    TypeName::Identifier { name: name.into(), generic_parameters: None }
}

fn generic(name: &str, arguments: Vec<TypeName>) -> TypeName {
    TypeName::Identifier {
        name: name.into(),
        generic_parameters: Some(GenericParameterList {
            entries: arguments.into_iter().map(|ty| GenericParameter { ty, implements: None }).collect(),
        }),
    }
}

fn unit() -> TypeName {
    TypeName::Tuple { type_names: vec![] }
}

fn id(name: &str) -> Expression {
    Expression::Identifier(name.into())
}

fn call(function: Expression, parameters: Vec<Expression>) -> Expression {
    Expression::FunctionCall(Box::new(FunctionCall { function, generic_parameters: None, parameters }))
}

fn member(expression: Expression, member: &str) -> Expression {
    Expression::MemberAccess(Box::new(MemberAccess { expression, member: member.into() }))
}

fn method(receiver: Expression, name: &str) -> Expression {
    call(member(receiver, name), vec![])
}

fn setup() -> (TranslatedDefinition, TranslationScope) {
    let mut definition = TranslatedDefinition::new("", ContractTy::Contract, "Token", &vec![]);
    definition.structs.push(Struct {
        attributes: None,
        is_public: true,
        name: "Account".into(),
        generic_parameters: None,
        fields: vec![StructField { is_public: true, name: "owner".into(), ty: named("Identity") }],
    });
    definition.enums.push(TranslatedEnum {
        type_definition: TypeDefinition { is_public: true, name: named("Color"), underlying_type: Some(named("u8")) },
        variants_impl: Impl {
            ty: named("Color"),
            items: vec![ImplItem::Constant(Constant { is_public: false, name: "Red".into(), ty: named("Color"), value: None })],
            ..Default::default()
        },
    });
    definition.abi = Some(Abi {
        name: "Token".into(),
        inherits: vec![],
        functions: vec![Function {
            attributes: None,
            is_public: false,
            name: "total".into(),
            generic_parameters: None,
            parameters: ParameterList::default(),
            return_type: Some(named("u256")),
            body: None,
        }],
    });
    let mut scope = TranslationScope::default();
    let variable = |name: &str, ty: TypeName, is_storage: bool| TranslatedVariable {
        old_name: name.into(),
        new_name: name.into(),
        ty,
        is_storage,
        ..Default::default()
    };
    scope.declare(variable("balances", generic("StorageMap", vec![named("Identity"), named("u64")]), true));
    scope.declare(variable("holders", generic("StorageVec", vec![named("Identity")]), true));
    scope.declare(variable("who", named("Identity"), false));
    scope.declare(variable("items", generic("Vec", vec![named("u32")]), false));
    scope.declare(variable("account", named("Account"), false));
    scope.declare(variable("token", named("Token"), false));
    scope.declare(variable("signed", named("I64"), false));
    scope.declare(variable("nothing", TypeName::Undefined, false));
    scope.functions.push(TranslatedFunction {
        old_name: "balanceOf".into(),
        new_name: "balance_of".into(),
        parameters: ParameterList { entries: vec![Parameter { name: "a".into(), ty: Some(named("Identity")), ..Default::default() }] },
        constructor_calls: vec![],
        modifiers: vec![],
        return_type: Some(named("u64")),
    });
    scope.functions.push(TranslatedFunction {
        old_name: "touch".into(),
        new_name: "touch".into(),
        parameters: ParameterList::default(),
        constructor_calls: vec![],
        modifiers: vec![],
        return_type: None,
    });
    (definition, scope)
}

#[test]
fn literals_and_identifiers() {
    let (definition, scope) = setup();
    let ty = |e: Expression| definition.get_expression_type(&scope, &e);
    assert_eq!(ty(Expression::Literal(Literal::Bool(true))), Ok(named("bool")));
    assert_eq!(ty(Expression::Literal(Literal::DecInt(1))), Ok(named("u64")));
    assert_eq!(ty(Expression::Literal(Literal::HexInt(1))), Ok(named("u64")));
    assert_eq!(ty(Expression::Literal(Literal::String("x".into()))), Ok(TypeName::StringSlice));
    assert_eq!(ty(id("who")), Ok(named("Identity")));
    assert_eq!(ty(id("Color::Red")), Ok(named("Color")));
    assert_eq!(ty(id("Color::Blue")), Err(Error::UnknownVariable("Color::Blue".into())));
    assert_eq!(ty(id("balances")), Err(Error::UnknownVariable("balances".into())));
    assert_eq!(ty(id("missing")), Err(Error::UnknownVariable("missing".into())));
}

#[test]
fn calls_of_functions() {
    let (definition, scope) = setup();
    let ty = |e: Expression| definition.get_expression_type(&scope, &e);
    assert_eq!(ty(call(id("msg_sender"), vec![])), Ok(generic("Option", vec![named("Identity")])));
    assert_eq!(ty(call(id("std::block::height"), vec![])), Ok(named("u32")));
    assert_eq!(ty(call(id("std::hash::keccak256"), vec![id("who")])), Ok(named("b256")));
    assert_eq!(ty(call(id("u64::try_from"), vec![id("who")])), Ok(generic("Option", vec![named("u64")])));
    assert_eq!(ty(call(id("todo!"), vec![])), Ok(named("todo!")));
    assert_eq!(ty(call(id("abi"), vec![id("Oracle"), id("who")])), Ok(named("Oracle")));
    assert!(matches!(ty(call(id("abi"), vec![id("Oracle")])), Err(Error::NoTypeRule(_))));
    assert_eq!(ty(call(id("balance_of"), vec![id("who")])), Ok(named("u64")));
    assert_eq!(ty(call(id("touch"), vec![])), Ok(unit()));
    assert_eq!(ty(call(id("balance_of"), vec![])), Err(Error::UnknownFunction("balance_of".into())));
    assert_eq!(ty(call(id("balanceOf"), vec![id("who")])), Err(Error::UnknownFunction("balanceOf".into())));
}

#[test]
fn calls_of_methods() {
    let (definition, scope) = setup();
    let ty = |e: Expression| definition.get_expression_type(&scope, &e);
    let balances = member(id("storage"), "balances");
    let key = |t: TypeName| generic("StorageKey", vec![t]);
    assert_eq!(ty(balances.clone()), Ok(key(generic("StorageMap", vec![named("Identity"), named("u64")]))));
    let got = call(member(balances.clone(), "get"), vec![id("who")]);
    assert_eq!(ty(got.clone()), Ok(key(named("u64"))));
    assert_eq!(ty(method(got.clone(), "read")), Ok(named("u64")));
    assert_eq!(ty(method(got.clone(), "try_read")), Ok(generic("Option", vec![named("u64")])));
    assert_eq!(ty(method(got, "write")), Ok(unit()));
    assert_eq!(
        ty(method(balances, "try_insert")),
        Ok(generic("Result", vec![named("Identity"), generic("StorageMapError", vec![named("Identity")])]))
    );
    let holders = member(id("storage"), "holders");
    assert_eq!(ty(method(holders.clone(), "len")), Ok(named("u64")));
    assert_eq!(ty(method(holders.clone(), "get")), Ok(generic("Option", vec![key(named("Identity"))])));
    assert_eq!(ty(method(method(holders.clone(), "get"), "unwrap")), Ok(key(named("Identity"))));
    assert_eq!(ty(method(holders.clone(), "pop")), Ok(generic("Option", vec![named("Identity")])));
    assert_eq!(ty(method(holders, "load_vec")), Ok(generic("Vec", vec![named("Identity")])));
    assert_eq!(ty(method(id("who"), "as_address")), Ok(generic("Option", vec![named("Address")])));
    assert_eq!(ty(method(id("who"), "is_contract_id")), Ok(named("bool")));
    assert_eq!(ty(method(id("items"), "get")), Ok(generic("Option", vec![named("u32")])));
    assert_eq!(ty(method(id("token"), "total")), Ok(named("u256")));
    assert_eq!(ty(method(Expression::Literal(Literal::DecInt(1)), "as_u256")), Ok(named("u256")));
    assert_eq!(ty(method(Expression::Literal(Literal::String("s".into())), "len")), Ok(named("u64")));
    assert!(matches!(ty(method(id("who"), "missing")), Err(Error::NoTypeRule(_))));
    assert_eq!(ty(method(id("nothing"), "len")), Err(Error::UndefinedType));
    assert_eq!(ty(member(id("storage"), "missing")), Err(Error::UnknownVariable("missing".into())));
}

#[test]
fn members_blocks_and_the_rest() {
    let (definition, scope) = setup();
    let ty = |e: Expression| definition.get_expression_type(&scope, &e);
    assert_eq!(ty(member(id("account"), "owner")), Ok(named("Identity")));
    assert_eq!(ty(member(id("signed"), "underlying")), Ok(named("u64")));
    assert!(matches!(ty(member(id("account"), "missing")), Err(Error::NoTypeRule(_))));
    assert_eq!(
        ty(Expression::ArrayAccess(Box::new(ArrayAccess { expression: id("items"), index: Expression::Literal(Literal::DecInt(0)) }))),
        Ok(named("u32"))
    );
    let one = || Expression::Literal(Literal::DecInt(1));
    assert_eq!(ty(Expression::Array(Array { elements: vec![one(), one()] })), Ok(TypeName::Array { ty: Box::new(named("u64")), length: 2 }));
    assert_eq!(ty(Expression::Array(Array { elements: vec![] })), Ok(TypeName::Array { ty: Box::new(unit()), length: 0 }));
    assert_eq!(ty(Expression::Tuple(vec![one(), id("who")])), Ok(TypeName::Tuple { type_names: vec![named("u64"), named("Identity")] }));
    assert_eq!(ty(Expression::Return(None)), Ok(unit()));
    assert_eq!(ty(Expression::Continue), Ok(unit()));
    assert_eq!(
        ty(Expression::BinaryExpression(Box::new(BinaryExpression { operator: "==".into(), lhs: id("who"), rhs: one() }))),
        Ok(named("Identity"))
    );
    assert!(matches!(ty(Expression::AsmBlock(Box::new(AsmBlock::default()))), Err(Error::NoTypeRule(_))));
    let declare = |pattern: LetPattern, value: Expression| Statement::Let(Let { pattern, ty: None, value });
    let name = |name: &str| LetIdentifier { is_mutable: false, name: name.into() };
    let block = Expression::Block(Box::new(Block {
        statements: vec![
            declare(LetPattern::Identifier(name("x")), id("who")),
            declare(LetPattern::Tuple(vec![name("a"), name("b")]), Expression::Tuple(vec![one(), id("x")])),
        ],
        final_expr: Some(id("b")),
    }));
    assert_eq!(ty(block), Ok(named("Identity")));
    let not_a_tuple = Expression::Block(Box::new(Block {
        statements: vec![declare(LetPattern::Tuple(vec![name("a")]), one())],
        final_expr: Some(id("a")),
    }));
    assert_eq!(ty(not_a_tuple), Err(Error::ExpectedTuple(named("u64"))));
    assert_eq!(ty(Expression::Block(Box::new(Block::default()))), Ok(unit()));
}
