use charcoal::errors::{Construct, Error};
use charcoal::project::Project;
use charcoal::solidity::{self, BinaryOperator, ContractTy};
use charcoal::sway::{
    ArrayAccess, BinaryExpression, Block, Enum, EnumVariant, Expression, FunctionCall, GenericParameter, GenericParameterList, If,
    Impl, Let, LetIdentifier, LetPattern, Literal, MemberAccess, Statement, TypeName, While,
};
use charcoal::translate::expressions::translate_expression;
use charcoal::translate::finalize::finalize_block_translation;
use charcoal::translate::statements::{translate_block, translate_statement};
use charcoal::translate::{TranslatedDefinition, TranslatedFunction, TranslatedVariable, TranslationScope};

fn named(name: &str) -> TypeName {
    TypeName::Identifier { name: name.into(), generic_parameters: None }
}

fn generic(name: &str, arguments: Vec<TypeName>) -> TypeName {
    TypeName::Identifier {
        name: name.into(),
        generic_parameters: Some(GenericParameterList {
            entries: arguments.into_iter().map(|ty| GenericParameter { ty, implements: None }).collect(),
        }),
    }
}

fn id(name: &str) -> Expression {
    Expression::Identifier(name.into())
}

fn dec(value: u64) -> Expression {
    Expression::Literal(Literal::DecInt(value))
}

fn call(function: Expression, parameters: Vec<Expression>) -> Expression {
    Expression::FunctionCall(Box::new(FunctionCall { function, generic_parameters: None, parameters }))
}

fn member(expression: Expression, member: &str) -> Expression {
    Expression::MemberAccess(Box::new(MemberAccess { expression, member: member.into() }))
}

fn binary(operator: &str, lhs: Expression, rhs: Expression) -> Expression {
    Expression::BinaryExpression(Box::new(BinaryExpression { operator: operator.into(), lhs, rhs }))
}

fn block(statements: Vec<Statement>) -> Statement {
    Statement::Expression(Expression::Block(Box::new(Block { statements, final_expr: None })))
}

fn let_of(name: &str, is_mutable: bool, value: Expression) -> Statement {
    Statement::Let(Let { pattern: LetPattern::Identifier(LetIdentifier { is_mutable, name: name.into() }), ty: None, value })
}

fn var(name: &str) -> solidity::Expression {
    solidity::Expression::Variable(name.into())
}

fn num(digits: &str) -> solidity::Expression {
    solidity::Expression::NumberLiteral(digits.into())
}

fn uint(bits: u16) -> solidity::Expression {
    solidity::Expression::Type(solidity::Type::Uint(bits))
}

fn define(name: &str, ty: solidity::Expression, value: Option<solidity::Expression>) -> solidity::Statement {
    solidity::Statement::VariableDefinition(solidity::VariableDeclaration { ty, name: Some(name.into()) }, value)
}

fn expr(e: solidity::Expression) -> solidity::Statement {
    solidity::Statement::Expression(e)
}

fn assign(op: Option<BinaryOperator>, lhs: solidity::Expression, rhs: solidity::Expression) -> solidity::Expression {
    solidity::Expression::Assign(op, Box::new(lhs), Box::new(rhs))
}

fn local(old_name: &str, new_name: &str, ty: TypeName) -> TranslatedVariable {
    TranslatedVariable { old_name: old_name.into(), new_name: new_name.into(), ty, ..Default::default() }
}

fn setup() -> (Project, TranslatedDefinition, TranslationScope) {
    let mut definition = TranslatedDefinition::new("", ContractTy::Contract, "Token", &vec![]);
    definition.errors_enums.push((
        Enum {
            name: "TokenError".into(),
            variants: vec![
                EnumVariant { name: "InsufficientBalance".into(), ty: named("u64") },
                EnumVariant { name: "Paused".into(), ty: TypeName::Tuple { type_names: vec![] } },
                EnumVariant { name: "Mismatch".into(), ty: TypeName::Tuple { type_names: vec![named("u64"), named("u64")] } },
            ],
            ..Default::default()
        },
        Impl::default(),
    ));
    definition.events_enums.push((
        Enum {
            name: "TokenEvent".into(),
            variants: vec![EnumVariant { name: "Transfer".into(), ty: named("u64") }],
            ..Default::default()
        },
        Impl::default(),
    ));
    let mut scope = TranslationScope::default();
    scope.declare(local("amount", "amount", named("u64")));
    scope.declare(local("n", "n", named("u64")));
    scope.declare(TranslatedVariable { is_storage: true, ..local("totalSupply", "total_supply", named("u64")) });
    scope.enter();
    (Project::new(), definition, scope)
}

#[test]
fn revert_with_an_error_logs_and_reverts() {
    let (project, mut definition, mut scope) = setup();
    let statement = solidity::Statement::Revert(Some("InsufficientBalance".into()), vec![var("amount")]);
    let translated = translate_statement(&project, &mut definition, &mut scope, &statement).unwrap();
    assert_eq!(
        translated,
        block(vec![
            Statement::Expression(call(id("log"), vec![call(id("TokenError::InsufficientBalance"), vec![id("amount")])])),
            Statement::Expression(call(id("revert"), vec![dec(0)])),
        ])
    );
}

#[test]
fn revert_packs_its_arguments() {
    let (project, mut definition, mut scope) = setup();
    let none = solidity::Statement::Revert(Some("Paused".into()), vec![]);
    assert_eq!(
        translate_statement(&project, &mut definition, &mut scope, &none).unwrap(),
        block(vec![
            Statement::Expression(call(id("log"), vec![id("TokenError::Paused")])),
            Statement::Expression(call(id("revert"), vec![dec(0)])),
        ])
    );
    let two = solidity::Statement::Revert(Some("Mismatch".into()), vec![var("amount"), num("7")]);
    assert_eq!(
        translate_statement(&project, &mut definition, &mut scope, &two).unwrap(),
        block(vec![
            Statement::Expression(call(id("log"), vec![call(id("TokenError::Mismatch"), vec![Expression::Tuple(vec![id("amount"), dec(7)])])])),
            Statement::Expression(call(id("revert"), vec![dec(0)])),
        ])
    );
}

#[test]
fn revert_without_an_error() {
    let (project, mut definition, mut scope) = setup();
    let bare = solidity::Statement::Revert(None, vec![]);
    assert_eq!(
        translate_statement(&project, &mut definition, &mut scope, &bare).unwrap(),
        Statement::Expression(call(id("revert"), vec![dec(0)]))
    );
    let reason = solidity::Statement::Revert(None, vec![solidity::Expression::StringLiteral(vec!["not ".into(), "allowed".into()])]);
    assert_eq!(
        translate_statement(&project, &mut definition, &mut scope, &reason).unwrap(),
        block(vec![
            Statement::Expression(call(id("log"), vec![Expression::Literal(Literal::String("not allowed".into()))])),
            Statement::Expression(call(id("revert"), vec![dec(0)])),
        ])
    );
    let other = solidity::Statement::Revert(None, vec![var("amount")]);
    assert_eq!(translate_statement(&project, &mut definition, &mut scope, &other), Err(Error::Unsupported(Construct::RevertArguments)));
    let unknown = solidity::Statement::Revert(Some("Missing".into()), vec![]);
    assert_eq!(translate_statement(&project, &mut definition, &mut scope, &unknown), Err(Error::UnknownVariant("Missing".into())));
}

#[test]
fn emit_logs_the_event() {
    let (project, mut definition, mut scope) = setup();
    let emit = solidity::Statement::Emit(solidity::Expression::FunctionCall(Box::new(var("Transfer")), vec![var("amount")]));
    assert_eq!(
        translate_statement(&project, &mut definition, &mut scope, &emit).unwrap(),
        Statement::Expression(call(id("log"), vec![call(id("TokenEvent::Transfer"), vec![id("amount")])]))
    );
    let unknown = solidity::Statement::Emit(solidity::Expression::FunctionCall(Box::new(var("Burn")), vec![]));
    assert_eq!(translate_statement(&project, &mut definition, &mut scope, &unknown), Err(Error::UnknownVariant("Burn".into())));
    let malformed = solidity::Statement::Emit(var("Transfer"));
    assert_eq!(translate_statement(&project, &mut definition, &mut scope, &malformed), Err(Error::Unsupported(Construct::EmitExpression)));
}

#[test]
fn for_loop_becomes_a_block_with_a_while_loop() {
    let (project, mut definition, mut scope) = setup();
    let before = scope.variables.len();
    let statement = solidity::Statement::For(
        Some(Box::new(define("i", uint(64), Some(num("0"))))),
        Some(Box::new(solidity::Expression::Binary(BinaryOperator::Less, Box::new(var("i")), Box::new(var("n"))))),
        Some(Box::new(solidity::Expression::PostIncrement(Box::new(var("i"))))),
        Some(Box::new(solidity::Statement::Block {
            statements: vec![expr(assign(Some(BinaryOperator::Add), var("amount"), var("i")))],
        })),
    );
    let translated = translate_statement(&project, &mut definition, &mut scope, &statement).unwrap();
    assert_eq!(
        translated,
        block(vec![
            let_of("i", true, dec(0)),
            Statement::Expression(Expression::While(Box::new(While {
                condition: binary("<", id("i"), id("n")),
                body: Block {
                    statements: vec![
                        Statement::Expression(binary("+=", id("amount"), id("i"))),
                        Statement::Expression(binary("+=", id("i"), dec(1))),
                    ],
                    final_expr: None,
                },
            }))),
        ])
    );
    assert_eq!(scope.variables.len(), before);
    assert!(scope.get_variable_from_old_name("i").is_none());
    assert!(scope.get_variable_from_new_name("i").is_none());
    assert_eq!(scope.get_variable_from_old_name("amount").unwrap().mutation_count, 1);
}

#[test]
fn for_loop_without_parts_loops_forever() {
    let (project, mut definition, mut scope) = setup();
    let statement = solidity::Statement::For(None, None, None, None);
    assert_eq!(
        translate_statement(&project, &mut definition, &mut scope, &statement).unwrap(),
        block(vec![Statement::Expression(Expression::While(Box::new(While {
            condition: Expression::Literal(Literal::Bool(true)),
            body: Block::default(),
        })))])
    );
}

#[test]
fn mutated_variables_are_declared_mutable() {
    let (project, mut definition, mut scope) = setup();
    let statements = vec![
        define("x", uint(64), Some(num("1"))),
        define("y", uint(64), Some(num("2"))),
        define("z", uint(64), None),
        expr(assign(Some(BinaryOperator::Add), var("x"), var("y"))),
        expr(solidity::Expression::PreDecrement(Box::new(var("z")))),
    ];
    let translated = translate_block(&project, &mut definition, &mut scope, &statements).unwrap();
    assert_eq!(
        translated.statements,
        vec![
            let_of("x", true, dec(1)),
            let_of("y", false, dec(2)),
            let_of("z", true, dec(0)),
            Statement::Expression(binary("+=", id("x"), id("y"))),
            Statement::Expression(binary("-=", id("z"), dec(1))),
        ]
    );
    assert_eq!(scope.get_variable_from_old_name("x").unwrap().statement_index, Some(0));
    assert_eq!(scope.get_variable_from_old_name("y").unwrap().read_count, 1);
    assert_eq!(scope.get_variable_from_old_name("z").unwrap().mutation_count, 1);
}

#[test]
fn nested_blocks_without_shadowing_are_flattened() {
    let (project, mut definition, mut scope) = setup();
    let statements = vec![solidity::Statement::Block {
        statements: vec![define("y", uint(64), Some(num("1"))), expr(var("y"))],
    }];
    let translated = translate_block(&project, &mut definition, &mut scope, &statements).unwrap();
    assert_eq!(translated.statements, vec![let_of("y", false, dec(1)), Statement::Expression(id("y"))]);
}

#[test]
fn shadowing_blocks_stay_unless_they_end_the_block() {
    let mut outer = TranslationScope::default();
    outer.declare(local("n", "n", named("u64")));
    outer.enter();
    let shadowing = || block(vec![let_of("n", false, dec(1))]);
    let plain = || block(vec![let_of("m", false, dec(2))]);
    let mut first = Block { statements: vec![shadowing(), plain(), Statement::Expression(id("n"))], final_expr: None };
    finalize_block_translation(&outer, &mut first).unwrap();
    assert_eq!(first.statements, vec![shadowing(), let_of("m", false, dec(2)), Statement::Expression(id("n"))]);
    let mut last = Block { statements: vec![plain(), shadowing()], final_expr: Some(id("n")) };
    finalize_block_translation(&outer, &mut last).unwrap();
    assert_eq!(last.statements, vec![let_of("m", false, dec(2)), let_of("n", false, dec(1))]);
    assert_eq!(last.final_expr, Some(id("n")));
}

#[test]
fn conditionals_nest_their_branches() {
    let (project, mut definition, mut scope) = setup();
    let statement = solidity::Statement::If(
        var("amount"),
        Box::new(solidity::Statement::Continue),
        Some(Box::new(solidity::Statement::If(
            var("n"),
            Box::new(solidity::Statement::Block { statements: vec![solidity::Statement::Break] }),
            Some(Box::new(solidity::Statement::Return(None))),
        ))),
    );
    let translated = translate_statement(&project, &mut definition, &mut scope, &statement).unwrap();
    let branch = |condition: Option<Expression>, statement: Expression, else_if: Option<Box<If>>| If {
        condition,
        then_body: Block { statements: vec![Statement::Expression(statement)], final_expr: None },
        else_if,
    };
    assert_eq!(
        translated,
        Statement::Expression(Expression::If(Box::new(branch(
            Some(id("amount")),
            Expression::Continue,
            Some(Box::new(branch(
                Some(id("n")),
                Expression::Break,
                Some(Box::new(branch(None, Expression::Return(None), None))),
            ))),
        ))))
    );
}

#[test]
fn tuple_assignment_declares_its_names() {
    let (project, mut definition, mut scope) = setup();
    scope.functions.push(TranslatedFunction {
        old_name: "pair".into(),
        new_name: "pair".into(),
        parameters: Default::default(),
        constructor_calls: vec![],
        modifiers: vec![],
        return_type: Some(TypeName::Tuple { type_names: vec![named("u64"), named("bool")] }),
    });
    let list = solidity::Expression::List(vec![
        Some(solidity::Parameter { ty: uint(64), name: Some("firstValue".into()) }),
        None,
        Some(solidity::Parameter { ty: solidity::Expression::Type(solidity::Type::Bool), name: None }),
    ]);
    let statement = expr(assign(None, list, solidity::Expression::FunctionCall(Box::new(var("pair")), vec![])));
    let translated = translate_statement(&project, &mut definition, &mut scope, &statement).unwrap();
    let name = |name: &str| LetIdentifier { is_mutable: false, name: name.into() };
    assert_eq!(
        translated,
        Statement::Let(Let {
            pattern: LetPattern::Tuple(vec![name("first_value"), name("_"), name("_")]),
            ty: Some(TypeName::Tuple { type_names: vec![named("u64"), named("_"), named("bool")] }),
            value: call(id("pair"), vec![]),
        })
    );
    assert_eq!(scope.get_variable_from_old_name("firstValue").unwrap().new_name, "first_value");
    assert_eq!(definition.function_call_counts.len(), 1);
    assert_eq!(definition.function_call_counts[0].count, 1);
}

#[test]
fn new_arrays_are_built_by_a_loop() {
    let (project, mut definition, mut scope) = setup();
    let array = || solidity::Expression::ArraySubscript(Box::new(uint(64)), None);
    let created = solidity::Expression::New(Box::new(solidity::Expression::FunctionCall(Box::new(array()), vec![var("n")])));
    let statement = define("values", array(), Some(created));
    let translated = translate_statement(&project, &mut definition, &mut scope, &statement).unwrap();
    let vector = generic("Vec", vec![named("u64")]);
    assert_eq!(
        translated,
        let_of(
            "values",
            false,
            Expression::Block(Box::new(Block {
                statements: vec![
                    Statement::Let(Let {
                        pattern: LetPattern::Identifier(LetIdentifier { is_mutable: true, name: "v".into() }),
                        ty: Some(vector.clone()),
                        value: call(id("Vec::with_capacity"), vec![id("n")]),
                    }),
                    let_of("i", true, dec(0)),
                    Statement::Expression(Expression::While(Box::new(While {
                        condition: binary("<", id("i"), id("n")),
                        body: Block {
                            statements: vec![
                                Statement::Expression(call(member(id("v"), "push"), vec![dec(0)])),
                                Statement::Expression(binary("+=", id("i"), dec(1))),
                            ],
                            final_expr: None,
                        },
                    }))),
                ],
                final_expr: Some(id("v")),
            }))
        )
    );
    assert_eq!(scope.get_variable_from_old_name("values").unwrap().ty, vector);
    let mismatch = solidity::Expression::New(Box::new(solidity::Expression::FunctionCall(Box::new(uint(8)), vec![])));
    assert_eq!(
        translate_statement(&project, &mut definition, &mut scope, &define("w", uint(64), Some(mismatch))),
        Err(Error::TypeMismatch { expected: named("u64"), found: named("u8") })
    );
}

#[test]
fn unsupported_statements_are_rejected() {
    let (project, mut definition, mut scope) = setup();
    for (statement, construct) in [
        (solidity::Statement::Assembly, Construct::AssemblyStatement),
        (solidity::Statement::Args, Construct::ArgsStatement),
        (solidity::Statement::DoWhile, Construct::DoWhileStatement),
        (solidity::Statement::Try, Construct::TryStatement),
        (solidity::Statement::RevertNamedArgs, Construct::RevertNamedArgs),
        (solidity::Statement::Error, Construct::UnparsedStatement),
    ] {
        assert_eq!(translate_statement(&project, &mut definition, &mut scope, &statement), Err(Error::Unsupported(construct)));
    }
    let nameless = solidity::Statement::VariableDefinition(solidity::VariableDeclaration { ty: uint(8), name: None }, None);
    assert_eq!(translate_statement(&project, &mut definition, &mut scope, &nameless), Err(Error::MissingName));
}

#[test]
fn storage_variables_are_read_and_written() {
    let (project, mut definition, mut scope) = setup();
    let supply = || member(id("storage"), "total_supply");
    assert_eq!(translate_expression(&project, &mut definition, &mut scope, &var("totalSupply")), Ok(call(member(supply(), "read"), vec![])));
    assert_eq!(
        translate_expression(&project, &mut definition, &mut scope, &assign(None, var("totalSupply"), num("5"))),
        Ok(call(member(supply(), "write"), vec![dec(5)]))
    );
    assert_eq!(
        translate_expression(&project, &mut definition, &mut scope, &assign(Some(BinaryOperator::Subtract), var("totalSupply"), var("amount"))),
        Ok(call(member(supply(), "write"), vec![binary("-", call(member(supply(), "read"), vec![]), id("amount"))]))
    );
}

#[test]
fn expressions_keep_their_shape() {
    let (project, mut definition, mut scope) = setup();
    let sum = solidity::Expression::Binary(BinaryOperator::Add, Box::new(var("amount")), Box::new(solidity::Expression::HexNumberLiteral("0xff".into())));
    assert_eq!(
        translate_expression(&project, &mut definition, &mut scope, &sum),
        Ok(binary("+", id("amount"), Expression::Literal(Literal::HexInt(255))))
    );
    let power = solidity::Expression::Binary(BinaryOperator::Power, Box::new(var("amount")), Box::new(num("2")));
    assert_eq!(translate_expression(&project, &mut definition, &mut scope, &power), Ok(call(member(id("amount"), "pow"), vec![dec(2)])));
    let grouped = solidity::Expression::Parenthesis(Box::new(var("n")));
    assert_eq!(translate_expression(&project, &mut definition, &mut scope, &grouped), Ok(Expression::Tuple(vec![id("n")])));
    let after = solidity::Expression::PostIncrement(Box::new(var("n")));
    assert_eq!(
        translate_expression(&project, &mut definition, &mut scope, &after),
        Ok(Expression::Block(Box::new(Block {
            statements: vec![Statement::Expression(binary("+=", id("n"), dec(1)))],
            final_expr: Some(binary("-", id("n"), dec(1))),
        })))
    );
}

#[test]
fn untranslatable_expressions_are_rejected() {
    let (project, mut definition, mut scope) = setup();
    assert_eq!(translate_expression(&project, &mut definition, &mut scope, &var("missing")), Err(Error::UnknownVariable("missing".into())));
    assert_eq!(
        translate_expression(&project, &mut definition, &mut scope, &num("18446744073709551616")),
        Err(Error::InvalidLiteral("18446744073709551616".into()))
    );
    assert_eq!(translate_expression(&project, &mut definition, &mut scope, &num("18446744073709551615")), Ok(dec(u64::MAX)));
    assert_eq!(translate_expression(&project, &mut definition, &mut scope, &num("12a")), Err(Error::InvalidLiteral("12a".into())));
    assert_eq!(translate_expression(&project, &mut definition, &mut scope, &num("")), Err(Error::InvalidLiteral("".into())));
    assert_eq!(
        translate_expression(&project, &mut definition, &mut scope, &solidity::Expression::FunctionCall(Box::new(var("f")), vec![])),
        Err(Error::UnknownFunction("f".into()))
    );
    assert_eq!(translate_expression(&project, &mut definition, &mut scope, &solidity::Expression::Other), Err(Error::Unsupported(Construct::Expression)));
    let element = solidity::Expression::ArraySubscript(Box::new(var("missing")), Some(Box::new(num("0"))));
    assert_eq!(
        translate_expression(&project, &mut definition, &mut scope, &assign(None, element, num("2"))),
        Err(Error::UnknownVariable("missing".into()))
    );
}

#[test]
fn elements_are_assigned_and_stepped_in_place() {
    let (project, mut definition, mut scope) = setup();
    scope.declare(local("values", "values", TypeName::Array { ty: Box::new(named("u64")), length: 3 }));
    let element = || solidity::Expression::ArraySubscript(Box::new(var("values")), Some(Box::new(var("n"))));
    let place = || Expression::ArrayAccess(Box::new(ArrayAccess { expression: id("values"), index: id("n") }));
    for step in [
        solidity::Expression::PreIncrement(Box::new(element())),
        solidity::Expression::PostIncrement(Box::new(element())),
    ] {
        assert_eq!(
            translate_statement(&project, &mut definition, &mut scope, &expr(step)),
            Ok(Statement::Expression(binary("+=", place(), dec(1))))
        );
    }
    for step in [
        solidity::Expression::PreDecrement(Box::new(element())),
        solidity::Expression::PostDecrement(Box::new(element())),
    ] {
        assert_eq!(
            translate_statement(&project, &mut definition, &mut scope, &expr(step)),
            Ok(Statement::Expression(binary("-=", place(), dec(1))))
        );
    }
    assert_eq!(
        translate_expression(&project, &mut definition, &mut scope, &assign(None, element(), num("7"))),
        Ok(binary("=", place(), dec(7)))
    );
    assert_eq!(
        translate_expression(&project, &mut definition, &mut scope, &assign(Some(BinaryOperator::Multiply), element(), var("amount"))),
        Ok(binary("*=", place(), id("amount")))
    );
    assert_eq!(
        translate_expression(&project, &mut definition, &mut scope, &assign(Some(BinaryOperator::Power), element(), num("2"))),
        Err(Error::Unsupported(Construct::Expression))
    );
    assert_eq!(scope.get_variable_from_old_name("values").unwrap().mutation_count, 0);
}

#[test]
fn blocks_that_shadow_the_own_scope_stay() {
    let mut scope = TranslationScope::default();
    scope.enter();
    scope.declare(TranslatedVariable { statement_index: Some(0), ..local("x", "x", named("u64")) });
    let inner = || block(vec![let_of("x", false, dec(2))]);
    let mut outer = Block {
        statements: vec![let_of("x", false, dec(1)), inner(), Statement::Expression(id("x"))],
        final_expr: None,
    };
    assert_eq!(finalize_block_translation(&scope, &mut outer), Ok(()));
    assert_eq!(outer.statements, vec![let_of("x", false, dec(1)), inner(), Statement::Expression(id("x"))]);
    let free = || block(vec![let_of("y", false, dec(2))]);
    let mut other = Block { statements: vec![let_of("x", false, dec(1)), free(), Statement::Expression(id("x"))], final_expr: None };
    assert_eq!(finalize_block_translation(&scope, &mut other), Ok(()));
    assert_eq!(other.statements, vec![let_of("x", false, dec(1)), let_of("y", false, dec(2)), Statement::Expression(id("x"))]);
}

#[test]
fn a_mutated_variable_needs_its_declaration() {
    let mut scope = TranslationScope::default();
    scope.declare(TranslatedVariable { statement_index: Some(1), mutation_count: 1, ..local("x", "x", named("u64")) });
    scope.declare(TranslatedVariable { statement_index: Some(0), mutation_count: 1, ..local("y", "y", named("u64")) });
    let statements = || vec![let_of("y", false, dec(1)), Statement::Expression(id("y"))];
    let mut misplaced = Block { statements: statements(), final_expr: None };
    assert_eq!(finalize_block_translation(&scope, &mut misplaced), Err(Error::MisplacedDeclaration("x".into())));
    assert_eq!(misplaced.statements, statements());
    let mut short = Block { statements: vec![let_of("y", false, dec(1))], final_expr: None };
    assert_eq!(finalize_block_translation(&scope, &mut short), Err(Error::MisplacedDeclaration("x".into())));
    let mut unread = TranslationScope::default();
    unread.declare(TranslatedVariable { statement_index: Some(1), mutation_count: 0, ..local("x", "x", named("u64")) });
    unread.declare(TranslatedVariable { statement_index: Some(0), mutation_count: 2, ..local("y", "y", named("u64")) });
    let mut fine = Block { statements: statements(), final_expr: None };
    assert_eq!(finalize_block_translation(&unread, &mut fine), Ok(()));
    assert_eq!(fine.statements, vec![let_of("y", true, dec(1)), Statement::Expression(id("y"))]);
}

#[test]
fn number_literals_with_an_exponent_or_a_unit_are_not_read() {
    assert!(matches!(solidity::Expression::number_literal("12".into(), "", false), solidity::Expression::NumberLiteral(d) if d == "12"));
    assert!(matches!(solidity::Expression::number_literal("12".into(), "3", false), solidity::Expression::Other));
    assert!(matches!(solidity::Expression::number_literal("12".into(), "", true), solidity::Expression::Other));
    assert!(matches!(solidity::Expression::hex_number_literal("0x1f".into(), false), solidity::Expression::HexNumberLiteral(d) if d == "0x1f"));
    assert!(matches!(solidity::Expression::hex_number_literal("0x1f".into(), true), solidity::Expression::Other));
}

#[test]
fn an_error_inside_a_block_or_a_loop_leaves_the_scope_as_it_was() {
    let (project, mut definition, mut scope) = setup();
    scope.declare(local("k", "k", named("u64")));
    let before = scope.clone();
    let failing = solidity::Statement::Block { statements: vec![define("x", uint(64), None), expr(var("n")), expr(var("missing"))] };
    assert_eq!(translate_statement(&project, &mut definition, &mut scope, &failing), Err(Error::UnknownVariable("missing".into())));
    assert_eq!(scope, before);
    let looping = solidity::Statement::For(
        Some(Box::new(define("i", uint(64), Some(var("k"))))),
        None,
        None,
        Some(Box::new(expr(var("missing")))),
    );
    assert_eq!(translate_statement(&project, &mut definition, &mut scope, &looping), Err(Error::UnknownVariable("missing".into())));
    assert_eq!(scope, before);
    assert!(scope.parent.is_some());
}
