use charcoal::errors::{Construct, Error};
use charcoal::project::load_line_ranges;
use charcoal::solidity::ContractTy;
use charcoal::sway::display::{TabbedDisplay, TabbedDisplayer};
use charcoal::sway::render::{render_expression, render_impl, render_statement, show_type_name, show_use};
use charcoal::sway::{
    Abi, AsmBlock, AsmFinalExpression, AsmInstruction, AsmRegister, Attribute, AttributeList, BinaryExpression, Block,
    Configurable, ConfigurableField, Constant, Constructor, ConstructorField, Enum, EnumVariant, Expression, Function,
    FunctionCall, GenericParameter, GenericParameterList, If, Impl, ImplItem, Let, LetIdentifier, LetPattern, Literal,
    Match, MatchBranch, MemberAccess, Module, ModuleItem, ModuleKind, Parameter, ParameterList, Statement, Storage,
    StorageField, Struct, StructField, TypeDefinition, TypeName, UnaryExpression, Use, UseTree, While,
};
use charcoal::translate::TranslatedDefinition;

fn named(name: &str) -> TypeName {
    TypeName::Identifier { name: name.into(), generic_parameters: None }
}

fn generic(name: &str, arguments: Vec<TypeName>) -> TypeName {
    TypeName::Identifier {
        name: name.into(),
        generic_parameters: Some(GenericParameterList {
            entries: arguments.into_iter().map(|ty| GenericParameter { ty, implements: None }).collect(),
        }),
    }
}

fn id(name: &str) -> Expression {
    Expression::Identifier(name.into())
}

fn dec(value: u64) -> Expression {
    Expression::Literal(Literal::DecInt(value))
}

fn function(name: &str, body: Option<Block>) -> Function {
    Function {
        attributes: None,
        is_public: false,
        name: name.into(),
        generic_parameters: None,
        parameters: ParameterList::default(),
        return_type: None,
        body,
    }
}

#[test]
fn test() {
    // Create a new contract module
    let mut module = Module { kind: ModuleKind::Contract, items: vec![] };

    // Add a `use` statement:
    // use std::storage::storage_vec::*;
    module.items.push(ModuleItem::Use(Use {
        is_public: false,
        tree: UseTree::Path {
            prefix: "std".into(),
            suffix: Box::new(UseTree::Path {
                prefix: "storage".into(),
                suffix: Box::new(UseTree::Path { prefix: "storage_vec".into(), suffix: Box::new(UseTree::Glob) }),
            }),
        },
    }));

    // Add a test function:
    // fn test() {
    //     return;
    // }
    module.items.push(ModuleItem::Function(Function {
        attributes: None,
        is_public: true,
        name: "test".into(),
        generic_parameters: None,
        parameters: ParameterList::default(),
        return_type: None,
        body: Some(Block { statements: vec![Statement::Expression(Expression::Return(None))], final_expr: None }),
    }));

    // Display the generated contract module
    println!("{}", TabbedDisplayer(&module).text());
    assert_eq!(
        TabbedDisplayer(&module).text(),
        "contract;\n\nuse std::storage::storage_vec::*;\n\npub fn test() {\n    return;\n}\n"
    );
}

#[test]
fn types_are_shown() {
    assert_eq!(show_type_name(&named("u64")), "u64");
    assert_eq!(show_type_name(&generic("StorageMap", vec![named("Identity"), generic("Vec", vec![named("u8")])])), "StorageMap<Identity, Vec<u8>>");
    assert_eq!(show_type_name(&TypeName::Array { ty: Box::new(named("u8")), length: 32 }), "[u8; 32]");
    assert_eq!(show_type_name(&TypeName::Tuple { type_names: vec![named("u64"), TypeName::StringSlice] }), "(u64, str)");
    assert_eq!(show_type_name(&TypeName::Tuple { type_names: vec![] }), "()");
    assert_eq!(show_type_name(&TypeName::StringArray { length: 1205 }), "str[1205]");
    assert_eq!(show_type_name(&TypeName::StringArray { length: 0 }), "str[0]");
    assert_eq!(show_type_name(&TypeName::Undefined), "_");
    let bounded = TypeName::Identifier {
        name: "Box".into(),
        generic_parameters: Some(GenericParameterList {
            entries: vec![GenericParameter { ty: named("T"), implements: Some(vec![named("Eq"), named("Hash")]) }],
        }),
    };
    assert_eq!(show_type_name(&bounded), "Box<T: Eq + Hash>");
}

#[test]
fn imports_are_shown() {
    let tree = UseTree::Path {
        prefix: "std".into(),
        suffix: Box::new(UseTree::Group {
            imports: vec![
                UseTree::Name { name: "bytes".into() },
                UseTree::Rename { name: "hash".into(), alias: "h".into() },
                UseTree::Glob,
            ],
        }),
    };
    assert_eq!(show_use(&Use { is_public: true, tree }), "pub use std::{bytes, hash as h, *};");
}

#[test]
fn expressions_are_rendered() {
    let text = |e: Expression| render_expression(&e, 0);
    assert_eq!(text(Expression::Literal(Literal::Bool(true))), "true");
    assert_eq!(text(Expression::Literal(Literal::Bool(false))), "false");
    assert_eq!(text(dec(0)), "0");
    assert_eq!(text(dec(u64::MAX)), "18446744073709551615");
    assert_eq!(text(Expression::Literal(Literal::HexInt(0))), "0x0");
    assert_eq!(text(Expression::Literal(Literal::HexInt(0xDEADBEEF))), "0xDEADBEEF");
    assert_eq!(text(Expression::Literal(Literal::String("hi".into()))), "\"hi\"");
    let call = Expression::FunctionCall(Box::new(FunctionCall {
        function: Expression::MemberAccess(Box::new(MemberAccess { expression: id("storage"), member: "total".into() })),
        generic_parameters: Some(GenericParameterList { entries: vec![GenericParameter { ty: named("u64"), implements: None }] }),
        parameters: vec![id("a"), dec(2)],
    }));
    assert_eq!(text(call), "storage.total::<u64>(a, 2)");
    assert_eq!(text(Expression::Return(Some(Box::new(id("x"))))), "return x");
    assert_eq!(text(Expression::Tuple(vec![id("a"), id("b")])), "(a, b)");
    assert_eq!(text(Expression::UnaryExpression(Box::new(UnaryExpression { operator: "!".into(), expression: id("done") }))), "!done");
    assert_eq!(
        text(Expression::BinaryExpression(Box::new(BinaryExpression { operator: "+=".into(), lhs: id("i"), rhs: dec(1) }))),
        "i += 1"
    );
    assert_eq!(text(Expression::Commented("was: x".into(), Box::new(Expression::Continue))), "/*was: x*/ continue");
    assert_eq!(text(Expression::Break), "break");
    let constructor = Expression::Constructor(Box::new(Constructor {
        ty: named("Point"),
        fields: vec![ConstructorField { name: "x".into(), value: dec(1) }, ConstructorField { name: "y".into(), value: dec(2) }],
    }));
    assert_eq!(render_expression(&constructor, 1), "Point {\n        x: 1\n        y: 2\n}");
    assert_eq!(text(Expression::Constructor(Box::new(Constructor { ty: named("Unit"), fields: vec![] }))), "Unit {}");
}

#[test]
fn blocks_are_indented_by_their_depth() {
    let body = |statement: Expression| Block { statements: vec![Statement::Expression(statement)], final_expr: None };
    let conditional = Expression::If(Box::new(If {
        condition: Some(id("a")),
        then_body: body(Expression::Break),
        else_if: Some(Box::new(If {
            condition: Some(id("b")),
            then_body: Block { statements: vec![], final_expr: Some(dec(1)) },
            else_if: Some(Box::new(If { condition: None, then_body: Block::default(), else_if: None })),
        })),
    }));
    assert_eq!(
        render_statement(&Statement::Expression(conditional), 1),
        "if a {\n        break;\n    } else if b {\n        1\n    } else {\n    }"
    );
    let looping = Expression::While(Box::new(While {
        condition: id("going"),
        body: body(Expression::Match(Box::new(Match {
            expression: id("x"),
            branches: vec![MatchBranch { pattern: dec(0), value: id("zero") }],
        }))),
    }));
    assert_eq!(render_expression(&looping, 0), "while going {\n    match x {\n        0 => zero,\n    }\n}");
    let declaration = Statement::Let(Let {
        pattern: LetPattern::Tuple(vec![
            LetIdentifier { is_mutable: true, name: "a".into() },
            LetIdentifier { is_mutable: false, name: "b".into() },
        ]),
        ty: Some(TypeName::Tuple { type_names: vec![named("u8"), named("bool")] }),
        value: id("pair"),
    });
    assert_eq!(render_statement(&declaration, 0), "let (mut a, b): (u8, bool) = pair;");
    let assembly = Expression::AsmBlock(Box::new(AsmBlock {
        registers: vec![
            AsmRegister { name: "r1".into(), value: Some(id("x")) },
            AsmRegister { name: "r2".into(), value: None },
        ],
        instructions: vec![AsmInstruction { op_code: "add".into(), args: vec!["r2".into(), "r1".into(), "r1".into()] }],
        final_expression: Some(AsmFinalExpression { register: "r2".into(), ty: Some(named("u64")) }),
    }));
    assert_eq!(render_expression(&assembly, 0), "asm (r1: x, r2) {\n    add r2 r1 r1;\n    r2: u64\n}");
}

#[test]
fn impl_items_are_separated_unless_both_are_constants() {
    let constant = |name: &str| ImplItem::Constant(Constant { is_public: false, name: name.into(), ty: named("u8"), value: Some(dec(1)) });
    let block = Impl {
        generic_parameters: None,
        ty: named("Color"),
        for_type_name: None,
        items: vec![
            constant("RED"),
            constant("BLUE"),
            ImplItem::Function(function("mix", None)),
            constant("GREEN"),
            ImplItem::TypeDefinition(TypeDefinition { is_public: true, name: named("Shade"), underlying_type: Some(named("u8")) }),
        ],
    };
    assert_eq!(
        render_impl(&block, 0),
        "impl Color {\n    const RED: u8 = 1;\n    const BLUE: u8 = 1;\n\n    fn mix();\n\n    const GREEN: u8 = 1;\n\n        pub type Shade = u8;\n}"
    );
    let traited = Impl { for_type_name: Some(named("Contract")), ty: named("Token"), ..Default::default() };
    assert_eq!(render_impl(&traited, 0), "impl Token for Contract {\n}");
}

#[test]
fn items_are_rendered() {
    let point = Struct {
        attributes: Some(AttributeList { attributes: vec![Attribute { name: "derive".into(), parameters: Some(vec!["Eq".into(), "Hash".into()]) }, Attribute { name: "test".into(), parameters: None }] }),
        is_public: true,
        name: "Point".into(),
        generic_parameters: None,
        fields: vec![StructField { is_public: true, name: "x".into(), ty: named("u64") }, StructField { is_public: false, name: "y".into(), ty: named("u64") }],
    };
    assert_eq!(point.tabbed_text(0), "#[derive(Eq, Hash), test]\npub struct Point {\n    pub x: u64,\n    y: u64,\n}");
    let event = Enum {
        name: "TokenEvent".into(),
        variants: vec![EnumVariant { name: "Transfer".into(), ty: TypeName::Tuple { type_names: vec![named("u64"), named("u64")] } }],
        ..Default::default()
    };
    assert_eq!(event.tabbed_text(1), "enum TokenEvent {\n        Transfer: (u64, u64),\n    }");
    let abi = Abi {
        name: "Token".into(),
        inherits: vec!["Ownable".into(), "Pausable".into()],
        functions: vec![
            Function {
                attributes: Some(AttributeList { attributes: vec![Attribute { name: "storage".into(), parameters: Some(vec!["read".into()]) }] }),
                parameters: ParameterList {
                    entries: vec![
                        Parameter { is_ref: true, is_mut: true, name: "a".into(), ty: Some(named("Identity")) },
                        Parameter { is_ref: false, is_mut: false, name: "b".into(), ty: None },
                    ],
                },
                return_type: Some(named("u64")),
                ..function("balance_of", None)
            },
            function("pause", None),
        ],
    };
    assert_eq!(
        abi.tabbed_text(0),
        "abi Token: Ownable + Pausable {\n    #[storage(read)]\n    fn balance_of(ref mut a: Identity, b) -> u64;\n\n    fn pause();\n}"
    );
    let storage = Storage { fields: vec![StorageField { name: "total".into(), ty: named("u64"), value: dec(0) }] };
    assert_eq!(storage.tabbed_text(0), "storage {\n    total: u64 = 0,\n}");
    let configurable = Configurable { fields: vec![ConfigurableField { name: "OWNER".into(), ty: named("b256"), value: id("ZERO") }] };
    assert_eq!(configurable.tabbed_text(0), "configurable {\n    OWNER: b256 = ZERO,\n}\n");
    assert_eq!(named("u8").tabbed_text(2), "        u8");
    assert_eq!(ModuleKind::Library.tabbed_text(0), "library");
}

#[test]
fn definitions_are_rendered_in_sections() {
    let mut d = TranslatedDefinition::new("", ContractTy::Contract, "Token", &vec![]);
    assert_eq!(d.render(), "");
    d.ensure_use_declared("std::hash::Hash");
    d.ensure_use_declared("std::bytes::Bytes");
    d.constants.push(Constant { is_public: true, name: "MAX".into(), ty: named("u64"), value: Some(dec(9)) });
    d.constants.push(Constant { is_public: false, name: "MIN".into(), ty: named("u64"), value: None });
    d.functions.push(function("first", Some(Block::default())));
    d.functions.push(function("second", None));
    d.get_storage();
    assert_eq!(
        d.render(),
        "use std::hash::Hash;\nuse std::bytes::Bytes;\n\npub const MAX: u64 = 9;\nconst MIN: u64;\n\nstorage {\n}\n\nfn first() {\n}\n\nfn second();\n"
    );
}

#[test]
fn errors_say_what_went_wrong() {
    assert_eq!(Error::UnknownVariable("x".into()).message(), "unknown variable `x`");
    assert_eq!(Error::UnknownFunction("f".into()).message(), "unknown function `f`");
    assert_eq!(Error::UnknownType("T".into()).message(), "unknown type `T`");
    assert_eq!(Error::UnknownVariant("E".into()).message(), "unknown event or error `E`");
    assert_eq!(Error::InvalidBitWidth(300).message(), "invalid integer width `300`");
    assert_eq!(Error::InvalidLiteral("1x".into()).message(), "invalid number literal `1x`");
    assert_eq!(Error::TypeMismatch { expected: named("u8"), found: generic("Vec", vec![named("u8")]) }.message(), "expected the type `u8`, found `Vec<u8>`");
    assert_eq!(Error::ExpectedTuple(named("u8")).message(), "expected a tuple type, found `u8`");
    let call = Expression::FunctionCall(Box::new(FunctionCall { function: id("f"), generic_parameters: None, parameters: vec![dec(1)] }));
    assert_eq!(Error::NoTypeRule(call).message(), "no typing rule for `f(1)`");
    assert_eq!(Error::Unsupported(Construct::TryStatement).message(), "`try` statements are not translated");
    assert!(!Error::MissingName.message().is_empty());
    assert!(!Error::UndefinedType.message().is_empty());
    assert!(!Error::InvalidArrayLength.message().is_empty());
}

#[test]
fn dependencies_are_kept_in_order() {
    let mut d = TranslatedDefinition::new("", ContractTy::Contract, "Token", &vec![]);
    d.ensure_dependency_declared("std");
    d.ensure_dependency_declared("core");
    d.ensure_dependency_declared("std");
    d.ensure_dependency_declared("alloc");
    assert_eq!(d.dependencies, vec!["alloc".to_string(), "core".to_string(), "std".to_string()]);
}

#[test]
fn lines_end_at_line_breaks() {
    assert_eq!(load_line_ranges(""), vec![]);
    assert_eq!(load_line_ranges("no line break"), vec![]);
    assert_eq!(load_line_ranges("ab\n\ncd\nrest"), vec![(0, 2), (3, 3), (4, 6)]);
    assert_eq!(load_line_ranges("\n"), vec![(0, 0)]);
}

#[test]
fn nodes_become_the_nodes_that_hold_them() {
    let declaration = Let { pattern: LetPattern::from(LetIdentifier { is_mutable: false, name: "x".into() }), ty: None, value: dec(1) };
    assert!(matches!(Statement::from(declaration), Statement::Let(_)));
    assert_eq!(Statement::from(dec(1)), Statement::Expression(dec(1)));
    assert_eq!(Expression::from(Literal::Bool(true)), Expression::Literal(Literal::Bool(true)));
    assert_eq!(Expression::from(Block::default()), Expression::Block(Box::new(Block::default())));
    assert_eq!(LetPattern::from(vec![]), LetPattern::Tuple(vec![]));
    assert_eq!(Expression::create_unimplemented(Some("later".into())), Expression::FunctionCall(Box::new(FunctionCall {
        function: id("unimplemented!"),
        generic_parameters: None,
        parameters: vec![Expression::Literal(Literal::String("later".into()))],
    })));
}
