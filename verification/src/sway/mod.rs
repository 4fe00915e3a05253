//! The syntax tree of the target language.
//!
//! Every node owns its children. A node's mathematical value is its
//! `model()` (also written `@`): strings become sequences of characters and
//! vectors become sequences of values. Contracts throughout the crate are
//! stated over these values.

use vstd::prelude::*;

pub use self::display::{TabbedDisplay, TabbedDisplayer};

pub mod model;
pub mod clone;
pub mod eq;
pub mod default;
pub mod typing;
pub mod module;
pub mod shapes;
pub mod render;
pub mod display;
pub mod convert;

verus! {

/// The kind of program a module declares on its first line.
#[derive(Debug)]
pub enum ModuleKind {
    Contract,
    Library,
    Script,
    Predicate,
}

/// A whole target-language source file: its kind and its items in order.
#[derive(Debug)]
pub struct Module {
    pub kind: ModuleKind,
    pub items: Vec<ModuleItem>,
}

/// One top-level item of a module.
#[derive(Debug)]
pub enum ModuleItem {
    Use(Use),
    TypeDefinition(TypeDefinition),
    Constant(Constant),
    Struct(Struct),
    Enum(Enum),
    Abi(Abi),
    Trait(Trait),
    Storage(Storage),
    Configurable(Configurable),
    Function(Function),
    Impl(Impl),
}

/// A `use` declaration.
#[derive(Debug)]
pub struct Use {
    pub is_public: bool,
    pub tree: UseTree,
}

/// The path imported by a `use` declaration.
#[derive(Debug)]
pub enum UseTree {
    Path {
        prefix: String,
        suffix: Box<UseTree>,
    },
    Group {
        imports: Vec<UseTree>,
    },
    Name {
        name: String,
    },
    Rename {
        name: String,
        alias: String,
    },
    Glob,
}

/// One generic parameter, with the traits it is bound by.
#[derive(Debug)]
pub struct GenericParameter {
    pub ty: TypeName,
    pub implements: Option<Vec<TypeName>>,
}

/// The generic parameters between `<` and `>`.
#[derive(Debug)]
pub struct GenericParameterList {
    pub entries: Vec<GenericParameter>,
}

/// One attribute, such as `storage(read)`.
#[derive(Debug)]
pub struct Attribute {
    pub name: String,
    pub parameters: Option<Vec<String>>,
}

/// The attributes of one `#[...]` line.
#[derive(Debug)]
pub struct AttributeList {
    pub attributes: Vec<Attribute>,
}

/// The name of a target-language type.
#[derive(Debug)]
pub enum TypeName {
    Undefined,
    Identifier {
        name: String,
        generic_parameters: Option<GenericParameterList>,
    },
    Array {
        ty: Box<TypeName>,
        length: usize,
    },
    Tuple {
        type_names: Vec<TypeName>,
    },
    StringSlice,
    StringArray {
        length: usize,
    },
}

/// A `type` alias, with or without its underlying type.
#[derive(Debug)]
pub struct TypeDefinition {
    pub is_public: bool,
    pub name: TypeName,
    pub underlying_type: Option<TypeName>,
}

/// A `const` declaration.
#[derive(Debug)]
pub struct Constant {
    pub is_public: bool,
    pub name: String,
    pub ty: TypeName,
    pub value: Option<Expression>,
}

/// A literal value.
#[derive(Debug)]
pub enum Literal {
    Bool(bool),
    DecInt(u64),
    HexInt(u64),
    String(String),
}

/// A `struct` declaration.
#[derive(Debug)]
pub struct Struct {
    pub attributes: Option<AttributeList>,
    pub is_public: bool,
    pub name: String,
    pub generic_parameters: Option<GenericParameterList>,
    pub fields: Vec<StructField>,
}

/// One field of a struct declaration.
#[derive(Debug)]
pub struct StructField {
    pub is_public: bool,
    pub name: String,
    pub ty: TypeName,
}

/// An `enum` declaration.
#[derive(Debug)]
pub struct Enum {
    pub attributes: Option<AttributeList>,
    pub is_public: bool,
    pub name: String,
    pub generic_parameters: Option<GenericParameterList>,
    pub variants: Vec<EnumVariant>,
}

/// One variant of an enum declaration.
#[derive(Debug)]
pub struct EnumVariant {
    pub name: String,
    pub ty: TypeName,
}

/// An `abi` declaration: the callable interface of a contract.
#[derive(Debug)]
pub struct Abi {
    pub name: String,
    pub inherits: Vec<String>,
    pub functions: Vec<Function>,
}

/// A `trait` declaration.
#[derive(Debug)]
pub struct Trait {
    pub attributes: Option<AttributeList>,
    pub is_public: bool,
    pub name: String,
    pub generic_parameters: Option<GenericParameterList>,
    pub items: Vec<TraitItem>,
}

/// One item of a trait declaration.
#[derive(Debug)]
pub enum TraitItem {
    Constant(Constant),
    TypeName(GenericParameter),
    Function(Function),
}

/// The `storage` block of a contract.
#[derive(Debug)]
pub struct Storage {
    pub fields: Vec<StorageField>,
}

/// One field of a storage block, with its initial value.
#[derive(Debug)]
pub struct StorageField {
    pub name: String,
    pub ty: TypeName,
    pub value: Expression,
}

/// The `configurable` block of a contract.
#[derive(Debug)]
pub struct Configurable {
    pub fields: Vec<ConfigurableField>,
}

/// One field of a configurable block, with its value.
#[derive(Debug)]
pub struct ConfigurableField {
    pub name: String,
    pub ty: TypeName,
    pub value: Expression,
}

/// A function, declared only (no body) or defined.
#[derive(Debug)]
pub struct Function {
    pub attributes: Option<AttributeList>,
    pub is_public: bool,
    pub name: String,
    pub generic_parameters: Option<GenericParameterList>,
    pub parameters: ParameterList,
    pub return_type: Option<TypeName>,
    pub body: Option<Block>,
}

/// One parameter of a function.
#[derive(Debug)]
pub struct Parameter {
    pub is_ref: bool,
    pub is_mut: bool,
    pub name: String,
    pub ty: Option<TypeName>,
}

/// The parameters of a function, in order.
#[derive(Debug)]
pub struct ParameterList {
    pub entries: Vec<Parameter>,
}

/// An `impl` block, for a type or of one type for another.
#[derive(Debug)]
pub struct Impl {
    pub generic_parameters: Option<GenericParameterList>,
    pub ty: TypeName,
    pub for_type_name: Option<TypeName>,
    pub items: Vec<ImplItem>,
}

/// One item of an impl block.
#[derive(Debug)]
pub enum ImplItem {
    Constant(Constant),
    TypeDefinition(TypeDefinition),
    Function(Function),
}

/// A block: statements in order and an optional final expression.
#[derive(Debug)]
pub struct Block {
    pub statements: Vec<Statement>,
    pub final_expr: Option<Expression>,
}

/// A statement of a block.
#[derive(Debug)]
pub enum Statement {
    Let(Let),
    Expression(Expression),
}

/// A `let` declaration.
#[derive(Debug)]
pub struct Let {
    pub pattern: LetPattern,
    pub ty: Option<TypeName>,
    pub value: Expression,
}

/// What a `let` declaration binds: one name or a tuple of names.
#[derive(Debug)]
pub enum LetPattern {
    Identifier(LetIdentifier),
    Tuple(Vec<LetIdentifier>),
}

/// One name bound by a `let` declaration.
#[derive(Debug)]
pub struct LetIdentifier {
    pub is_mutable: bool,
    pub name: String,
}

/// An expression.
#[derive(Debug)]
pub enum Expression {
    Literal(Literal),
    Identifier(String),
    FunctionCall(Box<FunctionCall>),
    Block(Box<Block>),
    Return(Option<Box<Expression>>),
    Array(Array),
    ArrayAccess(Box<ArrayAccess>),
    MemberAccess(Box<MemberAccess>),
    Tuple(Vec<Expression>),
    If(Box<If>),
    Match(Box<Match>),
    While(Box<While>),
    UnaryExpression(Box<UnaryExpression>),
    BinaryExpression(Box<BinaryExpression>),
    Constructor(Box<Constructor>),
    Continue,
    Break,
    AsmBlock(Box<AsmBlock>),
    Commented(String, Box<Expression>),
}

/// A call: the callee, its generic arguments and its arguments.
#[derive(Debug)]
pub struct FunctionCall {
    pub function: Expression,
    pub generic_parameters: Option<GenericParameterList>,
    pub parameters: Vec<Expression>,
}

/// An array literal.
#[derive(Debug)]
pub struct Array {
    pub elements: Vec<Expression>,
}

/// An indexing expression.
#[derive(Debug)]
pub struct ArrayAccess {
    pub expression: Expression,
    pub index: Expression,
}

/// A member access `expression.member`.
#[derive(Debug)]
pub struct MemberAccess {
    pub expression: Expression,
    pub member: String,
}

/// A conditional; a final `else` is an `If` without a condition.
#[derive(Debug)]
pub struct If {
    pub condition: Option<Expression>,
    pub then_body: Block,
    pub else_if: Option<Box<If>>,
}

/// A `match` expression.
#[derive(Debug)]
pub struct Match {
    pub expression: Expression,
    pub branches: Vec<MatchBranch>,
}

/// One arm of a `match` expression.
#[derive(Debug)]
pub struct MatchBranch {
    pub pattern: Expression,
    pub value: Expression,
}

/// A `while` loop.
#[derive(Debug)]
pub struct While {
    pub condition: Expression,
    pub body: Block,
}

/// A prefix operator applied to an expression.
#[derive(Debug)]
pub struct UnaryExpression {
    pub operator: String,
    pub expression: Expression,
}

/// An infix operator applied to two expressions.
#[derive(Debug)]
pub struct BinaryExpression {
    pub operator: String,
    pub lhs: Expression,
    pub rhs: Expression,
}

/// A struct literal.
#[derive(Debug)]
pub struct Constructor {
    pub ty: TypeName,
    pub fields: Vec<ConstructorField>,
}

/// One field of a struct literal.
#[derive(Debug)]
pub struct ConstructorField {
    pub name: String,
    pub value: Expression,
}

/// An `asm` block.
#[derive(Debug)]
pub struct AsmBlock {
    pub registers: Vec<AsmRegister>,
    pub instructions: Vec<AsmInstruction>,
    pub final_expression: Option<AsmFinalExpression>,
}

/// One register of an asm block, with its initial value.
#[derive(Debug)]
pub struct AsmRegister {
    pub name: String,
    pub value: Option<Expression>,
}

/// One instruction of an asm block.
#[derive(Debug)]
pub struct AsmInstruction {
    pub op_code: String,
    pub args: Vec<String>,
}

/// The register an asm block returns, with its type.
#[derive(Debug)]
pub struct AsmFinalExpression {
    pub register: String,
    pub ty: Option<TypeName>,
}

} // verus!
