//! The syntax tree of the source language, as far as the translator reads it.
//!
//! A parser produces these values. Source positions are not kept, and forms
//! that the translator rejects whatever they contain carry no contents.

use vstd::prelude::*;

verus! {

/// A built-in type of the source language.
#[derive(Debug)]
pub enum Type {
    Address,
    AddressPayable,
    Payable,
    Bool,
    String,
    /// A signed integer of the given width in bits.
    Int(u16),
    /// An unsigned integer of the given width in bits.
    Uint(u16),
    /// A byte array of the given fixed length.
    Bytes(u8),
    Rational,
    DynamicBytes,
    Mapping { key: Box<Expression>, value: Box<Expression> },
    Function,
}

/// A prefix operator without side effect on its operand's binding.
#[derive(Debug, Clone, Copy, PartialEq, Eq)]
pub enum UnaryOperator {
    Not,
    BitwiseNot,
    Negate,
    UnaryPlus,
    Delete,
}

/// An infix operator.
#[derive(Debug, Clone, Copy, PartialEq, Eq)]
pub enum BinaryOperator {
    Power,
    Multiply,
    Divide,
    Modulo,
    Add,
    Subtract,
    ShiftLeft,
    ShiftRight,
    BitwiseAnd,
    BitwiseXor,
    BitwiseOr,
    Less,
    More,
    LessEqual,
    MoreEqual,
    Equal,
    NotEqual,
    And,
    Or,
}

/// An expression. Type names are expressions too.
#[derive(Debug)]
pub enum Expression {
    BoolLiteral(bool),
    /// A decimal number literal: its digits.
    NumberLiteral(String),
    /// A hexadecimal number literal: its text, with the `0x` prefix.
    HexNumberLiteral(String),
    /// Adjacent string literals, which stand for their concatenation.
    StringLiteral(Vec<String>),
    Type(Type),
    Variable(String),
    MemberAccess(Box<Expression>, String),
    /// `a[i]`, or the array type `T[n]`; without an index, the array type `T[]`.
    ArraySubscript(Box<Expression>, Option<Box<Expression>>),
    FunctionCall(Box<Expression>, Vec<Expression>),
    New(Box<Expression>),
    Parenthesis(Box<Expression>),
    Unary(UnaryOperator, Box<Expression>),
    PreIncrement(Box<Expression>),
    PreDecrement(Box<Expression>),
    PostIncrement(Box<Expression>),
    PostDecrement(Box<Expression>),
    Binary(BinaryOperator, Box<Expression>, Box<Expression>),
    /// An assignment: plain (`=`) without an operator, compound (`+=`) with one.
    Assign(Option<BinaryOperator>, Box<Expression>, Box<Expression>),
    ConditionalOperator(Box<Expression>, Box<Expression>, Box<Expression>),
    /// A parenthesised list of declarations, as on the left of `(a, b) = f()`.
    List(Vec<Option<Parameter>>),
    ArrayLiteral(Vec<Expression>),
    /// Any other form: slices, calls with named arguments or call options,
    /// rational, hexadecimal-string and address literals.
    Other,
}

impl Expression {
    /// What a decimal number literal is read as: the literal of its
    /// digits if it has neither an exponent nor a unit, and a form that is
    /// not translated otherwise.
    pub fn number_literal(digits: String, exponent: &str, has_unit: bool) -> (r: Expression)
        ensures
            r == if exponent@.len() == 0 && !has_unit {
                Expression::NumberLiteral(digits)
            } else {
                Expression::Other
            },
    {
        if exponent.unicode_len() == 0 && !has_unit {
            Expression::NumberLiteral(digits)
        } else {
            Expression::Other
        }
    }

    /// What a hexadecimal number literal is read as: the literal of its
    /// text if it has no unit, and a form that is not translated otherwise.
    pub fn hex_number_literal(text: String, has_unit: bool) -> (r: Expression)
        ensures
            r == if has_unit {
                Expression::Other
            } else {
                Expression::HexNumberLiteral(text)
            },
    {
        if has_unit {
            Expression::Other
        } else {
            Expression::HexNumberLiteral(text)
        }
    }
}

/// A parameter of a function, an event or an error, or an entry of a list.
#[derive(Debug)]
pub struct Parameter {
    pub ty: Expression,
    pub name: Option<String>,
}

/// The declaration of a local variable or of a struct field.
#[derive(Debug)]
pub struct VariableDeclaration {
    pub ty: Expression,
    pub name: Option<String>,
}

/// A statement.
#[derive(Debug)]
pub enum Statement {
    Block { statements: Vec<Statement> },
    Assembly,
    Args,
    If(Expression, Box<Statement>, Option<Box<Statement>>),
    While(Expression, Box<Statement>),
    Expression(Expression),
    VariableDefinition(VariableDeclaration, Option<Expression>),
    /// `for (initialization; condition; update) body`, each part optional.
    For(Option<Box<Statement>>, Option<Box<Expression>>, Option<Box<Expression>>, Option<Box<Statement>>),
    DoWhile,
    Continue,
    Break,
    Return(Option<Expression>),
    /// `revert`, with the name of an error where one is given, and its arguments.
    Revert(Option<String>, Vec<Expression>),
    RevertNamedArgs,
    Emit(Expression),
    Try,
    /// A statement that the parser could not read.
    Error,
}

/// Who may use a declaration.
#[derive(Debug, Clone, Copy, PartialEq, Eq)]
pub enum Visibility {
    External,
    Public,
    Internal,
    Private,
}

/// An attribute of a state variable.
#[derive(Debug, Clone, Copy, PartialEq, Eq)]
pub enum VariableAttribute {
    Visibility(Visibility),
    Constant,
    Immutable,
    Override,
}

/// A state variable of a contract.
#[derive(Debug)]
pub struct VariableDefinition {
    pub ty: Expression,
    pub attrs: Vec<VariableAttribute>,
    pub name: Option<String>,
    pub initializer: Option<Expression>,
}

/// A struct declaration.
#[derive(Debug)]
pub struct StructDefinition {
    pub name: Option<String>,
    pub fields: Vec<VariableDeclaration>,
}

/// An event declaration.
#[derive(Debug)]
pub struct EventDefinition {
    pub name: Option<String>,
    pub fields: Vec<Parameter>,
}

/// An error declaration.
#[derive(Debug)]
pub struct ErrorDefinition {
    pub name: Option<String>,
    pub fields: Vec<Parameter>,
}

/// An enum declaration.
#[derive(Debug)]
pub struct EnumDefinition {
    pub name: Option<String>,
    pub values: Vec<Option<String>>,
}

/// A user-defined value type.
#[derive(Debug)]
pub struct TypeDefinition {
    pub name: String,
    pub ty: Expression,
}

/// What a function declaration declares.
#[derive(Debug, Clone, Copy, PartialEq, Eq)]
pub enum FunctionTy {
    Constructor,
    Function,
    Fallback,
    Receive,
    Modifier,
}

/// An attribute of a function.
#[derive(Debug, Clone, Copy, PartialEq, Eq)]
pub enum FunctionAttribute {
    Visibility(Visibility),
    /// Any other attribute: mutability, `virtual`, `override`, a modifier.
    Other,
}

/// A function, constructor, fallback, receive function or modifier.
#[derive(Debug)]
pub struct FunctionDefinition {
    pub ty: FunctionTy,
    pub name: Option<String>,
    pub params: Vec<Option<Parameter>>,
    pub attributes: Vec<FunctionAttribute>,
    pub returns: Vec<Option<Parameter>>,
    pub body: Option<Statement>,
}

/// One member of a contract.
#[derive(Debug)]
pub enum ContractPart {
    StructDefinition(StructDefinition),
    EventDefinition(EventDefinition),
    EnumDefinition(EnumDefinition),
    ErrorDefinition(ErrorDefinition),
    VariableDefinition(VariableDefinition),
    FunctionDefinition(FunctionDefinition),
    TypeDefinition(TypeDefinition),
    Annotation,
    Using,
    StraySemicolon,
}

/// The kind of a contract definition.
#[derive(Debug, Clone, Copy, PartialEq, Eq)]
pub enum ContractTy {
    Abstract,
    Contract,
    Interface,
    Library,
}

/// A contract, interface or library.
#[derive(Debug)]
pub struct ContractDefinition {
    pub ty: ContractTy,
    pub name: Option<String>,
    /// The names of the contracts it inherits from.
    pub base: Vec<String>,
    pub parts: Vec<ContractPart>,
}

/// One top-level item of a source unit.
#[derive(Debug)]
pub enum SourceUnitPart {
    ContractDefinition(ContractDefinition),
    /// Pragmas, imports and free-standing declarations, none of which is translated.
    Other,
}

/// A parsed source file.
#[derive(Debug)]
pub struct SourceUnit {
    pub parts: Vec<SourceUnitPart>,
}

} // verus!
