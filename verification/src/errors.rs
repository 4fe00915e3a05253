//! The errors that end a translation.

use vstd::prelude::*;
use vstd::std_specs::cmp::PartialEqSpecImpl;
use crate::sway::{Expression, TypeName};
use crate::sway::model::{ExpressionView, TypeNameView};

verus! {

/// A form of the source language that the translator does not handle.
#[derive(Debug)]
pub enum Construct {
    PayableType,
    SignedIntegerType,
    RationalType,
    FunctionType,
    TypeExpression,
    Expression,
    NewExpression,
    AssemblyStatement,
    ArgsStatement,
    DoWhileStatement,
    TryStatement,
    RevertNamedArgs,
    RevertArguments,
    EmitExpression,
    UnparsedStatement,
    ConfigurableGetter,
}

/// Why the translation of a source unit was given up.
#[derive(Debug)]
pub enum Error {
    /// No visible variable has this name.
    UnknownVariable(String),
    /// No visible function with this name takes the given arguments.
    UnknownFunction(String),
    /// No type alias, struct, enum or contract interface has this name.
    UnknownType(String),
    /// No event or error of the definition has this name.
    UnknownVariant(String),
    /// The statement recorded as the declaration of this variable, which
    /// was assigned to, is no `let` of its block.
    MisplacedDeclaration(String),
    /// An integer type of width 0 or of more than 256 bits.
    InvalidBitWidth(u16),
    /// An array length that is not a literal integer.
    InvalidArrayLength,
    /// A number literal that does not fit in 64 bits or is malformed.
    InvalidLiteral(String),
    /// A declaration without a name.
    MissingName,
    /// The undefined type name, where a type was needed.
    UndefinedType,
    /// A `new` expression whose type differs from the declared type.
    TypeMismatch {
        expected: TypeName,
        found: TypeName,
    },
    /// A tuple pattern bound to a value that is not a tuple.
    ExpectedTuple(TypeName),
    /// An expression of the target language for which no typing rule exists.
    NoTypeRule(Expression),
    /// A form of the source language that is not translated.
    Unsupported(Construct),
}

/// What a [`Construct`] holds, as a mathematical value.
pub ghost enum ConstructView {
    PayableType,
    SignedIntegerType,
    RationalType,
    FunctionType,
    TypeExpression,
    Expression,
    NewExpression,
    AssemblyStatement,
    ArgsStatement,
    DoWhileStatement,
    TryStatement,
    RevertNamedArgs,
    RevertArguments,
    EmitExpression,
    UnparsedStatement,
    ConfigurableGetter,
}

/// What a [`Error`] holds, as a mathematical value.
pub ghost enum ErrorView {
    UnknownVariable(Seq<char>),
    UnknownFunction(Seq<char>),
    UnknownType(Seq<char>),
    UnknownVariant(Seq<char>),
    MisplacedDeclaration(Seq<char>),
    InvalidBitWidth(u16),
    InvalidArrayLength,
    InvalidLiteral(Seq<char>),
    MissingName,
    UndefinedType,
    TypeMismatch {
        expected: TypeNameView,
        found: TypeNameView,
    },
    ExpectedTuple(TypeNameView),
    NoTypeRule(ExpressionView),
    Unsupported(ConstructView),
}

impl Construct {
    /// The value this node stands for.
    pub open spec fn model(&self) -> ConstructView
        decreases self,
    {
        match self {
            Construct::PayableType => ConstructView::PayableType,
            Construct::SignedIntegerType => ConstructView::SignedIntegerType,
            Construct::RationalType => ConstructView::RationalType,
            Construct::FunctionType => ConstructView::FunctionType,
            Construct::TypeExpression => ConstructView::TypeExpression,
            Construct::Expression => ConstructView::Expression,
            Construct::NewExpression => ConstructView::NewExpression,
            Construct::AssemblyStatement => ConstructView::AssemblyStatement,
            Construct::ArgsStatement => ConstructView::ArgsStatement,
            Construct::DoWhileStatement => ConstructView::DoWhileStatement,
            Construct::TryStatement => ConstructView::TryStatement,
            Construct::RevertNamedArgs => ConstructView::RevertNamedArgs,
            Construct::RevertArguments => ConstructView::RevertArguments,
            Construct::EmitExpression => ConstructView::EmitExpression,
            Construct::UnparsedStatement => ConstructView::UnparsedStatement,
            Construct::ConfigurableGetter => ConstructView::ConfigurableGetter,
        }
    }
}

impl View for Construct {
    type V = ConstructView;

    open spec fn view(&self) -> ConstructView {
        self.model()
    }
}

impl Error {
    /// The value this node stands for.
    pub open spec fn model(&self) -> ErrorView
        decreases self,
    {
        match self {
            Error::UnknownVariable(x0) => ErrorView::UnknownVariable(x0@),
            Error::UnknownFunction(x0) => ErrorView::UnknownFunction(x0@),
            Error::UnknownType(x0) => ErrorView::UnknownType(x0@),
            Error::UnknownVariant(x0) => ErrorView::UnknownVariant(x0@),
            Error::MisplacedDeclaration(x0) => ErrorView::MisplacedDeclaration(x0@),
            Error::InvalidBitWidth(x0) => ErrorView::InvalidBitWidth(*x0),
            Error::InvalidArrayLength => ErrorView::InvalidArrayLength,
            Error::InvalidLiteral(x0) => ErrorView::InvalidLiteral(x0@),
            Error::MissingName => ErrorView::MissingName,
            Error::UndefinedType => ErrorView::UndefinedType,
            Error::TypeMismatch { expected, found } => ErrorView::TypeMismatch { expected: expected.model(), found: found.model() },
            Error::ExpectedTuple(x0) => ErrorView::ExpectedTuple(x0.model()),
            Error::NoTypeRule(x0) => ErrorView::NoTypeRule(x0.model()),
            Error::Unsupported(x0) => ErrorView::Unsupported(x0.model()),
        }
    }
}

impl View for Error {
    type V = ErrorView;

    open spec fn view(&self) -> ErrorView {
        self.model()
    }
}

impl Clone for Construct {
    fn clone(&self) -> (r: Self)
        ensures
            r@ == self@,
        decreases self,
    {
        match self {
            Construct::PayableType => Construct::PayableType,
            Construct::SignedIntegerType => Construct::SignedIntegerType,
            Construct::RationalType => Construct::RationalType,
            Construct::FunctionType => Construct::FunctionType,
            Construct::TypeExpression => Construct::TypeExpression,
            Construct::Expression => Construct::Expression,
            Construct::NewExpression => Construct::NewExpression,
            Construct::AssemblyStatement => Construct::AssemblyStatement,
            Construct::ArgsStatement => Construct::ArgsStatement,
            Construct::DoWhileStatement => Construct::DoWhileStatement,
            Construct::TryStatement => Construct::TryStatement,
            Construct::RevertNamedArgs => Construct::RevertNamedArgs,
            Construct::RevertArguments => Construct::RevertArguments,
            Construct::EmitExpression => Construct::EmitExpression,
            Construct::UnparsedStatement => Construct::UnparsedStatement,
            Construct::ConfigurableGetter => Construct::ConfigurableGetter,
        }
    }
}

impl Clone for Error {
    fn clone(&self) -> (r: Self)
        ensures
            r@ == self@,
        decreases self,
    {
        match self {
            Error::UnknownVariable(x0) => Error::UnknownVariable(x0.clone()),
            Error::UnknownFunction(x0) => Error::UnknownFunction(x0.clone()),
            Error::UnknownType(x0) => Error::UnknownType(x0.clone()),
            Error::UnknownVariant(x0) => Error::UnknownVariant(x0.clone()),
            Error::MisplacedDeclaration(x0) => Error::MisplacedDeclaration(x0.clone()),
            Error::InvalidBitWidth(x0) => Error::InvalidBitWidth(*x0),
            Error::InvalidArrayLength => Error::InvalidArrayLength,
            Error::InvalidLiteral(x0) => Error::InvalidLiteral(x0.clone()),
            Error::MissingName => Error::MissingName,
            Error::UndefinedType => Error::UndefinedType,
            Error::TypeMismatch { expected, found } => Error::TypeMismatch { expected: expected.clone(), found: found.clone() },
            Error::ExpectedTuple(x0) => Error::ExpectedTuple(x0.clone()),
            Error::NoTypeRule(x0) => Error::NoTypeRule(x0.clone()),
            Error::Unsupported(x0) => Error::Unsupported(x0.clone()),
        }
    }
}

impl PartialEq for Construct {
    fn eq(&self, other: &Self) -> (r: bool)
        decreases self,
    {
        match self {
            Construct::PayableType => match other { Construct::PayableType => true, _ => false },
            Construct::SignedIntegerType => match other { Construct::SignedIntegerType => true, _ => false },
            Construct::RationalType => match other { Construct::RationalType => true, _ => false },
            Construct::FunctionType => match other { Construct::FunctionType => true, _ => false },
            Construct::TypeExpression => match other { Construct::TypeExpression => true, _ => false },
            Construct::Expression => match other { Construct::Expression => true, _ => false },
            Construct::NewExpression => match other { Construct::NewExpression => true, _ => false },
            Construct::AssemblyStatement => match other { Construct::AssemblyStatement => true, _ => false },
            Construct::ArgsStatement => match other { Construct::ArgsStatement => true, _ => false },
            Construct::DoWhileStatement => match other { Construct::DoWhileStatement => true, _ => false },
            Construct::TryStatement => match other { Construct::TryStatement => true, _ => false },
            Construct::RevertNamedArgs => match other { Construct::RevertNamedArgs => true, _ => false },
            Construct::RevertArguments => match other { Construct::RevertArguments => true, _ => false },
            Construct::EmitExpression => match other { Construct::EmitExpression => true, _ => false },
            Construct::UnparsedStatement => match other { Construct::UnparsedStatement => true, _ => false },
            Construct::ConfigurableGetter => match other { Construct::ConfigurableGetter => true, _ => false },
        }
    }
}

impl PartialEqSpecImpl for Construct {
    open spec fn obeys_eq_spec() -> bool {
        true
    }

    open spec fn eq_spec(&self, other: &Self) -> bool {
        self@ == other@
    }
}

impl PartialEq for Error {
    fn eq(&self, other: &Self) -> (r: bool)
        decreases self,
    {
        match self {
            Error::UnknownVariable(x0) => match other {
                Error::UnknownVariable(x0_o) => (x0.eq(x0_o)),
                _ => false,
            },
            Error::UnknownFunction(x0) => match other {
                Error::UnknownFunction(x0_o) => (x0.eq(x0_o)),
                _ => false,
            },
            Error::UnknownType(x0) => match other {
                Error::UnknownType(x0_o) => (x0.eq(x0_o)),
                _ => false,
            },
            Error::UnknownVariant(x0) => match other {
                Error::UnknownVariant(x0_o) => (x0.eq(x0_o)),
                _ => false,
            },
            Error::MisplacedDeclaration(x0) => match other {
                Error::MisplacedDeclaration(x0_o) => (x0.eq(x0_o)),
                _ => false,
            },
            Error::InvalidBitWidth(x0) => match other {
                Error::InvalidBitWidth(x0_o) => (*x0 == *x0_o),
                _ => false,
            },
            Error::InvalidArrayLength => match other { Error::InvalidArrayLength => true, _ => false },
            Error::InvalidLiteral(x0) => match other {
                Error::InvalidLiteral(x0_o) => (x0.eq(x0_o)),
                _ => false,
            },
            Error::MissingName => match other { Error::MissingName => true, _ => false },
            Error::UndefinedType => match other { Error::UndefinedType => true, _ => false },
            Error::TypeMismatch { expected, found } => match other {
                Error::TypeMismatch { expected: expected_o, found: found_o } => (expected.eq(expected_o)) && (found.eq(found_o)),
                _ => false,
            },
            Error::ExpectedTuple(x0) => match other {
                Error::ExpectedTuple(x0_o) => (x0.eq(x0_o)),
                _ => false,
            },
            Error::NoTypeRule(x0) => match other {
                Error::NoTypeRule(x0_o) => (x0.eq(x0_o)),
                _ => false,
            },
            Error::Unsupported(x0) => match other {
                Error::Unsupported(x0_o) => (x0.eq(x0_o)),
                _ => false,
            },
        }
    }
}

impl PartialEqSpecImpl for Error {
    open spec fn obeys_eq_spec() -> bool {
        true
    }

    open spec fn eq_spec(&self, other: &Self) -> bool {
        self@ == other@
    }
}

} // verus!
