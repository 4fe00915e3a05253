//! What an error says.

use vstd::prelude::*;
use vstd::string::StringExecFns;
use crate::errors::{Construct, ConstructView, Error, ErrorView};
use crate::sway::render::{render_expression, rendered_expression, show_type_name, shown_type_name};
use crate::text::{decimal_digits, decimal_text, join3, text};

verus! {

/// The name of a form of the source that is not translated.
pub open spec fn construct_name(c: ConstructView) -> Seq<char> {
    match c {
        ConstructView::PayableType => "the type `payable`"@,
        ConstructView::SignedIntegerType => "signed integer types"@,
        ConstructView::RationalType => "rational types"@,
        ConstructView::FunctionType => "function types"@,
        ConstructView::TypeExpression => "this form of type"@,
        ConstructView::Expression => "this form of expression"@,
        ConstructView::NewExpression => "this form of `new`"@,
        ConstructView::AssemblyStatement => "inline assembly"@,
        ConstructView::ArgsStatement => "named arguments"@,
        ConstructView::DoWhileStatement => "`do` loops"@,
        ConstructView::TryStatement => "`try` statements"@,
        ConstructView::RevertNamedArgs => "`revert` with named arguments"@,
        ConstructView::RevertArguments => "these arguments of `revert`"@,
        ConstructView::EmitExpression => "this form of `emit`"@,
        ConstructView::UnparsedStatement => "a statement that could not be read"@,
        ConstructView::ConfigurableGetter => "public immutable variables"@,
    }
}

/// What an error says: what went wrong and what it went wrong with. An
/// expression without typing rule is written out.
pub open spec fn message_of(e: ErrorView) -> Seq<char> {
    match e {
        ErrorView::UnknownVariable(name) => "unknown variable `"@ + name + "`"@,
        ErrorView::UnknownFunction(name) => "unknown function `"@ + name + "`"@,
        ErrorView::UnknownType(name) => "unknown type `"@ + name + "`"@,
        ErrorView::UnknownVariant(name) => "unknown event or error `"@ + name + "`"@,
        ErrorView::MisplacedDeclaration(name) => "no declaration found for `"@ + name + "`"@,
        ErrorView::InvalidBitWidth(bits) => "invalid integer width `"@ + decimal_digits(bits as nat) + "`"@,
        ErrorView::InvalidArrayLength => "the length of an array has to be a number literal"@,
        ErrorView::InvalidLiteral(digits) => "invalid number literal `"@ + digits + "`"@,
        ErrorView::MissingName => "a declaration has no name"@,
        ErrorView::UndefinedType => "the type of an expression is undefined"@,
        ErrorView::TypeMismatch { expected, found } => "expected the type `"@ + shown_type_name(expected)
            + "`, found `"@ + shown_type_name(found) + "`"@,
        ErrorView::ExpectedTuple(t) => "expected a tuple type, found `"@ + shown_type_name(t) + "`"@,
        ErrorView::NoTypeRule(x) => "no typing rule for `"@ + rendered_expression(x, 0) + "`"@,
        ErrorView::Unsupported(c) => construct_name(c) + " are not translated"@,
    }
}

fn name_of(c: &Construct) -> (r: &'static str)
    ensures
        r@ == construct_name(c@),
{
    match c {
        Construct::PayableType => "the type `payable`",
        Construct::SignedIntegerType => "signed integer types",
        Construct::RationalType => "rational types",
        Construct::FunctionType => "function types",
        Construct::TypeExpression => "this form of type",
        Construct::Expression => "this form of expression",
        Construct::NewExpression => "this form of `new`",
        Construct::AssemblyStatement => "inline assembly",
        Construct::ArgsStatement => "named arguments",
        Construct::DoWhileStatement => "`do` loops",
        Construct::TryStatement => "`try` statements",
        Construct::RevertNamedArgs => "`revert` with named arguments",
        Construct::RevertArguments => "these arguments of `revert`",
        Construct::EmitExpression => "this form of `emit`",
        Construct::UnparsedStatement => "a statement that could not be read",
        Construct::ConfigurableGetter => "public immutable variables",
    }
}

impl Error {
    /// What the error says.
    pub fn message(&self) -> (r: String)
        ensures
            r@ == message_of(self@),
    {
        match self {
            Error::UnknownVariable(name) => join3("unknown variable `", name.as_str(), "`"),
            Error::UnknownFunction(name) => join3("unknown function `", name.as_str(), "`"),
            Error::UnknownType(name) => join3("unknown type `", name.as_str(), "`"),
            Error::UnknownVariant(name) => join3("unknown event or error `", name.as_str(), "`"),
            Error::MisplacedDeclaration(name) => join3("no declaration found for `", name.as_str(), "`"),
            Error::InvalidBitWidth(bits) => {
                let digits = decimal_text(*bits as u64);
                join3("invalid integer width `", digits.as_str(), "`")
            },
            Error::InvalidArrayLength => text("the length of an array has to be a number literal"),
            Error::InvalidLiteral(digits) => join3("invalid number literal `", digits.as_str(), "`"),
            Error::MissingName => text("a declaration has no name"),
            Error::UndefinedType => text("the type of an expression is undefined"),
            Error::TypeMismatch { expected, found } => {
                let first = show_type_name(expected);
                let second = show_type_name(found);
                let mut out = join3("expected the type `", first.as_str(), "`, found `");
                out.append(second.as_str());
                out.append("`");
                out
            },
            Error::ExpectedTuple(t) => {
                let shown = show_type_name(t);
                join3("expected a tuple type, found `", shown.as_str(), "`")
            },
            Error::NoTypeRule(x) => {
                let shown = render_expression(x, 0);
                join3("no typing rule for `", shown.as_str(), "`")
            },
            Error::Unsupported(c) => {
                let mut out = text(name_of(c));
                out.append(" are not translated");
                out
            },
        }
    }
}

} // verus!
