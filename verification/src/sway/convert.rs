//! Nodes as the nodes that hold them.

use vstd::prelude::*;
use vstd::std_specs::convert::FromSpecImpl;
use crate::sway::{
    Array, ArrayAccess, AsmBlock, BinaryExpression, Block, Constructor, Expression, FunctionCall, If, Let,
    LetIdentifier, LetPattern, Literal, Match, MemberAccess, Statement, UnaryExpression, While,
};

verus! {

impl From<Let> for Statement {
    /// The statement that is this declaration.
    fn from(x: Let) -> (r: Statement) {
        Statement::Let(x)
    }
}

impl FromSpecImpl<Let> for Statement {
    open spec fn obeys_from_spec() -> bool {
        true
    }

    open spec fn from_spec(x: Let) -> Statement {
        Statement::Let(x)
    }
}

impl From<Expression> for Statement {
    /// The statement that is this expression.
    fn from(x: Expression) -> (r: Statement) {
        Statement::Expression(x)
    }
}

impl FromSpecImpl<Expression> for Statement {
    open spec fn obeys_from_spec() -> bool {
        true
    }

    open spec fn from_spec(x: Expression) -> Statement {
        Statement::Expression(x)
    }
}

impl From<Literal> for Expression {
    /// The expression that is this literal.
    fn from(x: Literal) -> (r: Expression) {
        Expression::Literal(x)
    }
}

impl FromSpecImpl<Literal> for Expression {
    open spec fn obeys_from_spec() -> bool {
        true
    }

    open spec fn from_spec(x: Literal) -> Expression {
        Expression::Literal(x)
    }
}

impl From<Array> for Expression {
    /// The expression that is this array.
    fn from(x: Array) -> (r: Expression) {
        Expression::Array(x)
    }
}

impl FromSpecImpl<Array> for Expression {
    open spec fn obeys_from_spec() -> bool {
        true
    }

    open spec fn from_spec(x: Array) -> Expression {
        Expression::Array(x)
    }
}

impl From<FunctionCall> for Expression {
    /// The expression that is this node.
    fn from(x: FunctionCall) -> (r: Expression) {
        Expression::FunctionCall(Box::new(x))
    }
}

impl FromSpecImpl<FunctionCall> for Expression {
    open spec fn obeys_from_spec() -> bool {
        true
    }

    open spec fn from_spec(x: FunctionCall) -> Expression {
        Expression::FunctionCall(Box::new(x))
    }
}

impl From<Block> for Expression {
    /// The expression that is this node.
    fn from(x: Block) -> (r: Expression) {
        Expression::Block(Box::new(x))
    }
}

impl FromSpecImpl<Block> for Expression {
    open spec fn obeys_from_spec() -> bool {
        true
    }

    open spec fn from_spec(x: Block) -> Expression {
        Expression::Block(Box::new(x))
    }
}

impl From<ArrayAccess> for Expression {
    /// The expression that is this node.
    fn from(x: ArrayAccess) -> (r: Expression) {
        Expression::ArrayAccess(Box::new(x))
    }
}

impl FromSpecImpl<ArrayAccess> for Expression {
    open spec fn obeys_from_spec() -> bool {
        true
    }

    open spec fn from_spec(x: ArrayAccess) -> Expression {
        Expression::ArrayAccess(Box::new(x))
    }
}

impl From<MemberAccess> for Expression {
    /// The expression that is this node.
    fn from(x: MemberAccess) -> (r: Expression) {
        Expression::MemberAccess(Box::new(x))
    }
}

impl FromSpecImpl<MemberAccess> for Expression {
    open spec fn obeys_from_spec() -> bool {
        true
    }

    open spec fn from_spec(x: MemberAccess) -> Expression {
        Expression::MemberAccess(Box::new(x))
    }
}

impl From<If> for Expression {
    /// The expression that is this node.
    fn from(x: If) -> (r: Expression) {
        Expression::If(Box::new(x))
    }
}

impl FromSpecImpl<If> for Expression {
    open spec fn obeys_from_spec() -> bool {
        true
    }

    open spec fn from_spec(x: If) -> Expression {
        Expression::If(Box::new(x))
    }
}

impl From<Match> for Expression {
    /// The expression that is this node.
    fn from(x: Match) -> (r: Expression) {
        Expression::Match(Box::new(x))
    }
}

impl FromSpecImpl<Match> for Expression {
    open spec fn obeys_from_spec() -> bool {
        true
    }

    open spec fn from_spec(x: Match) -> Expression {
        Expression::Match(Box::new(x))
    }
}

impl From<While> for Expression {
    /// The expression that is this node.
    fn from(x: While) -> (r: Expression) {
        Expression::While(Box::new(x))
    }
}

impl FromSpecImpl<While> for Expression {
    open spec fn obeys_from_spec() -> bool {
        true
    }

    open spec fn from_spec(x: While) -> Expression {
        Expression::While(Box::new(x))
    }
}

impl From<UnaryExpression> for Expression {
    /// The expression that is this node.
    fn from(x: UnaryExpression) -> (r: Expression) {
        Expression::UnaryExpression(Box::new(x))
    }
}

impl FromSpecImpl<UnaryExpression> for Expression {
    open spec fn obeys_from_spec() -> bool {
        true
    }

    open spec fn from_spec(x: UnaryExpression) -> Expression {
        Expression::UnaryExpression(Box::new(x))
    }
}

impl From<BinaryExpression> for Expression {
    /// The expression that is this node.
    fn from(x: BinaryExpression) -> (r: Expression) {
        Expression::BinaryExpression(Box::new(x))
    }
}

impl FromSpecImpl<BinaryExpression> for Expression {
    open spec fn obeys_from_spec() -> bool {
        true
    }

    open spec fn from_spec(x: BinaryExpression) -> Expression {
        Expression::BinaryExpression(Box::new(x))
    }
}

impl From<Constructor> for Expression {
    /// The expression that is this node.
    fn from(x: Constructor) -> (r: Expression) {
        Expression::Constructor(Box::new(x))
    }
}

impl FromSpecImpl<Constructor> for Expression {
    open spec fn obeys_from_spec() -> bool {
        true
    }

    open spec fn from_spec(x: Constructor) -> Expression {
        Expression::Constructor(Box::new(x))
    }
}

impl From<AsmBlock> for Expression {
    /// The expression that is this node.
    fn from(x: AsmBlock) -> (r: Expression) {
        Expression::AsmBlock(Box::new(x))
    }
}

impl FromSpecImpl<AsmBlock> for Expression {
    open spec fn obeys_from_spec() -> bool {
        true
    }

    open spec fn from_spec(x: AsmBlock) -> Expression {
        Expression::AsmBlock(Box::new(x))
    }
}

impl From<LetIdentifier> for LetPattern {
    /// The pattern that binds this name.
    fn from(x: LetIdentifier) -> (r: LetPattern) {
        LetPattern::Identifier(x)
    }
}

impl FromSpecImpl<LetIdentifier> for LetPattern {
    open spec fn obeys_from_spec() -> bool {
        true
    }

    open spec fn from_spec(x: LetIdentifier) -> LetPattern {
        LetPattern::Identifier(x)
    }
}

impl From<Vec<LetIdentifier>> for LetPattern {
    /// The pattern that binds these names as a tuple.
    fn from(x: Vec<LetIdentifier>) -> (r: LetPattern) {
        LetPattern::Tuple(x)
    }
}

impl FromSpecImpl<Vec<LetIdentifier>> for LetPattern {
    open spec fn obeys_from_spec() -> bool {
        true
    }

    open spec fn from_spec(x: Vec<LetIdentifier>) -> LetPattern {
        LetPattern::Tuple(x)
    }
}

} // verus!
