//! The shapes of the expression tree.

use vstd::prelude::*;
use crate::span::Node;

verus! {

/// The token that introduces a member access.
#[derive(Debug, Clone, Copy, PartialEq, Eq, Structural)]
pub enum MemberOperator {
    /// `a.b`
    Dot,
    /// `a?.b`
    OptionalDot,
}

/// An operator with a single operand.
#[derive(Debug, Clone, Copy, PartialEq, Eq, Structural)]
pub enum UnaryOperator {
    Increment,
    Decrement,
    Negate,
    Not,
}

/// An operator with two operands.
#[derive(Debug, Clone, Copy, PartialEq, Eq, Structural)]
pub enum BinaryOperator {
    Add,
    Subtract,
    Multiply,
    Divide,
    Remainder,
    Equal,
    NotEqual,
    Less,
    Greater,
    And,
    Or,
}

/// A name as written in the source.
#[derive(Debug, Clone, PartialEq, Eq)]
pub struct Identifier {
    pub name: String,
}

/// An expression; every child is a node of its own, owned by its parent.
#[derive(Debug, PartialEq, Eq)]
pub enum Expression {
    Identifier(Identifier),
    Number(u64),
    Member {
        operator: Node<MemberOperator>,
        expression: Box<Node<Expression>>,
        identifier: Node<Identifier>,
    },
    UnaryOperator {
        operator: Node<UnaryOperator>,
        operand: Box<Node<Expression>>,
    },
    BinaryOperator {
        operator: Node<BinaryOperator>,
        lhs: Box<Node<Expression>>,
        rhs: Box<Node<Expression>>,
    },
    Call {
        callee: Box<Node<Expression>>,
        arguments: Vec<Node<Expression>>,
    },
}

} // verus!
