//! Folding trailing operations onto an operand, and building binary nodes.

use vstd::prelude::*;
use crate::ast::{BinaryOperator, Expression, Identifier, MemberOperator, UnaryOperator};
use crate::span::{Node, Span};

verus! {

/// A trailing construct, recorded before the operand it applies to is known.
#[derive(Debug, PartialEq, Eq)]
pub enum Operation {
    /// A member access: its operator and the member's name.
    Member(Node<MemberOperator>, Node<Identifier>),
    /// A postfix unary operator.
    Unary(Node<UnaryOperator>),
    /// A binary operator with its right operand, already built.
    Binary(Node<BinaryOperator>, Node<Expression>),
    /// A call with its arguments, in order.
    Call(Vec<Node<Expression>>),
}

/// The expression that `op` builds around the left operand `a`.
pub open spec fn applied_expression(op: Operation, a: Node<Expression>) -> Expression {
    match op {
        Operation::Member(operator, identifier) => Expression::Member {
            operator,
            expression: Box::new(a),
            identifier,
        },
        Operation::Unary(operator) => Expression::UnaryOperator { operator, operand: Box::new(a) },
        Operation::Binary(operator, rhs) => Expression::BinaryOperator {
            operator,
            lhs: Box::new(a),
            rhs: Box::new(rhs),
        },
        Operation::Call(arguments) => Expression::Call { callee: Box::new(a), arguments },
    }
}

impl Node<Operation> {
    /// The node that applying this operation to `a` gives: it covers `a` and
    /// the operation's own text.
    pub open spec fn applied(self, a: Node<Expression>) -> Node<Expression> {
        Node {
            node: applied_expression(self.node, a),
            span: Span { start: a.span.start, end: self.span.end },
        }
    }

    /// Builds the expression that this operation forms with `a` as its left
    /// operand.
    pub fn apply(self, a: Node<Expression>) -> (r: Node<Expression>)
        requires
            a.span.wf(),
            self.span.wf(),
            a.span.precedes(self.span),
        ensures
            r == self.applied(a),
            r.span.wf(),
    {
        let span = Span::span(a.span.start, self.span.end);
        let expr = match self.node {
            Operation::Member(op, id) => Expression::Member {
                operator: op,
                expression: Box::new(a),
                identifier: id,
            },
            Operation::Unary(op) => Expression::UnaryOperator { operator: op, operand: Box::new(a) },
            Operation::Binary(op, b) => Expression::BinaryOperator {
                operator: op,
                lhs: Box::new(a),
                rhs: Box::new(b),
            },
            Operation::Call(args) => Expression::Call { callee: Box::new(a), arguments: args },
        };
        Node::new(expr, span)
    }
}

/// The result of applying `ops` in order to `e`, each result becoming the
/// left operand of the next operation.
pub open spec fn fold_ops(ops: Seq<Node<Operation>>, e: Node<Expression>) -> Node<Expression>
    decreases ops.len(),
{
    if ops.len() == 0 {
        e
    } else {
        ops.last().applied(fold_ops(ops.drop_last(), e))
    }
}

/// All spans are well formed, and `e` and the operations follow one another
/// in the source.
pub open spec fn in_source_order(ops: Seq<Node<Operation>>, e: Node<Expression>) -> bool {
    &&& e.span.wf()
    &&& forall|i: int| 0 <= i < ops.len() ==> (#[trigger] ops[i]).span.wf()
    &&& ops.len() > 0 ==> e.span.precedes(ops[0].span)
    &&& forall|i: int| 0 <= i && i + 1 < ops.len() ==> (#[trigger] ops[i]).span.precedes(ops[i + 1].span)
}

/// Applies `ops` in source order to `expr`: `a.b(x).c` becomes `((a.b)(x)).c`.
pub fn apply_ops(ops: Vec<Node<Operation>>, expr: Node<Expression>) -> (r: Node<Expression>)
    requires
        in_source_order(ops@, expr),
    ensures
        r == fold_ops(ops@, expr),
        r.span.wf(),
        ops@.len() == 0 ==> r == expr,
        ops@.len() > 0 ==> r.span == (Span { start: expr.span.start, end: ops@.last().span.end }),
{
    let ghost s = ops@;
    let mut acc = expr;
    for op in it: ops
        invariant
            it.seq() == s,
            in_source_order(s, expr),
            acc == fold_ops(s.take(it.index() as int), expr),
            acc.span.wf(),
            acc.span.start == expr.span.start,
            it.index() == 0 ==> acc.span == expr.span,
            it.index() > 0 ==> acc.span.end == s[it.index() - 1].span.end,
    {
        let ghost k = it.index() as int;
        assert(s.take(k + 1).drop_last() == s.take(k));
        acc = op.apply(acc);
    }
    assert(s.take(s.len() as int) == s);
    acc
}

/// Moves the elements of `b` after those of `a`.
pub fn concat<T>(a: Vec<T>, b: Vec<T>) -> (r: Vec<T>)
    ensures
        r@ == a@ + b@,
{
    let mut a = a;
    let mut b = b;
    a.append(&mut b);
    a
}

/// The binary node that `lhs op rhs` forms, the operator written at `op_span`.
pub open spec fn infix_node(
    op_span: Span,
    op: BinaryOperator,
    lhs: Node<Expression>,
    rhs: Node<Expression>,
) -> Node<Expression> {
    Node {
        node: Expression::BinaryOperator {
            operator: Node { node: op, span: op_span },
            lhs: Box::new(lhs),
            rhs: Box::new(rhs),
        },
        span: Span { start: lhs.span.start, end: rhs.span.end },
    }
}

/// Builds `lhs op rhs`, where `node` holds the span of the operator's token.
/// The result covers both operands; the operator keeps its own span.
pub fn infix(
    node: Node<()>,
    op: BinaryOperator,
    lhs: Node<Expression>,
    rhs: Node<Expression>,
) -> (r: Node<Expression>)
    requires
        lhs.span.wf(),
        rhs.span.wf(),
        lhs.span.precedes(rhs.span),
    ensures
        r == infix_node(node.span, op, lhs, rhs),
        r.span == (Span { start: lhs.span.start, end: rhs.span.end }),
        r.span.wf(),
{
    let span = Span::span(lhs.span.start, rhs.span.end);
    Node::new(
        Expression::BinaryOperator {
            operator: Node::new(op, node.span),
            lhs: Box::new(lhs),
            rhs: Box::new(rhs),
        },
        span,
    )
}

} // verus!
