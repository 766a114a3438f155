//! What holds of folding, of binary nodes and of concatenation, for all inputs.

use vstd::prelude::*;
use crate::ast::{BinaryOperator, Expression, Identifier, MemberOperator};
use crate::astutil::{applied_expression, fold_ops, infix_node, Operation};
use crate::span::{Node, Span};

verus! {

/// Applying no operation leaves the expression as it was.
pub proof fn lemma_fold_empty(e: Node<Expression>)
    ensures
        fold_ops(Seq::empty(), e) == e,
{
}

/// After at least one operation, the result starts where the first operand
/// starts and ends where the last operation ends.
pub proof fn lemma_fold_span(ops: Seq<Node<Operation>>, e: Node<Expression>)
    requires
        ops.len() > 0,
    ensures
        fold_ops(ops, e).span.start == e.span.start,
        fold_ops(ops, e).span.end == ops.last().span.end,
    decreases ops.len(),
{
    if ops.len() > 1 {
        lemma_fold_span(ops.drop_last(), e);
    } else {
        assert(fold_ops(ops.drop_last(), e) == e);
    }
}

/// A member access followed by a call nests as `(a.b)(x)`: the call's callee
/// is the member access, whose object is `a`.
pub proof fn lemma_member_then_call(
    a: Node<Expression>,
    operator: Node<MemberOperator>,
    identifier: Node<Identifier>,
    member_span: Span,
    arguments: Vec<Node<Expression>>,
    call_span: Span,
)
    ensures
        fold_ops(
            seq![
                Node { node: Operation::Member(operator, identifier), span: member_span },
                Node { node: Operation::Call(arguments), span: call_span },
            ],
            a,
        ) == (Node {
            node: Expression::Call {
                callee: Box::new(
                    Node {
                        node: Expression::Member { operator, expression: Box::new(a), identifier },
                        span: Span { start: a.span.start, end: member_span.end },
                    },
                ),
                arguments,
            },
            span: Span { start: a.span.start, end: call_span.end },
        }),
{
    let ops = seq![
        Node { node: Operation::Member(operator, identifier), span: member_span },
        Node { node: Operation::Call(arguments), span: call_span },
    ];
    let first = ops.drop_last();
    assert(first.drop_last() =~= Seq::<Node<Operation>>::empty());
    assert(fold_ops(first.drop_last(), a) == a);
    assert(fold_ops(first, a) == first.last().applied(a));
}

/// A binary node built directly from two operands is the node that the
/// deferred binary operation builds, when that operation spans from the
/// operator's token to the end of the right operand.
pub proof fn lemma_infix_as_operation(
    op_span: Span,
    op: BinaryOperator,
    lhs: Node<Expression>,
    rhs: Node<Expression>,
)
    ensures
        infix_node(op_span, op, lhs, rhs) == (Node {
            node: Operation::Binary(Node { node: op, span: op_span }, rhs),
            span: Span { start: op_span.start, end: rhs.span.end },
        }).applied(lhs),
{
}

/// Concatenation keeps every element of both inputs, in order, and has the
/// empty sequence as identity on either side.
pub proof fn lemma_concat<T>(a: Seq<T>, b: Seq<T>)
    ensures
        (a + b).len() == a.len() + b.len(),
        forall|i: int| 0 <= i < a.len() ==> #[trigger] (a + b)[i] == a[i],
        forall|i: int| 0 <= i < b.len() ==> #[trigger] (a + b)[a.len() + i] == b[i],
        Seq::<T>::empty() + b == b,
        a + Seq::<T>::empty() == a,
{
    assert(Seq::<T>::empty() + b =~= b);
    assert(a + Seq::<T>::empty() =~= a);
}

} // verus!
