//! Source ranges and values tagged with them.

use vstd::prelude::*;

verus! {

/// A range of source offsets, from `start` to `end`.
#[derive(Debug, Clone, Copy, PartialEq, Eq, Structural)]
pub struct Span {
    pub start: usize,
    pub end: usize,
}

impl Span {
    /// A span is well formed when it does not end before it starts.
    pub open spec fn wf(self) -> bool {
        self.start <= self.end
    }

    /// The span that starts at `start` and ends at `end`.
    pub fn span(start: usize, end: usize) -> (r: Span)
        requires
            start <= end,
        ensures
            r.start == start,
            r.end == end,
            r.wf(),
    {
        Span { start, end }
    }

    /// Whether this span ends no later than `other` starts.
    pub open spec fn precedes(self, other: Span) -> bool {
        self.end <= other.start
    }
}

/// A value together with the source range it was read from.
#[derive(Debug, Clone, PartialEq, Eq)]
pub struct Node<T> {
    pub node: T,
    pub span: Span,
}

impl<T> Node<T> {
    /// Tags `node` with `span`.
    pub fn new(node: T, span: Span) -> (r: Node<T>)
        ensures
            r.node == node,
            r.span == span,
    {
        Node { node, span }
    }
}

} // verus!
