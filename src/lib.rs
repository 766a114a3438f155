//! Assembly of expression trees from a primary expression and the trailing
//! operations found after it, with exact source spans on every node.

pub mod span;
pub mod ast;
pub mod astutil;
pub mod laws;
