use vstd::prelude::*;

use crate::datatypes::operator::Operator;
use crate::logical::expression::expr::LogicalExpr;
use std::sync::Arc;

verus! {

/// A binary application of an operator to two shared subexpressions.
#[derive(Debug, Clone)]
pub struct BinaryExpr {
    pub lhs: Arc<LogicalExpr>,
    pub op: Operator,
    pub rhs: Arc<LogicalExpr>,
}

impl BinaryExpr {
    /// Builds a binary expression.
    pub fn new(lhs: Arc<LogicalExpr>, op: Operator, rhs: Arc<LogicalExpr>) -> (r: BinaryExpr)
        ensures
            r == (BinaryExpr { lhs, op, rhs }),
    {
        BinaryExpr { lhs, op, rhs }
    }
}

} // verus!
