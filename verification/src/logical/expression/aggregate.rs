use vstd::prelude::*;

use crate::logical::expression::expr::LogicalExpr;
use std::sync::Arc;

verus! {

/// An aggregate application, reserved in the expression vocabulary: the
/// planner and the evaluator refuse it with `NotImplemented`.
#[derive(Debug, Clone)]
pub struct AggregateExpr {
    pub func: String,
    pub expr: Arc<LogicalExpr>,
}

impl AggregateExpr {
    /// Builds an aggregate expression.
    pub fn new(func: String, expr: Arc<LogicalExpr>) -> (r: AggregateExpr)
        ensures
            r == (AggregateExpr { func, expr }),
    {
        AggregateExpr { func, expr }
    }
}

} // verus!
