use vstd::prelude::*;

use crate::datasource::DataSource;
use crate::logical::expression::expr::LogicalExpr;
use crate::logical::plan::plan::LogicalPlan;
use std::sync::Arc;

verus! {

/// A unary plan: compute one output column per expression.
#[derive(Debug)]
pub struct Projection<S: DataSource> {
    pub input: Arc<LogicalPlan<S>>,
    pub exprs: Vec<LogicalExpr>,
}

impl<S: DataSource> Projection<S> {
    /// Builds a projection over an input plan.
    pub fn new(input: Arc<LogicalPlan<S>>, exprs: Vec<LogicalExpr>) -> (r: Projection<S>)
        ensures
            r.input == input,
            r.exprs == exprs,
    {
        Projection { input, exprs }
    }
}

} // verus!
