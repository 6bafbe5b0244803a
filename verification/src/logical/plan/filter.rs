use vstd::prelude::*;

use crate::datasource::DataSource;
use crate::logical::expression::expr::LogicalExpr;
use crate::logical::plan::plan::LogicalPlan;
use std::sync::Arc;

verus! {

/// A unary plan: keep only the input rows on which the predicate is true.
#[derive(Debug)]
pub struct Filter<S: DataSource> {
    pub input: Arc<LogicalPlan<S>>,
    pub predicate: LogicalExpr,
}

impl<S: DataSource> Filter<S> {
    /// Builds a filter over an input plan.
    pub fn new(input: Arc<LogicalPlan<S>>, predicate: LogicalExpr) -> (r: Filter<S>)
        ensures
            r.input == input,
            r.predicate == predicate,
    {
        Filter { input, predicate }
    }
}

} // verus!
