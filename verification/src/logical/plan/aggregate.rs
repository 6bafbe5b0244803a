use vstd::prelude::*;

use crate::datasource::DataSource;
use crate::logical::expression::expr::LogicalExpr;
use crate::logical::plan::plan::LogicalPlan;
use std::sync::Arc;

verus! {

/// An aggregation plan, reserved in the plan vocabulary: the planner refuses
/// it with `NotImplemented`.
#[derive(Debug)]
pub struct Aggregate<S: DataSource> {
    pub input: Arc<LogicalPlan<S>>,
    pub aggregate_exprs: Vec<LogicalExpr>,
}

impl<S: DataSource> Aggregate<S> {
    /// Builds an aggregation over an input plan.
    pub fn new(input: Arc<LogicalPlan<S>>, aggregate_exprs: Vec<LogicalExpr>) -> (r: Aggregate<S>)
        ensures
            r.input == input,
            r.aggregate_exprs == aggregate_exprs,
    {
        Aggregate { input, aggregate_exprs }
    }
}

} // verus!
