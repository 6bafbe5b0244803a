use vstd::prelude::*;

use crate::datasource::DataSource;
use crate::datatypes::array::{batch_wf, Batch};
use crate::error::{matches_fault, DBError};
use crate::execution::planner::{plan_lower_fault, plan_lowered, Planner};
use crate::logical::expression::expr::LogicalExpr;
use crate::logical::plan::filter::Filter;
use crate::logical::plan::plan::LogicalPlan;
use crate::logical::plan::projection::Projection;
use crate::physical::expr::matches_eval_fault;
use crate::physical::plan::{exec_fault, exec_model};
use std::sync::Arc;

verus! {

/// A builder-style handle on a logical plan: each step wraps the previous
/// plan in a new immutable node.
pub struct DataFrame<S: DataSource> {
    pub plan: LogicalPlan<S>,
}

impl<S: DataSource> DataFrame<S> {
    /// Wraps a logical plan.
    pub fn new(plan: LogicalPlan<S>) -> (r: DataFrame<S>)
        ensures
            r.plan == plan,
    {
        DataFrame { plan }
    }

    /// Projects the plan onto one output column per expression.
    pub fn project(self, columns: Vec<LogicalExpr>) -> (r: DataFrame<S>)
        ensures
            r.plan matches LogicalPlan::Projection(p) && *p.input == self.plan && p.exprs
                == columns,
    {
        DataFrame { plan: LogicalPlan::Projection(Projection::new(Arc::new(self.plan), columns)) }
    }

    /// Keeps only the rows on which the predicate is true.
    pub fn filter(self, expr: LogicalExpr) -> (r: DataFrame<S>)
        ensures
            r.plan matches LogicalPlan::Filter(f) && *f.input == self.plan && f.predicate == expr,
    {
        DataFrame { plan: LogicalPlan::Filter(Filter::new(Arc::new(self.plan), expr)) }
    }

    /// The logical plan built so far.
    pub fn plan(&self) -> (r: &LogicalPlan<S>)
        ensures
            *r == self.plan,
    {
        &self.plan
    }

    /// Plans and executes the pipeline, producing one batch: the batch that
    /// the lowered physical plan's model describes. Fails exactly when
    /// planning owes a fault (with that fault), and otherwise only with the
    /// source's own error or an execution fault of the kind the lowered
    /// plan's model owes.
    pub fn collect(&self) -> (r: Result<Batch, DBError>)
        ensures
            r matches Ok(b) ==> exists|pp: crate::physical::plan::PhysicalPlan<S>|
                #![auto]
                plan_lowered(self.plan, pp) && exec_model(pp) == Some(b@) && batch_wf(b@),
            plan_lower_fault(self.plan) matches Some(f) ==> r matches Err(e) && matches_fault(
                e,
                f,
            ),
            r matches Err(e) ==> match plan_lower_fault(self.plan) {
                Some(f) => matches_fault(e, f),
                None => e is SourceError || (exists|pp: crate::physical::plan::PhysicalPlan<S>|
                    #![auto]
                    plan_lowered(self.plan, pp) && (exec_fault(pp) matches Some(ff)
                        && matches_eval_fault(e, ff))),
            },
    {
        let physical_plan = match Planner::create_physical_plan(&self.plan) {
            Ok(p) => p,
            Err(e) => {
                return Err(e);
            },
        };
        let r = physical_plan.execute();
        proof {
            match &r {
                Err(e) => if !(e is SourceError) {
                    assert(plan_lowered(self.plan, *physical_plan) && (exec_fault(*physical_plan)
                        matches Some(ff) && matches_eval_fault(*e, ff)));
                },
                _ => {},
            }
        }
        r
    }
}

} // verus!
