pub mod filter;
pub mod projection;
pub mod scan;

use vstd::prelude::*;

use crate::datasource::{scan_model, DataSource};
use crate::datatypes::array::{batch_wf, Batch, BatchModel};
use crate::datatypes::schema::{FieldModel, Schema};
use crate::datatypes::values::DataType;
use crate::error::{matches_fault, DBError, FaultModel};
use crate::physical::expr::{
    eval_expr, matches_eval_fault, ColumnarModel, EvalFault, PhysicalExpression,
};
use crate::physical::plan::filter::{filter_batch_model, FilterExec};
use crate::physical::plan::projection::{project_exec_model, ProjectionExec};
use crate::physical::plan::scan::{scan_schema_model, ScanExec};

verus! {

/// A position-bound, executable plan tree.
#[derive(Debug)]
pub enum PhysicalPlan<S: DataSource> {
    Projection(ProjectionExec<S>),
    Filter(FilterExec<S>),
    Scan(ScanExec<S>),
}

/// What one filter stage produces from an input batch, when it produces one:
/// the predicate must evaluate to a boolean column of the batch's row count
/// (a bare scalar is refused), and the batch keeps exactly the rows on which
/// that column is true.
pub open spec fn filter_step(pred: PhysicalExpression, b: BatchModel) -> Option<BatchModel> {
    match eval_expr(pred, b) {
        Ok(v) => match v {
            ColumnarModel::Array(m) => if m.data_type == DataType::Boolean && m.values.len()
                == b.rows {
                Some(filter_batch_model(b, m.values))
            } else {
                None
            },
            ColumnarModel::Scalar(_) => None,
        },
        Err(_) => None,
    }
}

/// The one batch a physical plan produces when execution succeeds: what the
/// source would materialize, filtered and projected stage by stage. `None`
/// means the plan owes a failure.
pub open spec fn exec_model<S: DataSource>(p: PhysicalPlan<S>) -> Option<BatchModel>
    decreases p,
{
    match p {
        PhysicalPlan::Scan(s) => scan_model(
            s.ds.source_schema(),
            s.ds.source_data(),
            s.projection.deep_view(),
        ),
        PhysicalPlan::Filter(f) => match exec_model(*f.input) {
            None => None,
            Some(b) => filter_step(f.predicate, b),
        },
        PhysicalPlan::Projection(pr) => match exec_model(*pr.input) {
            None => None,
            Some(b) => project_exec_model(pr.schema@, pr.exprs@, b),
        },
    }
}

/// The fault one filter stage owes on an input batch, if any: the predicate's
/// own evaluation fault, or a type mismatch for a predicate that yields a
/// bare scalar, a non-boolean column, or a column short of the row count.
pub open spec fn filter_fault(pred: PhysicalExpression, b: BatchModel) -> Option<EvalFault> {
    match eval_expr(pred, b) {
        Err(f) => Some(f),
        Ok(v) => match v {
            ColumnarModel::Scalar(_) => Some(EvalFault::Mismatch),
            ColumnarModel::Array(m) => if m.data_type == DataType::Boolean && m.values.len()
                == b.rows {
                None
            } else {
                Some(EvalFault::Mismatch)
            },
        },
    }
}

/// The evaluation fault a plan deterministically owes, if any: the innermost
/// stage's refusal, with a filter's or projection's own fault counted only
/// once its input owes success. A plan that owes no evaluation fault may
/// still fail, but only with the source's own error.
pub open spec fn exec_fault<S: DataSource>(p: PhysicalPlan<S>) -> Option<EvalFault>
    decreases p,
{
    match p {
        PhysicalPlan::Scan(_) => None,
        PhysicalPlan::Filter(f) => match exec_model(*f.input) {
            None => exec_fault(*f.input),
            Some(b) => filter_fault(f.predicate, b),
        },
        PhysicalPlan::Projection(pr) => match exec_model(*pr.input) {
            None => exec_fault(*pr.input),
            Some(b) => crate::physical::plan::projection::project_fault(
                pr.schema@,
                pr.exprs@,
                b,
            ),
        },
    }
}

/// A plan that owes an evaluation fault owes failure.
pub proof fn lemma_exec_fault_model<S: DataSource>(p: &PhysicalPlan<S>)
    ensures
        exec_fault(*p) is Some ==> exec_model(*p) is None,
    decreases *p,
{
    match p {
        PhysicalPlan::Scan(_) => {},
        PhysicalPlan::Filter(f) => {
            lemma_exec_fault_model(&*f.input);
        },
        PhysicalPlan::Projection(pr) => {
            lemma_exec_fault_model(&*pr.input);
        },
    }
}

/// The schema a physical plan produces: a scan the (projected) source schema,
/// a filter its input's schema unchanged, a projection its owned schema.
pub open spec fn phys_schema<S: DataSource>(p: PhysicalPlan<S>) -> Result<
    Seq<FieldModel>,
    FaultModel,
>
    decreases p,
{
    match p {
        PhysicalPlan::Scan(s) => scan_schema_model(s.ds.source_schema(), s.projection.deep_view()),
        PhysicalPlan::Filter(f) => phys_schema(*f.input),
        PhysicalPlan::Projection(pr) => Ok(pr.schema@),
    }
}

impl<S: DataSource> PhysicalPlan<S> {
    /// Executes the plan against its source, producing one batch: exactly the
    /// batch [`exec_model`] describes whenever execution succeeds, so two
    /// executions against a stable source cannot disagree. A plan whose model
    /// owes failure fails; every failure is either the source's own error or
    /// of exactly the kind [`exec_fault`] owes — never an unknown column,
    /// since every name was bound at planning time.
    pub fn execute(&self) -> (r: Result<Batch, DBError>)
        ensures
            r matches Ok(b) ==> exec_model(*self) == Some(b@) && batch_wf(b@),
            exec_model(*self) is None ==> r is Err,
            r matches Err(e) ==> e is SourceError || (exec_fault(*self) matches Some(f)
                && matches_eval_fault(e, f)),
            r matches Err(e) ==> !(e is UnknownColumn),
        decreases *self,
    {
        match self {
            PhysicalPlan::Projection(exec) => exec.execute(),
            PhysicalPlan::Filter(exec) => exec.execute(),
            PhysicalPlan::Scan(exec) => exec.execute(),
        }
    }

    /// Law of idempotence: executing one physical plan twice against a stable
    /// source yields identical output batches — any two results that
    /// `execute` may return agree whenever both succeed.
    pub proof fn lemma_execute_idempotent(
        &self,
        r1: Result<Batch, DBError>,
        r2: Result<Batch, DBError>,
    )
        requires
            call_ensures(PhysicalPlan::<S>::execute, (self,), r1),
            call_ensures(PhysicalPlan::<S>::execute, (self,), r2),
        ensures
            r1 matches Ok(b1) ==> r2 matches Ok(b2) ==> b1@ == b2@,
    {
    }

    /// The schema of the batches this plan produces.
    pub fn schema(&self) -> (r: Result<Schema, DBError>)
        ensures
            match r {
                Ok(s) => phys_schema(*self) == Ok::<Seq<FieldModel>, FaultModel>(s@),
                Err(e) => phys_schema(*self) matches Err(f) && matches_fault(e, f),
            },
        decreases *self,
    {
        match self {
            PhysicalPlan::Scan(s) => s.schema(),
            PhysicalPlan::Filter(f) => f.input.schema(),
            PhysicalPlan::Projection(p) => Ok(p.schema.clone()),
        }
    }
}

} // verus!
