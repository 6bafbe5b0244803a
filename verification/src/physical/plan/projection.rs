use vstd::prelude::*;

use crate::datasource::DataSource;
use crate::datatypes::array::{batch_wf, columns_fit, ArrayModel, Batch, BatchModel};
use crate::datatypes::schema::{FieldModel, Schema};
use crate::error::DBError;
use crate::physical::expr::{
    eval_expr, into_array_model, matches_eval_fault, EvalFault, PhysicalExpression,
};
use crate::physical::plan::{exec_fault, exec_model, PhysicalPlan};
use std::sync::Arc;

verus! {

/// The executable projection: owns the output schema derived once at planning
/// time, and one physical expression per output column.
#[derive(Debug)]
pub struct ProjectionExec<S: DataSource> {
    pub input: Arc<PhysicalPlan<S>>,
    pub schema: Schema,
    pub exprs: Vec<PhysicalExpression>,
}

/// The arrays the projection's expressions evaluate to over a batch, each
/// materialized at the batch's row count, from position `i` on; the leftmost
/// failing expression is the fault.
pub open spec fn projected_arrays(
    exprs: Seq<PhysicalExpression>,
    b: BatchModel,
    i: int,
) -> Result<Seq<ArrayModel>, EvalFault>
    decreases exprs.len() - i,
{
    if i < 0 || i >= exprs.len() {
        Ok(Seq::empty())
    } else {
        match eval_expr(exprs[i], b) {
            Err(f) => Err(f),
            Ok(v) => match projected_arrays(exprs, b, i + 1) {
                Ok(rest) => Ok(seq![into_array_model(v, b.rows)] + rest),
                Err(f) => Err(f),
            },
        }
    }
}

/// The batch a projection produces from an input batch, when it produces one:
/// every expression must evaluate, and the resulting columns must fit the
/// projection's owned schema. With no expressions the result is a zero-column
/// batch that keeps the input's row count.
pub open spec fn project_exec_model(
    schema: Seq<FieldModel>,
    exprs: Seq<PhysicalExpression>,
    b: BatchModel,
) -> Option<BatchModel> {
    match projected_arrays(exprs, b, 0) {
        Err(_) => None,
        Ok(arrays) => {
            let rows = if arrays.len() == 0 {
                b.rows
            } else {
                arrays[0].values.len()
            };
            if columns_fit(schema, arrays, rows) {
                Some(BatchModel { schema, columns: arrays, rows })
            } else {
                None
            }
        },
    }
}

/// The fault one projection stage owes on an input batch, if any: the
/// leftmost expression's own evaluation fault, or a type mismatch when the
/// resulting columns do not fit the owned schema.
pub open spec fn project_fault(
    schema: Seq<FieldModel>,
    exprs: Seq<PhysicalExpression>,
    b: BatchModel,
) -> Option<EvalFault> {
    match projected_arrays(exprs, b, 0) {
        Err(f) => Some(f),
        Ok(arrays) => {
            let rows = if arrays.len() == 0 {
                b.rows
            } else {
                arrays[0].values.len()
            };
            if columns_fit(schema, arrays, rows) {
                None
            } else {
                Some(EvalFault::Mismatch)
            }
        },
    }
}

/// When every expression from `i` on evaluates, the projected arrays are
/// exactly the materialized results in order.
proof fn lemma_projected_arrays_ok(exprs: Seq<PhysicalExpression>, b: BatchModel, i: int)
    requires
        0 <= i <= exprs.len(),
        forall|j: int| i <= j < exprs.len() ==> eval_expr(#[trigger] exprs[j], b) is Ok,
    ensures
        projected_arrays(exprs, b, i) matches Ok(arrays) && arrays.len() == exprs.len() - i
            && forall|j: int|
            i <= j < exprs.len() ==> (eval_expr(#[trigger] exprs[j], b) matches Ok(v) && arrays[j
                - i] == into_array_model(v, b.rows)),
    decreases exprs.len() - i,
{
    if i < exprs.len() {
        lemma_projected_arrays_ok(exprs, b, i + 1);
    }
}

/// When some expression up to position `e` fails while the earlier ones
/// evaluate, the projection fails with the leftmost fault.
proof fn lemma_projected_arrays_err(
    exprs: Seq<PhysicalExpression>,
    b: BatchModel,
    i: int,
    e: int,
)
    requires
        0 <= i <= e < exprs.len(),
        forall|j: int| i <= j < e ==> eval_expr(#[trigger] exprs[j], b) is Ok,
        eval_expr(exprs[e], b) is Err,
    ensures
        projected_arrays(exprs, b, i) == Err::<Seq<ArrayModel>, EvalFault>(
            eval_expr(exprs[e], b)->Err_0,
        ),
    decreases e - i,
{
    if i < e {
        lemma_projected_arrays_err(exprs, b, i + 1, e);
    }
}

impl<S: DataSource> ProjectionExec<S> {
    /// Builds an executable projection.
    pub fn new(input: Arc<PhysicalPlan<S>>, schema: Schema, exprs: Vec<PhysicalExpression>) -> (r:
        ProjectionExec<S>)
        ensures
            r.input == input,
            r.schema == schema,
            r.exprs == exprs,
    {
        ProjectionExec { input, schema, exprs }
    }

    /// Pulls the input batch, evaluates every expression against it,
    /// materializes each result at the input's row count, and assembles the
    /// columns under the owned schema. With no expressions the result is a
    /// zero-column batch that keeps the input's row count.
    #[verifier::loop_isolation(false)]
    pub fn execute(&self) -> (r: Result<Batch, DBError>)
        ensures
            r matches Ok(b) ==> exec_model(PhysicalPlan::Projection(*self)) == Some(b@)
                && batch_wf(b@),
            exec_model(PhysicalPlan::Projection(*self)) is None ==> r is Err,
            r matches Err(e) ==> e is SourceError || (exec_fault(
                PhysicalPlan::Projection(*self),
            ) matches Some(f) && matches_eval_fault(e, f)),
            r matches Err(e) ==> !(e is UnknownColumn),
        decreases *self,
    {
        let batch = match self.input.execute() {
            Ok(b) => b,
            Err(e) => {
                proof {
                    crate::physical::plan::lemma_exec_fault_model(&*self.input);
                }
                return Err(e);
            },
        };
        let n = batch.num_rows();
        let mut columns: Vec<crate::datatypes::array::ColumnArray> = Vec::new();
        let mut i: usize = 0;
        while i < self.exprs.len()
            invariant
                columns@.len() == i as nat,
                i <= self.exprs@.len(),
                forall|j: int|
                    0 <= j < i ==> eval_expr(#[trigger] self.exprs@[j], batch@) is Ok,
                forall|j: int|
                    0 <= j < i ==> (#[trigger] columns@[j])@ == into_array_model(
                        eval_expr(self.exprs@[j], batch@)->Ok_0,
                        batch@.rows,
                    ),
            decreases self.exprs@.len() - i,
        {
            let cv = match self.exprs[i].evalate(&batch) {
                Ok(v) => v,
                Err(e) => {
                    proof {
                        lemma_projected_arrays_err(self.exprs@, batch@, 0, i as int);
                    }
                    return Err(e);
                },
            };
            let arr = match cv.into_array(n) {
                Ok(a) => a,
                Err(e) => {
                    return Err(e);
                },
            };
            columns.push(arr);
            i += 1;
        }
        proof {
            lemma_projected_arrays_ok(self.exprs@, batch@, 0);
            assert(columns@.map_values(|c: crate::datatypes::array::ColumnArray| c@)
                =~= projected_arrays(self.exprs@, batch@, 0)->Ok_0);
        }
        if columns.len() == 0 {
            crate::datatypes::array::Batch::try_new_with_row_count(self.schema.clone(), columns, n)
        } else {
            crate::datatypes::array::Batch::try_new(self.schema.clone(), columns)
        }
    }
}

} // verus!
