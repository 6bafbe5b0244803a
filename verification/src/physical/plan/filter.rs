use vstd::prelude::*;

use crate::datasource::DataSource;
use crate::datatypes::array::{array_wf, batch_wf, ArrayModel, Batch, BatchModel, ColumnArray};
use crate::datatypes::values::{DataType, ScalarModel, ScalarValue};
use crate::error::DBError;
use crate::physical::expr::{matches_eval_fault, ColumnarValue, PhysicalExpression};
use crate::physical::plan::{exec_fault, exec_model, PhysicalPlan};
use std::sync::Arc;

verus! {

/// The executable filter: keeps only the input rows on which the predicate
/// evaluates to true.
#[derive(Debug)]
pub struct FilterExec<S: DataSource> {
    pub input: Arc<PhysicalPlan<S>>,
    pub predicate: PhysicalExpression,
}

/// Whether row `j` of a predicate column keeps its row: only a boolean true
/// does; false and null rows are dropped.
pub open spec fn keep_at(mask: Seq<ScalarModel>, j: int) -> bool {
    0 <= j < mask.len() && mask[j] == ScalarModel::Boolean(Some(true))
}

/// The values among the first `j` rows whose mask row keeps them, in the
/// original order.
pub open spec fn filtered_vals(
    vals: Seq<ScalarModel>,
    mask: Seq<ScalarModel>,
    j: int,
) -> Seq<ScalarModel>
    decreases j,
{
    if j <= 0 {
        Seq::empty()
    } else {
        filtered_vals(vals, mask, j - 1) + (if keep_at(mask, j - 1) {
            seq![vals[j - 1]]
        } else {
            Seq::empty()
        })
    }
}

/// How many of the first `j` mask rows keep their row.
pub open spec fn kept_count(mask: Seq<ScalarModel>, j: int) -> nat
    decreases j,
{
    if j <= 0 {
        0
    } else {
        kept_count(mask, j - 1) + (if keep_at(mask, j - 1) {
            1nat
        } else {
            0nat
        })
    }
}

/// The batch restricted to the rows the mask keeps: the schema is unchanged,
/// every column is filtered by the same mask, and the row count is the number
/// of kept rows.
pub open spec fn filter_batch_model(b: BatchModel, mask: Seq<ScalarModel>) -> BatchModel {
    BatchModel {
        schema: b.schema,
        columns: b.columns.map_values(
            |c: ArrayModel|
                ArrayModel {
                    data_type: c.data_type,
                    values: filtered_vals(c.values, mask, mask.len() as int),
                },
        ),
        rows: kept_count(mask, mask.len() as int),
    }
}

/// A filtered column is as long as the number of kept rows.
proof fn lemma_filtered_len(vals: Seq<ScalarModel>, mask: Seq<ScalarModel>, j: int)
    ensures
        filtered_vals(vals, mask, j).len() == kept_count(mask, j),
    decreases j,
{
    if j > 0 {
        lemma_filtered_len(vals, mask, j - 1);
    }
}

/// Filtering keeps every value's element type: a uniformly typed column stays
/// uniformly typed.
proof fn lemma_filtered_kinds(
    vals: Seq<ScalarModel>,
    mask: Seq<ScalarModel>,
    j: int,
    k: DataType,
)
    requires
        j <= vals.len(),
        forall|i: int|
            0 <= i < vals.len() ==> crate::datatypes::values::scalar_kind(#[trigger] vals[i]) == k,
    ensures
        forall|i: int|
            0 <= i < filtered_vals(vals, mask, j).len() ==> crate::datatypes::values::scalar_kind(
                #[trigger] filtered_vals(vals, mask, j)[i],
            ) == k,
    decreases j,
{
    if j > 0 {
        lemma_filtered_kinds(vals, mask, j - 1, k);
    }
}

/// Keeps the values of a column at the rows its mask keeps.
#[verifier::loop_isolation(false)]
pub fn filtered_column(c: &ColumnArray, mask: &ColumnArray) -> (r: ColumnArray)
    requires
        c@.values.len() == mask@.values.len(),
    ensures
        r@.data_type == c@.data_type,
        r@.values == filtered_vals(c@.values, mask@.values, mask@.values.len() as int),
{
    let n = c.len();
    let mut values: Vec<ScalarValue> = Vec::new();
    let mut j: usize = 0;
    while j < n
        invariant
            values@.map_values(|v: ScalarValue| v@) =~= filtered_vals(
                c@.values,
                mask@.values,
                j as int,
            ),
            j <= n,
        decreases n - j,
    {
        let keep = matches!(mask.value(j), ScalarValue::Boolean(Some(true)));
        proof {
            assert(keep == keep_at(mask@.values, j as int));
        }
        if keep {
            values.push(c.value(j).clone());
        }
        proof {
            assert(values@.map_values(|v: ScalarValue| v@) =~= filtered_vals(
                c@.values,
                mask@.values,
                j as int + 1,
            ));
        }
        j += 1;
    }
    let r = ColumnArray { data_type: c.data_type, values };
    r
}

/// Counts the rows a mask keeps.
#[verifier::loop_isolation(false)]
pub fn kept_rows(mask: &ColumnArray) -> (r: usize)
    ensures
        r as nat == kept_count(mask@.values, mask@.values.len() as int),
{
    let n = mask.len();
    let mut count: usize = 0;
    let mut j: usize = 0;
    while j < n
        invariant
            j <= n,
            count <= j,
            count as nat == kept_count(mask@.values, j as int),
        decreases n - j,
    {
        if matches!(mask.value(j), ScalarValue::Boolean(Some(true))) {
            count += 1;
        }
        j += 1;
    }
    count
}

impl<S: DataSource> FilterExec<S> {
    /// Builds an executable filter.
    pub fn new(input: Arc<PhysicalPlan<S>>, predicate: PhysicalExpression) -> (r: FilterExec<S>)
        ensures
            r.input == input,
            r.predicate == predicate,
    {
        FilterExec { input, predicate }
    }

    /// Pulls the input batch, evaluates the predicate over it, and keeps
    /// exactly the rows on which the predicate is true (false and null rows
    /// are dropped), in the original order, under the input's schema. A
    /// predicate that yields a bare scalar, a non-boolean column, or a column
    /// short of the row count is refused with a type mismatch.
    #[verifier::loop_isolation(false)]
    pub fn execute(&self) -> (r: Result<Batch, DBError>)
        ensures
            r matches Ok(b) ==> exec_model(PhysicalPlan::Filter(*self)) == Some(b@) && batch_wf(
                b@,
            ),
            exec_model(PhysicalPlan::Filter(*self)) is None ==> r is Err,
            r matches Err(e) ==> e is SourceError || (exec_fault(
                PhysicalPlan::Filter(*self),
            ) matches Some(f) && matches_eval_fault(e, f)),
            r matches Err(e) ==> !(e is UnknownColumn),
        decreases *self,
    {
        let batch = match self.input.execute() {
            Ok(b) => b,
            Err(e) => {
                proof {
                    crate::physical::plan::lemma_exec_fault_model(&*self.input);
                }
                return Err(e);
            },
        };
        let cv = match self.predicate.evalate(&batch) {
            Ok(v) => v,
            Err(e) => {
                return Err(e);
            },
        };
        let mask = match cv {
            ColumnarValue::Array(a) => a,
            ColumnarValue::Scalar(_) => {
                return Err(
                    DBError::TypeMismatch(
                        String::from_str(
                            "the filter predicate must yield a boolean column, not a bare scalar",
                        ),
                    ),
                );
            },
        };
        if !(mask.data_type == DataType::Boolean) {
            return Err(
                DBError::TypeMismatch(String::from_str("the filter predicate must yield booleans")),
            );
        }
        if mask.len() != batch.num_rows() {
            return Err(
                DBError::TypeMismatch(
                    String::from_str("the filter predicate column must cover every row"),
                ),
            );
        }
        let rows = kept_rows(&mask);
        let mut columns: Vec<ColumnArray> = Vec::new();
        let mut i: usize = 0;
        while i < batch.num_columns()
            invariant
                columns@.len() == i as nat,
                i <= batch@.columns.len(),
                forall|j: int|
                    0 <= j < i ==> (#[trigger] columns@[j])@ == (ArrayModel {
                        data_type: batch@.columns[j].data_type,
                        values: filtered_vals(
                            batch@.columns[j].values,
                            mask@.values,
                            mask@.values.len() as int,
                        ),
                    }),
            decreases batch@.columns.len() - i,
        {
            columns.push(filtered_column(batch.column(i), &mask));
            i += 1;
        }
        let out = Batch { schema: batch.schema.clone(), columns, row_count: rows };
        proof {
            let m = filter_batch_model(batch@, mask@.values);
            assert(out@.columns =~= m.columns);
            assert(out@ == m);
            assert forall|j: int| 0 <= j < out@.columns.len() implies {
                &&& array_wf(#[trigger] out@.columns[j])
                &&& out@.columns[j].values.len() == out@.rows
                &&& out@.columns[j].data_type == out@.schema[j].data_type
            } by {
                lemma_filtered_len(batch@.columns[j].values, mask@.values, mask@.values.len() as int);
                lemma_filtered_kinds(
                    batch@.columns[j].values,
                    mask@.values,
                    mask@.values.len() as int,
                    batch@.columns[j].data_type,
                );
            }
            assert(batch_wf(out@));
        }
        Ok(out)
    }
}

} // verus!
