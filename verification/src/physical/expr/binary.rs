use vstd::prelude::*;

use crate::datatypes::array::{Batch, ColumnArray};
use crate::datatypes::eval::{combined_type, eval_op, scalar_op, OpOutcome};
use crate::datatypes::operator::Operator;
use crate::datatypes::values::{ScalarModel, ScalarValue};
use crate::error::DBError;
use crate::physical::expr::{
    combine_columnar, eval_expr, zip_arrays, zip_values, ColumnarModel, ColumnarValue, EvalFault,
    PhysicalExpression,
};
use std::sync::Arc;

verus! {

/// A binary application of an operator to two shared physical
/// subexpressions.
#[derive(Debug)]
pub struct BinaryExpr {
    pub lhs: Arc<PhysicalExpression>,
    pub op: Operator,
    pub rhs: Arc<PhysicalExpression>,
}

impl BinaryExpr {
    /// Builds a binary physical expression.
    pub fn new(lhs: Arc<PhysicalExpression>, op: Operator, rhs: Arc<PhysicalExpression>) -> (r:
        BinaryExpr)
        ensures
            r == (BinaryExpr { lhs, op, rhs }),
    {
        BinaryExpr { lhs, op, rhs }
    }

    /// Evaluates both children (order is unobservable: evaluation has no side
    /// effects) and combines them under the broadcast rule.
    pub fn evalate(&self, batch: &Batch) -> (r: Result<ColumnarValue, DBError>)
        ensures
            match eval_expr(PhysicalExpression::Binary(*self), batch@) {
                Ok(v) => r matches Ok(cv) && cv@ == v,
                Err(EvalFault::Mismatch) => r matches Err(e) && e is TypeMismatch,
                Err(EvalFault::DivZero) => r == Err::<ColumnarValue, DBError>(
                    DBError::DivideByZero,
                ),
            },
            r matches Err(e) ==> !(e is UnknownColumn) && !(e is SourceError) && !(
            e is NotImplemented),
        decreases *self,
    {
        let lhs = match self.lhs.evalate(batch) {
            Ok(v) => v,
            Err(e) => {
                return Err(e);
            },
        };
        let rhs = match self.rhs.evalate(batch) {
            Ok(v) => v,
            Err(e) => {
                return Err(e);
            },
        };
        Self::apply(&self.op, &lhs, &rhs)
    }

    /// Combines two evaluated operands under the broadcast rule: scalar with
    /// scalar directly, a scalar beside an array broadcast to the array's
    /// length, two arrays element-wise when their lengths agree.
    fn apply(op: &Operator, lhs: &ColumnarValue, rhs: &ColumnarValue) -> (r: Result<
        ColumnarValue,
        DBError,
    >)
        ensures
            match combine_columnar(*op, lhs@, rhs@) {
                Ok(v) => r matches Ok(cv) && cv@ == v,
                Err(EvalFault::Mismatch) => r matches Err(e) && e is TypeMismatch,
                Err(EvalFault::DivZero) => r == Err::<ColumnarValue, DBError>(
                    DBError::DivideByZero,
                ),
            },
            r matches Err(e) ==> !(e is UnknownColumn) && !(e is SourceError) && !(
            e is NotImplemented),
    {
        match (lhs, rhs) {
            (ColumnarValue::Scalar(a), ColumnarValue::Scalar(b)) => match eval_op(op, a, b) {
                Ok(v) => Ok(ColumnarValue::Scalar(v)),
                Err(e) => Err(e),
            },
            (ColumnarValue::Array(a), ColumnarValue::Scalar(b)) => {
                let broadcast = b.to_array(a.len());
                zip_columns(op, a, &broadcast)
            },
            (ColumnarValue::Scalar(a), ColumnarValue::Array(b)) => {
                let broadcast = a.to_array(b.len());
                zip_columns(op, &broadcast, b)
            },
            (ColumnarValue::Array(a), ColumnarValue::Array(b)) => {
                if a.len() != b.len() {
                    Err(
                        DBError::TypeMismatch(
                            String::from_str("arrays of unequal lengths do not combine"),
                        ),
                    )
                } else {
                    zip_columns(op, a, b)
                }
            },
        }
    }
}

/// Applies an operator element-wise to two columns of equal length.
#[verifier::loop_isolation(false)]
fn zip_columns(op: &Operator, a: &ColumnArray, b: &ColumnArray) -> (r: Result<
    ColumnarValue,
    DBError,
>)
    requires
        a@.values.len() == b@.values.len(),
    ensures
        match zip_arrays(*op, a@, b@) {
            Ok(v) => r matches Ok(cv) && cv@ == v,
            Err(EvalFault::Mismatch) => r matches Err(e) && e is TypeMismatch,
            Err(EvalFault::DivZero) => r == Err::<ColumnarValue, DBError>(DBError::DivideByZero),
        },
        r matches Err(e) ==> !(e is UnknownColumn) && !(e is SourceError) && !(
        e is NotImplemented),
{
    let k = match combined_type(op, a.data_type, b.data_type) {
        Some(k) => k,
        None => {
            return Err(
                DBError::TypeMismatch(
                    String::from_str("column element types do not combine under the operator"),
                ),
            );
        },
    };
    let n = a.len();
    let mut values: Vec<ScalarValue> = Vec::new();
    let mut i: usize = 0;
    while i < n
        invariant
            n as nat == a@.values.len(),
            a@.values.len() == b@.values.len(),
            i <= n,
            values@.len() == i as nat,
            forall|j: int|
                0 <= j < i ==> scalar_op(*op, #[trigger] a@.values[j], b@.values[j]) is Value,
            forall|j: int|
                0 <= j < i ==> scalar_op(*op, a@.values[j], b@.values[j]) == OpOutcome::Value(
                    (#[trigger] values@[j])@,
                ),
        decreases n - i,
    {
        match eval_op(op, a.value(i), b.value(i)) {
            Ok(v) => {
                values.push(v);
            },
            Err(e) => {
                proof {
                    lemma_zip_values_err(*op, a@.values, b@.values, 0, i as int);
                }
                return Err(e);
            },
        }
        i += 1;
    }
    let out = ColumnArray::new(k, values);
    proof {
        lemma_zip_values_ok(*op, a@.values, b@.values, 0);
        assert(out@.values =~= zip_values(*op, a@.values, b@.values, 0)->Ok_0);
        assert(out@ =~= zip_arrays(*op, a@, b@)->Ok_0->Array_0);
    }
    Ok(ColumnarValue::Array(out))
}

/// When the operator succeeds on every row from `i` on, the zipped column is
/// exactly the row-wise results in order.
proof fn lemma_zip_values_ok(op: Operator, xs: Seq<ScalarModel>, ys: Seq<ScalarModel>, i: int)
    requires
        0 <= i <= xs.len(),
        xs.len() == ys.len(),
        forall|j: int| i <= j < xs.len() ==> scalar_op(op, #[trigger] xs[j], ys[j]) is Value,
    ensures
        zip_values(op, xs, ys, i) matches Ok(vs) && vs.len() == xs.len() - i && forall|j: int|
            i <= j < xs.len() ==> (scalar_op(op, #[trigger] xs[j], ys[j]) matches OpOutcome::Value(
                v,
            ) && vs[j - i] == v),
    decreases xs.len() - i,
{
    if i < xs.len() {
        lemma_zip_values_ok(op, xs, ys, i + 1);
    }
}

/// When the operator fails first at row `e`, the zip fails with that row's
/// fault.
proof fn lemma_zip_values_err(
    op: Operator,
    xs: Seq<ScalarModel>,
    ys: Seq<ScalarModel>,
    i: int,
    e: int,
)
    requires
        0 <= i <= e < xs.len(),
        xs.len() == ys.len(),
        forall|j: int| i <= j < e ==> scalar_op(op, #[trigger] xs[j], ys[j]) is Value,
        !(scalar_op(op, xs[e], ys[e]) is Value),
    ensures
        zip_values(op, xs, ys, i) == (if scalar_op(op, xs[e], ys[e]) is Mismatch {
            Err::<Seq<ScalarModel>, EvalFault>(EvalFault::Mismatch)
        } else {
            Err::<Seq<ScalarModel>, EvalFault>(EvalFault::DivZero)
        }),
    decreases e - i,
{
    if i < e {
        lemma_zip_values_err(op, xs, ys, i + 1, e);
    }
}

} // verus!
