pub mod binary;
pub mod column;
pub mod literal;

use vstd::prelude::*;

use crate::datatypes::array::{array_of, ArrayModel, Batch, BatchModel, ColumnArray};
use crate::datatypes::eval::{combine_kind, scalar_op, OpOutcome};
use crate::datatypes::operator::Operator;
use crate::datatypes::values::{ScalarModel, ScalarValue};
use crate::error::DBError;

verus! {

/// The result of evaluating one expression over one batch: a full column, or
/// a single scalar that broadcasts implicitly.
#[derive(Debug, PartialEq, Eq)]
pub enum ColumnarValue {
    /// A full column, one element per row.
    Array(ColumnArray),
    /// A single scalar, broadcastable to any row count.
    Scalar(ScalarValue),
}

/// The mathematical model of a [`ColumnarValue`].
#[verifier::ext_equal]
pub enum ColumnarModel {
    Array(ArrayModel),
    Scalar(ScalarModel),
}

impl View for ColumnarValue {
    type V = ColumnarModel;

    open spec fn view(&self) -> ColumnarModel {
        match self {
            ColumnarValue::Array(a) => ColumnarModel::Array(a@),
            ColumnarValue::Scalar(s) => ColumnarModel::Scalar(s@),
        }
    }
}

/// The array a columnar value materializes to at a row count: an array stays
/// as it is; a scalar broadcasts.
pub open spec fn into_array_model(v: ColumnarModel, n: nat) -> ArrayModel {
    match v {
        ColumnarModel::Array(a) => a,
        ColumnarModel::Scalar(s) => array_of(s, n),
    }
}

impl ColumnarValue {
    /// Materializes the value as an array of `num_rows` rows: an array is
    /// returned as it is, a scalar broadcasts.
    pub fn into_array(self, num_rows: usize) -> (r: Result<ColumnArray, DBError>)
        ensures
            r matches Ok(a) && a@ == into_array_model(self@, num_rows as nat),
    {
        match self {
            ColumnarValue::Array(a) => Ok(a),
            ColumnarValue::Scalar(s) => Ok(s.to_array(num_rows)),
        }
    }
}

impl ScalarValue {
    /// Wraps the scalar as a columnar value, to stand beside arrays in an
    /// evaluation without materializing it.
    pub fn to_scalar(&self) -> (r: Result<ColumnarValue, DBError>)
        ensures
            r matches Ok(cv) && cv@ == ColumnarModel::Scalar(self@),
    {
        Ok(ColumnarValue::Scalar(self.clone()))
    }
}

/// How an expression evaluation fails: the operand types (or shapes) do not
/// combine, or an integer division by zero occurs.
pub enum EvalFault {
    Mismatch,
    DivZero,
}

/// Whether an error is of the kind an evaluation fault owes: a type mismatch,
/// or exactly the division-by-zero error.
pub open spec fn matches_eval_fault(e: DBError, f: EvalFault) -> bool {
    match f {
        EvalFault::Mismatch => e is TypeMismatch,
        EvalFault::DivZero => e == DBError::DivideByZero,
    }
}

/// The element-wise results of an operator over two columns from row `i` on;
/// the leftmost failing row is the fault.
pub open spec fn zip_values(
    op: Operator,
    xs: Seq<ScalarModel>,
    ys: Seq<ScalarModel>,
    i: int,
) -> Result<Seq<ScalarModel>, EvalFault>
    decreases xs.len() - i,
{
    if i < 0 || i >= xs.len() {
        Ok(Seq::empty())
    } else {
        match scalar_op(op, xs[i], ys[i]) {
            OpOutcome::Value(v) => match zip_values(op, xs, ys, i + 1) {
                Ok(rest) => Ok(seq![v] + rest),
                Err(f) => Err(f),
            },
            OpOutcome::Mismatch => Err(EvalFault::Mismatch),
            OpOutcome::DivideByZero => Err(EvalFault::DivZero),
        }
    }
}

/// An operator applied element-wise to two columns of equal length: the
/// result column has the combined element type.
pub open spec fn zip_arrays(op: Operator, a: ArrayModel, b: ArrayModel) -> Result<
    ColumnarModel,
    EvalFault,
> {
    match combine_kind(op, a.data_type, b.data_type) {
        None => Err(EvalFault::Mismatch),
        Some(k) => match zip_values(op, a.values, b.values, 0) {
            Ok(vs) => Ok(ColumnarModel::Array(ArrayModel { data_type: k, values: vs })),
            Err(f) => Err(f),
        },
    }
}

/// The broadcast rule: scalar with scalar combines directly; a scalar beside
/// an array broadcasts to the array's length; two arrays must have equal
/// lengths and combine element-wise.
pub open spec fn combine_columnar(op: Operator, l: ColumnarModel, r: ColumnarModel) -> Result<
    ColumnarModel,
    EvalFault,
> {
    match (l, r) {
        (ColumnarModel::Scalar(a), ColumnarModel::Scalar(b)) => match scalar_op(op, a, b) {
            OpOutcome::Value(v) => Ok(ColumnarModel::Scalar(v)),
            OpOutcome::Mismatch => Err(EvalFault::Mismatch),
            OpOutcome::DivideByZero => Err(EvalFault::DivZero),
        },
        (ColumnarModel::Array(a), ColumnarModel::Scalar(b)) => zip_arrays(
            op,
            a,
            array_of(b, a.values.len()),
        ),
        (ColumnarModel::Scalar(a), ColumnarModel::Array(b)) => zip_arrays(
            op,
            array_of(a, b.values.len()),
            b,
        ),
        (ColumnarModel::Array(a), ColumnarModel::Array(b)) => if a.values.len() == b.values.len() {
            zip_arrays(op, a, b)
        } else {
            Err(EvalFault::Mismatch)
        },
    }
}

/// The element type a columnar value carries.
pub open spec fn cval_kind(v: ColumnarModel) -> crate::datatypes::values::DataType {
    match v {
        ColumnarModel::Array(a) => a.data_type,
        ColumnarModel::Scalar(s) => crate::datatypes::values::scalar_kind(s),
    }
}

/// Whether a columnar value fits a batch of `rows` rows: an array must be
/// uniformly typed and of that length; a scalar always fits.
pub open spec fn cval_fits(v: ColumnarModel, rows: nat) -> bool {
    match v {
        ColumnarModel::Array(a) => crate::datatypes::array::array_wf(a) && a.values.len() == rows,
        ColumnarModel::Scalar(_) => true,
    }
}

/// Zipping rows whose element types combine at `k` cannot mismatch: it yields
/// a column uniformly of type `k`, or stops at a division by zero.
proof fn lemma_zip_values_typed(
    op: Operator,
    xs: Seq<ScalarModel>,
    ys: Seq<ScalarModel>,
    i: int,
    k: crate::datatypes::values::DataType,
)
    requires
        xs.len() == ys.len(),
        0 <= i <= xs.len(),
        forall|j: int|
            i <= j < xs.len() ==> combine_kind(
                op,
                crate::datatypes::values::scalar_kind(#[trigger] xs[j]),
                crate::datatypes::values::scalar_kind(ys[j]),
            ) == Some(k),
    ensures
        match zip_values(op, xs, ys, i) {
            Ok(vs) => vs.len() == xs.len() - i && forall|m: int|
                0 <= m < vs.len() ==> crate::datatypes::values::scalar_kind(#[trigger] vs[m]) == k,
            Err(f) => f is DivZero,
        },
    decreases xs.len() - i,
{
    if i < xs.len() {
        crate::datatypes::eval::lemma_scalar_op_kind(op, xs[i], ys[i]);
        lemma_zip_values_typed(op, xs, ys, i + 1, k);
    }
}

/// Combining two values that fit a batch and whose element types combine
/// cannot mismatch: the result carries the combined type and fits the batch;
/// only a division by zero can stop it.
pub proof fn lemma_combine_columnar_typed(
    op: Operator,
    l: ColumnarModel,
    r: ColumnarModel,
    rows: nat,
)
    requires
        cval_fits(l, rows),
        cval_fits(r, rows),
        combine_kind(op, cval_kind(l), cval_kind(r)) is Some,
    ensures
        match combine_columnar(op, l, r) {
            Ok(v) => Some(cval_kind(v)) == combine_kind(op, cval_kind(l), cval_kind(r))
                && cval_fits(v, rows),
            Err(f) => f is DivZero,
        },
{
    let k = combine_kind(op, cval_kind(l), cval_kind(r))->Some_0;
    match (l, r) {
        (ColumnarModel::Scalar(a), ColumnarModel::Scalar(b)) => {
            crate::datatypes::eval::lemma_scalar_op_kind(op, a, b);
        },
        (ColumnarModel::Array(a), ColumnarModel::Scalar(b)) => {
            let bb = array_of(b, a.values.len());
            lemma_zip_values_typed(op, a.values, bb.values, 0, k);
        },
        (ColumnarModel::Scalar(a), ColumnarModel::Array(b)) => {
            let aa = array_of(a, b.values.len());
            lemma_zip_values_typed(op, aa.values, b.values, 0, k);
        },
        (ColumnarModel::Array(a), ColumnarModel::Array(b)) => {
            lemma_zip_values_typed(op, a.values, b.values, 0, k);
        },
    }
}

/// Law of broadcast correctness: combining an array with a bare scalar is the
/// same as combining it with that scalar materialized to the array's length,
/// on either side, for every operator.
pub proof fn lemma_broadcast(op: Operator, a: ArrayModel, s: ScalarModel)
    ensures
        combine_columnar(op, ColumnarModel::Array(a), ColumnarModel::Scalar(s)) == combine_columnar(
            op,
            ColumnarModel::Array(a),
            ColumnarModel::Array(array_of(s, a.values.len())),
        ),
        combine_columnar(op, ColumnarModel::Scalar(s), ColumnarModel::Array(a)) == combine_columnar(
            op,
            ColumnarModel::Array(array_of(s, a.values.len())),
            ColumnarModel::Array(a),
        ),
{
    assert(array_of(s, a.values.len()).values.len() == a.values.len());
}

/// A position-bound, executable expression tree.
#[derive(Debug)]
pub enum PhysicalExpression {
    Binary(binary::BinaryExpr),
    Column(column::ColumnExpr),
    Literal(literal::LiteralExpr),
}

/// What evaluating an expression over a batch yields: a column reference
/// takes the batch's column at its index (a batch without that position is a
/// shape mismatch); a literal stays a scalar; a binary application evaluates
/// both children and combines them under the broadcast rule.
pub open spec fn eval_expr(e: PhysicalExpression, b: BatchModel) -> Result<
    ColumnarModel,
    EvalFault,
>
    decreases e,
{
    match e {
        PhysicalExpression::Column(c) => if (c.index as int) < b.columns.len() {
            Ok(ColumnarModel::Array(b.columns[c.index as int]))
        } else {
            Err(EvalFault::Mismatch)
        },
        PhysicalExpression::Literal(l) => Ok(ColumnarModel::Scalar(l.value@)),
        PhysicalExpression::Binary(be) => match eval_expr(*be.lhs, b) {
            Err(f) => Err(f),
            Ok(l) => match eval_expr(*be.rhs, b) {
                Err(f) => Err(f),
                Ok(r) => combine_columnar(be.op, l, r),
            },
        },
    }
}

/// [`eval_expr`], taken through a reference.
pub open spec fn eval_expr_at(e: &PhysicalExpression, b: BatchModel) -> Result<
    ColumnarModel,
    EvalFault,
> {
    eval_expr(*e, b)
}

impl PhysicalExpression {
    /// Evaluates the expression over a batch, exactly as [`eval_expr`]
    /// describes; evaluation never reports an unknown column, since every
    /// name was bound to a position at planning time.
    pub fn evalate(&self, batch: &Batch) -> (r: Result<ColumnarValue, DBError>)
        ensures
            match eval_expr(*self, batch@) {
                Ok(v) => r matches Ok(cv) && cv@ == v,
                Err(EvalFault::Mismatch) => r matches Err(e) && e is TypeMismatch,
                Err(EvalFault::DivZero) => r == Err::<ColumnarValue, DBError>(
                    DBError::DivideByZero,
                ),
            },
            r matches Err(e) ==> !(e is UnknownColumn) && !(e is SourceError) && !(
            e is NotImplemented),
        decreases *self,
    {
        match self {
            PhysicalExpression::Binary(e) => e.evalate(batch),
            PhysicalExpression::Column(e) => e.evalate(batch),
            PhysicalExpression::Literal(e) => e.evalate(batch),
        }
    }
}

} // verus!
