use vstd::prelude::*;

use crate::datatypes::array::Batch;
use crate::datatypes::values::ScalarValue;
use crate::error::DBError;
use crate::physical::expr::{ColumnarModel, ColumnarValue};

verus! {

/// A literal scalar in a physical expression tree.
#[derive(Debug)]
pub struct LiteralExpr {
    pub value: ScalarValue,
}

impl LiteralExpr {
    /// Builds a literal expression.
    pub fn new(value: ScalarValue) -> (r: LiteralExpr)
        ensures
            r.value == value,
    {
        LiteralExpr { value }
    }

    /// Yields the literal as a scalar, deferring any materialization until an
    /// operation requires it.
    pub fn evalate(&self, _batch: &Batch) -> (r: Result<ColumnarValue, DBError>)
        ensures
            r matches Ok(cv) && cv@ == ColumnarModel::Scalar(self.value@),
    {
        Ok(ColumnarValue::Scalar(self.value.clone()))
    }
}

} // verus!
