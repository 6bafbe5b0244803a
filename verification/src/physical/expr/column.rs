use vstd::prelude::*;

use crate::datatypes::array::Batch;
use crate::error::DBError;
use crate::physical::expr::{ColumnarModel, ColumnarValue};

verus! {

/// A column reference bound to a position: the index was resolved once, at
/// planning time, and execution never looks up by name again.
#[derive(Debug)]
pub struct ColumnExpr {
    /// The column name, kept for readability of plans.
    pub name: String,
    /// The column position in the input schema.
    pub index: usize,
}

impl ColumnExpr {
    /// Builds a bound column reference.
    pub fn new(name: String, index: usize) -> (r: ColumnExpr)
        ensures
            r.name == name,
            r.index == index,
    {
        ColumnExpr { name, index }
    }

    /// Takes the batch's column at this expression's position, shared without
    /// re-resolving the name; a batch without that position is a mismatch.
    pub fn evalate(&self, batch: &Batch) -> (r: Result<ColumnarValue, DBError>)
        ensures
            match r {
                Ok(cv) => (self.index as int) < batch@.columns.len() && cv@ == ColumnarModel::Array(
                    batch@.columns[self.index as int],
                ),
                Err(e) => (self.index as int) >= batch@.columns.len() && e is TypeMismatch,
            },
    {
        if self.index < batch.num_columns() {
            Ok(ColumnarValue::Array(batch.column(self.index).clone()))
        } else {
            Err(
                DBError::TypeMismatch(
                    String::from_str("the batch has no column at the bound position"),
                ),
            )
        }
    }
}

} // verus!
