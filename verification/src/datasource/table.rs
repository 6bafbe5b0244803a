use vstd::prelude::*;

use crate::datasource::{project_by_names, DataSource};
use crate::datatypes::array::{batch_is_wf, Batch, BatchModel};
use crate::datatypes::schema::{FieldModel, Schema};
use crate::error::DBError;

verus! {

/// An in-memory table: a source over one batch that the embedder supplies
/// (rows it read from a file, received over a wire, or built by hand).
#[derive(Debug)]
pub struct TableSource {
    pub data: Batch,
}

impl TableSource {
    /// Wraps a batch as a data source.
    pub fn new(data: Batch) -> (r: TableSource)
        ensures
            r.data == data,
    {
        TableSource { data }
    }
}

impl DataSource for TableSource {
    open spec fn source_schema(&self) -> Seq<FieldModel> {
        self.data@.schema
    }

    open spec fn source_data(&self) -> BatchModel {
        self.data@
    }

    fn schema(&self) -> (s: Schema) {
        self.data.schema.clone()
    }

    fn scan(&self, projection: &Option<Vec<String>>) -> (r: Result<Batch, DBError>) {
        if !batch_is_wf(&self.data) {
            return Err(
                DBError::SourceError(String::from_str("the table's columns do not fit its schema")),
            );
        }
        match projection {
            None => Ok(self.data.clone()),
            Some(names) => project_by_names(&self.data, names),
        }
    }
}

} // verus!
