use vstd::prelude::*;

use crate::datasource::DataSource;
use crate::datatypes::schema::{lookup, Field, FieldModel, Schema};
use crate::error::{matches_fault, DBError};
use crate::logical::plan::plan::{plan_schema, LogicalPlan};

verus! {

/// A reference to a column of the upstream schema, by name.
#[derive(Debug)]
pub struct Column {
    pub name: String,
}

/// The field a column reference resolves to in a schema: the first field of
/// that name, or an unknown-column fault.
pub open spec fn column_field(schema: Seq<FieldModel>, name: Seq<char>) -> Option<FieldModel> {
    match lookup(schema, name) {
        Some(i) => Some(schema[i]),
        None => None,
    }
}

impl Clone for Column {
    fn clone(&self) -> (res: Self)
        ensures
            res == *self,
    {
        Column { name: self.name.clone() }
    }
}

impl Column {
    /// Builds a column reference.
    pub fn new(name: String) -> (r: Column)
        ensures
            r == (Column { name }),
    {
        Column { name }
    }

    /// Resolves this column to its field in a schema; fails with
    /// `UnknownColumn` exactly when no field has this name.
    pub fn to_field(&self, schema: &Schema) -> (r: Result<Field, DBError>)
        ensures
            match r {
                Ok(f) => column_field(schema@, self.name@) == Some(f@),
                Err(e) => column_field(schema@, self.name@) is None && e == DBError::UnknownColumn(
                    self.name,
                ),
            },
    {
        match schema.index_of(&self.name) {
            Some(i) => Ok(schema.field(i).clone()),
            None => Err(DBError::UnknownColumn(self.name.clone())),
        }
    }

    /// Resolves this column against the schema a plan produces.
    pub fn to_field_from_plan<S: DataSource>(&self, plan: &LogicalPlan<S>) -> (r: Result<
        Field,
        DBError,
    >)
        ensures
            match r {
                Ok(f) => plan_schema(*plan) matches Ok(s) && column_field(s, self.name@) == Some(
                    f@,
                ),
                Err(e) => match plan_schema(*plan) {
                    Ok(s) => column_field(s, self.name@) is None && e == DBError::UnknownColumn(
                        self.name,
                    ),
                    Err(f) => matches_fault(e, f),
                },
            },
    {
        match plan.schema() {
            Ok(s) => self.to_field(&s),
            Err(e) => Err(e),
        }
    }
}

} // verus!
