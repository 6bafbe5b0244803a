pub mod mem_source;
pub mod table;

use vstd::prelude::*;

use crate::datatypes::array::{batch_wf, Batch, BatchModel, ColumnArray};
use crate::datatypes::schema::{lookup, Field, FieldModel};
use crate::error::DBError;

verus! {

/// The index of the first field with a name, or zero when no field has it
/// (meaningful only where the name is known to occur).
pub open spec fn lookup_idx(schema: Seq<FieldModel>, name: Seq<char>) -> int {
    match lookup(schema, name) {
        Some(i) => i,
        None => 0,
    }
}

/// Whether every projected name occurs in a schema.
pub open spec fn proj_names_ok(schema: Seq<FieldModel>, names: Seq<Seq<char>>) -> bool {
    forall|i: int| 0 <= i < names.len() ==> lookup(schema, #[trigger] names[i]) is Some
}

/// The batch restricted to the named columns, in the requested order; each
/// name selects the first field bearing it.
pub open spec fn project_model(data: BatchModel, names: Seq<Seq<char>>) -> BatchModel {
    BatchModel {
        schema: Seq::new(names.len(), |i: int| data.schema[lookup_idx(data.schema, names[i])]),
        columns: Seq::new(names.len(), |i: int| data.columns[lookup_idx(data.schema, names[i])]),
        rows: data.rows,
    }
}

/// What a scan of a source owes: the source's one batch, restricted to the
/// projected names when a projection is pushed down. A source whose data does
/// not fit its schema, or a projection naming an absent column, owes failure.
pub open spec fn scan_model(
    schema: Seq<FieldModel>,
    data: BatchModel,
    proj: Option<Seq<Seq<char>>>,
) -> Option<BatchModel> {
    if !(batch_wf(data) && data.schema == schema) {
        None
    } else {
        match proj {
            None => Some(data),
            Some(names) => if proj_names_ok(schema, names) {
                Some(project_model(data, names))
            } else {
                None
            },
        }
    }
}

/// A tabular data source collaborator: it can describe its schema and
/// materialize one batch, optionally restricted to named columns.
///
/// `source_schema` and `source_data` model what the source would produce; a
/// scan that succeeds returns exactly the modelled batch, and every failure
/// it reports is a source error.
pub trait DataSource: Sized {
    /// The schema the source can produce.
    spec fn source_schema(&self) -> Seq<FieldModel>;

    /// The one batch the source would materialize.
    spec fn source_data(&self) -> BatchModel;

    /// Describes the source's full schema.
    fn schema(&self) -> (s: crate::datatypes::schema::Schema)
        ensures
            s@ == self.source_schema(),
    ;

    /// Materializes one batch, restricted to (and ordered as) the projected
    /// names when a projection is given.
    fn scan(&self, projection: &Option<Vec<String>>) -> (r: Result<Batch, DBError>)
        ensures
            r matches Ok(b) ==> scan_model(
                self.source_schema(),
                self.source_data(),
                projection.deep_view(),
            ) == Some(b@) && batch_wf(b@),
            scan_model(self.source_schema(), self.source_data(), projection.deep_view()) is None
                ==> r is Err,
            r matches Err(e) ==> e is SourceError,
    ;
}

/// Restricts a well-formed batch to the named columns, in the requested
/// order; fails when a name is absent from the batch's schema.
pub fn project_by_names(data: &Batch, names: &Vec<String>) -> (r: Result<Batch, DBError>)
    requires
        batch_wf(data@),
    ensures
        r matches Ok(b) ==> proj_names_ok(data@.schema, names.deep_view()) && b@ == project_model(
            data@,
            names.deep_view(),
        ) && batch_wf(b@),
        r matches Err(e) ==> !proj_names_ok(data@.schema, names.deep_view()) && e is SourceError,
{
    let mut fields: Vec<Field> = Vec::new();
    let mut columns: Vec<ColumnArray> = Vec::new();
    let mut i: usize = 0;
    while i < names.len()
        invariant
            batch_wf(data@),
            i <= names.len(),
            fields@.len() == i as nat,
            columns@.len() == i as nat,
            forall|j: int|
                0 <= j < i ==> lookup(data@.schema, #[trigger] names.deep_view()[j]) is Some,
            forall|j: int|
                0 <= j < i ==> (#[trigger] fields@[j])@ == data@.schema[lookup_idx(
                    data@.schema,
                    names.deep_view()[j],
                )],
            forall|j: int|
                0 <= j < i ==> (#[trigger] columns@[j])@ == data@.columns[lookup_idx(
                    data@.schema,
                    names.deep_view()[j],
                )],
        decreases names.len() - i,
    {
        proof {
            assert(names.deep_view()[i as int] == names@[i as int]@);
        }
        match data.schema.index_of(&names[i]) {
            Some(idx) => {
                fields.push(data.schema.field(idx).clone());
                columns.push(data.column(idx).clone());
            },
            None => {
                return Err(
                    DBError::SourceError(
                        String::from_str("projection names a column the source does not have"),
                    ),
                );
            },
        }
        i += 1;
    }
    let rows = data.num_rows();
    let b = Batch {
        schema: crate::datatypes::schema::Schema { fields },
        columns,
        row_count: rows,
    };
    proof {
        let nv = names.deep_view();
        let m = project_model(data@, nv);
        assert(nv.len() == names@.len());
        assert forall|j: int| 0 <= j < nv.len() implies 0 <= lookup_idx(
            data@.schema,
            #[trigger] nv[j],
        ) < data@.schema.len() by {
            crate::datatypes::schema::lemma_lookup_from(data@.schema, nv[j], 0);
        }
        assert(b@.schema =~= m.schema);
        assert(b@.columns =~= m.columns);
        assert(b@ == m);
        assert(batch_wf(b@));
    }
    Ok(b)
}

} // verus!
