use vstd::prelude::*;

use crate::datasource::{scan_model, DataSource};
use crate::datatypes::array::{batch_wf, Batch};
use crate::datatypes::schema::{lookup, Field, FieldModel, Schema};
use crate::error::{matches_fault, DBError, FaultModel};
use crate::logical::plan::plan::{
    lemma_project_fields_err, lemma_project_fields_ok, project_fields_from,
};
use std::sync::Arc;

verus! {

/// The executable scan: delegates to the source, handing down the projection
/// that planning preserved.
#[derive(Debug)]
pub struct ScanExec<S: DataSource> {
    pub path: String,
    pub ds: Arc<S>,
    pub projection: Option<Vec<String>>,
}

impl<S: DataSource> ScanExec<S> {
    /// Builds an executable scan.
    pub fn new(path: String, ds: Arc<S>, projection: Option<Vec<String>>) -> (r: ScanExec<S>)
        ensures
            r.path == path,
            r.ds == ds,
            r.projection == projection,
    {
        ScanExec { path, ds, projection }
    }

    /// Pulls exactly one materialized batch from the source, restricted to
    /// the pushed-down projection.
    pub fn execute(&self) -> (r: Result<Batch, DBError>)
        ensures
            r matches Ok(b) ==> scan_model(
                self.ds.source_schema(),
                self.ds.source_data(),
                self.projection.deep_view(),
            ) == Some(b@) && batch_wf(b@),
            scan_model(
                self.ds.source_schema(),
                self.ds.source_data(),
                self.projection.deep_view(),
            ) is None ==> r is Err,
            r matches Err(e) ==> e is SourceError,
    {
        self.ds.scan(&self.projection)
    }

    /// The schema of the batches this scan produces: the source's schema,
    /// reduced by the pushed-down projection.
    #[verifier::loop_isolation(false)]
    pub fn schema(&self) -> (r: Result<Schema, DBError>)
        ensures
            match r {
                Ok(s) => scan_schema_model(self.ds.source_schema(), self.projection.deep_view())
                    == Ok::<Seq<FieldModel>, FaultModel>(s@),
                Err(e) => scan_schema_model(self.ds.source_schema(), self.projection.deep_view())
                    matches Err(f) && matches_fault(e, f),
            },
    {
        let src = self.ds.schema();
        match &self.projection {
            None => Ok(src),
            Some(names) => {
                let mut fields: Vec<Field> = Vec::new();
                let mut i: usize = 0;
                while i < names.len()
                    invariant
                        i <= names@.len(),
                        fields@.len() == i as nat,
                        forall|j: int|
                            0 <= j < i ==> lookup(src@, #[trigger] names.deep_view()[j]) is Some,
                        forall|j: int|
                            0 <= j < i ==> (#[trigger] fields@[j])@ == src@[lookup(
                                src@,
                                names.deep_view()[j],
                            )->Some_0],
                    decreases names@.len() - i,
                {
                    proof {
                        assert(names.deep_view()[i as int] == names@[i as int]@);
                    }
                    match src.index_of(&names[i]) {
                        Some(idx) => {
                            fields.push(src.field(idx).clone());
                        },
                        None => {
                            proof {
                                lemma_project_fields_err(src@, names.deep_view(), 0, i as int);
                            }
                            return Err(DBError::UnknownColumn(names[i].clone()));
                        },
                    }
                    i += 1;
                }
                let s = Schema { fields };
                proof {
                    lemma_project_fields_ok(src@, names.deep_view(), 0);
                    assert(s@ =~= project_fields_from(src@, names.deep_view(), 0)->Ok_0);
                }
                Ok(s)
            },
        }
    }
}

/// The schema a scan produces: the source schema, or the projected fields.
pub open spec fn scan_schema_model(
    src: Seq<FieldModel>,
    proj: Option<Seq<Seq<char>>>,
) -> Result<Seq<FieldModel>, FaultModel> {
    match proj {
        None => Ok(src),
        Some(names) => project_fields_from(src, names, 0),
    }
}

} // verus!
