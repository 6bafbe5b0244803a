use vstd::prelude::*;

use crate::datatypes::schema::{FieldModel, Schema};
use crate::datatypes::values::{scalar_kind, DataType, ScalarModel, ScalarValue};
use crate::error::DBError;

verus! {

/// One column of data: a uniformly typed, finite sequence of scalar values.
#[derive(Debug, PartialEq, Eq)]
pub struct ColumnArray {
    pub data_type: DataType,
    pub values: Vec<ScalarValue>,
}

/// The mathematical model of a [`ColumnArray`].
#[verifier::ext_equal]
pub struct ArrayModel {
    pub data_type: DataType,
    pub values: Seq<ScalarModel>,
}

impl View for ColumnArray {
    type V = ArrayModel;

    open spec fn view(&self) -> ArrayModel {
        ArrayModel {
            data_type: self.data_type,
            values: self.values@.map_values(|v: ScalarValue| v@),
        }
    }
}

/// A well-formed array holds only values of its own element type.
pub open spec fn array_wf(a: ArrayModel) -> bool {
    forall|i: int| 0 <= i < a.values.len() ==> scalar_kind(#[trigger] a.values[i]) == a.data_type
}

/// The array that broadcasts one scalar across `n` rows.
pub open spec fn array_of(v: ScalarModel, n: nat) -> ArrayModel {
    ArrayModel { data_type: scalar_kind(v), values: Seq::new(n, |i: int| v) }
}

impl Clone for ColumnArray {
    fn clone(&self) -> (res: Self)
        ensures
            res@ == self@,
    {
        let mut values: Vec<ScalarValue> = Vec::new();
        let mut i: usize = 0;
        while i < self.values.len()
            invariant
                i <= self.values.len(),
                values@.len() == i as nat,
                forall|j: int| 0 <= j < i ==> values@[j] == self.values@[j],
            decreases self.values.len() - i,
        {
            values.push(self.values[i].clone());
            i += 1;
        }
        let res = ColumnArray { data_type: self.data_type, values };
        proof {
            assert(res@.values =~= self@.values);
        }
        res
    }
}

impl ColumnArray {
    /// Builds an array from an element type and its values.
    pub fn new(data_type: DataType, values: Vec<ScalarValue>) -> (r: ColumnArray)
        ensures
            r@ == (ArrayModel {
                data_type,
                values: values@.map_values(|v: ScalarValue| v@),
            }),
    {
        ColumnArray { data_type, values }
    }

    /// The number of rows.
    pub fn len(&self) -> (r: usize)
        ensures
            r as nat == self@.values.len(),
    {
        self.values.len()
    }

    /// The value at a row.
    pub fn value(&self, i: usize) -> (r: &ScalarValue)
        requires
            i < self@.values.len(),
        ensures
            r@ == self@.values[i as int],
    {
        &self.values[i]
    }
}

impl ScalarValue {
    /// Materializes this scalar as an array of `num_rows` copies of itself;
    /// its element type is the scalar's own, and every row equals the scalar.
    pub fn to_array(&self, num_rows: usize) -> (r: ColumnArray)
        ensures
            r@ == array_of(self@, num_rows as nat),
    {
        let kind = self.data_type();
        let mut values: Vec<ScalarValue> = Vec::new();
        let mut i: usize = 0;
        while i < num_rows
            invariant
                i <= num_rows,
                values@.len() == i as nat,
                forall|j: int| 0 <= j < i ==> values@[j] == *self,
            decreases num_rows - i,
        {
            values.push(self.clone());
            i += 1;
        }
        let r = ColumnArray { data_type: kind, values };
        proof {
            assert(r@.values =~= array_of(self@, num_rows as nat).values);
        }
        r
    }
}

/// A finite, fixed-row-count, columnar materialization of data: one array per
/// field of the schema, all arrays sharing the same length.
#[derive(Debug, PartialEq, Eq)]
pub struct Batch {
    pub schema: Schema,
    pub columns: Vec<ColumnArray>,
    pub row_count: usize,
}

/// The mathematical model of a [`Batch`].
#[verifier::ext_equal]
pub struct BatchModel {
    pub schema: Seq<FieldModel>,
    pub columns: Seq<ArrayModel>,
    pub rows: nat,
}

impl View for Batch {
    type V = BatchModel;

    open spec fn view(&self) -> BatchModel {
        BatchModel {
            schema: self.schema@,
            columns: self.columns@.map_values(|c: ColumnArray| c@),
            rows: self.row_count as nat,
        }
    }
}

/// A well-formed batch has one column per schema field, each column of the
/// field's element type, and every column of the batch's row count.
pub open spec fn batch_wf(b: BatchModel) -> bool {
    &&& b.columns.len() == b.schema.len()
    &&& forall|i: int|
        0 <= i < b.columns.len() ==> {
            &&& array_wf(#[trigger] b.columns[i])
            &&& b.columns[i].values.len() == b.rows
            &&& b.columns[i].data_type == b.schema[i].data_type
        }
}

/// Whether columns fit a schema at a given row count: one column per field,
/// each of the field's element type, well formed and of that length.
pub open spec fn columns_fit(
    schema: Seq<FieldModel>,
    columns: Seq<ArrayModel>,
    rows: nat,
) -> bool {
    &&& columns.len() == schema.len()
    &&& forall|i: int|
        0 <= i < columns.len() ==> {
            &&& array_wf(#[trigger] columns[i])
            &&& columns[i].values.len() == rows
            &&& columns[i].data_type == schema[i].data_type
        }
}

impl Clone for Batch {
    fn clone(&self) -> (res: Self)
        ensures
            res@ == self@,
    {
        let mut columns: Vec<ColumnArray> = Vec::new();
        let mut i: usize = 0;
        while i < self.columns.len()
            invariant
                i <= self.columns.len(),
                columns@.len() == i as nat,
                forall|j: int| 0 <= j < i ==> columns@[j]@ == self.columns@[j]@,
            decreases self.columns.len() - i,
        {
            columns.push(self.columns[i].clone());
            i += 1;
        }
        let res = Batch { schema: self.schema.clone(), columns, row_count: self.row_count };
        proof {
            assert(res@.columns =~= self@.columns);
        }
        res
    }
}

impl Batch {
    /// Assembles a batch, validating that the columns fit the schema: the
    /// count, each column's element type and each column's length must match.
    /// The row count is taken from the first column, so at least one column is
    /// required; an empty batch needs [`Batch::try_new_with_row_count`].
    pub fn try_new(schema: Schema, columns: Vec<ColumnArray>) -> (r: Result<Batch, DBError>)
        ensures
            match r {
                Ok(b) => {
                    &&& columns@.len() > 0
                    &&& b@.rows == columns@[0]@.values.len()
                    &&& b@ == (BatchModel {
                        schema: schema@,
                        columns: columns@.map_values(|c: ColumnArray| c@),
                        rows: b@.rows,
                    })
                    &&& batch_wf(b@)
                },
                Err(e) => !(columns@.len() > 0 && columns_fit(
                    schema@,
                    columns@.map_values(|c: ColumnArray| c@),
                    columns@[0]@.values.len(),
                )) && e is TypeMismatch,
            },
    {
        if columns.len() == 0 {
            return Err(DBError::TypeMismatch(mismatch_text()));
        }
        let rows = columns[0].len();
        Self::try_new_with_row_count(schema, columns, rows)
    }

    /// Assembles a batch with an explicit row count, allowing zero columns;
    /// validation is as in [`Batch::try_new`].
    pub fn try_new_with_row_count(
        schema: Schema,
        columns: Vec<ColumnArray>,
        row_count: usize,
    ) -> (r: Result<Batch, DBError>)
        ensures
            ({
                let fit = columns_fit(
                    schema@,
                    columns@.map_values(|c: ColumnArray| c@),
                    row_count as nat,
                );
                match r {
                    Ok(b) => fit && b@ == (BatchModel {
                        schema: schema@,
                        columns: columns@.map_values(|c: ColumnArray| c@),
                        rows: row_count as nat,
                    }) && batch_wf(b@),
                    Err(e) => !fit && e is TypeMismatch,
                }
            }),
    {
        if columns.len() != schema.len() {
            return Err(DBError::TypeMismatch(mismatch_text()));
        }
        let mut i: usize = 0;
        while i < columns.len()
            invariant
                i <= columns.len(),
                columns@.len() == schema@.len(),
                forall|j: int|
                    0 <= j < i ==> {
                        &&& array_wf(#[trigger] columns@[j]@)
                        &&& columns@[j]@.values.len() == row_count as nat
                        &&& columns@[j]@.data_type == schema@[j].data_type
                    },
            decreases columns.len() - i,
        {
            if columns[i].len() != row_count {
                proof {
                    let cm = columns@.map_values(|c: ColumnArray| c@);
                    assert(cm[i as int] == columns@[i as int]@);
                    assert(!columns_fit(schema@, cm, row_count as nat));
                }
                return Err(DBError::TypeMismatch(mismatch_text()));
            }
            let col_kind = columns[i].data_type;
            if !(col_kind == schema.field(i).data_type) {
                proof {
                    let cm = columns@.map_values(|c: ColumnArray| c@);
                    assert(cm[i as int] == columns@[i as int]@);
                    assert(!columns_fit(schema@, cm, row_count as nat));
                }
                return Err(DBError::TypeMismatch(mismatch_text()));
            }
            let mut j: usize = 0;
            while j < columns[i].values.len()
                invariant
                    i < columns.len(),
                    j <= columns@[i as int]@.values.len(),
                    col_kind == columns@[i as int]@.data_type,
                    forall|k: int|
                        0 <= k < j ==> scalar_kind(#[trigger] columns@[i as int]@.values[k])
                            == col_kind,
                decreases columns[i as int].values.len() - j,
            {
                let vk = columns[i].values[j].data_type();
                if !(vk == col_kind) {
                    proof {
                        let cm = columns@.map_values(|c: ColumnArray| c@);
                        assert(cm[i as int] == columns@[i as int]@);
                        assert(scalar_kind(cm[i as int].values[j as int]) != cm[i as int].data_type);
                        assert(!array_wf(cm[i as int]));
                        assert(!columns_fit(schema@, cm, row_count as nat));
                    }
                    return Err(DBError::TypeMismatch(mismatch_text()));
                }
                j += 1;
            }
            proof {
                assert(array_wf(columns@[i as int]@));
            }
            i += 1;
        }
        let b = Batch { schema, columns, row_count };
        proof {
            assert(batch_wf(b@));
        }
        Ok(b)
    }

    /// The number of rows.
    pub fn num_rows(&self) -> (r: usize)
        ensures
            r as nat == self@.rows,
    {
        self.row_count
    }

    /// The number of columns.
    pub fn num_columns(&self) -> (r: usize)
        ensures
            r as nat == self@.columns.len(),
    {
        self.columns.len()
    }

    /// The column at a position.
    pub fn column(&self, i: usize) -> (r: &ColumnArray)
        requires
            i < self@.columns.len(),
        ensures
            r@ == self@.columns[i as int],
    {
        &self.columns[i]
    }
}

/// The context text of a shape or type mismatch found while assembling a
/// batch.
fn mismatch_text() -> String {
    String::from_str("columns do not fit the schema")
}

/// Decides whether a batch is well formed: one column per schema field, each
/// column uniformly of the field's element type and of the batch's row count.
#[verifier::loop_isolation(false)]
pub fn batch_is_wf(b: &Batch) -> (r: bool)
    ensures
        r == batch_wf(b@),
{
    if b.columns.len() != b.schema.len() {
        return false;
    }
    let mut i: usize = 0;
    while i < b.columns.len()
        invariant
            i <= b@.columns.len(),
            forall|j: int|
                0 <= j < i ==> {
                    &&& array_wf(#[trigger] b@.columns[j])
                    &&& b@.columns[j].values.len() == b@.rows
                    &&& b@.columns[j].data_type == b@.schema[j].data_type
                },
        decreases b@.columns.len() - i,
    {
        if b.columns[i].len() != b.row_count {
            return false;
        }
        let col_kind = b.columns[i].data_type;
        if !(col_kind == b.schema.field(i).data_type) {
            return false;
        }
        let mut j: usize = 0;
        while j < b.columns[i].values.len()
            invariant
                i < b@.columns.len(),
                j <= b@.columns[i as int].values.len(),
                col_kind == b@.columns[i as int].data_type,
                forall|k: int|
                    0 <= k < j ==> scalar_kind(#[trigger] b@.columns[i as int].values[k])
                        == col_kind,
            decreases b@.columns[i as int].values.len() - j,
        {
            let vk = b.columns[i].values[j].data_type();
            if !(vk == col_kind) {
                proof {
                    let ci = b@.columns[i as int];
                    assert(scalar_kind(ci.values[j as int]) != ci.data_type);
                    assert(!array_wf(ci));
                }
                return false;
            }
            j += 1;
        }
        proof {
            assert(array_wf(b@.columns[i as int]));
        }
        i += 1;
    }
    true
}

} // verus!
