use vstd::prelude::*;

use crate::datasource::{project_by_names, scan_model, DataSource};
use crate::datatypes::array::{batch_wf, ArrayModel, Batch, BatchModel, ColumnArray};
use crate::datatypes::schema::{Field, FieldModel, Schema};
use crate::datatypes::values::{DataType, ScalarModel, ScalarValue};
use crate::error::DBError;
use std::sync::Arc;

verus! {

/// A small fixed in-memory source: three columns `c1` (text), `c2` and `c3`
/// (32-bit integers), three rows.
#[derive(Debug, Clone)]
pub struct MemDataSource {}

/// The schema of the in-memory source.
pub open spec fn mem_schema() -> Seq<FieldModel> {
    seq![
        FieldModel { name: seq!['c', '1'], data_type: DataType::Utf8, nullable: false },
        FieldModel { name: seq!['c', '2'], data_type: DataType::Int32, nullable: false },
        FieldModel { name: seq!['c', '3'], data_type: DataType::Int32, nullable: false },
    ]
}

/// The one batch of the in-memory source.
pub open spec fn mem_data() -> BatchModel {
    BatchModel {
        schema: mem_schema(),
        columns: seq![
            ArrayModel {
                data_type: DataType::Utf8,
                values: seq![
                    ScalarModel::Utf8(Some(seq!['a', 'l', 'p', 'h', 'a'])),
                    ScalarModel::Utf8(Some(seq!['b', 'e', 't', 'a'])),
                    ScalarModel::Utf8(Some(seq!['g', 'a', 'm', 'm', 'a'])),
                ],
            },
            ArrayModel {
                data_type: DataType::Int32,
                values: seq![
                    ScalarModel::Int32(Some(1)),
                    ScalarModel::Int32(Some(2)),
                    ScalarModel::Int32(Some(3)),
                ],
            },
            ArrayModel {
                data_type: DataType::Int32,
                values: seq![
                    ScalarModel::Int32(Some(10)),
                    ScalarModel::Int32(Some(20)),
                    ScalarModel::Int32(Some(30)),
                ],
            },
        ],
        rows: 3,
    }
}

impl MemDataSource {
    /// Builds the fixed in-memory source.
    pub fn new() -> (r: MemDataSource)
        ensures
            r == (MemDataSource {  }),
    {
        MemDataSource {  }
    }

    /// Builds the fixed in-memory source behind a shared pointer.
    pub fn new_arc() -> (r: Arc<MemDataSource>)
        ensures
            *r == (MemDataSource {  }),
    {
        Arc::new(Self::new())
    }
}

impl DataSource for MemDataSource {
    open spec fn source_schema(&self) -> Seq<FieldModel> {
        mem_schema()
    }

    open spec fn source_data(&self) -> BatchModel {
        mem_data()
    }

    fn schema(&self) -> (s: Schema) {
        let c1 = String::from_str("c1");
        let c2 = String::from_str("c2");
        let c3 = String::from_str("c3");
        proof {
            reveal_strlit("c1");
            reveal_strlit("c2");
            reveal_strlit("c3");
            assert(c1@ =~= seq!['c', '1']);
            assert(c2@ =~= seq!['c', '2']);
            assert(c3@ =~= seq!['c', '3']);
        }
        let fields = vec![
            Field::new(c1, DataType::Utf8, false),
            Field::new(c2, DataType::Int32, false),
            Field::new(c3, DataType::Int32, false),
        ];
        let s = Schema::new(fields);
        proof {
            assert(s@ =~= mem_schema());
        }
        s
    }

    fn scan(&self, projection: &Option<Vec<String>>) -> (r: Result<Batch, DBError>) {
        let alpha = String::from_str("alpha");
        let beta = String::from_str("beta");
        let gamma = String::from_str("gamma");
        proof {
            reveal_strlit("alpha");
            reveal_strlit("beta");
            reveal_strlit("gamma");
            assert(alpha@ =~= seq!['a', 'l', 'p', 'h', 'a']);
            assert(beta@ =~= seq!['b', 'e', 't', 'a']);
            assert(gamma@ =~= seq!['g', 'a', 'm', 'm', 'a']);
        }
        let col1 = ColumnArray::new(
            DataType::Utf8,
            vec![
                ScalarValue::Utf8(Some(alpha)),
                ScalarValue::Utf8(Some(beta)),
                ScalarValue::Utf8(Some(gamma)),
            ],
        );
        let col2 = ColumnArray::new(
            DataType::Int32,
            vec![
                ScalarValue::Int32(Some(1)),
                ScalarValue::Int32(Some(2)),
                ScalarValue::Int32(Some(3)),
            ],
        );
        let col3 = ColumnArray::new(
            DataType::Int32,
            vec![
                ScalarValue::Int32(Some(10)),
                ScalarValue::Int32(Some(20)),
                ScalarValue::Int32(Some(30)),
            ],
        );
        let batch = Batch {
            schema: self.schema(),
            columns: vec![col1, col2, col3],
            row_count: 3,
        };
        proof {
            assert(batch@.columns.len() == 3);
            assert(batch@.columns[0] =~~= mem_data().columns[0]);
            assert(batch@.columns[1] =~~= mem_data().columns[1]);
            assert(batch@.columns[2] =~~= mem_data().columns[2]);
            assert(batch@.columns =~~= mem_data().columns);
            assert(batch@ == mem_data());
            assert(batch_wf(mem_data()));
        }
        match projection {
            None => Ok(batch),
            Some(names) => project_by_names(&batch, names),
        }
    }
}

} // verus!
