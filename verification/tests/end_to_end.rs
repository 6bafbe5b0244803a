use std::sync::Arc;

use minidb::datasource::table::TableSource;
use minidb::datatypes::array::{Batch, ColumnArray};
use minidb::datatypes::schema::{Field, Schema};
use minidb::datatypes::values::{DataType, ScalarValue};
use minidb::execution::data_frame::DataFrame;
use minidb::logical::expression::expr_fn::{col, lit};
use minidb::logical::plan::plan::LogicalPlan;
use minidb::logical::plan::scan::Scan;

/// A six-row table: `c1` text `a`..`f`, `c2` and `c3` 32-bit integers,
/// `c3` holding 2..=7.
fn six_row_source() -> Arc<TableSource> {
    let schema = Schema::new(vec![
        Field::new("c1".to_string(), DataType::Utf8, false),
        Field::new("c2".to_string(), DataType::Int32, false),
        Field::new("c3".to_string(), DataType::Int32, false),
    ]);
    let c1 = ColumnArray::new(
        DataType::Utf8,
        ["a", "b", "c", "d", "e", "f"]
            .iter()
            .map(|s| ScalarValue::Utf8(Some(s.to_string())))
            .collect(),
    );
    let c2 = ColumnArray::new(
        DataType::Int32,
        (10..16).map(|v| ScalarValue::Int32(Some(v))).collect(),
    );
    let c3 = ColumnArray::new(
        DataType::Int32,
        (2..8).map(|v| ScalarValue::Int32(Some(v))).collect(),
    );
    let batch = Batch::try_new(schema, vec![c1, c2, c3]).unwrap();
    Arc::new(TableSource::new(batch))
}

#[test]
fn test_end_to_end_projection() {
    // scan -> project([c1, c3, c3 + 1]) over a six-row source.
    let df = DataFrame::new(LogicalPlan::Scan(Scan::new(
        "six".to_string(),
        six_row_source(),
        None,
    )))
    .project(vec![
        col("c1".to_string()),
        col("c3".to_string()),
        col("c3".to_string()).add(lit(1 as i64)),
    ]);
    let batch = df.collect().unwrap();
    assert_eq!(batch.num_rows(), 6);
    assert_eq!(batch.num_columns(), 3);
    assert_eq!(batch.schema.field(0).name, "c1");
    assert_eq!(batch.schema.field(1).name, "c3");
    assert_eq!(batch.schema.field(2).name, "c3 + 1");
    let texts: Vec<ScalarValue> = ["a", "b", "c", "d", "e", "f"]
        .iter()
        .map(|s| ScalarValue::Utf8(Some(s.to_string())))
        .collect();
    assert_eq!(batch.column(0).values, texts);
    assert_eq!(
        batch.column(1).values,
        (2..8).map(|v| ScalarValue::Int32(Some(v))).collect::<Vec<_>>()
    );
    assert_eq!(
        batch.column(2).values,
        (3..9).map(|v| ScalarValue::Int64(Some(v))).collect::<Vec<_>>()
    );
}

#[test]
fn test_end_to_end_twice_identical() {
    let df = DataFrame::new(LogicalPlan::Scan(Scan::new(
        "six".to_string(),
        six_row_source(),
        None,
    )))
    .filter(col("c3".to_string()).gt_eq(lit(4)))
    .project(vec![col("c1".to_string()), col("c3".to_string())]);
    let b1 = df.collect().unwrap();
    let b2 = df.collect().unwrap();
    assert_eq!(b1, b2);
    assert_eq!(b1.num_rows(), 4);
}

#[test]
fn test_filter_with_null_predicate_rows() {
    // Predicate values [true, false, null, true] keep exactly rows 0 and 3.
    let schema = Schema::new(vec![
        Field::new("keep".to_string(), DataType::Boolean, true),
        Field::new("v".to_string(), DataType::Int32, false),
    ]);
    let keep = ColumnArray::new(
        DataType::Boolean,
        vec![
            ScalarValue::Boolean(Some(true)),
            ScalarValue::Boolean(Some(false)),
            ScalarValue::Boolean(None),
            ScalarValue::Boolean(Some(true)),
        ],
    );
    let v = ColumnArray::new(
        DataType::Int32,
        vec![
            ScalarValue::Int32(Some(10)),
            ScalarValue::Int32(Some(20)),
            ScalarValue::Int32(Some(30)),
            ScalarValue::Int32(Some(40)),
        ],
    );
    let batch = Batch::try_new(schema, vec![keep, v]).unwrap();
    let df = DataFrame::new(LogicalPlan::Scan(Scan::new(
        "rows".to_string(),
        Arc::new(TableSource::new(batch)),
        None,
    )))
    .filter(col("keep".to_string()));
    let out = df.collect().unwrap();
    assert_eq!(out.num_rows(), 2);
    assert_eq!(
        out.column(1).values,
        vec![ScalarValue::Int32(Some(10)), ScalarValue::Int32(Some(40))]
    );
}
