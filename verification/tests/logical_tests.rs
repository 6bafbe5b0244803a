use std::sync::Arc;

use minidb::datasource::mem_source::MemDataSource;
use minidb::datasource::DataSource;
use minidb::datatypes::operator::Operator;
use minidb::datatypes::schema::{Field, Schema};
use minidb::datatypes::values::{DataType, ScalarValue};
use minidb::logical::expression::binary::BinaryExpr;
use minidb::logical::expression::column::Column;
use minidb::logical::expression::expr::LogicalExpr;
use minidb::logical::expression::expr_fn::{binary_expr, col, lit};
use minidb::logical::plan::filter::Filter;
use minidb::logical::plan::plan::{format_plan, LogicalPlan};
use minidb::logical::plan::projection::Projection;
use minidb::logical::plan::scan::Scan;

fn mem_schema() -> Schema {
    MemDataSource::new().schema()
}

#[test]
fn test_expr_display() {
    let expr = LogicalExpr::Column(Column::new("a".to_string()));
    assert_eq!(expr.to_text(), "a");

    let expr = LogicalExpr::Literal(ScalarValue::Int32(Some(1)));
    assert_eq!(expr.to_text(), "1");

    let expr = LogicalExpr::Literal(ScalarValue::Null);
    assert_eq!(expr.to_text(), "NULL");

    let expr = LogicalExpr::Binary(BinaryExpr::new(
        Arc::new(LogicalExpr::Column(Column::new("a".to_string()))),
        Operator::Eq,
        Arc::new(LogicalExpr::Literal(ScalarValue::Int32(Some(1)))),
    ));
    assert_eq!(expr.to_text(), "a = 1");
}

#[test]
fn test_build_plan_manually() {
    let scan = LogicalPlan::Scan(Scan::new(
        "testdata/csv/simple.csv".to_string(),
        MemDataSource::new_arc(),
        None,
    ));

    let filter = LogicalPlan::Filter(Filter::new(
        Arc::new(scan),
        col("c1".to_string()).eq(lit(1)),
    ));

    let projection = LogicalPlan::Projection(Projection::new(
        Arc::new(filter),
        vec![col("c1".to_string()), col("c2".to_string())],
    ));

    assert_eq!(
        projection.to_text().as_str(),
        "Projection: c1, c2\n".to_string()
            + "\tFilter: c1 = 1\n"
            + "\t\tScan: testdata/csv/simple.csv; projection=None\n"
    )
}

#[test]
fn test_build_plan_manually2() {
    let scan = LogicalPlan::Scan(Scan::new(
        "testdata/csv/simple.csv".to_string(),
        MemDataSource::new_arc(),
        Some(vec!["c1".to_string(), "c2".to_string()]),
    ));

    let filter = LogicalPlan::Filter(Filter::new(
        Arc::new(scan),
        col("c1".to_string()).eq(lit(1)),
    ));

    let projection = LogicalPlan::Projection(Projection::new(
        Arc::new(filter),
        vec![col("c1".to_string()), col("c2".to_string())],
    ));

    assert_eq!(
        projection.to_text().as_str(),
        "Projection: c1, c2\n".to_string()
            + "\tFilter: c1 = 1\n"
            + "\t\tScan: testdata/csv/simple.csv; projection=[\"c1\", \"c2\"]\n"
    )
}

#[test]
fn test_scan_display_none() {
    let scan = LogicalPlan::Scan(Scan::new(
        "scan".to_string(),
        MemDataSource::new_arc(),
        None,
    ));
    assert_eq!(format_plan(&scan, 0), "Scan: scan; projection=None\n");
}

#[test]
fn test_round_trip_naming() {
    // A binary expression's output field is named by its canonical rendering.
    let expr = binary_expr(
        col("c3".to_string()),
        Operator::Plus,
        LogicalExpr::Literal(ScalarValue::Int64(Some(1))),
    );
    let field = expr.to_field_from_schema(&mem_schema()).unwrap();
    assert_eq!(field.name, "c3 + 1");
    assert_eq!(field.data_type, DataType::Int64);
    assert!(field.nullable);
}

#[test]
fn test_schema_derivation_all_columns() {
    // Selecting bare columns derives exactly the selected fields, in order.
    let scan = LogicalPlan::Scan(Scan::new(
        "mem".to_string(),
        MemDataSource::new_arc(),
        None,
    ));
    let projection = LogicalPlan::Projection(Projection::new(
        Arc::new(scan),
        vec![col("c3".to_string()), col("c1".to_string())],
    ));
    let schema = projection.schema().unwrap();
    assert_eq!(
        schema,
        Schema::new(vec![
            Field::new("c3".to_string(), DataType::Int32, false),
            Field::new("c1".to_string(), DataType::Utf8, false),
        ])
    );
}

#[test]
fn test_schema_duplicate_names_first_match_wins() {
    let schema = Schema::new(vec![
        Field::new("c".to_string(), DataType::Int32, false),
        Field::new("c".to_string(), DataType::Utf8, true),
    ]);
    assert_eq!(schema.index_of(&"c".to_string()), Some(0));
    let field = Column::new("c".to_string()).to_field(&schema).unwrap();
    assert_eq!(field.data_type, DataType::Int32);
}

#[test]
fn test_unknown_column_to_field() {
    let err = Column::new("nope".to_string()).to_field(&mem_schema());
    assert_eq!(
        err,
        Err(minidb::error::DBError::UnknownColumn("nope".to_string()))
    );
}

#[test]
fn test_type_mismatch_in_to_field() {
    // Arithmetic on text does not combine.
    let expr = binary_expr(
        col("c1".to_string()),
        Operator::Plus,
        LogicalExpr::Literal(ScalarValue::Int32(Some(1))),
    );
    let r = expr.to_field_from_schema(&mem_schema());
    assert!(matches!(
        r,
        Err(minidb::error::DBError::TypeMismatch(_))
    ));
}

#[test]
fn test_operator_symbols() {
    assert_eq!(Operator::Eq.symbol(), "=");
    assert_eq!(Operator::NotEq.symbol(), "!=");
    assert_eq!(Operator::Lt.symbol(), "<");
    assert_eq!(Operator::LtEq.symbol(), "<=");
    assert_eq!(Operator::Gt.symbol(), ">");
    assert_eq!(Operator::GtEq.symbol(), ">=");
    assert_eq!(Operator::Plus.symbol(), "+");
    assert_eq!(Operator::Minus.symbol(), "-");
    assert_eq!(Operator::Multiply.symbol(), "*");
    assert_eq!(Operator::Divide.symbol(), "/");
    assert_eq!(Operator::And.symbol(), "AND");
    assert_eq!(Operator::Or.symbol(), "OR");
}

#[test]
fn test_scalar_value_text() {
    assert_eq!(ScalarValue::Null.value_text(), "NULL");
    assert_eq!(ScalarValue::Int32(None).value_text(), "NULL");
    assert_eq!(ScalarValue::Boolean(Some(true)).value_text(), "true");
    assert_eq!(ScalarValue::Boolean(Some(false)).value_text(), "false");
    assert_eq!(ScalarValue::Int64(Some(-12)).value_text(), "-12");
    assert_eq!(
        ScalarValue::Int64(Some(i64::MIN)).value_text(),
        "-9223372036854775808"
    );
    assert_eq!(
        ScalarValue::Uint64(Some(u64::MAX)).value_text(),
        "18446744073709551615"
    );
    assert_eq!(
        ScalarValue::Utf8(Some("hi".to_string())).value_text(),
        "hi"
    );
}
