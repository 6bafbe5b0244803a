use std::sync::Arc;

use minidb::datasource::mem_source::MemDataSource;
use minidb::datatypes::array::{Batch, ColumnArray};
use minidb::datatypes::eval::eval_op;
use minidb::datatypes::operator::Operator;
use minidb::datatypes::schema::{Field, Schema};
use minidb::datatypes::values::{DataType, ScalarValue};
use minidb::error::DBError;
use minidb::execution::data_frame::DataFrame;
use minidb::execution::planner::Planner;
use minidb::logical::expression::expr::LogicalExpr;
use minidb::logical::expression::expr_fn::{col, lit};
use minidb::logical::plan::plan::LogicalPlan;
use minidb::logical::plan::scan::Scan;
use minidb::physical::expr::column::ColumnExpr;
use minidb::physical::expr::ColumnarValue;
use minidb::physical::plan::filter::{filtered_column, kept_rows};

fn mem_frame() -> DataFrame<MemDataSource> {
    DataFrame::new(LogicalPlan::Scan(Scan::new(
        "mem".to_string(),
        MemDataSource::new_arc(),
        None,
    )))
}

fn int32s(values: Vec<Option<i32>>) -> ColumnArray {
    ColumnArray::new(
        DataType::Int32,
        values.into_iter().map(ScalarValue::Int32).collect(),
    )
}

fn bools(values: Vec<Option<bool>>) -> ColumnArray {
    ColumnArray::new(
        DataType::Boolean,
        values.into_iter().map(ScalarValue::Boolean).collect(),
    )
}

#[test]
fn test_scalar_arithmetic() {
    let r = eval_op(
        &Operator::Plus,
        &ScalarValue::Int32(Some(2)),
        &ScalarValue::Int32(Some(3)),
    );
    assert_eq!(r, Ok(ScalarValue::Int32(Some(5))));

    // Widening: a narrow and a wide signed integer combine at the wide type.
    let r = eval_op(
        &Operator::Multiply,
        &ScalarValue::Int8(Some(4)),
        &ScalarValue::Int64(Some(1000)),
    );
    assert_eq!(r, Ok(ScalarValue::Int64(Some(4000))));

    // Wrapping addition.
    let r = eval_op(
        &Operator::Plus,
        &ScalarValue::Int8(Some(i8::MAX)),
        &ScalarValue::Int8(Some(1)),
    );
    assert_eq!(r, Ok(ScalarValue::Int8(Some(i8::MIN))));

    // Truncated division.
    let r = eval_op(
        &Operator::Divide,
        &ScalarValue::Int32(Some(-7)),
        &ScalarValue::Int32(Some(2)),
    );
    assert_eq!(r, Ok(ScalarValue::Int32(Some(-3))));
}

#[test]
fn test_division_overflow_wraps() {
    let r = eval_op(
        &Operator::Divide,
        &ScalarValue::Int8(Some(i8::MIN)),
        &ScalarValue::Int8(Some(-1)),
    );
    assert_eq!(r, Ok(ScalarValue::Int8(Some(i8::MIN))));
}

#[test]
fn test_scalar_to_scalar_wrapping() {
    let s = ScalarValue::Int32(Some(9));
    assert_eq!(
        s.to_scalar(),
        Ok(ColumnarValue::Scalar(ScalarValue::Int32(Some(9))))
    );
}

#[test]
fn test_divide_by_zero() {
    let r = eval_op(
        &Operator::Divide,
        &ScalarValue::Int32(Some(1)),
        &ScalarValue::Int32(Some(0)),
    );
    assert_eq!(r, Err(DBError::DivideByZero));
}

#[test]
fn test_null_propagation() {
    // A null operand yields a null result, never an error.
    let r = eval_op(
        &Operator::Plus,
        &ScalarValue::Int32(None),
        &ScalarValue::Int32(Some(5)),
    );
    assert_eq!(r, Ok(ScalarValue::Int32(None)));

    let r = eval_op(
        &Operator::Lt,
        &ScalarValue::Int32(None),
        &ScalarValue::Int32(Some(5)),
    );
    assert_eq!(r, Ok(ScalarValue::Boolean(None)));
}

#[test]
fn test_three_valued_logic() {
    let null = ScalarValue::Boolean(None);
    let t = ScalarValue::Boolean(Some(true));
    let f = ScalarValue::Boolean(Some(false));
    assert_eq!(
        eval_op(&Operator::And, &null, &f),
        Ok(ScalarValue::Boolean(Some(false)))
    );
    assert_eq!(eval_op(&Operator::And, &null, &t), Ok(ScalarValue::Boolean(None)));
    assert_eq!(
        eval_op(&Operator::Or, &null, &t),
        Ok(ScalarValue::Boolean(Some(true)))
    );
    assert_eq!(eval_op(&Operator::Or, &null, &f), Ok(ScalarValue::Boolean(None)));
    assert_eq!(eval_op(&Operator::And, &null, &null), Ok(ScalarValue::Boolean(None)));
    assert_eq!(eval_op(&Operator::Or, &null, &null), Ok(ScalarValue::Boolean(None)));
}

#[test]
fn test_type_mismatch_text_arithmetic() {
    let r = eval_op(
        &Operator::Plus,
        &ScalarValue::Utf8(Some("a".to_string())),
        &ScalarValue::Int32(Some(1)),
    );
    assert!(matches!(r, Err(DBError::TypeMismatch(_))));
}

#[test]
fn test_string_equality() {
    let a = ScalarValue::Utf8(Some("beta".to_string()));
    let b = ScalarValue::Utf8(Some("beta".to_string()));
    let c = ScalarValue::Utf8(Some("gamma".to_string()));
    assert_eq!(eval_op(&Operator::Eq, &a, &b), Ok(ScalarValue::Boolean(Some(true))));
    assert_eq!(eval_op(&Operator::NotEq, &a, &c), Ok(ScalarValue::Boolean(Some(true))));
}

#[test]
fn test_to_array_broadcast() {
    let s = ScalarValue::Int32(Some(7));
    let a = s.to_array(4);
    assert_eq!(a.len(), 4);
    for i in 0..4 {
        assert_eq!(a.value(i), &ScalarValue::Int32(Some(7)));
    }
    let empty = s.to_array(0);
    assert_eq!(empty.len(), 0);
    assert_eq!(empty.data_type, DataType::Int32);
}

#[test]
fn test_broadcast_matches_materialized() {
    // Array-with-scalar equals array-with-materialized-scalar, element-wise.
    let a = int32s(vec![Some(1), None, Some(3)]);
    let s = ScalarValue::Int32(Some(10));
    let materialized = s.to_array(3);
    let mut expected: Vec<ScalarValue> = Vec::new();
    for i in 0..3 {
        expected.push(eval_op(&Operator::Plus, a.value(i), materialized.value(i)).unwrap());
    }
    assert_eq!(
        expected,
        vec![
            ScalarValue::Int32(Some(11)),
            ScalarValue::Int32(None),
            ScalarValue::Int32(Some(13)),
        ]
    );
}

#[test]
fn test_filter_row_selection() {
    // Predicate values [true, false, null, true] keep exactly rows 0 and 3.
    let data = int32s(vec![Some(10), Some(20), Some(30), Some(40)]);
    let mask = bools(vec![Some(true), Some(false), None, Some(true)]);
    let kept = filtered_column(&data, &mask);
    assert_eq!(
        kept.values,
        vec![ScalarValue::Int32(Some(10)), ScalarValue::Int32(Some(40))]
    );
    assert_eq!(kept_rows(&mask), 2);
}

#[test]
fn test_filter_execution() {
    // Keep the rows of the memory source where c2 > 1.
    let df = mem_frame().filter(col("c2".to_string()).gt(lit(1)));
    let batch = df.collect().unwrap();
    assert_eq!(batch.num_rows(), 2);
    assert_eq!(
        batch.column(0).values,
        vec![
            ScalarValue::Utf8(Some("beta".to_string())),
            ScalarValue::Utf8(Some("gamma".to_string())),
        ]
    );
    assert_eq!(
        batch.column(1).values,
        vec![ScalarValue::Int32(Some(2)), ScalarValue::Int32(Some(3))]
    );
}

#[test]
fn test_filter_predicate_must_be_boolean() {
    // A non-boolean predicate is refused at execution with a type mismatch.
    let df = mem_frame().filter(col("c2".to_string()).add(lit(1)));
    let r = df.collect();
    assert!(matches!(r, Err(DBError::TypeMismatch(_))));
}

#[test]
fn test_filter_scalar_predicate_refused() {
    // A predicate that evaluates to a bare scalar is refused with a type
    // mismatch: filtering demands a boolean column.
    let r = mem_frame().filter(lit(true)).collect();
    assert!(matches!(r, Err(DBError::TypeMismatch(_))));
}

#[test]
fn test_dividing_predicate_reports_division() {
    // A predicate whose evaluation divides by zero carries exactly that
    // error out of execution.
    let r = mem_frame()
        .filter(col("c2".to_string()).divide(lit(0)).gt(lit(0)))
        .collect();
    assert_eq!(r, Err(DBError::DivideByZero));
}

#[test]
fn test_projection_execution() {
    // scan -> project([c1, c3, c3 + 1]) over the memory source.
    let df = mem_frame().project(vec![
        col("c1".to_string()),
        col("c3".to_string()),
        col("c3".to_string()).add(lit(1 as i64)),
    ]);
    let batch = df.collect().unwrap();
    assert_eq!(batch.num_rows(), 3);
    assert_eq!(batch.num_columns(), 3);
    assert_eq!(batch.schema.field(2).name, "c3 + 1");
    assert_eq!(
        batch.column(1).values,
        vec![
            ScalarValue::Int32(Some(10)),
            ScalarValue::Int32(Some(20)),
            ScalarValue::Int32(Some(30)),
        ]
    );
    assert_eq!(
        batch.column(2).values,
        vec![
            ScalarValue::Int64(Some(11)),
            ScalarValue::Int64(Some(21)),
            ScalarValue::Int64(Some(31)),
        ]
    );
}

#[test]
fn test_multiply_and_divide_builders() {
    // c3 * 2 and c3 / 2 over the memory source (c3 holds 10, 20, 30).
    let df = mem_frame().project(vec![
        col("c3".to_string()).multiply(lit(2)),
        col("c3".to_string()).divide(lit(2)),
    ]);
    let batch = df.collect().unwrap();
    assert_eq!(batch.schema.field(0).name, "c3 * 2");
    assert_eq!(batch.schema.field(1).name, "c3 / 2");
    assert_eq!(
        batch.column(0).values,
        vec![
            ScalarValue::Int32(Some(20)),
            ScalarValue::Int32(Some(40)),
            ScalarValue::Int32(Some(60)),
        ]
    );
    assert_eq!(
        batch.column(1).values,
        vec![
            ScalarValue::Int32(Some(5)),
            ScalarValue::Int32(Some(10)),
            ScalarValue::Int32(Some(15)),
        ]
    );
}

#[test]
fn test_bool_and_text_literals() {
    // `lit` covers booleans and text; a text equality predicate filters rows.
    assert!(matches!(
        lit(true),
        LogicalExpr::Literal(ScalarValue::Boolean(Some(true)))
    ));
    assert!(matches!(
        lit("beta".to_string()),
        LogicalExpr::Literal(ScalarValue::Utf8(Some(s))) if s == "beta"
    ));
    let df = mem_frame().filter(col("c1".to_string()).eq(lit("beta".to_string())));
    let batch = df.collect().unwrap();
    assert_eq!(batch.num_rows(), 1);
    assert_eq!(
        batch.column(0).values,
        vec![ScalarValue::Utf8(Some("beta".to_string()))]
    );
}

#[test]
fn test_literal_resolves_for_every_plan() {
    // A literal's field never consults the plan: it resolves even when the
    // plan's own schema derivation fails.
    let df = mem_frame().project(vec![col("nope".to_string())]);
    let expr = LogicalExpr::Literal(ScalarValue::Int64(Some(7)));
    let field = expr.to_field(df.plan()).unwrap();
    assert_eq!(field.name, "7");
    assert_eq!(field.data_type, DataType::Int64);
    assert!(field.nullable);
}

#[test]
fn test_projection_with_no_expressions() {
    // Zero expressions yield a zero-column batch that keeps the row count.
    let df = mem_frame().project(vec![]);
    let batch = df.collect().unwrap();
    assert_eq!(batch.num_columns(), 0);
    assert_eq!(batch.num_rows(), 3);
}

#[test]
fn test_planning_isolates_name_errors() {
    // Planning a projection of an unknown name fails with exactly that name.
    let df = mem_frame().project(vec![col("nope".to_string())]);
    let r = Planner::create_physical_plan(df.plan());
    assert!(r.is_err());
    if let Err(e) = r {
        assert_eq!(e, DBError::UnknownColumn("nope".to_string()));
    }
    assert_eq!(
        df.collect(),
        Err(DBError::UnknownColumn("nope".to_string()))
    );
}

#[test]
fn test_planned_tree_never_unknown_column_at_execution() {
    // A successfully planned pipeline executes without unknown-column errors,
    // and a column expression on a too-narrow batch reports a type mismatch.
    let narrow = Batch::try_new(
        Schema::new(vec![Field::new("x".to_string(), DataType::Int32, false)]),
        vec![int32s(vec![Some(1)])],
    )
    .unwrap();
    let out_of_range = ColumnExpr::new("x".to_string(), 5).evalate(&narrow);
    assert!(matches!(out_of_range, Err(DBError::TypeMismatch(_))));
}

#[test]
fn test_execute_idempotent() {
    // Executing the same physical plan twice yields identical batches.
    let df = mem_frame()
        .filter(col("c2".to_string()).gt_eq(lit(2)))
        .project(vec![col("c1".to_string()), col("c3".to_string())]);
    let plan = Planner::create_physical_plan(df.plan()).unwrap();
    let b1 = plan.execute().unwrap();
    let b2 = plan.execute().unwrap();
    assert_eq!(b1, b2);
}

#[test]
fn test_scan_projection_pushdown() {
    let df = DataFrame::new(LogicalPlan::Scan(Scan::new(
        "mem".to_string(),
        MemDataSource::new_arc(),
        Some(vec!["c3".to_string(), "c1".to_string()]),
    )));
    let batch = df.collect().unwrap();
    assert_eq!(batch.num_columns(), 2);
    assert_eq!(batch.schema.field(0).name, "c3");
    assert_eq!(batch.schema.field(1).name, "c1");
    assert_eq!(
        batch.column(0).values,
        vec![
            ScalarValue::Int32(Some(10)),
            ScalarValue::Int32(Some(20)),
            ScalarValue::Int32(Some(30)),
        ]
    );
}

#[test]
fn test_scan_projection_unknown_name_fails() {
    let df = DataFrame::new(LogicalPlan::Scan(Scan::new(
        "mem".to_string(),
        MemDataSource::new_arc(),
        Some(vec!["zz".to_string()]),
    )));
    let r = df.collect();
    assert!(matches!(r, Err(DBError::SourceError(_))));
}

#[test]
fn test_aggregate_not_implemented() {
    let plan = LogicalPlan::Aggregate(minidb::logical::plan::aggregate::Aggregate::new(
        Arc::new(LogicalPlan::Scan(Scan::new(
            "mem".to_string(),
            MemDataSource::new_arc(),
            None,
        ))),
        vec![],
    ));
    let r = Planner::create_physical_plan(&plan);
    assert!(matches!(r, Err(DBError::NotImplemented(_))));
}

#[test]
fn test_scalar_scalar_evaluation() {
    // A constant expression evaluates without materializing an array.
    let df = mem_frame().project(vec![LogicalExpr::Literal(ScalarValue::Int32(Some(1)))
        .add(LogicalExpr::Literal(ScalarValue::Int32(Some(2))))]);
    let batch = df.collect().unwrap();
    assert_eq!(batch.schema.field(0).name, "1 + 2");
    assert_eq!(
        batch.column(0).values,
        vec![
            ScalarValue::Int32(Some(3)),
            ScalarValue::Int32(Some(3)),
            ScalarValue::Int32(Some(3)),
        ]
    );
}

#[test]
fn test_literal_evaluation_is_scalar() {
    let empty_batch = Batch::try_new_with_row_count(Schema::new(vec![]), vec![], 0).unwrap();
    let e = minidb::physical::expr::literal::LiteralExpr::new(ScalarValue::Int32(None));
    let r = e.evalate(&empty_batch).unwrap();
    assert_eq!(r, ColumnarValue::Scalar(ScalarValue::Int32(None)));
}
