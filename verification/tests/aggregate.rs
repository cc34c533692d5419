use physical_expr::aggregate::PhysicalAggregateExpression;
use physical_expr::error::Error;
use physical_expr::expression::{ColumnExpression, PhysicalExpression};
use physical_expr::semantics::AggregateOperator;
use physical_expr::value::{ArrayValue, ColumnarValue, RecordBatch, ScalarValue};

fn max_over_column(index: usize) -> PhysicalAggregateExpression {
    PhysicalAggregateExpression::new(
        AggregateOperator::Max,
        PhysicalExpression::Column(ColumnExpression::new(index)),
    )
}

fn min_over_column(index: usize) -> PhysicalAggregateExpression {
    PhysicalAggregateExpression::new(
        AggregateOperator::Min,
        PhysicalExpression::Column(ColumnExpression::new(index)),
    )
}

#[test]
fn finalize_without_accumulate_returns_initial_null() {
    let acc = max_over_column(0).create_accumulator(0);
    assert_eq!(
        acc.final_value().unwrap(),
        ColumnarValue::Scalar(ScalarValue::Null)
    );
}

#[test]
fn max_of_one_array_batch() {
    let mut acc = max_over_column(0).create_accumulator(0);
    let input = vec![ColumnarValue::Array(ArrayValue::Int32(vec![
        Some(3),
        Some(7),
        Some(2),
    ]))];
    acc.accumulate(&input, None).unwrap();
    assert_eq!(
        acc.final_value().unwrap(),
        ColumnarValue::Scalar(ScalarValue::Int32(Some(7)))
    );
}

#[test]
fn min_of_one_array_batch() {
    let mut acc = min_over_column(0).create_accumulator(0);
    let input = vec![ColumnarValue::Array(ArrayValue::Int32(vec![
        Some(3),
        Some(7),
        Some(2),
    ]))];
    acc.accumulate(&input, None).unwrap();
    assert_eq!(
        acc.final_value().unwrap(),
        ColumnarValue::Scalar(ScalarValue::Int32(Some(2)))
    );
}

#[test]
fn max_of_successive_scalar_batches() {
    let mut acc = max_over_column(0).create_accumulator(0);
    for v in [3, 7, 2] {
        let input = vec![ColumnarValue::Scalar(ScalarValue::Int32(Some(v)))];
        acc.accumulate(&input, None).unwrap();
    }
    assert_eq!(
        acc.final_value().unwrap(),
        ColumnarValue::Scalar(ScalarValue::Int32(Some(7)))
    );
}

#[test]
fn min_of_successive_scalar_batches() {
    let mut acc = min_over_column(0).create_accumulator(0);
    for v in [3, 7, 2] {
        let input = vec![ColumnarValue::Scalar(ScalarValue::Int32(Some(v)))];
        acc.accumulate(&input, None).unwrap();
    }
    assert_eq!(
        acc.final_value().unwrap(),
        ColumnarValue::Scalar(ScalarValue::Int32(Some(2)))
    );
}

#[test]
fn masked_rows_do_not_influence_max() {
    let mut acc = max_over_column(0).create_accumulator(0);
    let input = vec![ColumnarValue::Array(ArrayValue::Int32(vec![
        Some(1),
        Some(100),
        Some(2),
    ]))];
    let mask = vec![true, false, true];
    acc.accumulate(&input, Some(&mask)).unwrap();
    assert_eq!(
        acc.final_value().unwrap(),
        ColumnarValue::Scalar(ScalarValue::Int32(Some(2)))
    );
}

#[test]
fn mask_combines_with_column_validity() {
    let mut acc = max_over_column(0).create_accumulator(0);
    let input = vec![ColumnarValue::Array(ArrayValue::Int32(vec![
        Some(1),
        None,
        Some(50),
    ]))];
    let mask = vec![true, true, false];
    acc.accumulate(&input, Some(&mask)).unwrap();
    assert_eq!(
        acc.final_value().unwrap(),
        ColumnarValue::Scalar(ScalarValue::Int32(Some(1)))
    );
}

#[test]
fn fully_masked_batch_yields_null_integer() {
    let mut acc = max_over_column(0).create_accumulator(0);
    let input = vec![ColumnarValue::Array(ArrayValue::Int32(vec![Some(9)]))];
    let mask = vec![false];
    acc.accumulate(&input, Some(&mask)).unwrap();
    assert_eq!(
        acc.final_value().unwrap(),
        ColumnarValue::Scalar(ScalarValue::Int32(None))
    );
}

#[test]
fn accumulator_reads_its_own_column_index() {
    let mut acc = max_over_column(1).create_accumulator(1);
    let input = vec![
        ColumnarValue::Scalar(ScalarValue::Int32(Some(100))),
        ColumnarValue::Scalar(ScalarValue::Int32(Some(5))),
    ];
    acc.accumulate(&input, None).unwrap();
    assert_eq!(
        acc.final_value().unwrap(),
        ColumnarValue::Scalar(ScalarValue::Int32(Some(5)))
    );
}

#[test]
fn utf8_scalar_candidate_is_rejected() {
    let mut acc = max_over_column(0).create_accumulator(0);
    let input = vec![ColumnarValue::Scalar(ScalarValue::Utf8(Some("a".to_string())))];
    let r = acc.accumulate(&input, None);
    assert!(matches!(r, Err(Error::PhysicalTypeNotSupported(_))));
}

#[test]
fn boolean_array_candidate_is_rejected() {
    let mut acc = max_over_column(0).create_accumulator(0);
    let input = vec![ColumnarValue::Array(ArrayValue::Boolean(vec![Some(true)]))];
    let r = acc.accumulate(&input, None);
    assert!(matches!(r, Err(Error::PhysicalTypeNotSupported(_))));
}

#[test]
fn rejected_batch_keeps_running_value() {
    let mut acc = max_over_column(0).create_accumulator(0);
    let good = vec![ColumnarValue::Scalar(ScalarValue::Int32(Some(41)))];
    acc.accumulate(&good, None).unwrap();
    let bad = vec![ColumnarValue::Scalar(ScalarValue::Utf8(Some("a".to_string())))];
    assert!(acc.accumulate(&bad, None).is_err());
    assert_eq!(
        acc.final_value().unwrap(),
        ColumnarValue::Scalar(ScalarValue::Int32(Some(41)))
    );
}

#[test]
fn null_integer_candidate_leaves_running_value() {
    let mut acc = max_over_column(0).create_accumulator(0);
    let first = vec![ColumnarValue::Scalar(ScalarValue::Int32(Some(6)))];
    acc.accumulate(&first, None).unwrap();
    let second = vec![ColumnarValue::Scalar(ScalarValue::Int32(None))];
    acc.accumulate(&second, None).unwrap();
    assert_eq!(
        acc.final_value().unwrap(),
        ColumnarValue::Scalar(ScalarValue::Int32(Some(6)))
    );
}

#[test]
fn aggregate_expression_evaluates_its_inner_expression() {
    let agg = max_over_column(0);
    let batch = RecordBatch::new(vec![ArrayValue::Int32(vec![Some(1), Some(2)])]);
    let r = agg.evaluate(&batch).unwrap();
    assert_eq!(
        r,
        ColumnarValue::Array(ArrayValue::Int32(vec![Some(1), Some(2)]))
    );
}

#[test]
fn aggregate_renders_kind_and_inner() {
    assert_eq!(max_over_column(0).display_string(), "max #0");
    assert_eq!(min_over_column(2).display_string(), "min #2");
}
