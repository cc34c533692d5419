use physical_expr::error::Error;
use physical_expr::expression::{
    ColumnExpression, LiteralBoolExpression, LiteralIntegerExpression, LiteralStringExpression,
    PhysicalExpression,
};
use physical_expr::semantics::{ArithmeticOperator, ComparisonOperator};
use physical_expr::value::{ArrayValue, ColumnarValue, PhysicalType, RecordBatch, ScalarValue};

fn column(index: usize) -> PhysicalExpression {
    PhysicalExpression::Column(ColumnExpression::new(index))
}

fn lit_int(v: i32) -> PhysicalExpression {
    PhysicalExpression::LiteralInteger(LiteralIntegerExpression::new(v))
}

fn lit_int_null() -> PhysicalExpression {
    PhysicalExpression::LiteralInteger(LiteralIntegerExpression::new_null())
}

fn lit_str(v: &str) -> PhysicalExpression {
    PhysicalExpression::LiteralString(LiteralStringExpression::new(v.to_string()))
}

fn cmp(op: ComparisonOperator, l: PhysicalExpression, r: PhysicalExpression) -> PhysicalExpression {
    PhysicalExpression::Comparison(op, Box::new(l), Box::new(r))
}

fn arith(
    op: ArithmeticOperator,
    l: PhysicalExpression,
    r: PhysicalExpression,
) -> PhysicalExpression {
    PhysicalExpression::Arithmetic(op, Box::new(l), Box::new(r))
}

fn int_batch(rows: Vec<Option<i32>>) -> RecordBatch {
    RecordBatch::new(vec![ArrayValue::Int32(rows)])
}

#[test]
fn column_reference_preserves_int32_type() {
    let batch = int_batch(vec![Some(1), None, Some(3)]);
    let r = column(0).evaluate(&batch).unwrap();
    match r {
        ColumnarValue::Array(a) => {
            assert_eq!(a.physical_type(), PhysicalType::Int32);
            assert_eq!(a, ArrayValue::Int32(vec![Some(1), None, Some(3)]));
        }
        ColumnarValue::Scalar(_) => panic!("expected an array"),
    }
}

#[test]
fn column_reference_preserves_utf8_type() {
    let batch = RecordBatch::new(vec![ArrayValue::Utf8(vec![Some("a".to_string()), None])]);
    let r = column(0).evaluate(&batch).unwrap();
    match r {
        ColumnarValue::Array(a) => assert_eq!(a.physical_type(), PhysicalType::Utf8),
        ColumnarValue::Scalar(_) => panic!("expected an array"),
    }
}

#[test]
fn column_reference_preserves_boolean_type() {
    let batch = RecordBatch::new(vec![ArrayValue::Boolean(vec![Some(true), None])]);
    let r = column(0).evaluate(&batch).unwrap();
    match r {
        ColumnarValue::Array(a) => assert_eq!(a.physical_type(), PhysicalType::Boolean),
        ColumnarValue::Scalar(_) => panic!("expected an array"),
    }
}

#[test]
fn column_reference_out_of_range_fails() {
    let batch = int_batch(vec![Some(1)]);
    let r = column(3).evaluate(&batch);
    assert!(matches!(r, Err(Error::PrimitiveTypeNotSupported(_))));
}

#[test]
fn literal_nodes_yield_scalars() {
    let batch = int_batch(vec![Some(1)]);
    let b = PhysicalExpression::LiteralBool(LiteralBoolExpression::new(true));
    assert_eq!(
        b.evaluate(&batch).unwrap(),
        ColumnarValue::Scalar(ScalarValue::Boolean(Some(true)))
    );
    assert_eq!(
        lit_int(5).evaluate(&batch).unwrap(),
        ColumnarValue::Scalar(ScalarValue::Int32(Some(5)))
    );
    assert_eq!(
        lit_str("hi").evaluate(&batch).unwrap(),
        ColumnarValue::Scalar(ScalarValue::Utf8(Some("hi".to_string())))
    );
    assert_eq!(
        lit_int_null().evaluate(&batch).unwrap(),
        ColumnarValue::Scalar(ScalarValue::Int32(None))
    );
}

#[test]
fn eq_broadcast_is_symmetric() {
    let batch = int_batch(vec![Some(1), Some(2), None]);
    let forward = cmp(ComparisonOperator::Eq, column(0), lit_int(2)).evaluate(&batch).unwrap();
    let backward = cmp(ComparisonOperator::Eq, lit_int(2), column(0)).evaluate(&batch).unwrap();
    assert_eq!(forward, backward);
    assert_eq!(
        forward,
        ColumnarValue::Array(ArrayValue::Boolean(vec![Some(false), Some(true), None]))
    );
}

#[test]
fn neq_broadcast_is_symmetric() {
    let batch = int_batch(vec![Some(1), Some(2), None]);
    let forward = cmp(ComparisonOperator::Neq, column(0), lit_int(2)).evaluate(&batch).unwrap();
    let backward = cmp(ComparisonOperator::Neq, lit_int(2), column(0)).evaluate(&batch).unwrap();
    assert_eq!(forward, backward);
    assert_eq!(
        forward,
        ColumnarValue::Array(ArrayValue::Boolean(vec![Some(true), Some(false), None]))
    );
}

#[test]
fn sub_broadcast_keeps_operand_order() {
    let batch = int_batch(vec![Some(10), Some(20)]);
    let array_minus_scalar =
        arith(ArithmeticOperator::Sub, column(0), lit_int(5)).evaluate(&batch).unwrap();
    assert_eq!(
        array_minus_scalar,
        ColumnarValue::Array(ArrayValue::Int32(vec![Some(5), Some(15)]))
    );
    let scalar_minus_array =
        arith(ArithmeticOperator::Sub, lit_int(5), column(0)).evaluate(&batch).unwrap();
    assert_eq!(
        scalar_minus_array,
        ColumnarValue::Array(ArrayValue::Int32(vec![Some(-5), Some(-15)]))
    );
}

#[test]
fn div_broadcast_keeps_operand_order() {
    let batch = int_batch(vec![Some(2), Some(5)]);
    let array_over_scalar =
        arith(ArithmeticOperator::Div, column(0), lit_int(2)).evaluate(&batch).unwrap();
    assert_eq!(
        array_over_scalar,
        ColumnarValue::Array(ArrayValue::Int32(vec![Some(1), Some(2)]))
    );
    let scalar_over_array =
        arith(ArithmeticOperator::Div, lit_int(10), column(0)).evaluate(&batch).unwrap();
    assert_eq!(
        scalar_over_array,
        ColumnarValue::Array(ArrayValue::Int32(vec![Some(5), Some(2)]))
    );
}

#[test]
fn length_mismatch_fails_for_comparison() {
    let batch = RecordBatch::new(vec![
        ArrayValue::Int32(vec![Some(1), Some(2)]),
        ArrayValue::Int32(vec![Some(1), Some(2), Some(3)]),
    ]);
    let r = cmp(ComparisonOperator::Eq, column(0), column(1)).evaluate(&batch);
    assert!(matches!(r, Err(Error::DifferentSizes(_, _))));
}

#[test]
fn length_mismatch_fails_for_arithmetic() {
    let batch = RecordBatch::new(vec![
        ArrayValue::Int32(vec![Some(1), Some(2)]),
        ArrayValue::Int32(vec![Some(1), Some(2), Some(3)]),
    ]);
    for op in [
        ArithmeticOperator::Add,
        ArithmeticOperator::Sub,
        ArithmeticOperator::Mul,
        ArithmeticOperator::Div,
    ] {
        let r = arith(op, column(0), column(1)).evaluate(&batch);
        assert!(matches!(r, Err(Error::DifferentSizes(_, _))));
    }
}

#[test]
fn scalar_addition_computes() {
    let batch = int_batch(vec![Some(1)]);
    let r = arith(ArithmeticOperator::Add, lit_int(3), lit_int(4)).evaluate(&batch).unwrap();
    assert_eq!(r, ColumnarValue::Scalar(ScalarValue::Int32(Some(7))));
}

#[test]
fn scalar_addition_propagates_null() {
    let batch = int_batch(vec![Some(1)]);
    let r = arith(ArithmeticOperator::Add, lit_int_null(), lit_int(5)).evaluate(&batch).unwrap();
    assert_eq!(r, ColumnarValue::Scalar(ScalarValue::Int32(None)));
    let r = arith(ArithmeticOperator::Add, lit_int(5), lit_int_null()).evaluate(&batch).unwrap();
    assert_eq!(r, ColumnarValue::Scalar(ScalarValue::Int32(None)));
}

#[test]
fn utf8_scalar_arithmetic_is_rejected() {
    let batch = int_batch(vec![Some(1)]);
    let r = arith(ArithmeticOperator::Add, lit_str("a"), lit_str("b")).evaluate(&batch);
    assert!(matches!(r, Err(Error::PrimitiveTypeNotSupported(_))));
}

#[test]
fn scalar_overflow_yields_null() {
    let batch = int_batch(vec![Some(1)]);
    let r = arith(ArithmeticOperator::Add, lit_int(i32::MAX), lit_int(1)).evaluate(&batch).unwrap();
    assert_eq!(r, ColumnarValue::Scalar(ScalarValue::Int32(None)));
    let r = arith(ArithmeticOperator::Mul, lit_int(65536), lit_int(65536)).evaluate(&batch).unwrap();
    assert_eq!(r, ColumnarValue::Scalar(ScalarValue::Int32(None)));
}

#[test]
fn scalar_division_by_zero_yields_null() {
    let batch = int_batch(vec![Some(1)]);
    let r = arith(ArithmeticOperator::Div, lit_int(1), lit_int(0)).evaluate(&batch).unwrap();
    assert_eq!(r, ColumnarValue::Scalar(ScalarValue::Int32(None)));
}

#[test]
fn array_array_arithmetic_computes_elementwise() {
    let batch = RecordBatch::new(vec![
        ArrayValue::Int32(vec![Some(10), Some(6), None]),
        ArrayValue::Int32(vec![Some(2), None, Some(4)]),
    ]);
    let r = arith(ArithmeticOperator::Add, column(0), column(1)).evaluate(&batch).unwrap();
    assert_eq!(
        r,
        ColumnarValue::Array(ArrayValue::Int32(vec![Some(12), None, None]))
    );
    let r = arith(ArithmeticOperator::Mul, column(0), column(1)).evaluate(&batch).unwrap();
    assert_eq!(
        r,
        ColumnarValue::Array(ArrayValue::Int32(vec![Some(20), None, None]))
    );
    let r = arith(ArithmeticOperator::Sub, column(0), column(1)).evaluate(&batch).unwrap();
    assert_eq!(
        r,
        ColumnarValue::Array(ArrayValue::Int32(vec![Some(8), None, None]))
    );
}

#[test]
fn array_division_by_zero_yields_null_row() {
    let batch = RecordBatch::new(vec![
        ArrayValue::Int32(vec![Some(10), Some(5)]),
        ArrayValue::Int32(vec![Some(2), Some(0)]),
    ]);
    let r = arith(ArithmeticOperator::Div, column(0), column(1)).evaluate(&batch).unwrap();
    assert_eq!(
        r,
        ColumnarValue::Array(ArrayValue::Int32(vec![Some(5), None]))
    );
}

#[test]
fn array_overflow_yields_null_row() {
    let batch = RecordBatch::new(vec![ArrayValue::Int32(vec![Some(i32::MAX), Some(1)])]);
    let r = arith(ArithmeticOperator::Add, column(0), lit_int(1)).evaluate(&batch).unwrap();
    assert_eq!(
        r,
        ColumnarValue::Array(ArrayValue::Int32(vec![None, Some(2)]))
    );
}

#[test]
fn array_array_equality_compares_elementwise() {
    let batch = RecordBatch::new(vec![
        ArrayValue::Int32(vec![Some(1), Some(2), None]),
        ArrayValue::Int32(vec![Some(1), Some(3), Some(4)]),
    ]);
    let r = cmp(ComparisonOperator::Eq, column(0), column(1)).evaluate(&batch).unwrap();
    assert_eq!(
        r,
        ColumnarValue::Array(ArrayValue::Boolean(vec![Some(true), Some(false), None]))
    );
}

#[test]
fn utf8_array_equality_compares_elementwise() {
    let batch = RecordBatch::new(vec![
        ArrayValue::Utf8(vec![Some("a".to_string()), Some("b".to_string()), None]),
        ArrayValue::Utf8(vec![Some("a".to_string()), Some("c".to_string()), Some("d".to_string())]),
    ]);
    let r = cmp(ComparisonOperator::Eq, column(0), column(1)).evaluate(&batch).unwrap();
    assert_eq!(
        r,
        ColumnarValue::Array(ArrayValue::Boolean(vec![Some(true), Some(false), None]))
    );
}

#[test]
fn boolean_array_inequality_compares_elementwise() {
    let batch = RecordBatch::new(vec![
        ArrayValue::Boolean(vec![Some(true), Some(false), None]),
        ArrayValue::Boolean(vec![Some(true), Some(true), Some(false)]),
    ]);
    let r = cmp(ComparisonOperator::Neq, column(0), column(1)).evaluate(&batch).unwrap();
    assert_eq!(
        r,
        ColumnarValue::Array(ArrayValue::Boolean(vec![Some(false), Some(true), None]))
    );
}

#[test]
fn int32_array_inequality_compares_elementwise() {
    let batch = RecordBatch::new(vec![
        ArrayValue::Int32(vec![Some(1), Some(2), None]),
        ArrayValue::Int32(vec![Some(1), Some(3), Some(4)]),
    ]);
    let r = cmp(ComparisonOperator::Neq, column(0), column(1)).evaluate(&batch).unwrap();
    assert_eq!(
        r,
        ColumnarValue::Array(ArrayValue::Boolean(vec![Some(false), Some(true), None]))
    );
}

#[test]
fn utf8_array_inequality_compares_elementwise() {
    let batch = RecordBatch::new(vec![
        ArrayValue::Utf8(vec![Some("a".to_string()), Some("b".to_string())]),
        ArrayValue::Utf8(vec![Some("a".to_string()), Some("c".to_string())]),
    ]);
    let r = cmp(ComparisonOperator::Neq, column(0), column(1)).evaluate(&batch).unwrap();
    assert_eq!(
        r,
        ColumnarValue::Array(ArrayValue::Boolean(vec![Some(false), Some(true)]))
    );
}

#[test]
fn boolean_array_equality_compares_elementwise() {
    let batch = RecordBatch::new(vec![
        ArrayValue::Boolean(vec![Some(true), Some(false), None]),
        ArrayValue::Boolean(vec![Some(true), Some(true), Some(false)]),
    ]);
    let r = cmp(ComparisonOperator::Eq, column(0), column(1)).evaluate(&batch).unwrap();
    assert_eq!(
        r,
        ColumnarValue::Array(ArrayValue::Boolean(vec![Some(true), Some(false), None]))
    );
}

#[test]
fn boolean_array_against_scalar_compares() {
    let batch = RecordBatch::new(vec![ArrayValue::Boolean(vec![Some(true), Some(false), None])]);
    let lit_true = PhysicalExpression::LiteralBool(LiteralBoolExpression::new(true));
    let r = cmp(ComparisonOperator::Eq, column(0), lit_true).evaluate(&batch).unwrap();
    assert_eq!(
        r,
        ColumnarValue::Array(ArrayValue::Boolean(vec![Some(true), Some(false), None]))
    );
    let lit_true = PhysicalExpression::LiteralBool(LiteralBoolExpression::new(true));
    let r = cmp(ComparisonOperator::Neq, column(0), lit_true).evaluate(&batch).unwrap();
    assert_eq!(
        r,
        ColumnarValue::Array(ArrayValue::Boolean(vec![Some(false), Some(true), None]))
    );
}

#[test]
fn utf8_array_against_scalar_differs() {
    let batch = RecordBatch::new(vec![ArrayValue::Utf8(vec![
        Some("a".to_string()),
        Some("b".to_string()),
        None,
    ])]);
    let r = cmp(ComparisonOperator::Neq, column(0), lit_str("b")).evaluate(&batch).unwrap();
    assert_eq!(
        r,
        ColumnarValue::Array(ArrayValue::Boolean(vec![Some(true), Some(false), None]))
    );
}

#[test]
fn array_times_scalar_multiplies() {
    let batch = int_batch(vec![Some(3), None, Some(-4)]);
    let r = arith(ArithmeticOperator::Mul, column(0), lit_int(6)).evaluate(&batch).unwrap();
    assert_eq!(
        r,
        ColumnarValue::Array(ArrayValue::Int32(vec![Some(18), None, Some(-24)]))
    );
}

#[test]
fn utf8_array_against_scalar_compares() {
    let batch = RecordBatch::new(vec![ArrayValue::Utf8(vec![
        Some("a".to_string()),
        Some("b".to_string()),
        None,
    ])]);
    let r = cmp(ComparisonOperator::Eq, column(0), lit_str("b")).evaluate(&batch).unwrap();
    assert_eq!(
        r,
        ColumnarValue::Array(ArrayValue::Boolean(vec![Some(false), Some(true), None]))
    );
}

#[test]
fn comparison_against_null_scalar_is_all_null() {
    let batch = int_batch(vec![Some(1), Some(2)]);
    let r = cmp(ComparisonOperator::Eq, column(0), lit_int_null()).evaluate(&batch).unwrap();
    assert_eq!(r, ColumnarValue::Array(ArrayValue::Boolean(vec![None, None])));
}

#[test]
fn scalar_scalar_comparison_yields_boolean_scalar() {
    let batch = int_batch(vec![Some(1)]);
    let r = cmp(ComparisonOperator::Eq, lit_int(3), lit_int(3)).evaluate(&batch).unwrap();
    assert_eq!(r, ColumnarValue::Scalar(ScalarValue::Boolean(Some(true))));
    let r = cmp(ComparisonOperator::Neq, lit_int(3), lit_int(3)).evaluate(&batch).unwrap();
    assert_eq!(r, ColumnarValue::Scalar(ScalarValue::Boolean(Some(false))));
}

#[test]
fn null_scalars_of_one_type_compare_equal() {
    let batch = int_batch(vec![Some(1)]);
    let r = cmp(ComparisonOperator::Eq, lit_int_null(), lit_int_null()).evaluate(&batch).unwrap();
    assert_eq!(r, ColumnarValue::Scalar(ScalarValue::Boolean(Some(true))));
}

#[test]
fn scalars_of_distinct_types_compare_unequal() {
    let batch = int_batch(vec![Some(1)]);
    let r = cmp(ComparisonOperator::Eq, lit_int(3), lit_str("3")).evaluate(&batch).unwrap();
    assert_eq!(r, ColumnarValue::Scalar(ScalarValue::Boolean(Some(false))));
}

#[test]
fn mismatched_array_types_do_not_compare() {
    let batch = RecordBatch::new(vec![
        ArrayValue::Int32(vec![Some(1), Some(2)]),
        ArrayValue::Utf8(vec![Some("a".to_string()), Some("b".to_string())]),
    ]);
    let r = cmp(ComparisonOperator::Eq, column(0), column(1)).evaluate(&batch);
    assert!(matches!(r, Err(Error::PrimitiveTypeNotSupported(_))));
}

#[test]
fn child_error_propagates_to_parent() {
    let batch = int_batch(vec![Some(1)]);
    let bad = arith(ArithmeticOperator::Add, lit_str("a"), lit_str("b"));
    let tree = arith(ArithmeticOperator::Mul, bad, lit_int(2));
    let r = tree.evaluate(&batch);
    assert!(matches!(r, Err(Error::PrimitiveTypeNotSupported(_))));
}

#[test]
fn empty_arrays_compare_to_empty_result() {
    let batch = RecordBatch::new(vec![
        ArrayValue::Int32(vec![]),
        ArrayValue::Int32(vec![]),
    ]);
    let r = cmp(ComparisonOperator::Eq, column(0), column(1)).evaluate(&batch).unwrap();
    assert_eq!(r, ColumnarValue::Array(ArrayValue::Boolean(vec![])));
}

#[test]
fn batch_reports_its_column_count() {
    let batch = RecordBatch::new(vec![
        ArrayValue::Int32(vec![Some(1)]),
        ArrayValue::Boolean(vec![Some(true)]),
    ]);
    assert_eq!(batch.column_count(), 2);
    assert_eq!(batch.columns[0].len(), 1);
    assert_eq!(batch.column(1).unwrap(), &ArrayValue::Boolean(vec![Some(true)]));
    assert!(matches!(
        batch.column(2),
        Err(Error::PrimitiveTypeNotSupported(_))
    ));
}

#[test]
fn checked_downcasts_report_mismatch() {
    let a = ArrayValue::Utf8(vec![Some("a".to_string())]);
    assert!(matches!(a.as_int32(), Err(Error::DowncastError)));
    assert!(matches!(a.as_utf8(), Ok(_)));
    let b = ArrayValue::Int32(vec![Some(1)]);
    assert_eq!(b.as_int32().unwrap(), &vec![Some(1)]);
    assert!(matches!(b.as_boolean(), Err(Error::DowncastError)));
    let s = ScalarValue::Utf8(Some("x".to_string()));
    assert!(matches!(s.as_int32(), Err(Error::DowncastError)));
    assert_eq!(ScalarValue::Int32(Some(4)).as_int32().unwrap(), Some(4));
}
