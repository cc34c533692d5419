//! Trusted declarations of the vectorized kernels this library consumes from
//! the `arrow2` columnar array library: elementwise comparison, checked
//! elementwise arithmetic, and min/max reduction.
//!
//! Each wrapper converts between this library's row representation
//! (`Option` per row, `None` being a row masked out by the validity bitmap)
//! and `arrow2`'s arrays, calls exactly one kernel, and converts the result
//! back. The contracts state what the kernels compute, in the terms of
//! [`crate::semantics`]; the kernels themselves are not verified.

use vstd::prelude::*;

use arrow2::array::{BooleanArray, PrimitiveArray, Utf8Array};
use arrow2::compute::aggregate::{max_primitive, min_primitive};
use arrow2::compute::arithmetics::basic;
use arrow2::compute::comparison::{boolean, primitive, utf8};

use crate::semantics::{
    arith_seq, arith_seq_scalar, cmp_seq, cmp_seq_scalar, reduce_i32, AggregateOperator,
    ArithmeticOperator, ComparisonOperator,
};

verus! {

/// Relies on arrow2::compute::comparison::primitive::eq: a result row is
/// valid where both operand rows are, and holds the equality of the row values.
#[verifier::external_body]
pub(crate) fn arrow_eq_i32(lhs: &Vec<Option<i32>>, rhs: &Vec<Option<i32>>) -> (r: Vec<Option<bool>>)
    requires
        lhs@.len() == rhs@.len(),
    ensures
        r@ == cmp_seq(ComparisonOperator::Eq, lhs@, rhs@),
{
    let l = PrimitiveArray::<i32>::from(lhs.as_slice());
    let rr = PrimitiveArray::<i32>::from(rhs.as_slice());
    primitive::eq(&l, &rr).iter().collect()
}

/// Relies on arrow2::compute::comparison::primitive::neq: a result row is
/// valid where both operand rows are, and holds the inequality of the row values.
#[verifier::external_body]
pub(crate) fn arrow_neq_i32(lhs: &Vec<Option<i32>>, rhs: &Vec<Option<i32>>) -> (r: Vec<
    Option<bool>,
>)
    requires
        lhs@.len() == rhs@.len(),
    ensures
        r@ == cmp_seq(ComparisonOperator::Neq, lhs@, rhs@),
{
    let l = PrimitiveArray::<i32>::from(lhs.as_slice());
    let rr = PrimitiveArray::<i32>::from(rhs.as_slice());
    primitive::neq(&l, &rr).iter().collect()
}

/// Relies on arrow2::compute::comparison::primitive::eq_scalar: keeps the
/// array's validity and compares each valid row against the scalar.
#[verifier::external_body]
pub(crate) fn arrow_eq_scalar_i32(lhs: &Vec<Option<i32>>, rhs: i32) -> (r: Vec<Option<bool>>)
    ensures
        r@ == cmp_seq_scalar(ComparisonOperator::Eq, lhs@, Some(rhs)),
{
    let l = PrimitiveArray::<i32>::from(lhs.as_slice());
    primitive::eq_scalar(&l, rhs).iter().collect()
}

/// Relies on arrow2::compute::comparison::primitive::neq_scalar: keeps the
/// array's validity and compares each valid row against the scalar.
#[verifier::external_body]
pub(crate) fn arrow_neq_scalar_i32(lhs: &Vec<Option<i32>>, rhs: i32) -> (r: Vec<Option<bool>>)
    ensures
        r@ == cmp_seq_scalar(ComparisonOperator::Neq, lhs@, Some(rhs)),
{
    let l = PrimitiveArray::<i32>::from(lhs.as_slice());
    primitive::neq_scalar(&l, rhs).iter().collect()
}

/// Relies on arrow2::compute::comparison::utf8::eq: a result row is valid
/// where both operand rows are, and holds the equality of the row texts.
/// The columns are built with 64-bit offsets, so no column a machine can
/// hold overflows them.
#[verifier::external_body]
pub(crate) fn arrow_eq_utf8(lhs: &Vec<Option<String>>, rhs: &Vec<Option<String>>) -> (r: Vec<
    Option<bool>,
>)
    requires
        lhs.deep_view().len() == rhs.deep_view().len(),
    ensures
        r@ == cmp_seq(ComparisonOperator::Eq, lhs.deep_view(), rhs.deep_view()),
{
    let l: Utf8Array<i64> = lhs.iter().map(|s| s.as_ref()).collect();
    let rr: Utf8Array<i64> = rhs.iter().map(|s| s.as_ref()).collect();
    utf8::eq(&l, &rr).iter().collect()
}

/// Relies on arrow2::compute::comparison::utf8::neq: a result row is valid
/// where both operand rows are, and holds the inequality of the row texts.
/// The columns are built with 64-bit offsets, so no column a machine can
/// hold overflows them.
#[verifier::external_body]
pub(crate) fn arrow_neq_utf8(lhs: &Vec<Option<String>>, rhs: &Vec<Option<String>>) -> (r: Vec<
    Option<bool>,
>)
    requires
        lhs.deep_view().len() == rhs.deep_view().len(),
    ensures
        r@ == cmp_seq(ComparisonOperator::Neq, lhs.deep_view(), rhs.deep_view()),
{
    let l: Utf8Array<i64> = lhs.iter().map(|s| s.as_ref()).collect();
    let rr: Utf8Array<i64> = rhs.iter().map(|s| s.as_ref()).collect();
    utf8::neq(&l, &rr).iter().collect()
}

/// Relies on arrow2::compute::comparison::utf8::eq_scalar: keeps the array's
/// validity and compares each valid row against the scalar text. The column
/// is built with 64-bit offsets, so no column a machine can hold overflows
/// them.
#[verifier::external_body]
pub(crate) fn arrow_eq_scalar_utf8(lhs: &Vec<Option<String>>, rhs: &String) -> (r: Vec<
    Option<bool>,
>)
    ensures
        r@ == cmp_seq_scalar(ComparisonOperator::Eq, lhs.deep_view(), Some(rhs@)),
{
    let l: Utf8Array<i64> = lhs.iter().map(|s| s.as_ref()).collect();
    utf8::eq_scalar(&l, rhs.as_str()).iter().collect()
}

/// Relies on arrow2::compute::comparison::utf8::neq_scalar: keeps the array's
/// validity and compares each valid row against the scalar text. The column
/// is built with 64-bit offsets, so no column a machine can hold overflows
/// them.
#[verifier::external_body]
pub(crate) fn arrow_neq_scalar_utf8(lhs: &Vec<Option<String>>, rhs: &String) -> (r: Vec<
    Option<bool>,
>)
    ensures
        r@ == cmp_seq_scalar(ComparisonOperator::Neq, lhs.deep_view(), Some(rhs@)),
{
    let l: Utf8Array<i64> = lhs.iter().map(|s| s.as_ref()).collect();
    utf8::neq_scalar(&l, rhs.as_str()).iter().collect()
}

/// Relies on arrow2::compute::comparison::boolean::eq: a result row is valid
/// where both operand rows are, and holds the equality of the row values.
#[verifier::external_body]
pub(crate) fn arrow_eq_bool(lhs: &Vec<Option<bool>>, rhs: &Vec<Option<bool>>) -> (r: Vec<
    Option<bool>,
>)
    requires
        lhs@.len() == rhs@.len(),
    ensures
        r@ == cmp_seq(ComparisonOperator::Eq, lhs@, rhs@),
{
    let l = BooleanArray::from(lhs.as_slice());
    let rr = BooleanArray::from(rhs.as_slice());
    boolean::eq(&l, &rr).iter().collect()
}

/// Relies on arrow2::compute::comparison::boolean::neq: a result row is valid
/// where both operand rows are, and holds the inequality of the row values.
#[verifier::external_body]
pub(crate) fn arrow_neq_bool(lhs: &Vec<Option<bool>>, rhs: &Vec<Option<bool>>) -> (r: Vec<
    Option<bool>,
>)
    requires
        lhs@.len() == rhs@.len(),
    ensures
        r@ == cmp_seq(ComparisonOperator::Neq, lhs@, rhs@),
{
    let l = BooleanArray::from(lhs.as_slice());
    let rr = BooleanArray::from(rhs.as_slice());
    boolean::neq(&l, &rr).iter().collect()
}

/// Relies on arrow2::compute::comparison::boolean::eq_scalar: keeps the
/// array's validity and compares each valid row against the scalar.
#[verifier::external_body]
pub(crate) fn arrow_eq_scalar_bool(lhs: &Vec<Option<bool>>, rhs: bool) -> (r: Vec<Option<bool>>)
    ensures
        r@ == cmp_seq_scalar(ComparisonOperator::Eq, lhs@, Some(rhs)),
{
    let l = BooleanArray::from(lhs.as_slice());
    boolean::eq_scalar(&l, rhs).iter().collect()
}

/// Relies on arrow2::compute::comparison::boolean::neq_scalar: keeps the
/// array's validity and compares each valid row against the scalar.
#[verifier::external_body]
pub(crate) fn arrow_neq_scalar_bool(lhs: &Vec<Option<bool>>, rhs: bool) -> (r: Vec<Option<bool>>)
    ensures
        r@ == cmp_seq_scalar(ComparisonOperator::Neq, lhs@, Some(rhs)),
{
    let l = BooleanArray::from(lhs.as_slice());
    boolean::neq_scalar(&l, rhs).iter().collect()
}

/// Relies on arrow2::compute::arithmetics::basic::checked_add: a result row
/// is null where an operand row is, or where the sum overflows.
#[verifier::external_body]
pub(crate) fn arrow_checked_add_i32(lhs: &Vec<Option<i32>>, rhs: &Vec<Option<i32>>) -> (r: Vec<
    Option<i32>,
>)
    requires
        lhs@.len() == rhs@.len(),
    ensures
        r@ == arith_seq(ArithmeticOperator::Add, lhs@, rhs@),
{
    let l = PrimitiveArray::<i32>::from(lhs.as_slice());
    let rr = PrimitiveArray::<i32>::from(rhs.as_slice());
    basic::checked_add(&l, &rr).iter().map(|o| o.copied()).collect()
}

/// Relies on arrow2::compute::arithmetics::basic::checked_sub: a result row
/// is null where an operand row is, or where the difference overflows.
#[verifier::external_body]
pub(crate) fn arrow_checked_sub_i32(lhs: &Vec<Option<i32>>, rhs: &Vec<Option<i32>>) -> (r: Vec<
    Option<i32>,
>)
    requires
        lhs@.len() == rhs@.len(),
    ensures
        r@ == arith_seq(ArithmeticOperator::Sub, lhs@, rhs@),
{
    let l = PrimitiveArray::<i32>::from(lhs.as_slice());
    let rr = PrimitiveArray::<i32>::from(rhs.as_slice());
    basic::checked_sub(&l, &rr).iter().map(|o| o.copied()).collect()
}

/// Relies on arrow2::compute::arithmetics::basic::checked_mul: a result row
/// is null where an operand row is, or where the product overflows.
#[verifier::external_body]
pub(crate) fn arrow_checked_mul_i32(lhs: &Vec<Option<i32>>, rhs: &Vec<Option<i32>>) -> (r: Vec<
    Option<i32>,
>)
    requires
        lhs@.len() == rhs@.len(),
    ensures
        r@ == arith_seq(ArithmeticOperator::Mul, lhs@, rhs@),
{
    let l = PrimitiveArray::<i32>::from(lhs.as_slice());
    let rr = PrimitiveArray::<i32>::from(rhs.as_slice());
    basic::checked_mul(&l, &rr).iter().map(|o| o.copied()).collect()
}

/// Relies on arrow2::compute::arithmetics::basic::checked_div: a result row
/// is null where an operand row is, where the divisor row is zero, or where
/// the quotient overflows.
#[verifier::external_body]
pub(crate) fn arrow_checked_div_i32(lhs: &Vec<Option<i32>>, rhs: &Vec<Option<i32>>) -> (r: Vec<
    Option<i32>,
>)
    requires
        lhs@.len() == rhs@.len(),
    ensures
        r@ == arith_seq(ArithmeticOperator::Div, lhs@, rhs@),
{
    let l = PrimitiveArray::<i32>::from(lhs.as_slice());
    let rr = PrimitiveArray::<i32>::from(rhs.as_slice());
    basic::checked_div(&l, &rr).iter().map(|o| o.copied()).collect()
}

/// Relies on arrow2::compute::arithmetics::basic::checked_add_scalar: adds
/// the scalar to each valid row, null where the sum overflows.
#[verifier::external_body]
pub(crate) fn arrow_checked_add_scalar_i32(lhs: &Vec<Option<i32>>, rhs: i32) -> (r: Vec<
    Option<i32>,
>)
    ensures
        r@ == arith_seq_scalar(ArithmeticOperator::Add, lhs@, Some(rhs)),
{
    let l = PrimitiveArray::<i32>::from(lhs.as_slice());
    basic::checked_add_scalar(&l, &rhs).iter().map(|o| o.copied()).collect()
}

/// Relies on arrow2::compute::arithmetics::basic::checked_sub_scalar:
/// subtracts the scalar from each valid row, null where the difference
/// overflows.
#[verifier::external_body]
pub(crate) fn arrow_checked_sub_scalar_i32(lhs: &Vec<Option<i32>>, rhs: i32) -> (r: Vec<
    Option<i32>,
>)
    ensures
        r@ == arith_seq_scalar(ArithmeticOperator::Sub, lhs@, Some(rhs)),
{
    let l = PrimitiveArray::<i32>::from(lhs.as_slice());
    basic::checked_sub_scalar(&l, &rhs).iter().map(|o| o.copied()).collect()
}

/// Relies on arrow2::compute::arithmetics::basic::checked_mul_scalar:
/// multiplies each valid row by the scalar, null where the product overflows.
#[verifier::external_body]
pub(crate) fn arrow_checked_mul_scalar_i32(lhs: &Vec<Option<i32>>, rhs: i32) -> (r: Vec<
    Option<i32>,
>)
    ensures
        r@ == arith_seq_scalar(ArithmeticOperator::Mul, lhs@, Some(rhs)),
{
    let l = PrimitiveArray::<i32>::from(lhs.as_slice());
    basic::checked_mul_scalar(&l, &rhs).iter().map(|o| o.copied()).collect()
}

/// Relies on arrow2::compute::arithmetics::basic::checked_div_scalar:
/// divides each valid row by the scalar, null where the divisor is zero or
/// the quotient overflows.
#[verifier::external_body]
pub(crate) fn arrow_checked_div_scalar_i32(lhs: &Vec<Option<i32>>, rhs: i32) -> (r: Vec<
    Option<i32>,
>)
    ensures
        r@ == arith_seq_scalar(ArithmeticOperator::Div, lhs@, Some(rhs)),
{
    let l = PrimitiveArray::<i32>::from(lhs.as_slice());
    basic::checked_div_scalar(&l, &rhs).iter().map(|o| o.copied()).collect()
}

/// Relies on arrow2::compute::aggregate::min_primitive: the least valid row,
/// `None` when no row is valid.
#[verifier::external_body]
pub(crate) fn arrow_min_i32(a: &Vec<Option<i32>>) -> (r: Option<i32>)
    ensures
        r == reduce_i32(AggregateOperator::Min, a@),
{
    let arr = PrimitiveArray::<i32>::from(a.as_slice());
    min_primitive(&arr)
}

/// Relies on arrow2::compute::aggregate::max_primitive: the greatest valid
/// row, `None` when no row is valid.
#[verifier::external_body]
pub(crate) fn arrow_max_i32(a: &Vec<Option<i32>>) -> (r: Option<i32>)
    ensures
        r == reduce_i32(AggregateOperator::Max, a@),
{
    let arr = PrimitiveArray::<i32>::from(a.as_slice());
    max_primitive(&arr)
}

} // verus!
