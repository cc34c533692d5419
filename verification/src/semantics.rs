//! The operators and the mathematical semantics of every elementwise
//! operation: checked 32-bit arithmetic, comparison, validity masking and
//! min/max reduction.
//!
//! Arithmetic is checked: integer overflow and division by zero yield a null
//! element, exactly as the checked kernels of the columnar array library
//! define it. A null operand element propagates to a null result element.

use vstd::prelude::*;

verus! {

/// A comparison node's operator.
#[derive(Clone, Copy, PartialEq, Eq, Structural, Debug)]
pub enum ComparisonOperator {
    Eq,
    Neq,
}

/// An arithmetic node's operator.
#[derive(Clone, Copy, PartialEq, Eq, Structural, Debug)]
pub enum ArithmeticOperator {
    Add,
    Sub,
    Mul,
    Div,
}

/// An aggregation's reduction: the least or the greatest value.
#[derive(Clone, Copy, PartialEq, Eq, Structural, Debug)]
pub enum AggregateOperator {
    Min,
    Max,
}

/// Whether `v` fits the 32-bit signed integer range.
pub open spec fn in_i32_range(v: int) -> bool {
    i32::MIN <= v <= i32::MAX
}

/// Division truncated towards zero, as machine division rounds.
pub open spec fn trunc_div(a: int, b: int) -> int {
    if (a < 0) == (b < 0) {
        (vstd::math::abs(a) as int) / (vstd::math::abs(b) as int)
    } else {
        -((vstd::math::abs(a) as int) / (vstd::math::abs(b) as int))
    }
}

/// Checked arithmetic on two valid 32-bit integers: `None` on overflow and
/// on division by zero, otherwise the exact result.
pub open spec fn checked_arith(op: ArithmeticOperator, a: i32, b: i32) -> Option<i32> {
    match op {
        ArithmeticOperator::Add => if in_i32_range(a + b) {
            Some((a + b) as i32)
        } else {
            None
        },
        ArithmeticOperator::Sub => if in_i32_range(a - b) {
            Some((a - b) as i32)
        } else {
            None
        },
        ArithmeticOperator::Mul => if in_i32_range(a * b) {
            Some((a * b) as i32)
        } else {
            None
        },
        ArithmeticOperator::Div => if b == 0 || (a == i32::MIN && b == -1) {
            None
        } else {
            Some(trunc_div(a as int, b as int) as i32)
        },
    }
}

/// One element of an arithmetic result: null propagates, otherwise checked
/// arithmetic decides.
pub open spec fn arith_elem(op: ArithmeticOperator, x: Option<i32>, y: Option<i32>) -> Option<
    i32,
> {
    match (x, y) {
        (Some(a), Some(b)) => checked_arith(op, a, b),
        _ => None,
    }
}

/// Elementwise arithmetic of two equally long columns.
pub open spec fn arith_seq(
    op: ArithmeticOperator,
    a: Seq<Option<i32>>,
    b: Seq<Option<i32>>,
) -> Seq<Option<i32>> {
    Seq::new(a.len(), |i: int| arith_elem(op, a[i], b[i]))
}

/// Elementwise arithmetic of a column against a broadcast right-hand scalar.
pub open spec fn arith_seq_scalar(
    op: ArithmeticOperator,
    a: Seq<Option<i32>>,
    s: Option<i32>,
) -> Seq<Option<i32>> {
    Seq::new(a.len(), |i: int| arith_elem(op, a[i], s))
}

/// Elementwise arithmetic of a broadcast left-hand scalar against a column.
pub open spec fn arith_scalar_seq(
    op: ArithmeticOperator,
    s: Option<i32>,
    a: Seq<Option<i32>>,
) -> Seq<Option<i32>> {
    Seq::new(a.len(), |i: int| arith_elem(op, s, a[i]))
}

/// Applies a comparison operator to the outcome of an equality test.
pub open spec fn cmp_outcome(op: ComparisonOperator, eq: bool) -> bool {
    match op {
        ComparisonOperator::Eq => eq,
        ComparisonOperator::Neq => !eq,
    }
}

/// One element of a comparison result: null propagates, otherwise the two
/// valid elements are compared.
pub open spec fn cmp_elem<T>(op: ComparisonOperator, x: Option<T>, y: Option<T>) -> Option<
    bool,
> {
    match (x, y) {
        (Some(a), Some(b)) => Some(cmp_outcome(op, a == b)),
        _ => None,
    }
}

/// Elementwise comparison of two equally long columns.
pub open spec fn cmp_seq<T>(
    op: ComparisonOperator,
    a: Seq<Option<T>>,
    b: Seq<Option<T>>,
) -> Seq<Option<bool>> {
    Seq::new(a.len(), |i: int| cmp_elem(op, a[i], b[i]))
}

/// Elementwise comparison of a column against a broadcast scalar.
pub open spec fn cmp_seq_scalar<T>(
    op: ComparisonOperator,
    a: Seq<Option<T>>,
    s: Option<T>,
) -> Seq<Option<bool>> {
    Seq::new(a.len(), |i: int| cmp_elem(op, a[i], s))
}

/// Masks a column: a row whose mask bit is false becomes null.
pub open spec fn apply_mask<T>(a: Seq<Option<T>>, m: Seq<bool>) -> Seq<Option<T>> {
    Seq::new(a.len(), |i: int| if m[i] { a[i] } else { None })
}

/// Whether `candidate` beats `incumbent` under the aggregate's order:
/// strictly greater for `Max`, strictly less for `Min`.
pub open spec fn beats(kind: AggregateOperator, candidate: i32, incumbent: i32) -> bool {
    match kind {
        AggregateOperator::Min => candidate < incumbent,
        AggregateOperator::Max => candidate > incumbent,
    }
}

/// Folds one element into a running reduction value: a null element changes
/// nothing, a valid element replaces a missing or beaten running value.
pub open spec fn reduce_step(kind: AggregateOperator, acc: Option<i32>, x: Option<i32>) -> Option<
    i32,
> {
    match x {
        None => acc,
        Some(v) => match acc {
            None => Some(v),
            Some(m) => if beats(kind, v, m) {
                Some(v)
            } else {
                Some(m)
            },
        },
    }
}

/// The min/max reduction of a column: `None` when no row is valid, otherwise
/// the least (`Min`) or greatest (`Max`) valid row.
pub open spec fn reduce_i32(kind: AggregateOperator, s: Seq<Option<i32>>) -> Option<i32>
    decreases s.len(),
{
    if s.len() == 0 {
        None
    } else {
        reduce_step(kind, reduce_i32(kind, s.drop_last()), s.last())
    }
}

/// Checked arithmetic on two valid 32-bit integers, executably.
pub fn checked_arith_exec(op: ArithmeticOperator, a: i32, b: i32) -> (r: Option<i32>)
    ensures
        r == checked_arith(op, a, b),
{
    match op {
        ArithmeticOperator::Add => {
            let v: i64 = a as i64 + b as i64;
            if i32::MIN as i64 <= v && v <= i32::MAX as i64 {
                Some(v as i32)
            } else {
                None
            }
        },
        ArithmeticOperator::Sub => {
            let v: i64 = a as i64 - b as i64;
            if i32::MIN as i64 <= v && v <= i32::MAX as i64 {
                Some(v as i32)
            } else {
                None
            }
        },
        ArithmeticOperator::Mul => {
            proof {
                assert(-0x4000_0000_0000_0000 <= (a as int) * (b as int)
                    <= 0x4000_0000_0000_0000) by (nonlinear_arith)
                    requires
                        -0x8000_0000 <= a as int <= 0x7fff_ffff,
                        -0x8000_0000 <= b as int <= 0x7fff_ffff,
                ;
            }
            let v: i64 = a as i64 * b as i64;
            if i32::MIN as i64 <= v && v <= i32::MAX as i64 {
                Some(v as i32)
            } else {
                None
            }
        },
        ArithmeticOperator::Div => {
            if b == 0 || (a == i32::MIN && b == -1) {
                None
            } else {
                let aa: u32 = if a >= 0 {
                    a as u32
                } else {
                    ((-(a as i64)) as u32)
                };
                let bb: u32 = if b >= 0 {
                    b as u32
                } else {
                    ((-(b as i64)) as u32)
                };
                let q: u32 = aa / bb;
                let neg: bool = (a < 0) != (b < 0);
                proof {
                    assert(aa == vstd::math::abs(a as int));
                    assert(bb == vstd::math::abs(b as int));
                    assert(q == vstd::math::abs(a as int) / vstd::math::abs(b as int));
                }
                if neg {
                    proof {
                        assert(q <= 0x8000_0000u32) by {
                            assert(vstd::math::abs(a as int) <= 0x8000_0000);
                            vstd::arithmetic::div_mod::lemma_div_is_ordered(
                                vstd::math::abs(a as int) as int,
                                0x8000_0000,
                                vstd::math::abs(b as int) as int,
                            );
                            vstd::arithmetic::div_mod::lemma_div_by_multiple(1, 0x8000_0000);
                        };
                    }
                    Some((-(q as i64)) as i32)
                } else {
                    proof {
                        assert(q < 0x8000_0000u32) by {
                            if a == i32::MIN {
                                assert(b < 0 && b != -1);
                                assert(vstd::math::abs(b as int) >= 2);
                                vstd::arithmetic::div_mod::lemma_div_decreases(
                                    vstd::math::abs(a as int) as int,
                                    vstd::math::abs(b as int) as int,
                                );
                            } else {
                                assert(vstd::math::abs(a as int) < 0x8000_0000);
                                vstd::arithmetic::div_mod::lemma_div_is_ordered(
                                    vstd::math::abs(a as int) as int,
                                    0x7fff_ffff,
                                    vstd::math::abs(b as int) as int,
                                );
                                vstd::arithmetic::div_mod::lemma_div_by_multiple(1, 0x7fff_ffff);
                            }
                        };
                    }
                    Some(q as i32)
                }
            }
        },
    }
}

/// One element of an arithmetic result, executably.
pub fn arith_elem_exec(op: ArithmeticOperator, x: Option<i32>, y: Option<i32>) -> (r: Option<
    i32,
>)
    ensures
        r == arith_elem(op, x, y),
{
    match (x, y) {
        (Some(a), Some(b)) => checked_arith_exec(op, a, b),
        _ => None,
    }
}

} // verus!
