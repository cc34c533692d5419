//! Aggregation: an aggregate expression wraps an inner expression and makes
//! accumulators; an [`Accumulator`] folds one column of each incoming batch
//! of evaluated expression results into a single running scalar, and yields
//! it exactly once.
//!
//! A fresh accumulator holds the untyped null as its running value; the
//! first candidate replaces it. A candidate is the min/max reduction of an
//! integer column (rows masked out by the combined validity do not take
//! part) or an integer scalar directly; any other physical type is rejected.
//! A candidate replaces the stored value when it beats it under the
//! aggregate's order.

use vstd::prelude::*;

use crate::error::{Error, ErrorModel};
use crate::expression::{
    physical_type_name, result_model, spec_display, spec_evaluate, PhysicalExpression,
};
use crate::kernels::{arrow_max_i32, arrow_min_i32};
use crate::semantics::{apply_mask, reduce_i32, reduce_step, AggregateOperator};
use crate::value::{ArrayModel, ArrayValue, ColumnarValue, RecordBatch, ScalarModel, ScalarValue, ValueModel};

verus! {

/// The model of an optional caller-supplied validity mask.
pub open spec fn mask_view(v: Option<&Vec<bool>>) -> Option<Seq<bool>> {
    match v {
        Some(m) => Some(m@),
        None => None,
    }
}

/// Folds a candidate into a stored running value.
///
/// The untyped null (the initial state) is replaced by the candidate, which
/// may itself be the null integer; an integer running value is kept or
/// replaced by [`reduce_step`]; any other stored value is rejected.
pub open spec fn spec_fold(
    kind: AggregateOperator,
    stored: ScalarModel,
    candidate: Option<i32>,
) -> Result<ScalarModel, ErrorModel> {
    match stored {
        ScalarModel::Null => Ok(ScalarModel::Int32(candidate)),
        ScalarModel::Int32(cur) => Ok(ScalarModel::Int32(reduce_step(kind, cur, candidate))),
        _ => Err(ErrorModel::PrimitiveTypeNotSupported),
    }
}

/// The candidate an accumulation step draws from the indexed input: the
/// masked reduction of an integer column, or an integer scalar directly.
pub open spec fn spec_candidate(
    kind: AggregateOperator,
    col: ValueModel,
    mask: Option<Seq<bool>>,
) -> Result<Option<i32>, ErrorModel> {
    match col {
        ValueModel::Array(a) => match a {
            ArrayModel::Int32(x) => Ok(
                reduce_i32(
                    kind,
                    match mask {
                        Some(m) => apply_mask(x, m),
                        None => x,
                    },
                ),
            ),
            _ => Err(ErrorModel::PhysicalTypeNotSupported),
        },
        ValueModel::Scalar(s) => match s {
            ScalarModel::Int32(v) => Ok(v),
            _ => Err(ErrorModel::PhysicalTypeNotSupported),
        },
    }
}

/// The meaning of one accumulation step: draw the candidate from the input
/// column, then fold it into the stored value. A candidate error leaves the
/// state unchanged.
pub open spec fn spec_accumulate(
    kind: AggregateOperator,
    stored: ScalarModel,
    col: ValueModel,
    mask: Option<Seq<bool>>,
) -> Result<ScalarModel, ErrorModel> {
    match spec_candidate(kind, col, mask) {
        Err(e) => Err(e),
        Ok(c) => spec_fold(kind, stored, c),
    }
}

/// The running state of one aggregate group: the reduction to apply, the
/// index of the column it reads from each batch of evaluated results, and
/// the running scalar.
pub struct Accumulator {
    pub kind: AggregateOperator,
    pub value: ScalarValue,
    pub index: usize,
}

/// Masks a column of integer rows: a row whose mask bit is false becomes null.
fn mask_i32_rows(v: &Vec<Option<i32>>, m: &Vec<bool>) -> (r: Vec<Option<i32>>)
    requires
        m@.len() == v@.len(),
    ensures
        r@ == apply_mask(v@, m@),
{
    let mut r: Vec<Option<i32>> = Vec::new();
    let mut k: usize = 0;
    while k < v.len()
        invariant
            m@.len() == v@.len(),
            k <= v@.len(),
            r@.len() == k,
            forall|i: int| 0 <= i < k ==> r@[i] == (if m@[i] {
                v@[i]
            } else {
                None::<i32>
            }),
        decreases v@.len() - k,
    {
        if m[k] {
            r.push(v[k]);
        } else {
            r.push(None);
        }
        k = k + 1;
    }
    proof {
        assert(r@ =~= apply_mask(v@, m@));
    }
    r
}

/// Folds one element into a running reduction value, executably.
fn reduce_step_exec(kind: AggregateOperator, acc: Option<i32>, x: Option<i32>) -> (r: Option<i32>)
    ensures
        r == reduce_step(kind, acc, x),
{
    match x {
        None => acc,
        Some(v) => match acc {
            None => Some(v),
            Some(m) => {
                let replace = match kind {
                    AggregateOperator::Min => v < m,
                    AggregateOperator::Max => v > m,
                };
                if replace {
                    Some(v)
                } else {
                    Some(m)
                }
            },
        },
    }
}

impl Accumulator {
    /// Folds the candidate into the running value, as [`spec_fold`] says.
    fn fold_candidate(&mut self, candidate: Option<i32>) -> (r: Result<(), Error>)
        ensures
            final(self).kind == old(self).kind,
            final(self).index == old(self).index,
            match spec_fold(old(self).kind, old(self).value@, candidate) {
                Ok(v) => r is Ok && final(self).value@ == v,
                Err(k) => r matches Err(e) && e@ == k && final(self).value@ == old(self).value@,
            },
    {
        match &self.value {
            ScalarValue::Null => {
                self.value = ScalarValue::Int32(candidate);
                Ok(())
            },
            ScalarValue::Int32(cur) => {
                let folded = reduce_step_exec(self.kind, *cur, candidate);
                self.value = ScalarValue::Int32(folded);
                Ok(())
            },
            _ => Err(Error::PrimitiveTypeNotSupported(physical_type_name(
                self.value.physical_type(),
            ))),
        }
    }

    /// Folds the indexed column of `input` into the running value. The
    /// supplied mask, where one is given, is combined with the column's own
    /// validity: a row is taken only where both admit it. On an error the
    /// running value is unchanged.
    pub fn accumulate(&mut self, input: &Vec<ColumnarValue>, validity: Option<&Vec<bool>>) -> (r:
        Result<(), Error>)
        requires
            old(self).index < input@.len(),
            match (input.deep_view()[old(self).index as int], mask_view(validity)) {
                (ValueModel::Array(a), Some(m)) => m.len() == a.len(),
                _ => true,
            },
        ensures
            final(self).kind == old(self).kind,
            final(self).index == old(self).index,
            match spec_accumulate(
                old(self).kind,
                old(self).value@,
                input.deep_view()[old(self).index as int],
                mask_view(validity),
            ) {
                Ok(v) => r is Ok && final(self).value@ == v,
                Err(k) => r matches Err(e) && e@ == k && final(self).value@ == old(self).value@,
            },
    {
        proof {
            assert(input.deep_view()[self.index as int] == input@[self.index as int]@);
        }
        let col = &input[self.index];
        match col {
            ColumnarValue::Array(arr) => match arr {
                ArrayValue::Int32(x) => {
                    let candidate = match validity {
                        Some(m) => {
                            let masked = mask_i32_rows(x, m);
                            match self.kind {
                                AggregateOperator::Min => arrow_min_i32(&masked),
                                AggregateOperator::Max => arrow_max_i32(&masked),
                            }
                        },
                        None => match self.kind {
                            AggregateOperator::Min => arrow_min_i32(x),
                            AggregateOperator::Max => arrow_max_i32(x),
                        },
                    };
                    self.fold_candidate(candidate)
                },
                _ => Err(Error::PhysicalTypeNotSupported(physical_type_name(
                    arr.physical_type(),
                ))),
            },
            ColumnarValue::Scalar(s) => match s {
                ScalarValue::Int32(v) => {
                    let candidate = *v;
                    self.fold_candidate(candidate)
                },
                _ => Err(Error::PhysicalTypeNotSupported(physical_type_name(s.physical_type()))),
            },
        }
    }

    /// Consumes the accumulator and yields the running scalar; the
    /// accumulator cannot be used again.
    pub fn final_value(self) -> (r: Result<ColumnarValue, Error>)
        ensures
            r == Ok::<ColumnarValue, Error>(ColumnarValue::Scalar(self.value)),
    {
        Ok(ColumnarValue::Scalar(self.value))
    }
}

/// The rendering of an aggregate's reduction.
pub open spec fn agg_symbol(kind: AggregateOperator) -> Seq<char> {
    match kind {
        AggregateOperator::Min => seq!['m', 'i', 'n'],
        AggregateOperator::Max => seq!['m', 'a', 'x'],
    }
}

/// An aggregate expression: a reduction over an inner expression. Evaluating
/// it evaluates the inner expression; aggregation itself goes through the
/// accumulators it creates.
pub struct PhysicalAggregateExpression {
    pub kind: AggregateOperator,
    pub expr: PhysicalExpression,
}

impl PhysicalAggregateExpression {
    /// The aggregate of `kind` over `expr`.
    pub fn new(kind: AggregateOperator, expr: PhysicalExpression) -> (r:
        PhysicalAggregateExpression)
        ensures
            r.kind == kind,
            r.expr == expr,
    {
        PhysicalAggregateExpression { kind, expr }
    }

    /// Evaluates the inner expression against `input`.
    pub fn evaluate(&self, input: &RecordBatch) -> (r: Result<ColumnarValue, Error>)
        ensures
            result_model(r) == spec_evaluate(self.expr@, input@),
    {
        self.expr.evaluate(input)
    }

    /// A fresh accumulator bound to column `index` of each batch of
    /// evaluated results, holding the initial untyped null.
    pub fn create_accumulator(&self, index: usize) -> (r: Accumulator)
        ensures
            r.kind == self.kind,
            r.index == index,
            r.value == ScalarValue::Null,
    {
        Accumulator { kind: self.kind, value: ScalarValue::Null, index }
    }

    /// Renders the aggregate as text: the reduction's name, then the inner
    /// expression.
    pub fn display_string(&self) -> (s: String)
        ensures
            s@ == agg_symbol(self.kind) + seq![' '] + spec_display(self.expr@),
    {
        let mut s = match self.kind {
            AggregateOperator::Min => {
                proof {
                    reveal_strlit("min");
                    assert("min"@ =~= agg_symbol(AggregateOperator::Min));
                }
                "min".to_owned()
            },
            AggregateOperator::Max => {
                proof {
                    reveal_strlit("max");
                    assert("max"@ =~= agg_symbol(AggregateOperator::Max));
                }
                "max".to_owned()
            },
        };
        proof {
            reveal_strlit(" ");
            assert(" "@ =~= seq![' ']);
        }
        s.append(" ");
        let inner = self.expr.display_string();
        s.append(inner.as_str());
        s
    }
}

} // verus!
