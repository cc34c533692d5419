//! The laws of evaluation and aggregation, proved over the spec-level
//! semantics that the executable functions' contracts are stated in.

use vstd::prelude::*;

use crate::error::ErrorModel;
use crate::expression::{spec_arith, spec_evaluate, ExprModel};
use crate::semantics::{
    apply_mask, beats, reduce_i32, AggregateOperator, ArithmeticOperator, ComparisonOperator,
};
use crate::value::{ArrayModel, ScalarModel, ValueModel};

verus! {

/// The reduction is extremal: it is `None` exactly when no row is valid,
/// and otherwise yields a valid row that no valid row beats — the least row
/// under `Min`, the greatest under `Max`.
pub proof fn lemma_reduction_is_extremal(kind: AggregateOperator, s: Seq<Option<i32>>)
    ensures
        match reduce_i32(kind, s) {
            None => forall|i: int| 0 <= i < s.len() ==> s[i] is None,
            Some(m) => (exists|i: int| 0 <= i < s.len() && s[i] == Some(m)) && (forall|i: int|
                0 <= i < s.len() && s[i] is Some ==> !beats(kind, s[i]->0, m)),
        },
    decreases s.len(),
{
    if s.len() > 0 {
        let pre = s.drop_last();
        lemma_reduction_is_extremal(kind, pre);
        assert(forall|i: int| 0 <= i < pre.len() ==> pre[i] == s[i]);
        match reduce_i32(kind, s) {
            None => {
            },
            Some(m) => {
                if s.last() == Some(m) {
                    assert(s[s.len() - 1] == Some(m));
                } else {
                    assert(reduce_i32(kind, pre) == Some(m));
                    let j = choose|j: int| 0 <= j < pre.len() && pre[j] == Some(m);
                    assert(s[j] == Some(m));
                }
            },
        }
    }
}

/// Type preservation: a column reference to a column inside the batch
/// evaluates to exactly that column, as an array of the column's own
/// physical type.
pub proof fn lemma_column_type_preserved(input: Seq<ArrayModel>, i: int)
    requires
        0 <= i < input.len(),
    ensures
        spec_evaluate(ExprModel::Column(i), input) == Ok::<ValueModel, ErrorModel>(
            ValueModel::Array(input[i]),
        ),
        (spec_evaluate(ExprModel::Column(i), input)->Ok_0->Array_0).physical_type()
            == input[i].physical_type(),
{
}

/// Broadcast symmetry of comparison: where one child evaluates to an array
/// and the other to a scalar, a comparison node gives the same outcome with
/// its children in either order, for equality and inequality alike.
pub proof fn lemma_comparison_broadcast_symmetric(
    op: ComparisonOperator,
    l: ExprModel,
    r: ExprModel,
    input: Seq<ArrayModel>,
)
    requires
        spec_evaluate(l, input) matches Ok(lv) && lv is Array,
        spec_evaluate(r, input) matches Ok(rv) && rv is Scalar,
    ensures
        spec_evaluate(ExprModel::Comparison(op, Box::new(l), Box::new(r)), input)
            == spec_evaluate(ExprModel::Comparison(op, Box::new(r), Box::new(l)), input),
{
}

/// Length mismatch fails: where the two children of a comparison node
/// evaluate to arrays of different lengths, the node fails with the
/// different-sizes error, whatever the operator and the element types.
pub proof fn lemma_comparison_length_mismatch_fails(
    op: ComparisonOperator,
    l: ExprModel,
    r: ExprModel,
    input: Seq<ArrayModel>,
    a: ArrayModel,
    b: ArrayModel,
)
    requires
        spec_evaluate(l, input) == Ok::<ValueModel, ErrorModel>(ValueModel::Array(a)),
        spec_evaluate(r, input) == Ok::<ValueModel, ErrorModel>(ValueModel::Array(b)),
        a.len() != b.len(),
    ensures
        spec_evaluate(ExprModel::Comparison(op, Box::new(l), Box::new(r)), input)
            == Err::<ValueModel, ErrorModel>(ErrorModel::DifferentSizes),
{
}

/// Length mismatch fails: the same for an arithmetic node.
pub proof fn lemma_arithmetic_length_mismatch_fails(
    op: ArithmeticOperator,
    l: ExprModel,
    r: ExprModel,
    input: Seq<ArrayModel>,
    a: ArrayModel,
    b: ArrayModel,
)
    requires
        spec_evaluate(l, input) == Ok::<ValueModel, ErrorModel>(ValueModel::Array(a)),
        spec_evaluate(r, input) == Ok::<ValueModel, ErrorModel>(ValueModel::Array(b)),
        a.len() != b.len(),
    ensures
        spec_evaluate(ExprModel::Arithmetic(op, Box::new(l), Box::new(r)), input)
            == Err::<ValueModel, ErrorModel>(ErrorModel::DifferentSizes),
{
}

/// Null propagation in scalar arithmetic: where either integer operand of a
/// scalar arithmetic node is null, the result is the null integer scalar,
/// whatever the operator.
pub proof fn lemma_scalar_arith_null_propagates(
    op: ArithmeticOperator,
    x: Option<i32>,
    y: Option<i32>,
)
    requires
        x is None || y is None,
    ensures
        spec_arith(
            op,
            ValueModel::Scalar(ScalarModel::Int32(x)),
            ValueModel::Scalar(ScalarModel::Int32(y)),
        ) == Ok::<ValueModel, ErrorModel>(ValueModel::Scalar(ScalarModel::Int32(None))),
{
}

/// Validity masking: a row whose mask bit is false does not influence the
/// aggregation's reduction — two columns that agree on every unmasked row
/// reduce to the same value under that mask.
pub proof fn lemma_masked_rows_do_not_influence(
    kind: AggregateOperator,
    a1: Seq<Option<i32>>,
    a2: Seq<Option<i32>>,
    m: Seq<bool>,
)
    requires
        a1.len() == m.len(),
        a2.len() == m.len(),
        forall|i: int| 0 <= i < m.len() && m[i] ==> a1[i] == a2[i],
    ensures
        reduce_i32(kind, apply_mask(a1, m)) == reduce_i32(kind, apply_mask(a2, m)),
{
    assert(apply_mask(a1, m) =~= apply_mask(a2, m));
}

/// Unsupported type rejection: a scalar arithmetic node over operands that
/// are not both integers fails with the type-not-supported error, whatever
/// the operator; in particular two text scalars never compute.
pub proof fn lemma_non_numeric_scalar_arith_rejected(
    op: ArithmeticOperator,
    s1: ScalarModel,
    s2: ScalarModel,
)
    requires
        !(s1 is Int32) || !(s2 is Int32),
    ensures
        spec_arith(op, ValueModel::Scalar(s1), ValueModel::Scalar(s2)) == Err::<
            ValueModel,
            ErrorModel,
        >(ErrorModel::PrimitiveTypeNotSupported),
{
}

} // verus!
