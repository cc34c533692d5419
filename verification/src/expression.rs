//! The expression tree and its evaluation.
//!
//! An expression is a tagged union over column references, typed literals,
//! comparison nodes and arithmetic nodes. Evaluating a node against a
//! [`RecordBatch`] yields a [`ColumnarValue`]; [`spec_evaluate`] is the
//! mathematical meaning of evaluation, and the executable evaluator is
//! proved to return exactly it (up to the diagnostic strings that error
//! values carry).
//!
//! Broadcasting: a comparison of an array against a scalar is normalized so
//! the array is the kernel's first operand (safe, equality and inequality
//! are commutative); arithmetic never swaps its operands, so a left-hand
//! scalar is broadcast to a column and keeps its position.

use vstd::prelude::*;

use crate::display::{dec_rep, dec_rep_int, i32_to_decimal, usize_to_decimal};
use crate::error::{Error, ErrorModel};
use crate::kernels::{
    arrow_checked_add_i32, arrow_checked_add_scalar_i32, arrow_checked_div_i32,
    arrow_checked_div_scalar_i32, arrow_checked_mul_i32, arrow_checked_mul_scalar_i32,
    arrow_checked_sub_i32, arrow_checked_sub_scalar_i32, arrow_eq_bool, arrow_eq_i32,
    arrow_eq_scalar_bool, arrow_eq_scalar_i32, arrow_eq_scalar_utf8, arrow_eq_utf8,
    arrow_neq_bool, arrow_neq_i32, arrow_neq_scalar_bool, arrow_neq_scalar_i32,
    arrow_neq_scalar_utf8, arrow_neq_utf8,
};
use crate::semantics::{
    arith_elem, arith_scalar_seq, arith_seq, arith_seq_scalar, arith_elem_exec, cmp_outcome,
    cmp_seq, cmp_seq_scalar, ArithmeticOperator, ComparisonOperator,
};
use crate::value::{
    ArrayModel, ArrayValue, ColumnarValue, PhysicalType, RecordBatch, ScalarModel, ScalarValue,
    ValueModel,
};

verus! {

/// A reference to the column at `index` of the input batch.
#[derive(Clone)]
pub struct ColumnExpression {
    pub index: usize,
}

impl ColumnExpression {
    /// A reference to column `index`.
    pub fn new(index: usize) -> (r: ColumnExpression)
        ensures
            r.index == index,
    {
        ColumnExpression { index }
    }
}

/// A boolean literal; `None` is the null boolean.
#[derive(Clone)]
pub struct LiteralBoolExpression {
    pub value: Option<bool>,
}

impl LiteralBoolExpression {
    /// The literal holding `value`.
    pub fn new(value: bool) -> (r: LiteralBoolExpression)
        ensures
            r.value == Some(value),
    {
        LiteralBoolExpression { value: Some(value) }
    }

    /// The null boolean literal.
    pub fn new_null() -> (r: LiteralBoolExpression)
        ensures
            r.value is None,
    {
        LiteralBoolExpression { value: None }
    }
}

/// A 32-bit integer literal; `None` is the null integer.
#[derive(Clone)]
pub struct LiteralIntegerExpression {
    pub value: Option<i32>,
}

impl LiteralIntegerExpression {
    /// The literal holding `value`.
    pub fn new(value: i32) -> (r: LiteralIntegerExpression)
        ensures
            r.value == Some(value),
    {
        LiteralIntegerExpression { value: Some(value) }
    }

    /// The null integer literal.
    pub fn new_null() -> (r: LiteralIntegerExpression)
        ensures
            r.value is None,
    {
        LiteralIntegerExpression { value: None }
    }
}

/// A UTF-8 text literal; `None` is the null text.
#[derive(Clone)]
pub struct LiteralStringExpression {
    pub value: Option<String>,
}

impl LiteralStringExpression {
    /// The literal holding `value`.
    pub fn new(value: String) -> (r: LiteralStringExpression)
        ensures
            r.value == Some(value),
    {
        LiteralStringExpression { value: Some(value) }
    }

    /// The null text literal.
    pub fn new_null() -> (r: LiteralStringExpression)
        ensures
            r.value is None,
    {
        LiteralStringExpression { value: None }
    }
}

/// The mathematical shape of an expression tree.
pub enum ExprModel {
    Column(int),
    LiteralBool(Option<bool>),
    LiteralInteger(Option<i32>),
    LiteralString(Option<Seq<char>>),
    Comparison(ComparisonOperator, Box<ExprModel>, Box<ExprModel>),
    Arithmetic(ArithmeticOperator, Box<ExprModel>, Box<ExprModel>),
}

/// An expression node: a column reference, a literal, or a binary node over
/// two child expressions.
pub enum PhysicalExpression {
    Column(ColumnExpression),
    LiteralBool(LiteralBoolExpression),
    LiteralInteger(LiteralIntegerExpression),
    LiteralString(LiteralStringExpression),
    Comparison(ComparisonOperator, Box<PhysicalExpression>, Box<PhysicalExpression>),
    Arithmetic(ArithmeticOperator, Box<PhysicalExpression>, Box<PhysicalExpression>),
}

/// The model of an expression tree.
pub open spec fn expr_view(e: PhysicalExpression) -> ExprModel
    decreases e,
{
    match e {
        PhysicalExpression::Column(c) => ExprModel::Column(c.index as int),
        PhysicalExpression::LiteralBool(l) => ExprModel::LiteralBool(l.value),
        PhysicalExpression::LiteralInteger(l) => ExprModel::LiteralInteger(l.value),
        PhysicalExpression::LiteralString(l) => ExprModel::LiteralString(
            match l.value {
                Some(s) => Some(s@),
                None => None,
            },
        ),
        PhysicalExpression::Comparison(op, l, r) => ExprModel::Comparison(
            op,
            Box::new(expr_view(*l)),
            Box::new(expr_view(*r)),
        ),
        PhysicalExpression::Arithmetic(op, l, r) => ExprModel::Arithmetic(
            op,
            Box::new(expr_view(*l)),
            Box::new(expr_view(*r)),
        ),
    }
}

impl View for PhysicalExpression {
    type V = ExprModel;

    open spec fn view(&self) -> ExprModel {
        expr_view(*self)
    }
}

/// The model of an evaluation outcome: the value's model on success, the
/// error's kind on failure.
pub open spec fn result_model(r: Result<ColumnarValue, Error>) -> Result<ValueModel, ErrorModel> {
    match r {
        Ok(v) => Ok(v@),
        Err(e) => Err(e@),
    }
}

/// The meaning of comparing an array against a broadcast scalar: a boolean
/// column, null where the row or the scalar is null. Operands of distinct
/// physical types do not compare.
pub open spec fn spec_compare_array_scalar(
    op: ComparisonOperator,
    a: ArrayModel,
    s: ScalarModel,
) -> Result<ValueModel, ErrorModel> {
    match (a, s) {
        (ArrayModel::Int32(x), ScalarModel::Int32(v)) => Ok(
            ValueModel::Array(ArrayModel::Boolean(cmp_seq_scalar(op, x, v))),
        ),
        (ArrayModel::Utf8(x), ScalarModel::Utf8(v)) => Ok(
            ValueModel::Array(ArrayModel::Boolean(cmp_seq_scalar(op, x, v))),
        ),
        (ArrayModel::Boolean(x), ScalarModel::Boolean(v)) => Ok(
            ValueModel::Array(ArrayModel::Boolean(cmp_seq_scalar(op, x, v))),
        ),
        _ => Err(ErrorModel::PrimitiveTypeNotSupported),
    }
}

/// The meaning of a comparison node over two evaluated operands.
///
/// Array against array requires equal lengths and equal physical types;
/// scalar against array is normalized to array against scalar (equality and
/// inequality are commutative); scalar against scalar is the direct
/// comparison of the two values, a null comparing equal only to a null of
/// the same type.
pub open spec fn spec_compare(
    op: ComparisonOperator,
    l: ValueModel,
    r: ValueModel,
) -> Result<ValueModel, ErrorModel> {
    match (l, r) {
        (ValueModel::Array(a), ValueModel::Array(b)) => if a.len() != b.len() {
            Err(ErrorModel::DifferentSizes)
        } else {
            match (a, b) {
                (ArrayModel::Int32(x), ArrayModel::Int32(y)) => Ok(
                    ValueModel::Array(ArrayModel::Boolean(cmp_seq(op, x, y))),
                ),
                (ArrayModel::Utf8(x), ArrayModel::Utf8(y)) => Ok(
                    ValueModel::Array(ArrayModel::Boolean(cmp_seq(op, x, y))),
                ),
                (ArrayModel::Boolean(x), ArrayModel::Boolean(y)) => Ok(
                    ValueModel::Array(ArrayModel::Boolean(cmp_seq(op, x, y))),
                ),
                _ => Err(ErrorModel::PrimitiveTypeNotSupported),
            }
        },
        (ValueModel::Array(a), ValueModel::Scalar(s)) => spec_compare_array_scalar(op, a, s),
        (ValueModel::Scalar(s), ValueModel::Array(a)) => spec_compare_array_scalar(op, a, s),
        (ValueModel::Scalar(s1), ValueModel::Scalar(s2)) => Ok(
            ValueModel::Scalar(ScalarModel::Boolean(Some(cmp_outcome(op, s1 == s2)))),
        ),
    }
}

/// The meaning of an arithmetic node over two evaluated operands.
///
/// Only the 32-bit integer representation computes here; a left-hand scalar
/// keeps its position (subtraction and division do not commute). A null
/// operand row propagates; overflow and division by zero yield a null row.
pub open spec fn spec_arith(
    op: ArithmeticOperator,
    l: ValueModel,
    r: ValueModel,
) -> Result<ValueModel, ErrorModel> {
    match (l, r) {
        (ValueModel::Array(a), ValueModel::Array(b)) => if a.len() != b.len() {
            Err(ErrorModel::DifferentSizes)
        } else {
            match (a, b) {
                (ArrayModel::Int32(x), ArrayModel::Int32(y)) => Ok(
                    ValueModel::Array(ArrayModel::Int32(arith_seq(op, x, y))),
                ),
                _ => Err(ErrorModel::PrimitiveTypeNotSupported),
            }
        },
        (ValueModel::Array(a), ValueModel::Scalar(s)) => match (a, s) {
            (ArrayModel::Int32(x), ScalarModel::Int32(v)) => Ok(
                ValueModel::Array(ArrayModel::Int32(arith_seq_scalar(op, x, v))),
            ),
            _ => Err(ErrorModel::PrimitiveTypeNotSupported),
        },
        (ValueModel::Scalar(s), ValueModel::Array(a)) => match (s, a) {
            (ScalarModel::Int32(v), ArrayModel::Int32(x)) => Ok(
                ValueModel::Array(ArrayModel::Int32(arith_scalar_seq(op, v, x))),
            ),
            _ => Err(ErrorModel::PrimitiveTypeNotSupported),
        },
        (ValueModel::Scalar(s1), ValueModel::Scalar(s2)) => match (s1, s2) {
            (ScalarModel::Int32(x), ScalarModel::Int32(y)) => Ok(
                ValueModel::Scalar(ScalarModel::Int32(arith_elem(op, x, y))),
            ),
            _ => Err(ErrorModel::PrimitiveTypeNotSupported),
        },
    }
}

/// The meaning of evaluating an expression against a batch.
///
/// A column reference yields the referenced column unchanged (and fails on
/// an index outside the batch); a literal yields its scalar; a binary node
/// evaluates its children (a left child's error wins) and combines the two
/// outcomes.
pub open spec fn spec_evaluate(e: ExprModel, input: Seq<ArrayModel>) -> Result<
    ValueModel,
    ErrorModel,
>
    decreases e,
{
    match e {
        ExprModel::Column(i) => if 0 <= i < input.len() {
            Ok(ValueModel::Array(input[i]))
        } else {
            Err(ErrorModel::PrimitiveTypeNotSupported)
        },
        ExprModel::LiteralBool(v) => Ok(ValueModel::Scalar(ScalarModel::Boolean(v))),
        ExprModel::LiteralInteger(v) => Ok(ValueModel::Scalar(ScalarModel::Int32(v))),
        ExprModel::LiteralString(v) => Ok(ValueModel::Scalar(ScalarModel::Utf8(v))),
        ExprModel::Comparison(op, l, r) => match spec_evaluate(*l, input) {
            Err(e) => Err(e),
            Ok(lv) => match spec_evaluate(*r, input) {
                Err(e) => Err(e),
                Ok(rv) => spec_compare(op, lv, rv),
            },
        },
        ExprModel::Arithmetic(op, l, r) => match spec_evaluate(*l, input) {
            Err(e) => Err(e),
            Ok(lv) => match spec_evaluate(*r, input) {
                Err(e) => Err(e),
                Ok(rv) => spec_arith(op, lv, rv),
            },
        },
    }
}

/// The rendering of a comparison operator. `Neq` renders as `!=`: its
/// textually correct symbol, deliberately, even though equality and
/// inequality nodes are otherwise rendered alike.
pub open spec fn cmp_symbol(op: ComparisonOperator) -> Seq<char> {
    match op {
        ComparisonOperator::Eq => seq!['=', '='],
        ComparisonOperator::Neq => seq!['!', '='],
    }
}

/// The rendering of an arithmetic operator.
pub open spec fn arith_symbol(op: ArithmeticOperator) -> Seq<char> {
    match op {
        ArithmeticOperator::Add => seq!['+'],
        ArithmeticOperator::Sub => seq!['-'],
        ArithmeticOperator::Mul => seq!['*'],
        ArithmeticOperator::Div => seq!['/'],
    }
}

/// The rendering of a null literal.
pub open spec fn null_rep() -> Seq<char> {
    seq!['n', 'u', 'l', 'l']
}

/// The rendering of a boolean literal.
pub open spec fn bool_rep(v: Option<bool>) -> Seq<char> {
    match v {
        Some(true) => seq!['t', 'r', 'u', 'e'],
        Some(false) => seq!['f', 'a', 'l', 's', 'e'],
        None => null_rep(),
    }
}

/// The rendering of an integer literal.
pub open spec fn int_rep(v: Option<i32>) -> Seq<char> {
    match v {
        Some(x) => dec_rep_int(x as int),
        None => null_rep(),
    }
}

/// The rendering of a text literal: the text itself.
pub open spec fn str_rep(v: Option<Seq<char>>) -> Seq<char> {
    match v {
        Some(s) => s,
        None => null_rep(),
    }
}

/// The rendering of an expression tree: `#i` for a column reference, the
/// value for a literal, and `left op right` for a binary node.
pub open spec fn spec_display(e: ExprModel) -> Seq<char>
    decreases e,
{
    match e {
        ExprModel::Column(i) => seq!['#'] + dec_rep(i as nat),
        ExprModel::LiteralBool(v) => bool_rep(v),
        ExprModel::LiteralInteger(v) => int_rep(v),
        ExprModel::LiteralString(v) => str_rep(v),
        ExprModel::Comparison(op, l, r) => spec_display(*l) + seq![' '] + cmp_symbol(op)
            + seq![' '] + spec_display(*r),
        ExprModel::Arithmetic(op, l, r) => spec_display(*l) + seq![' '] + arith_symbol(op)
            + seq![' '] + spec_display(*r),
    }
}

/// The symbol of a comparison operator.
fn cmp_symbol_str(op: ComparisonOperator) -> (s: &'static str)
    ensures
        s@ == cmp_symbol(op),
{
    match op {
        ComparisonOperator::Eq => {
            proof {
                reveal_strlit("==");
                assert("=="@ =~= cmp_symbol(ComparisonOperator::Eq));
            }
            "=="
        },
        ComparisonOperator::Neq => {
            proof {
                reveal_strlit("!=");
                assert("!="@ =~= cmp_symbol(ComparisonOperator::Neq));
            }
            "!="
        },
    }
}

/// The symbol of an arithmetic operator.
fn arith_symbol_str(op: ArithmeticOperator) -> (s: &'static str)
    ensures
        s@ == arith_symbol(op),
{
    match op {
        ArithmeticOperator::Add => {
            proof {
                reveal_strlit("+");
                assert("+"@ =~= arith_symbol(ArithmeticOperator::Add));
            }
            "+"
        },
        ArithmeticOperator::Sub => {
            proof {
                reveal_strlit("-");
                assert("-"@ =~= arith_symbol(ArithmeticOperator::Sub));
            }
            "-"
        },
        ArithmeticOperator::Mul => {
            proof {
                reveal_strlit("*");
                assert("*"@ =~= arith_symbol(ArithmeticOperator::Mul));
            }
            "*"
        },
        ArithmeticOperator::Div => {
            proof {
                reveal_strlit("/");
                assert("/"@ =~= arith_symbol(ArithmeticOperator::Div));
            }
            "/"
        },
    }
}

/// The rendering of a null literal.
fn null_str() -> (s: String)
    ensures
        s@ == null_rep(),
{
    proof {
        reveal_strlit("null");
        assert("null"@ =~= null_rep());
    }
    "null".to_owned()
}

impl PhysicalExpression {
    /// Renders the expression as text, deterministically: the result is a
    /// function of the tree alone.
    pub fn display_string(&self) -> (s: String)
        ensures
            s@ == spec_display(self@),
        decreases *self,
    {
        match self {
            PhysicalExpression::Column(c) => {
                let mut s = "#".to_owned();
                proof {
                    reveal_strlit("#");
                    assert(s@ =~= seq!['#']);
                }
                let digits = usize_to_decimal(c.index);
                s.append(digits.as_str());
                s
            },
            PhysicalExpression::LiteralBool(l) => match l.value {
                Some(true) => {
                    proof {
                        reveal_strlit("true");
                        assert("true"@ =~= bool_rep(Some(true)));
                    }
                    "true".to_owned()
                },
                Some(false) => {
                    proof {
                        reveal_strlit("false");
                        assert("false"@ =~= bool_rep(Some(false)));
                    }
                    "false".to_owned()
                },
                None => null_str(),
            },
            PhysicalExpression::LiteralInteger(l) => match l.value {
                Some(v) => i32_to_decimal(v),
                None => null_str(),
            },
            PhysicalExpression::LiteralString(l) => match &l.value {
                Some(v) => v.clone(),
                None => null_str(),
            },
            PhysicalExpression::Comparison(op, l, r) => {
                proof {
                    reveal_strlit(" ");
                    assert(" "@ =~= seq![' ']);
                }
                let mut s = l.display_string();
                s.append(" ");
                s.append(cmp_symbol_str(*op));
                s.append(" ");
                let right = r.display_string();
                s.append(right.as_str());
                proof {
                    assert(s@ =~= spec_display(self@));
                }
                s
            },
            PhysicalExpression::Arithmetic(op, l, r) => {
                proof {
                    reveal_strlit(" ");
                    assert(" "@ =~= seq![' ']);
                }
                let mut s = l.display_string();
                s.append(" ");
                s.append(arith_symbol_str(*op));
                s.append(" ");
                let right = r.display_string();
                s.append(right.as_str());
                proof {
                    assert(s@ =~= spec_display(self@));
                }
                s
            },
        }
    }
}

/// Copies a column of integer rows.
fn clone_i32_rows(v: &Vec<Option<i32>>) -> (r: Vec<Option<i32>>)
    ensures
        r@ == v@,
{
    let mut r: Vec<Option<i32>> = Vec::new();
    let mut k: usize = 0;
    while k < v.len()
        invariant
            k <= v@.len(),
            r@.len() == k,
            forall|i: int| 0 <= i < k ==> r@[i] == v@[i],
        decreases v@.len() - k,
    {
        r.push(v[k]);
        k = k + 1;
    }
    proof {
        assert(r@ =~= v@);
    }
    r
}

/// Copies a column of boolean rows.
fn clone_bool_rows(v: &Vec<Option<bool>>) -> (r: Vec<Option<bool>>)
    ensures
        r@ == v@,
{
    let mut r: Vec<Option<bool>> = Vec::new();
    let mut k: usize = 0;
    while k < v.len()
        invariant
            k <= v@.len(),
            r@.len() == k,
            forall|i: int| 0 <= i < k ==> r@[i] == v@[i],
        decreases v@.len() - k,
    {
        r.push(v[k]);
        k = k + 1;
    }
    proof {
        assert(r@ =~= v@);
    }
    r
}

/// Copies a column of text rows.
fn clone_utf8_rows(v: &Vec<Option<String>>) -> (r: Vec<Option<String>>)
    ensures
        r.deep_view() == v.deep_view(),
{
    let mut r: Vec<Option<String>> = Vec::new();
    let mut k: usize = 0;
    while k < v.len()
        invariant
            k <= v@.len(),
            r@.len() == k,
            forall|i: int| 0 <= i < k ==> r.deep_view()[i] == v.deep_view()[i],
        decreases v@.len() - k,
    {
        match &v[k] {
            Some(s) => r.push(Some(s.clone())),
            None => r.push(None),
        }
        k = k + 1;
    }
    proof {
        assert(r.deep_view() =~= v.deep_view());
    }
    r
}

/// Copies a column.
fn clone_array(a: &ArrayValue) -> (r: ArrayValue)
    ensures
        r@ == a@,
{
    match a {
        ArrayValue::Int32(v) => ArrayValue::Int32(clone_i32_rows(v)),
        ArrayValue::Utf8(v) => ArrayValue::Utf8(clone_utf8_rows(v)),
        ArrayValue::Boolean(v) => ArrayValue::Boolean(clone_bool_rows(v)),
    }
}

/// A boolean column of `len` null rows.
fn all_null_bools(len: usize) -> (r: Vec<Option<bool>>)
    ensures
        r@ == Seq::new(len as nat, |i: int| None::<bool>),
{
    let mut r: Vec<Option<bool>> = Vec::new();
    let mut k: usize = 0;
    while k < len
        invariant
            k <= len,
            r@.len() == k,
            forall|i: int| 0 <= i < k ==> r@[i] is None,
        decreases len - k,
    {
        r.push(None);
        k = k + 1;
    }
    proof {
        assert(r@ =~= Seq::new(len as nat, |i: int| None::<bool>));
    }
    r
}

/// An integer column of `len` copies of the broadcast scalar `s`.
fn broadcast_i32(s: Option<i32>, len: usize) -> (r: Vec<Option<i32>>)
    ensures
        r@ == Seq::new(len as nat, |i: int| s),
{
    let mut r: Vec<Option<i32>> = Vec::new();
    let mut k: usize = 0;
    while k < len
        invariant
            k <= len,
            r@.len() == k,
            forall|i: int| 0 <= i < k ==> r@[i] == s,
        decreases len - k,
    {
        r.push(s);
        k = k + 1;
    }
    proof {
        assert(r@ =~= Seq::new(len as nat, |i: int| s));
    }
    r
}

/// Whether two scalars hold the same value: the same physical type, and
/// equal payloads (two nulls of one type are the same value).
fn scalar_values_eq(l: &ScalarValue, r: &ScalarValue) -> (b: bool)
    ensures
        b == (l@ == r@),
{
    match (l, r) {
        (ScalarValue::Null, ScalarValue::Null) => true,
        (ScalarValue::Boolean(x), ScalarValue::Boolean(y)) => match (x, y) {
            (Some(a), Some(b)) => *a == *b,
            (None, None) => true,
            _ => false,
        },
        (ScalarValue::Int32(x), ScalarValue::Int32(y)) => match (x, y) {
            (Some(a), Some(b)) => *a == *b,
            (None, None) => true,
            _ => false,
        },
        (ScalarValue::Utf8(x), ScalarValue::Utf8(y)) => match (x, y) {
            (Some(a), Some(b)) => a.eq(b),
            (None, None) => true,
            _ => false,
        },
        _ => false,
    }
}

/// The printable name of a physical type, for diagnostics.
pub(crate) fn physical_type_name(t: PhysicalType) -> String {
    match t {
        PhysicalType::Boolean => "Boolean".to_owned(),
        PhysicalType::Int32 => "Int32".to_owned(),
        PhysicalType::Float64 => "Float64".to_owned(),
        PhysicalType::Utf8 => "Utf8".to_owned(),
        PhysicalType::Null => "Null".to_owned(),
    }
}

/// A diagnostic description of a column: its type and its length.
fn describe_array(a: &ArrayValue) -> String {
    let mut s = physical_type_name(a.physical_type());
    s.append("[");
    let len = usize_to_decimal(a.len());
    s.append(len.as_str());
    s.append("]");
    s
}

/// Compares an array against a broadcast scalar, the array always standing
/// as the kernel's first operand.
fn compare_array_scalar(op: ComparisonOperator, a: &ArrayValue, s: &ScalarValue) -> (r: Result<
    ColumnarValue,
    Error,
>)
    ensures
        result_model(r) == spec_compare_array_scalar(op, a@, s@),
{
    match (a, s) {
        (ArrayValue::Int32(x), ScalarValue::Int32(v)) => match v {
            Some(val) => {
                let bits = match op {
                    ComparisonOperator::Eq => arrow_eq_scalar_i32(x, *val),
                    ComparisonOperator::Neq => arrow_neq_scalar_i32(x, *val),
                };
                Ok(ColumnarValue::Array(ArrayValue::Boolean(bits)))
            },
            None => {
                let bits = all_null_bools(x.len());
                proof {
                    assert(bits@ =~= cmp_seq_scalar(op, x@, None::<i32>));
                }
                Ok(ColumnarValue::Array(ArrayValue::Boolean(bits)))
            },
        },
        (ArrayValue::Utf8(x), ScalarValue::Utf8(v)) => match v {
            Some(val) => {
                let bits = match op {
                    ComparisonOperator::Eq => arrow_eq_scalar_utf8(x, val),
                    ComparisonOperator::Neq => arrow_neq_scalar_utf8(x, val),
                };
                Ok(ColumnarValue::Array(ArrayValue::Boolean(bits)))
            },
            None => {
                let bits = all_null_bools(x.len());
                proof {
                    assert(bits@ =~= cmp_seq_scalar(op, x.deep_view(), None::<Seq<char>>));
                }
                Ok(ColumnarValue::Array(ArrayValue::Boolean(bits)))
            },
        },
        (ArrayValue::Boolean(x), ScalarValue::Boolean(v)) => match v {
            Some(val) => {
                let bits = match op {
                    ComparisonOperator::Eq => arrow_eq_scalar_bool(x, *val),
                    ComparisonOperator::Neq => arrow_neq_scalar_bool(x, *val),
                };
                Ok(ColumnarValue::Array(ArrayValue::Boolean(bits)))
            },
            None => {
                let bits = all_null_bools(x.len());
                proof {
                    assert(bits@ =~= cmp_seq_scalar(op, x@, None::<bool>));
                }
                Ok(ColumnarValue::Array(ArrayValue::Boolean(bits)))
            },
        },
        _ => Err(Error::PrimitiveTypeNotSupported(physical_type_name(a.physical_type()))),
    }
}

/// Combines the two evaluated operands of a comparison node.
fn compare_columnar(op: ComparisonOperator, l: ColumnarValue, r: ColumnarValue) -> (res: Result<
    ColumnarValue,
    Error,
>)
    ensures
        result_model(res) == spec_compare(op, l@, r@),
{
    match (l, r) {
        (ColumnarValue::Array(a), ColumnarValue::Array(b)) => {
            if a.len() != b.len() {
                let left = describe_array(&a);
                let right = describe_array(&b);
                Err(Error::DifferentSizes(left, right))
            } else {
                match (&a, &b) {
                    (ArrayValue::Int32(x), ArrayValue::Int32(y)) => {
                        let bits = match op {
                            ComparisonOperator::Eq => arrow_eq_i32(x, y),
                            ComparisonOperator::Neq => arrow_neq_i32(x, y),
                        };
                        Ok(ColumnarValue::Array(ArrayValue::Boolean(bits)))
                    },
                    (ArrayValue::Utf8(x), ArrayValue::Utf8(y)) => {
                        let bits = match op {
                            ComparisonOperator::Eq => arrow_eq_utf8(x, y),
                            ComparisonOperator::Neq => arrow_neq_utf8(x, y),
                        };
                        Ok(ColumnarValue::Array(ArrayValue::Boolean(bits)))
                    },
                    (ArrayValue::Boolean(x), ArrayValue::Boolean(y)) => {
                        let bits = match op {
                            ComparisonOperator::Eq => arrow_eq_bool(x, y),
                            ComparisonOperator::Neq => arrow_neq_bool(x, y),
                        };
                        Ok(ColumnarValue::Array(ArrayValue::Boolean(bits)))
                    },
                    _ => Err(Error::PrimitiveTypeNotSupported(physical_type_name(a.physical_type()))),
                }
            }
        },
        (ColumnarValue::Array(a), ColumnarValue::Scalar(s)) => compare_array_scalar(op, &a, &s),
        (ColumnarValue::Scalar(s), ColumnarValue::Array(a)) => compare_array_scalar(op, &a, &s),
        (ColumnarValue::Scalar(s1), ColumnarValue::Scalar(s2)) => {
            let outcome = match op {
                ComparisonOperator::Eq => scalar_values_eq(&s1, &s2),
                ComparisonOperator::Neq => !scalar_values_eq(&s1, &s2),
            };
            Ok(ColumnarValue::Scalar(ScalarValue::Boolean(Some(outcome))))
        },
    }
}

/// Combines the two evaluated operands of an arithmetic node.
fn arith_columnar(op: ArithmeticOperator, l: ColumnarValue, r: ColumnarValue) -> (res: Result<
    ColumnarValue,
    Error,
>)
    ensures
        result_model(res) == spec_arith(op, l@, r@),
{
    match (l, r) {
        (ColumnarValue::Array(a), ColumnarValue::Array(b)) => {
            if a.len() != b.len() {
                let left = describe_array(&a);
                let right = describe_array(&b);
                Err(Error::DifferentSizes(left, right))
            } else {
                match (&a, &b) {
                    (ArrayValue::Int32(x), ArrayValue::Int32(y)) => {
                        let rows = match op {
                            ArithmeticOperator::Add => arrow_checked_add_i32(x, y),
                            ArithmeticOperator::Sub => arrow_checked_sub_i32(x, y),
                            ArithmeticOperator::Mul => arrow_checked_mul_i32(x, y),
                            ArithmeticOperator::Div => arrow_checked_div_i32(x, y),
                        };
                        Ok(ColumnarValue::Array(ArrayValue::Int32(rows)))
                    },
                    _ => Err(Error::PrimitiveTypeNotSupported(physical_type_name(a.physical_type()))),
                }
            }
        },
        (ColumnarValue::Array(a), ColumnarValue::Scalar(s)) => match (&a, &s) {
            (ArrayValue::Int32(x), ScalarValue::Int32(v)) => match v {
                Some(val) => {
                    let rows = match op {
                        ArithmeticOperator::Add => arrow_checked_add_scalar_i32(x, *val),
                        ArithmeticOperator::Sub => arrow_checked_sub_scalar_i32(x, *val),
                        ArithmeticOperator::Mul => arrow_checked_mul_scalar_i32(x, *val),
                        ArithmeticOperator::Div => arrow_checked_div_scalar_i32(x, *val),
                    };
                    Ok(ColumnarValue::Array(ArrayValue::Int32(rows)))
                },
                None => {
                    let rows = broadcast_i32(None, x.len());
                    proof {
                        assert(rows@ =~= arith_seq_scalar(op, x@, None::<i32>));
                    }
                    Ok(ColumnarValue::Array(ArrayValue::Int32(rows)))
                },
            },
            _ => Err(Error::PrimitiveTypeNotSupported(physical_type_name(a.physical_type()))),
        },
        (ColumnarValue::Scalar(s), ColumnarValue::Array(a)) => match (&s, &a) {
            (ScalarValue::Int32(v), ArrayValue::Int32(x)) => {
                let left = broadcast_i32(*v, x.len());
                let rows = match op {
                    ArithmeticOperator::Add => arrow_checked_add_i32(&left, x),
                    ArithmeticOperator::Sub => arrow_checked_sub_i32(&left, x),
                    ArithmeticOperator::Mul => arrow_checked_mul_i32(&left, x),
                    ArithmeticOperator::Div => arrow_checked_div_i32(&left, x),
                };
                proof {
                    assert(rows@ =~= arith_scalar_seq(op, v@, x@)) by {
                        assert(forall|i: int|
                            0 <= i < x@.len() ==> arith_seq(op, left@, x@)[i] == arith_elem(
                                op,
                                v@,
                                x@[i],
                            ));
                    };
                }
                Ok(ColumnarValue::Array(ArrayValue::Int32(rows)))
            },
            _ => Err(Error::PrimitiveTypeNotSupported(physical_type_name(s.physical_type()))),
        },
        (ColumnarValue::Scalar(s1), ColumnarValue::Scalar(s2)) => match (&s1, &s2) {
            (ScalarValue::Int32(x), ScalarValue::Int32(y)) => Ok(
                ColumnarValue::Scalar(ScalarValue::Int32(arith_elem_exec(op, *x, *y))),
            ),
            _ => Err(Error::PrimitiveTypeNotSupported(physical_type_name(s1.physical_type()))),
        },
    }
}

impl PhysicalExpression {
    /// Evaluates the expression against `input`, yielding a full column or a
    /// single scalar; the outcome is exactly [`spec_evaluate`] of the
    /// expression's model.
    pub fn evaluate(&self, input: &RecordBatch) -> (r: Result<ColumnarValue, Error>)
        ensures
            result_model(r) == spec_evaluate(self@, input@),
        decreases *self,
    {
        match self {
            PhysicalExpression::Column(c) => match input.column(c.index) {
                Ok(col) => Ok(ColumnarValue::Array(clone_array(col))),
                Err(e) => Err(e),
            },
            PhysicalExpression::LiteralBool(l) => Ok(
                ColumnarValue::Scalar(ScalarValue::Boolean(l.value)),
            ),
            PhysicalExpression::LiteralInteger(l) => Ok(
                ColumnarValue::Scalar(ScalarValue::Int32(l.value)),
            ),
            PhysicalExpression::LiteralString(l) => {
                let v = match &l.value {
                    Some(s) => Some(s.clone()),
                    None => None,
                };
                Ok(ColumnarValue::Scalar(ScalarValue::Utf8(v)))
            },
            PhysicalExpression::Comparison(op, l, r) => {
                let lv = l.evaluate(input)?;
                let rv = r.evaluate(input)?;
                compare_columnar(*op, lv, rv)
            },
            PhysicalExpression::Arithmetic(op, l, r) => {
                let lv = l.evaluate(input)?;
                let rv = r.evaluate(input)?;
                arith_columnar(*op, lv, rv)
            },
        }
    }
}

} // verus!
