use physical_expr::expression::{
    ColumnExpression, LiteralBoolExpression, LiteralIntegerExpression, LiteralStringExpression,
    PhysicalExpression,
};
use physical_expr::semantics::{ArithmeticOperator, ComparisonOperator};

fn column(index: usize) -> PhysicalExpression {
    PhysicalExpression::Column(ColumnExpression::new(index))
}

fn lit_int(v: i32) -> PhysicalExpression {
    PhysicalExpression::LiteralInteger(LiteralIntegerExpression::new(v))
}

#[test]
fn add_of_column_and_literal_renders() {
    let e = PhysicalExpression::Arithmetic(
        ArithmeticOperator::Add,
        Box::new(column(0)),
        Box::new(lit_int(5)),
    );
    assert_eq!(e.display_string(), "#0 + 5");
}

#[test]
fn rendering_is_deterministic() {
    let e = PhysicalExpression::Arithmetic(
        ArithmeticOperator::Add,
        Box::new(column(0)),
        Box::new(lit_int(5)),
    );
    assert_eq!(e.display_string(), e.display_string());
}

#[test]
fn neq_renders_its_own_symbol() {
    let e = PhysicalExpression::Comparison(
        ComparisonOperator::Neq,
        Box::new(column(1)),
        Box::new(lit_int(2)),
    );
    assert_eq!(e.display_string(), "#1 != 2");
    let e = PhysicalExpression::Comparison(
        ComparisonOperator::Eq,
        Box::new(column(1)),
        Box::new(lit_int(2)),
    );
    assert_eq!(e.display_string(), "#1 == 2");
}

#[test]
fn arithmetic_symbols_render() {
    for (op, sym) in [
        (ArithmeticOperator::Add, "+"),
        (ArithmeticOperator::Sub, "-"),
        (ArithmeticOperator::Mul, "*"),
        (ArithmeticOperator::Div, "/"),
    ] {
        let e = PhysicalExpression::Arithmetic(op, Box::new(column(0)), Box::new(column(1)));
        assert_eq!(e.display_string(), format!("#0 {} #1", sym));
    }
}

#[test]
fn negative_and_large_numbers_render() {
    assert_eq!(lit_int(-12).display_string(), "-12");
    assert_eq!(lit_int(i32::MIN).display_string(), "-2147483648");
    assert_eq!(lit_int(i32::MAX).display_string(), "2147483647");
    assert_eq!(column(123).display_string(), "#123");
    assert_eq!(lit_int(0).display_string(), "0");
}

#[test]
fn literals_render_their_values() {
    assert_eq!(
        PhysicalExpression::LiteralBool(LiteralBoolExpression::new(true)).display_string(),
        "true"
    );
    assert_eq!(
        PhysicalExpression::LiteralBool(LiteralBoolExpression::new(false)).display_string(),
        "false"
    );
    assert_eq!(
        PhysicalExpression::LiteralBool(LiteralBoolExpression::new_null()).display_string(),
        "null"
    );
    assert_eq!(
        PhysicalExpression::LiteralInteger(LiteralIntegerExpression::new_null()).display_string(),
        "null"
    );
    assert_eq!(
        PhysicalExpression::LiteralString(LiteralStringExpression::new("abc".to_string()))
            .display_string(),
        "abc"
    );
    assert_eq!(
        PhysicalExpression::LiteralString(LiteralStringExpression::new_null()).display_string(),
        "null"
    );
}

#[test]
fn nested_trees_render_left_to_right() {
    let inner = PhysicalExpression::Arithmetic(
        ArithmeticOperator::Sub,
        Box::new(column(0)),
        Box::new(lit_int(1)),
    );
    let e = PhysicalExpression::Comparison(
        ComparisonOperator::Eq,
        Box::new(inner),
        Box::new(lit_int(3)),
    );
    assert_eq!(e.display_string(), "#0 - 1 == 3");
}
