//! Tests of the predicate compiler: the combinator laws on concrete
//! values, the comparison translation, and the rejection of every
//! unsupported predicate shape.

use cc_postgres::ast::{Ident, SqlBinaryOp, SqlExpr, SqlUnaryOp, SqlValue};
use cc_postgres::error::ServerError;
use cc_postgres::models::{
    BinaryComparisonOperator, ComparisonTarget, ComparisonValue, Expression, ScalarValue,
};
use cc_postgres::sql::predicate_builder::get_predicate_expression;

fn quoted(s: &str) -> Ident {
    Ident { value: s.to_owned(), quote: Some('"') }
}

fn column_ref(alias: &str, name: &str) -> SqlExpr {
    SqlExpr::CompoundIdentifier(vec![quoted(alias), quoted(name)])
}

fn eq_name_comparison(column: &str, value: &str) -> Expression {
    Expression::BinaryComparisonOperator {
        column: ComparisonTarget::RootCollectionColumn { name: column.to_owned() },
        operator: BinaryComparisonOperator::Equal,
        value: ComparisonValue::Scalar {
            value: ScalarValue::Text { value: value.to_owned() },
        },
    }
}

fn compiled_eq(alias: &str, column: &str, value: &str) -> SqlExpr {
    SqlExpr::BinaryOp {
        left: Box::new(column_ref(alias, column)),
        op: SqlBinaryOp::Eq,
        right: Box::new(SqlExpr::Value(SqlValue::SingleQuotedString(value.to_owned()))),
    }
}

#[test]
fn empty_and_compiles_to_true() {
    let e = Expression::And { expressions: vec![] };
    assert_eq!(
        get_predicate_expression(&e, "_origin"),
        Ok(SqlExpr::Value(SqlValue::Boolean(true)))
    );
}

#[test]
fn empty_or_compiles_to_false() {
    let e = Expression::Or { expressions: vec![] };
    assert_eq!(
        get_predicate_expression(&e, "_origin"),
        Ok(SqlExpr::Value(SqlValue::Boolean(false)))
    );
}

#[test]
fn singleton_and_compiles_as_the_expression_alone() {
    let inner = eq_name_comparison("table_name", "foo");
    let wrapped = Expression::And { expressions: vec![eq_name_comparison("table_name", "foo")] };
    assert_eq!(
        get_predicate_expression(&wrapped, "_origin"),
        get_predicate_expression(&inner, "_origin")
    );
}

#[test]
fn singleton_or_compiles_as_the_expression_alone() {
    let inner = eq_name_comparison("table_name", "foo");
    let wrapped = Expression::Or { expressions: vec![eq_name_comparison("table_name", "foo")] };
    assert_eq!(
        get_predicate_expression(&wrapped, "_origin"),
        get_predicate_expression(&inner, "_origin")
    );
}

#[test]
fn two_member_and_is_parenthesized() {
    let e = Expression::And {
        expressions: vec![
            eq_name_comparison("table_name", "a"),
            eq_name_comparison("table_schema", "b"),
        ],
    };
    let expected = SqlExpr::Nested(Box::new(SqlExpr::BinaryOp {
        left: Box::new(compiled_eq("_origin", "table_name", "a")),
        op: SqlBinaryOp::And,
        right: Box::new(compiled_eq("_origin", "table_schema", "b")),
    }));
    assert_eq!(get_predicate_expression(&e, "_origin"), Ok(expected));
}

#[test]
fn three_member_or_folds_left() {
    let e = Expression::Or {
        expressions: vec![
            eq_name_comparison("c", "1"),
            eq_name_comparison("c", "2"),
            eq_name_comparison("c", "3"),
        ],
    };
    let expected = SqlExpr::Nested(Box::new(SqlExpr::BinaryOp {
        left: Box::new(SqlExpr::BinaryOp {
            left: Box::new(compiled_eq("_origin", "c", "1")),
            op: SqlBinaryOp::Or,
            right: Box::new(compiled_eq("_origin", "c", "2")),
        }),
        op: SqlBinaryOp::Or,
        right: Box::new(compiled_eq("_origin", "c", "3")),
    }));
    assert_eq!(get_predicate_expression(&e, "_origin"), Ok(expected));
}

#[test]
fn not_compiles_to_unary_negation() {
    let e = Expression::Not { expression: Box::new(eq_name_comparison("c", "x")) };
    let expected = SqlExpr::UnaryOp {
        op: SqlUnaryOp::Not,
        expr: Box::new(compiled_eq("_origin", "c", "x")),
    };
    assert_eq!(get_predicate_expression(&e, "_origin"), Ok(expected));
}

#[test]
fn equality_against_number_keeps_the_numeric_text() {
    let e = Expression::BinaryComparisonOperator {
        column: ComparisonTarget::Column { name: "n".to_owned(), path: vec![] },
        operator: BinaryComparisonOperator::Equal,
        value: ComparisonValue::Scalar {
            value: ScalarValue::Number { repr: "1.5".to_owned() },
        },
    };
    let expected = SqlExpr::BinaryOp {
        left: Box::new(column_ref("q", "n")),
        op: SqlBinaryOp::Eq,
        right: Box::new(SqlExpr::Value(SqlValue::Number("1.5".to_owned()))),
    };
    assert_eq!(get_predicate_expression(&e, "q"), Ok(expected));
}

#[test]
fn like_and_nlike_operators() {
    let with_op = |name: &str| Expression::BinaryComparisonOperator {
        column: ComparisonTarget::RootCollectionColumn { name: "c".to_owned() },
        operator: BinaryComparisonOperator::Other { name: name.to_owned() },
        value: ComparisonValue::Scalar {
            value: ScalarValue::Text { value: "p%".to_owned() },
        },
    };
    let expected = |negated: bool| SqlExpr::Like {
        negated,
        expr: Box::new(column_ref("_origin", "c")),
        pattern: Box::new(SqlExpr::Value(SqlValue::SingleQuotedString("p%".to_owned()))),
    };
    assert_eq!(get_predicate_expression(&with_op("like"), "_origin"), Ok(expected(false)));
    assert_eq!(get_predicate_expression(&with_op("nlike"), "_origin"), Ok(expected(true)));
}

#[test]
fn unknown_operator_is_rejected() {
    let e = Expression::BinaryComparisonOperator {
        column: ComparisonTarget::RootCollectionColumn { name: "c".to_owned() },
        operator: BinaryComparisonOperator::Other { name: "gt".to_owned() },
        value: ComparisonValue::Scalar {
            value: ScalarValue::Text { value: "x".to_owned() },
        },
    };
    assert_eq!(
        get_predicate_expression(&e, "_origin"),
        Err(ServerError::BadRequest("unsupported comparison operator".to_owned()))
    );
}

#[test]
fn non_empty_comparison_path_is_rejected() {
    let e = Expression::BinaryComparisonOperator {
        column: ComparisonTarget::Column {
            name: "c".to_owned(),
            path: vec!["other".to_owned()],
        },
        operator: BinaryComparisonOperator::Equal,
        value: ComparisonValue::Scalar {
            value: ScalarValue::Text { value: "x".to_owned() },
        },
    };
    assert_eq!(
        get_predicate_expression(&e, "_origin"),
        Err(ServerError::BadRequest(
            "comparison against other tables not supported".to_owned()
        ))
    );
}

#[test]
fn unsupported_comparison_values_are_rejected() {
    let with_value = |value: ComparisonValue| Expression::BinaryComparisonOperator {
        column: ComparisonTarget::RootCollectionColumn { name: "c".to_owned() },
        operator: BinaryComparisonOperator::Equal,
        value,
    };
    assert_eq!(
        get_predicate_expression(&with_value(ComparisonValue::Column), "_origin"),
        Err(ServerError::BadRequest("Column comparison not supported".to_owned()))
    );
    assert_eq!(
        get_predicate_expression(&with_value(ComparisonValue::Variable), "_origin"),
        Err(ServerError::BadRequest("variable comparison not supported".to_owned()))
    );
    assert_eq!(
        get_predicate_expression(
            &with_value(ComparisonValue::Scalar { value: ScalarValue::Other }),
            "_origin"
        ),
        Err(ServerError::BadRequest("unsupported comparison value".to_owned()))
    );
}

#[test]
fn unsupported_predicate_shapes_are_rejected() {
    assert_eq!(
        get_predicate_expression(&Expression::UnaryComparisonOperator, "_origin"),
        Err(ServerError::BadRequest(
            "unary comparison operators are not supported".to_owned()
        ))
    );
    assert_eq!(
        get_predicate_expression(&Expression::BinaryArrayComparisonOperator, "_origin"),
        Err(ServerError::BadRequest(
            "array comparison operators are not supported".to_owned()
        ))
    );
    assert_eq!(
        get_predicate_expression(&Expression::Exists, "_origin"),
        Err(ServerError::BadRequest("exists expressions are not supported".to_owned()))
    );
}

#[test]
fn first_failing_member_decides_the_error() {
    let e = Expression::And {
        expressions: vec![
            eq_name_comparison("c", "ok"),
            Expression::Exists,
            Expression::UnaryComparisonOperator,
        ],
    };
    assert_eq!(
        get_predicate_expression(&e, "_origin"),
        Err(ServerError::BadRequest("exists expressions are not supported".to_owned()))
    );
}
