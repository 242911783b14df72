//! The predicate compiler: translates the caller-supplied boolean filter
//! tree into a SQL boolean expression anchored to a table alias.
//!
//! `And` and `Or` lists are left-folded with the matching SQL operator;
//! an empty `And` becomes the literal `TRUE` and an empty `Or` the
//! literal `FALSE`; a folded combination of two or more operands is
//! parenthesized.  Unsupported predicate shapes fail compilation rather
//! than being silently dropped.

use vstd::prelude::*;

use crate::ast::{SqlBinaryOp, SqlExpr, SqlExprV, SqlUnaryOp, SqlValue, SqlValueV};
use crate::error::{res_view, ServerError, ServerErrorV};
use crate::models::{
    lemma_view_expression_seq, view_expression, view_expression_seq, BinaryComparisonOperator,
    BinaryComparisonOperatorV, ComparisonTarget, ComparisonTargetV, ComparisonValue,
    ComparisonValueV, Expression, ExpressionV, ScalarValueV,
};
use crate::sql::utils::{
    get_sql_and_expression, get_sql_eq_expression, get_sql_like_expr, get_sql_or_expr,
    get_sql_quoted_identifier, spec_binary_op, spec_like_expr, spec_quoted_ident,
};
use crate::strutil::str_eq;

verus! {

/// The SQL column reference a comparison target compiles to: the target's
/// column name qualified by the anchor alias.  A target with a non-empty
/// path points into another collection, which is unsupported.
pub open spec fn spec_comparison_column(column: ComparisonTargetV, alias: Seq<char>) -> Result<
    SqlExprV,
    ServerErrorV,
> {
    match column {
        ComparisonTargetV::RootCollectionColumn { name } => Ok(
            SqlExprV::CompoundIdentifier(seq![spec_quoted_ident(alias), spec_quoted_ident(name)]),
        ),
        ComparisonTargetV::Column { name, path } => {
            if path.len() == 0 {
                Ok(
                    SqlExprV::CompoundIdentifier(
                        seq![spec_quoted_ident(alias), spec_quoted_ident(name)],
                    ),
                )
            } else {
                Err(ServerErrorV::BadRequest("comparison against other tables not supported"@))
            }
        },
    }
}

/// The SQL literal a comparison value compiles to: a numeric literal for a
/// JSON number, a single-quoted string literal for a JSON string; every
/// other value is unsupported.
pub open spec fn spec_comparison_value(value: ComparisonValueV) -> Result<SqlExprV, ServerErrorV> {
    match value {
        ComparisonValueV::Scalar { value: sv } => match sv {
            ScalarValueV::Number { repr } => Ok(SqlExprV::Value(SqlValueV::Number(repr))),
            ScalarValueV::Text { value: t } => Ok(
                SqlExprV::Value(SqlValueV::SingleQuotedString(t)),
            ),
            ScalarValueV::Other => Err(ServerErrorV::BadRequest("unsupported comparison value"@)),
        },
        ComparisonValueV::Column => Err(ServerErrorV::BadRequest("Column comparison not supported"@)),
        ComparisonValueV::Variable => Err(
            ServerErrorV::BadRequest("variable comparison not supported"@),
        ),
    }
}

/// The SQL expression a binary comparison compiles to: column, then
/// value, then operator are resolved, in that order, and the first
/// unsupported part decides the error.
pub open spec fn spec_binary_comparison(
    column: ComparisonTargetV,
    operator: BinaryComparisonOperatorV,
    value: ComparisonValueV,
    alias: Seq<char>,
) -> Result<SqlExprV, ServerErrorV> {
    match spec_comparison_column(column, alias) {
        Err(e) => Err(e),
        Ok(left) => match spec_comparison_value(value) {
            Err(e) => Err(e),
            Ok(right) => match operator {
                BinaryComparisonOperatorV::Equal => Ok(
                    spec_binary_op(left, SqlBinaryOp::Eq, right),
                ),
                BinaryComparisonOperatorV::Other { name } => {
                    if name == "like"@ {
                        Ok(spec_like_expr(left, right, false))
                    } else if name == "nlike"@ {
                        Ok(spec_like_expr(left, right, true))
                    } else {
                        Err(ServerErrorV::BadRequest("unsupported comparison operator"@))
                    }
                },
            },
        },
    }
}

/// The left fold of one SQL operator over a non-empty operand list.
pub open spec fn spec_fold_left(op: SqlBinaryOp, xs: Seq<SqlExprV>) -> SqlExprV
    recommends
        xs.len() >= 1,
    decreases xs.len(),
{
    if xs.len() <= 1 {
        xs.first()
    } else {
        SqlExprV::BinaryOp {
            left: Box::new(spec_fold_left(op, xs.drop_last())),
            op,
            right: Box::new(xs.last()),
        }
    }
}

/// The combination of a compiled operand list under one combinator: the
/// boolean literal `empty_value` for an empty list, and otherwise the
/// left fold, parenthesized when the fold itself produced a top-level
/// application of the combinator.
pub open spec fn spec_combine(op: SqlBinaryOp, empty_value: bool, xs: Seq<SqlExprV>) -> SqlExprV {
    if xs.len() == 0 {
        SqlExprV::Value(SqlValueV::Boolean(empty_value))
    } else {
        let folded = spec_fold_left(op, xs);
        match folded {
            SqlExprV::BinaryOp { op: o, .. } => {
                if o == op {
                    SqlExprV::Nested(Box::new(folded))
                } else {
                    folded
                }
            },
            _ => folded,
        }
    }
}

/// The compilation of every expression of a list, left to right; the
/// first expression that fails decides the error.
pub open spec fn spec_predicate_list(es: Seq<ExpressionV>, alias: Seq<char>) -> Result<
    Seq<SqlExprV>,
    ServerErrorV,
> decreases es,
{
    if es.len() == 0 {
        Ok(Seq::empty())
    } else {
        match spec_predicate_list(es.drop_last(), alias) {
            Err(e) => Err(e),
            Ok(xs) => match spec_predicate_expression(es.last(), alias) {
                Err(e) => Err(e),
                Ok(x) => Ok(xs.push(x)),
            },
        }
    }
}

/// What the predicate compiler returns for each filter tree, anchored to
/// `alias`: the structure-preserving translation for the supported
/// shapes, and an error for every unsupported one.
pub open spec fn spec_predicate_expression(e: ExpressionV, alias: Seq<char>) -> Result<
    SqlExprV,
    ServerErrorV,
> decreases e,
{
    match e {
        ExpressionV::And { expressions } => match spec_predicate_list(expressions, alias) {
            Err(er) => Err(er),
            Ok(xs) => Ok(spec_combine(SqlBinaryOp::And, true, xs)),
        },
        ExpressionV::Or { expressions } => match spec_predicate_list(expressions, alias) {
            Err(er) => Err(er),
            Ok(xs) => Ok(spec_combine(SqlBinaryOp::Or, false, xs)),
        },
        ExpressionV::Not { expression } => match spec_predicate_expression(*expression, alias) {
            Err(er) => Err(er),
            Ok(x) => Ok(SqlExprV::UnaryOp { op: SqlUnaryOp::Not, expr: Box::new(x) }),
        },
        ExpressionV::UnaryComparisonOperator => Err(
            ServerErrorV::BadRequest("unary comparison operators are not supported"@),
        ),
        ExpressionV::BinaryComparisonOperator { column, operator, value } => spec_binary_comparison(
            column,
            operator,
            value,
            alias,
        ),
        ExpressionV::BinaryArrayComparisonOperator => Err(
            ServerErrorV::BadRequest("array comparison operators are not supported"@),
        ),
        ExpressionV::Exists => Err(
            ServerErrorV::BadRequest("exists expressions are not supported"@),
        ),
    }
}

/// One step of `spec_predicate_list`: extending the compiled prefix by
/// one expression.
proof fn lemma_predicate_list_take_step(es: Seq<ExpressionV>, alias: Seq<char>, i: int)
    requires
        0 <= i < es.len(),
    ensures
        spec_predicate_list(es.take(i + 1), alias) == (match spec_predicate_list(
            es.take(i),
            alias,
        ) {
            Err(e) => Err::<Seq<SqlExprV>, ServerErrorV>(e),
            Ok(xs) => match spec_predicate_expression(es[i], alias) {
                Err(e) => Err(e),
                Ok(x) => Ok(xs.push(x)),
            },
        }),
{
    assert(es.take(i + 1).drop_last() =~= es.take(i));
    assert(es.take(i + 1).last() == es[i]);
}

/// A failed prefix decides the whole list.
proof fn lemma_predicate_list_err_extends(es: Seq<ExpressionV>, alias: Seq<char>, i: int)
    requires
        0 <= i <= es.len(),
        spec_predicate_list(es.take(i), alias) is Err,
    ensures
        spec_predicate_list(es, alias) == spec_predicate_list(es.take(i), alias),
    decreases es.len() - i,
{
    if i == es.len() {
        assert(es.take(i) =~= es);
    } else {
        lemma_predicate_list_take_step(es, alias, i);
        lemma_predicate_list_err_extends(es, alias, i + 1);
    }
}

/// One step of the left fold.
proof fn lemma_fold_left_push(op: SqlBinaryOp, xs: Seq<SqlExprV>, x: SqlExprV)
    requires
        xs.len() >= 1,
    ensures
        spec_fold_left(op, xs.push(x)) == (SqlExprV::BinaryOp {
            left: Box::new(spec_fold_left(op, xs)),
            op,
            right: Box::new(x),
        }),
{
    assert(xs.push(x).drop_last() =~= xs);
    assert(xs.push(x).last() == x);
}

/// Compiles the operand list of one `And` or `Or` combinator and folds
/// it: `is_and` selects the operator and the boolean the empty list
/// compiles to.
fn get_combined_expression(expressions: &Vec<Expression>, alias: &str, is_and: bool) -> (r: Result<
    SqlExpr,
    ServerError,
>)
    ensures
        res_view(r) == (match spec_predicate_list(view_expression_seq(expressions@), alias@) {
            Err(e) => Err::<SqlExprV, ServerErrorV>(e),
            Ok(xs) => Ok(
                spec_combine(
                    if is_and {
                        SqlBinaryOp::And
                    } else {
                        SqlBinaryOp::Or
                    },
                    is_and,
                    xs,
                ),
            ),
        }),
    decreases expressions,
{
    let ghost es = view_expression_seq(expressions@);
    let ghost op = if is_and {
        SqlBinaryOp::And
    } else {
        SqlBinaryOp::Or
    };
    proof {
        lemma_view_expression_seq(expressions@);
    }
    let mut acc: Option<SqlExpr> = None;
    let mut i: usize = 0;
    while i < expressions.len()
        invariant
            es == view_expression_seq(expressions@),
            es.len() == expressions@.len(),
            forall|j: int| 0 <= j < es.len() ==> es[j] == view_expression(expressions@[j]),
            op == (if is_and {
                SqlBinaryOp::And
            } else {
                SqlBinaryOp::Or
            }),
            0 <= i <= es.len(),
            spec_predicate_list(es.take(i as int), alias@) is Ok,
            i == 0 ==> acc is None,
            i > 0 ==> (acc matches Some(a) && a.deep_view() == spec_fold_left(
                op,
                spec_predicate_list(es.take(i as int), alias@)->Ok_0,
            )),
        decreases expressions.len() - i,
    {
        proof {
            lemma_predicate_list_take_step(es, alias@, i as int);
        }
        let c = match get_predicate_expression(&expressions[i], alias) {
            Ok(c) => c,
            Err(e) => {
                proof {
                    lemma_predicate_list_err_extends(es, alias@, i + 1);
                }
                return Err(e);
            },
        };
        let ghost xs_prev = spec_predicate_list(es.take(i as int), alias@)->Ok_0;
        acc = match acc {
            None => Some(c),
            Some(a) => {
                proof {
                    lemma_fold_left_push(op, xs_prev, c.deep_view());
                }
                if is_and {
                    Some(get_sql_and_expression(a, c))
                } else {
                    Some(get_sql_or_expr(a, c))
                }
            },
        };
        i += 1;
    }
    proof {
        assert(es.take(i as int) =~= es);
    }
    let ghost xs = spec_predicate_list(es, alias@)->Ok_0;
    match acc {
        None => Ok(SqlExpr::Value(SqlValue::Boolean(is_and))),
        Some(a) => {
            let wrap = match &a {
                SqlExpr::BinaryOp { op: o, .. } => {
                    if is_and {
                        *o == SqlBinaryOp::And
                    } else {
                        *o == SqlBinaryOp::Or
                    }
                },
                _ => false,
            };
            if wrap {
                Ok(SqlExpr::Nested(Box::new(a)))
            } else {
                Ok(a)
            }
        },
    }
}

/// The SQL column reference for the column side of a comparison.
fn get_comparison_column(column: &ComparisonTarget, alias: &str) -> (r: Result<SqlExpr, ServerError>)
    ensures
        res_view(r) == spec_comparison_column(column.deep_view(), alias@),
{
    match column {
        ComparisonTarget::RootCollectionColumn { name } => {
            let mut ids = Vec::new();
            ids.push(get_sql_quoted_identifier(alias));
            ids.push(get_sql_quoted_identifier(name.as_str()));
            let r = SqlExpr::CompoundIdentifier(ids);
            proof {
                assert(ids.deep_view() =~= seq![
                    spec_quoted_ident(alias@),
                    spec_quoted_ident(name@),
                ]);
            }
            Ok(r)
        },
        ComparisonTarget::Column { name, path } => {
            if path.len() != 0 {
                return Err(
                    ServerError::BadRequest(
                        "comparison against other tables not supported".to_owned(),
                    ),
                );
            }
            let mut ids = Vec::new();
            ids.push(get_sql_quoted_identifier(alias));
            ids.push(get_sql_quoted_identifier(name.as_str()));
            let r = SqlExpr::CompoundIdentifier(ids);
            proof {
                assert(ids.deep_view() =~= seq![
                    spec_quoted_ident(alias@),
                    spec_quoted_ident(name@),
                ]);
            }
            Ok(r)
        },
    }
}

/// The SQL literal for the value side of a comparison.
fn get_comparison_value(value: &ComparisonValue) -> (r: Result<SqlExpr, ServerError>)
    ensures
        res_view(r) == spec_comparison_value(value.deep_view()),
{
    match value {
        ComparisonValue::Scalar { value: sv } => match sv {
            crate::models::ScalarValue::Number { repr } => Ok(
                SqlExpr::Value(SqlValue::Number(repr.clone())),
            ),
            crate::models::ScalarValue::Text { value: t } => Ok(
                SqlExpr::Value(SqlValue::SingleQuotedString(t.clone())),
            ),
            crate::models::ScalarValue::Other => Err(
                ServerError::BadRequest("unsupported comparison value".to_owned()),
            ),
        },
        ComparisonValue::Column => Err(
            ServerError::BadRequest("Column comparison not supported".to_owned()),
        ),
        ComparisonValue::Variable => Err(
            ServerError::BadRequest("variable comparison not supported".to_owned()),
        ),
    }
}

/// Builds the SQL predicate expression for a filter tree, anchored to the
/// given table alias.
pub fn get_predicate_expression(expr: &Expression, alias: &str) -> (r: Result<SqlExpr, ServerError>)
    ensures
        res_view(r) == spec_predicate_expression(expr.deep_view(), alias@),
    decreases expr,
{
    match expr {
        Expression::And { expressions } => get_combined_expression(expressions, alias, true),
        Expression::Or { expressions } => get_combined_expression(expressions, alias, false),
        Expression::Not { expression } => match get_predicate_expression(&**expression, alias) {
            Err(e) => Err(e),
            Ok(x) => Ok(SqlExpr::UnaryOp { op: SqlUnaryOp::Not, expr: Box::new(x) }),
        },
        Expression::UnaryComparisonOperator => Err(
            ServerError::BadRequest("unary comparison operators are not supported".to_owned()),
        ),
        Expression::BinaryComparisonOperator { column, operator, value } => {
            let left = match get_comparison_column(column, alias) {
                Ok(l) => l,
                Err(e) => return Err(e),
            };
            let right = match get_comparison_value(value) {
                Ok(v) => v,
                Err(e) => return Err(e),
            };
            match operator {
                BinaryComparisonOperator::Equal => Ok(get_sql_eq_expression(left, right)),
                BinaryComparisonOperator::Other { name } => {
                    if str_eq(name.as_str(), "like") {
                        Ok(get_sql_like_expr(left, right, false))
                    } else if str_eq(name.as_str(), "nlike") {
                        Ok(get_sql_like_expr(left, right, true))
                    } else {
                        Err(ServerError::BadRequest("unsupported comparison operator".to_owned()))
                    }
                },
            }
        },
        Expression::BinaryArrayComparisonOperator => Err(
            ServerError::BadRequest("array comparison operators are not supported".to_owned()),
        ),
        Expression::Exists => Err(
            ServerError::BadRequest("exists expressions are not supported".to_owned()),
        ),
    }
}

} // verus!
// The laws of the combinator translation.

verus! {

/// Whether a SQL expression is a bare top-level `AND` or `OR`
/// application, the shapes the combinator fold parenthesizes.
pub open spec fn spec_is_bare_combinator(x: SqlExprV) -> bool {
    match x {
        SqlExprV::BinaryOp { op, .. } => op == SqlBinaryOp::And || op == SqlBinaryOp::Or,
        _ => false,
    }
}

/// Law: the compiler never returns a bare `AND`/`OR` application; every
/// fold of a combinator over two or more operands is parenthesized.
pub proof fn lemma_no_bare_combinator(e: ExpressionV, alias: Seq<char>)
    ensures
        spec_predicate_expression(e, alias) matches Ok(x) ==> !spec_is_bare_combinator(x),
    decreases e,
{
    match e {
        ExpressionV::And { expressions } => {
            lemma_predicate_list_no_bare(expressions, alias);
        },
        ExpressionV::Or { expressions } => {
            lemma_predicate_list_no_bare(expressions, alias);
        },
        _ => {},
    }
}

/// Every member of a successfully compiled operand list is free of bare
/// `AND`/`OR` applications.
proof fn lemma_predicate_list_no_bare(es: Seq<ExpressionV>, alias: Seq<char>)
    ensures
        spec_predicate_list(es, alias) matches Ok(xs) ==> forall|i: int|
            0 <= i < xs.len() ==> !spec_is_bare_combinator(#[trigger] xs[i]),
    decreases es,
{
    if es.len() > 0 {
        lemma_predicate_list_no_bare(es.drop_last(), alias);
        lemma_no_bare_combinator(es.last(), alias);
    }
}

/// Law: an empty `And` compiles to the literal `TRUE`.
pub proof fn lemma_and_empty(alias: Seq<char>)
    ensures
        spec_predicate_expression(ExpressionV::And { expressions: Seq::empty() }, alias) == Ok::<
            SqlExprV,
            ServerErrorV,
        >(SqlExprV::Value(SqlValueV::Boolean(true))),
{
    reveal_with_fuel(spec_predicate_list, 2);
    assert(spec_predicate_list(Seq::<ExpressionV>::empty(), alias) == Ok::<
        Seq<SqlExprV>,
        ServerErrorV,
    >(Seq::<SqlExprV>::empty()));
}

/// Law: an empty `Or` compiles to the literal `FALSE`.
pub proof fn lemma_or_empty(alias: Seq<char>)
    ensures
        spec_predicate_expression(ExpressionV::Or { expressions: Seq::empty() }, alias) == Ok::<
            SqlExprV,
            ServerErrorV,
        >(SqlExprV::Value(SqlValueV::Boolean(false))),
{
    reveal_with_fuel(spec_predicate_list, 2);
    assert(spec_predicate_list(Seq::<ExpressionV>::empty(), alias) == Ok::<
        Seq<SqlExprV>,
        ServerErrorV,
    >(Seq::<SqlExprV>::empty()));
}

/// Law: `And` of a single expression compiles exactly as that expression
/// alone does, errors included.
pub proof fn lemma_and_singleton(e: ExpressionV, alias: Seq<char>)
    ensures
        spec_predicate_expression(ExpressionV::And { expressions: seq![e] }, alias)
            == spec_predicate_expression(e, alias),
{
    lemma_singleton_combinator(e, alias);
}

/// Law: `Or` of a single expression compiles exactly as that expression
/// alone does, errors included.
pub proof fn lemma_or_singleton(e: ExpressionV, alias: Seq<char>)
    ensures
        spec_predicate_expression(ExpressionV::Or { expressions: seq![e] }, alias)
            == spec_predicate_expression(e, alias),
{
    lemma_singleton_combinator(e, alias);
}

/// The shared argument for the two singleton laws.
proof fn lemma_singleton_combinator(e: ExpressionV, alias: Seq<char>)
    ensures
        spec_predicate_expression(ExpressionV::And { expressions: seq![e] }, alias)
            == spec_predicate_expression(e, alias),
        spec_predicate_expression(ExpressionV::Or { expressions: seq![e] }, alias)
            == spec_predicate_expression(e, alias),
{
    reveal_with_fuel(spec_predicate_list, 3);
    let es = seq![e];
    assert(es.drop_last() =~= Seq::<ExpressionV>::empty());
    assert(es.last() == e);
    lemma_no_bare_combinator(e, alias);
    match spec_predicate_expression(e, alias) {
        Ok(x) => {
            assert(spec_predicate_list(es, alias) == Ok::<Seq<SqlExprV>, ServerErrorV>(
                Seq::<SqlExprV>::empty().push(x),
            ));
            assert(Seq::<SqlExprV>::empty().push(x).len() == 1);
            assert(Seq::<SqlExprV>::empty().push(x).first() == x);
        },
        Err(er) => {
            assert(spec_predicate_list(es, alias) == Err::<Seq<SqlExprV>, ServerErrorV>(er));
        },
    }
}

} // verus!
