//! An evaluation model for the compiled boolean predicates, used to state
//! the laws of the predicate compiler: what a predicate means on one row.
//!
//! A row maps compound identifiers to scalar values; `LIKE` matching is a
//! parameter of the model, since its semantics belongs to the database
//! engine.  Evaluation is partial: an ill-typed or unsupported expression
//! evaluates to `None`.

use vstd::prelude::*;

use crate::ast::{IdentV, SqlBinaryOp, SqlExprV, SqlUnaryOp, SqlValueV};
use crate::models::{
    BinaryComparisonOperatorV, ComparisonTargetV, ComparisonValueV, ExpressionV, QueryV,
    ScalarValueV,
};
use crate::sql::predicate_builder::spec_predicate_expression;
use crate::sql::utils::{spec_binary_op, spec_quoted_ident};
use crate::sql::{
    lemma_guard_conjunction, lemma_schema_guard_compiles, spec_combined_predicate,
    spec_get_rows_query, spec_schema_guard, spec_schema_guard_sql,
};
use crate::tables::SupportedTable;

verus! {

/// A database scalar as the evaluation model sees it.
#[verifier::ext_equal]
pub enum DbValue {
    Text(Seq<char>),
    Num(Seq<char>),
    Truth(bool),
}

/// One row: the values of the compound identifiers a predicate may read.
pub type Row = Map<Seq<IdentV>, DbValue>;

/// The `LIKE` matching relation, a parameter of the model.
pub type LikeRel = spec_fn(Seq<char>, Seq<char>) -> bool;

/// The conjunction of two partial booleans: defined only when both are.
pub open spec fn opt_and(a: Option<bool>, b: Option<bool>) -> Option<bool> {
    match (a, b) {
        (Some(x), Some(y)) => Some(x && y),
        _ => None,
    }
}

/// The disjunction of two partial booleans: defined only when both are.
pub open spec fn opt_or(a: Option<bool>, b: Option<bool>) -> Option<bool> {
    match (a, b) {
        (Some(x), Some(y)) => Some(x || y),
        _ => None,
    }
}

/// The scalar an operand denotes on a row: a column's value, or a
/// literal.
pub open spec fn eval_operand(e: SqlExprV, row: Row) -> Option<DbValue> {
    match e {
        SqlExprV::CompoundIdentifier(ids) => {
            if row.dom().contains(ids) {
                Some(row[ids])
            } else {
                None
            }
        },
        SqlExprV::Value(v) => match v {
            SqlValueV::Number(n) => Some(DbValue::Num(n)),
            SqlValueV::SingleQuotedString(s) => Some(DbValue::Text(s)),
            SqlValueV::Boolean(b) => Some(DbValue::Truth(b)),
            SqlValueV::Null => None,
        },
        _ => None,
    }
}

/// The truth value a compiled predicate takes on one row, under a given
/// `LIKE` relation.
pub open spec fn eval_predicate(e: SqlExprV, row: Row, like: LikeRel) -> Option<bool>
    decreases e,
{
    match e {
        SqlExprV::Value(SqlValueV::Boolean(b)) => Some(b),
        SqlExprV::Nested(inner) => eval_predicate(*inner, row, like),
        SqlExprV::UnaryOp { op, expr } => match op {
            SqlUnaryOp::Not => match eval_predicate(*expr, row, like) {
                Some(b) => Some(!b),
                None => None,
            },
        },
        SqlExprV::BinaryOp { left, op, right } => match op {
            SqlBinaryOp::And => opt_and(
                eval_predicate(*left, row, like),
                eval_predicate(*right, row, like),
            ),
            SqlBinaryOp::Or => opt_or(
                eval_predicate(*left, row, like),
                eval_predicate(*right, row, like),
            ),
            SqlBinaryOp::Eq => match (eval_operand(*left, row), eval_operand(*right, row)) {
                (Some(a), Some(b)) => Some(a == b),
                _ => None,
            },
        },
        SqlExprV::Like { negated, expr, pattern } => match (
            eval_operand(*expr, row),
            eval_operand(*pattern, row),
        ) {
            (Some(DbValue::Text(s)), Some(DbValue::Text(p))) => Some(
                if negated {
                    !like(s, p)
                } else {
                    like(s, p)
                },
            ),
            _ => None,
        },
        _ => None,
    }
}

/// Law: an empty `And` compiles to a predicate that holds on every row —
/// it is equivalent to always-true.
pub proof fn lemma_and_empty_always_true(alias: Seq<char>, row: Row, like: LikeRel)
    ensures
        eval_predicate(
            spec_predicate_expression(
                (ExpressionV::And { expressions: Seq::empty() }),
                alias,
            )->Ok_0,
            row,
            like,
        ) == Some(true),
{
    crate::sql::predicate_builder::lemma_and_empty(alias);
}

/// Law: an empty `Or` compiles to a predicate that holds on no row — it
/// is equivalent to always-false.
pub proof fn lemma_or_empty_always_false(alias: Seq<char>, row: Row, like: LikeRel)
    ensures
        eval_predicate(
            spec_predicate_expression(
                (ExpressionV::Or { expressions: Seq::empty() }),
                alias,
            )->Ok_0,
            row,
            like,
        ) == Some(false),
{
    crate::sql::predicate_builder::lemma_or_empty(alias);
}

/// Law: parenthesization does not change what a predicate means.
pub proof fn lemma_nested_eval(e: SqlExprV, row: Row, like: LikeRel)
    ensures
        eval_predicate(SqlExprV::Nested(Box::new(e)), row, like) == eval_predicate(e, row, like),
{
}

/// Law: the order of the operands of a conjunction does not change which
/// rows match.
pub proof fn lemma_and_commutes(a: SqlExprV, b: SqlExprV, row: Row, like: LikeRel)
    ensures
        eval_predicate(spec_binary_op(a, SqlBinaryOp::And, b), row, like) == eval_predicate(
            spec_binary_op(b, SqlBinaryOp::And, a),
            row,
            like,
        ),
{
}

/// Law: a compiled conjunction of two predicates means exactly the
/// conjunction of their meanings.
pub proof fn lemma_conjunction_eval(a: SqlExprV, b: SqlExprV, row: Row, like: LikeRel)
    ensures
        eval_predicate(
            SqlExprV::Nested(Box::new(spec_binary_op(a, SqlBinaryOp::And, b))),
            row,
            like,
        ) == opt_and(eval_predicate(a, row, like), eval_predicate(b, row, like)),
{
    reveal_with_fuel(eval_predicate, 3);
}

/// The key under which a row stores the schema column the guard reads.
pub open spec fn spec_schema_key(alias: Seq<char>) -> Seq<IdentV> {
    seq![spec_quoted_ident(alias), spec_quoted_ident("table_schema"@)]
}

/// Law: on a row whose schema column holds the text `ts`, the compiled
/// schema guard means exactly "`ts` matches neither `pg_%` nor
/// `information_schema`".
pub proof fn lemma_schema_guard_meaning(alias: Seq<char>, row: Row, like: LikeRel, ts: Seq<char>)
    requires
        row.dom().contains(spec_schema_key(alias)),
        row[spec_schema_key(alias)] == DbValue::Text(ts),
    ensures
        eval_predicate(spec_schema_guard_sql(alias), row, like) == Some(
            !like(ts, "pg_%"@) && !like(ts, "information_schema"@),
        ),
{
    reveal_with_fuel(eval_predicate, 4);
}

/// Law: when a caller predicate is present and the row query compiles,
/// the query's filter means exactly the conjunction of the schema
/// guard's meaning and the caller predicate's meaning — combining the
/// guard with the predicate changes which rows match only as that
/// conjunction does.
pub proof fn lemma_rows_filter_meaning(q: QueryV, t: SupportedTable, row: Row, like: LikeRel)
    requires
        q.predicate is Some,
        spec_get_rows_query(q, t) is Ok,
    ensures
        spec_get_rows_query(q, t)->Ok_0.selection matches Some(sel) && eval_predicate(
            sel,
            row,
            like,
        ) == opt_and(
            eval_predicate(spec_schema_guard_sql("_origin"@), row, like),
            eval_predicate(
                spec_predicate_expression(q.predicate->Some_0, "_origin"@)->Ok_0,
                row,
                like,
            ),
        ),
{
    let p = q.predicate->Some_0;
    lemma_schema_guard_compiles("_origin"@);
    lemma_guard_conjunction(p, "_origin"@);
    let combined = spec_combined_predicate(q);
    assert(combined == (ExpressionV::And { expressions: seq![spec_schema_guard(), p] }));
    match spec_predicate_expression(p, "_origin"@) {
        Ok(pv) => {
            lemma_conjunction_eval(spec_schema_guard_sql("_origin"@), pv, row, like);
        },
        Err(_) => {
            assert(spec_predicate_expression(combined, "_origin"@) is Err);
            assert(false);
        },
    }
}

/// The key under which a row stores a column of the anchor alias.
pub open spec fn spec_column_key(alias: Seq<char>, name: Seq<char>) -> Seq<IdentV> {
    seq![spec_quoted_ident(alias), spec_quoted_ident(name)]
}

/// Law: an equality comparison of a root-collection column against a
/// string scalar compiles, and on a row carrying that column it means
/// exactly "the column's value is that text".
pub proof fn lemma_eq_comparison_meaning(
    alias: Seq<char>,
    name: Seq<char>,
    text: Seq<char>,
    row: Row,
    like: LikeRel,
)
    requires
        row.dom().contains(spec_column_key(alias, name)),
    ensures
        ({
            let e = ExpressionV::BinaryComparisonOperator {
                column: ComparisonTargetV::RootCollectionColumn { name },
                operator: BinaryComparisonOperatorV::Equal,
                value: ComparisonValueV::Scalar { value: (ScalarValueV::Text { value: text }) },
            };
            spec_predicate_expression(e, alias) matches Ok(c) && eval_predicate(c, row, like)
                == Some(row[spec_column_key(alias, name)] == DbValue::Text(text))
        }),
{
    reveal_with_fuel(eval_predicate, 2);
}

} // verus!
