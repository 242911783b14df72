//! Small constructors for the SQL AST, each with an exact contract.

use vstd::prelude::*;

use crate::ast::{
    view_select_item_seq, view_sql_expr, view_sql_expr_seq, view_table_with_joins_seq, Ident,
    IdentV, SelectItem, SelectItemV, SqlBinaryOp, SqlExpr, SqlExprV, SqlQuery, SqlQueryV,
    SqlValue, SqlValueV, TableAlias, TableAliasV, TableWithJoins,
};
use crate::strutil::str_eq;

verus! {

/// A double-quoted identifier.
pub open spec fn spec_quoted_ident(s: Seq<char>) -> IdentV {
    IdentV { value: s, quote: Some('"') }
}

/// A function call expression with unnamed arguments and no
/// `DISTINCT`/`OVER` decorations.
pub open spec fn spec_function_expression(name: Seq<char>, args: Seq<SqlExprV>) -> SqlExprV {
    SqlExprV::Function { name, args, distinct: false }
}

/// A binary operator expression.
pub open spec fn spec_binary_op(left: SqlExprV, op: SqlBinaryOp, right: SqlExprV) -> SqlExprV {
    SqlExprV::BinaryOp { left: Box::new(left), op, right: Box::new(right) }
}

/// A `LIKE` / `NOT LIKE` expression.
pub open spec fn spec_like_expr(left: SqlExprV, right: SqlExprV, negated: bool) -> SqlExprV {
    SqlExprV::Like { negated, expr: Box::new(left), pattern: Box::new(right) }
}

/// The physical column of the foreign-key outer query that backs a
/// logical field name; identity for the fields that are group-by keys or
/// share their physical name.
pub open spec fn spec_equivalent_table_column(x: Seq<char>) -> Seq<char> {
    if x == "table_from"@ {
        "table_name"@
    } else if x == "on_update"@ {
        "confupdtype"@
    } else if x == "on_delete"@ {
        "confdeltype"@
    } else {
        x
    }
}

/// Whether `x` is a logical field of the foreign-key collection that the
/// outer query resolves through a physical column (every field but
/// `column_mapping`, which aggregates two).
pub open spec fn spec_is_fkey_column_field(x: Seq<char>) -> bool {
    ||| x == "schema_from"@
    ||| x == "table_from"@
    ||| x == "fkey_name"@
    ||| x == "schema_to"@
    ||| x == "table_to"@
    ||| x == "on_update"@
    ||| x == "on_delete"@
}

/// Gets a double-quoted identifier to add to the SQL query.
pub fn get_sql_quoted_identifier(value: &str) -> (r: Ident)
    ensures
        r.deep_view() == spec_quoted_ident(value@),
{
    Ident { value: value.to_owned(), quote: Some('"') }
}

/// Translates a logical field name of the foreign-key collection to the
/// column of the outer query that carries it.
pub fn get_equivalent_table_column<'a>(x: &'a str) -> (r: &'a str)
    requires
        spec_is_fkey_column_field(x@),
    ensures
        r@ == spec_equivalent_table_column(x@),
{
    if str_eq(x, "table_from") {
        "table_name"
    } else if str_eq(x, "on_update") {
        "confupdtype"
    } else if str_eq(x, "on_delete") {
        "confdeltype"
    } else {
        x
    }
}

/// Builds a SQL function call expression.
pub fn get_sql_function_expression(name: &str, args: Vec<SqlExpr>, distinct: Option<bool>) -> (r:
    SqlExpr)
    ensures
        r.deep_view() == (SqlExprV::Function {
            name: name@,
            args: view_sql_expr_seq(args@),
            distinct: distinct == Some(true),
        }),
{
    let d = match distinct {
        Some(b) => b,
        None => false,
    };
    SqlExpr::Function { name: name.to_owned(), args, distinct: d }
}

/// An `=` comparison between two expressions.
pub fn get_sql_eq_expression(left: SqlExpr, right: SqlExpr) -> (r: SqlExpr)
    ensures
        r.deep_view() == spec_binary_op(left.deep_view(), SqlBinaryOp::Eq, right.deep_view()),
{
    SqlExpr::BinaryOp { left: Box::new(left), op: SqlBinaryOp::Eq, right: Box::new(right) }
}

/// An `AND` conjunction of two expressions.
pub fn get_sql_and_expression(left: SqlExpr, right: SqlExpr) -> (r: SqlExpr)
    ensures
        r.deep_view() == spec_binary_op(left.deep_view(), SqlBinaryOp::And, right.deep_view()),
{
    SqlExpr::BinaryOp { left: Box::new(left), op: SqlBinaryOp::And, right: Box::new(right) }
}

/// An `OR` disjunction of two expressions.
pub fn get_sql_or_expr(left: SqlExpr, right: SqlExpr) -> (r: SqlExpr)
    ensures
        r.deep_view() == spec_binary_op(left.deep_view(), SqlBinaryOp::Or, right.deep_view()),
{
    SqlExpr::BinaryOp { left: Box::new(left), op: SqlBinaryOp::Or, right: Box::new(right) }
}

/// A `LIKE` (or, negated, `NOT LIKE`) comparison.
pub fn get_sql_like_expr(left: SqlExpr, right: SqlExpr, negated: bool) -> (r: SqlExpr)
    ensures
        r.deep_view() == spec_like_expr(left.deep_view(), right.deep_view(), negated),
{
    SqlExpr::Like { negated, expr: Box::new(left), pattern: Box::new(right) }
}

/// Assembles a single `SELECT` query from its parts.
pub fn get_sql_query(
    projection: Vec<SelectItem>,
    from: Vec<TableWithJoins>,
    predicate: Option<SqlExpr>,
    group_by: Option<Vec<SqlExpr>>,
    limit: Option<u32>,
    offset: Option<u32>,
) -> (r: Box<SqlQuery>)
    ensures
        r.deep_view() == (SqlQueryV {
            projection: view_select_item_seq(projection@),
            from: view_table_with_joins_seq(from@),
            selection: match predicate {
                Some(p) => Some(view_sql_expr(p)),
                None => None,
            },
            group_by: match group_by {
                Some(g) => view_sql_expr_seq(g@),
                None => Seq::empty(),
            },
            limit,
            offset,
        }),
{
    let gb = match group_by {
        Some(g) => g,
        None => Vec::new(),
    };
    Box::new(SqlQuery { projection, from, selection: predicate, group_by: gb, limit, offset })
}

} // verus!
// Shared shorthands for the query builders.

verus! {

/// A bare (unquoted) identifier.
pub open spec fn spec_bare_ident(s: Seq<char>) -> IdentV {
    IdentV { value: s, quote: None }
}

/// A single-quoted identifier, for the spots where the generated SQL
/// writes a string literal in identifier position.
pub open spec fn spec_single_quoted_ident(s: Seq<char>) -> IdentV {
    IdentV { value: s, quote: Some('\'') }
}

/// A two-part, double-quoted compound identifier expression.
pub open spec fn spec_compound(a: Seq<char>, b: Seq<char>) -> SqlExprV {
    SqlExprV::CompoundIdentifier(seq![spec_quoted_ident(a), spec_quoted_ident(b)])
}

/// A two-part, bare compound identifier expression.
pub open spec fn spec_bare_compound(a: Seq<char>, b: Seq<char>) -> SqlExprV {
    SqlExprV::CompoundIdentifier(seq![spec_bare_ident(a), spec_bare_ident(b)])
}

/// Builds `"a"."b"` with double-quoted parts.
pub fn make_compound(a: &str, b: &str) -> (r: SqlExpr)
    ensures
        r.deep_view() == spec_compound(a@, b@),
{
    let mut ids: Vec<Ident> = Vec::new();
    ids.push(get_sql_quoted_identifier(a));
    ids.push(get_sql_quoted_identifier(b));
    let r = SqlExpr::CompoundIdentifier(ids);
    proof {
        assert(ids.deep_view() =~= seq![spec_quoted_ident(a@), spec_quoted_ident(b@)]);
    }
    r
}

/// Builds `a.b` with bare parts.
pub fn make_bare_compound(a: &str, b: &str) -> (r: SqlExpr)
    ensures
        r.deep_view() == spec_bare_compound(a@, b@),
{
    let mut ids: Vec<Ident> = Vec::new();
    ids.push(Ident { value: a.to_owned(), quote: None });
    ids.push(Ident { value: b.to_owned(), quote: None });
    let r = SqlExpr::CompoundIdentifier(ids);
    proof {
        assert(ids.deep_view() =~= seq![spec_bare_ident(a@), spec_bare_ident(b@)]);
    }
    r
}

/// Builds a function call with no arguments.
pub fn make_call0(name: &str) -> (r: SqlExpr)
    ensures
        r.deep_view() == spec_function_expression(name@, Seq::empty()),
{
    let args: Vec<SqlExpr> = Vec::new();
    let r = get_sql_function_expression(name, args, None);
    proof {
        assert(view_sql_expr_seq(Seq::empty()) =~= Seq::<SqlExprV>::empty());
    }
    r
}

/// Builds a function call with one argument.
pub fn make_call1(name: &str, a: SqlExpr) -> (r: SqlExpr)
    ensures
        r.deep_view() == spec_function_expression(name@, seq![a.deep_view()]),
{
    let ghost av = a.deep_view();
    let mut args: Vec<SqlExpr> = Vec::new();
    args.push(a);
    let r = get_sql_function_expression(name, args, None);
    proof {
        crate::ast::lemma_view_sql_expr_seq(args@);
        assert(view_sql_expr_seq(args@) =~= seq![av]);
    }
    r
}

/// Builds a function call with two arguments.
pub fn make_call2(name: &str, a: SqlExpr, b: SqlExpr) -> (r: SqlExpr)
    ensures
        r.deep_view() == spec_function_expression(name@, seq![a.deep_view(), b.deep_view()]),
{
    let ghost av = a.deep_view();
    let ghost bv = b.deep_view();
    let mut args: Vec<SqlExpr> = Vec::new();
    args.push(a);
    args.push(b);
    let r = get_sql_function_expression(name, args, None);
    proof {
        crate::ast::lemma_view_sql_expr_seq(args@);
        assert(view_sql_expr_seq(args@) =~= seq![av, bv]);
    }
    r
}

/// Builds the projection item `json_build_object('value', e) AS "alias"`
/// that wraps each selected field of a row.
pub fn make_value_object_item(e: SqlExpr, alias: &str) -> (r: SelectItem)
    ensures
        r.deep_view() == (SelectItemV::ExprWithAlias {
            expr: spec_function_expression(
                "json_build_object"@,
                seq![
                    SqlExprV::Value(SqlValueV::SingleQuotedString("value"@)),
                    e.deep_view(),
                ],
            ),
            alias: spec_quoted_ident(alias@),
        }),
{
    let tag = SqlExpr::Value(SqlValue::SingleQuotedString("value".to_owned()));
    let expr = make_call2("json_build_object", tag, e);
    SelectItem::ExprWithAlias { expr, alias: get_sql_quoted_identifier(alias) }
}

/// Builds a double-quoted table alias.
pub fn make_table_alias(name: &str) -> (r: TableAlias)
    ensures
        r.deep_view() == (TableAliasV { name: spec_quoted_ident(name@) }),
{
    TableAlias { name: get_sql_quoted_identifier(name) }
}

} // verus!
