//! The query compiler: from an abstract query request to one SQL
//! statement producing the protocol's JSON response envelope.
//!
//! The entry point [`build_sql_query`] resolves the requested collection,
//! dispatches to the row query builder (this module) or the foreign-key
//! query builder ([`fkey`]), and wraps the row-producing query in the two
//! nested layers the protocol envelope requires.

pub mod fkey;
pub mod predicate_builder;
pub mod utils;

use vstd::prelude::*;

use crate::ast::{
    lemma_view_select_item_seq, lemma_view_table_with_joins_seq, view_select_item,
    view_select_item_seq, view_table_with_joins, view_table_with_joins_seq, Ident, SelectItem,
    SelectItemV, SqlBinaryOp, SqlExpr, SqlExprV, SqlQuery, SqlQueryV, SqlValue, SqlValueV,
    TableAliasV, TableFactor, TableFactorV, TableWithJoins, TableWithJoinsV,
};
use crate::error::{res_view, ServerError, ServerErrorV};
use crate::models::{
    lemma_view_expression_seq, view_expression_seq, BinaryComparisonOperator,
    BinaryComparisonOperatorV, ComparisonTarget, ComparisonTargetV, ComparisonValue,
    ComparisonValueV, Expression, ExpressionV, Field, FieldV, Query, QueryV, ScalarValue,
    ScalarValueV,
};
use crate::sql::predicate_builder::{
    get_predicate_expression, spec_fold_left, spec_predicate_expression, spec_predicate_list,
};
use crate::sql::utils::{
    get_sql_and_expression, get_sql_quoted_identifier, make_compound, make_table_alias,
    make_value_object_item, spec_binary_op, spec_compound, spec_function_expression,
    spec_like_expr, spec_quoted_ident,
};
use crate::tables::SupportedTable;

verus! {

/// The implicit guard comparison `table_schema NOT LIKE pattern` that
/// hides system schemas from the two information-schema collections.
pub open spec fn spec_nlike_schema_guard(pattern: Seq<char>) -> ExpressionV {
    ExpressionV::BinaryComparisonOperator {
        column: ComparisonTargetV::RootCollectionColumn { name: "table_schema"@ },
        operator: BinaryComparisonOperatorV::Other { name: "nlike"@ },
        value: ComparisonValueV::Scalar { value: (ScalarValueV::Text { value: pattern }) },
    }
}

/// The baseline predicate of the row query builder: schemas matching
/// `pg_%` and the `information_schema` schema itself are excluded.
pub open spec fn spec_schema_guard() -> ExpressionV {
    ExpressionV::And {
        expressions: seq![
            spec_nlike_schema_guard("pg_%"@),
            spec_nlike_schema_guard("information_schema"@),
        ],
    }
}

/// The predicate the row query is filtered by: the schema guard, joined
/// by `And` with the caller's predicate when one is present.
pub open spec fn spec_combined_predicate(q: QueryV) -> ExpressionV {
    match q.predicate {
        Some(p) => ExpressionV::And { expressions: seq![spec_schema_guard(), p] },
        None => spec_schema_guard(),
    }
}

/// The requested fields of a query, defaulting to none.
pub open spec fn spec_fields_of(q: QueryV) -> Seq<(Seq<char>, FieldV)> {
    match q.fields {
        Some(f) => f,
        None => Seq::empty(),
    }
}

/// The placeholder projection of a query that selects no fields.
pub open spec fn spec_null_item() -> SelectItemV {
    SelectItemV::UnnamedExpr(SqlExprV::Value(SqlValueV::Null))
}

/// The projection item of one selected field of a row query:
/// `json_build_object('value', _origin.column) AS "alias"`.
pub open spec fn spec_row_field_item(alias: Seq<char>, column: Seq<char>) -> SelectItemV {
    SelectItemV::ExprWithAlias {
        expr: spec_function_expression(
            "json_build_object"@,
            seq![
                SqlExprV::Value(SqlValueV::SingleQuotedString("value"@)),
                spec_compound("_origin"@, column),
            ],
        ),
        alias: spec_quoted_ident(alias),
    }
}

/// The compilation of one requested field of a row query: the field must
/// be a column declared for the collection.
pub open spec fn spec_rows_field(f: (Seq<char>, FieldV), t: SupportedTable) -> Result<
    SelectItemV,
    ServerErrorV,
> {
    match f.1 {
        FieldV::Column { column } => {
            if t.spec_has_column(column) {
                Ok(spec_row_field_item(f.0, column))
            } else {
                Err(ServerErrorV::BadRequest("column should be in table"@))
            }
        },
        FieldV::Relationship => Err(
            ServerErrorV::BadRequest("relationship fields are not supported"@),
        ),
    }
}

/// The compilation of a field list, left to right; the first field that
/// fails decides the error.
pub open spec fn spec_rows_projection_items(
    fields: Seq<(Seq<char>, FieldV)>,
    t: SupportedTable,
) -> Result<Seq<SelectItemV>, ServerErrorV>
    decreases fields.len(),
{
    if fields.len() == 0 {
        Ok(Seq::empty())
    } else {
        match spec_rows_projection_items(fields.drop_last(), t) {
            Err(e) => Err(e),
            Ok(xs) => match spec_rows_field(fields.last(), t) {
                Err(e) => Err(e),
                Ok(x) => Ok(xs.push(x)),
            },
        }
    }
}

/// The whole projection of a row query: one `NULL` column when no field
/// is selected, and otherwise one wrapped column per field.
pub open spec fn spec_rows_projection(fields: Seq<(Seq<char>, FieldV)>, t: SupportedTable) -> Result<
    Seq<SelectItemV>,
    ServerErrorV,
> {
    if fields.len() == 0 {
        Ok(seq![spec_null_item()])
    } else {
        spec_rows_projection_items(fields, t)
    }
}

/// The `FROM` clause of a row query: the collection's physical relation,
/// aliased `_origin`.
pub open spec fn spec_rows_from(t: SupportedTable) -> TableWithJoinsV {
    TableWithJoinsV {
        relation: TableFactorV::Table {
            name: seq![
                spec_quoted_ident(t.spec_schema_name()),
                spec_quoted_ident(t.spec_table_name()),
            ],
            alias: Some(TableAliasV { name: spec_quoted_ident("_origin"@) }),
        },
        joins: Seq::empty(),
    }
}

/// What the row query builder returns: a filtered, field-projected
/// `SELECT` over the collection's relation, with the caller's limit and
/// offset attached verbatim.  The predicate is compiled first, then the
/// fields, and the first failure decides the error.
pub open spec fn spec_get_rows_query(q: QueryV, t: SupportedTable) -> Result<
    SqlQueryV,
    ServerErrorV,
> {
    match spec_predicate_expression(spec_combined_predicate(q), "_origin"@) {
        Err(e) => Err(e),
        Ok(sel) => match spec_rows_projection(spec_fields_of(q), t) {
            Err(e) => Err(e),
            Ok(proj) => Ok(
                SqlQueryV {
                    projection: proj,
                    from: seq![spec_rows_from(t)],
                    selection: Some(sel),
                    group_by: Seq::empty(),
                    limit: q.limit,
                    offset: q.offset,
                },
            ),
        },
    }
}

/// The compiled form of the schema guard, anchored to `alias`.
pub open spec fn spec_schema_guard_sql(alias: Seq<char>) -> SqlExprV {
    SqlExprV::Nested(
        Box::new(
            spec_binary_op(
                spec_like_expr(
                    spec_compound(alias, "table_schema"@),
                    SqlExprV::Value(SqlValueV::SingleQuotedString("pg_%"@)),
                    true,
                ),
                SqlBinaryOp::And,
                spec_like_expr(
                    spec_compound(alias, "table_schema"@),
                    SqlExprV::Value(SqlValueV::SingleQuotedString("information_schema"@)),
                    true,
                ),
            ),
        ),
    )
}

/// Law: the schema guard always compiles, to two `NOT LIKE` comparisons
/// joined by a parenthesized `AND`.
pub proof fn lemma_schema_guard_compiles(alias: Seq<char>)
    ensures
        spec_predicate_expression(spec_schema_guard(), alias) == Ok::<SqlExprV, ServerErrorV>(
            spec_schema_guard_sql(alias),
        ),
{
    reveal_strlit("like");
    reveal_strlit("nlike");
    assert("like"@.len() == 4);
    assert("nlike"@.len() == 5);
    let g1 = spec_nlike_schema_guard("pg_%"@);
    let g2 = spec_nlike_schema_guard("information_schema"@);
    let c1 = spec_like_expr(
        spec_compound(alias, "table_schema"@),
        SqlExprV::Value(SqlValueV::SingleQuotedString("pg_%"@)),
        true,
    );
    let c2 = spec_like_expr(
        spec_compound(alias, "table_schema"@),
        SqlExprV::Value(SqlValueV::SingleQuotedString("information_schema"@)),
        true,
    );
    assert(spec_predicate_expression(g1, alias) == Ok::<SqlExprV, ServerErrorV>(c1));
    assert(spec_predicate_expression(g2, alias) == Ok::<SqlExprV, ServerErrorV>(c2));
    lemma_pair_list(g1, g2, alias, c1, c2);
    reveal_with_fuel(spec_fold_left, 2);
    let xs = seq![c1, c2];
    assert(xs.drop_last() =~= seq![c1]);
    assert(spec_fold_left(SqlBinaryOp::And, xs) == spec_binary_op(c1, SqlBinaryOp::And, c2));
}

/// The compilation of a two-expression list whose first member is known
/// to compile.
proof fn lemma_pair_list(g: ExpressionV, p: ExpressionV, alias: Seq<char>, gv: SqlExprV, pv: SqlExprV)
    requires
        spec_predicate_expression(g, alias) == Ok::<SqlExprV, ServerErrorV>(gv),
    ensures
        spec_predicate_expression(p, alias) matches Ok(x) && x == pv ==> spec_predicate_list(
            seq![g, p],
            alias,
        ) == Ok::<Seq<SqlExprV>, ServerErrorV>(seq![gv, pv]),
        spec_predicate_expression(p, alias) matches Err(e) ==> spec_predicate_list(
            seq![g, p],
            alias,
        ) == Err::<Seq<SqlExprV>, ServerErrorV>(e),
{
    reveal_with_fuel(spec_predicate_list, 3);
    let es = seq![g, p];
    assert(es.drop_last() =~= seq![g]);
    assert(seq![g].drop_last() =~= Seq::<ExpressionV>::empty());
    assert(seq![g].last() == g);
    assert(es.last() == p);
    assert(spec_predicate_list(seq![g], alias) == Ok::<Seq<SqlExprV>, ServerErrorV>(
        Seq::<SqlExprV>::empty().push(gv),
    ));
    match spec_predicate_expression(p, alias) {
        Ok(x) => {
            assert(Seq::<SqlExprV>::empty().push(gv).push(x) =~= seq![gv, x]);
        },
        Err(_) => {},
    }
}

/// Law: joining the schema guard with a caller predicate compiles to the
/// conjunction of their compiled forms, parenthesized; a caller
/// predicate that fails to compile decides the result.
pub proof fn lemma_guard_conjunction(p: ExpressionV, alias: Seq<char>)
    ensures
        spec_predicate_expression(p, alias) matches Ok(pv) ==> spec_predicate_expression(
            (ExpressionV::And { expressions: seq![spec_schema_guard(), p] }),
            alias,
        ) == Ok::<SqlExprV, ServerErrorV>(
            SqlExprV::Nested(
                Box::new(spec_binary_op(spec_schema_guard_sql(alias), SqlBinaryOp::And, pv)),
            ),
        ),
        spec_predicate_expression(p, alias) matches Err(e) ==> spec_predicate_expression(
            (ExpressionV::And { expressions: seq![spec_schema_guard(), p] }),
            alias,
        ) == Err::<SqlExprV, ServerErrorV>(e),
{
    lemma_schema_guard_compiles(alias);
    let gv = spec_schema_guard_sql(alias);
    match spec_predicate_expression(p, alias) {
        Ok(pv) => {
            lemma_pair_list(spec_schema_guard(), p, alias, gv, pv);
            let xs = seq![gv, pv];
            reveal_with_fuel(spec_fold_left, 2);
            assert(xs.drop_last() =~= seq![gv]);
            assert(spec_fold_left(SqlBinaryOp::And, xs) == spec_binary_op(
                gv,
                SqlBinaryOp::And,
                pv,
            ));
        },
        Err(_) => {
            lemma_pair_list(spec_schema_guard(), p, alias, gv, gv);
        },
    }
}

/// One step of `spec_rows_projection_items`.
proof fn lemma_rows_items_take_step(fields: Seq<(Seq<char>, FieldV)>, t: SupportedTable, i: int)
    requires
        0 <= i < fields.len(),
    ensures
        spec_rows_projection_items(fields.take(i + 1), t) == (match spec_rows_projection_items(
            fields.take(i),
            t,
        ) {
            Err(e) => Err::<Seq<SelectItemV>, ServerErrorV>(e),
            Ok(xs) => match spec_rows_field(fields[i], t) {
                Err(e) => Err(e),
                Ok(x) => Ok(xs.push(x)),
            },
        }),
{
    assert(fields.take(i + 1).drop_last() =~= fields.take(i));
    assert(fields.take(i + 1).last() == fields[i]);
}

/// A failed prefix of the field list decides the whole projection.
proof fn lemma_rows_items_err_extends(fields: Seq<(Seq<char>, FieldV)>, t: SupportedTable, i: int)
    requires
        0 <= i <= fields.len(),
        spec_rows_projection_items(fields.take(i), t) is Err,
    ensures
        spec_rows_projection_items(fields, t) == spec_rows_projection_items(fields.take(i), t),
    decreases fields.len() - i,
{
    if i == fields.len() {
        assert(fields.take(i) =~= fields);
    } else {
        lemma_rows_items_take_step(fields, t, i);
        lemma_rows_items_err_extends(fields, t, i + 1);
    }
}

/// Builds one `table_schema NOT LIKE pattern` guard comparison.
fn make_nlike_schema_guard(pattern: &str) -> (r: Expression)
    ensures
        r.deep_view() == spec_nlike_schema_guard(pattern@),
{
    Expression::BinaryComparisonOperator {
        column: ComparisonTarget::RootCollectionColumn { name: "table_schema".to_owned() },
        operator: BinaryComparisonOperator::Other { name: "nlike".to_owned() },
        value: ComparisonValue::Scalar {
            value: (ScalarValue::Text { value: pattern.to_owned() }),
        },
    }
}

/// Builds the baseline schema guard predicate.
fn make_schema_guard() -> (r: Expression)
    ensures
        r.deep_view() == spec_schema_guard(),
{
    let g1 = make_nlike_schema_guard("pg_%");
    let g2 = make_nlike_schema_guard("information_schema");
    let ghost g1v = g1.deep_view();
    let ghost g2v = g2.deep_view();
    let mut expressions: Vec<Expression> = Vec::new();
    expressions.push(g1);
    expressions.push(g2);
    let r = Expression::And { expressions };
    proof {
        lemma_view_expression_seq(expressions@);
        assert(view_expression_seq(expressions@) =~= seq![g1v, g2v]);
    }
    r
}

/// Builds the row-level `SELECT` for the two information-schema-backed
/// collections: guarded and filtered, field-projected, with the caller's
/// limit and offset attached verbatim.
#[verifier::loop_isolation(false)]
pub fn get_rows_query(query: &Query, table: &SupportedTable) -> (r: Result<
    Box<SqlQuery>,
    ServerError,
>)
    ensures
        res_view(r) == spec_get_rows_query(query.deep_view(), *table),
{
    let ghost q = query.deep_view();
    let guard = make_schema_guard();
    proof {
        lemma_schema_guard_compiles("_origin"@);
    }

    // Build the filter predicate: the guard, conjoined with the caller's
    // predicate when one is present.
    let filter_predicate: SqlExpr = match &query.predicate {
        Some(p) => {
            proof {
                lemma_guard_conjunction(p.deep_view(), "_origin"@);
            }
            let cg = match get_predicate_expression(&guard, "_origin") {
                Ok(c) => c,
                Err(e) => {
                    return Err(e);
                },
            };
            let cp = match get_predicate_expression(p, "_origin") {
                Ok(c) => c,
                Err(e) => {
                    return Err(e);
                },
            };
            SqlExpr::Nested(Box::new(get_sql_and_expression(cg, cp)))
        },
        None => match get_predicate_expression(&guard, "_origin") {
            Ok(c) => c,
            Err(e) => {
                return Err(e);
            },
        },
    };

    // FROM "<schema>"."<table>" AS "_origin"
    let schema_name = table.get_schema_name();
    let table_name = table.get_table_name();
    let mut name: Vec<Ident> = Vec::new();
    name.push(get_sql_quoted_identifier(schema_name.as_str()));
    name.push(get_sql_quoted_identifier(table_name.as_str()));
    let relation = TableFactor::Table { name, alias: Some(make_table_alias("_origin")) };
    let mut rows_from: Vec<TableWithJoins> = Vec::new();
    rows_from.push(TableWithJoins { relation, joins: Vec::new() });
    proof {
        lemma_view_table_with_joins_seq(rows_from@);
        assert(crate::ast::view_join_seq(Seq::empty()) =~= Seq::<crate::ast::JoinV>::empty());
        assert(name.deep_view() =~= seq![
            spec_quoted_ident((*table).spec_schema_name()),
            spec_quoted_ident((*table).spec_table_name()),
        ]);
        assert(view_table_with_joins(rows_from@[0]) =~~= spec_rows_from(*table));
        assert(view_table_with_joins_seq(rows_from@) =~= seq![spec_rows_from(*table)]);
    }

    // The projection: one wrapped column per requested field, or a single
    // NULL column when no field is requested.
    let ghost fvs = spec_fields_of(q);
    let mut projection: Vec<SelectItem> = Vec::new();
    match &query.fields {
        None => {
            projection.push(SelectItem::UnnamedExpr(SqlExpr::Value(SqlValue::Null)));
            proof {
                lemma_view_select_item_seq(projection@);
                assert(view_select_item_seq(projection@) =~= seq![spec_null_item()]);
            }
        },
        Some(f) => {
            if f.len() == 0 {
                projection.push(SelectItem::UnnamedExpr(SqlExpr::Value(SqlValue::Null)));
                proof {
                    lemma_view_select_item_seq(projection@);
                    assert(view_select_item_seq(projection@) =~= seq![spec_null_item()]);
                }
            } else {
                proof {
                    assert(fvs == f.deep_view());
                }
                let mut i: usize = 0;
                while i < f.len()
                    invariant
                        fvs == f.deep_view(),
                        fvs.len() == f@.len(),
                        0 <= i <= fvs.len(),
                        spec_rows_projection_items(fvs.take(i as int), *table) is Ok,
                        view_select_item_seq(projection@) == spec_rows_projection_items(
                            fvs.take(i as int),
                            *table,
                        )->Ok_0,
                    decreases f.len() - i,
                {
                    proof {
                        lemma_rows_items_take_step(fvs, *table, i as int);
                        assert(fvs[i as int] == f@[i as int].deep_view());
                    }
                    let pair = &f[i];
                    match &pair.1 {
                        Field::Column { column } => {
                            match table.column_lookup(column.as_str()) {
                                Some(phys) => {
                                    let e = make_compound("_origin", phys.as_str());
                                    let item = make_value_object_item(e, pair.0.as_str());
                                    let ghost prev = projection@;
                                    projection.push(item);
                                    proof {
                                        lemma_view_select_item_seq(prev);
                                        lemma_view_select_item_seq(projection@);
                                        assert(view_select_item_seq(projection@)
                                            =~= view_select_item_seq(prev).push(
                                            view_select_item(item),
                                        ));
                                    }
                                },
                                None => {
                                    proof {
                                        lemma_rows_items_err_extends(fvs, *table, i + 1);
                                    }
                                    return Err(
                                        ServerError::BadRequest(
                                            "column should be in table".to_owned(),
                                        ),
                                    );
                                },
                            }
                        },
                        Field::Relationship => {
                            proof {
                                lemma_rows_items_err_extends(fvs, *table, i + 1);
                            }
                            return Err(
                                ServerError::BadRequest(
                                    "relationship fields are not supported".to_owned(),
                                ),
                            );
                        },
                    }
                    i += 1;
                }
                proof {
                    assert(fvs.take(i as int) =~= fvs);
                }
            }
        },
    }

    Ok(
        crate::sql::utils::get_sql_query(
            projection,
            rows_from,
            Some(filter_predicate),
            None,
            query.limit,
            query.offset,
        ),
    )
}

} // verus!
// The JSON-shaping assembler and the compiler entry point.

verus! {

/// The row-level query for a collection: the plain row builder for the
/// two information-schema collections, the synthesized join for the
/// foreign-key collection.
pub open spec fn spec_row_subquery(q: QueryV, t: SupportedTable) -> Result<SqlQueryV, ServerErrorV> {
    match t {
        SupportedTable::ForeignKeys => crate::sql::fkey::spec_get_fkey_query(q, t),
        _ => spec_get_rows_query(q, t),
    }
}

/// The rows layer of the envelope:
/// `SELECT COALESCE(json_agg(...), json_build_array()) AS "rows" FROM (R) AS "_rows"`.
/// Aggregation is over `to_json(_rows)`, or over `json_build_object()`
/// (an empty object per row) when no field was selected, and the
/// `COALESCE` fallback guarantees an empty array, never `NULL`, when no
/// row matches.
pub open spec fn spec_rows_json_subquery(q: QueryV, t: SupportedTable) -> Result<
    SqlQueryV,
    ServerErrorV,
> {
    match spec_row_subquery(q, t) {
        Err(e) => Err(e),
        Ok(inner) => Ok(
            SqlQueryV {
                projection: seq![
                    (SelectItemV::ExprWithAlias {
                        expr: spec_function_expression(
                            "COALESCE"@,
                            seq![
                                spec_function_expression(
                                    "json_agg"@,
                                    seq![
                                        if spec_fields_of(q).len() == 0 {
                                            spec_function_expression(
                                                "json_build_object"@,
                                                Seq::empty(),
                                            )
                                        } else {
                                            spec_function_expression(
                                                "to_json"@,
                                                seq![
                                                    SqlExprV::Identifier(
                                                        spec_quoted_ident("_rows"@),
                                                    ),
                                                ],
                                            )
                                        },
                                    ],
                                ),
                                spec_function_expression("json_build_array"@, Seq::empty()),
                            ],
                        ),
                        alias: spec_quoted_ident("rows"@),
                    }),
                ],
                from: seq![
                    (TableWithJoinsV {
                        relation: TableFactorV::Derived {
                            subquery: Box::new(inner),
                            alias: Some(TableAliasV { name: spec_quoted_ident("_rows"@) }),
                        },
                        joins: Seq::empty(),
                    }),
                ],
                selection: None,
                group_by: Seq::empty(),
                limit: None,
                offset: None,
            },
        ),
    }
}

/// The node layer of the envelope: the rows layer is wrapped as a scalar
/// subquery into a single-row query aliased `_wrapper`, which is in turn
/// aggregated into a one-element JSON array column `_node`.  A query
/// without a field selection is rejected.
pub open spec fn spec_get_node_subquery(q: QueryV, t: SupportedTable) -> Result<
    SqlQueryV,
    ServerErrorV,
> {
    match q.fields {
        None => Err(ServerErrorV::BadRequest("fields must be present"@)),
        Some(_) => match spec_rows_json_subquery(q, t) {
            Err(e) => Err(e),
            Ok(rows_layer) => Ok(
                SqlQueryV {
                    projection: seq![
                        (SelectItemV::ExprWithAlias {
                            expr: spec_function_expression(
                                "COALESCE"@,
                                seq![
                                    spec_function_expression(
                                        "json_agg"@,
                                        seq![
                                            spec_function_expression(
                                                "to_json"@,
                                                seq![
                                                    SqlExprV::Identifier(
                                                        spec_quoted_ident("_wrapper"@),
                                                    ),
                                                ],
                                            ),
                                        ],
                                    ),
                                    spec_function_expression("json_build_array"@, Seq::empty()),
                                ],
                            ),
                            alias: spec_quoted_ident("_node"@),
                        }),
                    ],
                    from: seq![
                        (TableWithJoinsV {
                            relation: TableFactorV::Derived {
                                subquery: Box::new(
                                    SqlQueryV {
                                        projection: seq![
                                            (SelectItemV::ExprWithAlias {
                                                expr: SqlExprV::Subquery(Box::new(rows_layer)),
                                                alias: spec_quoted_ident("rows"@),
                                            }),
                                        ],
                                        from: Seq::empty(),
                                        selection: None,
                                        group_by: Seq::empty(),
                                        limit: None,
                                        offset: None,
                                    },
                                ),
                                alias: Some(TableAliasV { name: spec_quoted_ident("_wrapper"@) }),
                            },
                            joins: Seq::empty(),
                        }),
                    ],
                    selection: None,
                    group_by: Seq::empty(),
                    limit: None,
                    offset: None,
                },
            ),
        },
    }
}

/// What the compiler returns for a whole request: the node-layer
/// statement for the three known collections, and an unknown-collection
/// error for every other name.
pub open spec fn spec_build_sql_query(req: crate::models::QueryRequestV) -> Result<
    crate::ast::StatementV,
    ServerErrorV,
> {
    if req.collection == "tables"@ || req.collection == "columns"@ || req.collection
        == "foreign_keys"@ {
        let t = if req.collection == "tables"@ {
            SupportedTable::Tables
        } else if req.collection == "columns"@ {
            SupportedTable::Columns
        } else {
            SupportedTable::ForeignKeys
        };
        match spec_get_node_subquery(req.query, t) {
            Err(e) => Err(e),
            Ok(node) => Ok(crate::ast::StatementV::Query(Box::new(node))),
        }
    } else {
        Err(ServerErrorV::BadRequest("unknown table"@))
    }
}

/// Builds the rows layer around the row-level query of the collection.
fn get_rows_json_subquery(query: &Query, table: &SupportedTable) -> (r: Result<
    Box<SqlQuery>,
    ServerError,
>)
    ensures
        res_view(r) == spec_rows_json_subquery(query.deep_view(), *table),
{
    let row_subquery = match table {
        SupportedTable::ForeignKeys => crate::sql::fkey::get_fkey_query(query, table),
        _ => get_rows_query(query, table),
    };
    let inner = match row_subquery {
        Ok(q) => q,
        Err(e) => {
            return Err(e);
        },
    };
    let empty_fields = match &query.fields {
        Some(f) => f.len() == 0,
        None => true,
    };
    let agg_arg = if empty_fields {
        crate::sql::utils::make_call0("json_build_object")
    } else {
        crate::sql::utils::make_call1(
            "to_json",
            SqlExpr::Identifier(get_sql_quoted_identifier("_rows")),
        )
    };
    let expr = crate::sql::utils::make_call2(
        "COALESCE",
        crate::sql::utils::make_call1("json_agg", agg_arg),
        crate::sql::utils::make_call0("json_build_array"),
    );
    let mut projection: Vec<SelectItem> = Vec::new();
    projection.push(SelectItem::ExprWithAlias { expr, alias: get_sql_quoted_identifier("rows") });
    let ghost inner_view = inner.deep_view();
    let mut from_v: Vec<TableWithJoins> = Vec::new();
    from_v.push(
        TableWithJoins {
            relation: TableFactor::Derived { subquery: inner, alias: Some(make_table_alias("_rows")) },
            joins: Vec::new(),
        },
    );
    proof {
        lemma_view_select_item_seq(projection@);
        assert(view_select_item_seq(projection@) =~= seq![view_select_item(projection@[0])]);
        lemma_view_table_with_joins_seq(from_v@);
        assert(crate::ast::view_join_seq(Seq::empty()) =~= Seq::<crate::ast::JoinV>::empty());
        assert(view_table_with_joins_seq(from_v@) =~= seq![view_table_with_joins(from_v@[0])]);
    }
    Ok(crate::sql::utils::get_sql_query(projection, from_v, None, None, None, None))
}

/// Builds the node-layer query of the protocol envelope for one request
/// against one collection.
pub fn get_node_subquery(query: &Query, collection: &SupportedTable) -> (r: Result<
    Box<SqlQuery>,
    ServerError,
>)
    ensures
        res_view(r) == spec_get_node_subquery(query.deep_view(), *collection),
{
    match &query.fields {
        None => {
            return Err(ServerError::BadRequest("fields must be present".to_owned()));
        },
        Some(_) => {},
    }
    let rows_layer = match get_rows_json_subquery(query, collection) {
        Ok(q) => q,
        Err(e) => {
            return Err(e);
        },
    };

    // The wrapper layer: a single-row, no-FROM query whose one column is
    // the rows layer as a scalar subquery.
    let ghost rows_layer_view = rows_layer.deep_view();
    let mut wrapper_projection: Vec<SelectItem> = Vec::new();
    wrapper_projection.push(
        SelectItem::ExprWithAlias {
            expr: SqlExpr::Subquery(rows_layer),
            alias: get_sql_quoted_identifier("rows"),
        },
    );
    proof {
        lemma_view_select_item_seq(wrapper_projection@);
        assert(view_select_item_seq(wrapper_projection@) =~= seq![
            view_select_item(wrapper_projection@[0]),
        ]);
        assert(view_table_with_joins_seq(Seq::empty()) =~= Seq::<TableWithJoinsV>::empty());
    }
    let wrapper_subquery = crate::sql::utils::get_sql_query(
        wrapper_projection,
        Vec::new(),
        None,
        None,
        None,
        None,
    );

    // The node layer.
    let node_expr = crate::sql::utils::make_call2(
        "COALESCE",
        crate::sql::utils::make_call1(
            "json_agg",
            crate::sql::utils::make_call1(
                "to_json",
                SqlExpr::Identifier(get_sql_quoted_identifier("_wrapper")),
            ),
        ),
        crate::sql::utils::make_call0("json_build_array"),
    );
    let mut node_projection: Vec<SelectItem> = Vec::new();
    node_projection.push(
        SelectItem::ExprWithAlias { expr: node_expr, alias: get_sql_quoted_identifier("_node") },
    );
    let mut node_from: Vec<TableWithJoins> = Vec::new();
    node_from.push(
        TableWithJoins {
            relation: TableFactor::Derived {
                subquery: wrapper_subquery,
                alias: Some(make_table_alias("_wrapper")),
            },
            joins: Vec::new(),
        },
    );
    proof {
        lemma_view_select_item_seq(node_projection@);
        assert(view_select_item_seq(node_projection@) =~= seq![
            view_select_item(node_projection@[0]),
        ]);
        lemma_view_table_with_joins_seq(node_from@);
        assert(crate::ast::view_join_seq(Seq::empty()) =~= Seq::<crate::ast::JoinV>::empty());
        assert(view_table_with_joins_seq(node_from@) =~= seq![view_table_with_joins(node_from@[0])]);
    }
    Ok(crate::sql::utils::get_sql_query(node_projection, node_from, None, None, None, None))
}

/// Compiles a whole query request into one SQL statement, or the error
/// that classifies why it cannot be served.
pub fn build_sql_query(request: &crate::models::QueryRequest) -> (r: Result<
    crate::ast::Statement,
    ServerError,
>)
    ensures
        res_view(r) == spec_build_sql_query(request.deep_view()),
{
    let collection = SupportedTable::from_str(request.collection.as_str());
    match collection {
        Ok(t) => match get_node_subquery(&request.query, &t) {
            Ok(q) => Ok(crate::ast::Statement::Query(q)),
            Err(e) => Err(e),
        },
        Err(_) => Err(ServerError::BadRequest("unknown table".to_owned())),
    }
}

} // verus!
