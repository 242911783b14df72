//! The foreign-key query builder: synthesizes the `foreign_keys` virtual
//! collection from the catalog tables.
//!
//! The inner subquery joins `pg_constraint` to `pg_class` and
//! `pg_namespace` twice (for the constrained and the referenced table)
//! and unnests `conkey` and `confkey` side by side in one projection
//! list, so that the engine expands them in lockstep: row *i* pairs the
//! *i*-th constrained column with the *i*-th referenced column.  The
//! outer query joins `pg_attribute` twice to resolve the column names and
//! groups by constraint, aggregating the pairs of a composite key into
//! one `json_object_agg` mapping.

use vstd::prelude::*;

use crate::ast::{
    lemma_view_join_seq, lemma_view_select_item_seq, lemma_view_table_with_joins_seq,
    view_join_seq, view_select_item, view_select_item_seq, view_table_factor,
    view_table_with_joins, view_table_with_joins_seq, Ident, Join, JoinV, SelectItem, SelectItemV,
    SqlBinaryOp, SqlExpr, SqlExprV, SqlQuery, SqlQueryV, SqlValue, SqlValueV, TableAliasV,
    TableFactor, TableFactorV, TableWithJoins, TableWithJoinsV,
};
use crate::error::{res_view, ServerError, ServerErrorV};
use crate::models::{Field, FieldV, Query, QueryV};
use crate::sql::predicate_builder::{get_predicate_expression, spec_predicate_expression};
use crate::sql::utils::{
    get_equivalent_table_column, get_sql_and_expression, get_sql_eq_expression, get_sql_like_expr,
    get_sql_quoted_identifier, make_bare_compound, make_call1, make_call2, make_compound,
    make_table_alias, make_value_object_item, spec_bare_compound, spec_binary_op,
    spec_compound, spec_equivalent_table_column, spec_function_expression, spec_like_expr,
    spec_quoted_ident, spec_single_quoted_ident,
};
use crate::sql::{spec_fields_of, spec_null_item};
use crate::strutil::str_eq;
use crate::tables::SupportedTable;

verus! {

/// A projection item `"a"."b" AS "alias"`.
pub open spec fn spec_aliased_compound_item(a: Seq<char>, b: Seq<char>, alias: Seq<char>) -> SelectItemV {
    SelectItemV::ExprWithAlias { expr: spec_compound(a, b), alias: spec_quoted_ident(alias) }
}

/// A named physical table with a double-quoted alias.
pub open spec fn spec_named_table(name: Seq<char>, alias: Seq<char>) -> TableFactorV {
    TableFactorV::Table {
        name: seq![spec_quoted_ident(name)],
        alias: Some(TableAliasV { name: spec_quoted_ident(alias) }),
    }
}

/// An equality of two bare compound identifiers, as join conditions use.
pub open spec fn spec_eq_bare(a1: Seq<char>, b1: Seq<char>, a2: Seq<char>, b2: Seq<char>) -> SqlExprV {
    spec_binary_op(spec_bare_compound(a1, b1), SqlBinaryOp::Eq, spec_bare_compound(a2, b2))
}

/// The projection of the inner subquery: the constraint's schema, table
/// and name on both sides, its update/delete actions, and the two
/// lockstep `unnest` expansions of `conkey` and `confkey`.
pub open spec fn spec_fkey_inner_projection() -> Seq<SelectItemV> {
    seq![
        spec_aliased_compound_item("ctn"@, "nspname"@, "schema_from"@),
        spec_aliased_compound_item("ct"@, "relname"@, "table_name"@),
        spec_aliased_compound_item("r"@, "conrelid"@, "table_id"@),
        spec_aliased_compound_item("r"@, "conname"@, "fkey_name"@),
        spec_aliased_compound_item("cftn"@, "nspname"@, "schema_to"@),
        spec_aliased_compound_item("cft"@, "relname"@, "table_to"@),
        spec_aliased_compound_item("r"@, "confrelid"@, "ref_table_id"@),
        SelectItemV::UnnamedExpr(spec_compound("r"@, "confupdtype"@)),
        SelectItemV::UnnamedExpr(spec_compound("r"@, "confdeltype"@)),
        SelectItemV::ExprWithAlias {
            expr: spec_function_expression("unnest"@, seq![spec_compound("r"@, "conkey"@)]),
            alias: spec_quoted_ident("column_id"@),
        },
        SelectItemV::ExprWithAlias {
            expr: spec_function_expression("unnest"@, seq![spec_compound("r"@, "confkey"@)]),
            alias: spec_quoted_ident("ref_column_id"@),
        },
    ]
}

/// The `FROM` clause of the inner subquery: `pg_constraint` joined to the
/// catalog tables resolving both ends of the constraint.
pub open spec fn spec_fkey_inner_from() -> Seq<TableWithJoinsV> {
    seq![
        TableWithJoinsV {
            relation: spec_named_table("pg_constraint"@, "r"@),
            joins: seq![
                (JoinV {
                    relation: spec_named_table("pg_class"@, "ct"@),
                    on_condition: spec_eq_bare("r"@, "conrelid"@, "ct"@, "oid"@),
                }),
                (JoinV {
                    relation: spec_named_table("pg_namespace"@, "ctn"@),
                    on_condition: spec_eq_bare("ct"@, "relnamespace"@, "ctn"@, "oid"@),
                }),
                (JoinV {
                    relation: spec_named_table("pg_class"@, "cft"@),
                    on_condition: spec_eq_bare("r"@, "confrelid"@, "cft"@, "oid"@),
                }),
                (JoinV {
                    relation: spec_named_table("pg_namespace"@, "cftn"@),
                    on_condition: spec_eq_bare("cft"@, "relnamespace"@, "cftn"@, "oid"@),
                }),
            ],
        },
    ]
}

/// The filter of the inner subquery: only foreign-key constraints, and
/// none of the `pg_%` or `hdb_%` namespaces.
pub open spec fn spec_fkey_inner_predicate() -> SqlExprV {
    spec_binary_op(
        spec_binary_op(
            spec_bare_compound("r"@, "contype"@),
            SqlBinaryOp::Eq,
            SqlExprV::Identifier(spec_single_quoted_ident("f"@)),
        ),
        SqlBinaryOp::And,
        spec_binary_op(
            spec_like_expr(
                spec_bare_compound("ctn"@, "nspname"@),
                SqlExprV::Identifier(spec_single_quoted_ident("pg_%"@)),
                true,
            ),
            SqlBinaryOp::And,
            spec_like_expr(
                spec_bare_compound("ctn"@, "nspname"@),
                SqlExprV::Identifier(spec_single_quoted_ident("hdb_%"@)),
                true,
            ),
        ),
    )
}

/// The whole inner subquery.
pub open spec fn spec_fkey_inner_query() -> SqlQueryV {
    SqlQueryV {
        projection: spec_fkey_inner_projection(),
        from: spec_fkey_inner_from(),
        selection: Some(spec_fkey_inner_predicate()),
        group_by: Seq::empty(),
        limit: None,
        offset: None,
    }
}

/// The expression of the outer projection for one logical foreign-key
/// field: `column_mapping` aggregates the column-name pairs; the fields
/// shared by all rows of a constraint are taken with `min`; the group-by
/// keys are referenced directly.
pub open spec fn spec_fkey_field_expr(column: Seq<char>) -> Result<SqlExprV, ServerErrorV> {
    if column == "column_mapping"@ {
        Ok(
            spec_function_expression(
                "json_object_agg"@,
                seq![spec_compound("ac"@, "attname"@), spec_compound("afc"@, "attname"@)],
            ),
        )
    } else if column == "schema_to"@ || column == "table_to"@ || column == "on_update"@ || column
        == "on_delete"@ {
        Ok(
            spec_function_expression(
                "min"@,
                seq![spec_compound("q"@, spec_equivalent_table_column(column))],
            ),
        )
    } else if column == "schema_from"@ || column == "table_from"@ || column == "fkey_name"@ {
        Ok(spec_compound("q"@, spec_equivalent_table_column(column)))
    } else {
        Err(ServerErrorV::Internal("unexpected foreign key field"@))
    }
}

/// The compilation of one requested field of the foreign-key query.
pub open spec fn spec_fkey_field(f: (Seq<char>, FieldV), t: SupportedTable) -> Result<
    SelectItemV,
    ServerErrorV,
> {
    match f.1 {
        FieldV::Column { column } => {
            if t.spec_has_column(column) {
                match spec_fkey_field_expr(column) {
                    Err(e) => Err(e),
                    Ok(inner) => Ok(
                        SelectItemV::ExprWithAlias {
                            expr: spec_function_expression(
                                "json_build_object"@,
                                seq![
                                    SqlExprV::Value(SqlValueV::SingleQuotedString("value"@)),
                                    inner,
                                ],
                            ),
                            alias: spec_quoted_ident(f.0),
                        },
                    ),
                }
            } else {
                Err(ServerErrorV::BadRequest("column should be in table"@))
            }
        },
        FieldV::Relationship => Err(
            ServerErrorV::BadRequest("relationship fields are not supported"@),
        ),
    }
}

/// The compilation of the requested field list, left to right; the first
/// field that fails decides the error.
pub open spec fn spec_fkey_projection_items(
    fields: Seq<(Seq<char>, FieldV)>,
    t: SupportedTable,
) -> Result<Seq<SelectItemV>, ServerErrorV>
    decreases fields.len(),
{
    if fields.len() == 0 {
        Ok(Seq::empty())
    } else {
        match spec_fkey_projection_items(fields.drop_last(), t) {
            Err(e) => Err(e),
            Ok(xs) => match spec_fkey_field(fields.last(), t) {
                Err(e) => Err(e),
                Ok(x) => Ok(xs.push(x)),
            },
        }
    }
}

/// The whole outer projection: one `NULL` column when no field is
/// selected, and otherwise one wrapped column per field.
pub open spec fn spec_fkey_projection(fields: Seq<(Seq<char>, FieldV)>, t: SupportedTable) -> Result<
    Seq<SelectItemV>,
    ServerErrorV,
> {
    if fields.len() == 0 {
        Ok(seq![spec_null_item()])
    } else {
        spec_fkey_projection_items(fields, t)
    }
}

/// The `FROM` clause of the outer query: the inner subquery as `q`,
/// joined twice to `pg_attribute` to resolve the constrained (`ac`) and
/// the referenced (`afc`) column names.
pub open spec fn spec_fkey_outer_from() -> Seq<TableWithJoinsV> {
    seq![
        TableWithJoinsV {
            relation: TableFactorV::Derived {
                subquery: Box::new(spec_fkey_inner_query()),
                alias: Some(TableAliasV { name: spec_quoted_ident("q"@) }),
            },
            joins: seq![
                (JoinV {
                    relation: spec_named_table("pg_attribute"@, "ac"@),
                    on_condition: spec_binary_op(
                        spec_eq_bare("q"@, "column_id"@, "ac"@, "attnum"@),
                        SqlBinaryOp::And,
                        spec_eq_bare("q"@, "table_id"@, "ac"@, "attrelid"@),
                    ),
                }),
                (JoinV {
                    relation: spec_named_table("pg_attribute"@, "afc"@),
                    on_condition: spec_binary_op(
                        spec_eq_bare("q"@, "ref_column_id"@, "afc"@, "attnum"@),
                        SqlBinaryOp::And,
                        spec_eq_bare("q"@, "ref_table_id"@, "afc"@, "attrelid"@),
                    ),
                }),
            ],
        },
    ]
}

/// The grouping of the outer query: one row per constraint.
pub open spec fn spec_fkey_group_by() -> Seq<SqlExprV> {
    seq![
        spec_bare_compound("q"@, "schema_from"@),
        spec_bare_compound("q"@, "table_name"@),
        spec_bare_compound("q"@, "fkey_name"@),
    ]
}

/// What the foreign-key query builder returns: the grouped, aggregated
/// outer query over the inner lockstep-unnest subquery.  The fields are
/// compiled first, then the caller's predicate (anchored to `q`), and
/// the first failure decides the error.
pub open spec fn spec_get_fkey_query(q: QueryV, t: SupportedTable) -> Result<
    SqlQueryV,
    ServerErrorV,
> {
    match spec_fkey_projection(spec_fields_of(q), t) {
        Err(e) => Err(e),
        Ok(proj) => match (match q.predicate {
            Some(p) => match spec_predicate_expression(p, "q"@) {
                Err(e) => Err(e),
                Ok(cp) => Ok(Some(cp)),
            },
            None => Ok(None),
        }) {
            Err(e) => Err::<SqlQueryV, ServerErrorV>(e),
            Ok(sel) => Ok(
                SqlQueryV {
                    projection: proj,
                    from: spec_fkey_outer_from(),
                    selection: sel,
                    group_by: spec_fkey_group_by(),
                    limit: q.limit,
                    offset: q.offset,
                },
            ),
        },
    }
}

/// One step of `spec_fkey_projection_items`.
proof fn lemma_fkey_items_take_step(fields: Seq<(Seq<char>, FieldV)>, t: SupportedTable, i: int)
    requires
        0 <= i < fields.len(),
    ensures
        spec_fkey_projection_items(fields.take(i + 1), t) == (match spec_fkey_projection_items(
            fields.take(i),
            t,
        ) {
            Err(e) => Err::<Seq<SelectItemV>, ServerErrorV>(e),
            Ok(xs) => match spec_fkey_field(fields[i], t) {
                Err(e) => Err(e),
                Ok(x) => Ok(xs.push(x)),
            },
        }),
{
    assert(fields.take(i + 1).drop_last() =~= fields.take(i));
    assert(fields.take(i + 1).last() == fields[i]);
}

/// A failed prefix of the field list decides the whole projection.
proof fn lemma_fkey_items_err_extends(fields: Seq<(Seq<char>, FieldV)>, t: SupportedTable, i: int)
    requires
        0 <= i <= fields.len(),
        spec_fkey_projection_items(fields.take(i), t) is Err,
    ensures
        spec_fkey_projection_items(fields, t) == spec_fkey_projection_items(fields.take(i), t),
    decreases fields.len() - i,
{
    if i == fields.len() {
        assert(fields.take(i) =~= fields);
    } else {
        lemma_fkey_items_take_step(fields, t, i);
        lemma_fkey_items_err_extends(fields, t, i + 1);
    }
}

/// Builds `"a"."b" AS "alias"`.
fn make_aliased_item(a: &str, b: &str, alias: &str) -> (r: SelectItem)
    ensures
        r.deep_view() == spec_aliased_compound_item(a@, b@, alias@),
{
    SelectItem::ExprWithAlias {
        expr: make_compound(a, b),
        alias: get_sql_quoted_identifier(alias),
    }
}

/// Builds a named physical table with a double-quoted alias.
fn make_named_table(name: &str, alias: &str) -> (r: TableFactor)
    ensures
        view_table_factor(r) == spec_named_table(name@, alias@),
{
    let mut ids: Vec<Ident> = Vec::new();
    ids.push(get_sql_quoted_identifier(name));
    let r = TableFactor::Table { name: ids, alias: Some(make_table_alias(alias)) };
    proof {
        assert(ids.deep_view() =~= seq![spec_quoted_ident(name@)]);
    }
    r
}

/// Builds the equality of two bare compound identifiers.
fn make_eq_bare(a1: &str, b1: &str, a2: &str, b2: &str) -> (r: SqlExpr)
    ensures
        r.deep_view() == spec_eq_bare(a1@, b1@, a2@, b2@),
{
    get_sql_eq_expression(make_bare_compound(a1, b1), make_bare_compound(a2, b2))
}

/// Builds a single-quoted identifier expression, which renders as a
/// string literal inside these predicates.
fn make_squote_ident(s: &str) -> (r: SqlExpr)
    ensures
        r.deep_view() == SqlExprV::Identifier(spec_single_quoted_ident(s@)),
{
    SqlExpr::Identifier(Ident { value: s.to_owned(), quote: Some('\'') })
}


/// Builds the projection of the inner subquery.
#[verifier::rlimit(40)]
fn make_fkey_inner_projection() -> (r: Vec<SelectItem>)
    ensures
        view_select_item_seq(r@) == spec_fkey_inner_projection(),
{
    let mut rows_projection: Vec<SelectItem> = Vec::new();
    rows_projection.push(make_aliased_item("ctn", "nspname", "schema_from"));
    rows_projection.push(make_aliased_item("ct", "relname", "table_name"));
    rows_projection.push(make_aliased_item("r", "conrelid", "table_id"));
    rows_projection.push(make_aliased_item("r", "conname", "fkey_name"));
    rows_projection.push(make_aliased_item("cftn", "nspname", "schema_to"));
    rows_projection.push(make_aliased_item("cft", "relname", "table_to"));
    rows_projection.push(make_aliased_item("r", "confrelid", "ref_table_id"));
    rows_projection.push(SelectItem::UnnamedExpr(make_compound("r", "confupdtype")));
    rows_projection.push(SelectItem::UnnamedExpr(make_compound("r", "confdeltype")));
    rows_projection.push(
        SelectItem::ExprWithAlias {
            expr: make_call1("unnest", make_compound("r", "conkey")),
            alias: get_sql_quoted_identifier("column_id"),
        },
    );
    rows_projection.push(
        SelectItem::ExprWithAlias {
            expr: make_call1("unnest", make_compound("r", "confkey")),
            alias: get_sql_quoted_identifier("ref_column_id"),
        },
    );
    proof {
        lemma_view_select_item_seq(rows_projection@);
        let pv = view_select_item_seq(rows_projection@);
        let sv = spec_fkey_inner_projection();
        assert(pv[0] == sv[0]);
        assert(pv[1] == sv[1]);
        assert(pv[2] == sv[2]);
        assert(pv[3] == sv[3]);
        assert(pv[4] == sv[4]);
        assert(pv[5] == sv[5]);
        assert(pv[6] == sv[6]);
        assert(pv[7] == sv[7]);
        assert(pv[8] == sv[8]);
        assert(pv[9] == sv[9]);
        assert(pv[10] == sv[10]);
        assert(pv =~= sv);
    }
    rows_projection
}

/// Builds the `FROM` clause of the inner subquery.
#[verifier::rlimit(40)]
fn make_fkey_inner_from() -> (r: Vec<TableWithJoins>)
    ensures
        view_table_with_joins_seq(r@) == spec_fkey_inner_from(),
{
    let mut joins: Vec<Join> = Vec::new();
    joins.push(
        Join {
            relation: make_named_table("pg_class", "ct"),
            on_condition: make_eq_bare("r", "conrelid", "ct", "oid"),
        },
    );
    joins.push(
        Join {
            relation: make_named_table("pg_namespace", "ctn"),
            on_condition: make_eq_bare("ct", "relnamespace", "ctn", "oid"),
        },
    );
    joins.push(
        Join {
            relation: make_named_table("pg_class", "cft"),
            on_condition: make_eq_bare("r", "confrelid", "cft", "oid"),
        },
    );
    joins.push(
        Join {
            relation: make_named_table("pg_namespace", "cftn"),
            on_condition: make_eq_bare("cft", "relnamespace", "cftn", "oid"),
        },
    );
    let base = make_named_table("pg_constraint", "r");
    let ghost joins_view = view_join_seq(joins@);
    proof {
        lemma_view_join_seq(joins@);
        let jv = spec_fkey_inner_from()[0].joins;
        assert(joins_view[0] == jv[0]);
        assert(joins_view[1] == jv[1]);
        assert(joins_view[2] == jv[2]);
        assert(joins_view[3] == jv[3]);
        assert(joins_view =~= jv);
    }
    let mut rows_from: Vec<TableWithJoins> = Vec::new();
    rows_from.push(TableWithJoins { relation: base, joins });
    proof {
        lemma_view_table_with_joins_seq(rows_from@);
        assert(view_table_with_joins(rows_from@[0]) == spec_fkey_inner_from()[0]);
        assert(view_table_with_joins_seq(rows_from@) =~= spec_fkey_inner_from());
    }
    rows_from
}

/// Builds the filter of the inner subquery.
fn make_fkey_inner_predicate() -> (r: SqlExpr)
    ensures
        r.deep_view() == spec_fkey_inner_predicate(),
{
    get_sql_and_expression(
        get_sql_eq_expression(make_bare_compound("r", "contype"), make_squote_ident("f")),
        get_sql_and_expression(
            get_sql_like_expr(
                make_bare_compound("ctn", "nspname"),
                make_squote_ident("pg_%"),
                true,
            ),
            get_sql_like_expr(
                make_bare_compound("ctn", "nspname"),
                make_squote_ident("hdb_%"),
                true,
            ),
        ),
    )
}

/// Builds the inner subquery of the foreign-key relation: one row per
/// column pair of each foreign-key constraint, with `conkey` and
/// `confkey` unnested in lockstep.
pub fn get_fkey_subquery() -> (r: Box<SqlQuery>)
    ensures
        r.deep_view() == spec_fkey_inner_query(),
{
    let rows_projection = make_fkey_inner_projection();
    let rows_from = make_fkey_inner_from();
    let predicate = make_fkey_inner_predicate();
    crate::sql::utils::get_sql_query(rows_projection, rows_from, Some(predicate), None, None, None)
}

/// Compiles the requested field list of the foreign-key query into the
/// outer projection items, left to right.
#[verifier::loop_isolation(false)]
fn build_fkey_projection(f: &Vec<(String, Field)>, table: &SupportedTable) -> (r: Result<
    Vec<SelectItem>,
    ServerError,
>)
    ensures
        r matches Ok(v) ==> spec_fkey_projection_items(f.deep_view(), *table) == Ok::<
            Seq<SelectItemV>,
            ServerErrorV,
        >(view_select_item_seq(v@)),
        r matches Err(e) ==> spec_fkey_projection_items(f.deep_view(), *table) == Err::<
            Seq<SelectItemV>,
            ServerErrorV,
        >(e.deep_view()),
{
    let ghost fvs = f.deep_view();
    let mut projection: Vec<SelectItem> = Vec::new();
    let mut i: usize = 0;
    while i < f.len()
        invariant
            0 <= i <= fvs.len(),
            spec_fkey_projection_items(fvs.take(i as int), *table) is Ok,
            view_select_item_seq(projection@) == spec_fkey_projection_items(
                fvs.take(i as int),
                *table,
            )->Ok_0,
        decreases f.len() - i,
    {
        proof {
            lemma_fkey_items_take_step(fvs, *table, i as int);
            assert(fvs[i as int] == f@[i as int].deep_view());
        }
        let pair = &f[i];
        match &pair.1 {
            Field::Column { column } => {
                match table.column_lookup(column.as_str()) {
                    Some(_phys) => {
                        let inner: SqlExpr = if str_eq(column.as_str(), "column_mapping") {
                            make_call2(
                                "json_object_agg",
                                make_compound("ac", "attname"),
                                make_compound("afc", "attname"),
                            )
                        } else if str_eq(column.as_str(), "schema_to")
                            || str_eq(column.as_str(), "table_to")
                            || str_eq(column.as_str(), "on_update")
                            || str_eq(column.as_str(), "on_delete") {
                            make_call1(
                                "min",
                                make_compound("q", get_equivalent_table_column(column.as_str())),
                            )
                        } else if str_eq(column.as_str(), "schema_from")
                            || str_eq(column.as_str(), "table_from")
                            || str_eq(column.as_str(), "fkey_name") {
                            make_compound("q", get_equivalent_table_column(column.as_str()))
                        } else {
                            proof {
                                lemma_fkey_items_err_extends(fvs, *table, i + 1);
                            }
                            return Err(
                                ServerError::Internal("unexpected foreign key field".to_owned()),
                            );
                        };
                        let item = make_value_object_item(inner, pair.0.as_str());
                        let ghost prev = projection@;
                        projection.push(item);
                        proof {
                            lemma_view_select_item_seq(prev);
                            lemma_view_select_item_seq(projection@);
                            assert(view_select_item_seq(projection@) =~= view_select_item_seq(
                                prev,
                            ).push(view_select_item(item)));
                        }
                    },
                    None => {
                        proof {
                            lemma_fkey_items_err_extends(fvs, *table, i + 1);
                        }
                        return Err(
                            ServerError::BadRequest("column should be in table".to_owned()),
                        );
                    },
                }
            },
            Field::Relationship => {
                proof {
                    lemma_fkey_items_err_extends(fvs, *table, i + 1);
                }
                return Err(
                    ServerError::BadRequest("relationship fields are not supported".to_owned()),
                );
            },
        }
        i += 1;
    }
    proof {
        assert(fvs.take(i as int) =~= fvs);
    }
    Ok(projection)
}

/// Builds the grouped, aggregated foreign-key query for the requested
/// fields, filtered by the caller's predicate anchored to `q`.
#[verifier::rlimit(40)]
pub fn get_fkey_query(query: &Query, table: &SupportedTable) -> (r: Result<
    Box<SqlQuery>,
    ServerError,
>)
    ensures
        res_view(r) == spec_get_fkey_query(query.deep_view(), *table),
{
    let ghost q = query.deep_view();
    let ghost fvs = spec_fields_of(q);

    // The projection: one aggregated column per requested field, or a
    // single NULL column when no field is requested.
    let mut projection: Vec<SelectItem> = Vec::new();
    match &query.fields {
        None => {
            projection.push(SelectItem::UnnamedExpr(SqlExpr::Value(SqlValue::Null)));
            proof {
                lemma_view_select_item_seq(projection@);
                assert(view_select_item_seq(projection@) =~= seq![spec_null_item()]);
            }
        },
        Some(f) => {
            if f.len() == 0 {
                projection.push(SelectItem::UnnamedExpr(SqlExpr::Value(SqlValue::Null)));
                proof {
                    lemma_view_select_item_seq(projection@);
                    assert(view_select_item_seq(projection@) =~= seq![spec_null_item()]);
                }
            } else {
                match build_fkey_projection(f, table) {
                    Ok(v) => {
                        projection = v;
                    },
                    Err(e) => {
                        return Err(e);
                    },
                }
            }
        },
    }

    // FROM (inner subquery) AS "q", joined twice to pg_attribute.
    let fkey_subquery = get_fkey_subquery();
    let mut joins: Vec<Join> = Vec::new();
    joins.push(
        Join {
            relation: make_named_table("pg_attribute", "ac"),
            on_condition: get_sql_and_expression(
                make_eq_bare("q", "column_id", "ac", "attnum"),
                make_eq_bare("q", "table_id", "ac", "attrelid"),
            ),
        },
    );
    joins.push(
        Join {
            relation: make_named_table("pg_attribute", "afc"),
            on_condition: get_sql_and_expression(
                make_eq_bare("q", "ref_column_id", "afc", "attnum"),
                make_eq_bare("q", "ref_table_id", "afc", "attrelid"),
            ),
        },
    );
    let ghost joins_view = view_join_seq(joins@);
    proof {
        lemma_view_join_seq(joins@);
        let jv = spec_fkey_outer_from()[0].joins;
        assert(joins_view[0] == jv[0]);
        assert(joins_view[1] == jv[1]);
        assert(joins_view =~= jv);
    }
    let relation = TableFactor::Derived {
        subquery: fkey_subquery,
        alias: Some(make_table_alias("q")),
    };
    proof {
        assert(view_table_factor(relation) == spec_fkey_outer_from()[0].relation);
    }
    let mut rows_from: Vec<TableWithJoins> = Vec::new();
    rows_from.push(TableWithJoins { relation, joins });
    proof {
        lemma_view_table_with_joins_seq(rows_from@);
        assert(view_table_with_joins(rows_from@[0]) == spec_fkey_outer_from()[0]);
        assert(view_table_with_joins_seq(rows_from@) =~= spec_fkey_outer_from());
    }

    // The caller's predicate, compiled against the outer alias.
    let predicate: Option<SqlExpr> = match &query.predicate {
        Some(p) => match get_predicate_expression(p, "q") {
            Ok(cp) => Some(cp),
            Err(e) => {
                return Err(e);
            },
        },
        None => None,
    };

    // GROUP BY q.schema_from, q.table_name, q.fkey_name
    let mut group_by: Vec<SqlExpr> = Vec::new();
    group_by.push(make_bare_compound("q", "schema_from"));
    group_by.push(make_bare_compound("q", "table_name"));
    group_by.push(make_bare_compound("q", "fkey_name"));
    proof {
        crate::ast::lemma_view_sql_expr_seq(group_by@);
        assert(crate::ast::view_sql_expr_seq(group_by@) =~= spec_fkey_group_by());
    }

    Ok(
        crate::sql::utils::get_sql_query(
            projection,
            rows_from,
            predicate,
            Some(group_by),
            query.limit,
            query.offset,
        ),
    )
}

} // verus!
