//! Tests of the foreign-key query builder: the lockstep unnesting of the
//! constraint column arrays, the per-field aggregation of the outer
//! query, and its grouping.

use cc_postgres::ast::{Ident, SelectItem, SqlBinaryOp, SqlExpr, SqlValue, TableFactor};
use cc_postgres::error::ServerError;
use cc_postgres::models::{
    BinaryComparisonOperator, ComparisonTarget, ComparisonValue, Expression, Field, Query,
    ScalarValue,
};
use cc_postgres::sql::fkey::{get_fkey_query, get_fkey_subquery};
use cc_postgres::sql::utils::get_equivalent_table_column;
use cc_postgres::tables::SupportedTable;

fn quoted(s: &str) -> Ident {
    Ident { value: s.to_owned(), quote: Some('"') }
}

fn bare(s: &str) -> Ident {
    Ident { value: s.to_owned(), quote: None }
}

fn column_ref(alias: &str, name: &str) -> SqlExpr {
    SqlExpr::CompoundIdentifier(vec![quoted(alias), quoted(name)])
}

fn bare_ref(alias: &str, name: &str) -> SqlExpr {
    SqlExpr::CompoundIdentifier(vec![bare(alias), bare(name)])
}

fn call(name: &str, args: Vec<SqlExpr>) -> SqlExpr {
    SqlExpr::Function { name: name.to_owned(), args, distinct: false }
}

fn query_with_fields(fields: Vec<(String, Field)>) -> Query {
    Query { fields: Some(fields), predicate: None, limit: None, offset: None }
}

fn name_field(alias: &str, column: &str) -> (String, Field) {
    (alias.to_owned(), Field::Column { column: column.to_owned() })
}

/// The outer projection item the builder emits for one field.
fn outer_item(alias: &str, inner: SqlExpr) -> SelectItem {
    SelectItem::ExprWithAlias {
        expr: call(
            "json_build_object",
            vec![SqlExpr::Value(SqlValue::SingleQuotedString("value".to_owned())), inner],
        ),
        alias: quoted(alias),
    }
}

#[test]
fn inner_subquery_unnests_both_key_arrays_in_one_projection() {
    let q = get_fkey_subquery();
    assert_eq!(q.projection.len(), 11);
    // The two unnest expansions stand side by side in the same projection
    // list, so the engine expands them in lockstep.
    assert_eq!(
        q.projection[9],
        SelectItem::ExprWithAlias {
            expr: call("unnest", vec![column_ref("r", "conkey")]),
            alias: quoted("column_id"),
        }
    );
    assert_eq!(
        q.projection[10],
        SelectItem::ExprWithAlias {
            expr: call("unnest", vec![column_ref("r", "confkey")]),
            alias: quoted("ref_column_id"),
        }
    );
}

#[test]
fn inner_subquery_projects_both_ends_of_the_constraint() {
    let q = get_fkey_subquery();
    let aliased = |a: &str, b: &str, alias: &str| SelectItem::ExprWithAlias {
        expr: column_ref(a, b),
        alias: quoted(alias),
    };
    assert_eq!(q.projection[0], aliased("ctn", "nspname", "schema_from"));
    assert_eq!(q.projection[1], aliased("ct", "relname", "table_name"));
    assert_eq!(q.projection[2], aliased("r", "conrelid", "table_id"));
    assert_eq!(q.projection[3], aliased("r", "conname", "fkey_name"));
    assert_eq!(q.projection[4], aliased("cftn", "nspname", "schema_to"));
    assert_eq!(q.projection[5], aliased("cft", "relname", "table_to"));
    assert_eq!(q.projection[6], aliased("r", "confrelid", "ref_table_id"));
    assert_eq!(q.projection[7], SelectItem::UnnamedExpr(column_ref("r", "confupdtype")));
    assert_eq!(q.projection[8], SelectItem::UnnamedExpr(column_ref("r", "confdeltype")));
}

#[test]
fn inner_subquery_joins_the_four_catalog_tables() {
    let q = get_fkey_subquery();
    assert_eq!(q.from.len(), 1);
    match &q.from[0].relation {
        TableFactor::Table { name, alias } => {
            assert_eq!(name, &vec![quoted("pg_constraint")]);
            assert_eq!(alias.as_ref().unwrap().name, quoted("r"));
        }
        other => panic!("expected pg_constraint, got {:?}", other),
    }
    let joins = &q.from[0].joins;
    assert_eq!(joins.len(), 4);
    let eq = |l: SqlExpr, r: SqlExpr| SqlExpr::BinaryOp {
        left: Box::new(l),
        op: SqlBinaryOp::Eq,
        right: Box::new(r),
    };
    assert_eq!(joins[0].on_condition, eq(bare_ref("r", "conrelid"), bare_ref("ct", "oid")));
    assert_eq!(joins[1].on_condition, eq(bare_ref("ct", "relnamespace"), bare_ref("ctn", "oid")));
    assert_eq!(joins[2].on_condition, eq(bare_ref("r", "confrelid"), bare_ref("cft", "oid")));
    assert_eq!(joins[3].on_condition, eq(bare_ref("cft", "relnamespace"), bare_ref("cftn", "oid")));
}

#[test]
fn inner_subquery_keeps_only_foreign_keys_of_user_namespaces() {
    let q = get_fkey_subquery();
    let squote = |s: &str| SqlExpr::Identifier(Ident { value: s.to_owned(), quote: Some('\'') });
    let nlike = |pattern: &str| SqlExpr::Like {
        negated: true,
        expr: Box::new(bare_ref("ctn", "nspname")),
        pattern: Box::new(squote(pattern)),
    };
    let expected = SqlExpr::BinaryOp {
        left: Box::new(SqlExpr::BinaryOp {
            left: Box::new(bare_ref("r", "contype")),
            op: SqlBinaryOp::Eq,
            right: Box::new(squote("f")),
        }),
        op: SqlBinaryOp::And,
        right: Box::new(SqlExpr::BinaryOp {
            left: Box::new(nlike("pg_%")),
            op: SqlBinaryOp::And,
            right: Box::new(nlike("hdb_%")),
        }),
    };
    assert_eq!(q.selection, Some(expected));
}

#[test]
fn column_mapping_aggregates_the_attribute_name_pairs() {
    let q = query_with_fields(vec![name_field("m", "column_mapping")]);
    let r = get_fkey_query(&q, &SupportedTable::ForeignKeys).unwrap();
    assert_eq!(
        r.projection,
        vec![outer_item(
            "m",
            call(
                "json_object_agg",
                vec![column_ref("ac", "attname"), column_ref("afc", "attname")]
            )
        )]
    );
}

#[test]
fn shared_fields_are_taken_with_min() {
    let q = query_with_fields(vec![
        name_field("st", "schema_to"),
        name_field("tt", "table_to"),
        name_field("u", "on_update"),
        name_field("d", "on_delete"),
    ]);
    let r = get_fkey_query(&q, &SupportedTable::ForeignKeys).unwrap();
    let min_of = |col: &str| call("min", vec![column_ref("q", col)]);
    assert_eq!(
        r.projection,
        vec![
            outer_item("st", min_of("schema_to")),
            outer_item("tt", min_of("table_to")),
            outer_item("u", min_of("confupdtype")),
            outer_item("d", min_of("confdeltype")),
        ]
    );
}

#[test]
fn group_keys_are_referenced_directly() {
    let q = query_with_fields(vec![
        name_field("sf", "schema_from"),
        name_field("tf", "table_from"),
        name_field("fk", "fkey_name"),
    ]);
    let r = get_fkey_query(&q, &SupportedTable::ForeignKeys).unwrap();
    assert_eq!(
        r.projection,
        vec![
            outer_item("sf", column_ref("q", "schema_from")),
            outer_item("tf", column_ref("q", "table_name")),
            outer_item("fk", column_ref("q", "fkey_name")),
        ]
    );
}

#[test]
fn outer_query_groups_by_constraint() {
    let q = query_with_fields(vec![name_field("m", "column_mapping")]);
    let r = get_fkey_query(&q, &SupportedTable::ForeignKeys).unwrap();
    assert_eq!(
        r.group_by,
        vec![
            bare_ref("q", "schema_from"),
            bare_ref("q", "table_name"),
            bare_ref("q", "fkey_name")
        ]
    );
}

#[test]
fn outer_query_joins_pg_attribute_for_both_sides() {
    let q = query_with_fields(vec![name_field("m", "column_mapping")]);
    let r = get_fkey_query(&q, &SupportedTable::ForeignKeys).unwrap();
    assert_eq!(r.from.len(), 1);
    match &r.from[0].relation {
        TableFactor::Derived { subquery, alias } => {
            assert_eq!(**subquery, *get_fkey_subquery());
            assert_eq!(alias.as_ref().unwrap().name, quoted("q"));
        }
        other => panic!("expected the inner subquery, got {:?}", other),
    }
    let joins = &r.from[0].joins;
    assert_eq!(joins.len(), 2);
    let eq = |l: SqlExpr, r: SqlExpr| SqlExpr::BinaryOp {
        left: Box::new(l),
        op: SqlBinaryOp::Eq,
        right: Box::new(r),
    };
    let and = |l: SqlExpr, r: SqlExpr| SqlExpr::BinaryOp {
        left: Box::new(l),
        op: SqlBinaryOp::And,
        right: Box::new(r),
    };
    assert_eq!(
        joins[0].on_condition,
        and(
            eq(bare_ref("q", "column_id"), bare_ref("ac", "attnum")),
            eq(bare_ref("q", "table_id"), bare_ref("ac", "attrelid"))
        )
    );
    assert_eq!(
        joins[1].on_condition,
        and(
            eq(bare_ref("q", "ref_column_id"), bare_ref("afc", "attnum")),
            eq(bare_ref("q", "ref_table_id"), bare_ref("afc", "attrelid"))
        )
    );
}

#[test]
fn fkey_predicate_is_anchored_to_the_outer_alias() {
    let mut q = query_with_fields(vec![name_field("m", "column_mapping")]);
    q.predicate = Some(Expression::BinaryComparisonOperator {
        column: ComparisonTarget::RootCollectionColumn { name: "schema_from".to_owned() },
        operator: BinaryComparisonOperator::Equal,
        value: ComparisonValue::Scalar {
            value: ScalarValue::Text { value: "public".to_owned() },
        },
    });
    let r = get_fkey_query(&q, &SupportedTable::ForeignKeys).unwrap();
    let expected = SqlExpr::BinaryOp {
        left: Box::new(column_ref("q", "schema_from")),
        op: SqlBinaryOp::Eq,
        right: Box::new(SqlExpr::Value(SqlValue::SingleQuotedString("public".to_owned()))),
    };
    assert_eq!(r.selection, Some(expected));
}

#[test]
fn fkey_limit_and_offset_pass_through() {
    let mut q = query_with_fields(vec![name_field("m", "column_mapping")]);
    q.limit = Some(3);
    q.offset = Some(9);
    let r = get_fkey_query(&q, &SupportedTable::ForeignKeys).unwrap();
    assert_eq!(r.limit, Some(3));
    assert_eq!(r.offset, Some(9));
}

#[test]
fn field_of_another_collection_is_an_internal_error() {
    let q = query_with_fields(vec![name_field("n", "table_name")]);
    assert_eq!(
        get_fkey_query(&q, &SupportedTable::Tables),
        Err(ServerError::Internal("unexpected foreign key field".to_owned()))
    );
}

#[test]
fn undeclared_fkey_field_is_rejected() {
    let q = query_with_fields(vec![name_field("n", "no_such_column")]);
    assert_eq!(
        get_fkey_query(&q, &SupportedTable::ForeignKeys),
        Err(ServerError::BadRequest("column should be in table".to_owned()))
    );
}

#[test]
fn equivalent_table_columns_for_fkey_fields() {
    assert_eq!(get_equivalent_table_column("schema_from"), "schema_from");
    assert_eq!(get_equivalent_table_column("table_from"), "table_name");
    assert_eq!(get_equivalent_table_column("fkey_name"), "fkey_name");
    assert_eq!(get_equivalent_table_column("schema_to"), "schema_to");
    assert_eq!(get_equivalent_table_column("table_to"), "table_to");
    assert_eq!(get_equivalent_table_column("on_update"), "confupdtype");
    assert_eq!(get_equivalent_table_column("on_delete"), "confdeltype");
}
