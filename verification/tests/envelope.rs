//! Tests of the JSON-shaping layers and the compiler entry point: the
//! nested envelope structure, the zero-row and zero-field guarantees,
//! and the worked end-to-end compilation example.

use cc_postgres::ast::{
    Ident, SelectItem, SqlExpr, SqlQuery, SqlValue, Statement, TableFactor,
};
use cc_postgres::error::ServerError;
use cc_postgres::models::{Field, Query, QueryRequest};
use cc_postgres::sql::{build_sql_query, get_node_subquery, get_rows_query};
use cc_postgres::tables::SupportedTable;

fn quoted(s: &str) -> Ident {
    Ident { value: s.to_owned(), quote: Some('"') }
}

fn call(name: &str, args: Vec<SqlExpr>) -> SqlExpr {
    SqlExpr::Function { name: name.to_owned(), args, distinct: false }
}

fn query_with_fields(fields: Vec<(String, Field)>) -> Query {
    Query { fields: Some(fields), predicate: None, limit: None, offset: None }
}

fn name_field(alias: &str, column: &str) -> (String, Field) {
    (alias.to_owned(), Field::Column { column: column.to_owned() })
}

/// Pulls the wrapper-layer query out of a node-layer query.
fn wrapper_of(node: &SqlQuery) -> &SqlQuery {
    match &node.from[0].relation {
        TableFactor::Derived { subquery, .. } => subquery,
        other => panic!("expected the wrapper subquery, got {:?}", other),
    }
}

/// Pulls the rows-layer query out of a wrapper-layer query.
fn rows_layer_of(wrapper: &SqlQuery) -> &SqlQuery {
    match &wrapper.projection[0] {
        SelectItem::ExprWithAlias { expr: SqlExpr::Subquery(q), .. } => q,
        other => panic!("expected the rows-layer subquery, got {:?}", other),
    }
}

#[test]
fn missing_fields_are_rejected() {
    let q = Query { fields: None, predicate: None, limit: None, offset: None };
    assert_eq!(
        get_node_subquery(&q, &SupportedTable::Tables),
        Err(ServerError::BadRequest("fields must be present".to_owned()))
    );
}

#[test]
fn unknown_collection_is_rejected() {
    let request = QueryRequest {
        collection: "widgets".to_owned(),
        query: query_with_fields(vec![name_field("n", "table_name")]),
    };
    assert_eq!(
        build_sql_query(&request),
        Err(ServerError::BadRequest("unknown table".to_owned()))
    );
}

#[test]
fn node_layer_always_yields_a_json_array() {
    let q = query_with_fields(vec![name_field("n", "table_name")]);
    let node = get_node_subquery(&q, &SupportedTable::Tables).unwrap();
    // SELECT COALESCE(json_agg(to_json("_wrapper")), json_build_array()) AS "_node"
    let expected = SelectItem::ExprWithAlias {
        expr: call(
            "COALESCE",
            vec![
                call(
                    "json_agg",
                    vec![call("to_json", vec![SqlExpr::Identifier(quoted("_wrapper"))])],
                ),
                call("json_build_array", vec![]),
            ],
        ),
        alias: quoted("_node"),
    };
    assert_eq!(node.projection, vec![expected]);
    assert_eq!(node.selection, None);
    assert_eq!(node.limit, None);
    assert_eq!(node.offset, None);
}

#[test]
fn wrapper_layer_is_a_single_row_without_from() {
    let q = query_with_fields(vec![name_field("n", "table_name")]);
    let node = get_node_subquery(&q, &SupportedTable::Tables).unwrap();
    let wrapper = wrapper_of(&node);
    assert!(wrapper.from.is_empty());
    assert_eq!(wrapper.projection.len(), 1);
    match &wrapper.projection[0] {
        SelectItem::ExprWithAlias { alias, .. } => assert_eq!(alias, &quoted("rows")),
        other => panic!("expected an aliased rows column, got {:?}", other),
    }
}

#[test]
fn rows_layer_falls_back_to_an_empty_array() {
    // With zero matching rows json_agg yields NULL; the COALESCE with
    // json_build_array() turns that into [], so the response is
    // [ { "rows": [] } ], never null.
    let q = query_with_fields(vec![name_field("n", "table_name")]);
    let node = get_node_subquery(&q, &SupportedTable::Tables).unwrap();
    let rows_layer = rows_layer_of(wrapper_of(&node));
    let expected = SelectItem::ExprWithAlias {
        expr: call(
            "COALESCE",
            vec![
                call(
                    "json_agg",
                    vec![call("to_json", vec![SqlExpr::Identifier(quoted("_rows"))])],
                ),
                call("json_build_array", vec![]),
            ],
        ),
        alias: quoted("rows"),
    };
    assert_eq!(rows_layer.projection, vec![expected]);
}

#[test]
fn zero_selected_fields_aggregate_empty_objects() {
    // Row count still reflects the filtered rows, but each row becomes
    // json_build_object(), an empty object, instead of to_json(_rows).
    let q = query_with_fields(vec![]);
    let node = get_node_subquery(&q, &SupportedTable::Tables).unwrap();
    let rows_layer = rows_layer_of(wrapper_of(&node));
    let expected = SelectItem::ExprWithAlias {
        expr: call(
            "COALESCE",
            vec![
                call("json_agg", vec![call("json_build_object", vec![])]),
                call("json_build_array", vec![]),
            ],
        ),
        alias: quoted("rows"),
    };
    assert_eq!(rows_layer.projection, vec![expected]);
    // The row-level query below still projects its single NULL column.
    match &rows_layer.from[0].relation {
        TableFactor::Derived { subquery, .. } => {
            assert_eq!(
                subquery.projection,
                vec![SelectItem::UnnamedExpr(SqlExpr::Value(SqlValue::Null))]
            );
        }
        other => panic!("expected the row query, got {:?}", other),
    }
}

#[test]
fn example_request_compiles_to_the_expected_statement() {
    // { collection: "tables",
    //   query: { fields: { "n": { type: "column", column: "table_name" } },
    //            limit: 1 } }
    let request = QueryRequest {
        collection: "tables".to_owned(),
        query: Query {
            fields: Some(vec![name_field("n", "table_name")]),
            predicate: None,
            limit: Some(1),
            offset: None,
        },
    };
    let statement = build_sql_query(&request).unwrap();
    let Statement::Query(node) = statement;

    // The node layer wraps the expected envelope around exactly the row
    // query the row builder produces for this request.
    let expected_node = get_node_subquery(&request.query, &SupportedTable::Tables).unwrap();
    assert_eq!(node, expected_node);

    // The innermost row query selects the aliased table_name column with
    // the schema guard and the verbatim limit; executed against one
    // non-system table public.widgets it returns
    // [ { "rows": [ { "n": "widgets" } ] } ].
    let row_query = match &rows_layer_of(wrapper_of(&node)).from[0].relation {
        TableFactor::Derived { subquery, .. } => subquery,
        other => panic!("expected the row query, got {:?}", other),
    };
    let expected_rows = get_rows_query(&request.query, &SupportedTable::Tables).unwrap();
    assert_eq!(**row_query, *expected_rows);
    assert_eq!(row_query.limit, Some(1));
    assert_eq!(
        row_query.projection,
        vec![SelectItem::ExprWithAlias {
            expr: call(
                "json_build_object",
                vec![
                    SqlExpr::Value(SqlValue::SingleQuotedString("value".to_owned())),
                    SqlExpr::CompoundIdentifier(vec![quoted("_origin"), quoted("table_name")]),
                ],
            ),
            alias: quoted("n"),
        }]
    );
}

#[test]
fn foreign_keys_requests_route_to_the_fkey_builder() {
    let q = query_with_fields(vec![name_field("m", "column_mapping")]);
    let request = QueryRequest { collection: "foreign_keys".to_owned(), query: q };
    let statement = build_sql_query(&request).unwrap();
    let Statement::Query(node) = statement;
    let row_query = match &rows_layer_of(wrapper_of(&node)).from[0].relation {
        TableFactor::Derived { subquery, .. } => subquery,
        other => panic!("expected the row query, got {:?}", other),
    };
    let expected = cc_postgres::sql::fkey::get_fkey_query(
        &request.query,
        &SupportedTable::ForeignKeys,
    )
    .unwrap();
    assert_eq!(**row_query, *expected);
}

#[test]
fn columns_requests_route_to_the_rows_builder() {
    let q = query_with_fields(vec![name_field("c", "column_name")]);
    let request = QueryRequest { collection: "columns".to_owned(), query: q };
    let statement = build_sql_query(&request).unwrap();
    let Statement::Query(node) = statement;
    let row_query = match &rows_layer_of(wrapper_of(&node)).from[0].relation {
        TableFactor::Derived { subquery, .. } => subquery,
        other => panic!("expected the row query, got {:?}", other),
    };
    let expected = get_rows_query(&request.query, &SupportedTable::Columns).unwrap();
    assert_eq!(**row_query, *expected);
}

#[test]
fn zero_field_requests_compile_end_to_end() {
    let request = QueryRequest {
        collection: "tables".to_owned(),
        query: query_with_fields(vec![]),
    };
    let statement = build_sql_query(&request).unwrap();
    let Statement::Query(node) = statement;
    let rows_layer = rows_layer_of(wrapper_of(&node));
    // One result-set of empty objects, and never a null rows column.
    match &rows_layer.projection[0] {
        SelectItem::ExprWithAlias { expr: SqlExpr::Function { name, .. }, alias } => {
            assert_eq!(name, "COALESCE");
            assert_eq!(alias, &quoted("rows"));
        }
        other => panic!("expected the COALESCE aggregation, got {:?}", other),
    }
}
