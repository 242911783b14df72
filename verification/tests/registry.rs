//! Tests of the collection registry and the configuration helpers.

use cc_postgres::configuration::get_configuration;
use cc_postgres::error::ServerError;
use cc_postgres::strutil::parse_u32;
use cc_postgres::tables::{ParseSupportedTableErr, SupportedTable};

#[test]
fn resolve_known_collections() {
    assert_eq!(SupportedTable::from_str("tables"), Ok(SupportedTable::Tables));
    assert_eq!(SupportedTable::from_str("columns"), Ok(SupportedTable::Columns));
    assert_eq!(SupportedTable::from_str("foreign_keys"), Ok(SupportedTable::ForeignKeys));
}

#[test]
fn resolve_unknown_collections() {
    assert_eq!(SupportedTable::from_str(""), Err(ParseSupportedTableErr));
    assert_eq!(SupportedTable::from_str("widgets"), Err(ParseSupportedTableErr));
    assert_eq!(SupportedTable::from_str("Tables"), Err(ParseSupportedTableErr));
    assert_eq!(SupportedTable::from_str("tables "), Err(ParseSupportedTableErr));
    assert_eq!(SupportedTable::from_str("foreign keys"), Err(ParseSupportedTableErr));
}

#[test]
fn table_names_round_trip() {
    for t in [SupportedTable::Tables, SupportedTable::Columns, SupportedTable::ForeignKeys] {
        let name = t.to_string();
        assert_eq!(t.get_table_name(), name);
        assert_eq!(SupportedTable::from_str(name.as_str()), Ok(t));
    }
}

#[test]
fn schema_name_is_information_schema() {
    assert_eq!(SupportedTable::Tables.get_schema_name(), "information_schema");
    assert_eq!(SupportedTable::ForeignKeys.get_schema_name(), "information_schema");
}

#[test]
fn columns_of_each_collection() {
    let names = |t: SupportedTable| -> Vec<String> {
        t.get_columns().into_iter().map(|c| c.name).collect()
    };
    assert_eq!(names(SupportedTable::Tables), vec!["table_name", "table_schema"]);
    assert_eq!(
        names(SupportedTable::Columns),
        vec!["table_name", "table_schema", "column_name", "data_type"]
    );
    assert_eq!(
        names(SupportedTable::ForeignKeys),
        vec![
            "schema_from",
            "table_from",
            "column_mapping",
            "schema_to",
            "table_to",
            "fkey_name",
            "on_update",
            "on_delete"
        ]
    );
    for c in SupportedTable::ForeignKeys.get_columns() {
        assert_eq!(c.column_type, "String");
    }
}

#[test]
fn table_info_combines_the_parts() {
    let info = SupportedTable::Columns.get_table_info();
    assert_eq!(info.schema_name, "information_schema");
    assert_eq!(info.table_name, "columns");
    assert_eq!(info.columns, SupportedTable::Columns.get_columns());
}

#[test]
fn column_lookup_finds_declared_columns() {
    assert_eq!(
        SupportedTable::Tables.column_lookup("table_schema"),
        Some("table_schema".to_owned())
    );
    assert_eq!(SupportedTable::Tables.column_lookup("column_name"), None);
    assert_eq!(
        SupportedTable::ForeignKeys.column_lookup("column_mapping"),
        Some("column_mapping".to_owned())
    );
    assert_eq!(SupportedTable::ForeignKeys.column_lookup("nope"), None);
}

#[test]
fn parse_u32_accepts_exactly_digit_strings() {
    assert_eq!(parse_u32("0"), Some(0));
    assert_eq!(parse_u32("123"), Some(123));
    assert_eq!(parse_u32("3000"), Some(3000));
    assert_eq!(parse_u32("4294967295"), Some(u32::MAX));
    assert_eq!(parse_u32("4294967296"), None);
    assert_eq!(parse_u32(""), None);
    assert_eq!(parse_u32("12a"), None);
    assert_eq!(parse_u32("-1"), None);
    assert_eq!(parse_u32(" 1"), None);
}

#[test]
fn configuration_defaults_and_overrides() {
    let c = get_configuration(None, None);
    assert_eq!(c.port, 3000);
    assert_eq!(c.default_database_url, None);

    let c = get_configuration(
        Some("8080".to_owned()),
        Some("postgres://localhost/db".to_owned()),
    );
    assert_eq!(c.port, 8080);
    assert_eq!(c.default_database_url, Some("postgres://localhost/db".to_owned()));
}

#[test]
fn error_messages_are_exposed() {
    assert_eq!(ServerError::BadRequest("unknown table".to_owned()).message(), "unknown table");
    assert_eq!(ServerError::Internal("boom".to_owned()).message(), "boom");
    assert_eq!(ServerError::DatabaseError("down".to_owned()).message(), "down");
}
