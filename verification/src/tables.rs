//! The collection registry: the closed set of collections this connector
//! serves, with the physical location and logical column list of each.

use vstd::prelude::*;

verus! {

/// A logical collection exposed by the connector, resolved to a physical
/// schema and relation of `information_schema` (the foreign-key collection
/// is synthesized from `pg_catalog` instead of being backed by one table).
#[derive(Clone, Copy, PartialEq, Eq, Structural, Debug)]
pub enum SupportedTable {
    Tables,
    Columns,
    ForeignKeys,
}

/// A column of the logical field surface of a collection: its name and the
/// scalar type it is declared with in the protocol schema.
#[derive(Debug, PartialEq, Eq)]
pub struct ColumnInfo {
    pub name: String,
    pub column_type: String,
}

/// The mathematical model of a [`ColumnInfo`].
#[verifier::ext_equal]
pub struct ColumnInfoV {
    pub name: Seq<char>,
    pub column_type: Seq<char>,
}

impl DeepView for ColumnInfo {
    type V = ColumnInfoV;

    open spec fn deep_view(&self) -> ColumnInfoV {
        ColumnInfoV { name: self.name@, column_type: self.column_type@ }
    }
}

/// The physical location and logical columns of one collection.
#[derive(Debug, PartialEq, Eq)]
pub struct TableInfo {
    pub schema_name: String,
    pub table_name: String,
    pub columns: Vec<ColumnInfo>,
}

/// The mathematical model of a [`TableInfo`].
#[verifier::ext_equal]
pub struct TableInfoV {
    pub schema_name: Seq<char>,
    pub table_name: Seq<char>,
    pub columns: Seq<ColumnInfoV>,
}

impl DeepView for TableInfo {
    type V = TableInfoV;

    open spec fn deep_view(&self) -> TableInfoV {
        TableInfoV {
            schema_name: self.schema_name@,
            table_name: self.table_name@,
            columns: self.columns.deep_view(),
        }
    }
}

/// The error returned when a collection name is not one of the three the
/// registry knows.
#[derive(Clone, Copy, PartialEq, Eq, Structural, Debug)]
pub struct ParseSupportedTableErr;

impl SupportedTable {
    /// The logical name of the collection, which doubles as the physical
    /// relation name inside `information_schema` for the two that are
    /// backed by one.
    pub open spec fn spec_table_name(self) -> Seq<char> {
        match self {
            SupportedTable::Tables => "tables"@,
            SupportedTable::Columns => "columns"@,
            SupportedTable::ForeignKeys => "foreign_keys"@,
        }
    }

    /// Every collection resolves to the `information_schema` schema.
    pub open spec fn spec_schema_name(self) -> Seq<char> {
        "information_schema"@
    }

    /// The logical column list of the collection.
    pub open spec fn spec_columns(self) -> Seq<ColumnInfoV> {
        match self {
            SupportedTable::Tables => seq![
                (ColumnInfoV { column_type: "String"@, name: "table_name"@ }),
                (ColumnInfoV { column_type: "String"@, name: "table_schema"@ }),
            ],
            SupportedTable::Columns => seq![
                (ColumnInfoV { column_type: "String"@, name: "table_name"@ }),
                (ColumnInfoV { column_type: "String"@, name: "table_schema"@ }),
                (ColumnInfoV { column_type: "String"@, name: "column_name"@ }),
                (ColumnInfoV { column_type: "String"@, name: "data_type"@ }),
            ],
            SupportedTable::ForeignKeys => seq![
                (ColumnInfoV { column_type: "String"@, name: "schema_from"@ }),
                (ColumnInfoV { column_type: "String"@, name: "table_from"@ }),
                (ColumnInfoV { column_type: "String"@, name: "column_mapping"@ }),
                (ColumnInfoV { column_type: "String"@, name: "schema_to"@ }),
                (ColumnInfoV { column_type: "String"@, name: "table_to"@ }),
                (ColumnInfoV { column_type: "String"@, name: "fkey_name"@ }),
                (ColumnInfoV { column_type: "String"@, name: "on_update"@ }),
                (ColumnInfoV { column_type: "String"@, name: "on_delete"@ }),
            ],
        }
    }

    /// Whether `name` is one of the collection's logical columns.
    pub open spec fn spec_has_column(self, name: Seq<char>) -> bool {
        exists|i: int| 0 <= i < self.spec_columns().len() && self.spec_columns()[i].name == name
    }

    /// The name of the underlying relation.
    pub fn get_table_name(&self) -> (r: String)
        ensures
            r@ == self.spec_table_name(),
    {
        match self {
            SupportedTable::Tables => "tables".to_owned(),
            SupportedTable::Columns => "columns".to_owned(),
            SupportedTable::ForeignKeys => "foreign_keys".to_owned(),
        }
    }

    /// The schema of the underlying relation.
    pub fn get_schema_name(&self) -> (r: String)
        ensures
            r@ == self.spec_schema_name(),
    {
        "information_schema".to_owned()
    }

    /// The columns of the collection, in declaration order.
    pub fn get_columns(&self) -> (r: Vec<ColumnInfo>)
        ensures
            r.deep_view() == self.spec_columns(),
    {
        let mut r: Vec<ColumnInfo> = Vec::new();
        match self {
            SupportedTable::Tables => {
                r.push(ColumnInfo { column_type: "String".to_owned(), name: "table_name".to_owned() });
                r.push(ColumnInfo { column_type: "String".to_owned(), name: "table_schema".to_owned() });
            }
            SupportedTable::Columns => {
                r.push(ColumnInfo { column_type: "String".to_owned(), name: "table_name".to_owned() });
                r.push(ColumnInfo { column_type: "String".to_owned(), name: "table_schema".to_owned() });
                r.push(ColumnInfo { column_type: "String".to_owned(), name: "column_name".to_owned() });
                r.push(ColumnInfo { column_type: "String".to_owned(), name: "data_type".to_owned() });
            }
            SupportedTable::ForeignKeys => {
                r.push(ColumnInfo { column_type: "String".to_owned(), name: "schema_from".to_owned() });
                r.push(ColumnInfo { column_type: "String".to_owned(), name: "table_from".to_owned() });
                r.push(ColumnInfo { column_type: "String".to_owned(), name: "column_mapping".to_owned() });
                r.push(ColumnInfo { column_type: "String".to_owned(), name: "schema_to".to_owned() });
                r.push(ColumnInfo { column_type: "String".to_owned(), name: "table_to".to_owned() });
                r.push(ColumnInfo { column_type: "String".to_owned(), name: "fkey_name".to_owned() });
                r.push(ColumnInfo { column_type: "String".to_owned(), name: "on_update".to_owned() });
                r.push(ColumnInfo { column_type: "String".to_owned(), name: "on_delete".to_owned() });
            }
        }
        proof {
            assert(r.deep_view() =~~= self.spec_columns());
        }
        r
    }

    /// The full registry entry of the collection.
    pub fn get_table_info(&self) -> (r: TableInfo)
        ensures
            r.deep_view() == (TableInfoV {
                schema_name: self.spec_schema_name(),
                table_name: self.spec_table_name(),
                columns: self.spec_columns(),
            }),
    {
        TableInfo {
            schema_name: self.get_schema_name(),
            table_name: self.get_table_name(),
            columns: self.get_columns(),
        }
    }

    /// The collection's logical name, as `resolve` accepts it.
    pub fn to_string(&self) -> (r: String)
        ensures
            r@ == self.spec_table_name(),
    {
        self.get_table_name()
    }

    /// Resolves a collection name.  Exactly the three known names succeed;
    /// every other string is an unknown collection.
    pub fn from_str(s: &str) -> (r: Result<SupportedTable, ParseSupportedTableErr>)
        ensures
            s@ == "tables"@ ==> r == Ok::<SupportedTable, ParseSupportedTableErr>(SupportedTable::Tables),
            s@ == "columns"@ ==> r == Ok::<SupportedTable, ParseSupportedTableErr>(SupportedTable::Columns),
            s@ == "foreign_keys"@ ==> r == Ok::<SupportedTable, ParseSupportedTableErr>(SupportedTable::ForeignKeys),
            s@ != "tables"@ && s@ != "columns"@ && s@ != "foreign_keys"@
                ==> r == Err::<SupportedTable, ParseSupportedTableErr>(ParseSupportedTableErr),
    {
        proof {
            reveal_strlit("tables");
            reveal_strlit("columns");
            reveal_strlit("foreign_keys");
            assert("tables"@.len() == 6);
            assert("columns"@.len() == 7);
            assert("foreign_keys"@.len() == 12);
        }
        if crate::strutil::str_eq(s, "tables") {
            Ok(SupportedTable::Tables)
        } else if crate::strutil::str_eq(s, "columns") {
            Ok(SupportedTable::Columns)
        } else if crate::strutil::str_eq(s, "foreign_keys") {
            Ok(SupportedTable::ForeignKeys)
        } else {
            Err(ParseSupportedTableErr)
        }
    }

    /// Translates a logical field name to the physically qualified column
    /// name, or `None` when the field is not declared for this collection.
    pub fn column_lookup(&self, name: &str) -> (r: Option<String>)
        ensures
            self.spec_has_column(name@) ==> (r matches Some(p) && p@ == name@),
            !self.spec_has_column(name@) ==> r is None,
    {
        let columns = self.get_columns();
        let ghost cs = self.spec_columns();
        let mut i: usize = 0;
        while i < columns.len()
            invariant
                columns.deep_view() == cs,
                cs == self.spec_columns(),
                0 <= i <= cs.len(),
                forall|j: int| 0 <= j < i ==> cs[j].name != name@,
            decreases columns.len() - i,
        {
            assert(columns[i as int].deep_view() == cs[i as int]);
            if crate::strutil::str_eq(columns[i].name.as_str(), name) {
                proof {
                    assert(self.spec_columns()[i as int].name == name@);
                    assert(self.spec_has_column(name@));
                }
                return Some(columns[i].name.clone());
            }
            i += 1;
        }
        None
    }
}

} // verus!
