//! The SQL abstract syntax tree the compiler produces: the subset of SQL
//! needed for the catalog queries (a single `SELECT` per level, inner
//! joins, function calls, literals, and nested subqueries).  The tree is
//! plain data; rendering it to SQL text is the caller's concern.

use vstd::prelude::*;

verus! {

/// A SQL identifier with its quoting: `None` for a bare word, `Some('"')`
/// for a double-quoted identifier, `Some('\'')` for a single-quoted one.
#[derive(Debug, PartialEq, Eq, Clone)]
pub struct Ident {
    pub value: String,
    pub quote: Option<char>,
}

/// The mathematical model of an [`Ident`].
#[verifier::ext_equal]
pub struct IdentV {
    pub value: Seq<char>,
    pub quote: Option<char>,
}

impl DeepView for Ident {
    type V = IdentV;

    open spec fn deep_view(&self) -> IdentV {
        IdentV { value: self.value@, quote: self.quote }
    }
}

/// A SQL literal.
#[derive(Debug, PartialEq, Eq, Clone)]
pub enum SqlValue {
    Null,
    Boolean(bool),
    Number(String),
    SingleQuotedString(String),
}

/// The mathematical model of a [`SqlValue`].
#[verifier::ext_equal]
pub enum SqlValueV {
    Null,
    Boolean(bool),
    Number(Seq<char>),
    SingleQuotedString(Seq<char>),
}

impl DeepView for SqlValue {
    type V = SqlValueV;

    open spec fn deep_view(&self) -> SqlValueV {
        match self {
            SqlValue::Null => SqlValueV::Null,
            SqlValue::Boolean(b) => SqlValueV::Boolean(*b),
            SqlValue::Number(n) => SqlValueV::Number(n@),
            SqlValue::SingleQuotedString(s) => SqlValueV::SingleQuotedString(s@),
        }
    }
}

/// A binary SQL operator used by the compiler.
#[derive(Debug, PartialEq, Eq, Structural, Clone, Copy)]
pub enum SqlBinaryOp {
    Eq,
    And,
    Or,
}

/// A unary SQL operator used by the compiler.
#[derive(Debug, PartialEq, Eq, Structural, Clone, Copy)]
pub enum SqlUnaryOp {
    Not,
}

/// A SQL expression.
#[derive(Debug, PartialEq, Eq)]
pub enum SqlExpr {
    Identifier(Ident),
    CompoundIdentifier(Vec<Ident>),
    Value(SqlValue),
    Function { name: String, args: Vec<SqlExpr>, distinct: bool },
    BinaryOp { left: Box<SqlExpr>, op: SqlBinaryOp, right: Box<SqlExpr> },
    UnaryOp { op: SqlUnaryOp, expr: Box<SqlExpr> },
    Like { negated: bool, expr: Box<SqlExpr>, pattern: Box<SqlExpr> },
    Nested(Box<SqlExpr>),
    Subquery(Box<SqlQuery>),
}

/// The mathematical model of a [`SqlExpr`].
#[verifier::ext_equal]
pub enum SqlExprV {
    Identifier(IdentV),
    CompoundIdentifier(Seq<IdentV>),
    Value(SqlValueV),
    Function { name: Seq<char>, args: Seq<SqlExprV>, distinct: bool },
    BinaryOp { left: Box<SqlExprV>, op: SqlBinaryOp, right: Box<SqlExprV> },
    UnaryOp { op: SqlUnaryOp, expr: Box<SqlExprV> },
    Like { negated: bool, expr: Box<SqlExprV>, pattern: Box<SqlExprV> },
    Nested(Box<SqlExprV>),
    Subquery(Box<SqlQueryV>),
}

/// One item of a projection list: an expression, optionally aliased.
#[derive(Debug, PartialEq, Eq)]
pub enum SelectItem {
    UnnamedExpr(SqlExpr),
    ExprWithAlias { expr: SqlExpr, alias: Ident },
}

/// The mathematical model of a [`SelectItem`].
#[verifier::ext_equal]
pub enum SelectItemV {
    UnnamedExpr(SqlExprV),
    ExprWithAlias { expr: SqlExprV, alias: IdentV },
}

/// An alias given to a relation of the `FROM` clause.
#[derive(Debug, PartialEq, Eq, Clone)]
pub struct TableAlias {
    pub name: Ident,
}

/// The mathematical model of a [`TableAlias`].
#[verifier::ext_equal]
pub struct TableAliasV {
    pub name: IdentV,
}

impl DeepView for TableAlias {
    type V = TableAliasV;

    open spec fn deep_view(&self) -> TableAliasV {
        TableAliasV { name: self.name.deep_view() }
    }
}

/// A relation of the `FROM` clause: a named table or a derived subquery.
#[derive(Debug, PartialEq, Eq)]
pub enum TableFactor {
    Table { name: Vec<Ident>, alias: Option<TableAlias> },
    Derived { subquery: Box<SqlQuery>, alias: Option<TableAlias> },
}

/// The mathematical model of a [`TableFactor`].
#[verifier::ext_equal]
pub enum TableFactorV {
    Table { name: Seq<IdentV>, alias: Option<TableAliasV> },
    Derived { subquery: Box<SqlQueryV>, alias: Option<TableAliasV> },
}

/// An inner join with its `ON` condition.
#[derive(Debug, PartialEq, Eq)]
pub struct Join {
    pub relation: TableFactor,
    pub on_condition: SqlExpr,
}

/// The mathematical model of a [`Join`].
#[verifier::ext_equal]
pub struct JoinV {
    pub relation: TableFactorV,
    pub on_condition: SqlExprV,
}

/// A `FROM` entry: a relation and the joins attached to it.
#[derive(Debug, PartialEq, Eq)]
pub struct TableWithJoins {
    pub relation: TableFactor,
    pub joins: Vec<Join>,
}

/// The mathematical model of a [`TableWithJoins`].
#[verifier::ext_equal]
pub struct TableWithJoinsV {
    pub relation: TableFactorV,
    pub joins: Seq<JoinV>,
}

/// One `SELECT` query: projection, `FROM`, optional `WHERE`, `GROUP BY`,
/// and optional `LIMIT`/`OFFSET` values.
#[derive(Debug, PartialEq, Eq)]
pub struct SqlQuery {
    pub projection: Vec<SelectItem>,
    pub from: Vec<TableWithJoins>,
    pub selection: Option<SqlExpr>,
    pub group_by: Vec<SqlExpr>,
    pub limit: Option<u32>,
    pub offset: Option<u32>,
}

/// The mathematical model of a [`SqlQuery`].
#[verifier::ext_equal]
pub struct SqlQueryV {
    pub projection: Seq<SelectItemV>,
    pub from: Seq<TableWithJoinsV>,
    pub selection: Option<SqlExprV>,
    pub group_by: Seq<SqlExprV>,
    pub limit: Option<u32>,
    pub offset: Option<u32>,
}

/// A complete SQL statement.
#[derive(Debug, PartialEq, Eq)]
pub enum Statement {
    Query(Box<SqlQuery>),
}

/// The mathematical model of a [`Statement`].
#[verifier::ext_equal]
pub enum StatementV {
    Query(Box<SqlQueryV>),
}

/// The view of one SQL expression, taken recursively.
pub open spec fn view_sql_expr(e: SqlExpr) -> SqlExprV
    decreases e,
{
    match e {
        SqlExpr::Identifier(id) => SqlExprV::Identifier(id.deep_view()),
        SqlExpr::CompoundIdentifier(ids) => SqlExprV::CompoundIdentifier(ids.deep_view()),
        SqlExpr::Value(v) => SqlExprV::Value(v.deep_view()),
        SqlExpr::Function { name, args, distinct } => (SqlExprV::Function {
            name: name@,
            args: view_sql_expr_seq(args@),
            distinct,
        }),
        SqlExpr::BinaryOp { left, op, right } => (SqlExprV::BinaryOp {
            left: Box::new(view_sql_expr(*left)),
            op,
            right: Box::new(view_sql_expr(*right)),
        }),
        SqlExpr::UnaryOp { op, expr } => (SqlExprV::UnaryOp {
            op,
            expr: Box::new(view_sql_expr(*expr)),
        }),
        SqlExpr::Like { negated, expr, pattern } => (SqlExprV::Like {
            negated,
            expr: Box::new(view_sql_expr(*expr)),
            pattern: Box::new(view_sql_expr(*pattern)),
        }),
        SqlExpr::Nested(inner) => SqlExprV::Nested(Box::new(view_sql_expr(*inner))),
        SqlExpr::Subquery(q) => SqlExprV::Subquery(Box::new(view_sql_query(*q))),
    }
}

/// The view of a sequence of SQL expressions, element by element.
pub open spec fn view_sql_expr_seq(es: Seq<SqlExpr>) -> Seq<SqlExprV>
    decreases es,
{
    if es.len() == 0 {
        Seq::empty()
    } else {
        seq![view_sql_expr(es.first())] + view_sql_expr_seq(es.drop_first())
    }
}

/// The view of a projection item.
pub open spec fn view_select_item(si: SelectItem) -> SelectItemV
    decreases si,
{
    match si {
        SelectItem::UnnamedExpr(e) => SelectItemV::UnnamedExpr(view_sql_expr(e)),
        SelectItem::ExprWithAlias { expr, alias } => (SelectItemV::ExprWithAlias {
            expr: view_sql_expr(expr),
            alias: alias.deep_view(),
        }),
    }
}

/// The view of a projection list, element by element.
pub open spec fn view_select_item_seq(sis: Seq<SelectItem>) -> Seq<SelectItemV>
    decreases sis,
{
    if sis.len() == 0 {
        Seq::empty()
    } else {
        seq![view_select_item(sis.first())] + view_select_item_seq(sis.drop_first())
    }
}

/// The view of a `FROM` relation.
pub open spec fn view_table_factor(tf: TableFactor) -> TableFactorV
    decreases tf,
{
    match tf {
        TableFactor::Table { name, alias } => (TableFactorV::Table {
            name: name.deep_view(),
            alias: alias.deep_view(),
        }),
        TableFactor::Derived { subquery, alias } => (TableFactorV::Derived {
            subquery: Box::new(view_sql_query(*subquery)),
            alias: alias.deep_view(),
        }),
    }
}

/// The view of a join.
pub open spec fn view_join(j: Join) -> JoinV
    decreases j,
{
    JoinV { relation: view_table_factor(j.relation), on_condition: view_sql_expr(j.on_condition) }
}

/// The view of a join list, element by element.
pub open spec fn view_join_seq(js: Seq<Join>) -> Seq<JoinV>
    decreases js,
{
    if js.len() == 0 {
        Seq::empty()
    } else {
        seq![view_join(js.first())] + view_join_seq(js.drop_first())
    }
}

/// The view of a `FROM` entry.
pub open spec fn view_table_with_joins(t: TableWithJoins) -> TableWithJoinsV
    decreases t,
{
    TableWithJoinsV { relation: view_table_factor(t.relation), joins: view_join_seq(t.joins@) }
}

/// The view of a `FROM` list, element by element.
pub open spec fn view_table_with_joins_seq(ts: Seq<TableWithJoins>) -> Seq<TableWithJoinsV>
    decreases ts,
{
    if ts.len() == 0 {
        Seq::empty()
    } else {
        seq![view_table_with_joins(ts.first())] + view_table_with_joins_seq(ts.drop_first())
    }
}

/// The view of a whole `SELECT` query.
pub open spec fn view_sql_query(q: SqlQuery) -> SqlQueryV
    decreases q,
{
    SqlQueryV {
        projection: view_select_item_seq(q.projection@),
        from: view_table_with_joins_seq(q.from@),
        selection: match q.selection {
            Some(e) => Some(view_sql_expr(e)),
            None => None,
        },
        group_by: view_sql_expr_seq(q.group_by@),
        limit: q.limit,
        offset: q.offset,
    }
}

impl DeepView for SqlExpr {
    type V = SqlExprV;

    open spec fn deep_view(&self) -> SqlExprV {
        view_sql_expr(*self)
    }
}

impl DeepView for SelectItem {
    type V = SelectItemV;

    open spec fn deep_view(&self) -> SelectItemV {
        view_select_item(*self)
    }
}

impl DeepView for TableFactor {
    type V = TableFactorV;

    open spec fn deep_view(&self) -> TableFactorV {
        view_table_factor(*self)
    }
}

impl DeepView for Join {
    type V = JoinV;

    open spec fn deep_view(&self) -> JoinV {
        view_join(*self)
    }
}

impl DeepView for TableWithJoins {
    type V = TableWithJoinsV;

    open spec fn deep_view(&self) -> TableWithJoinsV {
        view_table_with_joins(*self)
    }
}

impl DeepView for SqlQuery {
    type V = SqlQueryV;

    open spec fn deep_view(&self) -> SqlQueryV {
        view_sql_query(*self)
    }
}

impl DeepView for Statement {
    type V = StatementV;

    open spec fn deep_view(&self) -> StatementV {
        match self {
            Statement::Query(q) => StatementV::Query(Box::new(view_sql_query(**q))),
        }
    }
}

/// `view_sql_expr_seq` is the element-wise view.
pub proof fn lemma_view_sql_expr_seq(es: Seq<SqlExpr>)
    ensures
        view_sql_expr_seq(es).len() == es.len(),
        forall|i: int| 0 <= i < es.len() ==> view_sql_expr_seq(es)[i] == view_sql_expr(es[i]),
    decreases es.len(),
{
    if es.len() > 0 {
        lemma_view_sql_expr_seq(es.drop_first());
    }
}

/// `view_select_item_seq` is the element-wise view.
pub proof fn lemma_view_select_item_seq(sis: Seq<SelectItem>)
    ensures
        view_select_item_seq(sis).len() == sis.len(),
        forall|i: int| 0 <= i < sis.len()
            ==> view_select_item_seq(sis)[i] == view_select_item(sis[i]),
    decreases sis.len(),
{
    if sis.len() > 0 {
        lemma_view_select_item_seq(sis.drop_first());
    }
}

/// `view_join_seq` is the element-wise view.
pub proof fn lemma_view_join_seq(js: Seq<Join>)
    ensures
        view_join_seq(js).len() == js.len(),
        forall|i: int| 0 <= i < js.len() ==> view_join_seq(js)[i] == view_join(js[i]),
    decreases js.len(),
{
    if js.len() > 0 {
        lemma_view_join_seq(js.drop_first());
    }
}

/// `view_table_with_joins_seq` is the element-wise view.
pub proof fn lemma_view_table_with_joins_seq(ts: Seq<TableWithJoins>)
    ensures
        view_table_with_joins_seq(ts).len() == ts.len(),
        forall|i: int| 0 <= i < ts.len()
            ==> view_table_with_joins_seq(ts)[i] == view_table_with_joins(ts[i]),
    decreases ts.len(),
{
    if ts.len() > 0 {
        lemma_view_table_with_joins_seq(ts.drop_first());
    }
}

} // verus!
