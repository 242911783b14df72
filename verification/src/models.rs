//! The abstract query description consumed by the compiler: a collection
//! name, a field selection, an optional predicate tree and limit/offset.
//! These types mirror the wire protocol as plain values; the transport
//! layer converts its decoded request into them before calling the
//! compiler.

use vstd::prelude::*;

verus! {

/// A JSON scalar used as a comparison value.  Only numbers (kept as their
/// decimal text) and strings can be rendered as SQL literals; every other
/// JSON value is `Other` and is rejected by the predicate compiler.
#[derive(Debug, PartialEq, Eq)]
pub enum ScalarValue {
    Number { repr: String },
    Text { value: String },
    Other,
}

/// The mathematical model of a [`ScalarValue`].
#[verifier::ext_equal]
pub enum ScalarValueV {
    Number { repr: Seq<char> },
    Text { value: Seq<char> },
    Other,
}

impl DeepView for ScalarValue {
    type V = ScalarValueV;

    open spec fn deep_view(&self) -> ScalarValueV {
        match self {
            ScalarValue::Number { repr } => ScalarValueV::Number { repr: repr@ },
            ScalarValue::Text { value } => ScalarValueV::Text { value: value@ },
            ScalarValue::Other => ScalarValueV::Other,
        }
    }
}

/// One requested output field: either a physical column under an alias, or
/// a relationship, which this connector does not implement.
#[derive(Debug, PartialEq, Eq)]
pub enum Field {
    Column { column: String },
    Relationship,
}

/// The mathematical model of a [`Field`].
#[verifier::ext_equal]
pub enum FieldV {
    Column { column: Seq<char> },
    Relationship,
}

impl DeepView for Field {
    type V = FieldV;

    open spec fn deep_view(&self) -> FieldV {
        match self {
            Field::Column { column } => FieldV::Column { column: column@ },
            Field::Relationship => FieldV::Relationship,
        }
    }
}

/// The column side of a binary comparison.  A `Column` target with a
/// non-empty path points into another collection and is unsupported.
#[derive(Debug, PartialEq, Eq)]
pub enum ComparisonTarget {
    RootCollectionColumn { name: String },
    Column { name: String, path: Vec<String> },
}

/// The mathematical model of a [`ComparisonTarget`].
#[verifier::ext_equal]
pub enum ComparisonTargetV {
    RootCollectionColumn { name: Seq<char> },
    Column { name: Seq<char>, path: Seq<Seq<char>> },
}

impl DeepView for ComparisonTarget {
    type V = ComparisonTargetV;

    open spec fn deep_view(&self) -> ComparisonTargetV {
        match self {
            ComparisonTarget::RootCollectionColumn { name } => (ComparisonTargetV::RootCollectionColumn { name: name@ }),
            ComparisonTarget::Column { name, path } => (ComparisonTargetV::Column { name: name@, path: path.deep_view() }),
        }
    }
}

/// A comparison operator: equality, or a named operator of which only
/// `like` and `nlike` are recognized.
#[derive(Debug, PartialEq, Eq)]
pub enum BinaryComparisonOperator {
    Equal,
    Other { name: String },
}

/// The mathematical model of a [`BinaryComparisonOperator`].
#[verifier::ext_equal]
pub enum BinaryComparisonOperatorV {
    Equal,
    Other { name: Seq<char> },
}

impl DeepView for BinaryComparisonOperator {
    type V = BinaryComparisonOperatorV;

    open spec fn deep_view(&self) -> BinaryComparisonOperatorV {
        match self {
            BinaryComparisonOperator::Equal => BinaryComparisonOperatorV::Equal,
            BinaryComparisonOperator::Other { name } => (BinaryComparisonOperatorV::Other { name: name@ }),
        }
    }
}

/// The value side of a binary comparison.  Only scalar values are
/// supported; column and variable comparisons are rejected.
#[derive(Debug, PartialEq, Eq)]
pub enum ComparisonValue {
    Scalar { value: ScalarValue },
    Column,
    Variable,
}

/// The mathematical model of a [`ComparisonValue`].
#[verifier::ext_equal]
pub enum ComparisonValueV {
    Scalar { value: ScalarValueV },
    Column,
    Variable,
}

impl DeepView for ComparisonValue {
    type V = ComparisonValueV;

    open spec fn deep_view(&self) -> ComparisonValueV {
        match self {
            ComparisonValue::Scalar { value } => (ComparisonValueV::Scalar { value: value.deep_view() }),
            ComparisonValue::Column => ComparisonValueV::Column,
            ComparisonValue::Variable => ComparisonValueV::Variable,
        }
    }
}

/// The caller-supplied boolean filter: a tree of AND/OR/NOT combinators
/// over binary comparisons.  The variants without payload are predicate
/// shapes of the protocol that this connector rejects at compilation.
#[derive(Debug, PartialEq, Eq)]
pub enum Expression {
    And { expressions: Vec<Expression> },
    Or { expressions: Vec<Expression> },
    Not { expression: Box<Expression> },
    UnaryComparisonOperator,
    BinaryComparisonOperator {
        column: ComparisonTarget,
        operator: BinaryComparisonOperator,
        value: ComparisonValue,
    },
    BinaryArrayComparisonOperator,
    Exists,
}

/// The mathematical model of an [`Expression`].
#[verifier::ext_equal]
pub enum ExpressionV {
    And { expressions: Seq<ExpressionV> },
    Or { expressions: Seq<ExpressionV> },
    Not { expression: Box<ExpressionV> },
    UnaryComparisonOperator,
    BinaryComparisonOperator {
        column: ComparisonTargetV,
        operator: BinaryComparisonOperatorV,
        value: ComparisonValueV,
    },
    BinaryArrayComparisonOperator,
    Exists,
}

/// The view of one expression node, taken recursively.
pub open spec fn view_expression(e: Expression) -> ExpressionV
    decreases e,
{
    match e {
        Expression::And { expressions } => (ExpressionV::And {
            expressions: view_expression_seq(expressions@),
        }),
        Expression::Or { expressions } => (ExpressionV::Or {
            expressions: view_expression_seq(expressions@),
        }),
        Expression::Not { expression } => (ExpressionV::Not {
            expression: Box::new(view_expression(*expression)),
        }),
        Expression::UnaryComparisonOperator => ExpressionV::UnaryComparisonOperator,
        Expression::BinaryComparisonOperator { column, operator, value } => (ExpressionV::BinaryComparisonOperator {
            column: column.deep_view(),
            operator: operator.deep_view(),
            value: value.deep_view(),
        }),
        Expression::BinaryArrayComparisonOperator => ExpressionV::BinaryArrayComparisonOperator,
        Expression::Exists => ExpressionV::Exists,
    }
}

/// The view of a sequence of expressions, element by element.
pub open spec fn view_expression_seq(es: Seq<Expression>) -> Seq<ExpressionV>
    decreases es,
{
    if es.len() == 0 {
        Seq::empty()
    } else {
        seq![view_expression(es.first())] + view_expression_seq(es.drop_first())
    }
}

/// `view_expression_seq` is the element-wise view.
pub proof fn lemma_view_expression_seq(es: Seq<Expression>)
    ensures
        view_expression_seq(es).len() == es.len(),
        forall|i: int| 0 <= i < es.len()
            ==> view_expression_seq(es)[i] == view_expression(es[i]),
    decreases es.len(),
{
    if es.len() > 0 {
        lemma_view_expression_seq(es.drop_first());
    }
}

impl DeepView for Expression {
    type V = ExpressionV;

    open spec fn deep_view(&self) -> ExpressionV {
        view_expression(*self)
    }
}

/// The query body of a request: an ordered field selection (alias to
/// field), an optional predicate, and optional limit and offset.
#[derive(Debug, PartialEq, Eq)]
pub struct Query {
    pub fields: Option<Vec<(String, Field)>>,
    pub predicate: Option<Expression>,
    pub limit: Option<u32>,
    pub offset: Option<u32>,
}

/// The mathematical model of a [`Query`].
#[verifier::ext_equal]
pub struct QueryV {
    pub fields: Option<Seq<(Seq<char>, FieldV)>>,
    pub predicate: Option<ExpressionV>,
    pub limit: Option<u32>,
    pub offset: Option<u32>,
}

impl DeepView for Query {
    type V = QueryV;

    open spec fn deep_view(&self) -> QueryV {
        QueryV {
            fields: self.fields.deep_view(),
            predicate: self.predicate.deep_view(),
            limit: self.limit,
            offset: self.offset,
        }
    }
}

/// A full query request: the target collection and the query body.
#[derive(Debug, PartialEq, Eq)]
pub struct QueryRequest {
    pub collection: String,
    pub query: Query,
}

/// The mathematical model of a [`QueryRequest`].
#[verifier::ext_equal]
pub struct QueryRequestV {
    pub collection: Seq<char>,
    pub query: QueryV,
}

impl DeepView for QueryRequest {
    type V = QueryRequestV;

    open spec fn deep_view(&self) -> QueryRequestV {
        QueryRequestV { collection: self.collection@, query: self.query.deep_view() }
    }
}

} // verus!
