//! The error taxonomy of the connector.

use vstd::prelude::*;

verus! {

/// An error surfaced to the transport layer.  `BadRequest` is always
/// caller-fixable (unknown collection, missing fields, unsupported
/// predicate shape, unsupported operator); `DatabaseError` reports a
/// failure of the external connection; `Internal` reports a broken
/// internal invariant or a malformed response envelope.
#[derive(Debug, PartialEq, Eq)]
pub enum ServerError {
    Internal(String),
    DatabaseError(String),
    BadRequest(String),
}

/// The mathematical model of a [`ServerError`]: the same classification
/// over character sequences.
#[verifier::ext_equal]
pub enum ServerErrorV {
    Internal(Seq<char>),
    DatabaseError(Seq<char>),
    BadRequest(Seq<char>),
}

impl DeepView for ServerError {
    type V = ServerErrorV;

    open spec fn deep_view(&self) -> ServerErrorV {
        match self {
            ServerError::Internal(m) => ServerErrorV::Internal(m@),
            ServerError::DatabaseError(m) => ServerErrorV::DatabaseError(m@),
            ServerError::BadRequest(m) => ServerErrorV::BadRequest(m@),
        }
    }
}

impl ServerError {
    /// The human-readable message carried by the error.
    pub fn message(&self) -> (r: &str)
        ensures
            r@ == self.spec_message(),
    {
        match self {
            ServerError::Internal(m) => m.as_str(),
            ServerError::DatabaseError(m) => m.as_str(),
            ServerError::BadRequest(m) => m.as_str(),
        }
    }

    /// The message of the error, as a sequence of characters.
    pub open spec fn spec_message(&self) -> Seq<char> {
        match self {
            ServerError::Internal(m) => m@,
            ServerError::DatabaseError(m) => m@,
            ServerError::BadRequest(m) => m@,
        }
    }
}

/// The deep view of a `Result`, both outcomes viewed.
pub open spec fn res_view<T: DeepView, E: DeepView>(r: Result<T, E>) -> Result<T::V, E::V> {
    match r {
        Ok(t) => Ok(t.deep_view()),
        Err(e) => Err(e.deep_view()),
    }
}

} // verus!
