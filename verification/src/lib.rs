//! A connector library that exposes Postgres catalog metadata (tables,
//! columns, foreign keys) through a generic query protocol.
//!
//! The heart of the crate is the query compiler: it translates an abstract,
//! protocol-level query description (a collection name, a field selection,
//! an optional predicate tree, limit/offset) into a SQL abstract syntax
//! tree that produces the protocol's nested JSON response envelope.  The
//! surrounding process (HTTP transport, rendering the AST to SQL text,
//! executing it on a connection) lives outside this crate; the compiler
//! itself is a pure function of its inputs.

pub mod ast;
pub mod configuration;
pub mod error;
pub mod models;
pub mod semantics;
pub mod sql;
pub mod strutil;
pub mod tables;
