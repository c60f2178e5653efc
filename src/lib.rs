//! Decoding of backend-encoded query results into typed values.
//!
//! A row is an ordered sequence of columns, each either SQL null or an
//! encoded payload. Scalar decoders (`FromSql`) turn one payload into one
//! value, static row builders (`FromStaticSqlRow`) compose scalars into
//! tuples left to right, `Queryable` adapts such a tuple into a struct, and
//! `QueryableByName` builds a value by looking columns up by name.
use vstd::prelude::*;

pub mod error;
pub mod sql_types;
pub mod row;
pub mod deserialize;
pub mod primitives;
pub mod records;
