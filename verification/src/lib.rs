//! A synchronous-looking shim over an embedded SQL engine: the verified
//! marshalling and control-flow core. Caller values are encoded onto the
//! engine's typed value model, positional and named parameters are
//! resolved against a prepared statement's declared names, fetched rows
//! are materialized under the record, raw-array and pluck output modes,
//! a pull-based iterator and a begin/commit/rollback wrapper are driven
//! as explicit state machines, and the connection lifecycle gates every
//! operation on a closed handle.
#![allow(non_snake_case)]

pub mod db;
pub mod errors;
pub mod fbits;
pub mod json;
pub mod params;
pub mod rowiter;
pub mod rows;
pub mod stmt;
pub mod text;
pub mod txn;
pub mod value;
