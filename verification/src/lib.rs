//! Core of a host-runtime binding for an embedded SQL engine.
//!
//! The crate holds the decisions of the binding layer: how host values become
//! engine values and back, how call arguments become parameter bindings, how a
//! fetched row is rendered, how engine failures are reported, and how the
//! database, statement and cursor handles change state. The engine itself and
//! the host runtime are driven by the caller, which hands their results to the
//! functions here as plain values.

pub mod auth;
pub mod database;
pub mod double;
pub mod errors;
pub mod object;
pub mod params;
pub mod row;
pub mod statement;
pub mod text;
pub mod value;
