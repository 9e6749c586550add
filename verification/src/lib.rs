//! Dynamic stored-procedure invocation and result projection.
//!
//! The crate renders a procedure name and an ordered list of typed parameters
//! into a single `DECLARE` / `EXEC` / `SELECT` batch, binds the parameter
//! values positionally onto the database client's query object, and classifies
//! the row stream that comes back: a `retStatus` footer row carries the
//! outcome flag and message, every other row is projected into a schema-less
//! record through a text-first coercion cascade.  Connection handling and the
//! asynchronous row stream itself stay with the caller; the decisions made on
//! each stream event live here, verified.

pub mod classify;
pub mod command;
pub mod constant;
pub mod db;
pub mod handlers;
pub mod model;
pub mod numeric;
pub mod rows;
pub mod status_code;
pub mod text;
