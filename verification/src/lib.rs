//! An in-memory test double for a generic database-access capability set: a
//! connection, a prepared statement, a query result and a row, each driven by
//! caller-supplied callbacks and recording how returned rows were consumed.
//!
//! An operation invoked without a configured callback is a test-authoring
//! defect: the contracts rule such calls out, and forcing one aborts rather
//! than silently doing nothing.

pub mod boundary;
pub mod columns;
pub mod conn;
pub mod error;
pub mod result_set;
pub mod row;
pub mod stmt;
