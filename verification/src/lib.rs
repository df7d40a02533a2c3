//! Support library for a web backend: a shared error taxonomy with its
//! redaction and status-code policy, database connection and query helpers,
//! environment lookup, and timestamp formatting.

pub mod context;
pub mod database;
pub mod env;
pub mod error;
pub mod timefmt;
