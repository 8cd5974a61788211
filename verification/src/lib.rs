//! Host-language access layer for an embedded vector database.
//!
//! The crate holds the decisions that a host binding takes before and
//! after it hands work to the database engine: argument validation,
//! credential and configuration building, the open/closed life cycle of
//! handles, the settlement of awaitables and the error taxonomy that the
//! host sees. Scheduling and host I/O are left to the embedding code.

pub mod error;
pub mod mode;
pub mod host;
mod share;
pub mod credentials;
pub mod request;
pub mod connection;
pub mod bridge;
pub mod table;
pub mod database;
pub mod interleaving;
