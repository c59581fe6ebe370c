//! Bootstrap and unified-failure layer for a small REST service backed by
//! five external resources: a relational pool, a document-store client, a
//! cache client, a message-queue connection and a stream producer.
//!
//! The library holds the verified core: layered configuration loading,
//! secret handling, the error taxonomy with its HTTP mapping, the startup
//! gate that forbids partial service, queue-declaration rules, request
//! observability and the shutdown state machine. The thin binding layer
//! (listener, drivers, signal plumbing) lives outside and consumes this
//! crate through plain values.

pub mod config;
pub mod error;
pub mod messaging;
pub mod observability;
pub mod secret;
pub mod shutdown;
pub mod startup;
pub mod user;
