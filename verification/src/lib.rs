//! Streams columnar batches into a relational table through a bulk-copy
//! protocol: a verified type-conversion engine, a redirect-aware connection
//! state machine, and a streaming load orchestrator with a bounded channel.

pub mod error;
pub mod types;
pub mod batch;
pub mod floatbits;
pub mod convert;
pub mod laws;
pub mod connect;
pub mod orchestrate;
pub mod query;
pub mod result_set;
pub mod writer;
