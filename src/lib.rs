//! Core of a log-ingestion pipeline: routing and assembly of normalized
//! events under an audit-log latch, and a typed layer over a document
//! store's bulk protocol.

pub mod audit;
pub mod bulk;
pub mod event;
pub mod fleet;
pub mod json;
pub mod latch;
pub mod processor;
