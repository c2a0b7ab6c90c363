//! Contract-event indexer: raw events, cursors, the in-memory event source,
//! projection decoders and the finality rules of ingestion.
pub mod model;
pub mod chain;
pub mod projections;
pub mod rpc;
pub mod rows;
pub mod service;
