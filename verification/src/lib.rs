//! Verified core of the VerdAnt backend: identifiers, farmer identity,
//! SEP-40 authentication decisions and the contract-event indexer.
pub mod config;
pub mod crypto;
pub mod error;
pub mod strkey;
pub mod text;
pub mod uuid_text;

pub mod header;
pub mod ids;
pub mod json;
pub mod indexer;
pub mod farmers;
pub mod auth;
pub mod routes;
