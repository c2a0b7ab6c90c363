//! Farmer domain: identities, profile metadata and its hash, the identity
//! chain and the decisions of the farmer service.
pub mod chain;
pub mod hash;
pub mod ids;
pub mod model;
pub mod service;
