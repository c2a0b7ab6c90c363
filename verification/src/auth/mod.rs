//! SEP-40 wallet authentication: challenges, signature verification and
//! bearer-token sessions.
pub mod extractor;
pub mod model;
pub mod service;
