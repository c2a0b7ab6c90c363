//! Request and response records of the HTTP API and the decisions its
//! handlers make before and after the database: identifier normalisation,
//! pagination, header checks and the health report.
pub mod auth;
pub mod farmers;
pub mod health;
pub mod projections;
