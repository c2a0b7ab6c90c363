//! Authentication API records.
use vstd::prelude::*;

verus! {

/// Query of `GET /api/v1/auth/session`.
pub struct SessionQuery {
    pub token: String,
}

} // verus!
