//! SEP-40 challenge, verification request and session records. Instants are
//! Unix timestamps in microseconds.
use vstd::prelude::*;

verus! {

/// Request to obtain a SEP-40 signing challenge.
pub struct ChallengeRequest {
    /// Stellar public key (`G…`) the caller claims.
    pub address: String,
}

/// SEP-40 challenge issued by the backend.
pub struct Challenge {
    /// App domain (must match the wallet allowlist).
    pub domain: String,
    /// Single-use random nonce.
    pub nonce: String,
    /// ISO-8601 timestamp of issuance.
    pub timestamp: String,
    /// Stellar public key the challenge is for.
    pub address: String,
}

/// Payload the wallet signs and returns to `/auth/verify`.
pub struct VerifyRequest {
    pub address: String,
    pub domain: String,
    pub nonce: String,
    pub timestamp: String,
    /// Base64 ed25519 signature over the SEP-40 signed payload.
    pub signature: String,
}

/// Established backend session.
pub struct Session {
    /// Opaque bearer token; sent as `Authorization: Bearer <token>`.
    pub token: String,
    /// Stellar public key the session is bound to.
    pub address: String,
    /// Roles granted to the session.
    pub roles: Vec<String>,
    /// Session expiry (Unix microseconds).
    pub expires_at: i64,
}

/// A stored session, looked up by the hash of its token.
pub struct SessionRow {
    pub address: String,
    pub roles: Vec<String>,
    /// Session expiry (Unix microseconds).
    pub expires_at: i64,
}

/// A stored challenge, looked up by nonce, address and requested domain.
pub struct ChallengeRow {
    pub domain: String,
    /// Challenge expiry (Unix microseconds).
    pub expires_at: i64,
    pub used: bool,
}

/// How long an issued challenge stays valid.
pub const CHALLENGE_TTL_MINUTES: i64 = 5;

} // verus!
