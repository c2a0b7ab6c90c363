//! Decisions of SEP-40 authentication: address validation, the signed
//! message, signature verification, nonces and token hashes, and the checks
//! on stored challenges and sessions.
use vstd::prelude::*;

use crate::auth::model::{
    CHALLENGE_TTL_MINUTES, Challenge, ChallengeRow, Session, SessionRow, VerifyRequest,
};
use crate::crypto::{
    base64_decode, base64_standard_decode, check_verifying_key, ed25519_key_decodes,
    ed25519_signature_valid, ed25519_verify, hex_encode, hex_lower, is_lower_hex_digit,
    lemma_hex_lower_shape, random_bytes_32, sha256, sha256_digest, signature_from_slice,
};
use crate::error::{AppError, ErrorKind, error_view};
use crate::strkey::{decode_ed25519_public_key, ed25519_public_key_bytes};
use crate::text::{chars_eq, chars_of, chars_of_string, push_str, string_of};
use vstd::utf8::encode_utf8;

verus! {

/// Message of the conflict answered for a missing, used or expired nonce.
pub const ERR_NONCE_UNUSED_OR_EXPIRED: &'static str = "nonce missing, already used, or expired";

/// The role every session is granted.
pub const FARMER_ROLE: &'static str = "farmer";

/// `s` starts with `prefix`.
pub open spec fn has_prefix(s: Seq<char>, prefix: Seq<char>) -> bool {
    prefix.len() <= s.len() && s.subrange(0, prefix.len() as int) == prefix
}

/// Checks that `address` is a Stellar ed25519 public key (`G…`).
pub fn validate_address(address: &str) -> (r: Result<(), AppError>)
    ensures
        r is Ok <==> ed25519_public_key_bytes(address@) is Some,
        r matches Err(e) ==> error_view(e).0 == ErrorKind::BadRequest && has_prefix(
            error_view(e).1,
            "invalid stellar address: "@,
        ),
{
    match decode_ed25519_public_key(address) {
        Ok(_) => Ok(()),
        Err(e) => {
            let mut msg = chars_of("invalid stellar address: ");
            let ghost p = msg@;
            push_str(&mut msg, e.as_str());
            assert(msg@.subrange(0, p.len() as int) =~= p);
            Err(AppError::BadRequest(string_of(&msg)))
        },
    }
}

/// A fresh single-use nonce: 32 random bytes as 64 lowercase hex digits.
pub fn new_nonce() -> (r: String)
    ensures
        r@.len() == 64,
        forall|i: int| 0 <= i < r@.len() ==> is_lower_hex_digit(#[trigger] r@[i]),
{
    let bytes = random_bytes_32();
    proof {
        lemma_hex_lower_shape(bytes@);
    }
    hex_encode(&bytes)
}

/// The stored form of a bearer token: lowercase hex of the SHA-256 of its
/// UTF-8 bytes.
pub open spec fn hash_token_spec(token: Seq<char>) -> Seq<char> {
    hex_lower(sha256(encode_utf8(token)))
}

/// Hashes a bearer token for storage and lookup.
pub fn hash_token(token: &str) -> (r: String)
    ensures
        r@ == hash_token_spec(token@),
        r@.len() == 64,
{
    let digest = sha256_digest(token.as_bytes());
    proof {
        lemma_hex_lower_shape(digest@);
    }
    hex_encode(digest.as_slice())
}

/// The exact SEP-40 signed-payload text the wallet signs.
pub open spec fn sep40_message_spec(
    domain: Seq<char>,
    address: Seq<char>,
    nonce: Seq<char>,
    timestamp: Seq<char>,
) -> Seq<char> {
    domain + " wants you to sign in with your Stellar account:\n"@ + address + "\n\nNonce: "@
        + nonce + "\nIssued At: "@ + timestamp + "\n"@
}

/// Builds the SEP-40 signed-payload text.
pub fn sep40_message(domain: &str, address: &str, nonce: &str, timestamp: &str) -> (r: String)
    ensures
        r@ == sep40_message_spec(domain@, address@, nonce@, timestamp@),
{
    let mut out = chars_of(domain);
    push_str(&mut out, " wants you to sign in with your Stellar account:\n");
    push_str(&mut out, address);
    push_str(&mut out, "\n\nNonce: ");
    push_str(&mut out, nonce);
    push_str(&mut out, "\nIssued At: ");
    push_str(&mut out, timestamp);
    push_str(&mut out, "\n");
    string_of(&out)
}

/// The first stage at which checking `signature_b64` as `address`'s signature
/// of `message` fails, named by the prefix of its error text; `None` when the
/// signature is valid. The stages are: base64 decoding, the 64-byte length,
/// decoding the address, decoding the public key, and ed25519 verification.
pub open spec fn signature_failure(
    address: Seq<char>,
    signature_b64: Seq<char>,
    message: Seq<u8>,
) -> Option<Seq<char>> {
    match base64_standard_decode(signature_b64) {
        None => Some("base64: "@),
        Some(raw) => if raw.len() != 64 {
            Some("signature length: "@)
        } else {
            match ed25519_public_key_bytes(address) {
                None => Some("address: "@),
                Some(key) => if !ed25519_key_decodes(key) {
                    Some("verifying key: "@)
                } else if !ed25519_signature_valid(key, message, raw) {
                    Some("ed25519: "@)
                } else {
                    None
                },
            }
        },
    }
}

fn prefixed(prefix: &str, detail: &str) -> (r: String)
    ensures
        has_prefix(r@, prefix@),
{
    let mut msg = chars_of(prefix);
    let ghost p = msg@;
    push_str(&mut msg, detail);
    assert(msg@.subrange(0, p.len() as int) =~= p);
    string_of(&msg)
}

/// Verifies a base64 ed25519 signature of `message` by the Stellar account
/// `address`. On failure the error text starts with the stage that failed.
pub fn verify_signature(address: &str, signature_b64: &str, message: &[u8]) -> (r: Result<
    (),
    String,
>)
    ensures
        r is Ok <==> signature_failure(address@, signature_b64@, message@) is None,
        r matches Err(m) ==> has_prefix(
            m@,
            signature_failure(address@, signature_b64@, message@)->Some_0,
        ),
{
    let raw = match base64_decode(signature_b64) {
        Ok(b) => b,
        Err(e) => return Err(prefixed("base64: ", e.as_str())),
    };
    let signature = match signature_from_slice(raw.as_slice()) {
        Ok(s) => s,
        Err(e) => return Err(prefixed("signature length: ", e.as_str())),
    };
    let key = match decode_ed25519_public_key(address) {
        Ok(k) => k,
        Err(e) => return Err(prefixed("address: ", e.as_str())),
    };
    match check_verifying_key(&key) {
        Ok(()) => {},
        Err(e) => return Err(prefixed("verifying key: ", e.as_str())),
    }
    match ed25519_verify(&key, message, &signature) {
        Ok(()) => Ok(()),
        Err(e) => Err(prefixed("ed25519: ", e.as_str())),
    }
}

/// The SEP-40 message of a verification request.
pub open spec fn request_message(req: VerifyRequest) -> Seq<char> {
    sep40_message_spec(req.domain@, req.address@, req.nonce@, req.timestamp@)
}

/// Checks the request's signature over its SEP-40 message; an invalid
/// signature is unauthorized.
pub fn check_signature(req: &VerifyRequest) -> (r: Result<(), AppError>)
    ensures
        r is Ok <==> signature_failure(req.address@, req.signature@, encode_utf8(request_message(*req))) is None,
        r matches Err(e) ==> error_view(e).0 == ErrorKind::Unauthorized && has_prefix(
            error_view(e).1,
            "invalid signature: "@,
        ),
{
    let message = sep40_message(req.domain.as_str(), req.address.as_str(), req.nonce.as_str(), req.timestamp.as_str());
    match verify_signature(req.address.as_str(), req.signature.as_str(), message.as_str().as_bytes()) {
        Ok(()) => Ok(()),
        Err(e) => Err(AppError::Unauthorized(prefixed("invalid signature: ", e.as_str()))),
    }
}

/// What the stored challenge decides for a verification at time `now`
/// (Unix microseconds) on a server serving `server_domain`.
pub open spec fn check_challenge_spec(row: Option<ChallengeRow>, now: i64, server_domain: Seq<char>) -> Result<(), (ErrorKind, Seq<char>)> {
    match row {
        None => Err((ErrorKind::Conflict, ERR_NONCE_UNUSED_OR_EXPIRED@)),
        Some(r) => if r.used || r.expires_at <= now {
            Err((ErrorKind::Conflict, ERR_NONCE_UNUSED_OR_EXPIRED@))
        } else if r.domain@ != server_domain {
            Err((ErrorKind::BadRequest, "challenge issued for a different domain"@))
        } else {
            Ok(())
        },
    }
}

/// A challenge serves one verification only: once marked used, or once its
/// expiry has passed, every later verification with its nonce is refused as a
/// conflict, whatever the domain.
pub proof fn lemma_challenge_single_use(row: ChallengeRow, now: i64, server_domain: Seq<char>)
    requires
        row.used || row.expires_at <= now,
    ensures
        check_challenge_spec(Some(row), now, server_domain) == Err::<(), (ErrorKind, Seq<char>)>(
            (ErrorKind::Conflict, ERR_NONCE_UNUSED_OR_EXPIRED@),
        ),
{
}

/// Checks the stored challenge: it must exist, be unused and unexpired, and
/// have been issued for this server's domain.
pub fn check_challenge(row: &Option<ChallengeRow>, now: i64, server_domain: &str) -> (r: Result<(), AppError>)
    ensures
        match r {
            Ok(()) => check_challenge_spec(*row, now, server_domain@) is Ok,
            Err(e) => check_challenge_spec(*row, now, server_domain@) == Err::<(), (ErrorKind, Seq<char>)>(error_view(e)),
        },
{
    match row {
        None => Err(AppError::Conflict(ERR_NONCE_UNUSED_OR_EXPIRED.to_string())),
        Some(r) => {
            if r.used || r.expires_at <= now {
                return Err(AppError::Conflict(ERR_NONCE_UNUSED_OR_EXPIRED.to_string()));
            }
            let have = chars_of_string(&r.domain);
            let want = chars_of(server_domain);
            if !chars_eq(&have, &want) {
                return Err(AppError::BadRequest("challenge issued for a different domain".to_string()));
            }
            Ok(())
        },
    }
}

/// When a challenge issued at `issued_at` (Unix microseconds) expires.
pub fn challenge_expires_at(issued_at: i64) -> (r: i64)
    requires
        issued_at <= i64::MAX - CHALLENGE_TTL_MINUTES * 60_000_000,
    ensures
        r == issued_at + CHALLENGE_TTL_MINUTES * 60_000_000,
{
    issued_at + CHALLENGE_TTL_MINUTES * 60_000_000
}

/// The challenge answered for `address`.
pub fn new_challenge(domain: &str, nonce: String, timestamp: String, address: String) -> (c: Challenge)
    ensures
        c.domain@ == domain@,
        c.nonce == nonce,
        c.timestamp == timestamp,
        c.address == address,
{
    Challenge { domain: domain.to_string(), nonce, timestamp, address }
}

/// The session answered after a successful verification: bound to `address`
/// with the single role `farmer`.
pub fn new_session(token: String, address: String, expires_at: i64) -> (s: Session)
    ensures
        s.token == token,
        s.address == address,
        s.roles@.len() == 1,
        s.roles@[0]@ == FARMER_ROLE@,
        s.expires_at == expires_at,
{
    let mut roles: Vec<String> = Vec::new();
    roles.push(FARMER_ROLE.to_string());
    Session { token, address, roles, expires_at }
}

/// What looking up a session at time `now` decides.
pub open spec fn check_session_spec(row: Option<SessionRow>, now: i64) -> Result<SessionRow, (ErrorKind, Seq<char>)> {
    match row {
        None => Err((ErrorKind::Unauthorized, "no session for token"@)),
        Some(r) => if r.expires_at <= now {
            Err((ErrorKind::Unauthorized, "session expired"@))
        } else {
            Ok(r)
        },
    }
}

/// A stored session read back before it expires is accepted as stored: its
/// address, roles and expiry come back unchanged.
pub proof fn lemma_fresh_session_accepted(row: SessionRow, now: i64)
    requires
        now < row.expires_at,
    ensures
        check_session_spec(Some(row), now) == Ok::<SessionRow, (ErrorKind, Seq<char>)>(row),
{
}

/// Checks a looked-up session: it must exist and not have expired.
pub fn check_session(row: Option<SessionRow>, now: i64) -> (r: Result<SessionRow, AppError>)
    ensures
        match r {
            Ok(s) => check_session_spec(row, now) == Ok::<SessionRow, (ErrorKind, Seq<char>)>(s),
            Err(e) => check_session_spec(row, now) == Err::<SessionRow, (ErrorKind, Seq<char>)>(error_view(e)),
        },
{
    match row {
        None => Err(AppError::Unauthorized("no session for token".to_string())),
        Some(r) => {
            if r.expires_at <= now {
                Err(AppError::Unauthorized("session expired".to_string()))
            } else {
                Ok(r)
            }
        },
    }
}

} // verus!
