//! The authenticated caller, taken from the session bearer token.
use vstd::prelude::*;

use crate::auth::model::SessionRow;
use crate::error::{AppError, ErrorKind, error_view};
use crate::header::{header_text, header_text_spec};
use crate::text::{chars_of, chars_of_string, string_of, strip_prefix, strip_prefix_spec};

verus! {

/// The authenticated Stellar address of a request and its session roles.
pub struct AuthUser {
    pub address: String,
    pub roles: Vec<String>,
}

pub const BEARER_PREFIX: &'static str = "Bearer ";

/// What the `Authorization` header yields: the bearer token, or the
/// unauthorized error with its message.
pub open spec fn bearer_token_spec(value: Option<Seq<u8>>) -> Result<Seq<char>, (ErrorKind, Seq<char>)> {
    match value {
        None => Err((ErrorKind::Unauthorized, "missing Authorization header"@)),
        Some(bytes) => match header_text_spec(bytes) {
            None => Err((ErrorKind::Unauthorized, "invalid Authorization header"@)),
            Some(text) => match strip_prefix_spec(text, BEARER_PREFIX@) {
                None => Err((ErrorKind::Unauthorized, "expected Bearer token"@)),
                Some(token) => if token.len() == 0 {
                    Err((ErrorKind::Unauthorized, "empty bearer token"@))
                } else {
                    Ok(token)
                },
            },
        },
    }
}

/// The bearer token of an `Authorization` header value (its raw bytes, when
/// the header is present).
pub fn bearer_token(value: Option<&[u8]>) -> (r: Result<String, AppError>)
    ensures
        match r {
            Ok(t) => bearer_token_spec(
                match value {
                    Some(b) => Some(b@),
                    None => None,
                },
            ) == Ok::<Seq<char>, (ErrorKind, Seq<char>)>(t@),
            Err(e) => bearer_token_spec(
                match value {
                    Some(b) => Some(b@),
                    None => None,
                },
            ) == Err::<Seq<char>, (ErrorKind, Seq<char>)>(error_view(e)),
        },
{
    let bytes = match value {
        None => return Err(AppError::Unauthorized("missing Authorization header".to_string())),
        Some(b) => b,
    };
    let text = match header_text(bytes) {
        None => return Err(AppError::Unauthorized("invalid Authorization header".to_string())),
        Some(t) => t,
    };
    let chars = chars_of_string(&text);
    let prefix = chars_of(BEARER_PREFIX);
    let token = match strip_prefix(&chars, &prefix) {
        None => return Err(AppError::Unauthorized("expected Bearer token".to_string())),
        Some(t) => t,
    };
    if token.len() == 0 {
        return Err(AppError::Unauthorized("empty bearer token".to_string()));
    }
    Ok(string_of(&token))
}

/// The authenticated caller a live session stands for: its address and roles.
pub fn auth_user(session: SessionRow) -> (u: AuthUser)
    ensures
        u.address == session.address,
        u.roles == session.roles,
{
    AuthUser { address: session.address, roles: session.roles }
}

} // verus!
