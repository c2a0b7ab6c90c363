use base64::Engine;
use ed25519_dalek::{Signer, SigningKey};
use verdant_backend::auth::extractor::{auth_user, bearer_token};
use verdant_backend::auth::model::{ChallengeRow, SessionRow, VerifyRequest, CHALLENGE_TTL_MINUTES};
use verdant_backend::auth::service::{
    challenge_expires_at, check_challenge, check_session, check_signature, hash_token,
    new_challenge, new_nonce, new_session, sep40_message, validate_address, verify_signature,
    ERR_NONCE_UNUSED_OR_EXPIRED,
};
use verdant_backend::auth::extractor::AuthUser;
use verdant_backend::routes::auth::SessionQuery;

const VALID: &str = "GAAAAAAAAAAAAAAAAAAAAAAAAAAAAAAAAAAAAAAAAAAAAAAAAAAAAWHF";

fn keypair() -> (SigningKey, String) {
    let key = SigningKey::from_bytes(&[7u8; 32]);
    let address = format!(
        "{}",
        stellar_strkey::ed25519::PublicKey(key.verifying_key().to_bytes())
    );
    (key, address)
}

fn signed_request(domain: &str, nonce: &str) -> VerifyRequest {
    let (key, address) = keypair();
    let message = sep40_message(domain, &address, nonce, "2026-01-01T00:00:00Z");
    let signature = key.sign(message.as_bytes());
    VerifyRequest {
        address,
        domain: domain.into(),
        nonce: nonce.into(),
        timestamp: "2026-01-01T00:00:00Z".into(),
        signature: base64::engine::general_purpose::STANDARD.encode(signature.to_bytes()),
    }
}

#[test]
fn sep40_message_has_exact_layout() {
    assert_eq!(
        sep40_message("app.verdant.example", "GABC", "n1", "2026-01-01T00:00:00Z"),
        "app.verdant.example wants you to sign in with your Stellar account:\nGABC\n\nNonce: n1\nIssued At: 2026-01-01T00:00:00Z\n"
    );
}

#[test]
fn validates_stellar_addresses() {
    assert!(validate_address(VALID).is_ok());
    let e = validate_address("GBAD").err().unwrap();
    assert_eq!(e.status(), 400);
    assert!(e.message().starts_with("invalid stellar address: "));
    assert!(validate_address("").is_err());
}

#[test]
fn token_hash_is_sha256_hex() {
    assert_eq!(
        hash_token("secret-token"),
        "930bbdc51b6aed5c2a5678fd6e28dee7a05e8a4b643cfc0b4427c3efb86c0d94"
    );
    assert_eq!(
        hash_token(""),
        "e3b0c44298fc1c149afbf4c8996fb92427ae41e4649b934ca495991b7852b855"
    );
}

#[test]
fn nonces_are_fresh_hex() {
    let a = new_nonce();
    let b = new_nonce();
    assert_eq!(a.len(), 64);
    assert!(a.chars().all(|c| c.is_ascii_hexdigit() && !c.is_ascii_uppercase()));
    assert_ne!(a, b);
}

#[test]
fn good_signature_verifies() {
    let req = signed_request("app.verdant.example", "nonce-1");
    assert!(check_signature(&req).is_ok());
}

#[test]
fn tampered_signature_is_unauthorized() {
    let mut req = signed_request("app.verdant.example", "nonce-1");
    req.nonce = "nonce-2".into();
    let e = check_signature(&req).err().unwrap();
    assert_eq!(e.status(), 401);
    assert!(e.message().starts_with("invalid signature: ed25519: "));
}

#[test]
fn signature_failures_name_their_stage() {
    let (_, address) = keypair();
    let e = verify_signature(&address, "***", b"m").err().unwrap();
    assert!(e.starts_with("base64: "));
    let short = base64::engine::general_purpose::STANDARD.encode([1u8; 10]);
    let e = verify_signature(&address, &short, b"m").err().unwrap();
    assert!(e.starts_with("signature length: "));
    let sig = base64::engine::general_purpose::STANDARD.encode([1u8; 64]);
    let e = verify_signature("GNOTAKEY", &sig, b"m").err().unwrap();
    assert!(e.starts_with("address: "));
}

#[test]
fn challenge_checks() {
    let live = Some(ChallengeRow { domain: "d".into(), expires_at: 1_000, used: false });
    assert!(check_challenge(&live, 999, "d").is_ok());
    let e = check_challenge(&live, 1_000, "d").err().unwrap();
    assert_eq!((e.status(), e.message().as_str()), (409, ERR_NONCE_UNUSED_OR_EXPIRED));
    let e = check_challenge(&None, 0, "d").err().unwrap();
    assert_eq!(e.status(), 409);
    let used = Some(ChallengeRow { domain: "d".into(), expires_at: 1_000, used: true });
    assert_eq!(check_challenge(&used, 0, "d").err().unwrap().status(), 409);
    let e = check_challenge(&live, 0, "other").err().unwrap();
    assert_eq!(
        (e.status(), e.message().as_str()),
        (400, "challenge issued for a different domain")
    );
}

#[test]
fn challenge_lives_five_minutes() {
    assert_eq!(CHALLENGE_TTL_MINUTES, 5);
    assert_eq!(challenge_expires_at(1_000), 1_000 + 300_000_000);
    let c = new_challenge("app.verdant.example", "n".into(), "t".into(), VALID.into());
    assert_eq!(c.domain, "app.verdant.example");
    assert_eq!(c.address, VALID);
}

#[test]
fn sessions_grant_farmer_role_and_expire() {
    let s = new_session("tok".into(), VALID.into(), 42);
    assert_eq!(s.roles, vec!["farmer".to_string()]);
    assert_eq!(s.expires_at, 42);
    let row = SessionRow { address: VALID.into(), roles: vec!["farmer".into()], expires_at: 10 };
    let ok = check_session(Some(row), 9).ok().unwrap();
    assert_eq!(ok.address, VALID);
    let row = SessionRow { address: VALID.into(), roles: vec![], expires_at: 10 };
    let e = check_session(Some(row), 10).err().unwrap();
    assert_eq!((e.status(), e.message().as_str()), (401, "session expired"));
    let e = check_session(None, 0).err().unwrap();
    assert_eq!((e.status(), e.message().as_str()), (401, "no session for token"));
}

#[test]
fn bearer_header_parsing() {
    assert_eq!(bearer_token(Some(b"Bearer abc")).ok(), Some("abc".to_string()));
    let e = bearer_token(None).err().unwrap();
    assert_eq!(e.status(), 401);
    assert!(bearer_token(Some(b"Basic abc")).is_err());
    assert!(bearer_token(Some(b"bearer abc")).is_err());
    assert!(bearer_token(Some(&[0xff, 0xfe])).is_err());
    let user = AuthUser { address: VALID.into(), roles: vec![] };
    assert_eq!(user.address, VALID);
    let q = SessionQuery { token: "t".into() };
    assert_eq!(q.token, "t");
}

#[test]
fn farmer_actor_is_the_bearer_session_address() {
    let token = bearer_token(Some(b"Bearer tok")).ok().unwrap();
    assert_eq!(hash_token(&token), hash_token("tok"));
    let row = SessionRow { address: VALID.into(), roles: vec!["farmer".into()], expires_at: 100 };
    let live = check_session(Some(row), 50).ok().unwrap();
    let user = auth_user(live);
    assert_eq!(user.address, VALID);
    assert_eq!(user.roles, vec!["farmer".to_string()]);
}
