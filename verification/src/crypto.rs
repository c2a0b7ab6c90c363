//! Hashing, hex and base64 encodings, ed25519 signature checks and random
//! bytes, each through the outside crate the service has always used.
use base64::Engine;
use ed25519_dalek::Verifier;
use rand::RngCore;
use sha2::Digest;
use vstd::prelude::*;

verus! {

/// The lowercase hexadecimal digit of the nibble `n` (`0 <= n < 16`).
pub open spec fn hex_digit(n: int) -> char {
    if n < 10 {
        (48 + n) as char
    } else {
        (87 + n) as char
    }
}

/// Lowercase hexadecimal text of `bytes`, two digits per byte, high nibble
/// first: what `hex::encode` produces.
pub open spec fn hex_lower(bytes: Seq<u8>) -> Seq<char>
    decreases bytes.len(),
{
    if bytes.len() == 0 {
        Seq::empty()
    } else {
        hex_lower(bytes.drop_last()) + seq![
            hex_digit(bytes.last() as int / 16),
            hex_digit(bytes.last() as int % 16),
        ]
    }
}

/// An ASCII hexadecimal digit in lowercase.
pub open spec fn is_lower_hex_digit(c: char) -> bool {
    ('0' <= c && c <= '9') || ('a' <= c && c <= 'f')
}

/// The hex text of `n` bytes has `2 n` lowercase hexadecimal digits.
pub proof fn lemma_hex_lower_shape(bytes: Seq<u8>)
    ensures
        hex_lower(bytes).len() == 2 * bytes.len(),
        forall|i: int|
            0 <= i < hex_lower(bytes).len() ==> is_lower_hex_digit(#[trigger] hex_lower(bytes)[i]),
    decreases bytes.len(),
{
    if bytes.len() > 0 {
        let t = bytes.drop_last();
        lemma_hex_lower_shape(t);
        let h = hex_lower(bytes);
        let b = bytes.last() as int;
        assert(h == hex_lower(t) + seq![hex_digit(b / 16), hex_digit(b % 16)]);
        assert(is_lower_hex_digit(hex_digit(b / 16)));
        assert(is_lower_hex_digit(hex_digit(b % 16)));
        assert forall|i: int| 0 <= i < h.len() implies is_lower_hex_digit(#[trigger] h[i]) by {
            if i < hex_lower(t).len() {
                assert(h[i] == hex_lower(t)[i]);
            }
        }
    }
}

/// The SHA-256 digest of `data`.
pub uninterp spec fn sha256(data: Seq<u8>) -> Seq<u8>;

/// `Sha256::digest(data)`: the 32-byte SHA-256 digest.
#[verifier::external_body]
pub(crate) fn sha256_digest(data: &[u8]) -> (r: Vec<u8>)
    ensures
        r@ == sha256(data@),
        r@.len() == 32,
{
    sha2::Sha256::digest(data).to_vec()
}

/// `hex::encode(data)`: lowercase hexadecimal, two digits per byte.
#[verifier::external_body]
pub(crate) fn hex_encode(data: &[u8]) -> (r: String)
    ensures
        r@ == hex_lower(data@),
{
    hex::encode(data)
}

/// The bytes that the standard base64 alphabet with padding decodes `text`
/// to, if it is valid base64.
pub uninterp spec fn base64_standard_decode(text: Seq<char>) -> Option<Seq<u8>>;

/// `general_purpose::STANDARD.decode(text)`: the decoded bytes, or the text of
/// the decode error (`DecodeError`'s `Display`, not stated here).
#[verifier::external_body]
pub(crate) fn base64_decode(text: &str) -> (r: Result<Vec<u8>, String>)
    ensures
        r is Ok <==> base64_standard_decode(text@) is Some,
        r matches Ok(b) ==> base64_standard_decode(text@) == Some(b@),
{
    base64::engine::general_purpose::STANDARD.decode(text).map_err(|e| e.to_string())
}

/// `ed25519::Signature::from_slice(bytes)`: succeeds exactly on 64 bytes,
/// which it keeps as they are. The error text is not stated here.
#[verifier::external_body]
pub(crate) fn signature_from_slice(bytes: &[u8]) -> (r: Result<[u8; 64], String>)
    ensures
        r is Ok <==> bytes@.len() == 64,
        r matches Ok(s) ==> s@ == bytes@,
{
    match ed25519_dalek::Signature::from_slice(bytes) {
        Ok(sig) => Ok(sig.to_bytes()),
        Err(e) => Err(e.to_string()),
    }
}

/// Whether `VerifyingKey::from_bytes(key)` accepts `key` as an ed25519 public
/// key (a point that decompresses).
pub uninterp spec fn ed25519_key_decodes(key: Seq<u8>) -> bool;

/// Whether `signature` is a valid ed25519 signature of `message` under `key`
/// (`Verifier::verify` of `ed25519-dalek`).
pub uninterp spec fn ed25519_signature_valid(key: Seq<u8>, message: Seq<u8>, signature: Seq<u8>) -> bool;

/// `VerifyingKey::from_bytes(key)`, keeping only whether it succeeded. The
/// error text is not stated here.
#[verifier::external_body]
pub(crate) fn check_verifying_key(key: &[u8; 32]) -> (r: Result<(), String>)
    ensures
        r is Ok <==> ed25519_key_decodes(key@),
{
    ed25519_dalek::VerifyingKey::from_bytes(key).map(|_| ()).map_err(|e| e.to_string())
}

/// `Verifier::verify` of the verifying key built from `key` on `message` and
/// the signature made of `signature`. The error text is not stated here.
#[verifier::external_body]
pub(crate) fn ed25519_verify(key: &[u8; 32], message: &[u8], signature: &[u8; 64]) -> (r: Result<(), String>)
    requires
        ed25519_key_decodes(key@),
    ensures
        r is Ok <==> ed25519_signature_valid(key@, message@, signature@),
{
    let vk = ed25519_dalek::VerifyingKey::from_bytes(key).unwrap();
    vk.verify(message, &ed25519_dalek::Signature::from_bytes(signature)).map_err(|e| e.to_string())
}

/// 32 bytes from the operating system's random number generator
/// (`OsRng::fill_bytes`). Nothing is stated of their value.
#[verifier::external_body]
pub(crate) fn random_bytes_32() -> (r: [u8; 32]) {
    let mut bytes = [0u8; 32];
    rand::rngs::OsRng.fill_bytes(&mut bytes);
    bytes
}

} // verus!
