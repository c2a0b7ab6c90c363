//! Stellar strkeys (SEP-23) through the `stellar-strkey` crate.
use vstd::prelude::*;

verus! {

/// Whether `Strkey::from_string(s)` decodes `s` to an ed25519 public key
/// (`Strkey::PublicKeyEd25519`): a `G…` key with a valid base32 body and
/// CRC16 checksum.
pub uninterp spec fn strkey_is_ed25519_public_key(s: Seq<char>) -> bool;

/// The 32-byte key that `ed25519::PublicKey::from_string(s)` decodes, if any.
pub uninterp spec fn ed25519_public_key_bytes(s: Seq<char>) -> Option<Seq<u8>>;

/// The strkey text of a 32-byte account key.
pub uninterp spec fn strkey_account(key: Seq<u8>) -> Seq<char>;

/// The strkey text of a 32-byte contract hash.
pub uninterp spec fn strkey_contract(hash: Seq<u8>) -> Seq<char>;

/// The strkey text of a muxed account: a 32-byte key and a 64-bit id.
pub uninterp spec fn strkey_muxed_account(key: Seq<u8>, id: u64) -> Seq<char>;

/// `Strkey::from_string(s)` is `Ok(Strkey::PublicKeyEd25519(_))`.
#[verifier::external_body]
pub(crate) fn is_ed25519_public_key(s: &str) -> (b: bool)
    ensures
        b == strkey_is_ed25519_public_key(s@),
{
    matches!(stellar_strkey::Strkey::from_string(s), Ok(stellar_strkey::Strkey::PublicKeyEd25519(_)))
}

/// `ed25519::PublicKey::from_string(s)`: the decoded key, or the text of the
/// decode error. The error text is `DecodeError`'s `Display` and is not
/// stated here.
#[verifier::external_body]
pub(crate) fn decode_ed25519_public_key(s: &str) -> (r: Result<[u8; 32], String>)
    ensures
        r is Ok <==> ed25519_public_key_bytes(s@) is Some,
        r matches Ok(k) ==> ed25519_public_key_bytes(s@) == Some(k@),
{
    match stellar_strkey::ed25519::PublicKey::from_string(s) {
        Ok(k) => Ok(k.0),
        Err(e) => Err(e.to_string()),
    }
}

/// `Strkey::PublicKeyEd25519(ed25519::PublicKey(key)).to_string()`: a `G…`
/// strkey of 56 characters, which decodes back to `key`.
#[verifier::external_body]
pub(crate) fn encode_account(key: &[u8; 32]) -> (r: String)
    ensures
        r@ == strkey_account(key@),
        r@.len() == 56,
        r@[0] == 'G',
        ed25519_public_key_bytes(r@) == Some(key@),
        strkey_is_ed25519_public_key(r@),
{
    stellar_strkey::Strkey::PublicKeyEd25519(stellar_strkey::ed25519::PublicKey(*key)).to_string().to_string()
}

/// `Strkey::Contract(Contract(hash)).to_string()`: a `C…` strkey of 56
/// characters.
#[verifier::external_body]
pub(crate) fn encode_contract(hash: &[u8; 32]) -> (r: String)
    ensures
        r@ == strkey_contract(hash@),
        r@.len() == 56,
        r@[0] == 'C',
{
    stellar_strkey::Strkey::Contract(stellar_strkey::Contract(*hash)).to_string().to_string()
}

/// `Strkey::MuxedAccountEd25519(MuxedAccount { ed25519: key, id }).to_string()`:
/// an `M…` strkey of 69 characters.
#[verifier::external_body]
pub(crate) fn encode_muxed_account(key: &[u8; 32], id: u64) -> (r: String)
    ensures
        r@ == strkey_muxed_account(key@, id),
        r@.len() == 69,
        r@[0] == 'M',
{
    stellar_strkey::Strkey::MuxedAccountEd25519(
        stellar_strkey::ed25519::MuxedAccount { ed25519: *key, id },
    ).to_string().to_string()
}

} // verus!
