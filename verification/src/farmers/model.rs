//! Farmer records and farmer identifiers (`va:farmer:G…`).
use vstd::prelude::*;

use crate::error::AppError;
use crate::strkey::{is_ed25519_public_key, strkey_is_ed25519_public_key};
use crate::text::{chars_of, push_str, string_of, strip_prefix, strip_prefix_spec};

verus! {

pub const FARMER_ID_PREFIX: &'static str = "va:farmer:";

/// Off-chain profile metadata of a farmer.
pub struct FarmerMetadata {
    pub name: String,
    pub region: Option<String>,
    pub district: Option<String>,
    pub bio: Option<String>,
    pub profile_image_hash: Option<String>,
}

/// A verification marker attached to a farmer's on-chain identity.
pub struct VerificationMarker {
    pub kind: String,
    pub issuer: String,
    pub issued_ledger: i64,
}

/// A farmer as the API returns it: on-chain identity fields plus the
/// off-chain profile.
pub struct Farmer {
    pub address: String,
    pub id: String,
    pub registered: bool,
    pub created_ledger: Option<i64>,
    pub updated_ledger: Option<i64>,
    pub metadata: FarmerMetadata,
    pub metadata_hash: String,
    pub verification_markers: Vec<VerificationMarker>,
}

/// Request to register a farmer.
pub struct RegisterFarmerRequest {
    pub address: String,
    pub metadata: FarmerMetadata,
    pub metadata_hash: Option<String>,
}

/// Request to replace a farmer's metadata.
pub struct UpdateMetadataRequest {
    pub metadata: FarmerMetadata,
}

/// The presentation identifier `va:farmer:{address}`.
pub open spec fn farmer_id_spec(address: Seq<char>) -> Seq<char> {
    FARMER_ID_PREFIX@ + address
}

/// The address an identifier names: the part after `va:farmer:` when it has
/// that prefix, else the whole input.
pub open spec fn farmer_address_spec(input: Seq<char>) -> Seq<char> {
    match strip_prefix_spec(input, FARMER_ID_PREFIX@) {
        Some(rest) => rest,
        None => input,
    }
}

/// Renders the presentation identifier `va:farmer:{address}`.
pub fn farmer_id(address: &str) -> (id: String)
    ensures
        id@ == farmer_id_spec(address@),
{
    let mut out = chars_of(FARMER_ID_PREFIX);
    push_str(&mut out, address);
    string_of(&out)
}

/// The address named by a farmer identifier, without checking it: the part
/// after `va:farmer:` when present, else the whole input.
pub fn farmer_identifier_address(input: &str) -> (address: String)
    ensures
        address@ == farmer_address_spec(input@),
{
    let chars = chars_of(input);
    let prefix = chars_of(FARMER_ID_PREFIX);
    match strip_prefix(&chars, &prefix) {
        Some(rest) => string_of(&rest),
        None => string_of(&chars),
    }
}

/// Parses a farmer identifier: either a raw Stellar public key (`G…`) or the
/// presentation form `va:farmer:G…`. Returns the address when it is a valid
/// ed25519 public-key strkey; otherwise a bad request naming the input.
pub fn parse_farmer_identifier(input: &str) -> (r: Result<String, AppError>)
    ensures
        r is Ok <==> strkey_is_ed25519_public_key(farmer_address_spec(input@)),
        r matches Ok(a) ==> a@ == farmer_address_spec(input@),
        r matches Err(e) ==> e matches AppError::BadRequest(m)
            && m@ == "invalid farmer address: "@ + input@,
{
    let address = farmer_identifier_address(input);
    if is_ed25519_public_key(address.as_str()) {
        Ok(address)
    } else {
        let mut msg = chars_of("invalid farmer address: ");
        push_str(&mut msg, input);
        Err(AppError::BadRequest(string_of(&msg)))
    }
}

/// The identifier of a farmer parses back to the farmer's address.
pub proof fn lemma_farmer_id_roundtrip(address: Seq<char>)
    ensures
        farmer_address_spec(farmer_id_spec(address)) == address,
{
    let id = farmer_id_spec(address);
    let p = FARMER_ID_PREFIX@;
    assert(id.subrange(0, p.len() as int) =~= p);
    assert(id.subrange(p.len() as int, id.len() as int) =~= address);
}

} // verus!
