//! Decisions of the farmer service: which requests are accepted, what is sent
//! to the identity chain, and the farmer record a registration yields. The
//! service itself, which calls the chain and the database, runs these.
use vstd::prelude::*;

use crate::error::{AppError, ErrorKind, error_view};
use crate::farmers::chain::{
    lemma_second_registration_refused, register_outcome, ChainError, ChainFarmer, ChainFarmerRecord,
};
use crate::farmers::hash::{metadata_hash, metadata_hash_spec};
use crate::farmers::model::{
    Farmer, FarmerMetadata, RegisterFarmerRequest, UpdateMetadataRequest, farmer_address_spec,
    farmer_id, farmer_id_spec, parse_farmer_identifier,
};
use crate::strkey::strkey_is_ed25519_public_key;
use crate::text::{chars_eq, chars_of, chars_of_string, string_of, trim, trim_spec};

verus! {

/// Message of the error answered when the actor is not the addressed farmer.
pub const ERR_UNAUTHORIZED_ACTOR: &'static str = "caller is not the addressed farmer";

/// Message of the error answered when the metadata name is blank.
pub const ERR_EMPTY_NAME: &'static str = "metadata.name must be non-empty";

/// Message of the error answered when a provided metadata hash is not the
/// canonical one.
pub const ERR_HASH_MISMATCH: &'static str = "provided metadataHash does not match canonical hash";

/// What checking an addressed request on behalf of `actor` decides: the
/// address and canonical metadata hash to send to the chain, or the error.
/// The checks run in this order: the identifier parses to a valid address,
/// the actor is that address, the name is not blank, and (for a
/// registration) a provided hash is the canonical one.
pub open spec fn check_spec(
    identifier: Seq<char>,
    metadata: FarmerMetadata,
    provided_hash: Option<Seq<char>>,
    actor: Seq<char>,
) -> Result<(Seq<char>, Seq<char>), (ErrorKind, Seq<char>)> {
    let address = farmer_address_spec(identifier);
    let canonical = metadata_hash_spec(metadata);
    if !strkey_is_ed25519_public_key(address) {
        Err((ErrorKind::BadRequest, "invalid farmer address: "@ + identifier))
    } else if actor != address {
        Err((ErrorKind::Unauthorized, ERR_UNAUTHORIZED_ACTOR@))
    } else if trim_spec(metadata.name@).len() == 0 {
        Err((ErrorKind::BadRequest, ERR_EMPTY_NAME@))
    } else if provided_hash is Some && provided_hash->Some_0 != canonical {
        Err((ErrorKind::BadRequest, ERR_HASH_MISMATCH@))
    } else {
        Ok((address, canonical))
    }
}

/// `check_spec`'s outcome for an executed check.
pub open spec fn check_matches(
    r: Result<(String, String), AppError>,
    spec: Result<(Seq<char>, Seq<char>), (ErrorKind, Seq<char>)>,
) -> bool {
    match r {
        Ok((a, h)) => spec == Ok::<(Seq<char>, Seq<char>), (ErrorKind, Seq<char>)>((a@, h@)),
        Err(e) => spec == Err::<(Seq<char>, Seq<char>), (ErrorKind, Seq<char>)>(error_view(e)),
    }
}

fn bad_request(message: &str) -> (e: AppError)
    ensures
        error_view(e) == (ErrorKind::BadRequest, message@),
{
    AppError::BadRequest(message.to_string())
}

fn unauthorized(message: &str) -> (e: AppError)
    ensures
        error_view(e) == (ErrorKind::Unauthorized, message@),
{
    AppError::Unauthorized(message.to_string())
}

fn check_addressed(
    identifier: &str,
    metadata: &FarmerMetadata,
    provided_hash: &Option<String>,
    actor: &str,
) -> (r: Result<(String, String), AppError>)
    ensures
        check_matches(
            r,
            check_spec(
                identifier@,
                *metadata,
                match provided_hash {
                    Some(h) => Some(h@),
                    None => None,
                },
                actor@,
            ),
        ),
{
    let address = match parse_farmer_identifier(identifier) {
        Ok(a) => a,
        Err(e) => return Err(e),
    };
    let actor_chars = chars_of(actor);
    let address_chars = chars_of_string(&address);
    if !chars_eq(&actor_chars, &address_chars) {
        return Err(unauthorized(ERR_UNAUTHORIZED_ACTOR));
    }
    let name = chars_of_string(&metadata.name);
    if trim(&name).len() == 0 {
        return Err(bad_request(ERR_EMPTY_NAME));
    }
    let canonical = metadata_hash(metadata);
    match provided_hash {
        Some(p) => {
            let pc = chars_of_string(p);
            let cc = chars_of_string(&canonical);
            if !chars_eq(&pc, &cc) {
                return Err(bad_request(ERR_HASH_MISMATCH));
            }
        },
        None => {},
    }
    Ok((address, canonical))
}

/// Checks a registration request made by `actor`: returns the address and
/// the canonical metadata hash to register on chain, or the error to answer.
pub fn check_register_request(req: &RegisterFarmerRequest, actor: &str) -> (r: Result<
    (String, String),
    AppError,
>)
    ensures
        check_matches(
            r,
            check_spec(
                req.address@,
                req.metadata,
                match req.metadata_hash {
                    Some(h) => Some(h@),
                    None => None,
                },
                actor@,
            ),
        ),
{
    check_addressed(req.address.as_str(), &req.metadata, &req.metadata_hash, actor)
}

/// Checks a metadata update for the farmer named by `identifier`, made by
/// `actor`: returns the address and the new canonical metadata hash, or the
/// error to answer.
pub fn check_update_request(identifier: &str, req: &UpdateMetadataRequest, actor: &str) -> (r:
    Result<(String, String), AppError>)
    ensures
        check_matches(r, check_spec(identifier@, req.metadata, None, actor@)),
{
    check_addressed(identifier, &req.metadata, &None, actor)
}

/// The kind and message of the error answered for a chain error.
pub open spec fn chain_error_answer(e: ChainError) -> (ErrorKind, Seq<char>) {
    match e {
        ChainError::AlreadyRegistered => (ErrorKind::Conflict, "farmer already registered"@),
        ChainError::NotFound => (ErrorKind::NotFound, "farmer not found on-chain"@),
        ChainError::Internal(m) => (ErrorKind::Internal, m@),
    }
}

/// The error answered for a chain error.
pub fn map_chain_error(e: ChainError) -> (r: AppError)
    ensures
        error_view(r) == chain_error_answer(e),
{
    match e {
        ChainError::AlreadyRegistered => AppError::Conflict("farmer already registered".to_string()),
        ChainError::NotFound => AppError::NotFound("farmer not found on-chain".to_string()),
        ChainError::Internal(msg) => AppError::Internal(msg),
    }
}

/// The farmer record a successful registration answers with: registered,
/// with the chain's ledgers, the request's metadata, the canonical hash and
/// no verification markers yet.
pub fn registered_farmer(
    address: String,
    metadata: FarmerMetadata,
    canonical_hash: String,
    chain_farmer: &ChainFarmer,
) -> (f: Farmer)
    ensures
        f.address@ == address@,
        f.id@ == farmer_id_spec(address@),
        f.registered,
        f.created_ledger == Some(chain_farmer.created_ledger),
        f.updated_ledger == Some(chain_farmer.updated_ledger),
        f.metadata == metadata,
        f.metadata_hash@ == canonical_hash@,
        f.verification_markers@.len() == 0,
{
    let id = farmer_id(address.as_str());
    Farmer {
        address,
        id,
        registered: true,
        created_ledger: Some(chain_farmer.created_ledger),
        updated_ledger: Some(chain_farmer.updated_ledger),
        metadata,
        metadata_hash: canonical_hash,
        verification_markers: Vec::new(),
    }
}

/// Registering an address that a registration already put on the chain is
/// answered with the conflict "farmer already registered", and the chain is
/// left as the first registration left it.
pub proof fn lemma_duplicate_registration_conflict(
    before: Seq<ChainFarmerRecord>,
    mid: Seq<ChainFarmerRecord>,
    after: Seq<ChainFarmerRecord>,
    address: Seq<char>,
    first: Result<ChainFarmer, ChainError>,
    second: Result<ChainFarmer, ChainError>,
)
    requires
        register_outcome(before, mid, address, first),
        first is Ok,
        register_outcome(mid, after, address, second),
    ensures
        second is Err,
        chain_error_answer(second->Err_0) == (ErrorKind::Conflict, "farmer already registered"@),
        after == mid,
{
    lemma_second_registration_refused(before, mid, after, address, first, second);
}

} // verus!
