use verdant_backend::error::AppError;
use verdant_backend::farmers::chain::{ChainError, IdentityChain, StubChain};
use verdant_backend::farmers::hash::metadata_hash;
use verdant_backend::farmers::ids::{document_id, uuid7};
use verdant_backend::farmers::model::{
    farmer_id, parse_farmer_identifier, FarmerMetadata, RegisterFarmerRequest,
    UpdateMetadataRequest,
};
use verdant_backend::farmers::service::{
    check_register_request, check_update_request, map_chain_error, registered_farmer,
    ERR_EMPTY_NAME, ERR_HASH_MISMATCH, ERR_UNAUTHORIZED_ACTOR,
};

const VALID: &str = "GAAAAAAAAAAAAAAAAAAAAAAAAAAAAAAAAAAAAAAAAAAAAAAAAAAAAWHF";

fn sample() -> FarmerMetadata {
    FarmerMetadata {
        name: "Ada Farm Cooperative".into(),
        region: Some("Niger".into()),
        district: None,
        bio: None,
        profile_image_hash: None,
    }
}

fn status_and_message(e: &AppError) -> (u16, String) {
    (e.status(), e.message().clone())
}

#[test]
fn parses_raw_address() {
    assert_eq!(parse_farmer_identifier(VALID).ok().unwrap(), VALID);
}

#[test]
fn model_parses_presentation_form() {
    let input = farmer_id(VALID);
    assert_eq!(parse_farmer_identifier(&input).ok().unwrap(), VALID);
}

#[test]
fn renders_presentation_id() {
    assert_eq!(farmer_id(VALID), format!("va:farmer:{VALID}"));
}

#[test]
fn rejects_invalid_address() {
    assert!(parse_farmer_identifier("not-a-key").is_err());
    assert!(parse_farmer_identifier("va:farmer:not-a-key").is_err());
    assert!(parse_farmer_identifier("").is_err());
}

#[test]
fn invalid_identifier_error_names_the_input() {
    let e = parse_farmer_identifier("va:farmer:nope").err().unwrap();
    assert_eq!(
        status_and_message(&e),
        (400, "invalid farmer address: va:farmer:nope".to_string())
    );
}

#[test]
fn hash_is_stable_and_hex() {
    let a = metadata_hash(&sample());
    let b = metadata_hash(&sample());
    assert_eq!(a, b);
    assert_eq!(a.len(), 64);
    assert!(a.chars().all(|c| c.is_ascii_hexdigit()));
}

#[test]
fn optional_fields_change_the_hash() {
    let mut other = sample();
    other.bio = Some("Grows millet".into());
    assert_ne!(metadata_hash(&sample()), metadata_hash(&other));
}

#[test]
fn hash_is_sha256_of_sorted_canonical_json() {
    // sha256 of {"name":"Ada Farm Cooperative","region":"Niger"}
    assert_eq!(
        metadata_hash(&sample()),
        "860ab88078fdd03032c3f915a07cecae5e1fb1899f7307f9ba9bf3f58ad76aa2"
    );
    let mut other = sample();
    other.bio = Some("Grows millet".into());
    // sha256 of {"bio":"Grows millet","name":"Ada Farm Cooperative","region":"Niger"}
    assert_eq!(
        metadata_hash(&other),
        "8ba6042dcf999efda4dee9c4074cb1c049d572ee09bcfa2184d065ba5b4e72ec"
    );
}

#[test]
fn document_and_uuid_ids_are_prefixed() {
    assert_eq!(document_id("abc123"), "va:doc:abc123");
    let id = uuid7();
    assert_eq!(id.len(), 36);
    assert_eq!(id.as_bytes()[14], b'7');
    assert_ne!(uuid7(), id);
}

#[test]
fn stub_chain_registers_once_and_stamps_ledgers() {
    let mut chain = StubChain::new();
    assert_eq!(chain.is_registered(VALID).ok(), Some(false));
    let first = chain.register_farmer(VALID, "h1").ok().unwrap();
    assert_eq!(first.address, VALID);
    assert_eq!(first.created_ledger, 100_000);
    assert_eq!(first.updated_ledger, 100_000);
    assert!(first.verification_markers.is_empty());
    assert_eq!(chain.is_registered(VALID).ok(), Some(true));
    assert!(matches!(
        chain.register_farmer(VALID, "h2"),
        Err(ChainError::AlreadyRegistered)
    ));
    let second = chain.register_farmer("GOTHER", "h").ok().unwrap();
    assert_eq!(second.created_ledger, 100_001);
}

#[test]
fn stub_chain_updates_only_registered_farmers() {
    let mut chain = StubChain::new();
    assert!(matches!(
        chain.update_metadata(VALID, "h"),
        Err(ChainError::NotFound)
    ));
    chain.register_farmer(VALID, "h1").ok().unwrap();
    chain.register_farmer("GOTHER", "h").ok().unwrap();
    let updated = chain.update_metadata(VALID, "h2").ok().unwrap();
    assert_eq!(updated.created_ledger, 100_000);
    assert_eq!(updated.updated_ledger, 100_002);
}

#[test]
fn stub_chain_through_the_trait() {
    let mut chain = StubChain::new();
    let c: &mut dyn IdentityChain = &mut chain;
    assert!(c.register_farmer(VALID, "h").is_ok());
    assert_eq!(c.is_registered(VALID).ok(), Some(true));
    assert!(c.update_metadata(VALID, "h2").is_ok());
}

#[test]
fn register_request_checks_in_order() {
    let ok = RegisterFarmerRequest {
        address: VALID.into(),
        metadata: sample(),
        metadata_hash: None,
    };
    let (address, hash) = check_register_request(&ok, VALID).ok().unwrap();
    assert_eq!(address, VALID);
    assert_eq!(hash, metadata_hash(&sample()));

    let bad_address = RegisterFarmerRequest {
        address: "GNOPE".into(),
        metadata: sample(),
        metadata_hash: None,
    };
    let e = check_register_request(&bad_address, VALID).err().unwrap();
    assert_eq!(e.status(), 400);

    let e = check_register_request(&ok, "GSOMEONEELSE").err().unwrap();
    assert_eq!(status_and_message(&e), (401, ERR_UNAUTHORIZED_ACTOR.to_string()));

    let mut blank = sample();
    blank.name = "   ".into();
    let blank_req = RegisterFarmerRequest {
        address: VALID.into(),
        metadata: blank,
        metadata_hash: None,
    };
    let e = check_register_request(&blank_req, VALID).err().unwrap();
    assert_eq!(status_and_message(&e), (400, ERR_EMPTY_NAME.to_string()));

    let mismatch = RegisterFarmerRequest {
        address: VALID.into(),
        metadata: sample(),
        metadata_hash: Some("00".into()),
    };
    let e = check_register_request(&mismatch, VALID).err().unwrap();
    assert_eq!(status_and_message(&e), (400, ERR_HASH_MISMATCH.to_string()));

    let matching = RegisterFarmerRequest {
        address: VALID.into(),
        metadata: sample(),
        metadata_hash: Some(metadata_hash(&sample())),
    };
    assert!(check_register_request(&matching, VALID).is_ok());
}

#[test]
fn update_request_accepts_presentation_form() {
    let req = UpdateMetadataRequest { metadata: sample() };
    let (address, _) = check_update_request(&farmer_id(VALID), &req, VALID).ok().unwrap();
    assert_eq!(address, VALID);
    let e = check_update_request(VALID, &req, "GOTHER").err().unwrap();
    assert_eq!(e.status(), 401);
}

#[test]
fn chain_errors_map_to_http_errors() {
    let e = map_chain_error(ChainError::AlreadyRegistered);
    assert_eq!(status_and_message(&e), (409, "farmer already registered".to_string()));
    let e = map_chain_error(ChainError::NotFound);
    assert_eq!(status_and_message(&e), (404, "farmer not found on-chain".to_string()));
    let e = map_chain_error(ChainError::Internal("boom".into()));
    assert_eq!(status_and_message(&e), (500, "boom".to_string()));
}

#[test]
fn registration_yields_registered_farmer() {
    let mut chain = StubChain::new();
    let cf = chain.register_farmer(VALID, "h").ok().unwrap();
    let f = registered_farmer(VALID.into(), sample(), "h".into(), &cf);
    assert_eq!(f.id, format!("va:farmer:{VALID}"));
    assert!(f.registered);
    assert_eq!(f.created_ledger, Some(100_000));
    assert_eq!(f.updated_ledger, Some(100_000));
    assert_eq!(f.metadata.name, "Ada Farm Cooperative");
    assert_eq!(f.metadata_hash, "h");
    assert!(f.verification_markers.is_empty());
}

#[test]
fn second_registration_is_answered_with_a_conflict() {
    let mut chain = StubChain::new();
    chain.register_farmer(VALID, "h1").ok().unwrap();
    let answer = match chain.register_farmer(VALID, "h1") {
        Err(e) => map_chain_error(e),
        Ok(_) => panic!("a second registration must be refused"),
    };
    assert!(matches!(answer, AppError::Conflict(ref m) if m == "farmer already registered"));
    assert_eq!(chain.is_registered(VALID).ok(), Some(true));
}
