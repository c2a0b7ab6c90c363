//! Projection builders: decode contract events and decide which projection
//! write each one makes.
use vstd::prelude::*;

use crate::ids::{counter_id, counter_id_spec};
use crate::indexer::model::{ChainEvent, EventRecord};
use crate::json::{
    Json, JsonValue, json_field, json_i64, json_index, json_str, json_u64,
};
use crate::farmers::model::{farmer_id, farmer_id_spec};
use crate::text::{chars_eq, chars_of, chars_of_string, opt_chars, push_str, string_of};
use crate::uuid_text::{parse_uuid, uuid_canonical};

verus! {

pub const VERIFICATION_PREFIX: &'static str = "va:verification";

pub const ESCROW_PREFIX: &'static str = "va:escrow";

/// Prefix of financing identifiers.
pub const FINANCING_PREFIX: &'static str = "va:financing";

/// Decoded `VerificationCreated` event.
pub struct VerificationCreated {
    pub verification_id: u64,
    pub batch_hex: String,
    pub subject: String,
    pub proof_hash: String,
    pub issuer: String,
    pub issued_ledger: i64,
}

/// Decoded `VerificationRevoked` event.
pub struct VerificationRevoked {
    pub verification_id: u64,
    pub revoked_ledger: i64,
}

/// Decoded `EscrowCreated` event.
pub struct EscrowCreated {
    pub escrow_id: u64,
    pub depositor: String,
    pub beneficiary: String,
    pub amount: i64,
    pub condition_kind: i32,
    pub condition_releaser: Option<String>,
    pub condition_timeout_ledger: Option<i64>,
    pub booking_ref_hex: String,
    pub created_ledger: i64,
    pub updated_ledger: i64,
}

/// Decoded `EscrowDeposited` event.
pub struct EscrowDeposited {
    pub escrow_id: u64,
    pub amount: i64,
    pub updated_ledger: i64,
}

/// Decoded `EscrowReleased` event.
pub struct EscrowReleased {
    pub escrow_id: u64,
    pub released_amount: i64,
    pub updated_ledger: i64,
}

/// Decoded `EscrowRefunded` event.
pub struct EscrowRefunded {
    pub escrow_id: u64,
    pub updated_ledger: i64,
}

/// Decoded `FinancingCreated` event.
pub struct FinancingCreated {
    pub financing_id: u64,
    pub funder: String,
    pub beneficiary: String,
    pub total_amount: i64,
    pub milestone_count: i32,
    pub milestones: JsonValue,
    pub updated_ledger: i64,
}

/// Decoded `FinancingDrawn` event.
pub struct FinancingDrawn {
    pub financing_id: u64,
    pub amount: i64,
    pub drawn_ledger: i64,
}

/// Decoded `FinancingRepaid` event.
pub struct FinancingRepaid {
    pub financing_id: u64,
    pub amount: i64,
    pub updated_ledger: i64,
}

/// Decoded `FinancingDefaulted` event.
pub struct FinancingDefaulted {
    pub financing_id: u64,
    pub defaulted_ledger: i64,
}

// ---------------------------------------------------------------------------
// Positional access to array payloads
// ---------------------------------------------------------------------------

/// The string at index `i` of an array payload.
pub open spec fn arg_str(data: Json, i: int) -> Option<Seq<char>> {
    match json_index(data, i) {
        Some(v) => json_str(v),
        None => None,
    }
}

/// The `u64` at index `i` of an array payload.
pub open spec fn arg_u64(data: Json, i: int) -> Option<u64> {
    match json_index(data, i) {
        Some(v) => json_u64(v),
        None => None,
    }
}

/// The `i64` at index `i` of an array payload.
pub open spec fn arg_i64(data: Json, i: int) -> Option<i64> {
    match json_index(data, i) {
        Some(v) => json_i64(v),
        None => None,
    }
}

/// The `i64` at index `i`, truncated to `i32` as `as i32` does.
pub open spec fn arg_i32(data: Json, i: int) -> Option<i32> {
    match arg_i64(data, i) {
        Some(v) => Some(v as i32),
        None => None,
    }
}

fn get_str(data: &JsonValue, i: usize) -> (r: Option<String>)
    ensures
        r matches Some(s) ==> arg_str(data@, i as int) == Some(s@),
        r is None ==> arg_str(data@, i as int) is None,
{
    match data.index(i) {
        Some(v) => v.as_string(),
        None => None,
    }
}

fn get_u64(data: &JsonValue, i: usize) -> (r: Option<u64>)
    ensures
        r == arg_u64(data@, i as int),
{
    match data.index(i) {
        Some(v) => v.as_u64(),
        None => None,
    }
}

fn get_i64(data: &JsonValue, i: usize) -> (r: Option<i64>)
    ensures
        r == arg_i64(data@, i as int),
{
    match data.index(i) {
        Some(v) => v.as_i64(),
        None => None,
    }
}

fn get_i32(data: &JsonValue, i: usize) -> (r: Option<i32>)
    ensures
        r == arg_i32(data@, i as int),
{
    match get_i64(data, i) {
        Some(v) => Some(v as i32),
        None => None,
    }
}

// ---------------------------------------------------------------------------
// Decoders
// ---------------------------------------------------------------------------

/// A `VerificationCreated` payload is
/// `[id, batch, subject, proof_hash, issuer, issued_ledger, ..]`.
pub open spec fn verification_created_ok(data: Json) -> bool {
    &&& arg_u64(data, 0) is Some
    &&& arg_str(data, 1) is Some
    &&& arg_str(data, 2) is Some
    &&& arg_str(data, 3) is Some
    &&& arg_str(data, 4) is Some
    &&& arg_i64(data, 5) is Some
}

pub fn decode_verification_created(event: &ChainEvent) -> (r: Option<VerificationCreated>)
    ensures
        r is Some <==> verification_created_ok(event.data@),
        r matches Some(v) ==> {
            &&& arg_u64(event.data@, 0) == Some(v.verification_id)
            &&& arg_str(event.data@, 1) == Some(v.batch_hex@)
            &&& arg_str(event.data@, 2) == Some(v.subject@)
            &&& arg_str(event.data@, 3) == Some(v.proof_hash@)
            &&& arg_str(event.data@, 4) == Some(v.issuer@)
            &&& arg_i64(event.data@, 5) == Some(v.issued_ledger)
        },
{
    let data = &event.data;
    let verification_id = match get_u64(data, 0) { Some(x) => x, None => return None };
    let batch_hex = match get_str(data, 1) { Some(x) => x, None => return None };
    let subject = match get_str(data, 2) { Some(x) => x, None => return None };
    let proof_hash = match get_str(data, 3) { Some(x) => x, None => return None };
    let issuer = match get_str(data, 4) { Some(x) => x, None => return None };
    let issued_ledger = match get_i64(data, 5) { Some(x) => x, None => return None };
    Some(VerificationCreated { verification_id, batch_hex, subject, proof_hash, issuer, issued_ledger })
}

/// A `VerificationRevoked` payload is `[id, _, _, revoked_ledger, ..]`.
pub open spec fn verification_revoked_ok(data: Json) -> bool {
    arg_u64(data, 0) is Some && arg_i64(data, 3) is Some
}

pub fn decode_verification_revoked(event: &ChainEvent) -> (r: Option<VerificationRevoked>)
    ensures
        r is Some <==> verification_revoked_ok(event.data@),
        r matches Some(v) ==> arg_u64(event.data@, 0) == Some(v.verification_id) && arg_i64(
            event.data@,
            3,
        ) == Some(v.revoked_ledger),
{
    let data = &event.data;
    let verification_id = match get_u64(data, 0) { Some(x) => x, None => return None };
    let revoked_ledger = match get_i64(data, 3) { Some(x) => x, None => return None };
    Some(VerificationRevoked { verification_id, revoked_ledger })
}

/// An `EscrowCreated` payload is `[id, depositor, beneficiary, amount,
/// condition_kind, releaser?, timeout_ledger?, booking_ref, created_ledger,
/// updated_ledger, ..]`; the releaser and timeout are optional.
pub open spec fn escrow_created_ok(data: Json) -> bool {
    &&& arg_u64(data, 0) is Some
    &&& arg_str(data, 1) is Some
    &&& arg_str(data, 2) is Some
    &&& arg_i64(data, 3) is Some
    &&& arg_i32(data, 4) is Some
    &&& arg_str(data, 7) is Some
    &&& arg_i64(data, 8) is Some
    &&& arg_i64(data, 9) is Some
}

pub fn decode_escrow_created(event: &ChainEvent) -> (r: Option<EscrowCreated>)
    ensures
        r is Some <==> escrow_created_ok(event.data@),
        r matches Some(v) ==> {
            &&& arg_u64(event.data@, 0) == Some(v.escrow_id)
            &&& arg_str(event.data@, 1) == Some(v.depositor@)
            &&& arg_str(event.data@, 2) == Some(v.beneficiary@)
            &&& arg_i64(event.data@, 3) == Some(v.amount)
            &&& arg_i32(event.data@, 4) == Some(v.condition_kind)
            &&& arg_str(event.data@, 5) == opt_chars(v.condition_releaser)
            &&& arg_i64(event.data@, 6) == v.condition_timeout_ledger
            &&& arg_str(event.data@, 7) == Some(v.booking_ref_hex@)
            &&& arg_i64(event.data@, 8) == Some(v.created_ledger)
            &&& arg_i64(event.data@, 9) == Some(v.updated_ledger)
        },
{
    let data = &event.data;
    let escrow_id = match get_u64(data, 0) { Some(x) => x, None => return None };
    let depositor = match get_str(data, 1) { Some(x) => x, None => return None };
    let beneficiary = match get_str(data, 2) { Some(x) => x, None => return None };
    let amount = match get_i64(data, 3) { Some(x) => x, None => return None };
    let condition_kind = match get_i32(data, 4) { Some(x) => x, None => return None };
    let condition_releaser = get_str(data, 5);
    let condition_timeout_ledger = get_i64(data, 6);
    let booking_ref_hex = match get_str(data, 7) { Some(x) => x, None => return None };
    let created_ledger = match get_i64(data, 8) { Some(x) => x, None => return None };
    let updated_ledger = match get_i64(data, 9) { Some(x) => x, None => return None };
    Some(
        EscrowCreated {
            escrow_id,
            depositor,
            beneficiary,
            amount,
            condition_kind,
            condition_releaser,
            condition_timeout_ledger,
            booking_ref_hex,
            created_ledger,
            updated_ledger,
        },
    )
}

/// An `EscrowDeposited` payload is `[id, _, amount, updated_ledger, ..]`.
pub open spec fn escrow_amount_ok(data: Json) -> bool {
    arg_u64(data, 0) is Some && arg_i64(data, 2) is Some && arg_i64(data, 3) is Some
}

pub fn decode_escrow_deposited(event: &ChainEvent) -> (r: Option<EscrowDeposited>)
    ensures
        r is Some <==> escrow_amount_ok(event.data@),
        r matches Some(v) ==> arg_u64(event.data@, 0) == Some(v.escrow_id) && arg_i64(
            event.data@,
            2,
        ) == Some(v.amount) && arg_i64(event.data@, 3) == Some(v.updated_ledger),
{
    let data = &event.data;
    let escrow_id = match get_u64(data, 0) { Some(x) => x, None => return None };
    let amount = match get_i64(data, 2) { Some(x) => x, None => return None };
    let updated_ledger = match get_i64(data, 3) { Some(x) => x, None => return None };
    Some(EscrowDeposited { escrow_id, amount, updated_ledger })
}

/// An `EscrowReleased` payload is `[id, _, released_amount, updated_ledger, ..]`.
pub fn decode_escrow_released(event: &ChainEvent) -> (r: Option<EscrowReleased>)
    ensures
        r is Some <==> escrow_amount_ok(event.data@),
        r matches Some(v) ==> arg_u64(event.data@, 0) == Some(v.escrow_id) && arg_i64(
            event.data@,
            2,
        ) == Some(v.released_amount) && arg_i64(event.data@, 3) == Some(v.updated_ledger),
{
    let data = &event.data;
    let escrow_id = match get_u64(data, 0) { Some(x) => x, None => return None };
    let released_amount = match get_i64(data, 2) { Some(x) => x, None => return None };
    let updated_ledger = match get_i64(data, 3) { Some(x) => x, None => return None };
    Some(EscrowReleased { escrow_id, released_amount, updated_ledger })
}

/// An `EscrowRefunded` payload is `[id, _, _, updated_ledger, ..]`.
pub open spec fn escrow_refunded_ok(data: Json) -> bool {
    arg_u64(data, 0) is Some && arg_i64(data, 3) is Some
}

pub fn decode_escrow_refunded(event: &ChainEvent) -> (r: Option<EscrowRefunded>)
    ensures
        r is Some <==> escrow_refunded_ok(event.data@),
        r matches Some(v) ==> arg_u64(event.data@, 0) == Some(v.escrow_id) && arg_i64(
            event.data@,
            3,
        ) == Some(v.updated_ledger),
{
    let data = &event.data;
    let escrow_id = match get_u64(data, 0) { Some(x) => x, None => return None };
    let updated_ledger = match get_i64(data, 3) { Some(x) => x, None => return None };
    Some(EscrowRefunded { escrow_id, updated_ledger })
}


/// A `FinancingCreated` payload is
/// `[id, funder, beneficiary, total_amount, milestone_count, milestones, ledger, ..]`.
pub open spec fn financing_created_ok(data: Json) -> bool {
    &&& arg_u64(data, 0) is Some
    &&& arg_str(data, 1) is Some
    &&& arg_str(data, 2) is Some
    &&& arg_i64(data, 3) is Some
    &&& arg_i32(data, 4) is Some
    &&& json_index(data, 5) is Some
    &&& arg_i64(data, 6) is Some
}

pub fn decode_financing_created(event: &ChainEvent) -> (r: Option<FinancingCreated>)
    ensures
        r is Some <==> financing_created_ok(event.data@),
        r matches Some(v) ==> {
            &&& arg_u64(event.data@, 0) == Some(v.financing_id)
            &&& arg_str(event.data@, 1) == Some(v.funder@)
            &&& arg_str(event.data@, 2) == Some(v.beneficiary@)
            &&& arg_i64(event.data@, 3) == Some(v.total_amount)
            &&& arg_i32(event.data@, 4) == Some(v.milestone_count)
            &&& json_index(event.data@, 5) == Some(v.milestones@)
            &&& arg_i64(event.data@, 6) == Some(v.updated_ledger)
        },
{
    let data = &event.data;
    let financing_id = match get_u64(data, 0) { Some(x) => x, None => return None };
    let funder = match get_str(data, 1) { Some(x) => x, None => return None };
    let beneficiary = match get_str(data, 2) { Some(x) => x, None => return None };
    let total_amount = match get_i64(data, 3) { Some(x) => x, None => return None };
    let milestone_count = match get_i32(data, 4) { Some(x) => x, None => return None };
    let milestones = match data.index(5) { Some(x) => x.duplicate(), None => return None };
    let updated_ledger = match get_i64(data, 6) { Some(x) => x, None => return None };
    Some(FinancingCreated { financing_id, funder, beneficiary, total_amount, milestone_count, milestones, updated_ledger })
}

/// A `FinancingDrawn` or `FinancingRepaid` payload is `[id, amount, ledger, ..]`.
pub open spec fn financing_amount_ok(data: Json) -> bool {
    arg_u64(data, 0) is Some && arg_i64(data, 1) is Some && arg_i64(data, 2) is Some
}

pub fn decode_financing_drawn(event: &ChainEvent) -> (r: Option<FinancingDrawn>)
    ensures
        r is Some <==> financing_amount_ok(event.data@),
        r matches Some(v) ==> arg_u64(event.data@, 0) == Some(v.financing_id) && arg_i64(
            event.data@,
            1,
        ) == Some(v.amount) && arg_i64(event.data@, 2) == Some(v.drawn_ledger),
{
    let data = &event.data;
    let financing_id = match get_u64(data, 0) { Some(x) => x, None => return None };
    let amount = match get_i64(data, 1) { Some(x) => x, None => return None };
    let drawn_ledger = match get_i64(data, 2) { Some(x) => x, None => return None };
    Some(FinancingDrawn { financing_id, amount, drawn_ledger })
}

pub fn decode_financing_repaid(event: &ChainEvent) -> (r: Option<FinancingRepaid>)
    ensures
        r is Some <==> financing_amount_ok(event.data@),
        r matches Some(v) ==> arg_u64(event.data@, 0) == Some(v.financing_id) && arg_i64(
            event.data@,
            1,
        ) == Some(v.amount) && arg_i64(event.data@, 2) == Some(v.updated_ledger),
{
    let data = &event.data;
    let financing_id = match get_u64(data, 0) { Some(x) => x, None => return None };
    let amount = match get_i64(data, 1) { Some(x) => x, None => return None };
    let updated_ledger = match get_i64(data, 2) { Some(x) => x, None => return None };
    Some(FinancingRepaid { financing_id, amount, updated_ledger })
}

/// A `FinancingDefaulted` payload is `[id, ledger, ..]`.
pub open spec fn financing_defaulted_ok(data: Json) -> bool {
    arg_u64(data, 0) is Some && arg_i64(data, 1) is Some
}

pub fn decode_financing_defaulted(event: &ChainEvent) -> (r: Option<FinancingDefaulted>)
    ensures
        r is Some <==> financing_defaulted_ok(event.data@),
        r matches Some(v) ==> arg_u64(event.data@, 0) == Some(v.financing_id) && arg_i64(
            event.data@,
            1,
        ) == Some(v.defaulted_ledger),
{
    let data = &event.data;
    let financing_id = match get_u64(data, 0) { Some(x) => x, None => return None };
    let defaulted_ledger = match get_i64(data, 1) { Some(x) => x, None => return None };
    Some(FinancingDefaulted { financing_id, defaulted_ledger })
}

/// `va:{kind}:{uuid}` when `hex` parses as a UUID, else `va:{kind}:{hex}`.
pub open spec fn uuid_ref_spec(kind: Seq<char>, hex: Seq<char>) -> Seq<char> {
    let tail = match uuid_canonical(hex) {
        Some(u) => u,
        None => hex,
    };
    seq!['v', 'a', ':'] + kind + seq![':'] + tail
}

/// Renders a backend-issued UUIDv7 reference from its hex form as
/// `va:{kind}:{uuid}`, falling back to the raw hex when it is not a UUID.
pub fn render_uuid7_ref(kind: &str, hex: &str) -> (r: String)
    ensures
        r@ == uuid_ref_spec(kind@, hex@),
{
    let mut out: Vec<char> = Vec::new();
    out.push('v');
    out.push('a');
    out.push(':');
    push_str(&mut out, kind);
    out.push(':');
    match parse_uuid(hex) {
        Some(u) => push_str(&mut out, u.as_str()),
        None => push_str(&mut out, hex),
    }
    let r = string_of(&out);
    assert(r@ =~= uuid_ref_spec(kind@, hex@));
    r
}


// ---------------------------------------------------------------------------
// Planning projection writes
// ---------------------------------------------------------------------------

/// A write to a projection that an event asks for.
#[allow(inconsistent_fields)]
pub enum ProjectionWrite {
    /// Insert or refresh a verification (not revoked when inserted).
    UpsertVerification {
        id: String,
        contract_id: String,
        batch_id: String,
        subject: String,
        proof_hash: String,
        issuer: String,
        issued_ledger: i64,
    },
    /// Mark a verification revoked at a ledger.
    RevokeVerification { id: String, revoked_ledger: i64 },
    /// Insert or refresh an escrow (open, nothing released when inserted).
    UpsertEscrow {
        id: String,
        contract_id: String,
        depositor: String,
        beneficiary: String,
        amount: i64,
        booking_ref: String,
        condition_kind: i32,
        condition_releaser: Option<String>,
        condition_timeout_ledger: Option<i64>,
        created_ledger: i64,
        updated_ledger: i64,
    },
    /// Add a deposit to an escrow's amount.
    AddEscrowDeposit { id: String, amount: i64, updated_ledger: i64 },
    /// Add a release to an escrow's released amount.
    ReleaseEscrow { id: String, released_amount: i64, updated_ledger: i64 },
    /// Close an escrow as refunded.
    RefundEscrow { id: String, updated_ledger: i64 },
    /// Insert or refresh a financing (active, nothing drawn or repaid when
    /// inserted).
    UpsertFinancing {
        id: String,
        contract_id: String,
        funder: String,
        beneficiary: String,
        total_amount: i64,
        milestone_count: i32,
        milestones: JsonValue,
        updated_ledger: i64,
    },
    /// Add a drawdown to a financing's drawn amount.
    DrawFinancing { id: String, amount: i64, ledger: i64 },
    /// Add a repayment to a financing's repaid amount.
    RepayFinancing { id: String, amount: i64, ledger: i64 },
    /// Mark a financing defaulted.
    DefaultFinancing { id: String, ledger: i64 },
    /// Insert or refresh a farmer's on-chain identity fields.
    UpsertIdentityFarmer {
        address: String,
        id: String,
        created_ledger: Option<i64>,
        updated_ledger: Option<i64>,
        verification_markers: JsonValue,
    },
    /// Refresh a farmer's updated ledger.
    UpdateIdentityMetadata { address: String, updated_ledger: Option<i64> },
    /// Append a verification marker to a farmer.
    AppendIdentityMarker { address: String, marker: JsonValue },
}

/// Mathematical form of a [`ProjectionWrite`].
#[allow(inconsistent_fields)]
pub enum WriteSpec {
    UpsertVerification {
        id: Seq<char>,
        contract_id: Seq<char>,
        batch_id: Seq<char>,
        subject: Seq<char>,
        proof_hash: Seq<char>,
        issuer: Seq<char>,
        issued_ledger: i64,
    },
    RevokeVerification { id: Seq<char>, revoked_ledger: i64 },
    UpsertEscrow {
        id: Seq<char>,
        contract_id: Seq<char>,
        depositor: Seq<char>,
        beneficiary: Seq<char>,
        amount: i64,
        booking_ref: Seq<char>,
        condition_kind: i32,
        condition_releaser: Option<Seq<char>>,
        condition_timeout_ledger: Option<i64>,
        created_ledger: i64,
        updated_ledger: i64,
    },
    AddEscrowDeposit { id: Seq<char>, amount: i64, updated_ledger: i64 },
    ReleaseEscrow { id: Seq<char>, released_amount: i64, updated_ledger: i64 },
    RefundEscrow { id: Seq<char>, updated_ledger: i64 },
    UpsertFinancing {
        id: Seq<char>,
        contract_id: Seq<char>,
        funder: Seq<char>,
        beneficiary: Seq<char>,
        total_amount: i64,
        milestone_count: i32,
        milestones: Json,
        updated_ledger: i64,
    },
    DrawFinancing { id: Seq<char>, amount: i64, ledger: i64 },
    RepayFinancing { id: Seq<char>, amount: i64, ledger: i64 },
    DefaultFinancing { id: Seq<char>, ledger: i64 },
    UpsertIdentityFarmer {
        address: Seq<char>,
        id: Seq<char>,
        created_ledger: Option<i64>,
        updated_ledger: Option<i64>,
        verification_markers: Json,
    },
    UpdateIdentityMetadata { address: Seq<char>, updated_ledger: Option<i64> },
    AppendIdentityMarker { address: Seq<char>, marker: Json },
}

impl View for ProjectionWrite {
    type V = WriteSpec;

    open spec fn view(&self) -> WriteSpec {
        match self {
            ProjectionWrite::UpsertVerification {
                id,
                contract_id,
                batch_id,
                subject,
                proof_hash,
                issuer,
                issued_ledger,
            } => WriteSpec::UpsertVerification {
                id: id@,
                contract_id: contract_id@,
                batch_id: batch_id@,
                subject: subject@,
                proof_hash: proof_hash@,
                issuer: issuer@,
                issued_ledger: *issued_ledger,
            },
            ProjectionWrite::RevokeVerification { id, revoked_ledger } => WriteSpec::RevokeVerification {
                id: id@,
                revoked_ledger: *revoked_ledger,
            },
            ProjectionWrite::UpsertEscrow {
                id,
                contract_id,
                depositor,
                beneficiary,
                amount,
                booking_ref,
                condition_kind,
                condition_releaser,
                condition_timeout_ledger,
                created_ledger,
                updated_ledger,
            } => WriteSpec::UpsertEscrow {
                id: id@,
                contract_id: contract_id@,
                depositor: depositor@,
                beneficiary: beneficiary@,
                amount: *amount,
                booking_ref: booking_ref@,
                condition_kind: *condition_kind,
                condition_releaser: opt_chars(*condition_releaser),
                condition_timeout_ledger: *condition_timeout_ledger,
                created_ledger: *created_ledger,
                updated_ledger: *updated_ledger,
            },
            ProjectionWrite::AddEscrowDeposit { id, amount, updated_ledger } => WriteSpec::AddEscrowDeposit {
                id: id@,
                amount: *amount,
                updated_ledger: *updated_ledger,
            },
            ProjectionWrite::ReleaseEscrow { id, released_amount, updated_ledger } => WriteSpec::ReleaseEscrow {
                id: id@,
                released_amount: *released_amount,
                updated_ledger: *updated_ledger,
            },
            ProjectionWrite::RefundEscrow { id, updated_ledger } => WriteSpec::RefundEscrow {
                id: id@,
                updated_ledger: *updated_ledger,
            },
            ProjectionWrite::UpsertFinancing {
                id,
                contract_id,
                funder,
                beneficiary,
                total_amount,
                milestone_count,
                milestones,
                updated_ledger,
            } => WriteSpec::UpsertFinancing {
                id: id@,
                contract_id: contract_id@,
                funder: funder@,
                beneficiary: beneficiary@,
                total_amount: *total_amount,
                milestone_count: *milestone_count,
                milestones: milestones@,
                updated_ledger: *updated_ledger,
            },
            ProjectionWrite::DrawFinancing { id, amount, ledger } => WriteSpec::DrawFinancing {
                id: id@,
                amount: *amount,
                ledger: *ledger,
            },
            ProjectionWrite::RepayFinancing { id, amount, ledger } => WriteSpec::RepayFinancing {
                id: id@,
                amount: *amount,
                ledger: *ledger,
            },
            ProjectionWrite::DefaultFinancing { id, ledger } => WriteSpec::DefaultFinancing {
                id: id@,
                ledger: *ledger,
            },
            ProjectionWrite::UpsertIdentityFarmer {
                address,
                id,
                created_ledger,
                updated_ledger,
                verification_markers,
            } => WriteSpec::UpsertIdentityFarmer {
                address: address@,
                id: id@,
                created_ledger: *created_ledger,
                updated_ledger: *updated_ledger,
                verification_markers: verification_markers@,
            },
            ProjectionWrite::UpdateIdentityMetadata { address, updated_ledger } => WriteSpec::UpdateIdentityMetadata {
                address: address@,
                updated_ledger: *updated_ledger,
            },
            ProjectionWrite::AppendIdentityMarker { address, marker } => WriteSpec::AppendIdentityMarker {
                address: address@,
                marker: marker@,
            },
        }
    }
}

/// The farmer address an identity event names: its first topic, a string.
pub open spec fn identity_address(topics: Json) -> Option<Seq<char>> {
    arg_str(topics, 0)
}

/// An integer field of an object payload.
pub open spec fn field_i64(data: Json, key: Seq<char>) -> Option<i64> {
    match json_field(data, key) {
        Some(v) => json_i64(v),
        None => None,
    }
}

/// The write an event asks for: `Ok(None)` for events no projection consumes,
/// `Err(message)` for a verification, escrow or identity event whose payload
/// does not decode. A financing event whose payload does not decode is not
/// consumed either (`Ok(None)`): nothing is projected from it.
pub open spec fn planned(e: EventRecord) -> Result<Option<WriteSpec>, Seq<char>> {
    let d = e.data;
    if e.contract_name == "verification"@ && e.event_name == "VerificationCreated"@ {
        if verification_created_ok(d) {
            Ok(Some(WriteSpec::UpsertVerification {
                id: counter_id_spec(VERIFICATION_PREFIX@, arg_u64(d, 0)->Some_0),
                contract_id: e.contract_id,
                batch_id: uuid_ref_spec("batch"@, arg_str(d, 1)->Some_0),
                subject: arg_str(d, 2)->Some_0,
                proof_hash: arg_str(d, 3)->Some_0,
                issuer: arg_str(d, 4)->Some_0,
                issued_ledger: arg_i64(d, 5)->Some_0,
            }))
        } else {
            Err("bad "@ + "VerificationCreated"@ + " payload"@)
        }
    } else if e.contract_name == "verification"@ && e.event_name == "VerificationRevoked"@ {
        if verification_revoked_ok(d) {
            Ok(Some(WriteSpec::RevokeVerification {
                id: counter_id_spec(VERIFICATION_PREFIX@, arg_u64(d, 0)->Some_0),
                revoked_ledger: arg_i64(d, 3)->Some_0,
            }))
        } else {
            Err("bad "@ + "VerificationRevoked"@ + " payload"@)
        }
    } else if e.contract_name == "escrow"@ && e.event_name == "EscrowCreated"@ {
        if escrow_created_ok(d) {
            Ok(Some(WriteSpec::UpsertEscrow {
                id: counter_id_spec(ESCROW_PREFIX@, arg_u64(d, 0)->Some_0),
                contract_id: e.contract_id,
                depositor: arg_str(d, 1)->Some_0,
                beneficiary: arg_str(d, 2)->Some_0,
                amount: arg_i64(d, 3)->Some_0,
                booking_ref: uuid_ref_spec("booking"@, arg_str(d, 7)->Some_0),
                condition_kind: arg_i32(d, 4)->Some_0,
                condition_releaser: arg_str(d, 5),
                condition_timeout_ledger: arg_i64(d, 6),
                created_ledger: arg_i64(d, 8)->Some_0,
                updated_ledger: arg_i64(d, 9)->Some_0,
            }))
        } else {
            Err("bad "@ + "EscrowCreated"@ + " payload"@)
        }
    } else if e.contract_name == "escrow"@ && e.event_name == "EscrowDeposited"@ {
        if escrow_amount_ok(d) {
            Ok(Some(WriteSpec::AddEscrowDeposit {
                id: counter_id_spec(ESCROW_PREFIX@, arg_u64(d, 0)->Some_0),
                amount: arg_i64(d, 2)->Some_0,
                updated_ledger: arg_i64(d, 3)->Some_0,
            }))
        } else {
            Err("bad "@ + "EscrowDeposited"@ + " payload"@)
        }
    } else if e.contract_name == "escrow"@ && e.event_name == "EscrowReleased"@ {
        if escrow_amount_ok(d) {
            Ok(Some(WriteSpec::ReleaseEscrow {
                id: counter_id_spec(ESCROW_PREFIX@, arg_u64(d, 0)->Some_0),
                released_amount: arg_i64(d, 2)->Some_0,
                updated_ledger: arg_i64(d, 3)->Some_0,
            }))
        } else {
            Err("bad "@ + "EscrowReleased"@ + " payload"@)
        }
    } else if e.contract_name == "escrow"@ && e.event_name == "EscrowRefunded"@ {
        if escrow_refunded_ok(d) {
            Ok(Some(WriteSpec::RefundEscrow {
                id: counter_id_spec(ESCROW_PREFIX@, arg_u64(d, 0)->Some_0),
                updated_ledger: arg_i64(d, 3)->Some_0,
            }))
        } else {
            Err("bad "@ + "EscrowRefunded"@ + " payload"@)
        }
    } else if e.contract_name == "financing"@ && e.event_name == "FinancingCreated"@ {
        if financing_created_ok(d) {
            Ok(Some(WriteSpec::UpsertFinancing {
                id: counter_id_spec(FINANCING_PREFIX@, arg_u64(d, 0)->Some_0),
                contract_id: e.contract_id,
                funder: arg_str(d, 1)->Some_0,
                beneficiary: arg_str(d, 2)->Some_0,
                total_amount: arg_i64(d, 3)->Some_0,
                milestone_count: arg_i32(d, 4)->Some_0,
                milestones: json_index(d, 5)->Some_0,
                updated_ledger: arg_i64(d, 6)->Some_0,
            }))
        } else {
            Ok(None)
        }
    } else if e.contract_name == "financing"@ && e.event_name == "FinancingDrawn"@ {
        if financing_amount_ok(d) {
            Ok(Some(WriteSpec::DrawFinancing {
                id: counter_id_spec(FINANCING_PREFIX@, arg_u64(d, 0)->Some_0),
                amount: arg_i64(d, 1)->Some_0,
                ledger: arg_i64(d, 2)->Some_0,
            }))
        } else {
            Ok(None)
        }
    } else if e.contract_name == "financing"@ && e.event_name == "FinancingRepaid"@ {
        if financing_amount_ok(d) {
            Ok(Some(WriteSpec::RepayFinancing {
                id: counter_id_spec(FINANCING_PREFIX@, arg_u64(d, 0)->Some_0),
                amount: arg_i64(d, 1)->Some_0,
                ledger: arg_i64(d, 2)->Some_0,
            }))
        } else {
            Ok(None)
        }
    } else if e.contract_name == "financing"@ && e.event_name == "FinancingDefaulted"@ {
        if financing_defaulted_ok(d) {
            Ok(Some(WriteSpec::DefaultFinancing {
                id: counter_id_spec(FINANCING_PREFIX@, arg_u64(d, 0)->Some_0),
                ledger: arg_i64(d, 1)->Some_0,
            }))
        } else {
            Ok(None)
        }
    } else if e.contract_name == "identity"@ && e.event_name == "FarmerRegistered"@ {
        match identity_address(e.topics) {
            Some(a) => Ok(Some(WriteSpec::UpsertIdentityFarmer {
                address: a,
                id: farmer_id_spec(a),
                created_ledger: field_i64(d, "created_ledger"@),
                updated_ledger: field_i64(d, "updated_ledger"@),
                verification_markers: match json_field(d, "verification_markers"@) {
                    Some(m) => m,
                    None => Json::Array(Seq::empty()),
                },
            })),
            None => Err("bad "@ + "FarmerRegistered"@ + " payload"@),
        }
    } else if e.contract_name == "identity"@ && e.event_name == "FarmerMetadataUpdated"@ {
        match identity_address(e.topics) {
            Some(a) => Ok(Some(WriteSpec::UpdateIdentityMetadata {
                address: a,
                updated_ledger: field_i64(d, "updated_ledger"@),
            })),
            None => Err("bad "@ + "FarmerMetadataUpdated"@ + " payload"@),
        }
    } else if e.contract_name == "identity"@ && e.event_name == "VerificationMarkerSet"@ {
        match identity_address(e.topics) {
            Some(a) => Ok(Some(WriteSpec::AppendIdentityMarker { address: a, marker: d })),
            None => Err("bad "@ + "VerificationMarkerSet"@ + " payload"@),
        }
    } else {
        Ok(None)
    }
}

/// Mathematical form of a planning outcome.
pub open spec fn plan_view(r: Result<Option<ProjectionWrite>, String>) -> Result<Option<WriteSpec>, Seq<char>> {
    match r {
        Ok(Some(w)) => Ok(Some(w@)),
        Ok(None) => Ok(None),
        Err(m) => Err(m@),
    }
}

fn is(s: &String, lit: &str) -> (b: bool)
    ensures
        b == (s@ == lit@),
{
    let a = chars_of_string(s);
    let l = chars_of(lit);
    chars_eq(&a, &l)
}

fn field_i64_of(data: &JsonValue, key: &str) -> (r: Option<i64>)
    ensures
        r == field_i64(data@, key@),
{
    match data.field(key) {
        Some(v) => v.as_i64(),
        None => None,
    }
}

fn identity_topic(event: &ChainEvent) -> (r: Option<String>)
    ensures
        opt_chars(r) == identity_address(event.topics@),
{
    get_str(&event.topics, 0)
}

fn bad_payload(name: &str) -> (m: String)
    ensures
        m@ == "bad "@ + name@ + " payload"@,
{
    let mut out = chars_of("bad ");
    push_str(&mut out, name);
    push_str(&mut out, " payload");
    string_of(&out)
}

/// Decides the projection write for a raw event: which projection consumes
/// it and with what values. Events of other contracts or names are not
/// consumed (`Ok(None)`), nor are financing events whose payload does not
/// decode; any other consumed event whose payload does not decode is an error
/// naming the event.
pub fn plan_event(event: &ChainEvent) -> (r: Result<Option<ProjectionWrite>, String>)
    ensures
        plan_view(r) == planned(event@),
        event.contract_name@ == "verification"@ && event.event_name@ == "VerificationCreated"@
            ==> (r matches Ok(Some(w)) ==> w matches ProjectionWrite::UpsertVerification {
            subject,
            issuer,
            ..
        } && json_index(event.data@, 2) == Some(Json::Str(subject@)) && json_index(
            event.data@,
            4,
        ) == Some(Json::Str(issuer@))),
{
    let c = &event.contract_name;
    let n = &event.event_name;
    if is(c, "verification") && is(n, "VerificationCreated") {
        match decode_verification_created(event) {
            Some(v) => {
                let id = counter_id(VERIFICATION_PREFIX, v.verification_id);
                let batch_id = render_uuid7_ref("batch", v.batch_hex.as_str());
                Ok(Some(ProjectionWrite::UpsertVerification {
                    id,
                    contract_id: event.contract_id.clone(),
                    batch_id,
                    subject: v.subject,
                    proof_hash: v.proof_hash,
                    issuer: v.issuer,
                    issued_ledger: v.issued_ledger,
                }))
            },
            None => Err(bad_payload("VerificationCreated")),
        }
    } else if is(c, "verification") && is(n, "VerificationRevoked") {
        match decode_verification_revoked(event) {
            Some(v) => Ok(Some(ProjectionWrite::RevokeVerification {
                id: counter_id(VERIFICATION_PREFIX, v.verification_id),
                revoked_ledger: v.revoked_ledger,
            })),
            None => Err(bad_payload("VerificationRevoked")),
        }
    } else if is(c, "escrow") && is(n, "EscrowCreated") {
        match decode_escrow_created(event) {
            Some(v) => {
                let id = counter_id(ESCROW_PREFIX, v.escrow_id);
                let booking_ref = render_uuid7_ref("booking", v.booking_ref_hex.as_str());
                Ok(Some(ProjectionWrite::UpsertEscrow {
                    id,
                    contract_id: event.contract_id.clone(),
                    depositor: v.depositor,
                    beneficiary: v.beneficiary,
                    amount: v.amount,
                    booking_ref,
                    condition_kind: v.condition_kind,
                    condition_releaser: v.condition_releaser,
                    condition_timeout_ledger: v.condition_timeout_ledger,
                    created_ledger: v.created_ledger,
                    updated_ledger: v.updated_ledger,
                }))
            },
            None => Err(bad_payload("EscrowCreated")),
        }
    } else if is(c, "escrow") && is(n, "EscrowDeposited") {
        match decode_escrow_deposited(event) {
            Some(v) => Ok(Some(ProjectionWrite::AddEscrowDeposit {
                id: counter_id(ESCROW_PREFIX, v.escrow_id),
                amount: v.amount,
                updated_ledger: v.updated_ledger,
            })),
            None => Err(bad_payload("EscrowDeposited")),
        }
    } else if is(c, "escrow") && is(n, "EscrowReleased") {
        match decode_escrow_released(event) {
            Some(v) => Ok(Some(ProjectionWrite::ReleaseEscrow {
                id: counter_id(ESCROW_PREFIX, v.escrow_id),
                released_amount: v.released_amount,
                updated_ledger: v.updated_ledger,
            })),
            None => Err(bad_payload("EscrowReleased")),
        }
    } else if is(c, "escrow") && is(n, "EscrowRefunded") {
        match decode_escrow_refunded(event) {
            Some(v) => Ok(Some(ProjectionWrite::RefundEscrow {
                id: counter_id(ESCROW_PREFIX, v.escrow_id),
                updated_ledger: v.updated_ledger,
            })),
            None => Err(bad_payload("EscrowRefunded")),
        }
    } else if is(c, "financing") && is(n, "FinancingCreated") {
        match decode_financing_created(event) {
            Some(v) => Ok(Some(ProjectionWrite::UpsertFinancing {
                id: counter_id(FINANCING_PREFIX, v.financing_id),
                contract_id: event.contract_id.clone(),
                funder: v.funder,
                beneficiary: v.beneficiary,
                total_amount: v.total_amount,
                milestone_count: v.milestone_count,
                milestones: v.milestones,
                updated_ledger: v.updated_ledger,
            })),
            None => Ok(None),
        }
    } else if is(c, "financing") && is(n, "FinancingDrawn") {
        match decode_financing_drawn(event) {
            Some(v) => Ok(Some(ProjectionWrite::DrawFinancing {
                id: counter_id(FINANCING_PREFIX, v.financing_id),
                amount: v.amount,
                ledger: v.drawn_ledger,
            })),
            None => Ok(None),
        }
    } else if is(c, "financing") && is(n, "FinancingRepaid") {
        match decode_financing_repaid(event) {
            Some(v) => Ok(Some(ProjectionWrite::RepayFinancing {
                id: counter_id(FINANCING_PREFIX, v.financing_id),
                amount: v.amount,
                ledger: v.updated_ledger,
            })),
            None => Ok(None),
        }
    } else if is(c, "financing") && is(n, "FinancingDefaulted") {
        match decode_financing_defaulted(event) {
            Some(v) => Ok(Some(ProjectionWrite::DefaultFinancing {
                id: counter_id(FINANCING_PREFIX, v.financing_id),
                ledger: v.defaulted_ledger,
            })),
            None => Ok(None),
        }
    } else if is(c, "identity") && is(n, "FarmerRegistered") {
        match identity_topic(event) {
            Some(address) => {
                let id = farmer_id(address.as_str());
                let created_ledger = field_i64_of(&event.data, "created_ledger");
                let updated_ledger = field_i64_of(&event.data, "updated_ledger");
                let verification_markers = match event.data.field("verification_markers") {
                    Some(m) => m.duplicate(),
                    None => {
                        let r = JsonValue::Array(Vec::new());
                        assert(r@->Array_0 =~= Seq::<Json>::empty());
                        r
                    },
                };
                Ok(Some(ProjectionWrite::UpsertIdentityFarmer {
                    address,
                    id,
                    created_ledger,
                    updated_ledger,
                    verification_markers,
                }))
            },
            None => Err(bad_payload("FarmerRegistered")),
        }
    } else if is(c, "identity") && is(n, "FarmerMetadataUpdated") {
        match identity_topic(event) {
            Some(address) => {
                let updated_ledger = field_i64_of(&event.data, "updated_ledger");
                Ok(Some(ProjectionWrite::UpdateIdentityMetadata { address, updated_ledger }))
            },
            None => Err(bad_payload("FarmerMetadataUpdated")),
        }
    } else if is(c, "identity") && is(n, "VerificationMarkerSet") {
        match identity_topic(event) {
            Some(address) => Ok(Some(ProjectionWrite::AppendIdentityMarker {
                address,
                marker: event.data.duplicate(),
            })),
            None => Err(bad_payload("VerificationMarkerSet")),
        }
    } else {
        Ok(None)
    }
}

/// A `VerificationCreated` event is projected with the payload's third
/// element as the subject and its fifth as the issuer, the event's contract as
/// the contract, and its id and ledger from the first and sixth elements.
pub proof fn lemma_verification_upsert_takes_subject_and_issuer(
    e: EventRecord,
    items: Seq<Json>,
    subject: Seq<char>,
    issuer: Seq<char>,
)
    requires
        e.contract_name == "verification"@,
        e.event_name == "VerificationCreated"@,
        e.data == Json::Array(items),
        verification_created_ok(e.data),
        items[2] == Json::Str(subject),
        items[4] == Json::Str(issuer),
    ensures
        planned(e) matches Ok(Some(w)) && w matches WriteSpec::UpsertVerification {
            subject: s,
            issuer: i,
            contract_id: c,
            issued_ledger: l,
            ..
        } && s == subject && i == issuer && c == e.contract_id && json_i64(items[5]) == Some(l),
{
}

/// The contract and event names the planning tells apart are distinct.
proof fn lemma_names_distinct()
    ensures
        "verification"@ != "escrow"@,
        "verification"@ != "financing"@,
        "verification"@ != "identity"@,
        "escrow"@ != "financing"@,
        "escrow"@ != "identity"@,
        "financing"@ != "identity"@,
        "VerificationRevoked"@ != "VerificationCreated"@,
        "EscrowDeposited"@ != "EscrowCreated"@,
        "EscrowReleased"@ != "EscrowCreated"@,
        "EscrowReleased"@ != "EscrowDeposited"@,
        "EscrowRefunded"@ != "EscrowCreated"@,
        "EscrowRefunded"@ != "EscrowDeposited"@,
        "EscrowRefunded"@ != "EscrowReleased"@,
        "FinancingDrawn"@ != "FinancingCreated"@,
        "FinancingRepaid"@ != "FinancingCreated"@,
        "FinancingRepaid"@ != "FinancingDrawn"@,
        "FinancingDefaulted"@ != "FinancingCreated"@,
        "FinancingDefaulted"@ != "FinancingDrawn"@,
        "FinancingDefaulted"@ != "FinancingRepaid"@,
        "FarmerMetadataUpdated"@ != "FarmerRegistered"@,
        "VerificationMarkerSet"@ != "FarmerRegistered"@,
        "VerificationMarkerSet"@ != "FarmerMetadataUpdated"@,
{
    reveal_strlit("verification");
    reveal_strlit("escrow");
    reveal_strlit("financing");
    reveal_strlit("identity");
    reveal_strlit("VerificationRevoked");
    reveal_strlit("VerificationCreated");
    reveal_strlit("EscrowCreated");
    reveal_strlit("EscrowDeposited");
    reveal_strlit("EscrowReleased");
    reveal_strlit("EscrowRefunded");
    reveal_strlit("FinancingCreated");
    reveal_strlit("FinancingDrawn");
    reveal_strlit("FinancingRepaid");
    reveal_strlit("FinancingDefaulted");
    reveal_strlit("FarmerRegistered");
    reveal_strlit("FarmerMetadataUpdated");
    reveal_strlit("VerificationMarkerSet");
    assert("verification"@[0] != "escrow"@[0]);
    assert("verification"@[0] != "financing"@[0]);
    assert("verification"@[0] != "identity"@[0]);
    assert("escrow"@[0] != "financing"@[0]);
    assert("escrow"@[0] != "identity"@[0]);
    assert("financing"@[0] != "identity"@[0]);
    assert("VerificationRevoked"@[12] != "VerificationCreated"@[12]);
    assert("EscrowDeposited"@[6] != "EscrowCreated"@[6]);
    assert("EscrowReleased"@[6] != "EscrowCreated"@[6]);
    assert("EscrowReleased"@[6] != "EscrowDeposited"@[6]);
    assert("EscrowRefunded"@[6] != "EscrowCreated"@[6]);
    assert("EscrowRefunded"@[6] != "EscrowDeposited"@[6]);
    assert("EscrowRefunded"@[8] != "EscrowReleased"@[8]);
    assert("FinancingDrawn"@[9] != "FinancingCreated"@[9]);
    assert("FinancingRepaid"@[9] != "FinancingCreated"@[9]);
    assert("FinancingRepaid"@[9] != "FinancingDrawn"@[9]);
    assert("FinancingDefaulted"@[9] != "FinancingCreated"@[9]);
    assert("FinancingDefaulted"@[10] != "FinancingDrawn"@[10]);
    assert("FinancingDefaulted"@[9] != "FinancingRepaid"@[9]);
    assert("FarmerMetadataUpdated"@[6] != "FarmerRegistered"@[6]);
    assert("VerificationMarkerSet"@[0] != "FarmerRegistered"@[0]);
    assert("VerificationMarkerSet"@[0] != "FarmerMetadataUpdated"@[0]);
}

/// A `VerificationRevoked` event revokes the verification numbered by the
/// payload's first element, at the ledger of its fourth.
pub proof fn lemma_verification_revoke_fields(e: EventRecord, items: Seq<Json>)
    requires
        e.contract_name == "verification"@,
        e.event_name == "VerificationRevoked"@,
        e.data == Json::Array(items),
        verification_revoked_ok(e.data),
    ensures
        planned(e) matches Ok(Some(w)) && w matches WriteSpec::RevokeVerification {
            id,
            revoked_ledger,
        } && json_i64(items[3]) == Some(revoked_ledger) && id == counter_id_spec(
            VERIFICATION_PREFIX@,
            json_u64(items[0])->Some_0,
        ),
{
    lemma_names_distinct();
}

/// An `EscrowCreated` event is projected with the payload's elements in
/// place: depositor second, beneficiary third, amount fourth, condition kind
/// fifth, releaser sixth, timeout seventh, created and updated ledgers ninth
/// and tenth; the contract is the event's.
pub proof fn lemma_escrow_created_fields(e: EventRecord, items: Seq<Json>)
    requires
        e.contract_name == "escrow"@,
        e.event_name == "EscrowCreated"@,
        e.data == Json::Array(items),
        escrow_created_ok(e.data),
    ensures
        planned(e) matches Ok(Some(w)) && w matches WriteSpec::UpsertEscrow {
            id,
            contract_id,
            depositor,
            beneficiary,
            amount,
            condition_releaser,
            condition_timeout_ledger,
            created_ledger,
            updated_ledger,
            ..
        } && {
            &&& id == counter_id_spec(ESCROW_PREFIX@, json_u64(items[0])->Some_0)
            &&& contract_id == e.contract_id
            &&& items[1] == Json::Str(depositor)
            &&& items[2] == Json::Str(beneficiary)
            &&& json_i64(items[3]) == Some(amount)
            &&& (items.len() > 5 && items[5] is Str ==> items[5] == Json::Str(
                condition_releaser->Some_0,
            ))
            &&& (items.len() > 6 ==> json_i64(items[6]) == condition_timeout_ledger)
            &&& json_i64(items[8]) == Some(created_ledger)
            &&& json_i64(items[9]) == Some(updated_ledger)
        },
{
    lemma_names_distinct();
}

/// Escrow deposits and releases carry their amount in the payload's third
/// element and their ledger in its fourth; refunds their ledger in the
/// fourth.
pub proof fn lemma_escrow_amount_fields(e: EventRecord, items: Seq<Json>)
    requires
        e.contract_name == "escrow"@,
        e.data == Json::Array(items),
    ensures
        e.event_name == "EscrowDeposited"@ && escrow_amount_ok(e.data) ==> (planned(e) matches Ok(
            Some(w),
        ) && w matches WriteSpec::AddEscrowDeposit { id, amount, updated_ledger } && json_i64(
            items[2],
        ) == Some(amount) && json_i64(items[3]) == Some(updated_ledger) && id == counter_id_spec(
            ESCROW_PREFIX@,
            json_u64(items[0])->Some_0,
        )),
        e.event_name == "EscrowReleased"@ && escrow_amount_ok(e.data) ==> (planned(e) matches Ok(
            Some(w),
        ) && w matches WriteSpec::ReleaseEscrow { id, released_amount, updated_ledger }
            && json_i64(items[2]) == Some(released_amount) && json_i64(items[3]) == Some(
            updated_ledger,
        ) && id == counter_id_spec(ESCROW_PREFIX@, json_u64(items[0])->Some_0)),
        e.event_name == "EscrowRefunded"@ && escrow_refunded_ok(e.data) ==> (planned(e) matches Ok(
            Some(w),
        ) && w matches WriteSpec::RefundEscrow { id, updated_ledger } && json_i64(items[3])
            == Some(updated_ledger) && id == counter_id_spec(
            ESCROW_PREFIX@,
            json_u64(items[0])->Some_0,
        )),
{
    lemma_names_distinct();
}

/// Financing events carry, in order: for a creation the funder, beneficiary,
/// total, milestone count, milestones and ledger after the id; for draws and
/// repayments the amount and ledger; for a default the ledger.
pub proof fn lemma_financing_fields(e: EventRecord, items: Seq<Json>)
    requires
        e.contract_name == "financing"@,
        e.data == Json::Array(items),
    ensures
        e.event_name == "FinancingCreated"@ && financing_created_ok(e.data) ==> (planned(e) matches Ok(
            Some(w),
        ) && w matches WriteSpec::UpsertFinancing {
            id,
            contract_id,
            funder,
            beneficiary,
            total_amount,
            milestones,
            updated_ledger,
            ..
        } && id == counter_id_spec(FINANCING_PREFIX@, json_u64(items[0])->Some_0) && contract_id
            == e.contract_id && items[1] == Json::Str(funder) && items[2] == Json::Str(beneficiary)
            && json_i64(items[3]) == Some(total_amount) && milestones == items[5] && json_i64(
            items[6],
        ) == Some(updated_ledger)),
        e.event_name == "FinancingDrawn"@ && financing_amount_ok(e.data) ==> (planned(e) matches Ok(
            Some(w),
        ) && w matches WriteSpec::DrawFinancing { amount, ledger, .. } && json_i64(items[1])
            == Some(amount) && json_i64(items[2]) == Some(ledger)),
        e.event_name == "FinancingRepaid"@ && financing_amount_ok(e.data) ==> (planned(e) matches Ok(
            Some(w),
        ) && w matches WriteSpec::RepayFinancing { amount, ledger, .. } && json_i64(items[1])
            == Some(amount) && json_i64(items[2]) == Some(ledger)),
        e.event_name == "FinancingDefaulted"@ && financing_defaulted_ok(e.data) ==> (planned(e) matches Ok(
            Some(w),
        ) && w matches WriteSpec::DefaultFinancing { ledger, .. } && json_i64(items[1]) == Some(
            ledger,
        )),
{
    lemma_names_distinct();
}

/// Identity events address the farmer named by their first topic; a marker
/// event appends its whole payload as the marker.
pub proof fn lemma_identity_fields(e: EventRecord, topics: Seq<Json>, address: Seq<char>)
    requires
        e.contract_name == "identity"@,
        e.topics == Json::Array(topics),
        topics.len() > 0,
        topics[0] == Json::Str(address),
    ensures
        e.event_name == "FarmerRegistered"@ ==> (planned(e) matches Ok(Some(w)) && w matches WriteSpec::UpsertIdentityFarmer {
            address: a,
            id,
            ..
        } && a == address && id == farmer_id_spec(address)),
        e.event_name == "FarmerMetadataUpdated"@ ==> (planned(e) matches Ok(Some(w)) && w matches WriteSpec::UpdateIdentityMetadata {
            address: a,
            ..
        } && a == address),
        e.event_name == "VerificationMarkerSet"@ ==> (planned(e) matches Ok(Some(w)) && w matches WriteSpec::AppendIdentityMarker {
            address: a,
            marker,
        } && a == address && marker == e.data),
{
    lemma_names_distinct();
}

} // verus!
