//! What each projection write does to the row it addresses (verification,
//! escrow, financing, farmer identity). The indexer reads the row with the
//! position of the last event applied to it, applies the event here and
//! stores the result; an event at or before that position is skipped, so
//! replays change nothing.
use vstd::prelude::*;

use crate::indexer::model::{position_lt, Cursor};
use crate::indexer::projections::{ProjectionWrite, WriteSpec};
use crate::indexer::rpc::object_view;
use crate::json::{Json, JsonValue};
use crate::routes::projections::{Escrow, Financing, Verification};
use crate::text::opt_chars;

verus! {

pub const STATUS_OPEN: &'static str = "open";

pub const STATUS_RELEASED: &'static str = "released";

pub const STATUS_REFUNDED: &'static str = "refunded";

pub const STATUS_ACTIVE: &'static str = "active";

pub const STATUS_REPAID: &'static str = "repaid";

pub const STATUS_DEFAULTED: &'static str = "defaulted";

/// Message of a write that would take an amount out of `i64`.
pub const ERR_AMOUNT_RANGE: &'static str = "bigint out of range";

/// Mathematical form of an escrow row.
pub struct EscrowState {
    pub id: Seq<char>,
    pub contract_id: Seq<char>,
    pub depositor: Seq<char>,
    pub beneficiary: Seq<char>,
    pub amount: i64,
    pub released_amount: i64,
    pub booking_ref: Option<Seq<char>>,
    pub condition_kind: i32,
    pub condition_releaser: Option<Seq<char>>,
    pub condition_timeout_ledger: Option<i64>,
    pub created_ledger: i64,
    pub updated_ledger: i64,
    pub status: Seq<char>,
}

impl View for Escrow {
    type V = EscrowState;

    open spec fn view(&self) -> EscrowState {
        EscrowState {
            id: self.id@,
            contract_id: self.contract_id@,
            depositor: self.depositor@,
            beneficiary: self.beneficiary@,
            amount: self.amount,
            released_amount: self.released_amount,
            booking_ref: opt_chars(self.booking_ref),
            condition_kind: self.condition_kind,
            condition_releaser: opt_chars(self.condition_releaser),
            condition_timeout_ledger: self.condition_timeout_ledger,
            created_ledger: self.created_ledger,
            updated_ledger: self.updated_ledger,
            status: self.status@,
        }
    }
}

/// Mathematical form of a verification row.
pub struct VerificationState {
    pub id: Seq<char>,
    pub contract_id: Seq<char>,
    pub batch_id: Seq<char>,
    pub subject: Seq<char>,
    pub proof_hash: Seq<char>,
    pub issuer: Seq<char>,
    pub issued_ledger: i64,
    pub revoked: bool,
    pub revoked_ledger: Option<i64>,
}

impl View for Verification {
    type V = VerificationState;

    open spec fn view(&self) -> VerificationState {
        VerificationState {
            id: self.id@,
            contract_id: self.contract_id@,
            batch_id: self.batch_id@,
            subject: self.subject@,
            proof_hash: self.proof_hash@,
            issuer: self.issuer@,
            issued_ledger: self.issued_ledger,
            revoked: self.revoked,
            revoked_ledger: self.revoked_ledger,
        }
    }
}

/// A write that addresses an escrow row.
pub open spec fn is_escrow_write(w: WriteSpec) -> bool {
    ||| w is UpsertEscrow
    ||| w is AddEscrowDeposit
    ||| w is ReleaseEscrow
    ||| w is RefundEscrow
}

/// A write that addresses a verification row.
pub open spec fn is_verification_write(w: WriteSpec) -> bool {
    w is UpsertVerification || w is RevokeVerification
}

/// The escrow row after `w`, from the row before (`None`: no row). Creation
/// inserts an open escrow with nothing released, or refreshes every field but
/// the released amount and status of an existing one. A deposit adds to the
/// amount; a release adds to the released amount and marks the escrow
/// released once it covers the amount; a refund closes it with the whole
/// amount released. Deposits, releases and refunds leave a missing row
/// missing; an amount leaving `i64` is an error.
pub open spec fn escrow_after(before: Option<EscrowState>, w: WriteSpec) -> Result<Option<EscrowState>, Seq<char>> {
    match w {
        WriteSpec::UpsertEscrow {
            id,
            contract_id,
            depositor,
            beneficiary,
            amount,
            booking_ref,
            condition_kind,
            condition_releaser,
            condition_timeout_ledger,
            created_ledger,
            updated_ledger,
        } => {
            let (released_amount, status) = match before {
                Some(b) => (b.released_amount, b.status),
                None => (0i64, STATUS_OPEN@),
            };
            Ok(Some(EscrowState {
                id,
                contract_id,
                depositor,
                beneficiary,
                amount,
                released_amount,
                booking_ref: Some(booking_ref),
                condition_kind,
                condition_releaser,
                condition_timeout_ledger,
                created_ledger,
                updated_ledger,
                status,
            }))
        },
        WriteSpec::AddEscrowDeposit { amount, updated_ledger, .. } => match before {
            None => Ok(None),
            Some(b) => if i64::MIN <= b.amount + amount <= i64::MAX {
                Ok(Some(EscrowState { amount: (b.amount + amount) as i64, updated_ledger, ..b }))
            } else {
                Err(ERR_AMOUNT_RANGE@)
            },
        },
        WriteSpec::ReleaseEscrow { released_amount, updated_ledger, .. } => match before {
            None => Ok(None),
            Some(b) => if i64::MIN <= b.released_amount + released_amount <= i64::MAX {
                let total = (b.released_amount + released_amount) as i64;
                Ok(Some(EscrowState {
                    released_amount: total,
                    updated_ledger,
                    status: if total >= b.amount { STATUS_RELEASED@ } else { STATUS_OPEN@ },
                    ..b
                }))
            } else {
                Err(ERR_AMOUNT_RANGE@)
            },
        },
        WriteSpec::RefundEscrow { updated_ledger, .. } => match before {
            None => Ok(None),
            Some(b) => Ok(Some(EscrowState {
                status: STATUS_REFUNDED@,
                released_amount: b.amount,
                updated_ledger,
                ..b
            })),
        },
        _ => Ok(before),
    }
}

/// The verification row after `w`. Creation inserts an unrevoked
/// verification, or refreshes every field but the revocation of an existing
/// one; revocation marks an existing row revoked at a ledger.
pub open spec fn verification_after(before: Option<VerificationState>, w: WriteSpec) -> Option<VerificationState> {
    match w {
        WriteSpec::UpsertVerification {
            id,
            contract_id,
            batch_id,
            subject,
            proof_hash,
            issuer,
            issued_ledger,
        } => {
            let (revoked, revoked_ledger) = match before {
                Some(b) => (b.revoked, b.revoked_ledger),
                None => (false, None),
            };
            Some(VerificationState {
                id,
                contract_id,
                batch_id,
                subject,
                proof_hash,
                issuer,
                issued_ledger,
                revoked,
                revoked_ledger,
            })
        },
        WriteSpec::RevokeVerification { revoked_ledger, .. } => match before {
            None => None,
            Some(b) => Some(VerificationState { revoked: true, revoked_ledger: Some(revoked_ledger), ..b }),
        },
        _ => before,
    }
}

/// `Some(e@)` for `Some(e)`.
pub open spec fn escrow_opt(o: Option<Escrow>) -> Option<EscrowState> {
    match o {
        Some(e) => Some(e@),
        None => None,
    }
}

/// `Some(v@)` for `Some(v)`.
pub open spec fn verification_opt(o: Option<Verification>) -> Option<VerificationState> {
    match o {
        Some(v) => Some(v@),
        None => None,
    }
}

/// Applies an escrow write to the row it addresses.
pub fn apply_escrow_write(before: Option<Escrow>, write: &ProjectionWrite) -> (r: Result<Option<Escrow>, String>)
    requires
        is_escrow_write(write@),
    ensures
        match r {
            Ok(after) => escrow_after(escrow_opt(before), write@) == Ok::<Option<EscrowState>, Seq<char>>(escrow_opt(after)),
            Err(m) => escrow_after(escrow_opt(before), write@) == Err::<Option<EscrowState>, Seq<char>>(m@),
        },
{
    match write {
        ProjectionWrite::UpsertEscrow {
            id,
            contract_id,
            depositor,
            beneficiary,
            amount,
            booking_ref,
            condition_kind,
            condition_releaser,
            condition_timeout_ledger,
            created_ledger,
            updated_ledger,
        } => {
            let (released_amount, status) = match before {
                Some(b) => (b.released_amount, b.status),
                None => (0i64, STATUS_OPEN.to_string()),
            };
            let releaser = match condition_releaser {
                Some(x) => Some(x.clone()),
                None => None,
            };
            Ok(Some(Escrow {
                id: id.clone(),
                contract_id: contract_id.clone(),
                depositor: depositor.clone(),
                beneficiary: beneficiary.clone(),
                amount: *amount,
                released_amount,
                booking_ref: Some(booking_ref.clone()),
                condition_kind: *condition_kind,
                condition_releaser: releaser,
                condition_timeout_ledger: *condition_timeout_ledger,
                created_ledger: *created_ledger,
                updated_ledger: *updated_ledger,
                status,
            }))
        },
        ProjectionWrite::AddEscrowDeposit { amount, updated_ledger, .. } => match before {
            None => Ok(None),
            Some(b) => match b.amount.checked_add(*amount) {
                Some(total) => Ok(Some(Escrow { amount: total, updated_ledger: *updated_ledger, ..b })),
                None => Err(ERR_AMOUNT_RANGE.to_string()),
            },
        },
        ProjectionWrite::ReleaseEscrow { released_amount, updated_ledger, .. } => match before {
            None => Ok(None),
            Some(b) => match b.released_amount.checked_add(*released_amount) {
                Some(total) => {
                    let status = if total >= b.amount {
                        STATUS_RELEASED.to_string()
                    } else {
                        STATUS_OPEN.to_string()
                    };
                    Ok(Some(Escrow { released_amount: total, updated_ledger: *updated_ledger, status, ..b }))
                },
                None => Err(ERR_AMOUNT_RANGE.to_string()),
            },
        },
        ProjectionWrite::RefundEscrow { updated_ledger, .. } => match before {
            None => Ok(None),
            Some(b) => {
                let amount = b.amount;
                Ok(Some(Escrow {
                    status: STATUS_REFUNDED.to_string(),
                    released_amount: amount,
                    updated_ledger: *updated_ledger,
                    ..b
                }))
            },
        },
        _ => Ok(before),
    }
}

/// Applies a verification write to the row it addresses.
pub fn apply_verification_write(before: Option<Verification>, write: &ProjectionWrite) -> (r: Option<Verification>)
    requires
        is_verification_write(write@),
    ensures
        verification_opt(r) == verification_after(verification_opt(before), write@),
{
    match write {
        ProjectionWrite::UpsertVerification {
            id,
            contract_id,
            batch_id,
            subject,
            proof_hash,
            issuer,
            issued_ledger,
        } => {
            let (revoked, revoked_ledger) = match before {
                Some(b) => (b.revoked, b.revoked_ledger),
                None => (false, None),
            };
            Some(Verification {
                id: id.clone(),
                contract_id: contract_id.clone(),
                batch_id: batch_id.clone(),
                subject: subject.clone(),
                proof_hash: proof_hash.clone(),
                issuer: issuer.clone(),
                issued_ledger: *issued_ledger,
                revoked,
                revoked_ledger,
            })
        },
        ProjectionWrite::RevokeVerification { revoked_ledger, .. } => match before {
            None => None,
            Some(b) => Some(Verification { revoked: true, revoked_ledger: Some(*revoked_ledger), ..b }),
        },
        _ => before,
    }
}

/// A refund closes an escrow: status `refunded` with the whole amount
/// released; a release marks it `released` exactly when the released total
/// covers the amount; a deposit adds to the amount.
pub proof fn lemma_escrow_accounting(b: EscrowState, w: WriteSpec)
    ensures
        w is RefundEscrow ==> (escrow_after(Some(b), w) matches Ok(Some(a)) && a.status
            == STATUS_REFUNDED@ && a.released_amount == b.amount && a.amount == b.amount),
        w is ReleaseEscrow && i64::MIN <= b.released_amount + w->ReleaseEscrow_released_amount
            <= i64::MAX ==> (escrow_after(Some(b), w) matches Ok(Some(a)) && a.released_amount
            == b.released_amount + w->ReleaseEscrow_released_amount && (a.status == STATUS_RELEASED@
            <==> a.released_amount >= b.amount) && a.amount == b.amount),
        w is AddEscrowDeposit && i64::MIN <= b.amount + w->AddEscrowDeposit_amount <= i64::MAX
            ==> (escrow_after(Some(b), w) matches Ok(Some(a)) && a.amount == b.amount
            + w->AddEscrowDeposit_amount && a.released_amount == b.released_amount),
{
    assert(STATUS_RELEASED@ != STATUS_OPEN@) by {
        reveal_strlit("released");
        reveal_strlit("open");
        assert(STATUS_RELEASED@.len() == 8);
        assert(STATUS_OPEN@.len() == 4);
    }
}

/// Creating a verification again after it was revoked keeps the revocation.
pub proof fn lemma_recreate_keeps_revocation(v: VerificationState, w: WriteSpec)
    requires
        v.revoked,
        w is UpsertVerification,
    ensures
        (verification_after(Some(v), w) matches Some(a) && a.revoked && a.revoked_ledger == v.revoked_ledger),
{
}


/// Applying an escrow creation again to an existing row refreshes the
/// creation's columns and keeps what deposits, releases and refunds made of
/// it: the released amount and the status stay those of the row. On a
/// missing row the creation starts with nothing released and status open.
pub proof fn lemma_recreate_keeps_escrow_progress(before: Option<EscrowState>, w: WriteSpec)
    requires
        w is UpsertEscrow,
    ensures
        escrow_after(before, w) matches Ok(Some(a)) && {
            &&& a.id == w->UpsertEscrow_id
            &&& a.amount == w->UpsertEscrow_amount
            &&& a.depositor == w->UpsertEscrow_depositor
            &&& a.beneficiary == w->UpsertEscrow_beneficiary
            &&& a.updated_ledger == w->UpsertEscrow_updated_ledger
            &&& (before matches Some(b) ==> a.released_amount == b.released_amount && a.status
                == b.status)
            &&& (before is None ==> a.released_amount == 0 && a.status == STATUS_OPEN@)
        },
{
}

// ---------------------------------------------------------------------------
// Financing rows
// ---------------------------------------------------------------------------

/// Mathematical form of a financing row.
pub struct FinancingState {
    pub id: Seq<char>,
    pub contract_id: Seq<char>,
    pub funder: Seq<char>,
    pub beneficiary: Seq<char>,
    pub total_amount: i64,
    pub drawn_amount: i64,
    pub milestone_count: i32,
    pub milestones: Json,
    pub drawn_ledger: Option<i64>,
    pub repaid_amount: i64,
    pub defaulted: bool,
    pub defaulted_ledger: Option<i64>,
    pub updated_ledger: Option<i64>,
    pub status: Seq<char>,
}

impl View for Financing {
    type V = FinancingState;

    open spec fn view(&self) -> FinancingState {
        FinancingState {
            id: self.id@,
            contract_id: self.contract_id@,
            funder: self.funder@,
            beneficiary: self.beneficiary@,
            total_amount: self.total_amount,
            drawn_amount: self.drawn_amount,
            milestone_count: self.milestone_count,
            milestones: self.milestones@,
            drawn_ledger: self.drawn_ledger,
            repaid_amount: self.repaid_amount,
            defaulted: self.defaulted,
            defaulted_ledger: self.defaulted_ledger,
            updated_ledger: self.updated_ledger,
            status: self.status@,
        }
    }
}

/// A write that addresses a financing row.
pub open spec fn is_financing_write(w: WriteSpec) -> bool {
    ||| w is UpsertFinancing
    ||| w is DrawFinancing
    ||| w is RepayFinancing
    ||| w is DefaultFinancing
}

/// The financing row after `w`. Creation inserts an active financing with
/// nothing drawn or repaid, or refreshes the terms of an existing one (its
/// drawn and repaid amounts, default and status stay). A drawdown adds to the
/// drawn amount at a ledger; a repayment adds to the repaid amount and marks a
/// financing that is not defaulted repaid once the repayments cover its total;
/// a default marks it defaulted at a ledger. These leave a missing row
/// missing; an amount leaving `i64` is an error.
pub open spec fn financing_after(before: Option<FinancingState>, w: WriteSpec) -> Result<Option<FinancingState>, Seq<char>> {
    match w {
        WriteSpec::UpsertFinancing {
            id,
            contract_id,
            funder,
            beneficiary,
            total_amount,
            milestone_count,
            milestones,
            updated_ledger,
        } => {
            let fresh = FinancingState {
                id,
                contract_id,
                funder,
                beneficiary,
                total_amount,
                drawn_amount: 0,
                milestone_count,
                milestones,
                drawn_ledger: None,
                repaid_amount: 0,
                defaulted: false,
                defaulted_ledger: None,
                updated_ledger: Some(updated_ledger),
                status: STATUS_ACTIVE@,
            };
            match before {
                None => Ok(Some(fresh)),
                Some(b) => Ok(Some(FinancingState {
                    drawn_amount: b.drawn_amount,
                    drawn_ledger: b.drawn_ledger,
                    repaid_amount: b.repaid_amount,
                    defaulted: b.defaulted,
                    defaulted_ledger: b.defaulted_ledger,
                    status: b.status,
                    ..fresh
                })),
            }
        },
        WriteSpec::DrawFinancing { amount, ledger, .. } => match before {
            None => Ok(None),
            Some(b) => if i64::MIN <= b.drawn_amount + amount <= i64::MAX {
                Ok(Some(FinancingState {
                    drawn_amount: (b.drawn_amount + amount) as i64,
                    drawn_ledger: Some(ledger),
                    updated_ledger: Some(ledger),
                    ..b
                }))
            } else {
                Err(ERR_AMOUNT_RANGE@)
            },
        },
        WriteSpec::RepayFinancing { amount, ledger, .. } => match before {
            None => Ok(None),
            Some(b) => if i64::MIN <= b.repaid_amount + amount <= i64::MAX {
                let total = (b.repaid_amount + amount) as i64;
                Ok(Some(FinancingState {
                    repaid_amount: total,
                    updated_ledger: Some(ledger),
                    status: if !b.defaulted && total >= b.total_amount { STATUS_REPAID@ } else { b.status },
                    ..b
                }))
            } else {
                Err(ERR_AMOUNT_RANGE@)
            },
        },
        WriteSpec::DefaultFinancing { ledger, .. } => match before {
            None => Ok(None),
            Some(b) => Ok(Some(FinancingState {
                defaulted: true,
                defaulted_ledger: Some(ledger),
                updated_ledger: Some(ledger),
                status: STATUS_DEFAULTED@,
                ..b
            })),
        },
        _ => Ok(before),
    }
}

/// `Some(f@)` for `Some(f)`.
pub open spec fn financing_opt(o: Option<Financing>) -> Option<FinancingState> {
    match o {
        Some(f) => Some(f@),
        None => None,
    }
}

/// Applies a financing write to the row it addresses.
pub fn apply_financing_write(before: Option<Financing>, write: &ProjectionWrite) -> (r: Result<Option<Financing>, String>)
    requires
        is_financing_write(write@),
    ensures
        match r {
            Ok(after) => financing_after(financing_opt(before), write@) == Ok::<Option<FinancingState>, Seq<char>>(financing_opt(after)),
            Err(m) => financing_after(financing_opt(before), write@) == Err::<Option<FinancingState>, Seq<char>>(m@),
        },
{
    match write {
        ProjectionWrite::UpsertFinancing {
            id,
            contract_id,
            funder,
            beneficiary,
            total_amount,
            milestone_count,
            milestones,
            updated_ledger,
        } => {
            let (drawn_amount, drawn_ledger, repaid_amount, defaulted, defaulted_ledger, status) = match before {
                Some(b) => (b.drawn_amount, b.drawn_ledger, b.repaid_amount, b.defaulted, b.defaulted_ledger, b.status),
                None => (0i64, None, 0i64, false, None, STATUS_ACTIVE.to_string()),
            };
            Ok(Some(Financing {
                id: id.clone(),
                contract_id: contract_id.clone(),
                funder: funder.clone(),
                beneficiary: beneficiary.clone(),
                total_amount: *total_amount,
                drawn_amount,
                milestone_count: *milestone_count,
                milestones: milestones.duplicate(),
                drawn_ledger,
                repaid_amount,
                defaulted,
                defaulted_ledger,
                updated_ledger: Some(*updated_ledger),
                status,
            }))
        },
        ProjectionWrite::DrawFinancing { amount, ledger, .. } => match before {
            None => Ok(None),
            Some(b) => match b.drawn_amount.checked_add(*amount) {
                Some(total) => Ok(Some(Financing {
                    drawn_amount: total,
                    drawn_ledger: Some(*ledger),
                    updated_ledger: Some(*ledger),
                    ..b
                })),
                None => Err(ERR_AMOUNT_RANGE.to_string()),
            },
        },
        ProjectionWrite::RepayFinancing { amount, ledger, .. } => match before {
            None => Ok(None),
            Some(b) => match b.repaid_amount.checked_add(*amount) {
                Some(total) => {
                    let status = if !b.defaulted && total >= b.total_amount {
                        STATUS_REPAID.to_string()
                    } else {
                        b.status
                    };
                    Ok(Some(Financing { repaid_amount: total, updated_ledger: Some(*ledger), status, ..b }))
                },
                None => Err(ERR_AMOUNT_RANGE.to_string()),
            },
        },
        ProjectionWrite::DefaultFinancing { ledger, .. } => match before {
            None => Ok(None),
            Some(b) => Ok(Some(Financing {
                defaulted: true,
                defaulted_ledger: Some(*ledger),
                updated_ledger: Some(*ledger),
                status: STATUS_DEFAULTED.to_string(),
                ..b
            })),
        },
        _ => Ok(before),
    }
}

// ---------------------------------------------------------------------------
// Farmer identity rows
// ---------------------------------------------------------------------------

/// The on-chain identity fields of a farmer row that identity events
/// maintain (the off-chain profile columns are left as they are).
pub struct IdentityRow {
    pub address: String,
    pub id: String,
    pub registered: bool,
    pub created_ledger: Option<i64>,
    pub updated_ledger: Option<i64>,
    pub verification_markers: JsonValue,
}

/// Mathematical form of an [`IdentityRow`].
pub struct IdentityState {
    pub address: Seq<char>,
    pub id: Seq<char>,
    pub registered: bool,
    pub created_ledger: Option<i64>,
    pub updated_ledger: Option<i64>,
    pub verification_markers: Json,
}

impl View for IdentityRow {
    type V = IdentityState;

    open spec fn view(&self) -> IdentityState {
        IdentityState {
            address: self.address@,
            id: self.id@,
            registered: self.registered,
            created_ledger: self.created_ledger,
            updated_ledger: self.updated_ledger,
            verification_markers: self.verification_markers@,
        }
    }
}

/// A write that addresses a farmer identity row.
pub open spec fn is_identity_write(w: WriteSpec) -> bool {
    ||| w is UpsertIdentityFarmer
    ||| w is UpdateIdentityMetadata
    ||| w is AppendIdentityMarker
}

/// The elements a JSON value contributes to an array concatenation: an
/// array's elements, or the value itself.
pub open spec fn concat_elements(j: Json) -> Seq<Json> {
    match j {
        Json::Array(items) => items,
        _ => seq![j],
    }
}

/// Whether `key` is a key of the object entries `y`.
pub open spec fn has_key(y: Seq<(Seq<char>, Json)>, key: Seq<char>) -> bool {
    exists|i: int| 0 <= i < y.len() && (#[trigger] y[i]).0 == key
}

/// The entries of `x` whose key is not a key of `y`, in order.
pub open spec fn without_keys(x: Seq<(Seq<char>, Json)>, y: Seq<(Seq<char>, Json)>) -> Seq<(Seq<char>, Json)>
    decreases x.len(),
{
    if x.len() == 0 {
        Seq::empty()
    } else {
        let r = without_keys(x.drop_last(), y);
        if has_key(y, x.last().0) {
            r
        } else {
            r.push(x.last())
        }
    }
}

/// `a || b` on JSON values, as `jsonb` concatenates: two objects merge (the
/// keys of both, a key of `b` taking its value from `b`); otherwise the result
/// is an array of the elements of both, a value that is not an array counting
/// as a one-element array.
pub open spec fn json_concat(a: Json, b: Json) -> Json {
    match (a, b) {
        (Json::Object(x), Json::Object(y)) => Json::Object(without_keys(x, y) + y),
        _ => Json::Array(concat_elements(a) + concat_elements(b)),
    }
}

/// `Some(v)` when `v` is given, else the value kept.
pub open spec fn or_keep(v: Option<i64>, kept: Option<i64>) -> Option<i64> {
    match v {
        Some(x) => Some(x),
        None => kept,
    }
}

/// The identity row after `w`. Registration inserts a registered farmer, or
/// marks an existing row registered, takes the given ledgers (keeping a
/// ledger that is not given) and replaces the markers. A metadata update
/// takes the given updated ledger; a marker is appended to the markers. Both
/// leave a missing row missing.
pub open spec fn identity_after(before: Option<IdentityState>, w: WriteSpec) -> Option<IdentityState> {
    match w {
        WriteSpec::UpsertIdentityFarmer { address, id, created_ledger, updated_ledger, verification_markers } => {
            match before {
                None => Some(IdentityState {
                    address,
                    id,
                    registered: true,
                    created_ledger,
                    updated_ledger,
                    verification_markers,
                }),
                Some(b) => Some(IdentityState {
                    registered: true,
                    created_ledger: or_keep(created_ledger, b.created_ledger),
                    updated_ledger: or_keep(updated_ledger, b.updated_ledger),
                    verification_markers,
                    ..b
                }),
            }
        },
        WriteSpec::UpdateIdentityMetadata { updated_ledger, .. } => match before {
            None => None,
            Some(b) => Some(IdentityState { updated_ledger: or_keep(updated_ledger, b.updated_ledger), ..b }),
        },
        WriteSpec::AppendIdentityMarker { marker, .. } => match before {
            None => None,
            Some(b) => Some(IdentityState {
                verification_markers: json_concat(b.verification_markers, marker),
                ..b
            }),
        },
        _ => before,
    }
}

/// The views of a vector of JSON values.
pub open spec fn json_views(v: Seq<JsonValue>) -> Seq<Json> {
    Seq::new(v.len(), |i: int| v[i]@)
}

fn push_elements(out: &mut Vec<JsonValue>, v: &JsonValue)
    ensures
        json_views(final(out)@) == json_views(old(out)@) + concat_elements(v@),
{
    match v {
        JsonValue::Array(items) => {
            let ghost start = json_views(out@);
            let ghost elems = concat_elements(v@);
            let mut i: usize = 0;
            while i < items.len()
                invariant
                    i <= items.len(),
                    elems.len() == items@.len(),
                    forall|k: int| 0 <= k < items@.len() ==> #[trigger] elems[k] == items@[k]@,
                    json_views(out@) == start + elems.take(i as int),
                decreases items.len() - i,
            {
                let d = items[i].duplicate();
                assert(elems[i as int] == items@[i as int]@);
                let ghost before_push = out@;
                out.push(d);
                assert(out@[out@.len() - 1] == d);
                assert(json_views(out@) =~= json_views(before_push).push(d@));
                assert(elems.take(i + 1) =~= elems.take(i as int).push(elems[i as int]));
                assert(json_views(out@) =~= start + elems.take(i + 1));
                i += 1;
            }
            assert(elems.take(items@.len() as int) =~= elems);
        },
        _ => {
            let ghost start = json_views(out@);
            let d = v.duplicate();
            out.push(d);
            assert(json_views(out@) =~= start + concat_elements(v@));
        },
    }
}

fn has_key_exec(ys: &Vec<(String, JsonValue)>, key: &String) -> (b: bool)
    ensures
        b == has_key(object_view(ys@), key@),
{
    let mut j: usize = 0;
    while j < ys.len()
        invariant
            j <= ys.len(),
            forall|k: int| 0 <= k < j ==> (#[trigger] object_view(ys@)[k]).0 != key@,
        decreases ys.len() - j,
    {
        if ys[j].0 == *key {
            assert(object_view(ys@)[j as int].0 == key@);
            return true;
        }
        j += 1;
    }
    false
}

fn merge_objects(xs: &Vec<(String, JsonValue)>, ys: &Vec<(String, JsonValue)>) -> (r: Vec<(String, JsonValue)>)
    ensures
        object_view(r@) == without_keys(object_view(xs@), object_view(ys@)) + object_view(ys@),
{
    let ghost xv = object_view(xs@);
    let ghost yv = object_view(ys@);
    let mut out: Vec<(String, JsonValue)> = Vec::new();
    let mut i: usize = 0;
    assert(object_view(out@) =~= without_keys(xv.take(0), yv));
    while i < xs.len()
        invariant
            i <= xs.len(),
            xv == object_view(xs@),
            yv == object_view(ys@),
            object_view(out@) == without_keys(xv.take(i as int), yv),
        decreases xs.len() - i,
    {
        assert(xv.take(i + 1).drop_last() =~= xv.take(i as int));
        assert(xv.take(i + 1).last() == xv[i as int]);
        let ghost before = object_view(out@);
        if !has_key_exec(ys, &xs[i].0) {
            let entry = (xs[i].0.clone(), xs[i].1.duplicate());
            out.push(entry);
            assert(object_view(out@) =~= before.push(xv[i as int]));
        }
        i += 1;
    }
    assert(xv.take(xs.len() as int) =~= xv);
    let ghost head = object_view(out@);
    let mut j: usize = 0;
    while j < ys.len()
        invariant
            j <= ys.len(),
            yv == object_view(ys@),
            object_view(out@) == head + yv.take(j as int),
        decreases ys.len() - j,
    {
        let ghost before = object_view(out@);
        let entry = (ys[j].0.clone(), ys[j].1.duplicate());
        out.push(entry);
        assert(yv.take(j + 1) =~= yv.take(j as int).push(yv[j as int]));
        assert(object_view(out@) =~= before.push(yv[j as int]));
        j += 1;
    }
    assert(yv.take(ys.len() as int) =~= yv);
    out
}

fn concat_json(a: &JsonValue, b: &JsonValue) -> (r: JsonValue)
    ensures
        r@ == json_concat(a@, b@),
{
    if let (JsonValue::Object(xs), JsonValue::Object(ys)) = (a, b) {
        let merged = merge_objects(xs, ys);
        let r = JsonValue::Object(merged);
        proof {
            let ro = match r@ {
                Json::Object(t) => t,
                _ => Seq::empty(),
            };
            assert(ro =~= object_view(merged@));
            let xo = match a@ {
                Json::Object(t) => t,
                _ => Seq::empty(),
            };
            let yo = match b@ {
                Json::Object(t) => t,
                _ => Seq::empty(),
            };
            assert(xo =~= object_view(xs@));
            assert(yo =~= object_view(ys@));
        }
        return r;
    }
    let mut out: Vec<JsonValue> = Vec::new();
    assert(json_views(out@) =~= Seq::<Json>::empty());
    push_elements(&mut out, a);
    push_elements(&mut out, b);
    let r = JsonValue::Array(out);
    proof {
        let ra = match r@ {
            Json::Array(t) => t,
            _ => Seq::empty(),
        };
        assert(ra =~= json_views(out@));
        assert(json_views(out@) =~= concat_elements(a@) + concat_elements(b@));
    }
    r
}

/// `Some(r@)` for `Some(r)`.
pub open spec fn identity_opt(o: Option<IdentityRow>) -> Option<IdentityState> {
    match o {
        Some(r) => Some(r@),
        None => None,
    }
}

/// Applies an identity write to the farmer row it addresses.
pub fn apply_identity_write(before: Option<IdentityRow>, write: &ProjectionWrite) -> (r: Option<IdentityRow>)
    requires
        is_identity_write(write@),
    ensures
        identity_opt(r) == identity_after(identity_opt(before), write@),
{
    match write {
        ProjectionWrite::UpsertIdentityFarmer { address, id, created_ledger, updated_ledger, verification_markers } => {
            match before {
                None => Some(IdentityRow {
                    address: address.clone(),
                    id: id.clone(),
                    registered: true,
                    created_ledger: *created_ledger,
                    updated_ledger: *updated_ledger,
                    verification_markers: verification_markers.duplicate(),
                }),
                Some(b) => {
                    let created = match created_ledger {
                        Some(x) => Some(*x),
                        None => b.created_ledger,
                    };
                    let updated = match updated_ledger {
                        Some(x) => Some(*x),
                        None => b.updated_ledger,
                    };
                    Some(IdentityRow {
                        registered: true,
                        created_ledger: created,
                        updated_ledger: updated,
                        verification_markers: verification_markers.duplicate(),
                        ..b
                    })
                },
            }
        },
        ProjectionWrite::UpdateIdentityMetadata { updated_ledger, .. } => match before {
            None => None,
            Some(b) => {
                let updated = match updated_ledger {
                    Some(x) => Some(*x),
                    None => b.updated_ledger,
                };
                Some(IdentityRow { updated_ledger: updated, ..b })
            },
        },
        ProjectionWrite::AppendIdentityMarker { marker, .. } => match before {
            None => None,
            Some(b) => {
                let markers = concat_json(&b.verification_markers, marker);
                Some(IdentityRow { verification_markers: markers, ..b })
            },
        },
        _ => before,
    }
}

// ---------------------------------------------------------------------------
// Applying events once
// ---------------------------------------------------------------------------

/// Whether an event at `at` was already applied to a row whose last applied
/// event sits at `before`'s position: it is not after it.
pub open spec fn already_applied<T>(before: Option<(T, Cursor)>, at: Cursor) -> bool {
    before matches Some(b) && !position_lt(b.1, at)
}

/// The row of a row with its last applied position.
pub open spec fn row_of<T>(before: Option<(T, Cursor)>) -> Option<T> {
    match before {
        Some(b) => Some(b.0),
        None => None,
    }
}

/// A row outcome stamped with the position of the event that produced it.
pub open spec fn stamped<T>(r: Option<T>, at: Cursor) -> Option<(T, Cursor)> {
    match r {
        Some(x) => Some((x, at)),
        None => None,
    }
}

/// A fallible row outcome stamped with the event's position.
pub open spec fn stamped_result<T>(r: Result<Option<T>, Seq<char>>, at: Cursor) -> Result<Option<(T, Cursor)>, Seq<char>> {
    match r {
        Ok(x) => Ok(stamped(x, at)),
        Err(m) => Err(m),
    }
}

/// Applying the event at `at` carrying `w` to an escrow row: skipped when
/// already applied, else the write's outcome stamped with `at`.
pub open spec fn escrow_step(before: Option<(EscrowState, Cursor)>, w: WriteSpec, at: Cursor) -> Result<Option<(EscrowState, Cursor)>, Seq<char>> {
    if already_applied(before, at) {
        Ok(before)
    } else {
        stamped_result(escrow_after(row_of(before), w), at)
    }
}

/// Applying the event at `at` carrying `w` to a verification row.
pub open spec fn verification_step(before: Option<(VerificationState, Cursor)>, w: WriteSpec, at: Cursor) -> Option<(VerificationState, Cursor)> {
    if already_applied(before, at) {
        before
    } else {
        stamped(verification_after(row_of(before), w), at)
    }
}

/// Applying the event at `at` carrying `w` to a financing row.
pub open spec fn financing_step(before: Option<(FinancingState, Cursor)>, w: WriteSpec, at: Cursor) -> Result<Option<(FinancingState, Cursor)>, Seq<char>> {
    if already_applied(before, at) {
        Ok(before)
    } else {
        stamped_result(financing_after(row_of(before), w), at)
    }
}

/// Applying the event at `at` carrying `w` to a farmer identity row.
pub open spec fn identity_step(before: Option<(IdentityState, Cursor)>, w: WriteSpec, at: Cursor) -> Option<(IdentityState, Cursor)> {
    if already_applied(before, at) {
        before
    } else {
        stamped(identity_after(row_of(before), w), at)
    }
}

/// Views of rows with their last applied position.
pub open spec fn escrow_at(o: Option<(Escrow, Cursor)>) -> Option<(EscrowState, Cursor)> {
    match o {
        Some(p) => Some((p.0@, p.1)),
        None => None,
    }
}

pub open spec fn verification_at(o: Option<(Verification, Cursor)>) -> Option<(VerificationState, Cursor)> {
    match o {
        Some(p) => Some((p.0@, p.1)),
        None => None,
    }
}

pub open spec fn financing_at(o: Option<(Financing, Cursor)>) -> Option<(FinancingState, Cursor)> {
    match o {
        Some(p) => Some((p.0@, p.1)),
        None => None,
    }
}

pub open spec fn identity_at(o: Option<(IdentityRow, Cursor)>) -> Option<(IdentityState, Cursor)> {
    match o {
        Some(p) => Some((p.0@, p.1)),
        None => None,
    }
}

/// Applies the event at `at` carrying an escrow write to the escrow row and
/// the position of the last event applied to it.
pub fn apply_escrow_event(before: Option<(Escrow, Cursor)>, write: &ProjectionWrite, at: Cursor) -> (r: Result<Option<(Escrow, Cursor)>, String>)
    requires
        is_escrow_write(write@),
    ensures
        match r {
            Ok(after) => escrow_step(escrow_at(before), write@, at) == Ok::<Option<(EscrowState, Cursor)>, Seq<char>>(escrow_at(after)),
            Err(m) => escrow_step(escrow_at(before), write@, at) == Err::<Option<(EscrowState, Cursor)>, Seq<char>>(m@),
        },
{
    let row = match before {
        Some((row, last)) => {
            if !at.is_after(&last) {
                return Ok(Some((row, last)));
            }
            Some(row)
        },
        None => None,
    };
    match apply_escrow_write(row, write) {
        Ok(Some(a)) => Ok(Some((a, at))),
        Ok(None) => Ok(None),
        Err(m) => Err(m),
    }
}

/// Applies the event at `at` carrying a verification write to the
/// verification row and its last applied position.
pub fn apply_verification_event(before: Option<(Verification, Cursor)>, write: &ProjectionWrite, at: Cursor) -> (r: Option<(Verification, Cursor)>)
    requires
        is_verification_write(write@),
    ensures
        verification_at(r) == verification_step(verification_at(before), write@, at),
{
    let row = match before {
        Some((row, last)) => {
            if !at.is_after(&last) {
                return Some((row, last));
            }
            Some(row)
        },
        None => None,
    };
    match apply_verification_write(row, write) {
        Some(a) => Some((a, at)),
        None => None,
    }
}

/// Applies the event at `at` carrying a financing write to the financing row
/// and its last applied position.
pub fn apply_financing_event(before: Option<(Financing, Cursor)>, write: &ProjectionWrite, at: Cursor) -> (r: Result<Option<(Financing, Cursor)>, String>)
    requires
        is_financing_write(write@),
    ensures
        match r {
            Ok(after) => financing_step(financing_at(before), write@, at) == Ok::<Option<(FinancingState, Cursor)>, Seq<char>>(financing_at(after)),
            Err(m) => financing_step(financing_at(before), write@, at) == Err::<Option<(FinancingState, Cursor)>, Seq<char>>(m@),
        },
{
    let row = match before {
        Some((row, last)) => {
            if !at.is_after(&last) {
                return Ok(Some((row, last)));
            }
            Some(row)
        },
        None => None,
    };
    match apply_financing_write(row, write) {
        Ok(Some(a)) => Ok(Some((a, at))),
        Ok(None) => Ok(None),
        Err(m) => Err(m),
    }
}

/// Applies the event at `at` carrying an identity write to the farmer row and
/// its last applied position (`None` for a row no event has touched yet, which
/// every event is after).
pub fn apply_identity_event(before: Option<(IdentityRow, Cursor)>, write: &ProjectionWrite, at: Cursor) -> (r: Option<(IdentityRow, Cursor)>)
    requires
        is_identity_write(write@),
    ensures
        identity_at(r) == identity_step(identity_at(before), write@, at),
{
    let row = match before {
        Some((row, last)) => {
            if !at.is_after(&last) {
                return Some((row, last));
            }
            Some(row)
        },
        None => None,
    };
    match apply_identity_write(row, write) {
        Some(a) => Some((a, at)),
        None => None,
    }
}

/// Replaying an event changes nothing, for every write and every row: once an
/// event has been applied, applying it again leaves the row as it is.
pub proof fn lemma_replay_is_noop(
    e: Option<(EscrowState, Cursor)>,
    v: Option<(VerificationState, Cursor)>,
    f: Option<(FinancingState, Cursor)>,
    i: Option<(IdentityState, Cursor)>,
    w: WriteSpec,
    at: Cursor,
)
    ensures
        escrow_step(e, w, at) matches Ok(once) ==> escrow_step(once, w, at) == Ok::<Option<(EscrowState, Cursor)>, Seq<char>>(once),
        verification_step(verification_step(v, w, at), w, at) == verification_step(v, w, at),
        financing_step(f, w, at) matches Ok(once) ==> financing_step(once, w, at) == Ok::<Option<(FinancingState, Cursor)>, Seq<char>>(once),
        identity_step(identity_step(i, w, at), w, at) == identity_step(i, w, at),
{
}

/// An event at or before the last event applied to a row leaves it as it is,
/// whatever it carries: every event takes effect once across ingests, however
/// often the finalized events are applied again.
pub proof fn lemma_applied_events_skipped(
    e: Option<(EscrowState, Cursor)>,
    v: Option<(VerificationState, Cursor)>,
    f: Option<(FinancingState, Cursor)>,
    i: Option<(IdentityState, Cursor)>,
    w: WriteSpec,
    at: Cursor,
)
    ensures
        already_applied(e, at) ==> escrow_step(e, w, at) == Ok::<Option<(EscrowState, Cursor)>, Seq<char>>(e),
        already_applied(v, at) ==> verification_step(v, w, at) == v,
        already_applied(f, at) ==> financing_step(f, w, at) == Ok::<Option<(FinancingState, Cursor)>, Seq<char>>(f),
        already_applied(i, at) ==> identity_step(i, w, at) == i,
{
}

/// Appending to an array of markers keeps every earlier marker in place and
/// adds the new one after them: an array's elements one by one, any other
/// value as one element.
pub proof fn lemma_append_keeps_earlier_markers(items: Seq<Json>, m: Json)
    ensures
        json_concat(Json::Array(items), m) matches Json::Array(r) && {
            &&& forall|i: int| 0 <= i < items.len() ==> #[trigger] r[i] == items[i]
            &&& (m matches Json::Array(added) ==> r.len() == items.len() + added.len() && forall|
                j: int,
            | 0 <= j < added.len() ==> #[trigger] r[items.len() + j] == added[j])
            &&& (!(m is Array) ==> r.len() == items.len() + 1 && r[items.len() as int] == m)
        },
{
}

/// A marker event on a farmer row whose markers are an array keeps every
/// earlier marker and adds the new one after them; the rest of the row is
/// unchanged.
pub proof fn lemma_marker_event_keeps_earlier_markers(b: IdentityState, items: Seq<Json>, w: WriteSpec)
    requires
        w is AppendIdentityMarker,
        b.verification_markers == Json::Array(items),
    ensures
        identity_after(Some(b), w) matches Some(a) && {
            &&& a.address == b.address
            &&& a.id == b.id
            &&& a.registered == b.registered
            &&& a.created_ledger == b.created_ledger
            &&& a.updated_ledger == b.updated_ledger
            &&& a.verification_markers matches Json::Array(r) && {
                &&& forall|i: int| 0 <= i < items.len() ==> #[trigger] r[i] == items[i]
                &&& (w->AppendIdentityMarker_marker matches Json::Array(added) ==> r.len()
                    == items.len() + added.len())
                &&& (!(w->AppendIdentityMarker_marker is Array) ==> r.len() == items.len() + 1
                    && r[items.len() as int] == w->AppendIdentityMarker_marker)
            }
        },
{
    lemma_append_keeps_earlier_markers(items, w->AppendIdentityMarker_marker);
}

/// A verification creation writes the creation's columns as given (subject
/// as subject, issuer as issuer, ...) and keeps a row's revocation; a
/// revocation marks an existing row revoked at its ledger and changes nothing
/// else, and leaves a missing row missing.
pub proof fn lemma_verification_writes(before: Option<VerificationState>, w: WriteSpec)
    ensures
        w is UpsertVerification ==> (verification_after(before, w) matches Some(a) && {
            &&& a.id == w->UpsertVerification_id
            &&& a.contract_id == w->UpsertVerification_contract_id
            &&& a.batch_id == w->UpsertVerification_batch_id
            &&& a.subject == w->UpsertVerification_subject
            &&& a.proof_hash == w->UpsertVerification_proof_hash
            &&& a.issuer == w->UpsertVerification_issuer
            &&& a.issued_ledger == w->UpsertVerification_issued_ledger
            &&& (before is None ==> !a.revoked && a.revoked_ledger is None)
        }),
        w is RevokeVerification ==> (match before {
            None => verification_after(before, w) is None,
            Some(b) => verification_after(before, w) == Some(
                VerificationState {
                    revoked: true,
                    revoked_ledger: Some(w->RevokeVerification_revoked_ledger),
                    ..b
                },
            ),
        }),
{
}

/// A financing creation writes the creation's columns and keeps what draws,
/// repayments and a default made of an existing row (a new row starts active
/// with nothing drawn or repaid); a draw adds to the drawn amount, a
/// repayment to the repaid amount (repaid once it covers the total, unless
/// defaulted), and a default marks the row defaulted at its ledger.
pub proof fn lemma_financing_writes(before: Option<FinancingState>, w: WriteSpec)
    ensures
        w is UpsertFinancing ==> (financing_after(before, w) matches Ok(Some(a)) && {
            &&& a.id == w->UpsertFinancing_id
            &&& a.funder == w->UpsertFinancing_funder
            &&& a.beneficiary == w->UpsertFinancing_beneficiary
            &&& a.total_amount == w->UpsertFinancing_total_amount
            &&& a.milestone_count == w->UpsertFinancing_milestone_count
            &&& a.milestones == w->UpsertFinancing_milestones
            &&& a.updated_ledger == Some(w->UpsertFinancing_updated_ledger)
            &&& (before matches Some(b) ==> a.drawn_amount == b.drawn_amount && a.repaid_amount
                == b.repaid_amount && a.defaulted == b.defaulted && a.status == b.status)
            &&& (before is None ==> a.drawn_amount == 0 && a.repaid_amount == 0 && !a.defaulted
                && a.status == STATUS_ACTIVE@)
        }),
        w is DrawFinancing && before is Some && i64::MIN <= before->Some_0.drawn_amount
            + w->DrawFinancing_amount <= i64::MAX ==> (financing_after(before, w) matches Ok(
            Some(a),
        ) && a.drawn_amount == before->Some_0.drawn_amount + w->DrawFinancing_amount
            && a.drawn_ledger == Some(w->DrawFinancing_ledger) && a.repaid_amount
            == before->Some_0.repaid_amount && a.total_amount == before->Some_0.total_amount),
        w is RepayFinancing && before is Some && i64::MIN <= before->Some_0.repaid_amount
            + w->RepayFinancing_amount <= i64::MAX ==> (financing_after(before, w) matches Ok(
            Some(a),
        ) && a.repaid_amount == before->Some_0.repaid_amount + w->RepayFinancing_amount
            && a.drawn_amount == before->Some_0.drawn_amount && (!before->Some_0.defaulted
            && a.repaid_amount >= a.total_amount ==> a.status == STATUS_REPAID@)
            && (before->Some_0.defaulted || a.repaid_amount < a.total_amount ==> a.status
            == before->Some_0.status)),
        w is DefaultFinancing && before is Some ==> (financing_after(before, w) matches Ok(Some(a))
            && a.defaulted && a.defaulted_ledger == Some(w->DefaultFinancing_ledger) && a.status
            == STATUS_DEFAULTED@ && a.drawn_amount == before->Some_0.drawn_amount
            && a.repaid_amount == before->Some_0.repaid_amount),
        (w is DrawFinancing || w is RepayFinancing || w is DefaultFinancing) && before is None
            ==> financing_after(before, w) == Ok::<Option<FinancingState>, Seq<char>>(None),
{
}

/// A registration creates the farmer's row registered with the given
/// address, id, ledgers and markers, or on an existing row marks it
/// registered, replaces its markers and takes each given ledger (keeping the
/// row's where none is given); a metadata update takes a given updated
/// ledger and changes nothing else.
pub proof fn lemma_identity_writes(before: Option<IdentityState>, w: WriteSpec)
    ensures
        w is UpsertIdentityFarmer ==> (identity_after(before, w) matches Some(a) && {
            &&& a.registered
            &&& a.verification_markers == w->UpsertIdentityFarmer_verification_markers
            &&& (before is None ==> a.address == w->UpsertIdentityFarmer_address && a.id
                == w->UpsertIdentityFarmer_id && a.created_ledger
                == w->UpsertIdentityFarmer_created_ledger && a.updated_ledger
                == w->UpsertIdentityFarmer_updated_ledger)
            &&& (before matches Some(b) ==> a.address == b.address && a.id == b.id && (
            w->UpsertIdentityFarmer_created_ledger matches Some(c) ==> a.created_ledger == Some(
                c,
            )) && (w->UpsertIdentityFarmer_created_ledger is None ==> a.created_ledger
                == b.created_ledger))
        }),
        w is UpdateIdentityMetadata ==> (match before {
            None => identity_after(before, w) is None,
            Some(b) => identity_after(before, w) matches Some(a) && a.address == b.address
                && a.verification_markers == b.verification_markers && a.created_ledger
                == b.created_ledger && (w->UpdateIdentityMetadata_updated_ledger matches Some(u)
                ==> a.updated_ledger == Some(u)) && (w->UpdateIdentityMetadata_updated_ledger is None
                ==> a.updated_ledger == b.updated_ledger),
        }),
{
}

} // verus!
