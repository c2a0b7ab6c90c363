//! Projection read API: verification, escrow and financing records, their
//! list queries, identifier normalisation and pagination.
use vstd::prelude::*;

use crate::error::{AppError, ErrorKind, error_view};
use crate::ids::{counter_id, counter_id_spec};
use crate::json::JsonValue;
use crate::text::{
    chars_of, parse_u64, parse_u64_spec, push_str, string_of, strip_prefix, strip_prefix_spec,
};

verus! {

/// Page metadata of a list response.
pub struct Pagination {
    pub page: i64,
    pub page_size: i64,
    pub total: i64,
    pub total_pages: i64,
}

/// Pages are 1-indexed: anything below 1 is page 1.
pub fn normalize_page(page: i64) -> (r: i64)
    ensures
        r == if page < 1 { 1 } else { page },
{
    if page < 1 { 1 } else { page }
}

/// Page sizes are clamped to `1..=100`.
pub fn normalize_page_size(page_size: i64) -> (r: i64)
    ensures
        r == if page_size < 1 { 1 } else if page_size > 100 { 100 } else { page_size },
{
    if page_size < 1 {
        1
    } else if page_size > 100 {
        100
    } else {
        page_size
    }
}

/// The page asked for when none is given.
pub fn default_page() -> (r: i64)
    ensures
        r == 1,
{
    1
}

/// The page size asked for when none is given.
pub fn default_page_size() -> (r: i64)
    ensures
        r == 20,
{
    20
}

/// The normalised page and page size of a list query and the number of rows
/// to skip: `(page - 1) * page_size`.
pub fn page_window(page: i64, page_size: i64) -> (r: (i64, i64, i64))
    requires
        ((if page < 1 { 1 } else { page }) - 1) * (if page_size < 1 { 1 } else if page_size > 100 {
            100
        } else {
            page_size
        }) <= i64::MAX,
    ensures
        r.0 == if page < 1 { 1 } else { page },
        r.1 == if page_size < 1 { 1 } else if page_size > 100 { 100 } else { page_size },
        r.2 == (r.0 - 1) * r.1,
        r.2 >= 0,
{
    let p = normalize_page(page);
    let s = normalize_page_size(page_size);
    assert(0 <= (p - 1) * s) by (nonlinear_arith)
        requires
            0 <= p - 1,
            1 <= s <= 100,
    ;
    (p, s, (p - 1) * s)
}

/// The pagination of a list response: `total_pages` is `total / page_size`
/// rounded up, and at least 1.
pub fn pagination(page: i64, page_size: i64, total: i64) -> (r: Pagination)
    requires
        page_size >= 1,
        0 <= total,
        total + page_size <= i64::MAX,
    ensures
        r.page == page,
        r.page_size == page_size,
        r.total == total,
        r.total_pages == if (total + page_size - 1) / (page_size as int) < 1 {
            1
        } else {
            (total + page_size - 1) / (page_size as int)
        },
{
    let pages = (total + page_size - 1) / page_size;
    let total_pages = if pages < 1 { 1 } else { pages };
    Pagination { page, page_size, total, total_pages }
}

/// A verification projection record.
pub struct Verification {
    pub id: String,
    pub contract_id: String,
    pub batch_id: String,
    pub subject: String,
    pub proof_hash: String,
    pub issuer: String,
    pub issued_ledger: i64,
    pub revoked: bool,
    pub revoked_ledger: Option<i64>,
}

pub struct VerificationListResponse {
    pub items: Vec<Verification>,
    pub pagination: Pagination,
}

/// Filters and page of a verification list.
pub struct ListVerificationsQuery {
    pub batch_id: Option<String>,
    pub subject: Option<String>,
    pub issuer: Option<String>,
    pub revoked: Option<bool>,
    pub page: i64,
    pub page_size: i64,
}

/// An escrow projection record.
pub struct Escrow {
    pub id: String,
    pub contract_id: String,
    pub depositor: String,
    pub beneficiary: String,
    pub amount: i64,
    pub released_amount: i64,
    pub booking_ref: Option<String>,
    pub condition_kind: i32,
    pub condition_releaser: Option<String>,
    pub condition_timeout_ledger: Option<i64>,
    pub created_ledger: i64,
    pub updated_ledger: i64,
    pub status: String,
}

pub struct EscrowListResponse {
    pub items: Vec<Escrow>,
    pub pagination: Pagination,
}

/// Filters and page of an escrow list.
pub struct ListEscrowsQuery {
    pub depositor: Option<String>,
    pub beneficiary: Option<String>,
    pub booking_ref: Option<String>,
    pub status: Option<String>,
    pub page: i64,
    pub page_size: i64,
}

/// A financing projection record.
pub struct Financing {
    pub id: String,
    pub contract_id: String,
    pub funder: String,
    pub beneficiary: String,
    pub total_amount: i64,
    pub drawn_amount: i64,
    pub milestone_count: i32,
    pub milestones: JsonValue,
    pub drawn_ledger: Option<i64>,
    pub repaid_amount: i64,
    pub defaulted: bool,
    pub defaulted_ledger: Option<i64>,
    pub updated_ledger: Option<i64>,
    pub status: String,
}

pub struct FinancingListResponse {
    pub items: Vec<Financing>,
    pub pagination: Pagination,
}

/// Filters and page of a financing list.
pub struct ListFinancingsQuery {
    pub funder: Option<String>,
    pub beneficiary: Option<String>,
    pub status: Option<String>,
    pub page: i64,
    pub page_size: i64,
}

/// What normalising a counter identifier yields: the input itself when it is
/// `{prefix}:{digits}`, the presentation form when it is bare digits, and
/// otherwise a bad request naming the input.
pub open spec fn normalize_spec(input: Seq<char>, prefix: Seq<char>, label: Seq<char>) -> Result<
    Seq<char>,
    (ErrorKind, Seq<char>),
> {
    let bad = Err((ErrorKind::BadRequest, "invalid "@ + label + " id: "@ + input));
    match strip_prefix_spec(input, prefix + seq![':']) {
        Some(counter_part) => if parse_u64_spec(counter_part) is Some {
            Ok(input)
        } else {
            bad
        },
        None => match parse_u64_spec(input) {
            Some(counter) => Ok(counter_id_spec(prefix, counter)),
            None => bad,
        },
    }
}

/// Outcome of a normalisation, as `normalize_spec` states it.
pub open spec fn normalized_as(r: Result<String, AppError>, s: Result<Seq<char>, (ErrorKind, Seq<char>)>) -> bool {
    match r {
        Ok(id) => s == Ok::<Seq<char>, (ErrorKind, Seq<char>)>(id@),
        Err(e) => s == Err::<Seq<char>, (ErrorKind, Seq<char>)>(error_view(e)),
    }
}

fn normalize_counter_id(input: &str, prefix: &str, label: &str) -> (r: Result<String, AppError>)
    ensures
        normalized_as(r, normalize_spec(input@, prefix@, label@)),
{
    let chars = chars_of(input);
    let mut full = chars_of(prefix);
    full.push(':');
    assert(full@ =~= prefix@ + seq![':']);
    match strip_prefix(&chars, &full) {
        Some(counter_part) => {
            if parse_u64(&counter_part).is_some() {
                return Ok(input.to_string());
            }
        },
        None => {
            if let Some(counter) = parse_u64(&chars) {
                return Ok(counter_id(prefix, counter));
            }
        },
    }
    let mut msg = chars_of("invalid ");
    push_str(&mut msg, label);
    push_str(&mut msg, " id: ");
    push_str(&mut msg, input);
    Err(AppError::BadRequest(string_of(&msg)))
}

/// A verification id: `va:verification:<digits>` is kept, a bare counter is
/// rendered as `va:verification:<12 digits>`, anything else is a bad request.
pub fn normalize_verification_id(input: &str) -> (r: Result<String, AppError>)
    ensures
        normalized_as(r, normalize_spec(input@, "va:verification"@, "verification"@)),
{
    normalize_counter_id(input, "va:verification", "verification")
}

/// An escrow id: `va:escrow:<digits>` is kept, a bare counter is rendered as
/// `va:escrow:<12 digits>`, anything else is a bad request.
pub fn normalize_escrow_id(input: &str) -> (r: Result<String, AppError>)
    ensures
        normalized_as(r, normalize_spec(input@, "va:escrow"@, "escrow"@)),
{
    normalize_counter_id(input, "va:escrow", "escrow")
}

/// A financing id: `va:financing:<digits>` is kept, a bare counter is
/// rendered as `va:financing:<12 digits>`, anything else is a bad request.
pub fn normalize_financing_id(input: &str) -> (r: Result<String, AppError>)
    ensures
        normalized_as(r, normalize_spec(input@, "va:financing"@, "financing"@)),
{
    normalize_counter_id(input, "va:financing", "financing")
}

/// Normalising is idempotent: a normalised id normalises to itself.
pub proof fn lemma_normalize_idempotent(input: Seq<char>, prefix: Seq<char>, label: Seq<char>)
    requires
        normalize_spec(input, prefix, label) is Ok,
    ensures
        normalize_spec(normalize_spec(input, prefix, label)->Ok_0, prefix, label)
            == normalize_spec(input, prefix, label),
{
    let p = prefix + seq![':'];
    match strip_prefix_spec(input, p) {
        Some(_) => {},
        None => {
            let counter = parse_u64_spec(input)->Some_0;
            let id = counter_id_spec(prefix, counter);
            let digits = crate::text::zero_pad(crate::text::decimal(counter as nat), 12);
            assert(id =~= p + digits);
            assert(id.subrange(0, p.len() as int) =~= p);
            assert(id.subrange(p.len() as int, id.len() as int) =~= digits);
            crate::text::lemma_parse_zero_padded(counter, 12);
        },
    }
}

/// A bare counter normalises to its presentation form.
pub proof fn lemma_bare_counter_normalizes(counter: u64, prefix: Seq<char>, label: Seq<char>)
    requires
        strip_prefix_spec(crate::text::zero_pad(crate::text::decimal(counter as nat), 12), prefix + seq![':']) is None,
    ensures
        normalize_spec(crate::text::zero_pad(crate::text::decimal(counter as nat), 12), prefix, label)
            == Ok::<Seq<char>, (ErrorKind, Seq<char>)>(counter_id_spec(prefix, counter)),
{
    crate::text::lemma_parse_zero_padded(counter, 12);
}

} // verus!
