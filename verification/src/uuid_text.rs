//! UUID parsing and generation through the `uuid` crate, and the canonical
//! text form both produce.
use vstd::prelude::*;

use crate::text::opt_chars;

verus! {

/// A lowercase hexadecimal digit.
pub open spec fn is_lower_hex(c: char) -> bool {
    ('0' <= c && c <= '9') || ('a' <= c && c <= 'f')
}

/// The hyphenated lowercase form `xxxxxxxx-xxxx-xxxx-xxxx-xxxxxxxxxxxx`.
pub open spec fn is_uuid_text(s: Seq<char>) -> bool {
    &&& s.len() == 36
    &&& forall|i: int|
        0 <= i < 36 ==> (if i == 8 || i == 13 || i == 18 || i == 23 {
            s[i] == '-'
        } else {
            is_lower_hex(#[trigger] s[i])
        })
}

/// What `Uuid::parse_str(s).map(|u| u.to_string())` yields: the canonical
/// text of the UUID that `s` denotes, when it denotes one.
pub uninterp spec fn uuid_canonical(s: Seq<char>) -> Option<Seq<char>>;

/// Parses `s` as a UUID (`Uuid::parse_str`) and renders it with `Display`.
/// `parse_str` accepts the simple, hyphenated, braced and URN forms in any
/// letter case; `Display` renders the hyphenated lowercase form, so a string
/// already in that form renders to itself. Which other strings parse is left
/// to the name `uuid_canonical`.
#[verifier::external_body]
pub(crate) fn parse_uuid(s: &str) -> (r: Option<String>)
    ensures
        opt_chars(r) == uuid_canonical(s@),
        r matches Some(t) ==> is_uuid_text(t@),
        is_uuid_text(s@) ==> opt_chars(r) == Some(s@),
{
    uuid::Uuid::parse_str(s).ok().map(|u| u.to_string())
}

/// A new version-7 UUID (`Uuid::now_v7`) in its canonical text form. Its value
/// depends on the clock and on random bits; the version digit is `7`.
#[verifier::external_body]
pub(crate) fn new_uuid_v7() -> (r: String)
    ensures
        is_uuid_text(r@),
        r@[14] == '7',
{
    uuid::Uuid::now_v7().to_string()
}

} // verus!
