//! Backend-issued identifiers: UUIDv7 entity ids and document ids.
use vstd::prelude::*;

use crate::text::{chars_of, push_str, string_of};
use crate::uuid_text::{is_uuid_text, new_uuid_v7};

verus! {

/// A new UUIDv7 (time-ordered, index-friendly) in hyphenated lowercase form,
/// for backend-issued entities (asset, batch, equipment, livestock, booking).
pub fn uuid7() -> (id: String)
    ensures
        is_uuid_text(id@),
        id@[14] == '7',
{
    new_uuid_v7()
}

/// The document identifier `va:doc:{content_hash}`.
pub fn document_id(content_hash: &str) -> (id: String)
    ensures
        id@ == "va:doc:"@ + content_hash@,
{
    let mut out = chars_of("va:doc:");
    push_str(&mut out, content_hash);
    string_of(&out)
}

} // verus!
