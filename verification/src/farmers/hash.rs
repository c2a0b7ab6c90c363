//! Metadata hashing: SHA-256 of the canonical JSON serialisation of a
//! farmer's off-chain profile, as lowercase hex.
use vstd::prelude::*;

use crate::crypto::{hex_encode, hex_lower, is_lower_hex_digit, lemma_hex_lower_shape, sha256, sha256_digest};
use crate::farmers::model::FarmerMetadata;
use crate::json::{json_object_bytes, json_object_of_strings, string_pairs};

verus! {

/// A one-entry list for a present optional field, else nothing.
pub open spec fn optional_entry(key: Seq<char>, value: Option<String>) -> Seq<(Seq<char>, Seq<char>)> {
    match value {
        Some(v) => seq![(key, v@)],
        None => Seq::empty(),
    }
}

/// The entries of the canonical serialisation, keys in sorted order:
/// `bio`, `district`, `name`, `profileImageHash`, `region`; absent optional
/// fields are left out.
pub open spec fn canonical_entries(m: FarmerMetadata) -> Seq<(Seq<char>, Seq<char>)> {
    optional_entry("bio"@, m.bio) + optional_entry("district"@, m.district) + seq![
        ("name"@, m.name@),
    ] + optional_entry("profileImageHash"@, m.profile_image_hash) + optional_entry(
        "region"@,
        m.region,
    )
}

/// The metadata hash: lowercase hex of the SHA-256 of the canonical bytes.
pub open spec fn metadata_hash_spec(m: FarmerMetadata) -> Seq<char> {
    hex_lower(sha256(json_object_of_strings(canonical_entries(m))))
}

fn push_optional(out: &mut Vec<(String, String)>, key: &str, value: &Option<String>)
    ensures
        string_pairs(final(out)@) == string_pairs(old(out)@) + optional_entry(key@, *value),
{
    let ghost before = string_pairs(out@);
    match value {
        Some(v) => {
            out.push((key.to_string(), v.clone()));
            assert(string_pairs(out@) =~= before + optional_entry(key@, *value));
        },
        None => {
            assert(string_pairs(out@) =~= before + optional_entry(key@, *value));
        },
    }
}

/// The canonical entries of `metadata`, keys in sorted order.
pub fn canonical_fields(metadata: &FarmerMetadata) -> (r: Vec<(String, String)>)
    ensures
        string_pairs(r@) == canonical_entries(*metadata),
{
    let mut out: Vec<(String, String)> = Vec::new();
    assert(string_pairs(out@) =~= Seq::<(Seq<char>, Seq<char>)>::empty());
    push_optional(&mut out, "bio", &metadata.bio);
    push_optional(&mut out, "district", &metadata.district);
    let ghost before = string_pairs(out@);
    out.push(("name".to_string(), metadata.name.clone()));
    assert(string_pairs(out@) =~= before + seq![("name"@, metadata.name@)]);
    push_optional(&mut out, "profileImageHash", &metadata.profile_image_hash);
    push_optional(&mut out, "region", &metadata.region);
    proof {
        lemma_canonical_entries_from_empty(metadata);
    }
    out
}

proof fn lemma_canonical_entries_from_empty(m: &FarmerMetadata)
    ensures
        canonical_entries(*m) == Seq::<(Seq<char>, Seq<char>)>::empty() + optional_entry(
            "bio"@,
            m.bio,
        ) + optional_entry("district"@, m.district) + seq![("name"@, m.name@)] + optional_entry(
            "profileImageHash"@,
            m.profile_image_hash,
        ) + optional_entry("region"@, m.region),
{
    assert(Seq::<(Seq<char>, Seq<char>)>::empty() + optional_entry("bio"@, m.bio) =~= optional_entry(
        "bio"@,
        m.bio,
    ));
}

/// The canonical serialisation of the off-chain profile: a JSON object of its
/// present fields with keys in sorted order.
pub fn canonical_bytes(metadata: &FarmerMetadata) -> (r: Vec<u8>)
    ensures
        r@ == json_object_of_strings(canonical_entries(*metadata)),
{
    let fields = canonical_fields(metadata);
    json_object_bytes(&fields)
}

/// SHA-256 of the canonical serialisation of the off-chain profile metadata,
/// as 64 lowercase hex digits. Deterministic: equal metadata hash equally.
pub fn metadata_hash(metadata: &FarmerMetadata) -> (r: String)
    ensures
        r@ == metadata_hash_spec(*metadata),
        r@.len() == 64,
        forall|i: int| 0 <= i < r@.len() ==> is_lower_hex_digit(#[trigger] r@[i]),
{
    let bytes = canonical_bytes(metadata);
    let digest = sha256_digest(bytes.as_slice());
    proof {
        lemma_hex_lower_shape(digest@);
    }
    hex_encode(digest.as_slice())
}

/// Every field of the metadata that is present goes into the hashed entries
/// under its key with its text, the name always, in the sorted order of the
/// keys (`bio`, `district`, `name`, `profileImageHash`, `region`); an absent
/// field adds no entry. So metadata that differ in whether or what a field
/// holds have different entries.
pub proof fn lemma_present_fields_are_hashed(m: FarmerMetadata)
    ensures
        canonical_entries(m).contains(("name"@, m.name@)),
        m.bio matches Some(v) ==> canonical_entries(m).contains(("bio"@, v@)),
        m.district matches Some(v) ==> canonical_entries(m).contains(("district"@, v@)),
        m.profile_image_hash matches Some(v) ==> canonical_entries(m).contains(
            ("profileImageHash"@, v@),
        ),
        m.region matches Some(v) ==> canonical_entries(m).contains(("region"@, v@)),
        ({
            let nb: int = if m.bio is Some { 1 } else { 0 };
            let nd: int = if m.district is Some { 1 } else { 0 };
            let np: int = if m.profile_image_hash is Some { 1 } else { 0 };
            &&& canonical_entries(m)[nb + nd] == ("name"@, m.name@)
            &&& (m.bio matches Some(v) ==> canonical_entries(m)[0] == ("bio"@, v@))
            &&& (m.district matches Some(v) ==> canonical_entries(m)[nb] == ("district"@, v@))
            &&& (m.profile_image_hash matches Some(v) ==> canonical_entries(m)[nb + nd + 1] == (
                "profileImageHash"@,
                v@,
            ))
            &&& (m.region matches Some(v) ==> canonical_entries(m)[nb + nd + 1 + np] == (
                "region"@,
                v@,
            ))
        }),
        canonical_entries(m).len() == 1 + (if m.bio is Some { 1int } else { 0 }) + (if m.district is Some {
            1int
        } else {
            0
        }) + (if m.profile_image_hash is Some { 1int } else { 0 }) + (if m.region is Some {
            1int
        } else {
            0
        }),
{
    let e = canonical_entries(m);
    let nb: int = if m.bio is Some { 1 } else { 0 };
    let nd: int = if m.district is Some { 1 } else { 0 };
    let np: int = if m.profile_image_hash is Some { 1 } else { 0 };
    assert(e[nb + nd] == ("name"@, m.name@));
    if let Some(v) = m.bio {
        assert(e[0] == ("bio"@, v@));
    }
    if let Some(v) = m.district {
        assert(e[nb] == ("district"@, v@));
    }
    if let Some(v) = m.profile_image_hash {
        assert(e[nb + nd + 1] == ("profileImageHash"@, v@));
    }
    if let Some(v) = m.region {
        assert(e[nb + nd + 1 + np] == ("region"@, v@));
    }
}

} // verus!
