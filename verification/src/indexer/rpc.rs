//! Soroban RPC events: the contract values they carry (held as plain data),
//! their conversion to JSON and the decoding of an RPC event into a
//! [`ChainEvent`].
use stellar_xdr::curr::{ReadXdr, ScAddress, ScVal as V};
use vstd::prelude::*;

use crate::config::{pieces_view, split_chars, split_spec};
use crate::crypto::{hex_encode, hex_lower};
use crate::indexer::chain::ChainEventsError;
use crate::config::ContractMap;
use crate::indexer::chain::records;
use crate::indexer::model::{position_lt, ChainEvent, Cursor, EventRecord};
use crate::json::{Json, JsonNumber, JsonValue, Num};
use crate::strkey::{
    encode_account, encode_contract, encode_muxed_account, strkey_account, strkey_contract,
    strkey_muxed_account,
};
use crate::text::{
    all_digits, chars_of, chars_of_string, decimal, digits_value, parse_i32, parse_i32_spec,
    parse_u64, parse_u64_spec, push_decimal, push_str, string_of,
};

verus! {

/// A contract address inside a contract value.
pub enum ScAddressValue {
    Account([u8; 32]),
    Contract([u8; 32]),
    MuxedAccount { ed25519: [u8; 32], id: u64 },
    /// Another kind of address, kept as its debug text.
    Other(String),
}

/// A Soroban contract value (`ScVal`) as plain data. `Error` keeps the debug
/// text of the error; `String` and `Symbol` keep their text; `ScVec` and
/// `ScMap` are the vector and map values.
#[allow(inconsistent_fields)]
pub enum ScValue {
    Bool(bool),
    Void,
    Error(String),
    U32(u32),
    I32(i32),
    U64(u64),
    I64(i64),
    Timepoint(u64),
    Duration(u64),
    U128 { hi: u64, lo: u64 },
    I128 { hi: i64, lo: u64 },
    U256,
    I256,
    Bytes(Vec<u8>),
    String(String),
    Symbol(String),
    ScVec(Option<Vec<ScValue>>),
    ScMap(Option<Vec<(ScValue, ScValue)>>),
    Address(ScAddressValue),
    ContractInstance,
    LedgerKeyContractInstance,
    LedgerKeyNonce,
}

/// The JSON number of a signed integer, as `Value::from` builds it.
pub open spec fn int_json(i: int) -> Json {
    if i >= 0 {
        Json::Number(Num::PosInt(i as nat))
    } else {
        Json::Number(Num::NegInt(i))
    }
}

/// `hi * 2^64 + lo`.
pub open spec fn wide(hi: int, lo: int) -> int {
    hi * 0x1_0000_0000_0000_0000 + lo
}

/// Decimal text of an integer, with a leading `-` when negative.
pub open spec fn signed_decimal(v: int) -> Seq<char> {
    if v < 0 {
        seq!['-'] + decimal((-v) as nat)
    } else {
        decimal(v as nat)
    }
}

/// The strkey text of an address.
pub open spec fn address_text(a: ScAddressValue) -> Seq<char> {
    match a {
        ScAddressValue::Account(k) => strkey_account(k@),
        ScAddressValue::Contract(h) => strkey_contract(h@),
        ScAddressValue::MuxedAccount { ed25519, id } => strkey_muxed_account(ed25519@, id),
        ScAddressValue::Other(t) => t@,
    }
}

/// The text of a map key: only symbols and strings are keys.
pub open spec fn key_text(k: ScValue) -> Option<Seq<char>> {
    match k {
        ScValue::Symbol(s) => Some(s@),
        ScValue::String(s) => Some(s@),
        _ => None,
    }
}

/// Whether a value converts to JSON: every map key, at any depth, is a
/// symbol or a string.
pub open spec fn scval_converts(v: ScValue) -> bool
    decreases v,
{
    match v {
        ScValue::ScVec(Some(items)) => forall|i: int|
            0 <= i < items@.len() ==> scval_converts(#[trigger] items@[i]),
        ScValue::ScMap(Some(entries)) => forall|i: int|
            0 <= i < entries@.len() ==> key_text(#[trigger] entries@[i].0) is Some
                && scval_converts(entries@[i].1),
        _ => true,
    }
}

/// How a map key that is not text is named in the conversion error: the
/// debug form of scalar keys (`U32(7)`, `Bool(true)`,
/// `Timepoint(TimePoint(5))`, `I128(Int128Parts { hi: -1, lo: 5 })`, ...), and
/// the variant's name alone for compound ones (bytes, vectors, maps,
/// addresses, 256-bit integers, contract instances and nonces).
pub open spec fn key_label(k: ScValue) -> Seq<char> {
    match k {
        ScValue::Bool(b) => if b {
            "Bool(true)"@
        } else {
            "Bool(false)"@
        },
        ScValue::Void => "Void"@,
        ScValue::Error(t) => "Error("@ + t@ + ")"@,
        ScValue::U32(u) => "U32("@ + decimal(u as nat) + ")"@,
        ScValue::I32(i) => "I32("@ + signed_decimal(i as int) + ")"@,
        ScValue::U64(u) => "U64("@ + decimal(u as nat) + ")"@,
        ScValue::I64(i) => "I64("@ + signed_decimal(i as int) + ")"@,
        ScValue::Timepoint(t) => "Timepoint(TimePoint("@ + decimal(t as nat) + "))"@,
        ScValue::Duration(d) => "Duration(Duration("@ + decimal(d as nat) + "))"@,
        ScValue::U128 { hi, lo } => "U128(UInt128Parts { hi: "@ + decimal(hi as nat) + ", lo: "@
            + decimal(lo as nat) + " })"@,
        ScValue::I128 { hi, lo } => "I128(Int128Parts { hi: "@ + signed_decimal(hi as int)
            + ", lo: "@ + decimal(lo as nat) + " })"@,
        ScValue::U256 => "U256"@,
        ScValue::I256 => "I256"@,
        ScValue::Bytes(_) => "Bytes"@,
        ScValue::String(_) => "String"@,
        ScValue::Symbol(_) => "Symbol"@,
        ScValue::ScVec(_) => "Vec"@,
        ScValue::ScMap(_) => "Map"@,
        ScValue::Address(_) => "Address"@,
        ScValue::ContractInstance => "ContractInstance"@,
        ScValue::LedgerKeyContractInstance => "LedgerKeyContractInstance"@,
        ScValue::LedgerKeyNonce => "LedgerKeyNonce"@,
    }
}

/// The message of the error for the map key `k` that is not text.
pub open spec fn map_key_message(k: ScValue) -> Seq<char> {
    "unexpected map key "@ + key_label(k)
}

/// The index of the first item that does not convert.
pub open spec fn first_unconverted(items: Seq<ScValue>) -> int {
    choose|i: int|
        0 <= i < items.len() && !scval_converts(items[i]) && forall|j: int|
            0 <= j < i ==> scval_converts(#[trigger] items[j])
}

/// Whether a map entry stops the conversion: its key is not text or its
/// value does not convert.
pub open spec fn entry_fails(e: (ScValue, ScValue)) -> bool {
    key_text(e.0) is None || !scval_converts(e.1)
}

/// The index of the first map entry that stops the conversion.
pub open spec fn first_failing_entry(entries: Seq<(ScValue, ScValue)>) -> int {
    choose|i: int|
        0 <= i < entries.len() && entry_fails(entries[i]) && forall|j: int|
            0 <= j < i ==> !entry_fails(#[trigger] entries[j])
}

/// The message of the conversion error of a value that does not convert: it
/// names the first key that is not text, in the order items and entries are
/// visited (an entry's key before its value).
pub open spec fn scval_error(v: ScValue) -> Seq<char>
    decreases v,
{
    match v {
        ScValue::ScVec(Some(items)) => {
            let i = first_unconverted(items@);
            if 0 <= i < items@.len() {
                scval_error(items@[i])
            } else {
                Seq::empty()
            }
        },
        ScValue::ScMap(Some(entries)) => {
            let i = first_failing_entry(entries@);
            if 0 <= i < entries@.len() {
                if key_text(entries@[i].0) is None {
                    map_key_message(entries@[i].0)
                } else {
                    scval_error(entries@[i].1)
                }
            } else {
                Seq::empty()
            }
        },
        _ => Seq::empty(),
    }
}

/// `entries` with `key` bound to `value`: the value of an existing key is
/// replaced in place, a new key goes last (JSON objects keep one value per
/// key, the last one inserted).
pub open spec fn object_insert(entries: Seq<(Seq<char>, Json)>, key: Seq<char>, value: Json) -> Seq<(Seq<char>, Json)> {
    if exists|i: int| 0 <= i < entries.len() && #[trigger] entries[i].0 == key {
        let i = choose|i: int| 0 <= i < entries.len() && #[trigger] entries[i].0 == key;
        entries.update(i, (key, value))
    } else {
        entries.push((key, value))
    }
}

/// Inserting the pairs of `pairs` one after the other into an empty object.
pub open spec fn object_of(pairs: Seq<(Seq<char>, Json)>) -> Seq<(Seq<char>, Json)>
    decreases pairs.len(),
{
    if pairs.len() == 0 {
        Seq::empty()
    } else {
        object_insert(object_of(pairs.drop_last()), pairs.last().0, pairs.last().1)
    }
}

/// The JSON form of a value (meaningful when it converts): integers are
/// numbers, 128-bit integers numbers when they fit 64 bits and decimal text
/// otherwise, bytes lowercase hex, strings and symbols text, addresses their
/// strkey, vectors arrays, maps objects, and the rest null.
pub open spec fn scval_json(v: ScValue) -> Json
    decreases v,
{
    match v {
        ScValue::Bool(b) => Json::Bool(b),
        ScValue::Void => Json::Null,
        ScValue::Error(t) => Json::Str(t@),
        ScValue::U32(u) => Json::Number(Num::PosInt(u as nat)),
        ScValue::I32(i) => int_json(i as int),
        ScValue::U64(u) => Json::Number(Num::PosInt(u as nat)),
        ScValue::I64(i) => int_json(i as int),
        ScValue::Timepoint(t) => Json::Number(Num::PosInt(t as nat)),
        ScValue::Duration(d) => Json::Number(Num::PosInt(d as nat)),
        ScValue::U128 { hi, lo } => if hi == 0 {
            Json::Number(Num::PosInt(lo as nat))
        } else {
            Json::Str(decimal(wide(hi as int, lo as int) as nat))
        },
        ScValue::I128 { hi, lo } => i128_json_spec(hi, lo),
        ScValue::U256 => Json::Null,
        ScValue::I256 => Json::Null,
        ScValue::Bytes(b) => Json::Str(hex_lower(b@)),
        ScValue::String(s) => Json::Str(s@),
        ScValue::Symbol(s) => Json::Str(s@),
        ScValue::ScVec(Some(items)) => Json::Array(
            Seq::new(
                items@.len(),
                |i: int|
                    if 0 <= i < items@.len() {
                        scval_json(items@[i])
                    } else {
                        Json::Null
                    },
            ),
        ),
        ScValue::ScVec(None) => Json::Null,
        ScValue::ScMap(Some(entries)) => Json::Object(object_of(scmap_pairs(entries@))),
        ScValue::ScMap(None) => Json::Null,
        ScValue::Address(a) => Json::Str(address_text(a)),
        ScValue::ContractInstance => Json::Null,
        ScValue::LedgerKeyContractInstance => Json::Null,
        ScValue::LedgerKeyNonce => Json::Null,
    }
}

/// The key text (empty for a key that is not text) and JSON value of each
/// map entry, in order.
pub open spec fn scmap_pairs(entries: Seq<(ScValue, ScValue)>) -> Seq<(Seq<char>, Json)>
    decreases entries,
{
    Seq::new(
        entries.len(),
        |k: int|
            if 0 <= k < entries.len() {
                (
                    match key_text(entries[k].0) {
                        Some(t) => t,
                        None => Seq::empty(),
                    },
                    scval_json(entries[k].1),
                )
            } else {
                (Seq::empty(), Json::Null)
            },
    )
}

/// A 128-bit signed integer as JSON: a number when it fits `i64`, else its
/// decimal text.
pub open spec fn i128_json_spec(hi: i64, lo: u64) -> Json {
    let v = wide(hi as int, lo as int);
    if i64::MIN <= v <= i64::MAX {
        int_json(v)
    } else {
        Json::Str(signed_decimal(v))
    }
}

/// The JSON number of `i`.
fn json_int(i: i64) -> (r: JsonValue)
    ensures
        r@ == int_json(i as int),
{
    if i >= 0 {
        JsonValue::Number(JsonNumber::PosInt(i as u64))
    } else {
        JsonValue::Number(JsonNumber::NegInt(i))
    }
}

/// A 128-bit signed integer `hi * 2^64 + lo` as JSON: a number when it fits
/// `i64` (precision is never lost), else its decimal text.
pub fn i128_json(hi: i64, lo: u64) -> (r: JsonValue)
    ensures
        r@ == i128_json_spec(hi, lo),
{
    let v: i128 = (hi as i128) * 0x1_0000_0000_0000_0000i128 + (lo as i128);
    if v >= -0x8000_0000_0000_0000i128 && v <= 0x7fff_ffff_ffff_ffffi128 {
        json_int(v as i64)
    } else {
        let mut out: Vec<char> = Vec::new();
        if v < 0 {
            out.push('-');
            // v < 0 forces hi < 0, and -v == (-hi) * 2^64 - lo.
            let nh: u128 = (0i128 - (hi as i128)) as u128;
            let m: u128 = nh * 0x1_0000_0000_0000_0000u128 - (lo as u128);
            assert(m == -v);
            push_decimal(&mut out, m);
            assert(out@ =~= seq!['-'] + decimal((-v) as nat));
        } else {
            push_decimal(&mut out, v as u128);
            assert(out@ =~= decimal(v as nat));
        }
        JsonValue::String(string_of(&out))
    }
}

/// The strkey text of an address: `G…` accounts, `C…` contracts, `M…` muxed
/// accounts, and the debug text of any other kind.
pub fn address_strkey(a: &ScAddressValue) -> (r: String)
    ensures
        r@ == address_text(*a),
{
    match a {
        ScAddressValue::Account(k) => encode_account(k),
        ScAddressValue::Contract(h) => encode_contract(h),
        ScAddressValue::MuxedAccount { ed25519, id } => encode_muxed_account(ed25519, *id),
        ScAddressValue::Other(t) => t.clone(),
    }
}

/// The event name a topic carries: a symbol's or a string's text.
pub fn symbol_to_string(v: &ScValue) -> (r: Option<String>)
    ensures
        r matches Some(s) ==> key_text(*v) == Some(s@),
        r is None ==> key_text(*v) is None,
{
    match v {
        ScValue::Symbol(s) => Some(s.clone()),
        ScValue::String(s) => Some(s.clone()),
        _ => None,
    }
}

/// The mathematical entries of a JSON object held as a vector of pairs.
pub open spec fn object_view(entries: Seq<(String, JsonValue)>) -> Seq<(Seq<char>, Json)> {
    Seq::new(
        entries.len(),
        |i: int|
            if 0 <= i < entries.len() {
                (entries[i].0@, entries[i].1@)
            } else {
                (Seq::empty(), Json::Null)
            },
    )
}

/// No key occurs twice.
pub open spec fn keys_unique(entries: Seq<(Seq<char>, Json)>) -> bool {
    forall|i: int, j: int|
        0 <= i < j < entries.len() ==> #[trigger] entries[i].0 != #[trigger] entries[j].0
}

/// Binds `key` to `value` in `obj`, as a JSON object insert does.
fn object_insert_exec(obj: &mut Vec<(String, JsonValue)>, key: String, value: JsonValue)
    requires
        keys_unique(object_view(old(obj)@)),
    ensures
        object_view(final(obj)@) == object_insert(object_view(old(obj)@), key@, value@),
        keys_unique(object_view(final(obj)@)),
{
    let ghost before = object_view(obj@);
    let mut j: usize = 0;
    while j < obj.len()
        invariant
            j <= obj.len(),
            obj@ == old(obj)@,
            before == object_view(obj@),
            keys_unique(before),
            forall|k: int| 0 <= k < j ==> (#[trigger] before[k]).0 != key@,
        decreases obj.len() - j,
    {
        if obj[j].0 == key {
            proof {
                assert(before[j as int].0 == key@);
                let i = choose|i: int| 0 <= i < before.len() && #[trigger] before[i].0 == key@;
                if i != j {
                    if i < j {
                        assert(before[i].0 != before[j as int].0);
                    } else {
                        assert(before[j as int].0 != before[i].0);
                    }
                }
                assert(i == j);
            }
            obj.set(j, (key, value));
            proof {
                assert(object_view(obj@) =~= before.update(j as int, (key@, value@)));
            }
            return;
        }
        j += 1;
    }
    obj.push((key, value));
    proof {
        assert(object_view(obj@) =~= before.push((key@, value@)));
    }
}

/// Scalar contract values convert, each to the JSON of what it holds:
/// booleans to booleans, void to null, unsigned integers (and time points and
/// durations) to non-negative numbers, signed integers to numbers of their
/// sign, and strings and symbols to JSON strings of the same text.
pub proof fn lemma_scalars_convert_to_what_they_hold(
    b: bool,
    u: u32,
    i: i32,
    w: u64,
    l: i64,
    t: String,
)
    ensures
        scval_converts(ScValue::Bool(b)) && scval_json(ScValue::Bool(b)) == Json::Bool(b),
        scval_converts(ScValue::Void) && scval_json(ScValue::Void) == Json::Null,
        scval_converts(ScValue::U32(u)) && scval_json(ScValue::U32(u)) == Json::Number(
            Num::PosInt(u as nat),
        ),
        scval_converts(ScValue::U64(w)) && scval_json(ScValue::U64(w)) == Json::Number(
            Num::PosInt(w as nat),
        ),
        scval_json(ScValue::Timepoint(w)) == Json::Number(Num::PosInt(w as nat)),
        scval_json(ScValue::Duration(w)) == Json::Number(Num::PosInt(w as nat)),
        i >= 0 ==> scval_json(ScValue::I32(i)) == Json::Number(Num::PosInt(i as nat)),
        i < 0 ==> scval_json(ScValue::I32(i)) == Json::Number(Num::NegInt(i as int)),
        l >= 0 ==> scval_json(ScValue::I64(l)) == Json::Number(Num::PosInt(l as nat)),
        l < 0 ==> scval_json(ScValue::I64(l)) == Json::Number(Num::NegInt(l as int)),
        scval_converts(ScValue::String(t)) && scval_json(ScValue::String(t)) == Json::Str(t@),
        scval_converts(ScValue::Symbol(t)) && scval_json(ScValue::Symbol(t)) == Json::Str(t@),
{
}

/// A vector converts item by item: the array has one element per item, in
/// order, each the conversion of that item.
pub proof fn lemma_vector_converts_item_by_item(items: Vec<ScValue>)
    ensures
        scval_json(ScValue::ScVec(Some(items))) matches Json::Array(r) && r.len() == items@.len()
            && forall|k: int| 0 <= k < items@.len() ==> #[trigger] r[k] == scval_json(items@[k]),
{
}

/// 128-bit integers become numbers when they fit 64 bits (an unsigned one
/// whose high half is zero, a signed one within `i64`), and the text of their
/// value otherwise; bytes become text of two hex digits per byte.
pub proof fn lemma_wide_values_keep_their_value(hi: u64, lo: u64, shi: i64, bytes: Vec<u8>)
    ensures
        hi == 0 ==> scval_json(ScValue::U128 { hi, lo }) == Json::Number(Num::PosInt(lo as nat)),
        hi != 0 ==> scval_json(ScValue::U128 { hi, lo }) == Json::Str(
            decimal((hi * 0x1_0000_0000_0000_0000 + lo) as nat),
        ),
        ({
            let v = shi * 0x1_0000_0000_0000_0000 + lo;
            &&& (0 <= v <= i64::MAX ==> scval_json(ScValue::I128 { hi: shi, lo }) == Json::Number(
                Num::PosInt(v as nat),
            ))
            &&& (i64::MIN <= v < 0 ==> scval_json(ScValue::I128 { hi: shi, lo }) == Json::Number(
                Num::NegInt(v),
            ))
            &&& (v > i64::MAX ==> scval_json(ScValue::I128 { hi: shi, lo }) == Json::Str(
                decimal(v as nat),
            ))
            &&& (v < i64::MIN ==> scval_json(ScValue::I128 { hi: shi, lo }) == Json::Str(
                seq!['-'] + decimal((-v) as nat),
            ))
        }),
        scval_json(ScValue::Bytes(bytes)) == Json::Str(hex_lower(bytes@)),
        hex_lower(bytes@).len() == 2 * bytes@.len(),
{
    lemma_hex_lower_len(bytes@);
}

/// Two hex digits per byte.
proof fn lemma_hex_lower_len(b: Seq<u8>)
    ensures
        hex_lower(b).len() == 2 * b.len(),
    decreases b.len(),
{
    if b.len() > 0 {
        lemma_hex_lower_len(b.drop_last());
    }
}

/// A map whose keys are texts, no two alike, becomes the object of those
/// keys in order, each bound to the conversion of its value; it converts
/// exactly when every value does.
pub proof fn lemma_map_with_distinct_text_keys(entries: Vec<(ScValue, ScValue)>, keys: Seq<Seq<char>>)
    requires
        keys.len() == entries@.len(),
        forall|k: int| 0 <= k < keys.len() ==> key_text(#[trigger] entries@[k].0) == Some(keys[k]),
        forall|i: int, j: int| 0 <= i < j < keys.len() ==> #[trigger] keys[i] != #[trigger] keys[j],
    ensures
        scval_json(ScValue::ScMap(Some(entries))) == Json::Object(
            Seq::new(keys.len(), |k: int| (keys[k], scval_json(entries@[k].1))),
        ),
        scval_converts(ScValue::ScMap(Some(entries))) <==> forall|k: int|
            0 <= k < keys.len() ==> scval_converts(#[trigger] entries@[k].1),
{
    let pairs = scmap_pairs(entries@);
    let want = Seq::new(keys.len(), |k: int| (keys[k], scval_json(entries@[k].1)));
    assert(pairs =~= want);
    lemma_object_of_distinct(want);
    if forall|k: int| 0 <= k < keys.len() ==> scval_converts(#[trigger] entries@[k].1) {
        assert forall|k: int| 0 <= k < entries@.len() implies key_text(#[trigger] entries@[k].0) is Some
            && scval_converts(entries@[k].1) by {
            assert(key_text(entries@[k].0) == Some(keys[k]));
        }
    }
    if scval_converts(ScValue::ScMap(Some(entries))) {
        assert forall|k: int| 0 <= k < keys.len() implies scval_converts(#[trigger] entries@[k].1) by {
            assert(key_text(entries@[k].0) is Some && scval_converts(entries@[k].1));
        }
    }
}

/// Inserting into an object whose keys are unique binds the key to the new
/// value (replacing the old binding, which is lost), keeps every other entry,
/// keeps the keys unique, and grows the object only by a key it did not have.
pub proof fn lemma_object_insert_binds(entries: Seq<(Seq<char>, Json)>, key: Seq<char>, value: Json)
    requires
        keys_unique(entries),
    ensures
        ({
            let r = object_insert(entries, key, value);
            &&& keys_unique(r)
            &&& r.contains((key, value))
            &&& forall|j: int| 0 <= j < entries.len() && #[trigger] entries[j].0 != key ==> r.contains(entries[j])
            &&& forall|j: int| 0 <= j < r.len() && #[trigger] r[j].0 == key ==> r[j].1 == value
            &&& r.len() == entries.len() + (if has_text_key(entries, key) { 0int } else { 1 })
        }),
{
    let r = object_insert(entries, key, value);
    if exists|i: int| 0 <= i < entries.len() && #[trigger] entries[i].0 == key {
        let i = choose|i: int| 0 <= i < entries.len() && #[trigger] entries[i].0 == key;
        assert(r[i] == (key, value));
        assert forall|j: int| 0 <= j < entries.len() && #[trigger] entries[j].0 != key implies r.contains(entries[j]) by {
            assert(r[j] == entries[j]);
        }
        assert forall|a: int, b: int| 0 <= a < b < r.len() implies #[trigger] r[a].0 != #[trigger] r[b].0 by {
            if a != i && b != i {
                assert(r[a] == entries[a] && r[b] == entries[b]);
            } else if a == i {
                assert(r[b] == entries[b]);
                assert(entries[i].0 != entries[b].0);
            } else {
                assert(r[a] == entries[a]);
                assert(entries[a].0 != entries[i].0);
            }
        }
        assert forall|j: int| 0 <= j < r.len() && #[trigger] r[j].0 == key implies r[j].1 == value by {
            if j != i {
                assert(r[j] == entries[j]);
                if j < i {
                    assert(entries[j].0 != entries[i].0);
                } else {
                    assert(entries[i].0 != entries[j].0);
                }
            }
        }
    } else {
        let n = entries.len() as int;
        assert(r[n] == (key, value));
        assert forall|j: int| 0 <= j < entries.len() && #[trigger] entries[j].0 != key implies r.contains(entries[j]) by {
            assert(r[j] == entries[j]);
        }
        assert forall|a: int, b: int| 0 <= a < b < r.len() implies #[trigger] r[a].0 != #[trigger] r[b].0 by {
            if b < n {
                assert(r[a] == entries[a] && r[b] == entries[b]);
            } else {
                assert(r[a] == entries[a]);
            }
        }
        assert forall|j: int| 0 <= j < r.len() && #[trigger] r[j].0 == key implies r[j].1 == value by {
            if j < n {
                assert(r[j] == entries[j]);
            }
        }
    }
}

/// Whether some entry of `entries` has the key `key`.
pub open spec fn has_text_key(entries: Seq<(Seq<char>, Json)>, key: Seq<char>) -> bool {
    exists|i: int| 0 <= i < entries.len() && #[trigger] entries[i].0 == key
}

/// Inserting pairs whose keys are all different, one after the other, keeps
/// them all, in order.
proof fn lemma_object_of_distinct(pairs: Seq<(Seq<char>, Json)>)
    requires
        forall|i: int, j: int| 0 <= i < j < pairs.len() ==> #[trigger] pairs[i].0 != #[trigger] pairs[j].0,
    ensures
        object_of(pairs) == pairs,
    decreases pairs.len(),
{
    if pairs.len() > 0 {
        let init = pairs.drop_last();
        assert forall|i: int, j: int| 0 <= i < j < init.len() implies #[trigger] init[i].0 != #[trigger] init[j].0 by {
            assert(init[i] == pairs[i] && init[j] == pairs[j]);
        }
        lemma_object_of_distinct(init);
        let key = pairs.last().0;
        if exists|i: int| 0 <= i < init.len() && #[trigger] init[i].0 == key {
            let i = choose|i: int| 0 <= i < init.len() && #[trigger] init[i].0 == key;
            assert(pairs[i].0 != pairs[pairs.len() - 1].0);
        }
        assert(init.push(pairs.last()) =~= pairs);
    }
}

/// The first item that does not convert is the one after a run of items that
/// do.
proof fn lemma_first_unconverted(items: Seq<ScValue>, i: int)
    requires
        0 <= i < items.len(),
        !scval_converts(items[i]),
        forall|j: int| 0 <= j < i ==> scval_converts(#[trigger] items[j]),
    ensures
        first_unconverted(items) == i,
{
    let c = first_unconverted(items);
    assert(0 <= c < items.len() && !scval_converts(items[c]));
    if c < i {
        assert(scval_converts(items[c]));
    } else if c > i {
        assert(scval_converts(items[i]));
    }
}

/// The first entry that stops the conversion is the one after a run of
/// entries that do not.
proof fn lemma_first_failing_entry(entries: Seq<(ScValue, ScValue)>, i: int)
    requires
        0 <= i < entries.len(),
        entry_fails(entries[i]),
        forall|j: int| 0 <= j < i ==> !entry_fails(#[trigger] entries[j]),
    ensures
        first_failing_entry(entries) == i,
{
    let c = first_failing_entry(entries);
    assert(0 <= c < entries.len() && entry_fails(entries[c]));
    if c < i {
        assert(!entry_fails(entries[c]));
    } else if c > i {
        assert(!entry_fails(entries[i]));
    }
}

/// Converts a contract value to JSON. Fails with `Internal` when a map key, at
/// any depth, is neither a symbol nor a string; the message names the first
/// such key.
#[verifier::loop_isolation(false)]
pub fn scval_to_json(v: &ScValue) -> (r: Result<JsonValue, ChainEventsError>)
    ensures
        r is Ok <==> scval_converts(*v),
        r matches Ok(j) ==> j@ == scval_json(*v),
        r matches Err(e) ==> (e matches ChainEventsError::Internal(m) && m@ == scval_error(*v)),
    decreases v,
{
    match v {
        ScValue::Bool(b) => Ok(JsonValue::Bool(*b)),
        ScValue::Void => Ok(JsonValue::Null),
        ScValue::Error(t) => Ok(JsonValue::String(t.clone())),
        ScValue::U32(u) => Ok(JsonValue::Number(JsonNumber::PosInt(*u as u64))),
        ScValue::I32(i) => Ok(json_int(*i as i64)),
        ScValue::U64(u) => Ok(JsonValue::Number(JsonNumber::PosInt(*u))),
        ScValue::I64(i) => Ok(json_int(*i)),
        ScValue::Timepoint(t) => Ok(JsonValue::Number(JsonNumber::PosInt(*t))),
        ScValue::Duration(d) => Ok(JsonValue::Number(JsonNumber::PosInt(*d))),
        ScValue::U128 { hi, lo } => {
            if *hi == 0 {
                Ok(JsonValue::Number(JsonNumber::PosInt(*lo)))
            } else {
                let h: u128 = *hi as u128;
                assert(h * 0x1_0000_0000_0000_0000u128 <= 0xffff_ffff_ffff_ffffu128 * 0x1_0000_0000_0000_0000u128) by (nonlinear_arith)
                    requires h <= 0xffff_ffff_ffff_ffffu128;
                let n: u128 = h * 0x1_0000_0000_0000_0000u128 + (*lo as u128);
                let mut out: Vec<char> = Vec::new();
                push_decimal(&mut out, n);
                assert(out@ =~= decimal(wide(*hi as int, *lo as int) as nat));
                Ok(JsonValue::String(string_of(&out)))
            }
        },
        ScValue::I128 { hi, lo } => Ok(i128_json(*hi, *lo)),
        ScValue::U256 => Ok(JsonValue::Null),
        ScValue::I256 => Ok(JsonValue::Null),
        ScValue::Bytes(b) => Ok(JsonValue::String(hex_encode(b.as_slice()))),
        ScValue::String(t) => Ok(JsonValue::String(t.clone())),
        ScValue::Symbol(t) => Ok(JsonValue::String(t.clone())),
        ScValue::ScVec(Some(items)) => {
            let mut out: Vec<JsonValue> = Vec::new();
            let mut i: usize = 0;
            while i < items.len()
                invariant
                    i <= items.len(),
                    out@.len() == i,
                    forall|k: int| 0 <= k < i ==> (#[trigger] out@[k])@ == scval_json(items@[k]),
                    forall|k: int| 0 <= k < i ==> scval_converts(#[trigger] items@[k]),
                decreases items.len() - i,
            {
                proof {
                    let ghost inner = v->ScVec_0;
                    assert(decreases_to!(*v => inner));
                    assert(decreases_to!(inner => inner->0));
                    assert(decreases_to!(inner->0 => inner->0@));
                    assert(decreases_to!(inner->0@ => inner->0@[i as int]));
                }
                match scval_to_json(&items[i]) {
                    Ok(j) => {
                        out.push(j);
                    },
                    Err(e) => {
                        proof {
                            lemma_first_unconverted(items@, i as int);
                        }
                        return Err(e);
                    },
                }
                i += 1;
            }
            let r = JsonValue::Array(out);
            proof {
                let ra = match r@ {
                    Json::Array(t) => t,
                    _ => Seq::empty(),
                };
                let sa = match scval_json(*v) {
                    Json::Array(t) => t,
                    _ => Seq::empty(),
                };
                assert(ra =~= sa);
            }
            Ok(r)
        },
        ScValue::ScVec(None) => Ok(JsonValue::Null),
        ScValue::ScMap(Some(entries)) => {
            let ghost pairs = scmap_pairs(entries@);
            let mut obj: Vec<(String, JsonValue)> = Vec::new();
            let mut i: usize = 0;
            proof {
                assert(object_view(obj@) =~= object_of(pairs.take(0)));
            }
            while i < entries.len()
                invariant
                    i <= entries.len(),
                    pairs.len() == entries@.len(),
                    forall|k: int| 0 <= k < entries@.len() ==> #[trigger] pairs[k] == (
                        match key_text(entries@[k].0) {
                            Some(t) => t,
                            None => Seq::empty(),
                        },
                        scval_json(entries@[k].1),
                    ),
                    object_view(obj@) == object_of(pairs.take(i as int)),
                    keys_unique(object_view(obj@)),
                    forall|k: int| 0 <= k < i ==> key_text((#[trigger] entries@[k]).0) is Some
                        && scval_converts(entries@[k].1),
                decreases entries.len() - i,
            {
                let key = match symbol_to_string(&entries[i].0) {
                    Some(k) => k,
                    None => {
                        proof {
                            lemma_first_failing_entry(entries@, i as int);
                        }
                        return Err(ChainEventsError::Internal(unexpected_map_key(&entries[i].0)));
                    },
                };
                proof {
                    let ghost inner = v->ScMap_0;
                    assert(decreases_to!(*v => inner));
                    assert(decreases_to!(inner => inner->0));
                    assert(decreases_to!(inner->0 => inner->0@));
                    assert(decreases_to!(inner->0@ => inner->0@[i as int]));
                    assert(decreases_to!(inner->0@[i as int] => inner->0@[i as int].1));
                }
                let val = match scval_to_json(&entries[i].1) {
                    Ok(j) => j,
                    Err(e) => {
                        proof {
                            lemma_first_failing_entry(entries@, i as int);
                        }
                        return Err(e);
                    },
                };
                proof {
                    assert(pairs.take(i as int + 1).drop_last() =~= pairs.take(i as int));
                    assert(pairs.take(i as int + 1).last() == pairs[i as int]);
                }
                object_insert_exec(&mut obj, key, val);
                i += 1;
            }
            let r = JsonValue::Object(obj);
            proof {
                assert(pairs.take(entries@.len() as int) =~= pairs);
                let ro = match r@ {
                    Json::Object(t) => t,
                    _ => Seq::empty(),
                };
                let so = match scval_json(*v) {
                    Json::Object(t) => t,
                    _ => Seq::empty(),
                };
                assert(ro =~= object_view(obj@));
                assert(so == object_of(pairs));
            }
            Ok(r)
        },
        ScValue::ScMap(None) => Ok(JsonValue::Null),
        ScValue::Address(a) => Ok(JsonValue::String(address_strkey(a))),
        ScValue::ContractInstance => Ok(JsonValue::Null),
        ScValue::LedgerKeyContractInstance => Ok(JsonValue::Null),
        ScValue::LedgerKeyNonce => Ok(JsonValue::Null),
    }
}

/// Appends the decimal text of `v`, with a leading `-` when negative.
fn push_signed(out: &mut Vec<char>, v: i64)
    ensures
        final(out)@ == old(out)@ + signed_decimal(v as int),
{
    if v < 0 {
        out.push('-');
        let m: u128 = (0i128 - (v as i128)) as u128;
        push_decimal(out, m);
        assert(final(out)@ =~= old(out)@ + (seq!['-'] + decimal((-v) as nat)));
    } else {
        push_decimal(out, v as u128);
    }
}

/// The label of a map key that is not text.
fn push_key_label(out: &mut Vec<char>, k: &ScValue)
    ensures
        final(out)@ == old(out)@ + key_label(*k),
{
    let ghost start = out@;
    match k {
        ScValue::Bool(b) => if *b {
            push_str(out, "Bool(true)");
        } else {
            push_str(out, "Bool(false)");
        },
        ScValue::Void => push_str(out, "Void"),
        ScValue::Error(t) => {
            push_str(out, "Error(");
            push_str(out, t.as_str());
            push_str(out, ")");
        },
        ScValue::U32(u) => {
            push_str(out, "U32(");
            push_decimal(out, *u as u128);
            push_str(out, ")");
        },
        ScValue::I32(i) => {
            push_str(out, "I32(");
            push_signed(out, *i as i64);
            push_str(out, ")");
        },
        ScValue::U64(u) => {
            push_str(out, "U64(");
            push_decimal(out, *u as u128);
            push_str(out, ")");
        },
        ScValue::I64(i) => {
            push_str(out, "I64(");
            push_signed(out, *i);
            push_str(out, ")");
        },
        ScValue::Timepoint(t) => {
            push_str(out, "Timepoint(TimePoint(");
            push_decimal(out, *t as u128);
            push_str(out, "))");
        },
        ScValue::Duration(d) => {
            push_str(out, "Duration(Duration(");
            push_decimal(out, *d as u128);
            push_str(out, "))");
        },
        ScValue::U128 { hi, lo } => {
            push_str(out, "U128(UInt128Parts { hi: ");
            push_decimal(out, *hi as u128);
            push_str(out, ", lo: ");
            push_decimal(out, *lo as u128);
            push_str(out, " })");
        },
        ScValue::I128 { hi, lo } => {
            push_str(out, "I128(Int128Parts { hi: ");
            push_signed(out, *hi);
            push_str(out, ", lo: ");
            push_decimal(out, *lo as u128);
            push_str(out, " })");
        },
        ScValue::U256 => push_str(out, "U256"),
        ScValue::I256 => push_str(out, "I256"),
        ScValue::Bytes(_) => push_str(out, "Bytes"),
        ScValue::String(_) => push_str(out, "String"),
        ScValue::Symbol(_) => push_str(out, "Symbol"),
        ScValue::ScVec(_) => push_str(out, "Vec"),
        ScValue::ScMap(_) => push_str(out, "Map"),
        ScValue::Address(_) => push_str(out, "Address"),
        ScValue::ContractInstance => push_str(out, "ContractInstance"),
        ScValue::LedgerKeyContractInstance => push_str(out, "LedgerKeyContractInstance"),
        ScValue::LedgerKeyNonce => push_str(out, "LedgerKeyNonce"),
    }
    assert(out@ =~= start + key_label(*k));
}

/// The message of the error for the map key `k` that is neither a symbol
/// nor a string.
fn unexpected_map_key(k: &ScValue) -> (r: String)
    ensures
        r@ == map_key_message(*k),
{
    let mut out: Vec<char> = Vec::new();
    push_str(&mut out, "unexpected map key ");
    push_key_label(&mut out, k);
    assert(out@ =~= map_key_message(*k));
    string_of(&out)
}

/// Events asked of the RPC per `getEvents` page.
pub const RPC_PAGE_LIMIT: usize = 100;

/// An event as the RPC returns it: its topics and value are contract values
/// in base64 XDR.
pub struct RpcEvent {
    pub contract_id: String,
    /// The event id `"<toid>-<event index>"`, which is also its paging cursor.
    pub id: String,
    pub topic: Vec<String>,
    pub value: String,
}

/// What `Event::parse_cursor` returns for an event id: `Some((toid,
/// event_index))` when the id is exactly two `'-'`-separated parts, a `u64`
/// and an `i32`.
pub open spec fn parse_cursor_spec(id: Seq<char>) -> Option<(u64, i32)> {
    let parts = split_spec(id, '-');
    if parts.len() == 2 {
        match (parse_u64_spec(parts[0]), parse_i32_spec(parts[1])) {
            (Some(t), Some(e)) => Some((t, e)),
            _ => None,
        }
    } else {
        None
    }
}

/// The ledger of a TOID: its high 32 bits.
pub open spec fn toid_ledger(toid: u64) -> i64 {
    (toid / 0x1_0000_0000) as i64
}

/// The operation index of a TOID: its low 32 bits read as an `i32`.
pub open spec fn toid_operation(toid: u64) -> i32 {
    let low = toid % 0x1_0000_0000;
    if low < 0x8000_0000 {
        low as i32
    } else {
        (low - 0x1_0000_0000) as i32
    }
}

/// Positions decoded from event ids keep the chain's order: for TOIDs whose
/// low 32 bits fit a non-negative `i32` (the operation part of a TOID), one
/// position comes before another exactly when its `(toid, event index)` pair
/// does.
pub proof fn lemma_toid_order(t1: u64, e1: i32, t2: u64, e2: i32)
    requires
        t1 % 0x1_0000_0000 < 0x8000_0000,
        t2 % 0x1_0000_0000 < 0x8000_0000,
    ensures
        position_lt(
            Cursor { ledger_sequence: toid_ledger(t1), operation_index: toid_operation(t1), event_index: e1 },
            Cursor { ledger_sequence: toid_ledger(t2), operation_index: toid_operation(t2), event_index: e2 },
        ) <==> (t1 < t2 || (t1 == t2 && e1 < e2)),
{
    let h1 = t1 / 0x1_0000_0000;
    let h2 = t2 / 0x1_0000_0000;
    let l1 = t1 % 0x1_0000_0000;
    let l2 = t2 % 0x1_0000_0000;
    assert(t1 == h1 * 0x1_0000_0000 + l1);
    assert(t2 == h2 * 0x1_0000_0000 + l2);
    assert(toid_ledger(t1) == h1);
    assert(toid_ledger(t2) == h2);
    assert(toid_operation(t1) == l1);
    assert(toid_operation(t2) == l2);
}

/// Every topic after the first decoded and converts to JSON.
pub open spec fn rest_topics_convert(topic: Seq<Option<ScValue>>) -> bool {
    forall|i: int|
        1 <= i < topic.len() ==> (#[trigger] topic[i] matches Some(t) && scval_converts(t))
}

/// The JSON of the topics after the first.
pub open spec fn rest_topics_json(topic: Seq<Option<ScValue>>) -> Seq<Json> {
    Seq::new(
        (topic.len() - 1) as nat,
        |i: int|
            match topic[i + 1] {
                Some(t) => scval_json(t),
                None => Json::Null,
            },
    )
}

/// The event that decoded contract values make: its name is the text of the
/// first topic (a symbol or a string), its position comes from its id, its
/// topics are the JSON of the other topics and its data the JSON of its value.
/// `None` when any of these fails.
pub open spec fn event_of_values(
    contract_id: Seq<char>,
    id: Seq<char>,
    topic: Seq<Option<ScValue>>,
    value: Option<ScValue>,
    contract_name: Seq<char>,
) -> Option<EventRecord> {
    if topic.len() == 0 {
        None
    } else {
        match (topic[0], parse_cursor_spec(id), value) {
            (Some(first), Some((toid, index)), Some(val)) => {
                match key_text(first) {
                    Some(name) => if rest_topics_convert(topic) && scval_converts(val) {
                        Some(
                            EventRecord {
                                contract_id: contract_id,
                                contract_name: contract_name,
                                event_name: name,
                                ledger_sequence: toid_ledger(toid),
                                operation_index: toid_operation(toid),
                                event_index: index,
                                topics: Json::Array(rest_topics_json(topic)),
                                data: scval_json(val),
                            },
                        )
                    } else {
                        None
                    },
                    None => None,
                }
            },
            _ => None,
        }
    }
}

/// The contract values of raw topics, each as base64 XDR decodes it.
pub open spec fn decoded_topics(topic: Seq<String>) -> Seq<Option<ScValue>> {
    Seq::new(topic.len(), |i: int| xdr_scval(topic[i]@))
}

/// The event that a raw RPC event decodes to: its topics and value read from
/// base64 XDR, then as [`event_of_values`] states.
pub open spec fn decoded_event(ev: RpcEvent, contract_name: Seq<char>) -> Option<EventRecord> {
    event_of_values(ev.contract_id@, ev.id@, decoded_topics(ev.topic@), xdr_scval(ev.value@), contract_name)
}

/// Parses an event id `"<toid>-<event index>"`, as `Event::parse_cursor` does.
pub fn parse_cursor(id: &str) -> (r: Option<(u64, i32)>)
    ensures
        r == parse_cursor_spec(id@),
{
    let chars = chars_of(id);
    let parts = split_chars(&chars, '-');
    if parts.len() != 2 {
        return None;
    }
    assert(pieces_view(parts@)[0] == parts@[0]@);
    assert(pieces_view(parts@)[1] == parts@[1]@);
    match (parse_u64(&parts[0]), parse_i32(&parts[1])) {
        (Some(t), Some(e)) => Some((t, e)),
        _ => None,
    }
}

/// The event that already decoded topics and value make: `None` when the
/// topic layout is unexpected (no first topic naming the event), the id is not
/// a cursor, or a topic or the value did not decode or convert.
pub fn event_from_values(
    contract_id: &String,
    id: &String,
    topic: &Vec<Option<ScValue>>,
    value: &Option<ScValue>,
    contract_name: &str,
) -> (r: Option<ChainEvent>)
    ensures
        r matches Some(e) ==> event_of_values(contract_id@, id@, topic@, *value, contract_name@) == Some(e@),
        r is None ==> event_of_values(contract_id@, id@, topic@, *value, contract_name@) is None,
{
    if topic.len() == 0 {
        return None;
    }
    let event_name = match &topic[0] {
        Some(first) => match symbol_to_string(first) {
            Some(n) => n,
            None => {
                return None;
            },
        },
        None => {
            return None;
        },
    };
    let (toid, event_index) = match parse_cursor(id.as_str()) {
        Some(p) => p,
        None => {
            return None;
        },
    };
    let mut topics: Vec<JsonValue> = Vec::new();
    let mut i: usize = 1;
    while i < topic.len()
        invariant
            1 <= i <= topic.len(),
            topics@.len() == i - 1,
            forall|k: int| 1 <= k < i ==> (#[trigger] topic@[k] matches Some(t) && scval_converts(t)),
            forall|k: int| 0 <= k < i - 1 ==> (#[trigger] topics@[k])@ == rest_topics_json(topic@)[k],
        decreases topic.len() - i,
    {
        match &topic[i] {
            Some(t) => match scval_to_json(t) {
                Ok(j) => {
                    topics.push(j);
                },
                Err(_) => {
                    return None;
                },
            },
            None => {
                return None;
            },
        }
        i += 1;
    }
    let data = match value {
        Some(val) => match scval_to_json(val) {
            Ok(j) => j,
            Err(_) => {
                return None;
            },
        },
        None => {
            return None;
        },
    };
    let ledger_sequence: i64 = (toid / 0x1_0000_0000) as i64;
    let low: u64 = toid % 0x1_0000_0000;
    let operation_index: i32 = if low < 0x8000_0000 {
        low as i32
    } else {
        ((low as i64) - 0x1_0000_0000) as i32
    };
    let topics_json = JsonValue::Array(topics);
    proof {
        let ta = match topics_json@ {
            Json::Array(t) => t,
            _ => Seq::empty(),
        };
        assert(ta =~= rest_topics_json(topic@));
    }
    Some(
        ChainEvent {
            contract_id: contract_id.clone(),
            contract_name: contract_name.to_string(),
            event_name,
            ledger_sequence,
            operation_index,
            event_index,
            topics: topics_json,
            data,
        },
    )
}

/// `ScVal::from_xdr_base64(raw, Limits::none())` held as plain data: the
/// contract value that the base64 XDR text `raw` encodes, or `None` when it is
/// not one.
pub uninterp spec fn xdr_scval(raw: Seq<char>) -> Option<ScValue>;

/// The XDR contract value type of `stellar-xdr`.
#[verifier::external_type_specification]
#[verifier::external_body]
pub struct ExScVal(V);

/// A decoded contract value as plain data, variant for variant; nested values
/// are converted the same way. Each variant is converted by exactly one of the
/// four conversions below, so the result is always `Some`.
#[verifier::external_body]
fn scvalue_of(v: &V) -> Option<ScValue> {
    small_value_of(v).or_else(|| wide_value_of(v)).or_else(|| nested_value_of(v)).or_else(|| other_value_of(v))
}

/// The booleans, void, errors and integers up to 64 bits.
#[verifier::external_body]
fn small_value_of(v: &V) -> Option<ScValue> {
    match v {
        V::Bool(b) => Some(ScValue::Bool(*b)),
        V::Void => Some(ScValue::Void),
        V::Error(e) => Some(ScValue::Error(format!("{e:?}"))),
        V::U32(u) => Some(ScValue::U32(*u)),
        V::I32(i) => Some(ScValue::I32(*i)),
        V::U64(u) => Some(ScValue::U64(*u)),
        V::I64(i) => Some(ScValue::I64(*i)),
        V::Timepoint(t) => Some(ScValue::Timepoint(t.0)),
        V::Duration(d) => Some(ScValue::Duration(d.0)),
        _ => None,
    }
}

/// The wide integers, bytes, strings and symbols.
#[verifier::external_body]
fn wide_value_of(v: &V) -> Option<ScValue> {
    match v {
        V::U128(p) => Some(ScValue::U128 { hi: p.hi, lo: p.lo }),
        V::I128(p) => Some(ScValue::I128 { hi: p.hi, lo: p.lo }),
        V::U256(_) => Some(ScValue::U256),
        V::I256(_) => Some(ScValue::I256),
        V::Bytes(b) => Some(ScValue::Bytes(b.0.as_slice().to_vec())),
        V::String(s) => Some(ScValue::String(s.0.to_string())),
        V::Symbol(s) => Some(ScValue::Symbol(s.0.to_string())),
        _ => None,
    }
}

/// Vectors and maps, whose items are converted in turn.
#[verifier::external_body]
fn nested_value_of(v: &V) -> Option<ScValue> {
    match v {
        V::Vec(None) => Some(ScValue::ScVec(None)),
        V::Vec(Some(x)) => Some(ScValue::ScVec(Some(x.0.iter().map(scvalue_of).collect::<Option<_>>()?))),
        V::Map(None) => Some(ScValue::ScMap(None)),
        V::Map(Some(x)) => Some(ScValue::ScMap(Some(
            x.0.iter().map(|e| Some((scvalue_of(&e.key)?, scvalue_of(&e.val)?))).collect::<Option<_>>()?,
        ))),
        _ => None,
    }
}

/// Addresses, contract instances and ledger keys.
#[verifier::external_body]
fn other_value_of(v: &V) -> Option<ScValue> {
    match v {
        V::Address(a) => Some(ScValue::Address(address_value_of(a))),
        V::ContractInstance(_) => Some(ScValue::ContractInstance),
        V::LedgerKeyContractInstance => Some(ScValue::LedgerKeyContractInstance),
        V::LedgerKeyNonce(_) => Some(ScValue::LedgerKeyNonce),
        _ => None,
    }
}

/// The XDR address type of `stellar-xdr`.
#[verifier::external_type_specification]
#[verifier::external_body]
pub struct ExScAddress(ScAddress);

/// A decoded address as plain data: account and contract keys, muxed
/// accounts, and the debug text of any other kind.
#[verifier::external_body]
fn address_value_of(a: &ScAddress) -> ScAddressValue {
    match a {
        ScAddress::Account(account) => {
            let stellar_xdr::curr::PublicKey::PublicKeyTypeEd25519(k) = &account.0;
            ScAddressValue::Account(k.0)
        },
        ScAddress::Contract(contract) => ScAddressValue::Contract(contract.0.0),
        ScAddress::MuxedAccount(m) => ScAddressValue::MuxedAccount { ed25519: m.ed25519.0, id: m.id },
        other => ScAddressValue::Other(format!("{other:?}")),
    }
}

/// Reads a contract value from base64 XDR (`ScVal::from_xdr_base64` with no
/// limits) and holds it as plain data, one variant for one variant.
#[verifier::external_body]
fn decode_scval_base64(raw: &str) -> (r: Option<ScValue>)
    ensures
        r == xdr_scval(raw@),
{
    match V::from_xdr_base64(raw, stellar_xdr::curr::Limits::none()) {
        Ok(v) => scvalue_of(&v),
        Err(_) => None,
    }
}

/// Decodes a raw RPC event into the event the raw store keeps: its topics and
/// value are read from base64 XDR; `None` when the topic layout is unexpected
/// (no first topic naming the event), the id is not a cursor, or a topic or
/// the value does not decode or convert.
pub fn decode_rpc_event(ev: &RpcEvent, contract_name: &str) -> (r: Option<ChainEvent>)
    ensures
        r matches Some(e) ==> decoded_event(*ev, contract_name@) == Some(e@),
        r is None ==> decoded_event(*ev, contract_name@) is None,
{
    let mut topic: Vec<Option<ScValue>> = Vec::new();
    let mut i: usize = 0;
    while i < ev.topic.len()
        invariant
            i <= ev.topic.len(),
            topic@ == decoded_topics(ev.topic@).take(i as int),
        decreases ev.topic.len() - i,
    {
        let t = decode_scval_base64(ev.topic[i].as_str());
        topic.push(t);
        assert(topic@ =~= decoded_topics(ev.topic@).take(i + 1));
        i += 1;
    }
    assert(topic@ =~= decoded_topics(ev.topic@));
    let value = decode_scval_base64(ev.value.as_str());
    event_from_values(&ev.contract_id, &ev.id, &topic, &value, contract_name)
}

/// The events of one page that decode and come strictly after `cursor`, in
/// page order.
pub open spec fn selected_events(page: Seq<RpcEvent>, contract_name: Seq<char>, cursor: Cursor) -> Seq<EventRecord>
    decreases page.len(),
{
    if page.len() == 0 {
        Seq::empty()
    } else {
        let before = selected_events(page.drop_last(), contract_name, cursor);
        match decoded_event(page.last(), contract_name) {
            Some(e) => if position_lt(cursor, e.position()) {
                before.push(e)
            } else {
                before
            },
            None => before,
        }
    }
}

/// Decodes a page of RPC events, skipping those that do not decode, and
/// keeps those strictly after `cursor`.
pub fn select_events(page: &Vec<RpcEvent>, contract_name: &str, cursor: Cursor) -> (r: Vec<ChainEvent>)
    ensures
        records(r@) == selected_events(page@, contract_name@, cursor),
{
    let mut out: Vec<ChainEvent> = Vec::new();
    let mut i: usize = 0;
    while i < page.len()
        invariant
            i <= page.len(),
            records(out@) == selected_events(page@.take(i as int), contract_name@, cursor),
        decreases page.len() - i,
    {
        let ghost before = records(out@);
        proof {
            assert(page@.take(i + 1).drop_last() =~= page@.take(i as int));
            assert(page@.take(i + 1).last() == page@[i as int]);
        }
        match decode_rpc_event(&page[i], contract_name) {
            Some(e) => {
                let pos = e.position();
                if pos.is_after(&cursor) {
                    out.push(e);
                    assert(records(out@) =~= before.push(out@[out@.len() - 1]@));
                }
            },
            None => {},
        }
        i += 1;
    }
    assert(page@.take(page@.len() as int) =~= page@);
    out
}

/// Whether another `getEvents` page is asked for after a page of
/// `page_len` events: only after a full page (a page shorter than
/// [`RPC_PAGE_LIMIT`] is the last).
pub fn next_page(page_len: usize) -> (more: bool)
    ensures
        more == (page_len >= RPC_PAGE_LIMIT),
{
    page_len >= RPC_PAGE_LIMIT
}

/// The first ledger to ask the RPC for: the cursor's ledger, at least 1
/// (ledger 0 never exists), as the RPC's `u32`.
pub fn start_ledger(cursor: &Cursor) -> (r: u32)
    ensures
        r == (if cursor.ledger_sequence < 1 { 1 } else { cursor.ledger_sequence }) as u32,
{
    let l: i64 = if cursor.ledger_sequence < 1 { 1 } else { cursor.ledger_sequence };
    l as u32
}

/// The indexer name of a contract, `"unknown"` when it is not configured.
pub fn contract_name_for(contracts: &ContractMap, contract_id: &str) -> (r: String)
    ensures
        contracts@.contains_key(contract_id@) ==> r@ == contracts@[contract_id@],
        !contracts@.contains_key(contract_id@) ==> r@ == "unknown"@,
{
    match contracts.get(contract_id) {
        Some(n) => n.clone(),
        None => String::from_str("unknown"),
    }
}

} // verus!
