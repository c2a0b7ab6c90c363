//! Contract-issued counter identifiers.
//!
//! Counters are `u64` on chain and are shown at the API boundary as
//! `{prefix}:{counter}` with the counter zero-padded to twelve decimal digits,
//! e.g. `va:verification:000000000042`.
use vstd::prelude::*;

use crate::text::{
    chars_of, decimal, lemma_parse_zero_padded, parse_u64, parse_u64_spec, push_decimal,
    repeat_char, string_of, strip_prefix, strip_prefix_spec, zero_pad,
};

verus! {

/// Minimum number of digits in a rendered counter.
pub const COUNTER_WIDTH: usize = 12;

/// The presentation form `{prefix}:{counter:012}`.
pub open spec fn counter_id_spec(prefix: Seq<char>, counter: u64) -> Seq<char> {
    prefix + seq![':'] + zero_pad(decimal(counter as nat), 12)
}

/// The counter named by `input`: `input` is either `{prefix}:{digits}` or the
/// bare digits.
pub open spec fn parse_counter_id_spec(input: Seq<char>, prefix: Seq<char>) -> Option<u64> {
    let bare = match strip_prefix_spec(input, prefix + seq![':']) {
        Some(rest) => rest,
        None => input,
    };
    parse_u64_spec(bare)
}

/// Appends `digits` to `out`, first padding with `'0'` up to `width` characters.
pub fn push_zero_padded(out: &mut Vec<char>, digits: &Vec<char>, width: usize)
    ensures
        final(out)@ == old(out)@ + zero_pad(digits@, width as nat),
{
    let ghost start = out@;
    let mut k: usize = digits.len();
    while k < width
        invariant
            digits.len() <= k <= width || (k == digits.len() && k >= width),
            out@ == start + repeat_char('0', (k - digits.len()) as nat),
        decreases width - k,
    {
        out.push('0');
        k = k + 1;
        assert(out@ =~= start + repeat_char('0', (k - digits.len()) as nat));
    }
    let mut i: usize = 0;
    let ghost mid = out@;
    while i < digits.len()
        invariant
            i <= digits.len(),
            out@ == mid + digits@.subrange(0, i as int),
        decreases digits.len() - i,
    {
        out.push(digits[i]);
        i = i + 1;
        assert(out@ =~= mid + digits@.subrange(0, i as int));
    }
    assert(digits@.subrange(0, digits@.len() as int) == digits@);
    if digits.len() >= width {
        assert(repeat_char('0', 0) =~= Seq::<char>::empty());
        assert(out@ =~= start + digits@);
    } else {
        assert(out@ =~= start + (repeat_char('0', (width - digits@.len()) as nat) + digits@));
    }
}

/// Renders a contract-issued counter as `{prefix}:{counter:012}`
/// (e.g. `va:verification:000000000042`).
pub fn counter_id(prefix: &str, counter: u64) -> (id: String)
    ensures
        id@ == counter_id_spec(prefix@, counter),
{
    let mut out = chars_of(prefix);
    out.push(':');
    let mut digits: Vec<char> = Vec::new();
    push_decimal(&mut digits, counter as u128);
    push_zero_padded(&mut out, &digits, COUNTER_WIDTH);
    string_of(&out)
}

/// Parses a counter identifier back to its counter. Accepts the presentation
/// form `{prefix}:000000000042` or the bare digits `000000000042`.
pub fn parse_counter_id(input: &str, prefix: &str) -> (r: Option<u64>)
    ensures
        r == parse_counter_id_spec(input@, prefix@),
{
    let input_chars = chars_of(input);
    let mut full_prefix = chars_of(prefix);
    full_prefix.push(':');
    assert(full_prefix@ =~= prefix@ + seq![':']);
    match strip_prefix(&input_chars, &full_prefix) {
        Some(rest) => parse_u64(&rest),
        None => parse_u64(&input_chars),
    }
}

/// Rendering a counter and parsing it back with the same prefix gives the
/// counter.
pub proof fn lemma_counter_id_roundtrip(prefix: Seq<char>, counter: u64)
    ensures
        parse_counter_id_spec(counter_id_spec(prefix, counter), prefix) == Some(counter),
{
    let id = counter_id_spec(prefix, counter);
    let p = prefix + seq![':'];
    let digits = zero_pad(decimal(counter as nat), 12);
    assert(id =~= p + digits);
    assert(id.subrange(0, p.len() as int) =~= p);
    assert(id.subrange(p.len() as int, id.len() as int) =~= digits);
    lemma_parse_zero_padded(counter, 12);
}

/// Two counters render to the same identifier only when they are equal.
pub proof fn lemma_counter_id_injective(prefix: Seq<char>, a: u64, b: u64)
    ensures
        counter_id_spec(prefix, a) == counter_id_spec(prefix, b) ==> a == b,
{
    lemma_counter_id_roundtrip(prefix, a);
    lemma_counter_id_roundtrip(prefix, b);
}

} // verus!
