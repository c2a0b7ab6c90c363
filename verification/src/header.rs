//! Reading HTTP header values as text, as `http::HeaderValue::to_str` does:
//! a value is text only when every byte is visible ASCII or a tab.
use vstd::prelude::*;

use crate::text::string_of;

verus! {

/// A byte that `HeaderValue::to_str` accepts: visible ASCII (32..=126) or tab.
pub open spec fn is_visible_ascii(b: u8) -> bool {
    (32 <= b && b < 127) || b == 9
}

/// The text of a header value, when all its bytes are visible ASCII.
pub open spec fn header_text_spec(bytes: Seq<u8>) -> Option<Seq<char>> {
    if forall|i: int| 0 <= i < bytes.len() ==> is_visible_ascii(#[trigger] bytes[i]) {
        Some(Seq::new(bytes.len(), |i: int| bytes[i] as char))
    } else {
        None
    }
}

/// The header value as text, or `None` when a byte is not visible ASCII.
pub fn header_text(bytes: &[u8]) -> (r: Option<String>)
    ensures
        r matches Some(s) ==> header_text_spec(bytes@) == Some(s@),
        r is None ==> header_text_spec(bytes@) is None,
{
    let mut out: Vec<char> = Vec::new();
    let mut i: usize = 0;
    while i < bytes.len()
        invariant
            i <= bytes.len(),
            out@ == Seq::new(i as nat, |k: int| bytes@[k] as char),
            forall|k: int| 0 <= k < i ==> is_visible_ascii(#[trigger] bytes@[k]),
        decreases bytes.len() - i,
    {
        let b = bytes[i];
        if !((b >= 32 && b < 127) || b == 9) {
            return None;
        }
        out.push(b as char);
        i = i + 1;
        assert(out@ =~= Seq::new(i as nat, |k: int| bytes@[k] as char));
    }
    assert(out@ =~= Seq::new(bytes@.len(), |k: int| bytes@[k] as char));
    Some(string_of(&out))
}

} // verus!
