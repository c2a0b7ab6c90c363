//! Configuration decisions that do not read the environment: the indexer's
//! contract list and the configuration error.
use vstd::prelude::*;

use crate::text::{
    chars_eq, chars_of, chars_of_string, parse_u64, parse_u64_spec, slice_chars, string_of, trim,
    trim_spec,
};

verus! {

/// Errors of reading the configuration.
pub enum ConfigError {
    /// `DATABASE_URL` is not set.
    MissingDatabaseUrl,
}

/// The pieces of `s` between occurrences of `sep`, as `str::split` yields
/// them (an empty string yields one empty piece).
pub open spec fn split_spec(s: Seq<char>, sep: char) -> Seq<Seq<char>>
    decreases s.len(),
{
    if s.len() == 0 {
        seq![Seq::<char>::empty()]
    } else {
        let p = split_spec(s.drop_last(), sep);
        if s.last() == sep {
            p.push(Seq::empty())
        } else {
            p.update(p.len() - 1, p.last().push(s.last()))
        }
    }
}

/// The index of the first `c` in `s`.
pub open spec fn find_char(s: Seq<char>, c: char) -> Option<int>
    decreases s.len(),
{
    if s.len() == 0 {
        None
    } else if s[0] == c {
        Some(0)
    } else {
        match find_char(s.drop_first(), c) {
            Some(i) => Some(i + 1),
            None => None,
        }
    }
}

/// The `(contract, name)` entry a `name:contract` pair yields: split at the
/// first `':'`, both sides trimmed and non-empty.
pub open spec fn contract_entry(pair: Seq<char>) -> Option<(Seq<char>, Seq<char>)> {
    match find_char(pair, ':') {
        None => None,
        Some(i) => {
            let name = trim_spec(pair.subrange(0, i));
            let contract = trim_spec(pair.subrange(i + 1, pair.len() as int));
            if name.len() > 0 && contract.len() > 0 {
                Some((contract, name))
            } else {
                None
            }
        },
    }
}

/// The map from contract id to name that a list of pairs yields; a later
/// pair for the same contract replaces an earlier one.
pub open spec fn contracts_of(pairs: Seq<Seq<char>>) -> Map<Seq<char>, Seq<char>>
    decreases pairs.len(),
{
    if pairs.len() == 0 {
        Map::empty()
    } else {
        let m = contracts_of(pairs.drop_last());
        match contract_entry(pairs.last()) {
            Some((contract, name)) => m.insert(contract, name),
            None => m,
        }
    }
}

/// The map from key to value of a list of entries without repeated keys.
pub open spec fn map_of(entries: Seq<(String, String)>) -> Map<Seq<char>, Seq<char>>
    decreases entries.len(),
{
    if entries.len() == 0 {
        Map::empty()
    } else {
        map_of(entries.drop_last()).insert(entries.last().0@, entries.last().1@)
    }
}

/// No key occurs twice.
pub open spec fn unique_keys(entries: Seq<(String, String)>) -> bool {
    forall|i: int, j: int| 0 <= i < j < entries.len() ==> (#[trigger] entries[i]).0@ != (#[trigger] entries[j]).0@
}

proof fn lemma_map_of(entries: Seq<(String, String)>)
    requires
        unique_keys(entries),
    ensures
        map_of(entries).dom().finite(),
        map_of(entries).dom().len() == entries.len(),
        forall|k: int| #![trigger entries[k]] 0 <= k < entries.len() ==> map_of(entries).contains_key(entries[k].0@) && map_of(entries)[entries[k].0@] == entries[k].1@,
        forall|key: Seq<char>| map_of(entries).contains_key(key) ==> exists|k: int| 0 <= k < entries.len() && (#[trigger] entries[k]).0@ == key,
    decreases entries.len(),
{
    if entries.len() > 0 {
        let t = entries.drop_last();
        assert(unique_keys(t)) by {
            assert forall|i: int, j: int| 0 <= i < j < t.len() implies (#[trigger] t[i]).0@ != (#[trigger] t[j]).0@ by {
                assert(t[i] == entries[i] && t[j] == entries[j]);
            }
        }
        lemma_map_of(t);
        let last = entries.last();
        assert(!map_of(t).contains_key(last.0@)) by {
            if map_of(t).contains_key(last.0@) {
                let k = choose|k: int| 0 <= k < t.len() && (#[trigger] t[k]).0@ == last.0@;
                assert(t[k] == entries[k]);
                assert(entries[entries.len() - 1] == last);
            }
        }
        assert forall|k: int| #![trigger entries[k]] 0 <= k < entries.len() implies map_of(entries).contains_key(entries[k].0@) && map_of(entries)[entries[k].0@] == entries[k].1@ by {
            if k < entries.len() - 1 {
                assert(t[k] == entries[k]);
                assert(entries[k].0@ != last.0@) by {
                    assert(entries[entries.len() - 1] == last);
                }
            }
        }
        assert forall|key: Seq<char>| map_of(entries).contains_key(key) implies exists|k: int| 0 <= k < entries.len() && (#[trigger] entries[k]).0@ == key by {
            if key != last.0@ {
                let k = choose|k: int| 0 <= k < t.len() && (#[trigger] t[k]).0@ == key;
                assert(t[k] == entries[k]);
            } else {
                assert(entries[entries.len() - 1] == last);
            }
        }
    }
}

/// The index of the entry with key `key`.
fn position_of_key(entries: &Vec<(String, String)>, key: &Vec<char>) -> (r: Option<usize>)
    ensures
        r matches Some(i) ==> i < entries@.len() && entries@[i as int].0@ == key@,
        r is None ==> forall|k: int| 0 <= k < entries@.len() ==> (#[trigger] entries@[k]).0@ != key@,
{
    let mut i: usize = 0;
    while i < entries.len()
        invariant
            i <= entries.len(),
            forall|k: int| 0 <= k < i ==> (#[trigger] entries@[k]).0@ != key@,
        decreases entries.len() - i,
    {
        let have = chars_of_string(&entries[i].0);
        if chars_eq(&have, key) {
            return Some(i);
        }
        i = i + 1;
    }
    None
}

/// A map from contract id (`C…`) to indexer contract name.
pub struct ContractMap {
    entries: Vec<(String, String)>,
}

impl View for ContractMap {
    type V = Map<Seq<char>, Seq<char>>;

    closed spec fn view(&self) -> Map<Seq<char>, Seq<char>> {
        map_of(self.entries@)
    }
}

impl ContractMap {
    #[verifier::type_invariant]
    spec fn well_formed(self) -> bool {
        unique_keys(self.entries@)
    }

    /// An empty map.
    pub fn new() -> (m: ContractMap)
        ensures
            m@ == Map::<Seq<char>, Seq<char>>::empty(),
    {
        ContractMap { entries: Vec::new() }
    }

    /// Maps `contract` to `name`, replacing an earlier name.
    pub fn insert(&mut self, contract: String, name: String)
        ensures
            final(self)@ == old(self)@.insert(contract@, name@),
    {
        proof {
            use_type_invariant(&*self);
            lemma_map_of(self.entries@);
        }
        let key = chars_of_string(&contract);
        let mut entries: Vec<(String, String)> = Vec::new();
        std::mem::swap(&mut entries, &mut self.entries);
        let ghost before = entries@;
        match position_of_key(&entries, &key) {
            Some(i) => {
                entries.set(i, (contract, name));
                assert(unique_keys(entries@)) by {
                    assert forall|a: int, b: int| 0 <= a < b < entries@.len() implies (#[trigger] entries@[a]).0@ != (#[trigger] entries@[b]).0@ by {
                        if a != i && b != i {
                            assert(entries@[a] == before[a] && entries@[b] == before[b]);
                        } else if a == i {
                            assert(entries@[b] == before[b]);
                        } else {
                            assert(entries@[a] == before[a]);
                        }
                    }
                }
                proof {
                    lemma_map_of(entries@);
                    lemma_map_of(before);
                    assert(map_of(entries@) =~= map_of(before).insert(contract@, name@)) by {
                        assert forall|k: Seq<char>| #[trigger] map_of(entries@).contains_key(k) <==> map_of(before).insert(contract@, name@).contains_key(k) by {
                            if map_of(entries@).contains_key(k) {
                                let j = choose|j: int| 0 <= j < entries@.len() && (#[trigger] entries@[j]).0@ == k;
                                if j != i {
                                    assert(entries@[j] == before[j]);
                                }
                            }
                            if map_of(before).contains_key(k) {
                                let j = choose|j: int| 0 <= j < before.len() && (#[trigger] before[j]).0@ == k;
                                if j != i {
                                    assert(entries@[j] == before[j]);
                                } else {
                                    assert(entries@[j].0@ == contract@);
                                }
                            }
                            if k == contract@ {
                                assert(entries@[i as int].0@ == contract@);
                            }
                        }
                        assert forall|k: Seq<char>| #[trigger] map_of(entries@).contains_key(k) implies map_of(entries@)[k] == map_of(before).insert(contract@, name@)[k] by {
                            let j = choose|j: int| 0 <= j < entries@.len() && (#[trigger] entries@[j]).0@ == k;
                            if j != i {
                                assert(entries@[j] == before[j]);
                            }
                        }
                    }
                }
            },
            None => {
                entries.push((contract, name));
                assert(entries@.drop_last() == before);
                assert(unique_keys(entries@)) by {
                    assert forall|a: int, b: int| 0 <= a < b < entries@.len() implies (#[trigger] entries@[a]).0@ != (#[trigger] entries@[b]).0@ by {
                        assert(entries@[a] == before[a]);
                        if b < before.len() {
                            assert(entries@[b] == before[b]);
                        }
                    }
                }
            },
        }
        self.entries = entries;
    }

    /// The name of `contract`, if it is mapped.
    pub fn get(&self, contract: &str) -> (r: Option<&String>)
        ensures
            r matches Some(n) ==> self@.contains_key(contract@) && self@[contract@] == n@,
            r is None ==> !self@.contains_key(contract@),
    {
        proof {
            use_type_invariant(self);
            lemma_map_of(self.entries@);
        }
        let key = chars_of(contract);
        match position_of_key(&self.entries, &key) {
            Some(i) => Some(&self.entries[i].1),
            None => {
                proof {
                    if self@.contains_key(contract@) {
                        let k = choose|k: int| 0 <= k < self.entries@.len() && (#[trigger] self.entries@[k]).0@ == contract@;
                    }
                }
                None
            },
        }
    }

    /// The number of mapped contracts.
    pub fn len(&self) -> (n: usize)
        ensures
            n == self@.len(),
    {
        proof {
            use_type_invariant(self);
            lemma_map_of(self.entries@);
        }
        self.entries.len()
    }

    /// The mapped contract ids, each once, in insertion order.
    pub fn contract_ids(&self) -> (ids: Vec<String>)
        ensures
            ids@.len() == self@.len(),
            forall|i: int| 0 <= i < ids@.len() ==> self@.contains_key(#[trigger] ids@[i]@),
            forall|i: int, j: int|
                0 <= i < j < ids@.len() ==> (#[trigger] ids@[i])@ != (#[trigger] ids@[j])@,
    {
        proof {
            use_type_invariant(self);
            lemma_map_of(self.entries@);
        }
        let mut ids: Vec<String> = Vec::new();
        let mut i: usize = 0;
        while i < self.entries.len()
            invariant
                i <= self.entries.len(),
                ids@.len() == i,
                forall|k: int| 0 <= k < i ==> (#[trigger] ids@[k])@ == self.entries@[k].0@,
            decreases self.entries.len() - i,
        {
            ids.push(self.entries[i].0.clone());
            i = i + 1;
        }
        proof {
            assert forall|k: int| 0 <= k < ids@.len() implies self@.contains_key(#[trigger] ids@[k]@) by {
                assert(self.entries@[k].0@ == ids@[k]@);
            }
            assert forall|a: int, b: int| 0 <= a < b < ids@.len() implies (#[trigger] ids@[a])@
                != (#[trigger] ids@[b])@ by {
                assert(self.entries@[a].0@ == ids@[a]@);
                assert(self.entries@[b].0@ == ids@[b]@);
            }
        }
        ids
    }
}


/// The characters of each piece.
pub open spec fn pieces_view(v: Seq<Vec<char>>) -> Seq<Seq<char>> {
    Seq::new(v.len(), |i: int| v[i]@)
}

/// Splits `s` at every `sep`, as `str::split` does.
pub fn split_chars(s: &Vec<char>, sep: char) -> (r: Vec<Vec<char>>)
    ensures
        pieces_view(r@) == split_spec(s@, sep),
{
    let mut pieces: Vec<Vec<char>> = Vec::new();
    let mut current: Vec<char> = Vec::new();
    let mut i: usize = 0;
    assert(s@.take(0) =~= Seq::<char>::empty());
    assert(pieces_view(pieces@).push(current@) =~= split_spec(s@.take(0), sep));
    while i < s.len()
        invariant
            i <= s.len(),
            pieces_view(pieces@).push(current@) == split_spec(s@.take(i as int), sep),
        decreases s.len() - i,
    {
        let c = s[i];
        let ghost t = s@.take(i + 1);
        assert(t.drop_last() =~= s@.take(i as int));
        assert(t.last() == c);
        let ghost p = split_spec(s@.take(i as int), sep);
        if c == sep {
            let done = current;
            pieces.push(done);
            current = Vec::new();
            assert(pieces_view(pieces@).push(current@) =~= p.push(Seq::empty()));
        } else {
            current.push(c);
            assert(pieces_view(pieces@).push(current@) =~= p.update(p.len() - 1, p.last().push(c)));
        }
        i = i + 1;
    }
    assert(s@.take(s@.len() as int) =~= s@);
    let ghost before = pieces_view(pieces@);
    pieces.push(current);
    assert(pieces_view(pieces@) =~= before.push(current@));
    pieces
}

/// The index of the first `c` in `s`.
pub fn find_char_index(s: &Vec<char>, c: char) -> (r: Option<usize>)
    ensures
        r matches Some(i) ==> find_char(s@, c) == Some(i as int),
        r is None ==> find_char(s@, c) is None,
{
    let mut i: usize = 0;
    assert(s@.skip(0) =~= s@);
    while i < s.len()
        invariant
            i <= s.len(),
            find_char(s@, c) == match find_char(s@.skip(i as int), c) {
                Some(k) => Some(k + i),
                None => None::<int>,
            },
        decreases s.len() - i,
    {
        let ghost rest = s@.skip(i as int);
        assert(rest.drop_first() =~= s@.skip(i + 1));
        if s[i] == c {
            assert(rest[0] == c);
            return Some(i);
        }
        i = i + 1;
    }
    assert(s@.skip(i as int).len() == 0);
    None
}

/// The `(contract, name)` entry of one `name:contract` pair.
pub fn parse_contract_entry(pair: &Vec<char>) -> (r: Option<(String, String)>)
    ensures
        r matches Some((c, n)) ==> contract_entry(pair@) == Some((c@, n@)),
        r is None ==> contract_entry(pair@) is None,
{
    match find_char_index(pair, ':') {
        None => None,
        Some(i) => {
            proof {
                lemma_find_char_bound(pair@, ':');
            }
            assert(i < pair.len());
            let name = trim(&slice_chars(pair, 0, i));
            let contract = trim(&slice_chars(pair, i + 1, pair.len()));
            if name.len() > 0 && contract.len() > 0 {
                Some((string_of(&contract), string_of(&name)))
            } else {
                None
            }
        },
    }
}

proof fn lemma_find_char_bound(s: Seq<char>, c: char)
    ensures
        find_char(s, c) matches Some(i) ==> 0 <= i < s.len() && s[i] == c,
    decreases s.len(),
{
    if s.len() > 0 && s[0] != c {
        lemma_find_char_bound(s.drop_first(), c);
    }
}

/// Parses `name:contract,name:contract` into a map from contract id to name.
/// Pairs without a `':'` or with a blank side are skipped; both sides are
/// trimmed; a later pair for the same contract wins.
pub fn parse_contracts(raw: &str) -> (m: ContractMap)
    ensures
        m@ == contracts_of(split_spec(raw@, ',')),
{
    let chars = chars_of(raw);
    let pieces = split_chars(&chars, ',');
    let ghost ps = pieces_view(pieces@);
    let mut m = ContractMap::new();
    let mut j: usize = 0;
    assert(ps.take(0) =~= Seq::<Seq<char>>::empty());
    while j < pieces.len()
        invariant
            j <= pieces.len(),
            ps == pieces_view(pieces@),
            m@ == contracts_of(ps.take(j as int)),
        decreases pieces.len() - j,
    {
        let ghost t = ps.take(j + 1);
        assert(t.drop_last() =~= ps.take(j as int));
        assert(t.last() == pieces@[j as int]@);
        match parse_contract_entry(&pieces[j]) {
            Some((contract, name)) => m.insert(contract, name),
            None => {},
        }
        j = j + 1;
    }
    assert(ps.take(ps.len() as int) =~= ps);
    m
}

/// The listening port when `VERDANT_BACKEND_PORT` is unset or not a port.
pub const DEFAULT_PORT: u16 = 8080;

/// The session lifetime, in seconds, when `VERDANT_BACKEND_SESSION_TTL_SECS`
/// is unset or not a number: one week.
pub const DEFAULT_SESSION_TTL_SECS: u64 = 604800;

/// `Some(s@)` for `Some(s)`.
pub open spec fn opt_str(raw: Option<&str>) -> Option<Seq<char>> {
    match raw {
        Some(s) => Some(s@),
        None => None,
    }
}

/// The port a setting gives: its value when it parses as a `u16`, else the
/// default.
pub open spec fn port_setting(raw: Option<Seq<char>>) -> u16 {
    match raw {
        Some(s) => match parse_u64_spec(s) {
            Some(v) => if v <= u16::MAX { v as u16 } else { DEFAULT_PORT },
            None => DEFAULT_PORT,
        },
        None => DEFAULT_PORT,
    }
}

/// The session lifetime a setting gives: its value when it parses as a `u64`,
/// else the default.
pub open spec fn session_ttl_setting(raw: Option<Seq<char>>) -> u64 {
    match raw {
        Some(s) => match parse_u64_spec(s) {
            Some(v) => v,
            None => DEFAULT_SESSION_TTL_SECS,
        },
        None => DEFAULT_SESSION_TTL_SECS,
    }
}

/// The listening port from the raw setting, as `parse::<u16>` with a
/// fallback to [`DEFAULT_PORT`].
pub fn port_from_setting(raw: Option<&str>) -> (p: u16)
    ensures
        p == port_setting(opt_str(raw)),
{
    match raw {
        Some(s) => {
            let chars = chars_of(s);
            match parse_u64(&chars) {
                Some(v) => if v <= 65535 {
                    v as u16
                } else {
                    DEFAULT_PORT
                },
                None => DEFAULT_PORT,
            }
        },
        None => DEFAULT_PORT,
    }
}

/// The session lifetime in seconds from the raw setting, as `parse::<u64>`
/// with a fallback to [`DEFAULT_SESSION_TTL_SECS`].
pub fn session_ttl_from_setting(raw: Option<&str>) -> (t: u64)
    ensures
        t == session_ttl_setting(opt_str(raw)),
{
    match raw {
        Some(s) => {
            let chars = chars_of(s);
            match parse_u64(&chars) {
                Some(v) => v,
                None => DEFAULT_SESSION_TTL_SECS,
            }
        },
        None => DEFAULT_SESSION_TTL_SECS,
    }
}

} // verus!
