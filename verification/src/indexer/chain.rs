//! Chain event sources: the error type they report and the in-memory source
//! used in development and tests.
use vstd::prelude::*;

use crate::indexer::model::{ChainEvent, Cursor, EventRecord, position_lt};
use crate::text::chars_eq;
use crate::text::chars_of_string;

verus! {

/// Error from a chain event source (Soroban RPC or the in-memory stub).
pub enum ChainEventsError {
    Unavailable(String),
    Internal(String),
}

/// The records of a vector of events, in order.
pub open spec fn records(v: Seq<ChainEvent>) -> Seq<EventRecord> {
    Seq::new(v.len(), |i: int| v[i]@)
}

/// The elements of `s` that satisfy `f`, in their order in `s`.
pub open spec fn keep(s: Seq<EventRecord>, f: spec_fn(EventRecord) -> bool) -> Seq<EventRecord>
    decreases s.len(),
{
    if s.len() == 0 {
        Seq::empty()
    } else if f(s.last()) {
        keep(s.drop_last(), f).push(s.last())
    } else {
        keep(s.drop_last(), f)
    }
}

/// Every event comes strictly before the next one: positions are unique and
/// increasing.
pub open spec fn sorted_strict(s: Seq<EventRecord>) -> bool {
    forall|i: int, j: int|
        0 <= i < j < s.len() ==> position_lt(#[trigger] s[i].position(), #[trigger] s[j].position())
}

/// The stored events that `events_after(contract_id, cursor)` reports.
pub open spec fn after_filter(contract_id: Seq<char>, cursor: Cursor) -> spec_fn(EventRecord) -> bool {
    |e: EventRecord| e.contract_id == contract_id && position_lt(cursor, e.position())
}

/// The events of `s` that come strictly before position `p`.
pub open spec fn before_pos(p: Cursor) -> spec_fn(EventRecord) -> bool {
    |e: EventRecord| position_lt(e.position(), p)
}

/// The events of `s` that come strictly after position `p`.
pub open spec fn after_pos(p: Cursor) -> spec_fn(EventRecord) -> bool {
    |e: EventRecord| position_lt(p, e.position())
}

/// `s` with `e` stored at its position, replacing the event that was there.
pub open spec fn insert_event(s: Seq<EventRecord>, e: EventRecord) -> Seq<EventRecord> {
    keep(s, before_pos(e.position())) + seq![e] + keep(s, after_pos(e.position()))
}

pub proof fn lemma_keep_concat(a: Seq<EventRecord>, b: Seq<EventRecord>, f: spec_fn(EventRecord) -> bool)
    ensures
        keep(a + b, f) == keep(a, f) + keep(b, f),
    decreases b.len(),
{
    if b.len() == 0 {
        assert(a + b =~= a);
        assert(keep(b, f) =~= Seq::<EventRecord>::empty());
        assert(keep(a, f) + keep(b, f) =~= keep(a, f));
    } else {
        assert((a + b).drop_last() =~= a + b.drop_last());
        assert((a + b).last() == b.last());
        lemma_keep_concat(a, b.drop_last(), f);
        if f(b.last()) {
            assert(keep(a, f) + keep(b.drop_last(), f).push(b.last()) =~= (keep(a, f) + keep(
                b.drop_last(),
                f,
            )).push(b.last()));
        }
    }
}

pub proof fn lemma_keep_all(s: Seq<EventRecord>, f: spec_fn(EventRecord) -> bool)
    requires
        forall|i: int| 0 <= i < s.len() ==> f(#[trigger] s[i]),
    ensures
        keep(s, f) == s,
    decreases s.len(),
{
    if s.len() > 0 {
        assert(f(s[s.len() - 1]));
        lemma_keep_all(s.drop_last(), f);
        assert(s.drop_last().push(s.last()) =~= s);
    }
}

pub proof fn lemma_keep_none(s: Seq<EventRecord>, f: spec_fn(EventRecord) -> bool)
    requires
        forall|i: int| 0 <= i < s.len() ==> !f(#[trigger] s[i]),
    ensures
        keep(s, f) == Seq::<EventRecord>::empty(),
    decreases s.len(),
{
    if s.len() > 0 {
        assert(!f(s[s.len() - 1]));
        lemma_keep_none(s.drop_last(), f);
    }
}

/// What `keep` holds: exactly the elements of `s` that satisfy `f`, each
/// taken from some index of `s`, in increasing index order.
pub proof fn lemma_keep_members(s: Seq<EventRecord>, f: spec_fn(EventRecord) -> bool)
    ensures
        forall|k: int|
            0 <= k < keep(s, f).len() ==> f(#[trigger] keep(s, f)[k]) && s.contains(keep(s, f)[k]),
        forall|i: int| 0 <= i < s.len() && f(#[trigger] s[i]) ==> keep(s, f).contains(s[i]),
        keep(s, f).len() <= s.len(),
    decreases s.len(),
{
    if s.len() > 0 {
        let t = s.drop_last();
        lemma_keep_members(t, f);
        let kt = keep(t, f);
        let ks = keep(s, f);
        assert forall|k: int| 0 <= k < ks.len() implies f(#[trigger] ks[k]) && s.contains(ks[k]) by {
            if k < kt.len() {
                assert(ks[k] == kt[k]);
                let j = choose|j: int| 0 <= j < t.len() && t[j] == kt[k];
                assert(s[j] == t[j]);
            } else {
                assert(ks[k] == s.last());
                assert(s[s.len() - 1] == s.last());
            }
        }
        assert forall|i: int| 0 <= i < s.len() && f(#[trigger] s[i]) implies ks.contains(s[i]) by {
            if i < s.len() - 1 {
                assert(t[i] == s[i]);
                let j = choose|j: int| 0 <= j < kt.len() && kt[j] == t[i];
                if f(s.last()) {
                    assert(ks[j] == kt[j]);
                } else {
                    assert(ks[j] == kt[j]);
                }
            } else {
                assert(ks[ks.len() - 1] == s.last());
            }
        }
    }
}

/// Keeping a strictly sorted sequence's elements leaves it strictly sorted.
pub proof fn lemma_keep_sorted(s: Seq<EventRecord>, f: spec_fn(EventRecord) -> bool)
    requires
        sorted_strict(s),
    ensures
        sorted_strict(keep(s, f)),
        forall|k: int|
            0 <= k < keep(s, f).len() ==> exists|i: int|
                0 <= i < s.len() && s[i] == #[trigger] keep(s, f)[k],
    decreases s.len(),
{
    if s.len() > 0 {
        let t = s.drop_last();
        assert(sorted_strict(t)) by {
            assert forall|i: int, j: int| 0 <= i < j < t.len() implies position_lt(
                #[trigger] t[i].position(),
                #[trigger] t[j].position(),
            ) by {
                assert(t[i] == s[i] && t[j] == s[j]);
            }
        }
        lemma_keep_sorted(t, f);
        let kt = keep(t, f);
        let ks = keep(s, f);
        assert forall|k: int| 0 <= k < ks.len() implies exists|i: int|
            0 <= i < s.len() && s[i] == #[trigger] ks[k] by {
            if k < kt.len() {
                assert(ks[k] == kt[k]);
                let i = choose|i: int| 0 <= i < t.len() && t[i] == kt[k];
                assert(s[i] == t[i]);
            } else {
                assert(s[s.len() - 1] == ks[k]);
            }
        }
        if f(s.last()) {
            assert forall|i: int, j: int| 0 <= i < j < ks.len() implies position_lt(
                #[trigger] ks[i].position(),
                #[trigger] ks[j].position(),
            ) by {
                if j < kt.len() {
                    assert(ks[i] == kt[i] && ks[j] == kt[j]);
                } else {
                    assert(ks[i] == kt[i]);
                    let a = choose|a: int| 0 <= a < t.len() && t[a] == kt[i];
                    assert(s[a] == t[a]);
                    assert(ks[j] == s[s.len() - 1]);
                }
            }
        }
    }
}

/// In a strictly sorted sequence split at `i`, the events before position `p`
/// are the first `i` and the events after it the rest, less the one at `p`.
pub proof fn lemma_split_at_position(s: Seq<EventRecord>, i: int, p: Cursor)
    requires
        sorted_strict(s),
        0 <= i <= s.len(),
        forall|k: int| 0 <= k < i ==> position_lt(#[trigger] s[k].position(), p),
        i == s.len() || !position_lt(s[i].position(), p),
    ensures
        keep(s, before_pos(p)) == s.take(i),
        i < s.len() && s[i].position() == p ==> keep(s, after_pos(p)) == s.skip(i + 1),
        (i == s.len() || s[i].position() != p) ==> keep(s, after_pos(p)) == s.skip(i),
{
    assert(s =~= s.take(i) + s.skip(i));
    lemma_keep_concat(s.take(i), s.skip(i), before_pos(p));
    lemma_keep_concat(s.take(i), s.skip(i), after_pos(p));
    lemma_keep_all(s.take(i), before_pos(p));
    lemma_keep_none(s.take(i), after_pos(p));
    let r = s.skip(i);
    assert forall|k: int| 0 <= k < r.len() implies !before_pos(p)(#[trigger] r[k]) by {
        if k > 0 {
            assert(r[k] == s[i + k]);
            assert(position_lt(s[i].position(), s[i + k].position()));
        }
    }
    lemma_keep_none(r, before_pos(p));
    assert(keep(s.take(i), before_pos(p)) + Seq::<EventRecord>::empty() =~= s.take(i));
    assert(Seq::<EventRecord>::empty() + keep(r, after_pos(p)) =~= keep(r, after_pos(p)));
    if i < s.len() && s[i].position() == p {
        assert(r =~= seq![s[i]] + s.skip(i + 1));
        lemma_keep_concat(seq![s[i]], s.skip(i + 1), after_pos(p));
        let r1 = s.skip(i + 1);
        assert forall|k: int| 0 <= k < r1.len() implies after_pos(p)(#[trigger] r1[k]) by {
            assert(r1[k] == s[i + 1 + k]);
            assert(position_lt(s[i].position(), s[i + 1 + k].position()));
        }
        lemma_keep_all(r1, after_pos(p));
        let one = seq![s[i]];
        assert(one.last() == s[i]);
        assert(!after_pos(p)(s[i]));
        assert(one.drop_last() =~= Seq::<EventRecord>::empty());
        assert(keep(one.drop_last(), after_pos(p)) =~= Seq::<EventRecord>::empty());
        assert(keep(one, after_pos(p)) =~= Seq::<EventRecord>::empty());
        assert(Seq::<EventRecord>::empty() + r1 =~= r1);
    } else {
        assert forall|k: int| 0 <= k < r.len() implies after_pos(p)(#[trigger] r[k]) by {
            assert(r[k] == s[i + k]);
            if k > 0 {
                assert(position_lt(s[i].position(), s[i + k].position()));
            }
        }
        lemma_keep_all(r, after_pos(p));
    }
}


/// Inserting an event into a strictly sorted sequence keeps it strictly
/// sorted, and the inserted event is in it.
pub proof fn lemma_insert_sorted(s: Seq<EventRecord>, e: EventRecord)
    requires
        sorted_strict(s),
    ensures
        sorted_strict(insert_event(s, e)),
        insert_event(s, e).contains(e),
{
    let p = e.position();
    let a = keep(s, before_pos(p));
    let b = keep(s, after_pos(p));
    lemma_keep_members(s, before_pos(p));
    lemma_keep_members(s, after_pos(p));
    lemma_keep_sorted(s, before_pos(p));
    lemma_keep_sorted(s, after_pos(p));
    let r = insert_event(s, e);
    assert(r == a + seq![e] + b);
    assert(r[a.len() as int] == e);
    assert forall|i: int, j: int| 0 <= i < j < r.len() implies position_lt(
        #[trigger] r[i].position(),
        #[trigger] r[j].position(),
    ) by {
        if j < a.len() {
            assert(r[i] == a[i] && r[j] == a[j]);
        } else if j == a.len() {
            assert(r[i] == a[i]);
            assert(before_pos(p)(a[i]));
        } else if i < a.len() {
            assert(r[i] == a[i]);
            assert(r[j] == b[j - a.len() - 1]);
            assert(before_pos(p)(a[i]));
            assert(after_pos(p)(b[j - a.len() - 1]));
        } else if i == a.len() {
            assert(r[j] == b[j - a.len() - 1]);
            assert(after_pos(p)(b[j - a.len() - 1]));
        } else {
            assert(r[i] == b[i - a.len() - 1] && r[j] == b[j - a.len() - 1]);
        }
    }
}

/// Mathematical form of a [`StubEventSource`]: its events in position order
/// and its ledger head.
pub struct StubState {
    pub events: Seq<EventRecord>,
    pub head: i64,
}

/// In-memory event source for development and tests. Events are kept in
/// position order, one per position; pushing an event at a taken position
/// replaces the one there.
pub struct StubEventSource {
    events: Vec<ChainEvent>,
    head: i64,
}

impl View for StubEventSource {
    type V = StubState;

    closed spec fn view(&self) -> StubState {
        StubState { events: records(self.events@), head: self.head }
    }
}

impl StubEventSource {
    #[verifier::type_invariant]
    spec fn well_formed(self) -> bool {
        sorted_strict(records(self.events@))
    }

    /// An empty source whose head is ledger 0.
    pub fn new() -> (s: StubEventSource)
        ensures
            s@.events == Seq::<EventRecord>::empty(),
            s@.head == 0,
            sorted_strict(s@.events),
    {
        let s = StubEventSource { events: Vec::new(), head: 0 };
        assert(s@.events =~= Seq::<EventRecord>::empty());
        s
    }

    /// Stores `event` at its position, replacing any event already there.
    pub fn push(&mut self, event: ChainEvent)
        ensures
            final(self)@.events == insert_event(old(self)@.events, event@),
            final(self)@.head == old(self)@.head,
            sorted_strict(final(self)@.events),
    {
        proof {
            use_type_invariant(&*self);
        }
        let ghost s = self@.events;
        let ghost ev = event@;
        let pos = event.position();
        let mut events: Vec<ChainEvent> = Vec::new();
        std::mem::swap(&mut events, &mut self.events);
        assert(records(events@) == s);
        let mut i: usize = 0;
        while i < events.len() && pos.is_after(&events[i].position())
            invariant
                i <= events.len(),
                records(events@) == s,
                forall|k: int| 0 <= k < i ==> position_lt(#[trigger] s[k].position(), pos),
            decreases events.len() - i,
        {
            assert(s[i as int] == events@[i as int]@);
            i = i + 1;
        }
        let ghost split = i as int;
        assert(split == s.len() || !position_lt(s[split].position(), pos)) by {
            if split < s.len() {
                assert(s[split] == events@[split]@);
            }
        }
        proof {
            lemma_split_at_position(s, split, pos);
        }
        if i < events.len() && events[i].position() == pos {
            assert(s[split] == events@[split]@);
            events.remove(i);
            events.insert(i, event);
            assert(records(events@) =~= s.take(split) + seq![ev] + s.skip(split + 1));
        } else {
            if i < events.len() {
                assert(s[split] == events@[split]@);
            }
            events.insert(i, event);
            assert(records(events@) =~= s.take(split) + seq![ev] + s.skip(split));
        }
        proof {
            lemma_insert_sorted(s, ev);
        }
        self.events = events;
    }

    /// Sets the ledger head the source reports.
    pub fn set_head(&mut self, ledger: i64)
        ensures
            final(self)@.events == old(self)@.events,
            final(self)@.head == ledger,
            sorted_strict(final(self)@.events),
    {
        proof {
            use_type_invariant(&*self);
        }
        self.head = ledger;
    }

    /// The current ledger head.
    pub fn head_ledger(&self) -> (r: Result<i64, ChainEventsError>)
        ensures
            r == Ok::<i64, ChainEventsError>(self@.head),
    {
        Ok(self.head)
    }

    /// The stored events of `contract_id` that come strictly after `cursor`,
    /// in position order.
    pub fn events_after(&self, contract_id: &str, cursor: Cursor) -> (r: Result<
        Vec<ChainEvent>,
        ChainEventsError,
    >)
        ensures
            r matches Ok(v) && records(v@) == keep(self@.events, after_filter(contract_id@, cursor)),
            sorted_strict(self@.events),
    {
        proof {
            use_type_invariant(self);
        }
        let ghost s = self@.events;
        let ghost f = after_filter(contract_id@, cursor);
        let cid = crate::text::chars_of(contract_id);
        let mut out: Vec<ChainEvent> = Vec::new();
        let mut i: usize = 0;
        assert(s.take(0) =~= Seq::<EventRecord>::empty());
        while i < self.events.len()
            invariant
                i <= self.events.len(),
                s == records(self.events@),
                cid@ == contract_id@,
                f == after_filter(contract_id@, cursor),
                records(out@) == keep(s.take(i as int), f),
            decreases self.events.len() - i,
        {
            let e = &self.events[i];
            assert(s.take(i + 1).drop_last() =~= s.take(i as int));
            assert(s.take(i + 1).last() == e@);
            let name = chars_of_string(&e.contract_id);
            if chars_eq(&name, &cid) && e.position().is_after(&cursor) {
                let d = e.duplicate();
                out.push(d);
                assert(records(out@) =~= keep(s.take(i as int), f).push(e@));
            } else {
                assert(records(out@) =~= keep(s.take(i as int), f));
            }
            i = i + 1;
        }
        assert(s.take(s.len() as int) =~= s);
        Ok(out)
    }
}

/// The cursor that ingestion keeps after reading `pulled`: the position of the
/// last event read, or the old cursor when nothing was read.
pub open spec fn resume_cursor(pulled: Seq<EventRecord>, cursor: Cursor) -> Cursor {
    if pulled.len() > 0 {
        pulled.last().position()
    } else {
        cursor
    }
}

/// Reading again from the position of the last event read returns nothing
/// new: a source that did not change has no event of that contract after it.
pub proof fn lemma_resume_reads_nothing(s: Seq<EventRecord>, contract_id: Seq<char>, cursor: Cursor)
    requires
        sorted_strict(s),
    ensures
        keep(
            s,
            after_filter(
                contract_id,
                resume_cursor(keep(s, after_filter(contract_id, cursor)), cursor),
            ),
        ) == Seq::<EventRecord>::empty(),
{
    let f = after_filter(contract_id, cursor);
    let r = keep(s, f);
    lemma_keep_members(s, f);
    lemma_keep_sorted(s, f);
    let c2 = resume_cursor(r, cursor);
    let g = after_filter(contract_id, c2);
    assert forall|i: int| 0 <= i < s.len() implies !g(#[trigger] s[i]) by {
        if g(s[i]) {
            if r.len() > 0 {
                assert(r.contains(r[r.len() - 1]));
                assert(f(r[r.len() - 1]));
                assert(position_lt(cursor, s[i].position()));
                assert(f(s[i]));
                assert(r.contains(s[i]));
                let k = choose|k: int| 0 <= k < r.len() && r[k] == s[i];
                if k < r.len() - 1 {
                    assert(position_lt(r[k].position(), r[r.len() - 1].position()));
                }
            } else {
                assert(f(s[i]));
                assert(r.contains(s[i]));
            }
        }
    }
    lemma_keep_none(s, g);
}

/// After `push(e)`, reading the contract of `e` from any cursor before `e`
/// returns `e`.
pub proof fn lemma_pushed_event_is_read(s: Seq<EventRecord>, e: EventRecord, cursor: Cursor)
    requires
        sorted_strict(s),
        position_lt(cursor, e.position()),
    ensures
        keep(insert_event(s, e), after_filter(e.contract_id, cursor)).contains(e),
{
    lemma_insert_sorted(s, e);
    let t = insert_event(s, e);
    let k = choose|k: int| 0 <= k < t.len() && t[k] == e;
    lemma_keep_members(t, after_filter(e.contract_id, cursor));
    assert(after_filter(e.contract_id, cursor)(t[k]));
}

} // verus!
