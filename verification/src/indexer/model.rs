//! Contract events as the indexer stores them, and the per-contract
//! ingestion cursor.
use vstd::prelude::*;

use crate::json::{Json, JsonValue};

verus! {

/// A decoded Soroban contract event as delivered by a chain event source.
/// Topics and data stay JSON so the raw store does not depend on the
/// payload's shape.
pub struct ChainEvent {
    pub contract_id: String,
    pub contract_name: String,
    pub event_name: String,
    pub ledger_sequence: i64,
    pub operation_index: i32,
    pub event_index: i32,
    pub topics: JsonValue,
    pub data: JsonValue,
}

/// Mathematical form of a [`ChainEvent`].
pub struct EventRecord {
    pub contract_id: Seq<char>,
    pub contract_name: Seq<char>,
    pub event_name: Seq<char>,
    pub ledger_sequence: i64,
    pub operation_index: i32,
    pub event_index: i32,
    pub topics: Json,
    pub data: Json,
}

impl EventRecord {
    /// Where the event sits in the chain's order.
    pub open spec fn position(self) -> Cursor {
        Cursor {
            ledger_sequence: self.ledger_sequence,
            operation_index: self.operation_index,
            event_index: self.event_index,
        }
    }
}

impl View for ChainEvent {
    type V = EventRecord;

    open spec fn view(&self) -> EventRecord {
        EventRecord {
            contract_id: self.contract_id@,
            contract_name: self.contract_name@,
            event_name: self.event_name@,
            ledger_sequence: self.ledger_sequence,
            operation_index: self.operation_index,
            event_index: self.event_index,
            topics: self.topics@,
            data: self.data@,
        }
    }
}

impl ChainEvent {
    /// A copy of this event.
    pub fn duplicate(&self) -> (r: ChainEvent)
        ensures
            r@ == self@,
    {
        ChainEvent {
            contract_id: self.contract_id.clone(),
            contract_name: self.contract_name.clone(),
            event_name: self.event_name.clone(),
            ledger_sequence: self.ledger_sequence,
            operation_index: self.operation_index,
            event_index: self.event_index,
            topics: self.topics.duplicate(),
            data: self.data.duplicate(),
        }
    }

    /// The event's position `(ledger_sequence, operation_index, event_index)`.
    pub fn position(&self) -> (c: Cursor)
        ensures
            c == self@.position(),
    {
        Cursor {
            ledger_sequence: self.ledger_sequence,
            operation_index: self.operation_index,
            event_index: self.event_index,
        }
    }
}

/// Per-contract ingestion position. Events are ordered by
/// `(ledger_sequence, operation_index, event_index)`; the cursor points at the
/// last processed event so ingestion resumes strictly after it.
#[derive(Clone, Copy, Debug, PartialEq, Eq, Structural)]
pub struct Cursor {
    pub ledger_sequence: i64,
    pub operation_index: i32,
    pub event_index: i32,
}

/// Lexicographic order on positions: `a` comes strictly before `b`.
pub open spec fn position_lt(a: Cursor, b: Cursor) -> bool {
    ||| a.ledger_sequence < b.ledger_sequence
    ||| (a.ledger_sequence == b.ledger_sequence && a.operation_index < b.operation_index)
    ||| (a.ledger_sequence == b.ledger_sequence && a.operation_index == b.operation_index
        && a.event_index < b.event_index)
}

impl Cursor {
    /// The position before every event: ingestion starts here.
    pub open spec fn start_spec() -> Cursor {
        Cursor { ledger_sequence: 0, operation_index: -1i32, event_index: -1i32 }
    }

    /// The position before every event: ingestion starts here.
    pub fn start() -> (c: Cursor)
        ensures
            c == Cursor::start_spec(),
    {
        Cursor { ledger_sequence: 0, operation_index: -1, event_index: -1 }
    }

    /// Whether `self` comes strictly after `other`.
    pub fn is_after(&self, other: &Cursor) -> (r: bool)
        ensures
            r == position_lt(*other, *self),
    {
        self.ledger_sequence > other.ledger_sequence || (self.ledger_sequence
            == other.ledger_sequence && (self.operation_index > other.operation_index || (
        self.operation_index == other.operation_index && self.event_index > other.event_index)))
    }
}

/// `is_after` is a strict total order: no position is after itself, it is
/// transitive, and of two distinct positions exactly one is after the other.
pub proof fn lemma_position_order(a: Cursor, b: Cursor, c: Cursor)
    ensures
        !position_lt(a, a),
        position_lt(a, b) && position_lt(b, c) ==> position_lt(a, c),
        a != b ==> (position_lt(a, b) || position_lt(b, a)),
        !(position_lt(a, b) && position_lt(b, a)),
{
}

} // verus!
