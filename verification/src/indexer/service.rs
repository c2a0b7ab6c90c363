//! The decisions of one ingestion round: where the finality floor lies and
//! where the cursor resumes. Reading the source, the store and the projections
//! is left to the caller, which performs them in that order.
use vstd::prelude::*;

use crate::indexer::chain::{
    after_filter, keep, lemma_resume_reads_nothing, records, resume_cursor, sorted_strict,
};
use crate::indexer::model::{ChainEvent, Cursor, EventRecord};

verus! {

/// Trusted finality cutoff, in ledgers: projection writes finalize only for
/// events at or below `head - TRUSTED_CUTOFF`.
pub const TRUSTED_CUTOFF: i64 = 10;

/// The highest ledger whose events are final when the chain head is `head`.
pub fn finality_floor(head: i64) -> (r: i64)
    requires
        head >= i64::MIN + TRUSTED_CUTOFF,
    ensures
        r == head - TRUSTED_CUTOFF,
{
    head - TRUSTED_CUTOFF
}

/// Whether `event` is final below `floor`, so its projection may be written.
pub fn is_finalized(event: &ChainEvent, floor: i64) -> (r: bool)
    ensures
        r == (event.ledger_sequence <= floor),
{
    event.ledger_sequence <= floor
}

/// Whether a round goes on after pulling `pulled`: only a non-empty batch
/// reads the chain head, stores events and applies projections; an empty one
/// ends the round with nothing pulled and nothing changed.
pub fn needs_head(pulled: &Vec<ChainEvent>) -> (b: bool)
    ensures
        b == (pulled.len() > 0),
{
    pulled.len() > 0
}

/// What one ingestion round does once it pulled a non-empty batch and read
/// the chain head.
pub struct IngestPlan {
    /// Stored events at or below this ledger get their projections applied.
    pub finality_floor: i64,
    /// The cursor to persist: the position of the last event pulled.
    pub resume: Cursor,
    /// How many events were pulled (the round's result).
    pub pulled: usize,
}

/// Plans a round over the events `pulled` after `cursor` while the chain head
/// is `head`. The cursor advances to the last event pulled whether or not it
/// is final; finality only gates the projections.
pub fn plan_ingest(pulled: &Vec<ChainEvent>, cursor: Cursor, head: i64) -> (p: IngestPlan)
    requires
        head >= i64::MIN + TRUSTED_CUTOFF,
    ensures
        p.finality_floor == head - TRUSTED_CUTOFF,
        p.resume == resume_cursor(records(pulled@), cursor),
        p.pulled == pulled.len(),
{
    let resume = if pulled.len() > 0 {
        pulled[pulled.len() - 1].position()
    } else {
        cursor
    };
    IngestPlan { finality_floor: finality_floor(head), resume, pulled: pulled.len() }
}

/// An event final under one head stays final under any later head: events
/// pulled while not yet final are applied on a later round once the head has
/// moved far enough.
pub proof fn lemma_finality_monotone(ledger: i64, head1: i64, head2: i64)
    requires
        head1 <= head2,
        ledger <= head1 - TRUSTED_CUTOFF,
    ensures
        ledger <= head2 - TRUSTED_CUTOFF,
{
}

/// Ingesting again from a source that did not change pulls nothing: the
/// round after one that pulled the events of `contract_id` after `cursor`
/// reads from the resume cursor, gets no event, asks no head, answers 0 and
/// keeps that cursor.
pub proof fn lemma_reingest_pulls_nothing(s: Seq<EventRecord>, contract_id: Seq<char>, cursor: Cursor)
    requires
        sorted_strict(s),
    ensures
        ({
            let resume = resume_cursor(keep(s, after_filter(contract_id, cursor)), cursor);
            let again = keep(s, after_filter(contract_id, resume));
            &&& again.len() == 0
            &&& resume_cursor(again, resume) == resume
        }),
{
    lemma_resume_reads_nothing(s, contract_id, cursor);
}

} // verus!
