//! The cursor: the position after which the next read starts.

use vstd::prelude::*;
use crate::stream::{all_entries, lemma_all_entries_step, Batch, StreamView};

verus! {

/// The identifier of the last entry of a batch in arrival order, or the
/// cursor that was given where the batch holds no entry.
pub open spec fn last_id(streams: Seq<StreamView>, cursor: Seq<char>) -> Seq<char> {
    let entries = all_entries(streams);
    if entries.len() == 0 {
        cursor
    } else {
        entries.last().id
    }
}

/// Moves the cursor past a batch that the sink has accepted.
pub fn advance(cursor: String, batch: &Batch) -> (next: String)
    ensures
        next@ == last_id(batch@, cursor@),
{
    let mut next = cursor;
    let mut i: usize = 0;
    while i < batch.streams.len()
        invariant
            0 <= i <= batch.streams.len(),
            next@ == last_id(batch@.take(i as int), cursor@),
        decreases batch.streams.len() - i,
    {
        proof {
            lemma_all_entries_step(batch@, i as int);
        }
        let entries = &batch.streams[i].entries;
        let n = entries.len();
        if n > 0 {
            next = entries[n - 1].id.clone();
        }
        i = i + 1;
    }
    assert(batch@.take(i as int) == batch@);
    next
}

} // verus!
