//! The entry model: what one read of a stream hands back.

use vstd::prelude::*;

verus! {

/// One field of an entry: a name and an opaque byte string.
#[derive(Debug)]
pub struct Field {
    pub name: String,
    pub value: Vec<u8>,
}

/// One record of a stream. The identifier is assigned by the server and is
/// only ever carried along, never parsed.
#[derive(Debug)]
pub struct Entry {
    pub id: String,
    pub fields: Vec<Field>,
}

/// The entries that one read returned for one stream, in the order in which
/// the server sent them.
#[derive(Debug)]
pub struct StreamEntries {
    pub stream: String,
    pub entries: Vec<Entry>,
}

/// The result of one read: a stream's name and its entries, stream by stream.
#[derive(Debug)]
pub struct Batch {
    pub streams: Vec<StreamEntries>,
}

pub struct FieldView {
    pub name: Seq<char>,
    pub value: Seq<u8>,
}

pub struct EntryView {
    pub id: Seq<char>,
    pub fields: Seq<FieldView>,
}

pub struct StreamView {
    pub stream: Seq<char>,
    pub entries: Seq<EntryView>,
}

impl View for Field {
    type V = FieldView;

    open spec fn view(&self) -> FieldView {
        FieldView { name: self.name@, value: self.value@ }
    }
}

impl View for Entry {
    type V = EntryView;

    open spec fn view(&self) -> EntryView {
        EntryView { id: self.id@, fields: self.fields@.map_values(|f: Field| f@) }
    }
}

impl View for StreamEntries {
    type V = StreamView;

    open spec fn view(&self) -> StreamView {
        StreamView { stream: self.stream@, entries: self.entries@.map_values(|e: Entry| e@) }
    }
}

impl View for Batch {
    type V = Seq<StreamView>;

    open spec fn view(&self) -> Seq<StreamView> {
        self.streams@.map_values(|s: StreamEntries| s@)
    }
}

/// Every entry of a batch, in arrival order.
pub open spec fn all_entries(streams: Seq<StreamView>) -> Seq<EntryView>
    decreases streams.len(),
{
    if streams.len() == 0 {
        Seq::empty()
    } else {
        all_entries(streams.drop_last()) + streams.last().entries
    }
}

/// Taking one more stream of a batch adds that stream's entries at the end.
pub proof fn lemma_all_entries_step(streams: Seq<StreamView>, i: int)
    requires
        0 <= i < streams.len(),
    ensures
        all_entries(streams.take(i + 1)) == all_entries(streams.take(i)) + streams[i].entries,
{
    assert(streams.take(i + 1).drop_last() == streams.take(i));
}

impl Batch {
    /// A batch that holds the given streams.
    pub fn new(streams: Vec<StreamEntries>) -> (batch: Batch)
        ensures
            batch.streams == streams,
    {
        Batch { streams }
    }

    /// Whether the read produced no entry at all.
    pub fn has_no_entries(&self) -> (none: bool)
        ensures
            none == (all_entries(self@).len() == 0),
    {
        let mut i: usize = 0;
        while i < self.streams.len()
            invariant
                0 <= i <= self.streams.len(),
                all_entries(self@.take(i as int)).len() == 0,
            decreases self.streams.len() - i,
        {
            proof {
                lemma_all_entries_step(self@, i as int);
            }
            if self.streams[i].entries.len() > 0 {
                proof {
                    lemma_all_entries_prefix(self@, i as int + 1);
                }
                return false;
            }
            i = i + 1;
        }
        assert(self@.take(i as int) == self@);
        true
    }
}

/// The entries of the first streams of a batch are the first entries of the batch.
pub proof fn lemma_all_entries_prefix(streams: Seq<StreamView>, i: int)
    requires
        0 <= i <= streams.len(),
    ensures
        all_entries(streams.take(i)).is_prefix_of(all_entries(streams)),
    decreases streams.len() - i,
{
    if i == streams.len() {
        assert(streams.take(i) == streams);
    } else {
        lemma_all_entries_step(streams, i);
        lemma_all_entries_prefix(streams, i + 1);
    }
}

} // verus!
