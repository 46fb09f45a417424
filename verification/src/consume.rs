//! The consumption loop as a state machine: read, hand the batch to the sink,
//! and only then move the cursor.
//!
//! The machine decides; whoever drives it performs the reads and the writes
//! and reports how they ended.

use vstd::prelude::*;
use crate::cursor::{advance, last_id};
use crate::stream::{all_entries, Batch, StreamView};

verus! {

/// Where the loop stands.
#[derive(Debug)]
pub enum LoopState {
    /// Running: the next thing to do is a read after `cursor`.
    Reading { cursor: String },
    /// Running: `batch` was read after `cursor` and is with the sink.
    Delivering { cursor: String, batch: Batch },
    /// The loop ended in good order.
    Stopped,
    /// The loop ended on an error that it does not recover from. The cursor
    /// is the one of the last batch that the sink accepted.
    Failed { cursor: String },
}

/// How the work that the loop asked for ended.
#[derive(Debug)]
pub enum LoopEvent {
    /// The read returned this batch.
    BatchRead(Batch),
    /// The read failed.
    ReadFailed,
    /// The sink accepted the whole batch.
    BatchDelivered,
    /// The sink failed.
    DeliveryFailed,
}

/// What the driver of the loop has to do next.
#[derive(Debug, Clone, Copy, PartialEq, Eq, Structural)]
pub enum LoopAction {
    /// Read the source after the cursor of the state.
    Read,
    /// Hand the batch of the state to the sink.
    Deliver,
    /// Leave with success.
    Exit,
    /// Leave with failure.
    Abort,
}

pub enum LoopStateView {
    Reading { cursor: Seq<char> },
    Delivering { cursor: Seq<char>, batch: Seq<StreamView> },
    Stopped,
    Failed { cursor: Seq<char> },
}

pub enum LoopEventView {
    BatchRead(Seq<StreamView>),
    ReadFailed,
    BatchDelivered,
    DeliveryFailed,
}

impl View for LoopState {
    type V = LoopStateView;

    open spec fn view(&self) -> LoopStateView {
        match *self {
            LoopState::Reading { cursor } => LoopStateView::Reading { cursor: cursor@ },
            LoopState::Delivering { cursor, batch } => LoopStateView::Delivering {
                cursor: cursor@,
                batch: batch@,
            },
            LoopState::Stopped => LoopStateView::Stopped,
            LoopState::Failed { cursor } => LoopStateView::Failed { cursor: cursor@ },
        }
    }
}

impl View for LoopEvent {
    type V = LoopEventView;

    open spec fn view(&self) -> LoopEventView {
        match *self {
            LoopEvent::BatchRead(batch) => LoopEventView::BatchRead(batch@),
            LoopEvent::ReadFailed => LoopEventView::ReadFailed,
            LoopEvent::BatchDelivered => LoopEventView::BatchDelivered,
            LoopEvent::DeliveryFailed => LoopEventView::DeliveryFailed,
        }
    }
}

/// The state that follows `state` on `event`.
///
/// A batch that was read goes to the sink before anything else happens. Once
/// the sink has accepted it, a batch without entries ends the loop unless
/// empty reads are retried; otherwise the cursor moves to the last entry of
/// the batch and the loop reads again. A failure of the read or of the sink
/// ends the loop with the cursor where it was. An event that the state does
/// not wait for changes nothing.
pub open spec fn next_state(state: LoopStateView, event: LoopEventView, retry_when_empty: bool) -> LoopStateView {
    match state {
        LoopStateView::Reading { cursor } => match event {
            LoopEventView::BatchRead(batch) => LoopStateView::Delivering { cursor, batch },
            LoopEventView::ReadFailed => LoopStateView::Failed { cursor },
            _ => state,
        },
        LoopStateView::Delivering { cursor, batch } => match event {
            LoopEventView::BatchDelivered => if all_entries(batch).len() == 0 && !retry_when_empty {
                LoopStateView::Stopped
            } else {
                LoopStateView::Reading { cursor: last_id(batch, cursor) }
            },
            LoopEventView::DeliveryFailed => LoopStateView::Failed { cursor },
            _ => state,
        },
        _ => state,
    }
}

/// What a state asks its driver to do.
pub open spec fn action_of(state: LoopStateView) -> LoopAction {
    match state {
        LoopStateView::Reading { .. } => LoopAction::Read,
        LoopStateView::Delivering { .. } => LoopAction::Deliver,
        LoopStateView::Stopped => LoopAction::Exit,
        LoopStateView::Failed { .. } => LoopAction::Abort,
    }
}

/// The cursor that a state holds; a loop that stopped holds none.
pub open spec fn cursor_of(state: LoopStateView) -> Option<Seq<char>> {
    match state {
        LoopStateView::Reading { cursor } => Some(cursor),
        LoopStateView::Delivering { cursor, .. } => Some(cursor),
        LoopStateView::Stopped => None,
        LoopStateView::Failed { cursor } => Some(cursor),
    }
}

impl LoopState {
    /// The state in which a run begins: about to read after `start_id`.
    pub fn start(start_id: String) -> (state: LoopState)
        ensures
            state@ == (LoopStateView::Reading { cursor: start_id@ }),
    {
        LoopState::Reading { cursor: start_id }
    }

    /// What the driver has to do in this state.
    pub fn action(&self) -> (action: LoopAction)
        ensures
            action == action_of(self@),
    {
        match self {
            LoopState::Reading { .. } => LoopAction::Read,
            LoopState::Delivering { .. } => LoopAction::Deliver,
            LoopState::Stopped => LoopAction::Exit,
            LoopState::Failed { .. } => LoopAction::Abort,
        }
    }

    /// The cursor of this state.
    pub fn cursor(&self) -> (cursor: Option<&String>)
        ensures
            match cursor {
                Some(c) => cursor_of(self@) == Some(c@),
                None => cursor_of(self@) is None,
            },
    {
        match self {
            LoopState::Reading { cursor } => Some(cursor),
            LoopState::Delivering { cursor, .. } => Some(cursor),
            LoopState::Stopped => None,
            LoopState::Failed { cursor } => Some(cursor),
        }
    }

    /// The batch that is with the sink, if one is.
    pub fn pending(&self) -> (batch: Option<&Batch>)
        ensures
            match batch {
                Some(b) => self@ matches LoopStateView::Delivering { batch, .. } && batch == b@,
                None => !(self@ is Delivering),
            },
    {
        match self {
            LoopState::Delivering { batch, .. } => Some(batch),
            _ => None,
        }
    }
}

/// Takes the loop from one state to the next, and says what to do there.
pub fn step(state: LoopState, event: LoopEvent, retry_when_empty: bool) -> (next: (LoopState, LoopAction))
    ensures
        next.0@ == next_state(state@, event@, retry_when_empty),
        next.1 == action_of(next.0@),
{
    let next = match state {
        LoopState::Reading { cursor } => match event {
            LoopEvent::BatchRead(batch) => LoopState::Delivering { cursor, batch },
            LoopEvent::ReadFailed => LoopState::Failed { cursor },
            _ => LoopState::Reading { cursor },
        },
        LoopState::Delivering { cursor, batch } => match event {
            LoopEvent::BatchDelivered => {
                if batch.has_no_entries() && !retry_when_empty {
                    LoopState::Stopped
                } else {
                    LoopState::Reading { cursor: advance(cursor, &batch) }
                }
            },
            LoopEvent::DeliveryFailed => LoopState::Failed { cursor },
            _ => LoopState::Delivering { cursor, batch },
        },
        LoopState::Stopped => LoopState::Stopped,
        LoopState::Failed { cursor } => LoopState::Failed { cursor },
    };
    let action = next.action();
    (next, action)
}

/// When the sink has accepted a batch without entries, the loop stops if
/// empty reads are not retried, with nothing further asked of the sink; if
/// they are retried, it reads again after the same cursor.
pub proof fn lemma_empty_batch_stops_or_reads_again(
    cursor: Seq<char>,
    batch: Seq<StreamView>,
    retry_when_empty: bool,
)
    requires
        all_entries(batch).len() == 0,
    ensures
        !retry_when_empty ==> next_state(
            LoopStateView::Delivering { cursor, batch },
            LoopEventView::BatchDelivered,
            retry_when_empty,
        ) == LoopStateView::Stopped,
        !retry_when_empty ==> action_of(
            next_state(
                LoopStateView::Delivering { cursor, batch },
                LoopEventView::BatchDelivered,
                retry_when_empty,
            ),
        ) == LoopAction::Exit,
        retry_when_empty ==> next_state(
            LoopStateView::Delivering { cursor, batch },
            LoopEventView::BatchDelivered,
            retry_when_empty,
        ) == (LoopStateView::Reading { cursor }),
{
}

/// When the sink has accepted a batch with entries, the loop reads again
/// after the last of them.
pub proof fn lemma_delivery_moves_cursor_to_last_entry(
    cursor: Seq<char>,
    batch: Seq<StreamView>,
    retry_when_empty: bool,
)
    requires
        all_entries(batch).len() > 0,
    ensures
        next_state(
            LoopStateView::Delivering { cursor, batch },
            LoopEventView::BatchDelivered,
            retry_when_empty,
        ) == (LoopStateView::Reading { cursor: all_entries(batch).last().id }),
{
}

/// A sink that fails after the read succeeded leaves the cursor where it was
/// before the read: a later run from that cursor meets the same entries.
pub proof fn lemma_failed_delivery_keeps_cursor(
    cursor: Seq<char>,
    batch: Seq<StreamView>,
    retry_when_empty: bool,
)
    ensures
        next_state(
            next_state(LoopStateView::Reading { cursor }, LoopEventView::BatchRead(batch), retry_when_empty),
            LoopEventView::DeliveryFailed,
            retry_when_empty,
        ) == (LoopStateView::Failed { cursor }),
{
}

/// The cursor changes in one place only: where the sink reports that it has
/// accepted a batch with entries. No other event in no other state moves it.
pub proof fn lemma_cursor_moves_only_after_delivery(
    state: LoopStateView,
    event: LoopEventView,
    retry_when_empty: bool,
)
    requires
        cursor_of(next_state(state, event, retry_when_empty)) is Some,
        cursor_of(next_state(state, event, retry_when_empty)) != cursor_of(state),
    ensures
        event is BatchDelivered,
        state matches LoopStateView::Delivering { batch, .. } && all_entries(batch).len() > 0 && cursor_of(
            next_state(state, event, retry_when_empty),
        ) == Some(all_entries(batch).last().id),
{
}

/// A loop that has ended stays ended, whatever it is told.
pub proof fn lemma_ended_loop_stays_ended(state: LoopStateView, event: LoopEventView, retry_when_empty: bool)
    requires
        state is Stopped || state is Failed,
    ensures
        next_state(state, event, retry_when_empty) == state,
{
}

} // verus!
