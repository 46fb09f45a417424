use redito::consume::{step, LoopAction, LoopEvent, LoopState};
use redito::stream::{Batch, Entry, Field, StreamEntries};

fn entry(id: &str, name: &str, value: &str) -> Entry {
    Entry {
        id: id.to_string(),
        fields: vec![Field { name: name.to_string(), value: value.as_bytes().to_vec() }],
    }
}

fn two_entries() -> Batch {
    Batch::new(vec![StreamEntries {
        stream: "source".to_string(),
        entries: vec![entry("1-0", "a", "1"), entry("2-0", "a", "2")],
    }])
}

fn cursor_of(state: &LoopState) -> Option<String> {
    state.cursor().cloned()
}

#[test]
fn loop_starts_by_reading_after_the_start_id() {
    let state = LoopState::start("0-0".to_string());
    assert_eq!(state.action(), LoopAction::Read);
    assert_eq!(cursor_of(&state), Some("0-0".to_string()));
    assert!(state.pending().is_none());
}

#[test]
fn one_read_returns_both_entries_and_cursor_follows() {
    let state = LoopState::start("0-0".to_string());
    let (state, action) = step(state, LoopEvent::BatchRead(two_entries()), false);
    assert_eq!(action, LoopAction::Deliver);
    assert_eq!(cursor_of(&state), Some("0-0".to_string()));
    let pending = state.pending().expect("a batch is with the sink");
    assert_eq!(pending.streams.len(), 1);
    assert_eq!(pending.streams[0].entries.len(), 2);
    let (state, action) = step(state, LoopEvent::BatchDelivered, false);
    assert_eq!(action, LoopAction::Read);
    assert!(matches!(state, LoopState::Reading { .. }));
    assert_eq!(cursor_of(&state), Some("2-0".to_string()));
}

#[test]
fn empty_batch_without_retry_stops_the_loop() {
    let state = LoopState::start("5-0".to_string());
    let (state, action) = step(state, LoopEvent::BatchRead(Batch::new(vec![])), false);
    assert_eq!(action, LoopAction::Deliver);
    let (state, action) = step(state, LoopEvent::BatchDelivered, false);
    assert_eq!(action, LoopAction::Exit);
    assert!(matches!(state, LoopState::Stopped));
    assert_eq!(cursor_of(&state), None);
}

#[test]
fn empty_batch_with_retry_reads_again_at_same_cursor() {
    let state = LoopState::start("5-0".to_string());
    let (state, _) = step(state, LoopEvent::BatchRead(Batch::new(vec![])), true);
    let (state, action) = step(state, LoopEvent::BatchDelivered, true);
    assert_eq!(action, LoopAction::Read);
    assert!(matches!(state, LoopState::Reading { .. }));
    assert_eq!(cursor_of(&state), Some("5-0".to_string()));
}

#[test]
fn batch_with_entries_continues_whatever_the_retry_flag() {
    let state = LoopState::start("0-0".to_string());
    let (state, _) = step(state, LoopEvent::BatchRead(two_entries()), true);
    let (state, action) = step(state, LoopEvent::BatchDelivered, true);
    assert_eq!(action, LoopAction::Read);
    assert_eq!(cursor_of(&state), Some("2-0".to_string()));
}

#[test]
fn failed_delivery_leaves_cursor_unadvanced() {
    let state = LoopState::start("0-0".to_string());
    let (state, _) = step(state, LoopEvent::BatchRead(two_entries()), false);
    let (state, action) = step(state, LoopEvent::DeliveryFailed, false);
    assert_eq!(action, LoopAction::Abort);
    assert!(matches!(state, LoopState::Failed { .. }));
    assert_eq!(cursor_of(&state), Some("0-0".to_string()));
}

#[test]
fn failed_read_aborts_with_cursor_kept() {
    let state = LoopState::start("4-2".to_string());
    let (state, action) = step(state, LoopEvent::ReadFailed, true);
    assert_eq!(action, LoopAction::Abort);
    assert_eq!(cursor_of(&state), Some("4-2".to_string()));
}

#[test]
fn events_out_of_turn_change_nothing() {
    let state = LoopState::start("1-0".to_string());
    let (state, action) = step(state, LoopEvent::BatchDelivered, false);
    assert_eq!(action, LoopAction::Read);
    assert_eq!(cursor_of(&state), Some("1-0".to_string()));
    let (state, action) = step(state, LoopEvent::DeliveryFailed, false);
    assert_eq!(action, LoopAction::Read);
    let (state, _) = step(state, LoopEvent::BatchRead(two_entries()), false);
    let (state, action) = step(state, LoopEvent::BatchRead(Batch::new(vec![])), false);
    assert_eq!(action, LoopAction::Deliver);
    assert_eq!(state.pending().map(|b| b.streams.len()), Some(1));
    let (state, action) = step(state, LoopEvent::ReadFailed, false);
    assert_eq!(action, LoopAction::Deliver);
    assert_eq!(cursor_of(&state), Some("1-0".to_string()));
}

#[test]
fn ended_loop_stays_ended() {
    let (stopped, _) = step(LoopState::Stopped, LoopEvent::BatchRead(two_entries()), true);
    assert!(matches!(stopped, LoopState::Stopped));
    let failed = LoopState::Failed { cursor: "3-0".to_string() };
    let (failed, action) = step(failed, LoopEvent::BatchDelivered, true);
    assert_eq!(action, LoopAction::Abort);
    assert_eq!(cursor_of(&failed), Some("3-0".to_string()));
}
