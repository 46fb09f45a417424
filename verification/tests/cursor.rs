use redito::cursor::advance;
use redito::stream::{Batch, Entry, Field, StreamEntries};

fn entry(id: &str, fields: &[(&str, &str)]) -> Entry {
    Entry {
        id: id.to_string(),
        fields: fields
            .iter()
            .map(|(n, v)| Field { name: n.to_string(), value: v.as_bytes().to_vec() })
            .collect(),
    }
}

fn stream(name: &str, entries: Vec<Entry>) -> StreamEntries {
    StreamEntries { stream: name.to_string(), entries }
}

#[test]
fn advance_returns_last_entry_of_batch() {
    let batch = Batch::new(vec![stream(
        "s",
        vec![entry("1-0", &[("a", "1")]), entry("2-0", &[("a", "2")])],
    )]);
    assert_eq!(advance("0-0".to_string(), &batch), "2-0");
}

#[test]
fn advance_keeps_cursor_on_empty_batch() {
    let batch = Batch::new(vec![]);
    assert_eq!(advance("7-3".to_string(), &batch), "7-3");
}

#[test]
fn advance_keeps_cursor_when_streams_hold_no_entries() {
    let batch = Batch::new(vec![stream("s", vec![]), stream("t", vec![])]);
    assert_eq!(advance("$".to_string(), &batch), "$");
}

#[test]
fn advance_takes_last_entry_in_arrival_order_over_streams() {
    let batch = Batch::new(vec![
        stream("s", vec![entry("5-0", &[]), entry("9-1", &[])]),
        stream("t", vec![entry("3-0", &[])]),
        stream("u", vec![]),
    ]);
    assert_eq!(advance("0-0".to_string(), &batch), "3-0");
}

#[test]
fn advance_does_not_order_identifiers_itself() {
    let batch = Batch::new(vec![stream("s", vec![entry("9-0", &[]), entry("1-0", &[])])]);
    assert_eq!(advance("0-0".to_string(), &batch), "1-0");
}

#[test]
fn batch_without_entries_is_recognised() {
    assert!(Batch::new(vec![]).has_no_entries());
    assert!(Batch::new(vec![stream("s", vec![])]).has_no_entries());
    assert!(!Batch::new(vec![stream("s", vec![]), stream("t", vec![entry("1-0", &[])])]).has_no_entries());
}
