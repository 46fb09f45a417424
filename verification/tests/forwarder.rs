use redito::commands::stream_copy::xadd_all;
use redito::stream::{Batch, Entry, Field, StreamEntries};

fn field(name: &str, value: &[u8]) -> Field {
    Field { name: name.to_string(), value: value.to_vec() }
}

fn entry(id: &str, fields: Vec<Field>) -> Entry {
    Entry { id: id.to_string(), fields }
}

fn commands(pipe: &redis::Pipeline) -> Vec<Vec<Vec<u8>>> {
    pipe.cmd_iter()
        .map(|cmd| {
            cmd.args_iter()
                .map(|arg| match arg {
                    redis::Arg::Simple(bytes) => bytes.to_vec(),
                    redis::Arg::Cursor => panic!("no cursor is expected"),
                })
                .collect()
        })
        .collect()
}

fn args(parts: &[&[u8]]) -> Vec<Vec<u8>> {
    parts.iter().map(|p| p.to_vec()).collect()
}

#[test]
fn forward_queues_one_append_per_entry_in_order() {
    let batch = Batch::new(vec![StreamEntries {
        stream: "events".to_string(),
        entries: vec![
            entry("1-0", vec![field("a", b"1")]),
            entry("2-0", vec![field("a", b"2"), field("b", b"3")]),
        ],
    }]);
    let pipe = xadd_all(&batch);
    assert_eq!(
        commands(&pipe),
        vec![
            args(&[b"XADD", b"events", b"1-0", b"a", b"1"]),
            args(&[b"XADD", b"events", b"2-0", b"a", b"2", b"b", b"3"]),
        ]
    );
}

#[test]
fn forward_is_one_transaction() {
    let batch = Batch::new(vec![StreamEntries {
        stream: "s".to_string(),
        entries: vec![entry("1-0", vec![field("k", b"v")])],
    }]);
    let pipe = xadd_all(&batch);
    let packed = pipe.get_packed_pipeline();
    let text = String::from_utf8(packed).unwrap();
    assert!(text.starts_with("*1\r\n$5\r\nMULTI\r\n"));
    assert!(text.ends_with("*1\r\n$4\r\nEXEC\r\n"));
    assert_eq!(pipe.len(), 1);
}

#[test]
fn forward_of_empty_batch_queues_nothing() {
    let pipe = xadd_all(&Batch::new(vec![]));
    assert!(pipe.is_empty());
    let pipe = xadd_all(&Batch::new(vec![StreamEntries { stream: "s".to_string(), entries: vec![] }]));
    assert!(pipe.is_empty());
}

#[test]
fn forward_keeps_bytes_and_field_order() {
    let batch = Batch::new(vec![StreamEntries {
        stream: "s".to_string(),
        entries: vec![entry(
            "1700000000000-7",
            vec![field("z", &[0, 255, 10]), field("a", b""), field("z", b"again")],
        )],
    }]);
    let pipe = xadd_all(&batch);
    assert_eq!(
        commands(&pipe),
        vec![args(&[b"XADD", b"s", b"1700000000000-7", b"z", &[0, 255, 10], b"a", b"", b"z", b"again"])]
    );
}

#[test]
fn forward_appends_each_entry_to_the_stream_it_came_from() {
    let batch = Batch::new(vec![
        StreamEntries { stream: "one".to_string(), entries: vec![entry("1-0", vec![field("k", b"v")])] },
        StreamEntries { stream: "two".to_string(), entries: vec![entry("1-1", vec![field("k", b"w")])] },
    ]);
    let pipe = xadd_all(&batch);
    assert_eq!(
        commands(&pipe),
        vec![
            args(&[b"XADD", b"one", b"1-0", b"k", b"v"]),
            args(&[b"XADD", b"two", b"1-1", b"k", b"w"]),
        ]
    );
}

#[test]
fn forward_encodes_names_in_utf8() {
    let batch = Batch::new(vec![StreamEntries {
        stream: "größe".to_string(),
        entries: vec![entry("1-0", vec![field("名", b"v")])],
    }]);
    let pipe = xadd_all(&batch);
    assert_eq!(
        commands(&pipe),
        vec![args(&[b"XADD", "größe".as_bytes(), b"1-0", "名".as_bytes(), b"v"])]
    );
}

#[test]
fn round_trip_of_identifiers_and_fields_through_the_write() {
    let entries = vec![
        entry("1-0", vec![field("a", b"1")]),
        entry("2-0", vec![field("a", b"2"), field("b", b"x")]),
    ];
    let expected: Vec<(Vec<u8>, Vec<(Vec<u8>, Vec<u8>)>)> = entries
        .iter()
        .map(|e| {
            (
                e.id.as_bytes().to_vec(),
                e.fields.iter().map(|f| (f.name.as_bytes().to_vec(), f.value.clone())).collect(),
            )
        })
        .collect();
    let pipe = xadd_all(&Batch::new(vec![StreamEntries { stream: "s".to_string(), entries }]));
    let stored: Vec<(Vec<u8>, Vec<(Vec<u8>, Vec<u8>)>)> = commands(&pipe)
        .into_iter()
        .map(|c| (c[2].clone(), c[3..].chunks(2).map(|p| (p[0].clone(), p[1].clone())).collect()))
        .collect();
    assert_eq!(stored, expected);
}
