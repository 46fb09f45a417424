use redito::commands::{stream_copy, stream_tail};
use redito::settings::{RedisConfig, StreamCopyArgs, StreamTailArgs};
use redito::source::{read_request, ReadMode, ReadRequest};

fn cursor_in(request: &ReadRequest) -> Option<String> {
    match &request.mode {
        ReadMode::Positional { cursor } => Some(cursor.clone()),
        ReadMode::Group { .. } => None,
    }
}

#[test]
fn positional_read_asks_for_entries_after_cursor() {
    let request = read_request("3-0", &"events".to_string(), &None, &None, 5000, 1000);
    assert_eq!(request.stream, "events");
    assert_eq!(cursor_in(&request), Some("3-0".to_string()));
    assert_eq!(request.start_id(), "3-0");
    assert_eq!(request.block_ms, Some(5000));
    assert_eq!(request.count, Some(1000));
}

#[test]
fn zero_block_time_means_no_waiting() {
    let request = read_request("$", &"events".to_string(), &None, &None, 0, 10);
    assert_eq!(request.block_ms, None);
    assert_eq!(request.count, Some(10));
    let request = read_request("$", &"events".to_string(), &None, &None, 1, 10);
    assert_eq!(request.block_ms, Some(1));
}

#[test]
fn group_read_ignores_start_cursor() {
    let group = Some("workers".to_string());
    let consumer = Some("w1".to_string());
    for cursor in ["0-0", "$", "1700000000000-5"] {
        let request = read_request(cursor, &"events".to_string(), &group, &consumer, 5000, 1000);
        assert_eq!(request.start_id(), ">");
        assert_eq!(cursor_in(&request), None);
        match &request.mode {
            ReadMode::Group { group, consumer } => {
                assert_eq!(group, "workers");
                assert_eq!(consumer, "w1");
            }
            ReadMode::Positional { .. } => panic!("a group read was asked for"),
        }
    }
}

#[test]
fn group_read_without_consumer_uses_default_name() {
    let request = read_request("0-0", &"events".to_string(), &Some("g".to_string()), &None, 0, 1);
    match &request.mode {
        ReadMode::Group { group, consumer } => {
            assert_eq!(group, "g");
            assert_eq!(consumer, "default");
        }
        ReadMode::Positional { .. } => panic!("a group read was asked for"),
    }
}

#[test]
fn consumer_without_group_is_left_aside() {
    let request = read_request("0-0", &"events".to_string(), &None, &Some("c".to_string()), 0, 1);
    assert_eq!(cursor_in(&request), Some("0-0".to_string()));
}

#[test]
fn tail_read_follows_its_options() {
    let mut args = StreamTailArgs::for_stream("log".to_string());
    args.block_ms = 250;
    args.count = 7;
    let request = stream_tail::xread("12-1", &args);
    assert_eq!(request.stream, "log");
    assert_eq!(request.start_id(), "12-1");
    assert_eq!(request.block_ms, Some(250));
    assert_eq!(request.count, Some(7));
    args.group = Some("g".to_string());
    let request = stream_tail::xread("12-1", &args);
    assert_eq!(request.start_id(), ">");
}

#[test]
fn copy_read_follows_its_options() {
    let mut args =
        StreamCopyArgs::for_stream("log".to_string(), RedisConfig::at_host("other".to_string()));
    let request = stream_copy::xread("$", &args);
    assert_eq!(request.stream, "log");
    assert_eq!(request.start_id(), "$");
    assert_eq!(request.block_ms, Some(5000));
    assert_eq!(request.count, Some(1000));
    args.group = Some("g".to_string());
    args.consumer = Some("c".to_string());
    let request = stream_copy::xread("$", &args);
    match &request.mode {
        ReadMode::Group { group, consumer } => {
            assert_eq!(group, "g");
            assert_eq!(consumer, "c");
        }
        ReadMode::Positional { .. } => panic!("a group read was asked for"),
    }
}
