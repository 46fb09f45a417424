use redito::settings::{
    AppConfig, Commands, RedisConfig, StreamCopyArgs, StreamTailArgs, DEFAULT_BLOCK_MS, DEFAULT_COUNT,
    DEFAULT_PORT,
};

#[test]
fn default_constants() {
    assert_eq!(DEFAULT_PORT, 6379);
    assert_eq!(DEFAULT_BLOCK_MS, 5000);
    assert_eq!(DEFAULT_COUNT, 1000);
}

#[test]
fn server_defaults() {
    let c = RedisConfig::at_host("example.org".to_string());
    assert_eq!(c.host, "example.org");
    assert_eq!(c.port, 6379);
    assert_eq!(c.username, None);
    assert_eq!(c.password, None);
    assert_eq!(c.db, 0);
    assert!(!c.tls);
    assert!(!c.sentinel);
    assert_eq!(c.sentinel_master, None);
    assert_eq!(RedisConfig::local().host, "localhost");
}

#[test]
fn tail_defaults() {
    let a = StreamTailArgs::for_stream("s".to_string());
    assert_eq!(a.stream, "s");
    assert!(!a.plaintext);
    assert_eq!(a.raw_key, None);
    assert_eq!(a.group, None);
    assert_eq!(a.consumer, None);
    assert_eq!(a.block_ms, 5000);
    assert_eq!(a.count, 1000);
    assert_eq!(a.start_id, "$");
    assert!(!a.retry_when_empty);
}

#[test]
fn copy_defaults() {
    let a = StreamCopyArgs::for_stream("s".to_string(), RedisConfig::at_host("t".to_string()));
    assert_eq!(a.stream, "s");
    assert_eq!(a.target.host, "t");
    assert_eq!(a.target.port, 6379);
    assert_eq!(a.group, None);
    assert_eq!(a.consumer, None);
    assert_eq!(a.block_ms, 5000);
    assert_eq!(a.count, 1000);
    assert_eq!(a.start_id, "$");
    assert!(!a.retry_when_empty);
}

#[test]
fn unconfigured_run_has_no_command() {
    let c = AppConfig::unconfigured();
    assert_eq!(c.redis.host, "localhost");
    assert!(matches!(c.command, Commands::Nothing));
    assert!(!c.print_config);
}
