//! The options that a run is configured with.

use vstd::prelude::*;

verus! {

/// How to reach one server.
#[derive(Debug, Clone)]
pub struct RedisConfig {
    pub host: String,
    pub port: u16,
    pub username: Option<String>,
    pub password: Option<String>,
    pub db: u8,
    pub tls: bool,
    pub sentinel: bool,
    pub sentinel_master: Option<String>,
}

/// What the process was asked to do.
#[derive(Debug, Clone)]
pub enum Commands {
    StreamTail(StreamTailArgs),
    StreamCopy(StreamCopyArgs),
    /// No command was chosen.
    Nothing,
}

/// Options of the command that prints the entries of a stream.
#[derive(Debug, Clone)]
pub struct StreamTailArgs {
    pub stream: String,
    pub plaintext: bool,
    pub raw_key: Option<String>,
    pub group: Option<String>,
    pub consumer: Option<String>,
    pub block_ms: usize,
    pub count: usize,
    pub start_id: String,
    pub retry_when_empty: bool,
}

/// Options of the command that copies the entries of a stream to another server.
#[derive(Debug, Clone)]
pub struct StreamCopyArgs {
    pub stream: String,
    pub target: RedisConfig,
    pub group: Option<String>,
    pub consumer: Option<String>,
    pub block_ms: usize,
    pub count: usize,
    pub start_id: String,
    pub retry_when_empty: bool,
}

/// The whole configuration of a run.
#[derive(Debug, Clone)]
pub struct AppConfig {
    pub redis: RedisConfig,
    pub command: Commands,
    pub print_config: bool,
}

/// The port that a server listens on unless another is given.
pub const DEFAULT_PORT: u16 = 6379;

/// How long a read waits for entries, in milliseconds, unless told otherwise.
pub const DEFAULT_BLOCK_MS: usize = 5000;

/// The most entries that a read returns unless told otherwise.
pub const DEFAULT_COUNT: usize = 1000;

impl RedisConfig {
    /// The server at `host` with every other option at its default: the
    /// default port, database 0, no credentials, no TLS, no sentinel.
    pub fn at_host(host: String) -> (config: RedisConfig)
        ensures
            config.host == host,
            config.port == DEFAULT_PORT,
            config.username is None,
            config.password is None,
            config.db == 0,
            !config.tls,
            !config.sentinel,
            config.sentinel_master is None,
    {
        RedisConfig {
            host,
            port: DEFAULT_PORT,
            username: None,
            password: None,
            db: 0,
            tls: false,
            sentinel: false,
            sentinel_master: None,
        }
    }

    /// The source server where nothing is configured: `localhost` with the
    /// defaults of `at_host`.
    pub fn local() -> (config: RedisConfig)
        ensures
            config.host@ == "localhost"@,
            config.port == DEFAULT_PORT,
            config.username is None,
            config.password is None,
            config.db == 0,
            !config.tls,
            !config.sentinel,
            config.sentinel_master is None,
    {
        RedisConfig::at_host("localhost".to_owned())
    }
}

impl StreamTailArgs {
    /// Printing `stream` with every option at its default: structured
    /// output, no raw key, no group, entries that arrive from now on, and a
    /// stop at the first empty read.
    pub fn for_stream(stream: String) -> (args: StreamTailArgs)
        ensures
            args.stream == stream,
            !args.plaintext,
            args.raw_key is None,
            args.group is None,
            args.consumer is None,
            args.block_ms == DEFAULT_BLOCK_MS,
            args.count == DEFAULT_COUNT,
            args.start_id@ == "$"@,
            !args.retry_when_empty,
    {
        StreamTailArgs {
            stream,
            plaintext: false,
            raw_key: None,
            group: None,
            consumer: None,
            block_ms: DEFAULT_BLOCK_MS,
            count: DEFAULT_COUNT,
            start_id: "$".to_owned(),
            retry_when_empty: false,
        }
    }
}

impl StreamCopyArgs {
    /// Copying `stream` to `target` with every option at its default: no
    /// group, entries that arrive from now on, and a stop at the first empty
    /// read.
    pub fn for_stream(stream: String, target: RedisConfig) -> (args: StreamCopyArgs)
        ensures
            args.stream == stream,
            args.target == target,
            args.group is None,
            args.consumer is None,
            args.block_ms == DEFAULT_BLOCK_MS,
            args.count == DEFAULT_COUNT,
            args.start_id@ == "$"@,
            !args.retry_when_empty,
    {
        StreamCopyArgs {
            stream,
            target,
            group: None,
            consumer: None,
            block_ms: DEFAULT_BLOCK_MS,
            count: DEFAULT_COUNT,
            start_id: "$".to_owned(),
            retry_when_empty: false,
        }
    }
}

impl AppConfig {
    /// The configuration where nothing is configured: the local server, no
    /// command, and no printing of the configuration.
    pub fn unconfigured() -> (config: AppConfig)
        ensures
            config.redis.host@ == "localhost"@,
            config.redis.port == DEFAULT_PORT,
            config.redis.username is None,
            config.redis.password is None,
            config.redis.db == 0,
            !config.redis.tls,
            !config.redis.sentinel,
            config.redis.sentinel_master is None,
            config.command is Nothing,
            !config.print_config,
    {
        AppConfig { redis: RedisConfig::local(), command: Commands::Nothing, print_config: false }
    }
}

} // verus!
