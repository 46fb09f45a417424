//! Consumption of entries from an append-only stream: the cursor that follows
//! the reads, the read requests, the two sinks (printing and forwarding) and
//! the loop that ties them together; beside them the options of a run, the
//! way to a server, and the rules by which the options become a command line.
//!
//! Nothing here reads or writes: a caller performs the reads and the writes
//! that the library asks for and tells it how they ended.

pub mod text;
pub mod stream;
pub mod cursor;
pub mod source;
pub mod settings;
pub mod connect;
pub mod consume;
pub mod commands;
pub mod cli;
pub mod overrides;
