//! The two commands: printing a stream and copying it to another server.

pub mod stream_copy;
pub mod stream_tail;
