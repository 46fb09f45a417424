//! The stream source: what one read asks of the server.

use vstd::prelude::*;
use crate::text::option_text;

verus! {

/// How a read finds its entries.
#[derive(Debug)]
pub enum ReadMode {
    /// Entries whose identifier is greater than `cursor`.
    Positional { cursor: String },
    /// Entries that the server has not yet delivered to the group; the server
    /// keeps the position, and no cursor is sent.
    Group { group: String, consumer: String },
}

/// One read of one stream.
#[derive(Debug)]
pub struct ReadRequest {
    pub stream: String,
    pub mode: ReadMode,
    /// How long the read may wait for entries, in milliseconds. Without it
    /// the read returns at once with what is there.
    pub block_ms: Option<usize>,
    /// The most entries that the read may return. Without it the server
    /// decides.
    pub count: Option<usize>,
}

pub enum ReadModeView {
    Positional { cursor: Seq<char> },
    Group { group: Seq<char>, consumer: Seq<char> },
}

pub struct ReadRequestView {
    pub stream: Seq<char>,
    pub mode: ReadModeView,
    pub block_ms: Option<usize>,
    pub count: Option<usize>,
}

impl View for ReadMode {
    type V = ReadModeView;

    open spec fn view(&self) -> ReadModeView {
        match *self {
            ReadMode::Positional { cursor } => ReadModeView::Positional { cursor: cursor@ },
            ReadMode::Group { group, consumer } => ReadModeView::Group {
                group: group@,
                consumer: consumer@,
            },
        }
    }
}

impl View for ReadRequest {
    type V = ReadRequestView;

    open spec fn view(&self) -> ReadRequestView {
        ReadRequestView {
            stream: self.stream@,
            mode: self.mode@,
            block_ms: self.block_ms,
            count: self.count,
        }
    }
}

/// The identifier that a read in the given mode sends to the server: the
/// cursor, or for a group the marker of what was never delivered.
pub open spec fn start_id_of(mode: ReadModeView) -> Seq<char> {
    match mode {
        ReadModeView::Positional { cursor } => cursor,
        ReadModeView::Group { .. } => ">"@,
    }
}

/// The read that follows `last_id` under the given options.
///
/// With a group the cursor is left aside and the consumer is `default`
/// unless one is named. A block time of zero means no waiting.
pub open spec fn request_for(
    last_id: Seq<char>,
    stream: Seq<char>,
    group: Option<Seq<char>>,
    consumer: Option<Seq<char>>,
    block_ms: usize,
    count: usize,
) -> ReadRequestView {
    ReadRequestView {
        stream,
        mode: match group {
            Some(g) => ReadModeView::Group {
                group: g,
                consumer: match consumer {
                    Some(c) => c,
                    None => "default"@,
                },
            },
            None => ReadModeView::Positional { cursor: last_id },
        },
        block_ms: if block_ms > 0 {
            Some(block_ms)
        } else {
            None
        },
        count: Some(count),
    }
}

impl ReadRequest {
    /// The identifier to send with this read.
    pub fn start_id(&self) -> (id: String)
        ensures
            id@ == start_id_of(self.mode@),
    {
        match &self.mode {
            ReadMode::Positional { cursor } => cursor.clone(),
            ReadMode::Group { .. } => ">".to_owned(),
        }
    }
}

/// Builds the read that follows `last_id`.
pub fn read_request(
    last_id: &str,
    stream: &String,
    group: &Option<String>,
    consumer: &Option<String>,
    block_ms: usize,
    count: usize,
) -> (request: ReadRequest)
    ensures
        request@ == request_for(
            last_id@,
            stream@,
            option_text(*group),
            option_text(*consumer),
            block_ms,
            count,
        ),
{
    let mode = match group {
        Some(g) => {
            let consumer_name = match consumer {
                Some(c) => c.clone(),
                None => "default".to_owned(),
            };
            ReadMode::Group { group: g.clone(), consumer: consumer_name }
        },
        None => ReadMode::Positional { cursor: last_id.to_owned() },
    };
    ReadRequest {
        stream: stream.clone(),
        mode,
        block_ms: if block_ms > 0 {
            Some(block_ms)
        } else {
            None
        },
        count: Some(count),
    }
}

/// A read for a consumer group asks for what was never delivered, whatever
/// the cursor: two reads that differ in the cursor alone are the same read.
pub proof fn lemma_group_read_ignores_cursor(
    first: Seq<char>,
    second: Seq<char>,
    stream: Seq<char>,
    group: Seq<char>,
    consumer: Option<Seq<char>>,
    block_ms: usize,
    count: usize,
)
    ensures
        request_for(first, stream, Some(group), consumer, block_ms, count) == request_for(
            second,
            stream,
            Some(group),
            consumer,
            block_ms,
            count,
        ),
        start_id_of(request_for(first, stream, Some(group), consumer, block_ms, count).mode) == ">"@,
{
}

/// A read without a group asks for the entries after the cursor.
pub proof fn lemma_positional_read_starts_at_cursor(
    last_id: Seq<char>,
    stream: Seq<char>,
    consumer: Option<Seq<char>>,
    block_ms: usize,
    count: usize,
)
    ensures
        start_id_of(request_for(last_id, stream, None, consumer, block_ms, count).mode) == last_id,
{
}

} // verus!
