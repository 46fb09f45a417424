//! Copying the entries of a stream to another server.

use vstd::prelude::*;
use vstd::utf8::{decode_utf8, encode_utf8, encode_utf8_decode_utf8};
use crate::settings::StreamCopyArgs;
use crate::source::{read_request, request_for, ReadRequest};
use crate::text::option_text;
use crate::stream::{all_entries, Batch, Entry, EntryView, FieldView, StreamView};

verus! {

/// `redis::Pipeline`: the commands of one write, seen here through
/// `queued_commands` and `in_transaction` alone.
#[verifier::external_type_specification]
#[verifier::external_body]
pub struct ExPipeline(redis::Pipeline);

/// The commands that a pipeline holds, in the order in which they were
/// queued; each command is the list of its arguments, the command's name
/// first, and each argument is a byte string.
pub uninterp spec fn queued_commands(pipe: redis::Pipeline) -> Seq<Seq<Seq<u8>>>;

/// Whether a pipeline is sent as one transaction.
pub uninterp spec fn in_transaction(pipe: redis::Pipeline) -> bool;

/// The arguments that the fields of an entry give: name and value of each
/// field in turn, the name in UTF-8.
pub open spec fn field_args(fields: Seq<FieldView>) -> Seq<Seq<u8>>
    decreases fields.len(),
{
    if fields.len() == 0 {
        Seq::empty()
    } else {
        field_args(fields.drop_last()).push(encode_utf8(fields.last().name)).push(fields.last().value)
    }
}

/// The command that appends one entry to a stream under the entry's own
/// identifier.
pub open spec fn append_command(stream: Seq<char>, entry: EntryView) -> Seq<Seq<u8>> {
    seq![encode_utf8("XADD"@), encode_utf8(stream), encode_utf8(entry.id)] + field_args(entry.fields)
}

/// The commands that append the entries of one stream, in order.
pub open spec fn stream_commands(stream: Seq<char>, entries: Seq<EntryView>) -> Seq<Seq<Seq<u8>>> {
    entries.map_values(|e: EntryView| append_command(stream, e))
}

/// The commands that append every entry of a batch, in arrival order, each
/// to the stream of the name that it came from.
pub open spec fn append_commands(streams: Seq<StreamView>) -> Seq<Seq<Seq<u8>>>
    decreases streams.len(),
{
    if streams.len() == 0 {
        Seq::empty()
    } else {
        append_commands(streams.drop_last()) + stream_commands(
            streams.last().stream,
            streams.last().entries,
        )
    }
}

/// Calls `redis::pipe`: a pipeline without commands, not a transaction.
#[verifier::external_body]
fn new_pipeline() -> (pipe: redis::Pipeline)
    ensures
        queued_commands(pipe) == Seq::<Seq<Seq<u8>>>::empty(),
        !in_transaction(pipe),
{
    redis::pipe()
}

/// Calls `Pipeline::atomic`: the pipeline becomes a transaction and keeps
/// its commands.
#[verifier::external_body]
fn make_atomic(pipe: &mut redis::Pipeline)
    ensures
        in_transaction(*final(pipe)),
        queued_commands(*final(pipe)) == queued_commands(*old(pipe)),
{
    pipe.atomic();
}

/// Calls `Pipeline::xadd_options` with default options: one command is added
/// at the end, `XADD` with the stream, the entry's identifier and the fields
/// in their order. Nothing else about the pipeline changes.
#[verifier::external_body]
fn queue_append(pipe: &mut redis::Pipeline, stream: &String, entry: &Entry)
    ensures
        queued_commands(*final(pipe)) == queued_commands(*old(pipe)).push(
            append_command(stream@, entry@),
        ),
        in_transaction(*final(pipe)) == in_transaction(*old(pipe)),
{
    let items: Vec<(&str, &[u8])> = entry.fields.iter().map(
        |f| (f.name.as_str(), f.value.as_slice()),
    ).collect();
    let options = redis::streams::StreamAddOptions::default();
    pipe.xadd_options(stream, &entry.id, &items, &options);
}

/// Builds the read that follows `last_id` for the copying command.
pub fn xread(last_id: &str, config: &StreamCopyArgs) -> (request: ReadRequest)
    ensures
        request@ == request_for(
            last_id@,
            config.stream@,
            option_text(config.group),
            option_text(config.consumer),
            config.block_ms,
            config.count,
        ),
{
    read_request(last_id, &config.stream, &config.group, &config.consumer, config.block_ms, config.count)
}

/// Builds the one write that forwards a batch: a transaction with one append
/// per entry, in arrival order, each under the identifier and with the
/// fields that the entry was read with.
pub fn xadd_all(data: &Batch) -> (pipe: redis::Pipeline)
    ensures
        in_transaction(pipe),
        queued_commands(pipe) == append_commands(data@),
{
    let mut pipe = new_pipeline();
    make_atomic(&mut pipe);
    let mut i: usize = 0;
    while i < data.streams.len()
        invariant
            0 <= i <= data.streams.len(),
            in_transaction(pipe),
            queued_commands(pipe) == append_commands(data@.take(i as int)),
        decreases data.streams.len() - i,
    {
        let stream = &data.streams[i].stream;
        let entries = &data.streams[i].entries;
        let ghost done = append_commands(data@.take(i as int));
        let ghost views = data@[i as int].entries;
        assert(stream_commands(stream@, views.take(0)) == Seq::<Seq<Seq<u8>>>::empty());
        let mut j: usize = 0;
        while j < entries.len()
            invariant
                0 <= j <= entries.len(),
                views == entries@.map_values(|e: Entry| e@),
                in_transaction(pipe),
                queued_commands(pipe) == done + stream_commands(stream@, views.take(j as int)),
            decreases entries.len() - j,
        {
            queue_append(&mut pipe, stream, &entries[j]);
            proof {
                assert(views.take(j as int + 1) == views.take(j as int).push(views[j as int]));
                assert(stream_commands(stream@, views.take(j as int + 1)) == stream_commands(
                    stream@,
                    views.take(j as int),
                ).push(append_command(stream@, views[j as int])));
            }
            j = j + 1;
        }
        proof {
            assert(views.take(j as int) == views);
            assert(data@.take(i as int + 1).drop_last() == data@.take(i as int));
        }
        i = i + 1;
    }
    assert(data@.take(i as int) == data@);
    pipe
}

/// The fields that a list of arguments names: the arguments pair by pair, a
/// name in UTF-8 and a value.
pub open spec fn fields_of_args(args: Seq<Seq<u8>>) -> Seq<FieldView>
    decreases args.len(),
{
    if args.len() < 2 {
        Seq::empty()
    } else {
        fields_of_args(args.take(args.len() - 2)).push(
            FieldView { name: decode_utf8(args[args.len() - 2]), value: args[args.len() - 1] },
        )
    }
}

/// The entry that an append command stores.
pub open spec fn stored_entry(command: Seq<Seq<u8>>) -> EntryView {
    EntryView { id: decode_utf8(command[2]), fields: fields_of_args(command.skip(3)) }
}

/// What a destination that was empty holds once it has taken each command
/// of a list: the entry of each command, in the order of the commands.
pub open spec fn stored_entries(commands: Seq<Seq<Seq<u8>>>) -> Seq<EntryView> {
    commands.map_values(|c: Seq<Seq<u8>>| stored_entry(c))
}

/// The arguments of an entry's fields name those fields again.
pub proof fn lemma_fields_round_trip(fields: Seq<FieldView>)
    ensures
        field_args(fields).len() == 2 * fields.len(),
        fields_of_args(field_args(fields)) == fields,
    decreases fields.len(),
{
    if fields.len() > 0 {
        let init = fields.drop_last();
        let args = field_args(fields);
        lemma_fields_round_trip(init);
        encode_utf8_decode_utf8(fields.last().name);
        assert(args.take(args.len() - 2) == field_args(init));
        assert(fields_of_args(args) == init.push(fields.last()));
        assert(init.push(fields.last()) == fields);
    }
}

/// An append command stores the entry that it was built from.
pub proof fn lemma_append_stores_entry(stream: Seq<char>, entry: EntryView)
    ensures
        stored_entry(append_command(stream, entry)) == entry,
{
    let command = append_command(stream, entry);
    lemma_fields_round_trip(entry.fields);
    encode_utf8_decode_utf8(entry.id);
    assert(command.skip(3) == field_args(entry.fields));
}

/// Forwarding keeps the entries: a destination that takes the write of a
/// batch and is read from its beginning gives back the entries of the batch,
/// with the same identifiers and the same fields, in the same order.
pub proof fn lemma_forward_round_trip(streams: Seq<StreamView>)
    ensures
        stored_entries(append_commands(streams)) == all_entries(streams),
    decreases streams.len(),
{
    if streams.len() == 0 {
        assert(stored_entries(append_commands(streams)) == Seq::<EntryView>::empty());
    } else {
        let init = streams.drop_last();
        let last = streams.last();
        lemma_forward_round_trip(init);
        let tail = stream_commands(last.stream, last.entries);
        assert forall|k: int| 0 <= k < last.entries.len() implies stored_entry(#[trigger] tail[k])
            == last.entries[k] by {
            lemma_append_stores_entry(last.stream, last.entries[k]);
        }
        assert(stored_entries(tail) == last.entries);
        assert(stored_entries(append_commands(init) + tail) == stored_entries(append_commands(init))
            + stored_entries(tail));
    }
}

/// A batch without entries gives a write without commands.
pub proof fn lemma_empty_batch_appends_nothing(streams: Seq<StreamView>)
    requires
        all_entries(streams).len() == 0,
    ensures
        append_commands(streams) == Seq::<Seq<Seq<u8>>>::empty(),
{
    lemma_forward_round_trip(streams);
    assert(stored_entries(append_commands(streams)).len() == append_commands(streams).len());
}

} // verus!
