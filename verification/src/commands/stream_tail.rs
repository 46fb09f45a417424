//! Printing the entries of a stream.

use redis::FromRedisValue;
use vstd::prelude::*;
use vstd::string::StringExecFns;
use vstd::utf8::{decode_utf8, valid_utf8};
use crate::settings::StreamTailArgs;
use crate::source::{read_request, request_for, ReadRequest};
use crate::stream::{all_entries, lemma_all_entries_step, Batch, Entry, EntryView, Field, FieldView};
use crate::text::{option_str_text, option_text, texts};

verus! {

/// `redis::RedisError`: carried from the call that failed to the place where
/// it is told apart from success, and never looked into.
#[verifier::external_type_specification]
#[verifier::external_body]
pub struct ExRedisError(redis::RedisError);

/// The text of a structured record, as `serde_json` writes it: an object with
/// two members, the first a string, the second an object whose members are
/// collected from the given pairs of a name and a string.
pub uninterp spec fn json_record(
    id_key: Seq<char>,
    id: Seq<char>,
    map_key: Seq<char>,
    fields: Seq<(Seq<char>, Seq<char>)>,
) -> Seq<char>;

/// The names and texts of a list of pairs.
pub open spec fn pairs_view(pairs: Seq<(String, String)>) -> Seq<(Seq<char>, Seq<char>)> {
    pairs.map_values(|p: (String, String)| (p.0@, p.1@))
}

/// Calls `String::from_redis_value` of `redis` on a bulk string with the given
/// bytes. The call succeeds exactly on valid UTF-8 and then returns the text
/// that the bytes encode.
#[verifier::external_body]
fn text_of(bytes: &Vec<u8>) -> (text: Result<String, redis::RedisError>)
    ensures
        text is Ok <==> valid_utf8(bytes@),
        text matches Ok(s) ==> s@ == decode_utf8(bytes@),
{
    String::from_redis_value(&redis::Value::BulkString(bytes.clone()))
}

/// Builds a `serde_json` object with the member `id_key`, a string, and the
/// member `map_key`, an object collected from the pairs of `fields` in their
/// order, and returns what `Value::to_string` writes for it.
#[verifier::external_body]
fn structured_record(id_key: &str, id: &str, map_key: &str, fields: &Vec<(String, String)>) -> (line:
    String)
    ensures
        line@ == json_record(id_key@, id@, map_key@, pairs_view(fields@)),
{
    let map: serde_json::Map<String, serde_json::Value> = fields.iter().map(
        |f| (f.0.clone(), serde_json::Value::String(f.1.clone())),
    ).collect();
    let mut record = serde_json::Map::new();
    record.insert(id_key.to_string(), serde_json::Value::String(id.to_string()));
    record.insert(map_key.to_string(), serde_json::Value::Object(map));
    serde_json::Value::Object(record).to_string()
}

/// The value of the field with the given name; where several fields bear the
/// name, the last of them.
pub open spec fn raw_value(fields: Seq<FieldView>, key: Seq<char>) -> Option<Seq<u8>>
    decreases fields.len(),
{
    if fields.len() == 0 {
        None
    } else if fields.last().name == key {
        Some(fields.last().value)
    } else {
        raw_value(fields.drop_last(), key)
    }
}

/// Whether every value is valid UTF-8.
pub open spec fn all_text(fields: Seq<FieldView>) -> bool {
    forall|i: int| 0 <= i < fields.len() ==> valid_utf8(#[trigger] fields[i].value)
}

/// The fields as pairs of a name and the text of the value.
pub open spec fn text_fields(fields: Seq<FieldView>) -> Seq<(Seq<char>, Seq<char>)> {
    fields.map_values(|f: FieldView| (f.name, decode_utf8(f.value)))
}

/// The first line of an entry in plain text.
pub open spec fn id_line(id: Seq<char>) -> Seq<char> {
    "ID: "@ + id
}

/// The line of one field in plain text.
pub open spec fn field_line(field: (Seq<char>, Seq<char>)) -> Seq<char> {
    "  "@ + field.0 + " => "@ + field.1
}

/// What printing one entry puts out.
pub struct EntryOutput {
    /// The lines, in order.
    pub lines: Seq<Seq<char>>,
    /// Whether the entry was printed in full.
    pub complete: bool,
}

/// What printing one entry puts out.
///
/// With a raw key, one line: the text of that field's value, or `null` where
/// the entry has no such field. Without one, either one structured record or
/// a block of plain text, the identifier first and then one line per field.
/// A value that is no valid UTF-8 cannot be printed: the entry is then
/// incomplete, and in plain text its identifier line is all that comes out.
pub open spec fn entry_output(entry: EntryView, as_json: bool, raw_key: Option<Seq<char>>) -> EntryOutput {
    match raw_key {
        Some(key) => match raw_value(entry.fields, key) {
            Some(value) => if valid_utf8(value) {
                EntryOutput { lines: seq![decode_utf8(value)], complete: true }
            } else {
                EntryOutput { lines: seq![], complete: false }
            },
            None => EntryOutput { lines: seq!["null"@], complete: true },
        },
        None => if as_json {
            if all_text(entry.fields) {
                EntryOutput {
                    lines: seq![json_record("id"@, entry.id, "map"@, text_fields(entry.fields))],
                    complete: true,
                }
            } else {
                EntryOutput { lines: seq![], complete: false }
            }
        } else {
            if all_text(entry.fields) {
                EntryOutput {
                    lines: seq![id_line(entry.id)] + text_fields(entry.fields).map_values(
                        |f: (Seq<char>, Seq<char>)| field_line(f),
                    ),
                    complete: true,
                }
            } else {
                EntryOutput { lines: seq![id_line(entry.id)], complete: false }
            }
        },
    }
}

/// What printing a list of entries puts out: the output of each entry in
/// turn, up to and including the first that is incomplete.
pub open spec fn entries_output(entries: Seq<EntryView>, as_json: bool, raw_key: Option<Seq<char>>) -> EntryOutput
    decreases entries.len(),
{
    if entries.len() == 0 {
        EntryOutput { lines: seq![], complete: true }
    } else {
        let before = entries_output(entries.drop_last(), as_json, raw_key);
        if before.complete {
            let last = entry_output(entries.last(), as_json, raw_key);
            EntryOutput { lines: before.lines + last.lines, complete: last.complete }
        } else {
            before
        }
    }
}

/// Why a batch was not printed in full.
#[derive(Debug)]
pub struct PrintError {
    /// The lines that came out before the value that could not be printed.
    pub printed: Vec<String>,
}

/// Looks up the value that raw output prints for an entry.
fn find_raw<'a>(fields: &'a Vec<Field>, key: &String) -> (found: Option<&'a Vec<u8>>)
    ensures
        match found {
            Some(value) => raw_value(fields@.map_values(|f: Field| f@), key@) == Some(value@),
            None => raw_value(fields@.map_values(|f: Field| f@), key@) is None,
        },
{
    let ghost views = fields@.map_values(|f: Field| f@);
    let mut j: usize = fields.len();
    assert(views.take(j as int) == views);
    while j > 0
        invariant
            0 <= j <= fields.len(),
            views == fields@.map_values(|f: Field| f@),
            raw_value(views, key@) == raw_value(views.take(j as int), key@),
        decreases j,
    {
        j = j - 1;
        assert(views.take(j as int + 1).drop_last() == views.take(j as int));
        assert(views.take(j as int + 1).last() == fields@[j as int]@);
        if fields[j].name == *key {
            return Some(&fields[j].value);
        }
    }
    None
}

/// Turns the values of an entry's fields into text, as far as they are text.
fn field_texts(fields: &Vec<Field>) -> (pairs: Option<Vec<(String, String)>>)
    ensures
        pairs is Some <==> all_text(fields@.map_values(|f: Field| f@)),
        pairs matches Some(p) ==> pairs_view(p@) == text_fields(fields@.map_values(|f: Field| f@)),
{
    let ghost views = fields@.map_values(|f: Field| f@);
    let mut pairs: Vec<(String, String)> = Vec::new();
    let mut j: usize = 0;
    while j < fields.len()
        invariant
            0 <= j <= fields.len(),
            views == fields@.map_values(|f: Field| f@),
            all_text(views.take(j as int)),
            pairs_view(pairs@) == text_fields(views.take(j as int)),
        decreases fields.len() - j,
    {
        match text_of(&fields[j].value) {
            Ok(text) => {
                let ghost before = pairs@;
                pairs.push((fields[j].name.clone(), text));
                proof {
                    assert(views.take(j as int + 1) == views.take(j as int).push(views[j as int]));
                    assert(pairs_view(pairs@) == pairs_view(before).push((views[j as int].name, decode_utf8(views[j as int].value))));
                    assert(text_fields(views.take(j as int + 1)) == text_fields(views.take(j as int)).push(
                        (views[j as int].name, decode_utf8(views[j as int].value)),
                    ));
                }
            },
            Err(_) => {
                assert(!valid_utf8(views[j as int].value));
                return None;
            },
        }
        j = j + 1;
    }
    assert(views.take(j as int) == views);
    Some(pairs)
}

/// Appends to `out` what printing one entry puts out, and tells whether the
/// entry was printed in full.
fn print_entry(entry: &Entry, as_json: bool, raw_key: &Option<String>, out: &mut Vec<String>) -> (complete:
    bool)
    ensures
        complete == entry_output(entry@, as_json, option_text(*raw_key)).complete,
        texts(final(out)@) == texts(old(out)@) + entry_output(entry@, as_json, option_text(*raw_key)).lines,
{
    let ghost before = out@;
    match raw_key {
        Some(key) => match find_raw(&entry.fields, key) {
            Some(value) => match text_of(value) {
                Ok(text) => {
                    out.push(text);
                    assert(texts(out@) == texts(before) + seq![decode_utf8(value@)]);
                    true
                },
                Err(_) => {
                    assert(texts(out@) == texts(before) + Seq::<Seq<char>>::empty());
                    false
                },
            },
            None => {
                out.push("null".to_owned());
                assert(texts(out@) == texts(before) + seq!["null"@]);
                true
            },
        },
        None => {
            let pairs = field_texts(&entry.fields);
            if as_json {
                match pairs {
                    Some(p) => {
                        let line = structured_record("id", entry.id.as_str(), "map", &p);
                        out.push(line);
                        assert(texts(out@) == texts(before) + seq![line@]);
                        true
                    },
                    None => {
                        assert(texts(out@) == texts(before) + Seq::<Seq<char>>::empty());
                        false
                    },
                }
            } else {
                let mut first = "ID: ".to_owned();
                first.append(entry.id.as_str());
                out.push(first);
                assert(texts(out@) == texts(before) + seq![id_line(entry@.id)]);
                match pairs {
                    Some(p) => {
                        let ghost shown = text_fields(entry@.fields);
                        let mut j: usize = 0;
                        while j < p.len()
                            invariant
                                0 <= j <= p.len(),
                                pairs_view(p@) == shown,
                                texts(out@) == texts(before) + (seq![id_line(entry@.id)] + shown.take(
                                    j as int,
                                ).map_values(|f: (Seq<char>, Seq<char>)| field_line(f))),
                            decreases p.len() - j,
                        {
                            let ghost so_far = out@;
                            let mut line = "  ".to_owned();
                            line.append(p[j].0.as_str());
                            line.append(" => ");
                            line.append(p[j].1.as_str());
                            out.push(line);
                            proof {
                                assert(pairs_view(p@)[j as int] == (p@[j as int].0@, p@[j as int].1@));
                                assert(line@ == field_line(shown[j as int]));
                                assert(texts(out@) == texts(so_far).push(line@));
                                assert(shown.take(j as int + 1).map_values(
                                    |f: (Seq<char>, Seq<char>)| field_line(f),
                                ) == shown.take(j as int).map_values(
                                    |f: (Seq<char>, Seq<char>)| field_line(f),
                                ).push(field_line(shown[j as int])));
                            }
                            j = j + 1;
                        }
                        assert(shown.take(j as int) == shown);
                        true
                    },
                    None => false,
                }
            }
        },
    }
}

/// Builds the read that follows `last_id` for the printing command.
pub fn xread(last_id: &str, config: &StreamTailArgs) -> (request: ReadRequest)
    ensures
        request@ == request_for(
            last_id@,
            config.stream@,
            option_text(config.group),
            option_text(config.consumer),
            config.block_ms,
            config.count,
        ),
{
    read_request(last_id, &config.stream, &config.group, &config.consumer, config.block_ms, config.count)
}

/// Renders a batch for standard output, one element per line.
///
/// The entries are taken in arrival order. With a raw key each entry gives
/// one line, the text of that field or `null`; otherwise each entry gives one
/// structured record (`as_json`) or a block of plain text. The result is a
/// function of the arguments alone: the same batch gives the same lines every
/// time. Where a value that has to be shown is no valid UTF-8, the result is
/// an error that carries the lines up to that value.
pub fn print_stream_read_reply(reply: &Batch, as_json: bool, raw_key: Option<&str>) -> (printed: Result<
    Vec<String>,
    PrintError,
>)
    ensures
        printed is Ok <==> entries_output(all_entries(reply@), as_json, option_str_text(raw_key)).complete,
        match printed {
            Ok(lines) => texts(lines@) == entries_output(all_entries(reply@), as_json, option_str_text(raw_key)).lines,
            Err(e) => texts(e.printed@) == entries_output(
                all_entries(reply@),
                as_json,
                option_str_text(raw_key),
            ).lines,
        },
{
    let key: Option<String> = match raw_key {
        Some(k) => Some(k.to_owned()),
        None => None,
    };
    let ghost kv = option_str_text(raw_key);
    assert(option_text(key) == kv);
    let mut out: Vec<String> = Vec::new();
    let mut i: usize = 0;
    assert(texts(out@) == Seq::<Seq<char>>::empty());
    while i < reply.streams.len()
        invariant
            0 <= i <= reply.streams.len(),
            option_text(key) == kv,
            kv == option_str_text(raw_key),
            entries_output(all_entries(reply@.take(i as int)), as_json, kv).complete,
            texts(out@) == entries_output(all_entries(reply@.take(i as int)), as_json, kv).lines,
        decreases reply.streams.len() - i,
    {
        let entries = &reply.streams[i].entries;
        let ghost done = all_entries(reply@.take(i as int));
        let ghost views = reply@[i as int].entries;
        proof {
            lemma_all_entries_step(reply@, i as int);
            assert(done + views.take(0) == done);
        }
        let mut j: usize = 0;
        while j < entries.len()
            invariant
                0 <= i < reply.streams.len(),
                0 <= j <= entries.len(),
                option_text(key) == kv,
                kv == option_str_text(raw_key),
                done == all_entries(reply@.take(i as int)),
                views == reply@[i as int].entries,
                views == entries@.map_values(|e: Entry| e@),
                entries_output(done + views.take(j as int), as_json, kv).complete,
                texts(out@) == entries_output(done + views.take(j as int), as_json, kv).lines,
            decreases entries.len() - j,
        {
            proof {
                let next = done + views.take(j as int + 1);
                assert(next.drop_last() == done + views.take(j as int));
                assert(next.last() == entries@[j as int]@);
            }
            let complete = print_entry(&entries[j], as_json, &key, &mut out);
            if !complete {
                proof {
                    lemma_all_entries_prefix_output(reply@, i as int, j as int + 1, as_json, kv);
                }
                return Err(PrintError { printed: out });
            }
            j = j + 1;
        }
        assert(views.take(j as int) == views);
        i = i + 1;
    }
    assert(reply@.take(i as int) == reply@);
    Ok(out)
}

/// A batch without entries prints nothing, and prints it in full.
pub proof fn lemma_empty_batch_prints_nothing(
    streams: Seq<crate::stream::StreamView>,
    as_json: bool,
    raw_key: Option<Seq<char>>,
)
    requires
        all_entries(streams).len() == 0,
    ensures
        entries_output(all_entries(streams), as_json, raw_key).complete,
        entries_output(all_entries(streams), as_json, raw_key).lines == Seq::<Seq<char>>::empty(),
{
}

/// Once an entry is incomplete, the entries after it add nothing.
pub proof fn lemma_output_stops(
    head: Seq<EntryView>,
    tail: Seq<EntryView>,
    as_json: bool,
    raw_key: Option<Seq<char>>,
)
    requires
        !entries_output(head, as_json, raw_key).complete,
    ensures
        entries_output(head + tail, as_json, raw_key) == entries_output(head, as_json, raw_key),
    decreases tail.len(),
{
    if tail.len() == 0 {
        assert(head + tail == head);
    } else {
        lemma_output_stops(head, tail.drop_last(), as_json, raw_key);
        assert((head + tail).drop_last() == head + tail.drop_last());
    }
}

proof fn lemma_all_entries_prefix_output(
    streams: Seq<crate::stream::StreamView>,
    i: int,
    j: int,
    as_json: bool,
    raw_key: Option<Seq<char>>,
)
    requires
        0 <= i < streams.len(),
        0 <= j <= streams[i].entries.len(),
        !entries_output(all_entries(streams.take(i)) + streams[i].entries.take(j), as_json, raw_key).complete,
    ensures
        entries_output(all_entries(streams), as_json, raw_key) == entries_output(
            all_entries(streams.take(i)) + streams[i].entries.take(j),
            as_json,
            raw_key,
        ),
{
    let head = all_entries(streams.take(i)) + streams[i].entries.take(j);
    let rest = streams[i].entries.skip(j);
    lemma_all_entries_step(streams, i);
    assert(head + rest == all_entries(streams.take(i + 1))) by {
        assert(streams[i].entries.take(j) + rest == streams[i].entries);
    }
    lemma_output_stops(head, rest, as_json, raw_key);
    crate::stream::lemma_all_entries_prefix(streams, i + 1);
    let whole = all_entries(streams);
    let first = all_entries(streams.take(i + 1));
    let after = whole.skip(first.len() as int);
    assert(first + after == whole);
    lemma_output_stops(first, after, as_json, raw_key);
}

} // verus!
