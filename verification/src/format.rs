//! Payload formatting.
//!
//! A [`PayloadFormat`] turns one record, together with the rendered timestamp
//! when timestamps are active, into the single text that is handed to the
//! call target.  The sink holds exactly one formatter at a time; installing a
//! custom one replaces the default entirely rather than composing with it.
//!
//! The default is [`JsonFormat`]: a JSON object whose members appear in a
//! fixed order, with absent fields omitted entirely.  Only the message text
//! is escaped (backslash and double quote); keys, values and the other
//! members are embedded as they are, a documented limitation for texts that
//! hold characters such as control characters.

use vstd::prelude::*;
use vstd::string::*;

use crate::level::{spec_level_name, Level};
use crate::record::{Record, RecordModel};
use crate::text::{append_escaped, push_char, spec_dec, spec_escape, u64_to_dec};

verus! {

/// The view of an optional borrowed text.
pub open spec fn spec_opt_text(t: Option<&str>) -> Option<Seq<char>> {
    match t {
        Some(s) => Some(s@),
        None => None,
    }
}

/// The `ts` member of the payload; empty when timestamps are inactive.
pub open spec fn spec_ts_member(ts: Option<Seq<char>>) -> Seq<char> {
    match ts {
        Some(t) => "\"ts\":\""@ + t + "\","@,
        None => Seq::empty(),
    }
}

/// The `level` member of the payload: the upper-case level name.
pub open spec fn spec_level_member(l: Level) -> Seq<char> {
    "\"level\":\""@ + spec_level_name(l) + "\","@
}

/// The `file` member of the payload; empty when the source file is unknown.
pub open spec fn spec_file_member(f: Option<Seq<char>>) -> Seq<char> {
    match f {
        Some(f) => "\"file\":\""@ + f + "\","@,
        None => Seq::empty(),
    }
}

/// The `line` member of the payload, rendered as a quoted decimal; empty
/// when the source line is unknown.
pub open spec fn spec_line_member(l: Option<u32>) -> Seq<char> {
    match l {
        Some(n) => "\"line\":\""@ + spec_dec(n as nat) + "\","@,
        None => Seq::empty(),
    }
}

/// The module-path member of the payload; empty when the module is unknown.
pub open spec fn spec_module_member(m: Option<Seq<char>>) -> Seq<char> {
    match m {
        Some(m) => "\"module_path\":\""@ + m + "\","@,
        None => Seq::empty(),
    }
}

/// The members contributed by the record's key-value pairs, in stored order,
/// each rendered as a quoted key and a quoted value.
pub open spec fn spec_kv_members(kvs: Seq<(Seq<char>, Seq<char>)>) -> Seq<char>
    decreases kvs.len(),
{
    if kvs.len() == 0 {
        Seq::empty()
    } else {
        spec_kv_members(kvs.drop_last()) + "\""@ + kvs.last().0 + "\":\""@ + kvs.last().1
            + "\","@
    }
}

/// The final `msg` member: the message with backslash and double quote
/// escaped, and nothing else altered.
pub open spec fn spec_msg_member(m: Seq<char>) -> Seq<char> {
    "\"msg\":\""@ + spec_escape(m) + "\""@
}

/// The default JSON payload for one record: every member in its fixed place,
/// absent fields omitted entirely.
pub open spec fn spec_json_payload(ts: Option<Seq<char>>, r: RecordModel) -> Seq<char> {
    seq!['{'] + spec_ts_member(ts) + spec_level_member(r.level) + spec_file_member(r.file)
        + spec_line_member(r.line) + spec_module_member(r.module)
        + spec_kv_members(r.key_values) + spec_msg_member(r.message) + seq!['}']
}

/// Appends the `ts` member for `timestamp`.
fn append_ts_member(out: &mut String, timestamp: Option<&str>)
    ensures
        final(out)@ == old(out)@ + spec_ts_member(spec_opt_text(timestamp)),
{
    match timestamp {
        Some(t) => {
            out.append("\"ts\":\"");
            out.append(t);
            out.append("\",");
        },
        None => {},
    }
}

/// Appends the `level` member for `l`.
fn append_level_member(out: &mut String, l: Level)
    ensures
        final(out)@ == old(out)@ + spec_level_member(l),
{
    out.append("\"level\":\"");
    out.append(l.name());
    out.append("\",");
}

/// Appends the `file` member for `f`.
fn append_file_member(out: &mut String, f: &Option<String>)
    ensures
        final(out)@ == old(out)@ + spec_file_member(f.deep_view()),
{
    match f {
        Some(f) => {
            out.append("\"file\":\"");
            out.append(f.as_str());
            out.append("\",");
        },
        None => {},
    }
}

/// Appends the `line` member for `l`.
fn append_line_member(out: &mut String, l: Option<u32>)
    ensures
        final(out)@ == old(out)@ + spec_line_member(l),
{
    match l {
        Some(n) => {
            out.append("\"line\":\"");
            let digits = u64_to_dec(n as u64);
            out.append(digits.as_str());
            out.append("\",");
        },
        None => {},
    }
}

/// Appends the module-path member for `m`.
fn append_module_member(out: &mut String, m: &Option<String>)
    ensures
        final(out)@ == old(out)@ + spec_module_member(m.deep_view()),
{
    match m {
        Some(m) => {
            out.append("\"module_path\":\"");
            out.append(m.as_str());
            out.append("\",");
        },
        None => {},
    }
}

/// Appends one member per key-value pair, in stored order.
fn append_kv_members(out: &mut String, kvs: &Vec<(String, String)>)
    ensures
        final(out)@ == old(out)@ + spec_kv_members(kvs.deep_view()),
{
    let n = kvs.len();
    let mut i: usize = 0;
    while i < n
        invariant
            n == kvs.len(),
            0 <= i <= n,
            kvs.deep_view().len() == n,
            out@ == old(out)@ + spec_kv_members(kvs.deep_view().take(i as int)),
        decreases n - i,
    {
        out.append("\"");
        out.append(kvs[i].0.as_str());
        out.append("\":\"");
        out.append(kvs[i].1.as_str());
        out.append("\",");
        proof {
            let dv = kvs.deep_view();
            assert(dv.take(i + 1).drop_last() =~= dv.take(i as int));
            assert(dv.take(i + 1).last() == dv[i as int]);
            assert(kvs@[i as int].deep_view() == dv[i as int]);
            assert(out@ =~= old(out)@ + spec_kv_members(dv.take(i + 1)));
        }
        i += 1;
    }
    proof {
        assert(kvs.deep_view().take(n as int) =~= kvs.deep_view());
    }
}

/// Appends the final `msg` member for `m`.
fn append_msg_member(out: &mut String, m: &str)
    ensures
        final(out)@ == old(out)@ + spec_msg_member(m@),
{
    out.append("\"msg\":\"");
    append_escaped(out, m);
    out.append("\"");
}

/// Renders the default JSON payload for `record`.
pub fn json_formatter(timestamp: Option<&str>, record: &Record) -> (r: String)
    ensures
        r@ == spec_json_payload(spec_opt_text(timestamp), record@),
{
    let mut out = String::new();
    push_char(&mut out, '{');
    append_ts_member(&mut out, timestamp);
    append_level_member(&mut out, record.level);
    append_file_member(&mut out, &record.file);
    append_line_member(&mut out, record.line);
    append_module_member(&mut out, &record.module);
    append_kv_members(&mut out, &record.key_values);
    append_msg_member(&mut out, record.message.as_str());
    push_char(&mut out, '}');
    proof {
        assert(out@ =~= spec_json_payload(spec_opt_text(timestamp), record@));
    }
    out
}

/// A pluggable payload formatter.
///
/// Exactly one formatter is active on a sink at a time; a custom formatter
/// fully replaces the default.  An implementation states its exact output as
/// [`PayloadFormat::spec_format`] and proves its rendering against it.
pub trait PayloadFormat {
    /// The output promised for the given timestamp and record content.
    spec fn spec_format(&self, ts: Option<Seq<char>>, r: RecordModel) -> Seq<char>;

    /// Renders the payload for one record.
    fn format(&self, timestamp: Option<&str>, record: &Record) -> (r: String)
        ensures
            r@ == self.spec_format(spec_opt_text(timestamp), record@),
    ;
}

/// The built-in JSON formatter, the default of a freshly built sink.
pub struct JsonFormat;

impl PayloadFormat for JsonFormat {
    open spec fn spec_format(&self, ts: Option<Seq<char>>, r: RecordModel) -> Seq<char> {
        spec_json_payload(ts, r)
    }

    fn format(&self, timestamp: Option<&str>, record: &Record) -> (r: String) {
        json_formatter(timestamp, record)
    }
}

} // verus!
