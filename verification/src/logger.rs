//! The sink's configuration and its dispatch engine.
//!
//! A [`CallLogger`] accumulates immutable configuration through chained
//! setters and is then frozen.  For each record, the engine decides whether
//! the record passes the level filter, renders the payload, and routes it to
//! exactly one delivery mechanism, chosen deterministically from the call
//! target's shape: an `http://` or `https://` target is posted to, any other
//! target names a program to spawn.  The decision is returned as a
//! [`Dispatch`]; performing it (spawning, posting, capturing output,
//! printing diagnostics) is the surrounding process's part, and every
//! delivery failure there stays non-fatal.

use vstd::prelude::*;
use vstd::string::*;

use crate::dispatch::{
    build_argv, http_echo_line, spawn_echo_line, spec_argv, spec_http_echo_line,
    spec_http_guarded, spec_is_url, spec_spawn_echo_line, Action, ActionModel, Dispatch,
    DispatchModel,
};
use crate::format::{spec_opt_text, JsonFormat, PayloadFormat};
use crate::level::{filter_rank, level_passes, level_rank, spec_filter_name, Level, LevelFilter};
use crate::record::{Metadata, Record, RecordModel};
use crate::timestamp::{render_timestamp, spec_timestamp_ok, spec_ts_format_name, TimestampFormat};
use crate::text::{spec_contains, str_contains, str_starts_with};

verus! {

/// A log sink that calls another program, or posts to a web service, for
/// each record that passes its level filter.
///
/// `F` is the active payload formatter; a freshly built sink uses
/// [`JsonFormat`].
pub struct CallLogger<F> {
    /// The global default threshold.
    pub level: LevelFilter,
    /// Per-target overrides, kept in registration order; the first entry
    /// whose substring occurs in a record's target wins.
    pub levels: Vec<(String, LevelFilter)>,
    /// The call target: either a whitespace-separated command line
    /// (optionally holding a `{}` placeholder token) or an HTTP(S) URL.
    pub call_target: String,
    /// The timestamp representation, when timestamps are active.
    pub timestamp: Option<TimestampFormat>,
    /// A custom strftime-style pattern for the calendar representations.
    pub timestamp_pattern: Option<String>,
    /// When set, captured standard output of the spawned process is written
    /// over this file after each invocation.
    pub file: Option<String>,
    /// The active payload formatter.
    pub formatter: F,
    /// When set, the resolved invocation is printed before dispatch.
    pub echo: bool,
}

impl<F> CallLogger<F> {
    /// The override sequence as (substring, threshold) pairs.
    pub open spec fn spec_overrides(&self) -> Seq<(Seq<char>, LevelFilter)> {
        self.levels.deep_view()
    }

    /// The first override in `overrides` whose substring occurs in
    /// `target`, if any.
    pub open spec fn spec_first_match(
        overrides: Seq<(Seq<char>, LevelFilter)>,
        target: Seq<char>,
    ) -> Option<LevelFilter>
        decreases overrides.len(),
    {
        if overrides.len() == 0 {
            None
        } else if spec_contains(target, overrides[0].0) {
            Some(overrides[0].1)
        } else {
            Self::spec_first_match(overrides.drop_first(), target)
        }
    }

    /// The effective threshold for a record with the given target: the first
    /// matching override, or the global threshold when none matches.
    pub open spec fn spec_effective_level(&self, target: Seq<char>) -> LevelFilter {
        match Self::spec_first_match(self.spec_overrides(), target) {
            Some(f) => f,
            None => self.level,
        }
    }

    /// A record at `level` with the given `target` passes the filter.
    pub open spec fn spec_enabled(&self, level: Level, target: Seq<char>) -> bool {
        level_passes(level, self.spec_effective_level(target))
    }

    /// The maximum level that will be logged, for records whose target does
    /// not match any override.
    #[must_use]
    pub fn with_level(self, level: LevelFilter) -> (r: Self)
        ensures
            r == (Self { level, ..self }),
    {
        Self { level, ..self }
    }

    /// Adds a per-target override: the maximum level for records whose
    /// target or module path contains `target` as a substring.
    #[must_use]
    pub fn with_level_for(self, target: &str, level: LevelFilter) -> (r: Self)
        ensures
            r.levels.deep_view() == self.levels.deep_view().push((target@, level)),
            r == (Self { levels: r.levels, ..self }),
    {
        let mut levels = self.levels;
        levels.push((target.to_owned(), level));
        proof {
            assert(levels.deep_view() =~= self.levels.deep_view().push((target@, level)));
        }
        Self { levels, ..self }
    }

    /// Sets the command line, script or URL that is called with the payload
    /// of each accepted record.
    #[must_use]
    pub fn with_call_target(self, call_target: &str) -> (r: Self)
        ensures
            r.call_target@ == call_target@,
            r == (Self { call_target: r.call_target, ..self }),
    {
        Self { call_target: call_target.to_owned(), ..self }
    }

    /// Renders timestamps as milliseconds since the UNIX epoch.
    #[must_use]
    pub fn with_epoch_ms_timestamp(self) -> (r: Self)
        ensures
            r == (Self { timestamp: Some(TimestampFormat::UtcEpochMs), ..self }),
    {
        Self { timestamp: Some(TimestampFormat::UtcEpochMs), ..self }
    }

    /// Renders timestamps as microseconds since the UNIX epoch.
    #[must_use]
    pub fn with_epoch_us_timestamp(self) -> (r: Self)
        ensures
            r == (Self { timestamp: Some(TimestampFormat::UtcEpochUs), ..self }),
    {
        Self { timestamp: Some(TimestampFormat::UtcEpochUs), ..self }
    }

    /// Renders timestamps in RFC 3339, in the UTC timezone.
    #[must_use]
    pub fn with_utc_timestamp(self) -> (r: Self)
        ensures
            r == (Self { timestamp: Some(TimestampFormat::Utc), ..self }),
    {
        Self { timestamp: Some(TimestampFormat::Utc), ..self }
    }

    /// Renders timestamps in RFC 3339, in the machine's local timezone.
    #[must_use]
    pub fn with_local_timestamp(self) -> (r: Self)
        ensures
            r == (Self { timestamp: Some(TimestampFormat::Local), ..self }),
    {
        Self { timestamp: Some(TimestampFormat::Local), ..self }
    }

    /// Renders timestamps in the given representation under a custom
    /// strftime-style pattern (consulted by the calendar representations).
    #[must_use]
    pub fn with_formatted_timestamp(self, format: TimestampFormat, pattern: &str) -> (r: Self)
        ensures
            r.timestamp_pattern matches Some(p) && p@ == pattern@,
            r == (Self {
                timestamp: Some(format),
                timestamp_pattern: r.timestamp_pattern,
                ..self
            }),
    {
        Self { timestamp: Some(format), timestamp_pattern: Some(pattern.to_owned()), ..self }
    }

    /// Prints each resolved invocation before performing it, for debugging.
    #[must_use]
    pub fn echo(self) -> (r: Self)
        ensures
            r == (Self { echo: true, ..self }),
    {
        Self { echo: true, ..self }
    }

    /// Writes the captured standard output of each call over the named file.
    #[must_use]
    pub fn to_file(self, file: &str) -> (r: Self)
        ensures
            r.file matches Some(f) && f@ == file@,
            r == (Self { file: r.file, ..self }),
    {
        Self { file: Some(file.to_owned()), ..self }
    }

    /// Replaces the active formatter; the new one fully replaces the old.
    #[must_use]
    pub fn format<G>(self, formatter: G) -> (r: CallLogger<G>)
        ensures
            r == (CallLogger {
                level: self.level,
                levels: self.levels,
                call_target: self.call_target,
                timestamp: self.timestamp,
                timestamp_pattern: self.timestamp_pattern,
                file: self.file,
                formatter,
                echo: self.echo,
            }),
    {
        CallLogger {
            level: self.level,
            levels: self.levels,
            call_target: self.call_target,
            timestamp: self.timestamp,
            timestamp_pattern: self.timestamp_pattern,
            file: self.file,
            formatter,
            echo: self.echo,
        }
    }

    /// The effective threshold for a record with the given target.
    pub fn get_level_for_module(&self, target: &str) -> (r: LevelFilter)
        ensures
            r == self.spec_effective_level(target@),
    {
        let n = self.levels.len();
        let mut i: usize = 0;
        proof {
            assert(self.spec_overrides().skip(0) =~= self.spec_overrides());
        }
        while i < n
            invariant
                n == self.levels.len(),
                0 <= i <= n,
                self.spec_overrides().len() == n,
                Self::spec_first_match(self.spec_overrides(), target@) == Self::spec_first_match(
                    self.spec_overrides().skip(i as int),
                    target@,
                ),
            decreases n - i,
        {
            let ghost ov = self.spec_overrides();
            if str_contains(target, self.levels[i].0.as_str()) {
                proof {
                    assert(ov.skip(i as int)[0] == ov[i as int]);
                    assert(self.levels@[i as int].deep_view() == ov[i as int]);
                }
                return self.levels[i].1;
            }
            proof {
                assert(ov.skip(i as int)[0] == ov[i as int]);
                assert(self.levels@[i as int].deep_view() == ov[i as int]);
                assert(ov.skip(i as int).drop_first() =~= ov.skip(i + 1));
            }
            i += 1;
        }
        self.level
    }

    /// Whether a record with the given metadata passes the filter.  This
    /// gate runs before any formatting or delivery cost is paid.
    pub fn enabled(&self, metadata: &Metadata) -> (r: bool)
        ensures
            r == self.spec_enabled(metadata.level, metadata.target@),
    {
        let effective = self.get_level_for_module(metadata.target.as_str());
        metadata.level.passes(effective)
    }

    /// Renders the instant `now_us` (microseconds since the UNIX epoch) in
    /// this sink's timestamp representation; the empty text when timestamps
    /// are inactive.
    pub fn format_timestamp(&self, now_us: u64) -> (r: String)
        ensures
            self.timestamp matches Some(mode) ==> spec_timestamp_ok(
                mode,
                self.timestamp_pattern.deep_view(),
                now_us,
                r@,
            ),
            self.timestamp is None ==> r@ == Seq::<char>::empty(),
    {
        match &self.timestamp {
            Some(mode) => render_timestamp(*mode, &self.timestamp_pattern, now_us),
            None => String::new(),
        }
    }

    /// The description of this sink's configuration.
    pub open spec fn spec_describe(&self) -> Seq<char> {
        "CallLogger { call-target: \""@ + self.call_target@ + "\", level: "@ + spec_filter_name(
            self.level,
        ) + ", levels: {"@ + spec_override_entries(self.spec_overrides()) + "}, echo: "@
            + spec_bool_name(self.echo) + ", file: "@ + spec_opt_quoted(self.file.deep_view())
            + ", timestamp: "@ + spec_opt_ts_name(self.timestamp) + ", timestamp_pattern: "@
            + spec_opt_quoted(self.timestamp_pattern.deep_view()) + " }"@
    }

    /// Describes this sink's configuration, one field after the other, for
    /// diagnostics.
    pub fn describe(&self) -> (r: String)
        ensures
            r@ == self.spec_describe(),
    {
        let mut out = String::new();
        out.append("CallLogger { call-target: \"");
        out.append(self.call_target.as_str());
        out.append("\", level: ");
        out.append(self.level.name());
        out.append(", levels: {");
        append_override_entries(&mut out, &self.levels);
        out.append("}, echo: ");
        out.append(if self.echo { "true" } else { "false" });
        out.append(", file: ");
        append_opt_quoted(&mut out, &self.file);
        out.append(", timestamp: ");
        match &self.timestamp {
            Some(mode) => {
                out.append("Some(");
                out.append(mode.name());
                out.append(")");
            },
            None => out.append("None"),
        }
        out.append(", timestamp_pattern: ");
        append_opt_quoted(&mut out, &self.timestamp_pattern);
        out.append(" }");
        proof {
            assert(out@ =~= self.spec_describe());
        }
        out
    }
}

/// The textual name of a truth value.
pub open spec fn spec_bool_name(b: bool) -> Seq<char> {
    if b {
        "true"@
    } else {
        "false"@
    }
}

/// An optional text, described as `None` or quoted inside `Some`.
pub open spec fn spec_opt_quoted(o: Option<Seq<char>>) -> Seq<char> {
    match o {
        Some(s) => "Some(\""@ + s + "\")"@,
        None => "None"@,
    }
}

/// An optional timestamp representation, described as `None` or by its name
/// inside `Some`.
pub open spec fn spec_opt_ts_name(o: Option<TimestampFormat>) -> Seq<char> {
    match o {
        Some(m) => "Some("@ + spec_ts_format_name(m) + ")"@,
        None => "None"@,
    }
}

/// One override entry in the configuration description: the quoted
/// substring, a colon, and the threshold name.
pub open spec fn spec_override_entry(e: (Seq<char>, LevelFilter)) -> Seq<char> {
    "\""@ + e.0 + "\": "@ + spec_filter_name(e.1)
}

/// The override entries in registration order, separated by commas.
pub open spec fn spec_override_entries(ov: Seq<(Seq<char>, LevelFilter)>) -> Seq<char>
    decreases ov.len(),
{
    if ov.len() == 0 {
        Seq::empty()
    } else if ov.len() == 1 {
        spec_override_entry(ov[0])
    } else {
        spec_override_entries(ov.drop_last()) + ", "@ + spec_override_entry(ov.last())
    }
}

/// Appends the override entries to the configuration description.
fn append_override_entries(out: &mut String, levels: &Vec<(String, LevelFilter)>)
    ensures
        final(out)@ == old(out)@ + spec_override_entries(levels.deep_view()),
{
    let n = levels.len();
    let mut i: usize = 0;
    while i < n
        invariant
            n == levels.len(),
            levels.deep_view().len() == n,
            0 <= i <= n,
            out@ == old(out)@ + spec_override_entries(levels.deep_view().take(i as int)),
        decreases n - i,
    {
        if i > 0 {
            out.append(", ");
        }
        out.append("\"");
        out.append(levels[i].0.as_str());
        out.append("\": ");
        out.append(levels[i].1.name());
        proof {
            let dv = levels.deep_view();
            assert(dv.take(i + 1).drop_last() =~= dv.take(i as int));
            assert(dv.take(i + 1).last() == dv[i as int]);
            assert(levels@[i as int].deep_view() == dv[i as int]);
            if i == 0 {
                assert(out@ =~= old(out)@ + spec_override_entries(dv.take(1)));
            } else {
                assert(out@ =~= old(out)@ + spec_override_entries(dv.take(i + 1)));
            }
        }
        i += 1;
    }
    proof {
        assert(levels.deep_view().take(n as int) =~= levels.deep_view());
    }
}

/// Appends an optional text, quoted inside `Some`, to the configuration
/// description.
fn append_opt_quoted(out: &mut String, o: &Option<String>)
    ensures
        final(out)@ == old(out)@ + spec_opt_quoted(o.deep_view()),
{
    match o {
        Some(s) => {
            out.append("Some(\"");
            out.append(s.as_str());
            out.append("\")");
        },
        None => out.append("None"),
    }
}

impl<F: PayloadFormat> CallLogger<F> {
    /// The decision for one record, given the timestamp text handed to the
    /// formatter (absent when timestamps are inactive).
    ///
    /// A record that does not pass the filter is skipped outright: no
    /// payload, no echo, no delivery.  Otherwise the payload is the active
    /// formatter's output, and the call target's shape picks the one
    /// delivery mechanism: an `http://` or `https://` target is posted to —
    /// unless the record comes from the HTTP client's own internals, where
    /// the post is suppressed — and any other target is spawned, with the
    /// payload substituted into its argument list and the capture file
    /// passed along.
    pub open spec fn spec_plan(&self, r: RecordModel, ts: Option<Seq<char>>) -> DispatchModel {
        if !self.spec_enabled(r.level, r.target) {
            DispatchModel { echo_line: None, action: ActionModel::Skip }
        } else {
            let payload = self.formatter.spec_format(ts, r);
            if spec_is_url(self.call_target@) {
                DispatchModel {
                    echo_line: if self.echo {
                        Some(spec_http_echo_line(self.call_target@, payload))
                    } else {
                        None
                    },
                    action: if spec_http_guarded(r.module) {
                        ActionModel::Skip
                    } else {
                        ActionModel::Post { url: self.call_target@, body: payload }
                    },
                }
            } else {
                let argv = spec_argv(self.call_target@, payload);
                DispatchModel {
                    echo_line: if self.echo {
                        Some(spec_spawn_echo_line(argv))
                    } else {
                        None
                    },
                    action: ActionModel::Spawn {
                        argv,
                        capture_file: self.file.deep_view(),
                    },
                }
            }
        }
    }

    /// Decides the dispatch of one record, given the rendered timestamp.
    pub fn plan(&self, record: &Record, timestamp: Option<&str>) -> (d: Dispatch)
        ensures
            d@ == self.spec_plan(record@, spec_opt_text(timestamp)),
    {
        if !self.enabled(&record.metadata()) {
            return Dispatch { echo_line: None, action: Action::Skip };
        }
        let payload = self.formatter.format(timestamp, record);
        let target = self.call_target.as_str();
        if str_starts_with(target, "http://") || str_starts_with(target, "https://") {
            let echo_line = if self.echo {
                Some(http_echo_line(target, payload.as_str()))
            } else {
                None
            };
            let guarded = match &record.module {
                Some(m) => str_starts_with(m.as_str(), "ureq::") || str_starts_with(
                    m.as_str(),
                    "rustls::",
                ),
                None => false,
            };
            let action = if guarded {
                Action::Skip
            } else {
                Action::Post { url: clone_string(&self.call_target), body: payload }
            };
            let d = Dispatch { echo_line, action };
            proof {
                assert(d@ =~~= self.spec_plan(record@, spec_opt_text(timestamp)));
            }
            d
        } else {
            let argv = build_argv(target, payload.as_str());
            let echo_line = if self.echo {
                Some(spawn_echo_line(&argv))
            } else {
                None
            };
            let capture_file = match &self.file {
                Some(f) => Some(clone_string(f)),
                None => None,
            };
            let d = Dispatch { echo_line, action: Action::Spawn { argv, capture_file } };
            proof {
                assert(d@ =~~= self.spec_plan(record@, spec_opt_text(timestamp)));
            }
            d
        }
    }

    /// Decides the dispatch of one record at the instant `now_us`
    /// (microseconds since the UNIX epoch), rendering the timestamp first
    /// when timestamps are active.
    pub fn dispatch(&self, record: &Record, now_us: u64) -> (d: Dispatch)
        ensures
            self.timestamp is None ==> d@ == self.spec_plan(record@, None),
            self.timestamp matches Some(mode) ==> exists|ts: Seq<char>|
                spec_timestamp_ok(mode, self.timestamp_pattern.deep_view(), now_us, ts) && d@
                    == self.spec_plan(record@, Some(ts)),
    {
        match &self.timestamp {
            Some(mode) => {
                let ts = render_timestamp(*mode, &self.timestamp_pattern, now_us);
                let d = self.plan(record, Some(ts.as_str()));
                proof {
                    assert(spec_timestamp_ok(
                        *mode,
                        self.timestamp_pattern.deep_view(),
                        now_us,
                        ts@,
                    ) && d@ == self.spec_plan(record@, Some(ts@)));
                }
                d
            },
            None => self.plan(record, None),
        }
    }
}

/// Clones a string.
fn clone_string(s: &String) -> (r: String)
    ensures
        r@ == s@,
{
    s.clone()
}

/// Filtering is exact: a record whose level lies strictly above the
/// effective threshold for its target is dispatched nowhere — nothing is
/// echoed, no process is spawned, no HTTP call is issued — whatever the
/// formatter, the timestamp and the rest of the configuration.
pub proof fn lemma_filtered_record_skips<F: PayloadFormat>(
    logger: CallLogger<F>,
    r: RecordModel,
    ts: Option<Seq<char>>,
)
    requires
        level_rank(r.level) > filter_rank(logger.spec_effective_level(r.target)),
    ensures
        logger.spec_plan(r, ts) == (DispatchModel { echo_line: None, action: ActionModel::Skip }),
{
}

/// Routing is exclusive: a call target with an HTTP(S) prefix never yields a
/// process spawn, and a call target without one never yields an HTTP post —
/// for every record, formatter and timestamp.
pub proof fn lemma_routing_exclusive<F: PayloadFormat>(
    logger: CallLogger<F>,
    r: RecordModel,
    ts: Option<Seq<char>>,
)
    ensures
        spec_is_url(logger.call_target@) ==> !(logger.spec_plan(r, ts).action is Spawn),
        !spec_is_url(logger.call_target@) ==> !(logger.spec_plan(r, ts).action is Post),
{
}

impl CallLogger<JsonFormat> {
    /// A sink with the default configuration: every level accepted, `echo`
    /// as the call target, the JSON formatter, timestamps inactive, no
    /// capture file, no echo.
    pub fn new() -> (r: CallLogger<JsonFormat>)
        ensures
            r.level == LevelFilter::Trace,
            r.levels.deep_view() == Seq::<(Seq<char>, LevelFilter)>::empty(),
            r.call_target@ == "echo"@,
            r.timestamp is None,
            r.timestamp_pattern is None,
            r.file is None,
            r.formatter == JsonFormat,
            r.echo == false,
    {
        let r = CallLogger {
            level: LevelFilter::Trace,
            levels: Vec::new(),
            call_target: "echo".to_owned(),
            timestamp: None,
            timestamp_pattern: None,
            file: None,
            formatter: JsonFormat,
            echo: false,
        };
        proof {
            assert(r.levels.deep_view() =~= Seq::<(Seq<char>, LevelFilter)>::empty());
        }
        r
    }
}

impl Default for CallLogger<JsonFormat> {
    /// The same sink as [`CallLogger::new`] builds.
    fn default() -> (r: CallLogger<JsonFormat>)
        ensures
            r.level == LevelFilter::Trace,
            r.levels.deep_view() == Seq::<(Seq<char>, LevelFilter)>::empty(),
            r.call_target@ == "echo"@,
            r.timestamp is None,
            r.timestamp_pattern is None,
            r.file is None,
            r.formatter == JsonFormat,
            r.echo == false,
    {
        CallLogger::new()
    }
}

} // verus!
