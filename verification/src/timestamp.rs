//! Timestamp rendering.
//!
//! Timestamps are an optional capability of the sink: when active, one of
//! several representations of the current instant is rendered and handed to
//! the payload formatter.  An instant is carried as the number of
//! microseconds since the UNIX epoch.  The two epoch representations are
//! rendered by verified decimal formatting; the calendar representations
//! rely on `chrono` behind trusted wrappers.

use vstd::prelude::*;
use std::fmt::Write;

use crate::text::{spec_dec, u64_to_dec};

verus! {

/// The representation used when rendering a timestamp.
#[derive(Clone, Copy, PartialEq, Eq, Structural, Debug)]
pub enum TimestampFormat {
    /// Milliseconds since the UNIX epoch, in decimal.
    UtcEpochMs,
    /// Microseconds since the UNIX epoch, in decimal.
    UtcEpochUs,
    /// RFC 3339, in the UTC timezone (or a custom pattern applied in UTC).
    Utc,
    /// RFC 3339, in the machine's local timezone (or a custom pattern
    /// applied in that timezone).
    Local,
}

/// The last microsecond of the year 9999: every instant up to here is well
/// inside the range that `chrono` can represent and render.
pub const MAX_RENDERABLE_US: u64 = 253402300799999999;

/// The RFC 3339 rendering of an instant in the UTC timezone.  The rendering
/// depends on the instant alone.
pub uninterp spec fn spec_rfc3339_utc(now_us: u64) -> Seq<char>;

/// The rendering of an instant in the UTC timezone under a strftime-style
/// pattern.  The rendering depends on the instant and the pattern alone.
pub uninterp spec fn spec_strftime_utc(now_us: u64, pattern: Seq<char>) -> Seq<char>;

/// Relies on `chrono::DateTime::<Utc>::from_timestamp_micros`, which yields
/// a datetime for every instant up to roughly 262,000 years from the common
/// era (so in particular up to [`MAX_RENDERABLE_US`]), and on
/// `chrono::DateTime::to_rfc3339`, whose output is determined by the
/// datetime.
#[verifier::external_body]
fn chrono_rfc3339_utc(now_us: u64) -> (r: Option<String>)
    ensures
        r matches Some(s) ==> s@ == spec_rfc3339_utc(now_us),
        now_us <= MAX_RENDERABLE_US ==> r is Some,
{
    let micros = i64::try_from(now_us).ok()?;
    let dt = chrono::DateTime::<chrono::Utc>::from_timestamp_micros(micros)?;
    Some(dt.to_rfc3339())
}

/// Relies on `chrono::DateTime::<Utc>::from_timestamp_micros` (as above) and
/// on `chrono::DateTime::format`, whose rendering is determined by the
/// datetime and the pattern; an unrenderable pattern reports a formatting
/// error, surfaced here as `None`.
#[verifier::external_body]
fn chrono_strftime_utc(now_us: u64, pattern: &str) -> (r: Option<String>)
    ensures
        r matches Some(s) ==> s@ == spec_strftime_utc(now_us, pattern@),
{
    let micros = i64::try_from(now_us).ok()?;
    let dt = chrono::DateTime::<chrono::Utc>::from_timestamp_micros(micros)?;
    let mut out = String::new();
    match write!(out, "{}", dt.format(pattern)) {
        Ok(()) => Some(out),
        Err(_) => None,
    }
}

/// Relies on `chrono::DateTime::<Utc>::from_timestamp_micros` (as above),
/// `chrono::DateTime::with_timezone` and `chrono::DateTime::to_rfc3339`.
/// The output depends on the machine's timezone, so nothing is stated about
/// its content.
#[verifier::external_body]
fn chrono_rfc3339_local(now_us: u64) -> (r: Option<String>)
    ensures
        now_us <= MAX_RENDERABLE_US ==> r is Some,
{
    let micros = i64::try_from(now_us).ok()?;
    let dt = chrono::DateTime::<chrono::Utc>::from_timestamp_micros(micros)?;
    Some(dt.with_timezone(&chrono::Local).to_rfc3339())
}

/// Relies on the same `chrono` functions as the two wrappers above.  The
/// output depends on the machine's timezone, so nothing is stated about its
/// content.
#[verifier::external_body]
fn chrono_strftime_local(now_us: u64, pattern: &str) -> (r: Option<String>)
{
    let micros = i64::try_from(now_us).ok()?;
    let dt = chrono::DateTime::<chrono::Utc>::from_timestamp_micros(micros)?;
    let local = dt.with_timezone(&chrono::Local);
    let mut out = String::new();
    match write!(out, "{}", local.format(pattern)) {
        Ok(()) => Some(out),
        Err(_) => None,
    }
}

/// What a rendered timestamp can be, given the chosen representation, the
/// optional custom pattern, and the instant.
///
/// The epoch representations are pinned exactly.  The UTC calendar
/// representations are pinned through their named renderings, with the empty
/// text as the documented fallback when `chrono` cannot render (an instant
/// past [`MAX_RENDERABLE_US`], or an unrenderable pattern).  A local-time
/// rendering depends on the machine's timezone, so nothing is promised of
/// it.
pub open spec fn spec_timestamp_ok(
    mode: TimestampFormat,
    pattern: Option<Seq<char>>,
    now_us: u64,
    out: Seq<char>,
) -> bool {
    match mode {
        TimestampFormat::UtcEpochMs => out == spec_dec((now_us / 1000) as nat),
        TimestampFormat::UtcEpochUs => out == spec_dec(now_us as nat),
        TimestampFormat::Utc => match pattern {
            None => out == spec_rfc3339_utc(now_us) || (now_us > MAX_RENDERABLE_US && out
                == Seq::<char>::empty()),
            Some(p) => out == spec_strftime_utc(now_us, p) || out == Seq::<char>::empty(),
        },
        TimestampFormat::Local => true,
    }
}

/// Renders the instant `now_us` in the representation `mode`, consulting the
/// custom `pattern` for the calendar representations.
pub fn render_timestamp(mode: TimestampFormat, pattern: &Option<String>, now_us: u64) -> (r:
    String)
    ensures
        spec_timestamp_ok(mode, pattern.deep_view(), now_us, r@),
{
    match mode {
        TimestampFormat::UtcEpochMs => u64_to_dec(now_us / 1000),
        TimestampFormat::UtcEpochUs => u64_to_dec(now_us),
        TimestampFormat::Utc => match pattern {
            None => match chrono_rfc3339_utc(now_us) {
                Some(s) => s,
                None => String::new(),
            },
            Some(p) => match chrono_strftime_utc(now_us, p.as_str()) {
                Some(s) => s,
                None => String::new(),
            },
        },
        TimestampFormat::Local => match pattern {
            None => match chrono_rfc3339_local(now_us) {
                Some(s) => s,
                None => String::new(),
            },
            Some(p) => match chrono_strftime_local(now_us, p.as_str()) {
                Some(s) => s,
                None => String::new(),
            },
        },
    }
}

/// Variant name of a representation, as it appears in the configuration
/// description.
pub open spec fn spec_ts_format_name(mode: TimestampFormat) -> Seq<char> {
    match mode {
        TimestampFormat::UtcEpochMs => "UtcEpochMs"@,
        TimestampFormat::UtcEpochUs => "UtcEpochUs"@,
        TimestampFormat::Utc => "Utc"@,
        TimestampFormat::Local => "Local"@,
    }
}

impl TimestampFormat {
    /// The variant name of this representation.
    pub fn name(self) -> (r: &'static str)
        ensures
            r@ == spec_ts_format_name(self),
    {
        match self {
            TimestampFormat::UtcEpochMs => "UtcEpochMs",
            TimestampFormat::UtcEpochUs => "UtcEpochUs",
            TimestampFormat::Utc => "Utc",
            TimestampFormat::Local => "Local",
        }
    }
}

} // verus!
