//! The sink's own model of a structured log event and of its metadata.
//!
//! The logging facade's record type is external; what the decision pipeline
//! reads from it is carried here as plain values.  The caller that binds the
//! sink to a facade converts each incoming event into a [`Record`] before
//! handing it over.

use vstd::prelude::*;

use crate::level::Level;

verus! {

/// The part of a record consulted by the level filter: the record's severity
/// and its target (usually a module path).
pub struct Metadata {
    /// Severity of the event.
    pub level: Level,
    /// Target string the per-target overrides are matched against.
    pub target: String,
}

impl Metadata {
    /// Builds metadata from its two components.
    pub fn new(level: Level, target: String) -> (r: Metadata)
        ensures
            r.level == level,
            r.target == target,
    {
        Metadata { level, target }
    }
}

/// One structured log event, as handed to the sink.
///
/// Key-value pairs are kept in the order in which they were collected; keys
/// are expected to be unique within one record, and the payload emits the
/// pairs in this stored order.
pub struct Record {
    /// Severity of the event.
    pub level: Level,
    /// Target string, matched against per-target overrides.
    pub target: String,
    /// The rendered message text.
    pub message: String,
    /// Source file of the call site, when known.
    pub file: Option<String>,
    /// Source line of the call site, when known.
    pub line: Option<u32>,
    /// Module path of the call site, when known.
    pub module: Option<String>,
    /// Structured key-value pairs attached to the event.
    pub key_values: Vec<(String, String)>,
}

/// The mathematical content of a [`Record`].
#[verifier::ext_equal]
pub ghost struct RecordModel {
    pub level: Level,
    pub target: Seq<char>,
    pub message: Seq<char>,
    pub file: Option<Seq<char>>,
    pub line: Option<u32>,
    pub module: Option<Seq<char>>,
    pub key_values: Seq<(Seq<char>, Seq<char>)>,
}

impl View for Record {
    type V = RecordModel;

    open spec fn view(&self) -> RecordModel {
        RecordModel {
            level: self.level,
            target: self.target@,
            message: self.message@,
            file: self.file.deep_view(),
            line: self.line,
            module: self.module.deep_view(),
            key_values: self.key_values.deep_view(),
        }
    }
}

impl Record {
    /// The filtering metadata of this record.
    pub fn metadata(&self) -> (r: Metadata)
        ensures
            r.level == self@.level,
            r.target@ == self@.target,
    {
        Metadata { level: self.level, target: self.target.clone() }
    }
}

} // verus!
