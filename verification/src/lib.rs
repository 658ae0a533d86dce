//! A log sink that calls another program or posts to a web service for each
//! accepted record.
//!
//! A [`CallLogger`] is built once through chained setters, then frozen; every
//! dispatch is a pure decision over that configuration and one record.  The
//! decision pipeline (level filtering with per-target overrides, payload
//! formatting, and routing to exactly one delivery mechanism) is verified;
//! the surrounding process, with its actual process spawns, HTTP posts and
//! facade registration, performs the chosen [`Dispatch`] unchanged.

pub mod dispatch;
pub mod format;
pub mod level;
pub mod logger;
pub mod record;
pub mod text;
pub mod timestamp;

pub use dispatch::{Action, Dispatch};
pub use level::{Level, LevelFilter};
pub use logger::CallLogger;
pub use format::{JsonFormat, PayloadFormat};
pub use record::{Metadata, Record};
pub use timestamp::TimestampFormat;
