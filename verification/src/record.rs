//! One immutable log event.

use vstd::prelude::*;
use crate::level::Level;
use crate::clock::Timestamp;

verus! {

/// One log event: severity, message text, the category (target) that
/// emitted it, and the instant it was captured. Immutable once created;
/// records are kept in insertion order, which is also chronological.
pub struct LogRecord {
    pub level: Level,
    pub message: String,
    pub target: String,
    pub time: Timestamp,
}

/// The mathematical image of one record.
#[verifier::ext_equal]
pub ghost struct RecordView {
    pub level: Level,
    pub message: Seq<char>,
    pub target: Seq<char>,
    pub time: Timestamp,
}

impl View for LogRecord {
    type V = RecordView;

    open spec fn view(&self) -> RecordView {
        RecordView {
            level: self.level,
            message: self.message@,
            target: self.target@,
            time: self.time,
        }
    }
}

impl LogRecord {
    /// A record from its parts.
    pub fn new(level: Level, message: String, target: String, time: Timestamp) -> (r: LogRecord)
        ensures
            r@ == (RecordView { level, message: message@, target: target@, time }),
    {
        LogRecord { level, message, target, time }
    }
}

} // verus!
