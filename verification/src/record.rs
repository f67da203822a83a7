use vstd::prelude::*;

use crate::severity::Severity;

verus! {

/// What a logger learns about a record before deciding whether it is wanted:
/// its severity and the name of the component that produced it.
#[derive(Debug, Clone, PartialEq, Eq)]
pub struct Metadata {
    /// The severity of the record.
    pub level: Severity,
    /// The name of the component the record comes from.
    pub target: String,
}

/// A single log record: its metadata and the rendered message.
#[derive(Debug, Clone, PartialEq, Eq)]
pub struct Record {
    /// The metadata of the record.
    pub metadata: Metadata,
    /// The rendered message text.
    pub message: String,
}

impl Record {
    /// Build a record at the given severity with an empty component name.
    pub fn new(level: Severity, message: String) -> (r: Record)
        ensures
            r.metadata.level == level,
            r.metadata.target@ == Seq::<char>::empty(),
            r.message == message,
    {
        Record { metadata: Metadata { level, target: String::new() }, message }
    }
}

} // verus!
