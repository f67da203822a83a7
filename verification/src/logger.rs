use vstd::prelude::*;

use crate::record::Metadata;
use crate::record::Record;

verus! {

/// Capability of a log destination: test whether a record is wanted, deliver
/// a record, and flush buffered output.
///
/// Each implementation carries three views: `records`, the sequence of records
/// it has delivered so far; `accepts`, which metadata it reports as wanted;
/// and `delivers`, which records it keeps when they are logged.  `log` either
/// appends the record to `records` (when `delivers` holds of it) or leaves
/// the view unchanged, and neither `log` nor `flush` changes the `accepts`
/// and `delivers` views themselves.
pub trait Log {
    /// The records this logger has delivered, oldest first.
    spec fn records(&self) -> Seq<Record>;

    /// Whether this logger reports records with the given metadata as wanted.
    spec fn accepts(&self, metadata: Metadata) -> bool;

    /// Whether this logger delivers the given record when it is logged.
    spec fn delivers(&self, record: Record) -> bool;

    /// Whether this logger wants records with the given metadata.
    fn enabled(&self, metadata: &Metadata) -> (r: bool)
        ensures
            r == self.accepts(*metadata),
    ;

    /// Deliver `record` to this logger.
    fn log(&mut self, record: &Record)
        ensures
            final(self).records() == (if old(self).delivers(*record) {
                old(self).records().push(*record)
            } else {
                old(self).records()
            }),
            forall|m: Metadata| #[trigger] final(self).accepts(m) == old(self).accepts(m),
            forall|r: Record| #[trigger] final(self).delivers(r) == old(self).delivers(r),
    ;

    /// Flush buffered output; delivers no record.
    fn flush(&mut self)
        ensures
            final(self).records() == old(self).records(),
            forall|m: Metadata| #[trigger] final(self).accepts(m) == old(self).accepts(m),
            forall|r: Record| #[trigger] final(self).delivers(r) == old(self).delivers(r),
    ;
}

/// Relation between a logger and its state after one `log` call: the record
/// was appended iff the logger delivers it, and the logger's `accepts` and
/// `delivers` views are unchanged.
pub open spec fn logger_log_step<T: Log>(l0: T, record: Record, l1: T) -> bool {
    &&& l1.records() == (if l0.delivers(record) {
        l0.records().push(record)
    } else {
        l0.records()
    })
    &&& forall|m: Metadata| #[trigger] l1.accepts(m) == l0.accepts(m)
    &&& forall|r: Record| #[trigger] l1.delivers(r) == l0.delivers(r)
}

/// Relation between a logger and its state after one `flush` call: all three
/// views are unchanged.
pub open spec fn logger_quiet_step<T: Log>(l0: T, l1: T) -> bool {
    &&& l1.records() == l0.records()
    &&& forall|m: Metadata| #[trigger] l1.accepts(m) == l0.accepts(m)
    &&& forall|r: Record| #[trigger] l1.delivers(r) == l0.delivers(r)
}

/// A logger that keeps every record it is given in memory, in order.  It
/// wants and delivers everything; the tests use it as their sink.
#[derive(Debug)]
pub struct MemoryLog {
    /// The records delivered so far, oldest first.
    pub entries: Vec<Record>,
}

impl MemoryLog {
    /// An empty in-memory logger.
    pub fn new() -> (l: MemoryLog)
        ensures
            l.entries@ == Seq::<Record>::empty(),
    {
        MemoryLog { entries: Vec::new() }
    }
}

impl Log for MemoryLog {
    open spec fn records(&self) -> Seq<Record> {
        self.entries@
    }

    open spec fn accepts(&self, metadata: Metadata) -> bool {
        true
    }

    open spec fn delivers(&self, record: Record) -> bool {
        true
    }

    fn enabled(&self, metadata: &Metadata) -> (r: bool) {
        true
    }

    fn log(&mut self, record: &Record) {
        let copy = Record {
            metadata: Metadata {
                level: record.metadata.level,
                target: record.metadata.target.clone(),
            },
            message: record.message.clone(),
        };
        self.entries.push(copy);
    }

    fn flush(&mut self) {
    }
}

} // verus!
