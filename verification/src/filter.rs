use vstd::prelude::*;

use crate::logger::Log;
use crate::logger::logger_log_step;
use crate::logger::logger_quiet_step;
use crate::record::Metadata;
use crate::record::Record;
use crate::severity::Severity;

verus! {

/// Filter an underlying logger by a given maximum severity.
///
/// Only records that are at least as severe as the configured `level` are
/// forwarded to the underlying logger.
#[derive(Debug)]
pub struct LevelFilter<T> {
    /// The threshold: the most verbose severity still forwarded.
    pub level: Severity,
    /// The underlying logger.
    pub logger: T,
}

impl<T> LevelFilter<T> {
    /// Create a new level filter with the given maximum `level` around the
    /// given `logger`.
    pub fn new(level: Severity, logger: T) -> (f: Self)
        ensures
            f == (LevelFilter { level, logger }),
    {
        LevelFilter { level, logger }
    }

    /// Get the current threshold.
    pub fn level(&self) -> (l: Severity)
        ensures
            l == self.level,
    {
        self.level
    }

    /// Change the threshold; every later call filters by the new one.
    pub fn set_level(&mut self, level: Severity)
        ensures
            final(self).level == level,
            final(self).logger == old(self).logger,
    {
        self.level = level;
    }

    /// Whether a record with this metadata passes the threshold.
    fn level_passes(&self, metadata: &Metadata) -> (r: bool)
        ensures
            r == metadata.level.spec_passes(self.level),
    {
        metadata.level.verbosity() <= self.level.verbosity()
    }

    /// Get a reference to the inner unfiltered logger.
    pub fn inner(&self) -> (l: &T)
        ensures
            l == &self.logger,
    {
        &self.logger
    }

    /// Replace the inner logger; every later call forwards to the new one.
    pub fn set_inner(&mut self, logger: T)
        ensures
            final(self).level == old(self).level,
            final(self).logger == logger,
    {
        self.logger = logger;
    }
}

impl<T: Log> LevelFilter<T> {
    /// Whether a record with this metadata passes the threshold and the
    /// underlying logger wants it.
    pub fn enabled(&self, metadata: &Metadata) -> (r: bool)
        ensures
            r == (metadata.level.spec_passes(self.level) && self.logger.accepts(*metadata)),
    {
        self.level_passes(metadata) && self.logger.enabled(metadata)
    }

    /// Forward `record` to the underlying logger iff it passes the threshold;
    /// otherwise drop it silently, leaving the filter untouched.
    pub fn log(&mut self, record: &Record)
        ensures
            record.metadata.level.spec_passes(old(self).level) ==> final(self).level == old(
                self,
            ).level && logger_log_step(old(self).logger, *record, final(self).logger),
            !record.metadata.level.spec_passes(old(self).level) ==> *final(self) == *old(self),
    {
        if self.level_passes(&record.metadata) {
            self.logger.log(record);
        }
    }

    /// Flush the underlying logger, unconditionally.
    pub fn flush(&mut self)
        ensures
            final(self).level == old(self).level,
            logger_quiet_step(old(self).logger, final(self).logger),
    {
        self.logger.flush();
    }
}

impl<T: Log> Log for LevelFilter<T> {
    /// The records the underlying logger has delivered.
    open spec fn records(&self) -> Seq<Record> {
        self.logger.records()
    }

    open spec fn accepts(&self, metadata: Metadata) -> bool {
        metadata.level.spec_passes(self.level) && self.logger.accepts(metadata)
    }

    open spec fn delivers(&self, record: Record) -> bool {
        record.metadata.level.spec_passes(self.level) && self.logger.delivers(record)
    }

    fn enabled(&self, metadata: &Metadata) -> (r: bool) {
        LevelFilter::enabled(self, metadata)
    }

    fn log(&mut self, record: &Record) {
        LevelFilter::log(self, record);
    }

    fn flush(&mut self) {
        LevelFilter::flush(self);
    }
}

} // verus!
