use vstd::prelude::*;

verus! {

/// Importance scale for log records, ordered from most to least severe.
///
/// A record at severity `s` passes a filter with threshold `t` iff `s` is at
/// least as severe as `t`.
#[derive(Debug, Clone, Copy, PartialEq, Eq, PartialOrd, Ord, Hash, Structural)]
pub enum Severity {
    /// An error.
    Error,
    /// A warning.
    Warn,
    /// An informational message.
    Info,
    /// A message useful for debugging.
    Debug,
    /// A very verbose message tracing execution.
    Trace,
}

impl Severity {
    /// Position on the scale: 0 is the most severe, 4 the most verbose.
    pub open spec fn spec_verbosity(self) -> int {
        match self {
            Severity::Error => 0,
            Severity::Warn => 1,
            Severity::Info => 2,
            Severity::Debug => 3,
            Severity::Trace => 4,
        }
    }

    /// Position on the scale: 0 is the most severe, 4 the most verbose.
    pub fn verbosity(self) -> (v: u8)
        ensures
            v == self.spec_verbosity(),
    {
        match self {
            Severity::Error => 0,
            Severity::Warn => 1,
            Severity::Info => 2,
            Severity::Debug => 3,
            Severity::Trace => 4,
        }
    }

    /// Whether a record at this severity passes a filter whose threshold is
    /// `threshold`: it does iff it is at least as severe as the threshold.
    pub open spec fn spec_passes(self, threshold: Severity) -> bool {
        self.spec_verbosity() <= threshold.spec_verbosity()
    }
}

} // verus!
