use vstd::prelude::*;

use crate::control::KnownLogTarget;
use crate::control::LogControl1Error;

verus! {

/// The log targets a layered tracing backend can install.  Unlike the plain
/// controller it also supports a null target, which silences logging by
/// installing no destination layer at all.
#[derive(Debug, Clone, Copy, PartialEq, Eq, Structural)]
pub enum TracingLogTarget {
    /// Log to the console.
    Console,
    /// Log to the structured system journal.
    Journal,
    /// Install no destination: disable all logging.
    Null,
}

/// The protocol target that names a tracing target.
pub open spec fn spec_tracing_as_known(target: TracingLogTarget) -> KnownLogTarget {
    match target {
        TracingLogTarget::Console => KnownLogTarget::Console,
        TracingLogTarget::Journal => KnownLogTarget::Journal,
        TracingLogTarget::Null => KnownLogTarget::Null,
    }
}

impl From<TracingLogTarget> for KnownLogTarget {
    /// The protocol target that names this tracing target.
    fn from(value: TracingLogTarget) -> Self {
        match value {
            TracingLogTarget::Console => KnownLogTarget::Console,
            TracingLogTarget::Journal => KnownLogTarget::Journal,
            TracingLogTarget::Null => KnownLogTarget::Null,
        }
    }
}

impl vstd::std_specs::convert::FromSpecImpl<TracingLogTarget> for KnownLogTarget {
    open spec fn obeys_from_spec() -> bool {
        true
    }

    open spec fn from_spec(t: TracingLogTarget) -> Self {
        spec_tracing_as_known(t)
    }
}

/// The tracing target a protocol target resolves to, if any: as for the
/// plain controller, but with the null target supported as well.
pub open spec fn spec_resolve_tracing_target(
    target: KnownLogTarget,
    connected_to_journal: bool,
) -> Option<TracingLogTarget> {
    match target {
        KnownLogTarget::Auto => if connected_to_journal {
            Some(TracingLogTarget::Journal)
        } else {
            Some(TracingLogTarget::Console)
        },
        KnownLogTarget::Console => Some(TracingLogTarget::Console),
        KnownLogTarget::Journal => Some(TracingLogTarget::Journal),
        KnownLogTarget::Null => Some(TracingLogTarget::Null),
        _ => None,
    }
}

/// Resolve a protocol target to a target the tracing backend supports, or
/// reject it, naming the target in the error.
pub fn from_known_log_target(target: KnownLogTarget, connected_to_journal: bool) -> (r: Result<
    TracingLogTarget,
    LogControl1Error,
>)
    ensures
        spec_resolve_tracing_target(target, connected_to_journal) matches Some(t) ==> r == Ok::<
            TracingLogTarget,
            LogControl1Error,
        >(t),
        spec_resolve_tracing_target(target, connected_to_journal) is None ==> (r matches Err(
            LogControl1Error::UnsupportedLogTarget(s),
        ) && s@ == target.spec_as_str()),
{
    match target {
        KnownLogTarget::Auto => if connected_to_journal {
            Ok(TracingLogTarget::Journal)
        } else {
            Ok(TracingLogTarget::Console)
        },
        KnownLogTarget::Console => Ok(TracingLogTarget::Console),
        KnownLogTarget::Journal => Ok(TracingLogTarget::Journal),
        KnownLogTarget::Null => Ok(TracingLogTarget::Null),
        other => Err(LogControl1Error::UnsupportedLogTarget(other.as_str().to_owned())),
    }
}

} // verus!
