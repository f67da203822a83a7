use vstd::prelude::*;
use vstd::string::StringExecFns;

use crate::control::KnownLogTarget;
use crate::control::LogControl1;
use crate::control::LogControl1Error;
use crate::control::LogLevel;
use crate::control::spec_target_from_str;
use crate::filter::LevelFilter;
use crate::logger::MemoryLog;
use crate::reload::CellState;
use crate::reload::ReloadError;
use crate::reload::ReloadHandle;
use crate::reload::ReloadLog;
use crate::severity::Severity;

verus! {

/// The log targets this controller can actually install.
#[derive(Debug, Clone, Copy, PartialEq, Eq, Structural)]
pub enum SupportedLogTarget {
    /// Log to the console.
    Console,
    /// Log to the structured system journal.
    Journal,
}

/// The protocol target that names a supported target.
pub open spec fn spec_supported_as_known(target: SupportedLogTarget) -> KnownLogTarget {
    match target {
        SupportedLogTarget::Console => KnownLogTarget::Console,
        SupportedLogTarget::Journal => KnownLogTarget::Journal,
    }
}

impl From<SupportedLogTarget> for KnownLogTarget {
    /// The protocol target that names this supported target.
    fn from(value: SupportedLogTarget) -> Self {
        match value {
            SupportedLogTarget::Console => KnownLogTarget::Console,
            SupportedLogTarget::Journal => KnownLogTarget::Journal,
        }
    }
}

impl vstd::std_specs::convert::FromSpecImpl<SupportedLogTarget> for KnownLogTarget {
    open spec fn obeys_from_spec() -> bool {
        true
    }

    open spec fn from_spec(t: SupportedLogTarget) -> Self {
        spec_supported_as_known(t)
    }
}

/// The supported target a protocol target resolves to, if any: `Auto` goes
/// to the journal when the process is connected to it and to the console
/// otherwise; the console and the journal stand for themselves; everything
/// else is unsupported.
pub open spec fn spec_resolve_target(
    target: KnownLogTarget,
    connected_to_journal: bool,
) -> Option<SupportedLogTarget> {
    match target {
        KnownLogTarget::Auto => if connected_to_journal {
            Some(SupportedLogTarget::Journal)
        } else {
            Some(SupportedLogTarget::Console)
        },
        KnownLogTarget::Console => Some(SupportedLogTarget::Console),
        KnownLogTarget::Journal => Some(SupportedLogTarget::Journal),
        _ => None,
    }
}

/// Resolve a protocol target to a target this controller supports, or
/// reject it, naming the target in the error.
pub fn from_known_log_target(target: KnownLogTarget, connected_to_journal: bool) -> (r: Result<
    SupportedLogTarget,
    LogControl1Error,
>)
    ensures
        spec_resolve_target(target, connected_to_journal) matches Some(t) ==> r == Ok::<
            SupportedLogTarget,
            LogControl1Error,
        >(t),
        spec_resolve_target(target, connected_to_journal) is None ==> (r matches Err(
            LogControl1Error::UnsupportedLogTarget(s),
        ) && s@ == target.spec_as_str()),
{
    match target {
        KnownLogTarget::Auto => if connected_to_journal {
            Ok(SupportedLogTarget::Journal)
        } else {
            Ok(SupportedLogTarget::Console)
        },
        KnownLogTarget::Console => Ok(SupportedLogTarget::Console),
        KnownLogTarget::Journal => Ok(SupportedLogTarget::Journal),
        other => Err(LogControl1Error::UnsupportedLogTarget(other.as_str().to_owned())),
    }
}

/// The internal severity a protocol level translates to, if any.  The three
/// most serious protocol levels have no internal counterpart, and the
/// translation shifts the scale so that a protocol request for "info" does
/// not flood the output with trace detail.
pub open spec fn spec_from_log_level(level: LogLevel) -> Option<Severity> {
    match level {
        LogLevel::Error => Some(Severity::Error),
        LogLevel::Warning => Some(Severity::Warn),
        LogLevel::Notice => Some(Severity::Info),
        LogLevel::Info => Some(Severity::Debug),
        LogLevel::Debug => Some(Severity::Trace),
        _ => None,
    }
}

/// Translate a protocol level to an internal severity, or reject it.
pub fn from_log_level(level: LogLevel) -> (r: Result<Severity, LogControl1Error>)
    ensures
        r == (match spec_from_log_level(level) {
            Some(s) => Ok::<Severity, LogControl1Error>(s),
            None => Err::<Severity, LogControl1Error>(LogControl1Error::UnsupportedLogLevel(level)),
        }),
{
    match level {
        LogLevel::Error => Ok(Severity::Error),
        LogLevel::Warning => Ok(Severity::Warn),
        LogLevel::Notice => Ok(Severity::Info),
        LogLevel::Info => Ok(Severity::Debug),
        LogLevel::Debug => Ok(Severity::Trace),
        unsupported => Err(LogControl1Error::UnsupportedLogLevel(unsupported)),
    }
}

/// The protocol level that reports an internal severity.
pub open spec fn spec_to_log_level(level: Severity) -> LogLevel {
    match level {
        Severity::Error => LogLevel::Error,
        Severity::Warn => LogLevel::Warning,
        Severity::Info => LogLevel::Notice,
        Severity::Debug => LogLevel::Info,
        Severity::Trace => LogLevel::Debug,
    }
}

/// Translate an internal severity to the protocol level that reports it.
pub fn to_log_level(level: Severity) -> (r: LogLevel)
    ensures
        r == spec_to_log_level(level),
{
    match level {
        Severity::Error => LogLevel::Error,
        Severity::Warn => LogLevel::Warning,
        Severity::Info => LogLevel::Notice,
        Severity::Debug => LogLevel::Info,
        Severity::Trace => LogLevel::Debug,
    }
}

/// The level translation is total on the five supported protocol levels and
/// fails on the three most serious ones, and translating an internal
/// severity to the protocol and back is the identity.
pub proof fn law_level_translation()
    ensures
        forall|s: Severity| #[trigger] spec_from_log_level(spec_to_log_level(s)) == Some(s),
        forall|l: LogLevel|
            (#[trigger] spec_from_log_level(l)) is Some <==> !(l is Emerg || l is Alert
                || l is Crit),
{
}

/// A factory for the loggers of the supported targets; the only place where
/// concrete destinations are constructed.
pub trait LogFactory {
    /// The type of logger this factory builds; to the controller it is an
    /// opaque destination.
    type Logger;

    /// Create a logger for the console target, or report why the console
    /// cannot be reached.
    fn create_console_log(&self) -> Result<Self::Logger, LogControl1Error>;

    /// Create a logger for the journal target, or report why the journal
    /// cannot be reached.  The logger should use `syslog_identifier` for the
    /// originating-program field.
    fn create_journal_log(&self, syslog_identifier: String) -> Result<
        Self::Logger,
        LogControl1Error,
    >;
}

/// Ask the factory for a logger for the given supported target.
fn create_logger<F: LogFactory>(
    target: SupportedLogTarget,
    factory: &F,
    syslog_identifier: &str,
) -> Result<F::Logger, LogControl1Error> {
    match target {
        SupportedLogTarget::Console => factory.create_console_log(),
        SupportedLogTarget::Journal => factory.create_journal_log(syslog_identifier.to_owned()),
    }
}

/// The type of a controlled logger cell: a reloadable cell around a severity
/// filter around a factory-built logger.
pub type ControlledLog<F> = ReloadLog<LevelFilter<<F as LogFactory>::Logger>>;

/// The text reported when the cell refuses a level change.
pub open spec fn spec_level_failure(level: LogLevel, e: ReloadError) -> Seq<char> {
    "Failed to change level to "@ + level.spec_as_str() + ": "@ + e.spec_message()
}

/// The text reported when the cell refuses a target change.
pub open spec fn spec_target_failure(target: SupportedLogTarget, e: ReloadError) -> Seq<char> {
    "Failed to change log target to "@ + spec_supported_as_known(target).spec_as_str() + ": "@
        + e.spec_message()
}

/// The controller's cached configuration mirrors what is actually installed:
/// whenever the cell is live, the cached protocol level translates exactly to
/// the threshold of the installed filter.  Constructors establish this, and
/// every reconfiguration preserves it, because the cache is updated only
/// after a swap has succeeded.
pub open spec fn spec_mirrors<F: LogFactory>(
    control: LogController<F>,
    cell: ControlledLog<F>,
) -> bool {
    cell.is_live() ==> spec_from_log_level(control.level) == Some(cell.current().level)
}

/// A log control implementation over a reloadable, severity-filtered logger
/// cell.
///
/// The controller holds the current protocol-level configuration, the
/// factory that builds loggers when the target changes, and a weak handle to
/// the cell; the cached `level` and `target` mirror what is installed in the
/// cell and change only after a swap has succeeded.
pub struct LogController<F: LogFactory> {
    /// The reload handle through which the cell is reconfigured.
    pub handle: ReloadHandle<LevelFilter<<F as LogFactory>::Logger>>,
    /// The factory consulted whenever the log target changes.
    pub factory: F,
    /// Whether this process's error stream is connected to the journal.
    pub connected_to_journal: bool,
    /// The syslog identifier handed to journal loggers.
    pub syslog_identifier: String,
    /// The protocol level currently installed in the cell.
    pub level: LogLevel,
    /// The target currently installed in the cell.
    pub target: SupportedLogTarget,
}

impl<F: LogFactory> LogController<F> {
    /// Assemble a controller and its cell around an already-built logger for
    /// the given supported target.
    pub fn with_logger(
        factory: F,
        connected_to_journal: bool,
        syslog_identifier: String,
        target: SupportedLogTarget,
        level: Severity,
        logger: F::Logger,
    ) -> (r: (LogController<F>, ControlledLog<F>))
        ensures
            r.1.state == (CellState::Live(LevelFilter { level, logger })),
            r.0.factory == factory,
            r.0.connected_to_journal == connected_to_journal,
            r.0.syslog_identifier == syslog_identifier,
            r.0.level == spec_to_log_level(level),
            r.0.target == target,
            spec_mirrors(r.0, r.1),
    {
        let log = ReloadLog::new(LevelFilter::new(level, logger));
        let handle = log.handle();
        let control = LogController {
            handle,
            factory,
            connected_to_journal,
            syslog_identifier,
            level: to_log_level(level),
            target,
        };
        (control, log)
    }

    /// Create a controller together with the cell it controls.
    ///
    /// The protocol `target` is resolved (with `Auto` going by
    /// `connected_to_journal`) and rejected if unsupported; the factory then
    /// builds the initial logger, and any factory error is handed through
    /// without anything being built.  On success the cell starts live, with
    /// the given severity as its threshold, and the controller's cache
    /// mirrors the installed configuration.
    pub fn new(
        factory: F,
        connected_to_journal: bool,
        syslog_identifier: String,
        target: KnownLogTarget,
        level: Severity,
    ) -> (r: Result<(LogController<F>, ControlledLog<F>), LogControl1Error>)
        ensures
            spec_resolve_target(target, connected_to_journal) is None ==> (r matches Err(
                LogControl1Error::UnsupportedLogTarget(s),
            ) && s@ == target.spec_as_str()),
            r matches Ok(pair) ==> {
                &&& spec_resolve_target(target, connected_to_journal) matches Some(t)
                    && pair.0.target == t
                &&& pair.0.factory == factory
                &&& pair.0.connected_to_journal == connected_to_journal
                &&& pair.0.syslog_identifier == syslog_identifier
                &&& pair.0.level == spec_to_log_level(level)
                &&& pair.1.is_live()
                &&& pair.1.current().level == level
                &&& spec_mirrors(pair.0, pair.1)
            },
    {
        let resolved = match from_known_log_target(target, connected_to_journal) {
            Ok(t) => t,
            Err(e) => {
                return Err(e);
            },
        };
        let logger = match create_logger(resolved, &factory, syslog_identifier.as_str()) {
            Ok(l) => l,
            Err(e) => {
                return Err(e);
            },
        };
        Ok(Self::with_logger(factory, connected_to_journal, syslog_identifier, resolved, level, logger))
    }

    /// The protocol level currently installed.
    pub fn level(&self) -> (r: LogLevel)
        ensures
            r == self.level,
    {
        self.level
    }

    /// Change the threshold of the cell's filter to the severity that the
    /// protocol `level` translates to.
    ///
    /// An untranslatable level is rejected with `UnsupportedLogLevel`.  If
    /// the cell is poisoned or gone the change fails with a `Failure` naming
    /// the cause.  A failed call leaves the cell and the cached
    /// configuration exactly as they were; a successful call changes only
    /// the threshold and the cached level.
    pub fn set_level(&mut self, cell: &mut ControlledLog<F>, level: LogLevel) -> (r: Result<
        (),
        LogControl1Error,
    >)
        ensures
            spec_from_log_level(level) is None ==> r == Err::<(), LogControl1Error>(
                LogControl1Error::UnsupportedLogLevel(level),
            ) && *final(self) == *old(self) && *final(cell) == *old(cell),
            spec_from_log_level(level) matches Some(sev) ==> {
                &&& old(cell).is_live() ==> {
                    &&& r == Ok::<(), LogControl1Error>(())
                    &&& final(cell).state == (CellState::Live(
                        LevelFilter { level: sev, logger: old(cell).current().logger },
                    ))
                    &&& final(self).level == level
                    &&& final(self).target == old(self).target
                    &&& final(self).factory == old(self).factory
                    &&& final(self).connected_to_journal == old(self).connected_to_journal
                    &&& final(self).syslog_identifier == old(self).syslog_identifier
                    &&& final(self).handle == old(self).handle
                }
                &&& old(cell).is_poisoned() ==> (r matches Err(LogControl1Error::Failure(m))
                    && m@ == spec_level_failure(level, ReloadError::Poisoned)) && *final(self)
                    == *old(self) && *final(cell) == *old(cell)
                &&& old(cell).is_gone() ==> (r matches Err(LogControl1Error::Failure(m)) && m@
                    == spec_level_failure(level, ReloadError::Gone)) && *final(self) == *old(self)
                    && *final(cell) == *old(cell)
            },
            spec_mirrors(*old(self), *old(cell)) ==> spec_mirrors(*final(self), *final(cell)),
    {
        let sev = match from_log_level(level) {
            Ok(s) => s,
            Err(e) => {
                return Err(e);
            },
        };
        let f = |flt: LevelFilter<F::Logger>| -> (res: Option<LevelFilter<F::Logger>>)
            ensures
                res matches Some(g) && g.level == sev && g.logger == flt.logger,
            {
                let mut flt = flt;
                flt.set_level(sev);
                Some(flt)
            };
        match self.handle.modify(cell, f) {
            Ok(()) => {
                self.level = level;
                Ok(())
            },
            Err(e) => Err(
                LogControl1Error::Failure(
                    String::from_str("Failed to change level to ").concat(level.as_str()).concat(
                        ": ",
                    ).concat(e.message()),
                ),
            ),
        }
    }

    /// The protocol name of the target currently installed.
    pub fn target(&self) -> (r: &'static str)
        ensures
            r@ == spec_supported_as_known(self.target).spec_as_str(),
    {
        KnownLogTarget::from(self.target).as_str()
    }

    /// Swap the cell's inner logger for `logger`, built for `target`, and on
    /// success record `target` as installed.
    ///
    /// If the cell is poisoned or gone nothing changes and the call fails
    /// with a `Failure` naming the cause; otherwise the filter keeps its
    /// threshold and only its inner logger is replaced.
    pub fn install_target(
        &mut self,
        cell: &mut ControlledLog<F>,
        target: SupportedLogTarget,
        logger: F::Logger,
    ) -> (r: Result<(), LogControl1Error>)
        ensures
            old(cell).is_live() ==> {
                &&& r == Ok::<(), LogControl1Error>(())
                &&& final(cell).state == (CellState::Live(
                    LevelFilter { level: old(cell).current().level, logger },
                ))
                &&& final(self).target == target
                &&& final(self).level == old(self).level
                &&& final(self).factory == old(self).factory
                &&& final(self).connected_to_journal == old(self).connected_to_journal
                &&& final(self).syslog_identifier == old(self).syslog_identifier
                &&& final(self).handle == old(self).handle
            },
            old(cell).is_poisoned() ==> (r matches Err(LogControl1Error::Failure(m)) && m@
                == spec_target_failure(target, ReloadError::Poisoned)) && *final(self) == *old(self)
                && *final(cell) == *old(cell),
            old(cell).is_gone() ==> (r matches Err(LogControl1Error::Failure(m)) && m@
                == spec_target_failure(target, ReloadError::Gone)) && *final(self) == *old(self)
                && *final(cell) == *old(cell),
            spec_mirrors(*old(self), *old(cell)) ==> spec_mirrors(*final(self), *final(cell)),
    {
        let f = |flt: LevelFilter<F::Logger>| -> (res: Option<LevelFilter<F::Logger>>)
            ensures
                res matches Some(g) && g.level == flt.level && g.logger == logger,
            {
                let mut flt = flt;
                flt.set_inner(logger);
                Some(flt)
            };
        match self.handle.modify(cell, f) {
            Ok(()) => {
                self.target = target;
                Ok(())
            },
            Err(e) => Err(
                LogControl1Error::Failure(
                    String::from_str("Failed to change log target to ").concat(
                        KnownLogTarget::from(target).as_str(),
                    ).concat(": ").concat(e.message()),
                ),
            ),
        }
    }

    /// Change the log target to the one the protocol string names.
    ///
    /// An unknown string, and a known target this controller does not
    /// support, are rejected with `UnsupportedLogTarget` before the factory
    /// is consulted.  A factory error is handed through without anything
    /// being installed.  Every failure leaves the cell and the cached
    /// configuration exactly as they were; on success the filter keeps its
    /// threshold, its inner logger is the newly built one, and the cached
    /// target is updated.
    pub fn set_target(&mut self, cell: &mut ControlledLog<F>, target: &str) -> (r: Result<
        (),
        LogControl1Error,
    >)
        ensures
            spec_target_from_str(target@) is None ==> (r matches Err(
                LogControl1Error::UnsupportedLogTarget(s),
            ) && s@ == target@),
            spec_target_from_str(target@) matches Some(k) ==> (spec_resolve_target(
                k,
                old(self).connected_to_journal,
            ) is None ==> (r matches Err(LogControl1Error::UnsupportedLogTarget(s)) && s@
                == k.spec_as_str())),
            r is Err ==> *final(self) == *old(self) && *final(cell) == *old(cell),
            r is Ok ==> {
                &&& old(cell).is_live()
                &&& spec_target_from_str(target@) matches Some(k) && spec_resolve_target(
                    k,
                    old(self).connected_to_journal,
                ) matches Some(t) && final(self).target == t
                &&& final(cell).is_live()
                &&& final(cell).current().level == old(cell).current().level
                &&& final(self).level == old(self).level
                &&& final(self).factory == old(self).factory
                &&& final(self).connected_to_journal == old(self).connected_to_journal
                &&& final(self).syslog_identifier == old(self).syslog_identifier
            },
            spec_mirrors(*old(self), *old(cell)) ==> spec_mirrors(*final(self), *final(cell)),
    {
        let known = match KnownLogTarget::parse(target) {
            Ok(k) => k,
            Err(e) => {
                return Err(LogControl1Error::from(e));
            },
        };
        let resolved = match from_known_log_target(known, self.connected_to_journal) {
            Ok(t) => t,
            Err(e) => {
                return Err(e);
            },
        };
        let new_logger = match create_logger(resolved, &self.factory, self.syslog_identifier.as_str()) {
            Ok(l) => l,
            Err(e) => {
                return Err(e);
            },
        };
        self.install_target(cell, resolved, new_logger)
    }

    /// The syslog identifier used for logging.
    pub fn syslog_identifier(&self) -> (r: &str)
        ensures
            r@ == self.syslog_identifier@,
    {
        self.syslog_identifier.as_str()
    }
}

impl<F: LogFactory> LogControl1 for LogController<F> {
    type Cell = ControlledLog<F>;

    fn level(&self) -> LogLevel {
        LogController::level(self)
    }

    fn set_level(&mut self, cell: &mut ControlledLog<F>, level: LogLevel) -> Result<
        (),
        LogControl1Error,
    > {
        LogController::set_level(self, cell, level)
    }

    fn target(&self) -> &str {
        LogController::target(self)
    }

    fn set_target(&mut self, cell: &mut ControlledLog<F>, target: &str) -> Result<
        (),
        LogControl1Error,
    > {
        LogController::set_target(self, cell, target)
    }

    fn syslog_identifier(&self) -> &str {
        LogController::syslog_identifier(self)
    }
}

/// A factory producing in-memory loggers, so that tests and examples can
/// observe what a controller installs.  Either destination can be configured
/// to fail, standing for an unreachable console or journal.
#[derive(Debug, Clone, Copy, PartialEq, Eq, Structural)]
pub struct MemoryLogFactory {
    /// Whether creating a console logger fails with a generic failure.
    pub fail_console: bool,
    /// Whether creating a journal logger fails like an unreachable journal.
    pub fail_journal: bool,
}

impl MemoryLogFactory {
    /// A factory whose destinations are all reachable.
    pub fn new() -> (f: MemoryLogFactory)
        ensures
            !f.fail_console,
            !f.fail_journal,
    {
        MemoryLogFactory { fail_console: false, fail_journal: false }
    }
}

impl LogFactory for MemoryLogFactory {
    type Logger = MemoryLog;

    fn create_console_log(&self) -> Result<MemoryLog, LogControl1Error> {
        if self.fail_console {
            Err(LogControl1Error::Failure(String::from_str("console unavailable")))
        } else {
            Ok(MemoryLog::new())
        }
    }

    fn create_journal_log(&self, _syslog_identifier: String) -> Result<
        MemoryLog,
        LogControl1Error,
    > {
        if self.fail_journal {
            Err(LogControl1Error::InputOutputError(String::from_str("journal unavailable")))
        } else {
            Ok(MemoryLog::new())
        }
    }
}

} // verus!
