use vstd::prelude::*;
use vstd::string::StringExecFns;

verus! {

/// Whether two string slices hold the same characters.
fn str_eq(a: &str, b: &str) -> (r: bool)
    ensures
        r == (a@ == b@),
{
    a.to_owned() == b.to_owned()
}

/// A syslog severity as used by the log control protocol, most severe first.
#[derive(Debug, Copy, Clone, PartialEq, Eq, Structural)]
pub enum LogLevel {
    /// A panic condition; the system is unusable.
    Emerg,
    /// Action must be taken immediately.
    Alert,
    /// A critical condition.
    Crit,
    /// An error.
    Error,
    /// A warning.
    Warning,
    /// A normal but significant condition.
    Notice,
    /// An informational message.
    Info,
    /// A debug-level message.
    Debug,
}

/// The level that a given protocol string names, if any.
pub open spec fn spec_level_from_str(v: Seq<char>) -> Option<LogLevel> {
    if v == "emerg"@ {
        Some(LogLevel::Emerg)
    } else if v == "alert"@ {
        Some(LogLevel::Alert)
    } else if v == "crit"@ {
        Some(LogLevel::Crit)
    } else if v == "err"@ {
        Some(LogLevel::Error)
    } else if v == "warning"@ {
        Some(LogLevel::Warning)
    } else if v == "notice"@ {
        Some(LogLevel::Notice)
    } else if v == "info"@ {
        Some(LogLevel::Info)
    } else if v == "debug"@ {
        Some(LogLevel::Debug)
    } else {
        None
    }
}

impl LogLevel {
    /// The lower-case protocol name of this level.
    pub open spec fn spec_as_str(self) -> Seq<char> {
        match self {
            LogLevel::Emerg => "emerg"@,
            LogLevel::Alert => "alert"@,
            LogLevel::Crit => "crit"@,
            LogLevel::Error => "err"@,
            LogLevel::Warning => "warning"@,
            LogLevel::Notice => "notice"@,
            LogLevel::Info => "info"@,
            LogLevel::Debug => "debug"@,
        }
    }

    /// The lower-case protocol name of this level.
    pub fn as_str(self) -> (r: &'static str)
        ensures
            r@ == self.spec_as_str(),
    {
        match self {
            LogLevel::Emerg => "emerg",
            LogLevel::Alert => "alert",
            LogLevel::Crit => "crit",
            LogLevel::Error => "err",
            LogLevel::Warning => "warning",
            LogLevel::Notice => "notice",
            LogLevel::Info => "info",
            LogLevel::Debug => "debug",
        }
    }

    /// Parse a protocol string into a level; exactly the eight lower-case
    /// level names are accepted.
    pub fn parse(value: &str) -> (r: Result<LogLevel, LogLevelParseError>)
        ensures
            r == (match spec_level_from_str(value@) {
                Some(l) => Ok::<LogLevel, LogLevelParseError>(l),
                None => Err::<LogLevel, LogLevelParseError>(LogLevelParseError),
            }),
    {
        if str_eq(value, "emerg") {
            Ok(LogLevel::Emerg)
        } else if str_eq(value, "alert") {
            Ok(LogLevel::Alert)
        } else if str_eq(value, "crit") {
            Ok(LogLevel::Crit)
        } else if str_eq(value, "err") {
            Ok(LogLevel::Error)
        } else if str_eq(value, "warning") {
            Ok(LogLevel::Warning)
        } else if str_eq(value, "notice") {
            Ok(LogLevel::Notice)
        } else if str_eq(value, "info") {
            Ok(LogLevel::Info)
        } else if str_eq(value, "debug") {
            Ok(LogLevel::Debug)
        } else {
            Err(LogLevelParseError)
        }
    }
}

/// The log level string was not one of the eight known level names.
#[derive(Debug, Copy, Clone, PartialEq, Eq, Structural)]
pub struct LogLevelParseError;

impl LogLevelParseError {
    /// The text shown for this error.
    pub fn message(&self) -> (r: &'static str)
        ensures
            r@ == "Invalid log level"@,
    {
        "Invalid log level"
    }
}

/// A log destination known to the log control protocol.
#[derive(Debug, Copy, Clone, PartialEq, Eq, Structural)]
pub enum KnownLogTarget {
    /// Log to the console or standard output.
    Console,
    /// The kernel ring message buffer; normally not used by services.
    Kmsg,
    /// Log to the structured system journal natively.
    Journal,
    /// The legacy syslog interface.
    Syslog,
    /// Disable all logging.
    Null,
    /// Resolve to `Journal` when the process's error stream is already
    /// connected to the journal, and to `Console` otherwise.
    Auto,
}

/// The target that a given protocol string names, if any.
pub open spec fn spec_target_from_str(v: Seq<char>) -> Option<KnownLogTarget> {
    if v == "console"@ {
        Some(KnownLogTarget::Console)
    } else if v == "kmsg"@ {
        Some(KnownLogTarget::Kmsg)
    } else if v == "journal"@ {
        Some(KnownLogTarget::Journal)
    } else if v == "syslog"@ {
        Some(KnownLogTarget::Syslog)
    } else if v == "null"@ {
        Some(KnownLogTarget::Null)
    } else if v == "auto"@ {
        Some(KnownLogTarget::Auto)
    } else {
        None
    }
}

impl KnownLogTarget {
    /// The lower-case protocol name of this target.
    pub open spec fn spec_as_str(self) -> Seq<char> {
        match self {
            KnownLogTarget::Console => "console"@,
            KnownLogTarget::Kmsg => "kmsg"@,
            KnownLogTarget::Journal => "journal"@,
            KnownLogTarget::Syslog => "syslog"@,
            KnownLogTarget::Null => "null"@,
            KnownLogTarget::Auto => "auto"@,
        }
    }

    /// Convert to the corresponding string representation.
    pub fn as_str(self) -> (r: &'static str)
        ensures
            r@ == self.spec_as_str(),
    {
        match self {
            KnownLogTarget::Console => "console",
            KnownLogTarget::Kmsg => "kmsg",
            KnownLogTarget::Journal => "journal",
            KnownLogTarget::Syslog => "syslog",
            KnownLogTarget::Null => "null",
            KnownLogTarget::Auto => "auto",
        }
    }

    /// Parse a protocol string into a known target; exactly the six known
    /// target names are accepted, and an unknown string is handed back
    /// inside the error.
    pub fn parse(value: &str) -> (r: Result<KnownLogTarget, LogTargetParseError>)
        ensures
            spec_target_from_str(value@) matches Some(t) ==> r == Ok::<
                KnownLogTarget,
                LogTargetParseError,
            >(t),
            spec_target_from_str(value@) is None ==> (r matches Err(e) && e.0@ == value@),
    {
        if str_eq(value, "console") {
            Ok(KnownLogTarget::Console)
        } else if str_eq(value, "kmsg") {
            Ok(KnownLogTarget::Kmsg)
        } else if str_eq(value, "journal") {
            Ok(KnownLogTarget::Journal)
        } else if str_eq(value, "syslog") {
            Ok(KnownLogTarget::Syslog)
        } else if str_eq(value, "null") {
            Ok(KnownLogTarget::Null)
        } else if str_eq(value, "auto") {
            Ok(KnownLogTarget::Auto)
        } else {
            Err(LogTargetParseError(value.to_owned()))
        }
    }
}

/// The log target string was not one of the known target names; it carries
/// the rejected string.
#[derive(Debug, Clone)]
pub struct LogTargetParseError(pub String);

impl LogTargetParseError {
    /// The text shown for this error.
    pub fn message(&self) -> (r: String)
        ensures
            r@ == "Invalid log target: '"@ + self.0@ + "'"@,
    {
        String::from_str("Invalid log target: '").concat(self.0.as_str()).concat("'")
    }
}

/// An error in a log control operation.
#[derive(Debug, Clone, PartialEq, Eq)]
pub enum LogControl1Error {
    /// The requested log level is not supported by the logging backend.
    UnsupportedLogLevel(LogLevel),
    /// The requested log target is not supported by the logging backend.
    UnsupportedLogTarget(String),
    /// An input or output error occurred while changing target or level;
    /// the payload is its description.
    InputOutputError(String),
    /// A generic failure while changing target or level.
    Failure(String),
}

impl LogControl1Error {
    /// The text shown for this error.
    pub open spec fn spec_message(self) -> Seq<char> {
        match self {
            LogControl1Error::UnsupportedLogLevel(l) => "The log level "@ + l.spec_as_str()
                + " is not supported"@,
            LogControl1Error::UnsupportedLogTarget(t) => "The log target "@ + t@
                + " is not supported"@,
            LogControl1Error::InputOutputError(m) => m@,
            LogControl1Error::Failure(m) => m@,
        }
    }

    /// The text shown for this error.
    pub fn message(&self) -> (r: String)
        ensures
            r@ == self.spec_message(),
    {
        match self {
            LogControl1Error::UnsupportedLogLevel(l) => String::from_str("The log level ").concat(
                l.as_str(),
            ).concat(" is not supported"),
            LogControl1Error::UnsupportedLogTarget(t) => String::from_str("The log target ")
                .concat(t.as_str()).concat(" is not supported"),
            LogControl1Error::InputOutputError(m) => m.clone(),
            LogControl1Error::Failure(m) => m.clone(),
        }
    }
}

impl From<LogTargetParseError> for LogControl1Error {
    /// An unknown target string is an unsupported log target.
    fn from(value: LogTargetParseError) -> Self {
        LogControl1Error::UnsupportedLogTarget(value.0)
    }
}

impl vstd::std_specs::convert::FromSpecImpl<LogTargetParseError> for LogControl1Error {
    open spec fn obeys_from_spec() -> bool {
        true
    }

    open spec fn from_spec(t: LogTargetParseError) -> Self {
        LogControl1Error::UnsupportedLogTarget(t.0)
    }
}

/// Abstract control surface of a reconfigurable logging backend, as exposed
/// by the log control protocol: two readable and writable properties, the
/// log level and the log target, and the read-only syslog identifier.
///
/// Because a reload handle alone cannot reach its cell, the operations that
/// reconfigure logging take the backend's cell explicitly; its type is the
/// implementation's choice.
pub trait LogControl1 {
    /// The logger cell this control surface reconfigures.
    type Cell;

    /// Get the currently configured log level.
    fn level(&self) -> LogLevel;

    /// Set the level of the underlying logging backend, or report why it
    /// cannot be set.
    fn set_level(&mut self, cell: &mut Self::Cell, level: LogLevel) -> Result<
        (),
        LogControl1Error,
    >;

    /// Get the currently configured log target.
    fn target(&self) -> &str;

    /// Set the target of the underlying logging backend, or report why it
    /// cannot be set.
    fn set_target(&mut self, cell: &mut Self::Cell, target: &str) -> Result<
        (),
        LogControl1Error,
    >;

    /// Get the syslog identifier.
    fn syslog_identifier(&self) -> &str;
}

/// The object path the log control interface must be served on for the
/// service manager to find it.
pub fn dbus_obj_path() -> (r: &'static str)
    ensures
        r@ == "/org/freedesktop/LogControl1"@,
{
    "/org/freedesktop/LogControl1"
}

} // verus!
