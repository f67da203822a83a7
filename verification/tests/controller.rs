use logcontrol::control::KnownLogTarget;
use logcontrol::control::LogControl1;
use logcontrol::control::LogControl1Error;
use logcontrol::control::LogLevel;
use logcontrol::controller::from_log_level;
use logcontrol::controller::ControlledLog;
use logcontrol::controller::LogController;
use logcontrol::controller::MemoryLogFactory;
use logcontrol::record::Record;
use logcontrol::reload::CellState;
use logcontrol::severity::Severity;
use logcontrol::trace;
use logcontrol::trace::TracingLogTarget;

fn sink_messages(cell: &ControlledLog<MemoryLogFactory>) -> Vec<String> {
    match &cell.state {
        CellState::Live(filter) => filter.logger.entries.iter().map(|r| r.message.clone()).collect(),
        other => panic!("cell should be live, was {:?}", other),
    }
}

fn clear_sink(cell: &mut ControlledLog<MemoryLogFactory>) {
    match &mut cell.state {
        CellState::Live(filter) => filter.logger.entries.clear(),
        other => panic!("cell should be live, was {:?}", other),
    }
}

fn working_controller(
    level: Severity,
) -> (LogController<MemoryLogFactory>, ControlledLog<MemoryLogFactory>) {
    LogController::new(
        MemoryLogFactory::new(),
        false,
        "test-service".to_string(),
        KnownLogTarget::Console,
        level,
    )
    .unwrap()
}

#[test]
fn warn_threshold_scenario() {
    let (mut control, mut cell) = working_controller(Severity::Warn);

    cell.log(&Record::new(Severity::Error, "Error".to_string()));
    cell.log(&Record::new(Severity::Info, "Info".to_string()));
    cell.log(&Record::new(Severity::Warn, "Warn".to_string()));
    assert_eq!(sink_messages(&cell), vec!["Error", "Warn"]);

    // Protocol level "info" translates to the internal Debug threshold.
    clear_sink(&mut cell);
    control.set_level(&mut cell, LogLevel::Info).unwrap();

    cell.log(&Record::new(Severity::Error, "Error".to_string()));
    cell.log(&Record::new(Severity::Info, "Info".to_string()));
    cell.log(&Record::new(Severity::Warn, "Warn".to_string()));
    cell.log(&Record::new(Severity::Debug, "Debug".to_string()));
    cell.log(&Record::new(Severity::Trace, "Trace".to_string()));
    assert_eq!(sink_messages(&cell), vec!["Error", "Info", "Warn", "Debug"]);
}

#[test]
fn set_level_updates_cache_and_threshold() {
    let (mut control, mut cell) = working_controller(Severity::Warn);
    assert_eq!(control.level(), LogLevel::Warning);

    control.set_level(&mut cell, LogLevel::Debug).unwrap();
    assert_eq!(control.level(), LogLevel::Debug);

    // The internal threshold is now Trace: everything is delivered.
    cell.log(&Record::new(Severity::Trace, "Trace".to_string()));
    assert_eq!(sink_messages(&cell), vec!["Trace"]);
}

#[test]
fn set_level_rejects_unsupported_levels() {
    let (mut control, mut cell) = working_controller(Severity::Warn);

    for level in [LogLevel::Emerg, LogLevel::Alert, LogLevel::Crit] {
        let error = control.set_level(&mut cell, level).unwrap_err();
        assert_eq!(error, LogControl1Error::UnsupportedLogLevel(level));
    }
    // The rejected requests changed nothing.
    assert_eq!(control.level(), LogLevel::Warning);
    cell.log(&Record::new(Severity::Info, "Info".to_string()));
    assert_eq!(sink_messages(&cell), Vec::<String>::new());
}

#[test]
fn set_level_reports_a_retired_cell() {
    let (mut control, mut cell) = working_controller(Severity::Warn);
    cell.retire();

    let error = control.set_level(&mut cell, LogLevel::Debug).unwrap_err();
    assert_eq!(
        error,
        LogControl1Error::Failure(
            "Failed to change level to debug: Referenced logger was dropped".to_string()
        )
    );
    // The cached configuration still mirrors the last installed one.
    assert_eq!(control.level(), LogLevel::Warning);
}

#[test]
fn factory_failure_leaves_the_old_target_logging() {
    let factory = MemoryLogFactory { fail_console: false, fail_journal: true };
    let (mut control, mut cell) = LogController::new(
        factory,
        false,
        "test-service".to_string(),
        KnownLogTarget::Console,
        Severity::Warn,
    )
    .unwrap();

    cell.log(&Record::new(Severity::Error, "before".to_string()));

    let error = control.set_target(&mut cell, "journal").unwrap_err();
    assert_eq!(
        error,
        LogControl1Error::InputOutputError("journal unavailable".to_string())
    );
    assert_eq!(control.target(), "console");

    // The original console logger still receives records.
    cell.log(&Record::new(Severity::Error, "after".to_string()));
    assert_eq!(sink_messages(&cell), vec!["before", "after"]);
}

#[test]
fn bogus_target_is_rejected_without_consulting_the_factory() {
    // A factory whose journal is unreachable: if the controller consulted
    // it, the error would name the journal, not the target string.
    let factory = MemoryLogFactory { fail_console: false, fail_journal: true };
    let (mut control, mut cell) = LogController::new(
        factory,
        true,
        "test-service".to_string(),
        KnownLogTarget::Console,
        Severity::Warn,
    )
    .unwrap();

    let error = control.set_target(&mut cell, "bogus").unwrap_err();
    assert_eq!(
        error,
        LogControl1Error::UnsupportedLogTarget("bogus".to_string())
    );
    assert_eq!(control.target(), "console");

    // The cell is untouched and keeps logging as before.
    cell.log(&Record::new(Severity::Error, "still here".to_string()));
    assert_eq!(sink_messages(&cell), vec!["still here"]);
}

#[test]
fn known_but_unsupported_targets_are_rejected() {
    let (mut control, mut cell) = working_controller(Severity::Warn);

    for name in ["kmsg", "syslog", "null"] {
        let error = control.set_target(&mut cell, name).unwrap_err();
        assert_eq!(error, LogControl1Error::UnsupportedLogTarget(name.to_string()));
    }
    assert_eq!(control.target(), "console");
}

#[test]
fn set_target_swaps_the_logger_and_keeps_the_threshold() {
    let (mut control, mut cell) = working_controller(Severity::Warn);

    cell.log(&Record::new(Severity::Error, "to console".to_string()));
    control.set_target(&mut cell, "journal").unwrap();
    assert_eq!(control.target(), "journal");

    // The fresh journal logger starts empty, and the Warn threshold is kept.
    cell.log(&Record::new(Severity::Info, "dropped".to_string()));
    cell.log(&Record::new(Severity::Warn, "to journal".to_string()));
    assert_eq!(sink_messages(&cell), vec!["to journal"]);
}

#[test]
fn new_rejects_unsupported_initial_targets() {
    let error = match LogController::new(
        MemoryLogFactory::new(),
        false,
        "test-service".to_string(),
        KnownLogTarget::Kmsg,
        Severity::Warn,
    ) {
        Err(e) => e,
        Ok(_) => panic!("an unsupported target must be rejected"),
    };
    assert_eq!(error, LogControl1Error::UnsupportedLogTarget("kmsg".to_string()));
}

#[test]
fn new_propagates_factory_errors() {
    let factory = MemoryLogFactory { fail_console: true, fail_journal: false };
    let error = match LogController::new(
        factory,
        false,
        "test-service".to_string(),
        KnownLogTarget::Console,
        Severity::Warn,
    ) {
        Err(e) => e,
        Ok(_) => panic!("a factory error must be handed through"),
    };
    assert_eq!(error, LogControl1Error::Failure("console unavailable".to_string()));
}

#[test]
fn auto_target_resolves_by_journal_connection() {
    let (control, _cell) = LogController::new(
        MemoryLogFactory::new(),
        true,
        "test-service".to_string(),
        KnownLogTarget::Auto,
        Severity::Warn,
    )
    .unwrap();
    assert_eq!(control.target(), "journal");

    let (control, _cell) = LogController::new(
        MemoryLogFactory::new(),
        false,
        "test-service".to_string(),
        KnownLogTarget::Auto,
        Severity::Warn,
    )
    .unwrap();
    assert_eq!(control.target(), "console");
}

#[test]
fn level_translation_round_trips() {
    let severities = [
        (Severity::Error, LogLevel::Error),
        (Severity::Warn, LogLevel::Warning),
        (Severity::Info, LogLevel::Notice),
        (Severity::Debug, LogLevel::Info),
        (Severity::Trace, LogLevel::Debug),
    ];
    for (severity, level) in severities {
        let (control, _cell) = working_controller(severity);
        assert_eq!(control.level(), level);
        assert_eq!(from_log_level(control.level()).unwrap(), severity);
    }
}

#[test]
fn from_log_level_rejects_the_serious_levels() {
    for level in [LogLevel::Emerg, LogLevel::Alert, LogLevel::Crit] {
        let error = from_log_level(level).unwrap_err();
        assert_eq!(error, LogControl1Error::UnsupportedLogLevel(level));
    }
}

#[test]
fn syslog_identifier_is_reported_unchanged() {
    let (control, _cell) = working_controller(Severity::Warn);
    assert_eq!(control.syslog_identifier(), "test-service");
}

fn reconfigure<C: LogControl1>(
    control: &mut C,
    cell: &mut C::Cell,
    level: &str,
) -> Result<(), LogControl1Error> {
    let level = LogLevel::parse(level)
        .map_err(|_| LogControl1Error::Failure("bad level".to_string()))?;
    control.set_level(cell, level)
}

#[test]
fn controller_serves_the_control_surface() {
    let (mut control, mut cell) = working_controller(Severity::Warn);
    reconfigure(&mut control, &mut cell, "debug").unwrap();
    assert_eq!(LogControl1::level(&control), LogLevel::Debug);
    assert_eq!(LogControl1::target(&control), "console");
    assert_eq!(LogControl1::syslog_identifier(&control), "test-service");
}

#[test]
fn tracing_targets_also_support_null() {
    assert_eq!(
        trace::from_known_log_target(KnownLogTarget::Null, false).unwrap(),
        TracingLogTarget::Null
    );
    assert_eq!(
        trace::from_known_log_target(KnownLogTarget::Auto, true).unwrap(),
        TracingLogTarget::Journal
    );
    assert_eq!(
        trace::from_known_log_target(KnownLogTarget::Auto, false).unwrap(),
        TracingLogTarget::Console
    );
    assert_eq!(
        trace::from_known_log_target(KnownLogTarget::Kmsg, false).unwrap_err(),
        LogControl1Error::UnsupportedLogTarget("kmsg".to_string())
    );
    assert_eq!(KnownLogTarget::from(TracingLogTarget::Null), KnownLogTarget::Null);
}

#[test]
fn poisoned_cell_reports_failure_on_reconfiguration() {
    let (mut control, mut cell) = working_controller(Severity::Warn);
    let handle = cell.handle();
    handle.modify(&mut cell, |_filter| None).unwrap_err();

    let error = control.set_level(&mut cell, LogLevel::Debug).unwrap_err();
    assert_eq!(
        error,
        LogControl1Error::Failure("Failed to change level to debug: Lock poisoned".to_string())
    );
    let error = control.set_target(&mut cell, "journal").unwrap_err();
    assert_eq!(
        error,
        LogControl1Error::Failure(
            "Failed to change log target to journal: Lock poisoned".to_string()
        )
    );
    assert_eq!(control.level(), LogLevel::Warning);
    assert_eq!(control.target(), "console");
    assert!(matches!(cell.state, CellState::Poisoned));

    // A poisoned cell silently drops records.
    let record = Record::new(Severity::Error, "lost".to_string());
    assert!(!cell.enabled(&record.metadata));
    cell.log(&record);
    assert!(matches!(cell.state, CellState::Poisoned));
}
