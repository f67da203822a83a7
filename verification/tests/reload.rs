use logcontrol::filter::LevelFilter;
use logcontrol::logger::MemoryLog;
use logcontrol::record::Record;
use logcontrol::reload::CellState;
use logcontrol::reload::ReloadError;
use logcontrol::reload::ReloadLog;
use logcontrol::severity::Severity;

fn messages(log: &MemoryLog) -> Vec<String> {
    log.entries.iter().map(|r| r.message.clone()).collect()
}

fn live_logger(cell: &ReloadLog<MemoryLog>) -> &MemoryLog {
    match &cell.state {
        CellState::Live(logger) => logger,
        other => panic!("cell should be live, was {:?}", other),
    }
}

#[test]
fn sanity_check_log_level_ordering() {
    assert!(Severity::Error <= Severity::Warn);
    assert!(Severity::Warn <= Severity::Warn);
    assert!(Severity::Debug >= Severity::Warn);
}

#[test]
fn level_filter() {
    let all_levels = [
        (Severity::Error, "ERROR"),
        (Severity::Warn, "WARN"),
        (Severity::Info, "INFO"),
        (Severity::Debug, "DEBUG"),
        (Severity::Trace, "TRACE"),
    ];

    let mut filter = LevelFilter::new(Severity::Warn, MemoryLog::new());

    for (level, name) in all_levels {
        filter.log(&Record::new(level, name.to_string()));
    }
    assert_eq!(messages(filter.inner()), vec!["ERROR", "WARN"]);
    filter.logger.entries.clear();

    filter.set_level(Severity::Debug);

    for (level, name) in all_levels {
        filter.log(&Record::new(level, name.to_string()));
    }
    assert_eq!(messages(filter.inner()), vec!["ERROR", "WARN", "INFO", "DEBUG"]);
}

#[test]
fn reloadlog_replace() {
    let mut reload_log = ReloadLog::new(MemoryLog::new());
    let reload_handle = reload_log.handle();

    reload_log.log(&Record::new(Severity::Info, "Message 1".to_string()));

    let replaced = reload_handle.replace(&mut reload_log, MemoryLog::new()).unwrap();

    reload_log.log(&Record::new(Severity::Info, "Message 2".to_string()));

    assert_eq!(messages(&replaced), vec!["Message 1"]);
    assert_eq!(messages(live_logger(&reload_log)), vec!["Message 2"]);
}

#[test]
fn reloadlog_modify() {
    let mut reload_log = ReloadLog::new(MemoryLog::new());
    let reload_handle = reload_log.handle();

    reload_log.log(&Record::new(Severity::Info, "Message 1".to_string()));
    assert_eq!(messages(live_logger(&reload_log)), vec!["Message 1"]);

    // Clear the message store through the reload handle.
    reload_handle
        .modify(&mut reload_log, |mut logger: MemoryLog| {
            logger.entries.clear();
            Some(logger)
        })
        .unwrap();

    // At this point the first message doesn't appear anymore.
    reload_log.log(&Record::new(Severity::Info, "Message 2".to_string()));
    assert_eq!(messages(live_logger(&reload_log)), vec!["Message 2"]);
}

#[test]
fn retired_cell_fails_with_gone_forever() {
    let mut reload_log: ReloadLog<MemoryLog> = ReloadLog::new(MemoryLog::new());
    let handle = reload_log.handle();

    reload_log.retire();

    assert!(matches!(
        handle.replace(&mut reload_log, MemoryLog::new()),
        Err(ReloadError::Gone)
    ));
    assert!(matches!(
        handle.modify(&mut reload_log, Some),
        Err(ReloadError::Gone)
    ));
    // The failure is idempotent: nothing about the cell has changed.
    assert!(matches!(
        handle.replace(&mut reload_log, MemoryLog::new()),
        Err(ReloadError::Gone)
    ));
    assert!(matches!(reload_log.state, CellState::Gone));
}

#[test]
fn retired_cell_is_disabled() {
    let mut reload_log: ReloadLog<MemoryLog> = ReloadLog::new(MemoryLog::new());
    reload_log.retire();

    let record = Record::new(Severity::Error, "lost".to_string());
    assert!(!reload_log.enabled(&record.metadata));
    reload_log.log(&record);
    reload_log.flush();
    assert!(matches!(reload_log.state, CellState::Gone));
}

#[test]
fn failed_modify_poisons_the_cell() {
    let mut reload_log: ReloadLog<MemoryLog> = ReloadLog::new(MemoryLog::new());
    let handle = reload_log.handle();

    // The mutation fails irrecoverably: the cell transitions to Poisoned.
    let result = handle.modify(&mut reload_log, |_logger: MemoryLog| None);
    assert!(matches!(result, Err(ReloadError::Poisoned)));
    assert!(matches!(reload_log.state, CellState::Poisoned));

    // Reading operations are disabled from now on.
    let record = Record::new(Severity::Error, "lost".to_string());
    assert!(!reload_log.enabled(&record.metadata));
    reload_log.log(&record);
    reload_log.flush();
    assert!(matches!(reload_log.state, CellState::Poisoned));

    // Writing operations keep failing with Poisoned.
    assert!(matches!(
        handle.replace(&mut reload_log, MemoryLog::new()),
        Err(ReloadError::Poisoned)
    ));
    assert!(matches!(
        handle.modify(&mut reload_log, Some),
        Err(ReloadError::Poisoned)
    ));
}

#[test]
fn cloned_handle_reaches_the_same_cell() {
    let mut reload_log = ReloadLog::new(MemoryLog::new());
    let handle = reload_log.handle();
    let second = handle.clone();

    second.replace(&mut reload_log, MemoryLog::new()).unwrap();
    reload_log.log(&Record::new(Severity::Info, "via clone".to_string()));
    assert_eq!(messages(live_logger(&reload_log)), vec!["via clone"]);
}

#[test]
fn reload_error_messages() {
    assert_eq!(ReloadError::Gone.message(), "Referenced logger was dropped");
    assert_eq!(ReloadError::Poisoned.message(), "Lock poisoned");
}

#[test]
fn routing_decides_by_state_and_threshold() {
    let mut cell = ReloadLog::new(LevelFilter::new(Severity::Warn, MemoryLog::new()));

    assert!(cell.active());
    assert!(cell.wants(Severity::Error));
    assert!(cell.wants(Severity::Warn));
    assert!(!cell.wants(Severity::Info));

    // The handed-out destination is the filter's inner logger.
    cell.destination().entries.push(Record::new(Severity::Warn, "direct".to_string()));
    match &cell.state {
        CellState::Live(filter) => assert_eq!(filter.logger.entries.len(), 1),
        other => panic!("cell should be live, was {:?}", other),
    }

    cell.retire();
    assert!(!cell.active());
    assert!(!cell.wants(Severity::Error));
}
