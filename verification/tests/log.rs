use running::log::{
    Level, LogEntry, LogEntryLevel, Loggable, LoggingData, LoggingHandler, LoggingPreferences,
};

fn triple(entry: &LogEntry) -> (&str, Level, &str) {
    (entry.target.as_str(), entry.level, entry.line.as_str())
}

#[test]
fn preferences_start_at_debug() {
    let preferences = LoggingPreferences::new("console-target");
    assert_eq!(preferences.label(), "console-target");
    assert_eq!(
        *preferences.entry_level(),
        Some(LogEntryLevel { input_level: Some(Level::Debug), output_level: Some(Level::Debug) })
    );
    let preferences = LoggingPreferences::default();
    assert_eq!(preferences.label(), "");
    assert_eq!(
        *preferences.entry_level(),
        Some(LogEntryLevel { input_level: Some(Level::Debug), output_level: Some(Level::Debug) })
    );
}

#[test]
fn preferences_can_be_changed() {
    let mut preferences = LoggingPreferences::new("one");
    preferences.set_label("two");
    assert_eq!(preferences.label(), "two");
    let levels = LogEntryLevel { input_level: None, output_level: Some(Level::Warn) };
    preferences.set_file_level(levels);
    assert_eq!(*preferences.entry_level(), Some(levels));
    assert_eq!(preferences.label(), "two");
}

#[test]
fn logging_data_starts_empty() {
    let mut data = LoggingData::new();
    assert_eq!(data.input(), "");
    assert_eq!(data.output(), "");
    data.set_input("pop(vector)");
    assert_eq!(data.input(), "pop(vector)");
    assert_eq!(data.output(), "");
    data.set_output("Some(6)");
    assert_eq!(data.input(), "pop(vector)");
    assert_eq!(data.output(), "Some(6)");
}

#[test]
fn handler_logs_input_then_output() {
    let mut data = LoggingData::new();
    data.set_input("pop(vector)");
    data.set_output("Some(6)");
    let handler = LoggingHandler::new(LoggingPreferences::new("task"), data);
    let input = handler.log_input().unwrap();
    assert_eq!(triple(&input), ("task", Level::Debug, "pop(vector)"));
    let output = handler.log_output().unwrap();
    assert_eq!(triple(&output), ("task", Level::Debug, "Some(6)"));
    let list = handler.log();
    assert_eq!(list.len(), 2);
    assert_eq!(triple(&list[0]), ("task", Level::Debug, "pop(vector)"));
    assert_eq!(triple(&list[1]), ("task", Level::Debug, "Some(6)"));
    assert_eq!(handler.input_prefix(), "");
    assert_eq!(handler.output_prefix(), "");
}

#[test]
fn a_side_without_a_level_is_not_logged() {
    let mut data = LoggingData::new();
    data.set_input("i");
    data.set_output("o");
    let mut preferences = LoggingPreferences::new("task");
    preferences.set_file_level(LogEntryLevel { input_level: None, output_level: Some(Level::Error) });
    let handler = LoggingHandler::new(preferences, data);
    assert!(handler.log_input().is_none());
    let list = handler.log();
    assert_eq!(list.len(), 1);
    assert_eq!(triple(&list[0]), ("task", Level::Error, "o"));

    let mut handler = handler;
    handler.preferences.set_file_level(LogEntryLevel { input_level: Some(Level::Trace), output_level: None });
    assert!(handler.log_output().is_none());
    let list = handler.log();
    assert_eq!(list.len(), 1);
    assert_eq!(triple(&list[0]), ("task", Level::Trace, "i"));

    handler.preferences.set_file_level(LogEntryLevel { input_level: None, output_level: None });
    assert!(handler.log().is_empty());
}

#[test]
fn prefixes_stand_before_the_texts() {
    let mut data = LoggingData::new();
    data.set_input("i");
    data.set_output("o");
    let mut preferences = LoggingPreferences::new("verbose");
    preferences.set_file_level(LogEntryLevel {
        input_level: Some(Level::Info),
        output_level: Some(Level::Warn),
    });
    let mut task = LoggingHandler::new(preferences, data);
    task.input_prefix = String::from("in: ");
    task.output_prefix = String::from("out: ");
    assert_eq!(task.input_prefix(), "in: ");
    assert_eq!(task.output_prefix(), "out: ");
    let list = task.log();
    assert_eq!(list.len(), 2);
    assert_eq!(triple(&list[0]), ("verbose", Level::Info, "in: i"));
    assert_eq!(triple(&list[1]), ("verbose", Level::Warn, "out: o"));
}

#[test]
fn preferences_from_preferences_and_from_a_task() {
    let mut preferences = LoggingPreferences::new("task");
    let levels = LogEntryLevel { input_level: Some(Level::Info), output_level: None };
    preferences.set_file_level(levels);

    let copy = LoggingPreferences::from(&preferences);
    assert_eq!(copy.label(), "task");
    assert_eq!(*copy.entry_level(), Some(levels));

    let handler = LoggingHandler::new(preferences, LoggingData::new());
    let of_task = LoggingPreferences::from(&handler);
    assert_eq!(of_task.label(), "task");
    assert_eq!(*of_task.entry_level(), Some(levels));
    assert_eq!(handler.logging_preferences().label(), "task");
    assert_eq!(handler.logging_data().input(), "");
}
