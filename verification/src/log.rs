//! What a task logs, under which label and at which level. The entries are
//! made here; sending them to a log is left to the program.

use vstd::prelude::*;

verus! {

/// How much an entry matters, from the gravest level to the slightest.
#[derive(Debug, Clone, Copy, PartialEq, Eq, Structural)]
pub enum Level {
    Error,
    Warn,
    Info,
    Debug,
    Trace,
}

/// The levels at which a task logs its input and its output. A side without
/// a level is not logged.
#[derive(Debug, Clone, Copy, PartialEq, Eq, Structural)]
pub struct LogEntryLevel {
    pub input_level: Option<Level>,
    pub output_level: Option<Level>,
}

/// Under which label a task logs, and at which levels.
#[derive(Debug, Clone)]
pub struct LoggingPreferences {
    label: String,
    entry_level: Option<LogEntryLevel>,
}

/// Logging preferences as contracts see them.
pub struct LoggingPreferencesView {
    pub label: Seq<char>,
    pub entry_level: Option<LogEntryLevel>,
}

impl View for LoggingPreferences {
    type V = LoggingPreferencesView;

    closed spec fn view(&self) -> LoggingPreferencesView {
        LoggingPreferencesView { label: self.label@, entry_level: self.entry_level }
    }
}

/// The levels of a task that was told nothing else: input and output both at
/// `Debug`.
pub open spec fn default_entry_level() -> Option<LogEntryLevel> {
    Some(LogEntryLevel { input_level: Some(Level::Debug), output_level: Some(Level::Debug) })
}

impl LoggingPreferences {
    /// Preferences with the given label and the default levels.
    pub fn new(label: &str) -> (preferences: Self)
        ensures
            preferences@.label == label@,
            preferences@.entry_level == default_entry_level(),
    {
        let mut logging_preferences = LoggingPreferences::default();
        logging_preferences.label = String::from_str(label);
        logging_preferences
    }

    /// The label under which the task logs.
    pub fn label(&self) -> (label: &str)
        ensures
            label@ == self@.label,
    {
        self.label.as_str()
    }

    /// The levels at which the task logs, if it logs at all.
    pub fn entry_level(&self) -> (entry_level: &Option<LogEntryLevel>)
        ensures
            *entry_level == self@.entry_level,
    {
        &self.entry_level
    }

    /// Puts another label in place of the one that was there.
    pub fn set_label(&mut self, label: &str)
        ensures
            final(self)@.label == label@,
            final(self)@.entry_level == old(self)@.entry_level,
    {
        self.label = String::from_str(label);
    }

    /// Puts other levels in place of those that were there.
    pub fn set_file_level(&mut self, file_level: LogEntryLevel)
        ensures
            final(self)@.label == old(self)@.label,
            final(self)@.entry_level == Some(file_level),
    {
        self.entry_level = Some(file_level);
    }
}

impl Default for LoggingPreferences {
    /// Preferences with an empty label and the default levels.
    fn default() -> (preferences: Self)
        ensures
            preferences@.label == Seq::<char>::empty(),
            preferences@.entry_level == default_entry_level(),
    {
        LoggingPreferences {
            label: String::new(),
            entry_level: Some(
                LogEntryLevel { input_level: Some(Level::Debug), output_level: Some(Level::Debug) },
            ),
        }
    }
}

impl<'a> From<&'a LoggingPreferences> for LoggingPreferences {
    /// The same preferences, once more.
    fn from(logging_preferences: &'a LoggingPreferences) -> (preferences: Self) {
        LoggingPreferences {
            label: logging_preferences.label.clone(),
            entry_level: logging_preferences.entry_level,
        }
    }
}

impl<'a> vstd::std_specs::convert::FromSpecImpl<&'a LoggingPreferences> for LoggingPreferences {
    open spec fn obeys_from_spec() -> bool {
        true
    }

    open spec fn from_spec(logging_preferences: &'a LoggingPreferences) -> Self {
        *logging_preferences
    }
}

/// What a task has to say about its input and about its output.
#[derive(Debug, Clone)]
pub struct LoggingData {
    pub input: String,
    pub output: String,
}

/// Logging data as contracts see it.
pub struct LoggingDataView {
    pub input: Seq<char>,
    pub output: Seq<char>,
}

impl View for LoggingData {
    type V = LoggingDataView;

    open spec fn view(&self) -> LoggingDataView {
        LoggingDataView { input: self.input@, output: self.output@ }
    }
}

impl LoggingData {
    /// Logging data with nothing to say.
    pub fn new() -> (data: Self)
        ensures
            data@.input == Seq::<char>::empty(),
            data@.output == Seq::<char>::empty(),
    {
        LoggingData { input: String::new(), output: String::new() }
    }

    /// What the task says about its input.
    pub fn input(&self) -> (input: &str)
        ensures
            input@ == self@.input,
    {
        self.input.as_str()
    }

    /// What the task says about its output.
    pub fn output(&self) -> (output: &str)
        ensures
            output@ == self@.output,
    {
        self.output.as_str()
    }

    /// Puts another text in place of what the task said about its input.
    pub fn set_input(&mut self, input: &str)
        ensures
            final(self)@.input == input@,
            final(self)@.output == old(self)@.output,
    {
        self.input = String::from_str(input);
    }

    /// Puts another text in place of what the task said about its output.
    pub fn set_output(&mut self, output: &str)
        ensures
            final(self)@.input == old(self)@.input,
            final(self)@.output == output@,
    {
        self.output = String::from_str(output);
    }
}

/// One entry for the log: the label under which it goes, its level, and its
/// line.
#[derive(Debug, Clone)]
pub struct LogEntry {
    pub target: String,
    pub level: Level,
    pub line: String,
}

/// A log entry as contracts see it.
pub struct LogEntryView {
    pub target: Seq<char>,
    pub level: Level,
    pub line: Seq<char>,
}

impl View for LogEntry {
    type V = LogEntryView;

    open spec fn view(&self) -> LogEntryView {
        LogEntryView { target: self.target@, level: self.level, line: self.line@ }
    }
}

/// The view of an optional entry.
pub open spec fn entry_view(entry: Option<LogEntry>) -> Option<LogEntryView> {
    match entry {
        Some(entry) => Some(entry@),
        None => None,
    }
}

/// The entry that a task logs for one side, input or output: under the
/// label, at the level of that side, the prefix followed by the text. There
/// is none where the task has no levels, or none for that side.
pub open spec fn entry_for(
    label: Seq<char>,
    level: Option<Level>,
    prefix: Seq<char>,
    text: Seq<char>,
) -> Option<LogEntryView> {
    match level {
        Some(level) => Some(LogEntryView { target: label, level, line: prefix + text }),
        None => None,
    }
}

/// The level at which the input is logged.
pub open spec fn input_level(preferences: LoggingPreferencesView) -> Option<Level> {
    match preferences.entry_level {
        Some(entry_level) => entry_level.input_level,
        None => None,
    }
}

/// The level at which the output is logged.
pub open spec fn output_level(preferences: LoggingPreferencesView) -> Option<Level> {
    match preferences.entry_level {
        Some(entry_level) => entry_level.output_level,
        None => None,
    }
}

/// The entries that are there, the first before the second.
pub open spec fn entries(first: Option<LogEntryView>, second: Option<LogEntryView>) -> Seq<
    LogEntryView,
> {
    let first = match first {
        Some(entry) => seq![entry],
        None => Seq::empty(),
    };
    let second = match second {
        Some(entry) => seq![entry],
        None => Seq::empty(),
    };
    first + second
}

/// The views of a list of entries.
pub open spec fn entry_views(entries: Seq<LogEntry>) -> Seq<LogEntryView> {
    entries.map_values(|entry: LogEntry| entry@)
}

fn entry(label: &str, level: Option<Level>, prefix: &str, text: &str) -> (entry: Option<LogEntry>)
    ensures
        entry_view(entry) == entry_for(label@, level, prefix@, text@),
{
    match level {
        Some(level) => {
            let mut line = String::from_str(prefix);
            line.append(text);
            Some(LogEntry { target: String::from_str(label), level, line })
        },
        None => None,
    }
}

/// Tasks that log what goes into them and what comes out.
pub trait Loggable {
    /// The preferences of the task.
    spec fn preferences(&self) -> LoggingPreferences;

    /// What the task has to say.
    spec fn data(&self) -> LoggingData;

    /// What stands before the input in its entry.
    spec fn input_prefix_text(&self) -> Seq<char>;

    /// What stands before the output in its entry.
    spec fn output_prefix_text(&self) -> Seq<char>;

    fn logging_preferences(&self) -> (preferences: &LoggingPreferences)
        ensures
            *preferences == self.preferences(),
    ;

    fn logging_data(&self) -> (data: &LoggingData)
        ensures
            *data == self.data(),
    ;

    fn input_prefix(&self) -> (prefix: &str)
        ensures
            prefix@ == self.input_prefix_text(),
    ;

    fn output_prefix(&self) -> (prefix: &str)
        ensures
            prefix@ == self.output_prefix_text(),
    ;

    /// The entry that announces the input, where the input is logged.
    fn log_input(&self) -> (entry: Option<LogEntry>)
        ensures
            entry_view(entry) == entry_for(
                self.preferences()@.label,
                input_level(self.preferences()@),
                self.input_prefix_text(),
                self.data()@.input,
            ),
    {
        let logging_preferences = self.logging_preferences();
        let level = match logging_preferences.entry_level() {
            Some(entry_level) => entry_level.input_level,
            None => None,
        };
        entry(
            logging_preferences.label(),
            level,
            self.input_prefix(),
            self.logging_data().input(),
        )
    }

    /// The entry that announces the output, where the output is logged.
    fn log_output(&self) -> (entry: Option<LogEntry>)
        ensures
            entry_view(entry) == entry_for(
                self.preferences()@.label,
                output_level(self.preferences()@),
                self.output_prefix_text(),
                self.data()@.output,
            ),
    {
        let logging_preferences = self.logging_preferences();
        let level = match logging_preferences.entry_level() {
            Some(entry_level) => entry_level.output_level,
            None => None,
        };
        entry(
            logging_preferences.label(),
            level,
            self.output_prefix(),
            self.logging_data().output(),
        )
    }

    /// The entries of the task: that of the input, then that of the output,
    /// each where it is logged.
    fn log(&self) -> (list: Vec<LogEntry>)
        ensures
            entry_views(list@) == entries(
                entry_for(
                    self.preferences()@.label,
                    input_level(self.preferences()@),
                    self.input_prefix_text(),
                    self.data()@.input,
                ),
                entry_for(
                    self.preferences()@.label,
                    output_level(self.preferences()@),
                    self.output_prefix_text(),
                    self.data()@.output,
                ),
            ),
    {
        let mut list: Vec<LogEntry> = Vec::new();
        if let Some(entry) = self.log_input() {
            list.push(entry);
        }
        if let Some(entry) = self.log_output() {
            list.push(entry);
        }
        list
    }
}

/// A task's logging, held in one place: its preferences, its data, and the
/// prefixes of its entries.
#[derive(Debug, Clone)]
pub struct LoggingHandler {
    pub preferences: LoggingPreferences,
    pub data: LoggingData,
    pub input_prefix: String,
    pub output_prefix: String,
}

impl LoggingHandler {
    /// A handler that logs without prefixes.
    pub fn new(preferences: LoggingPreferences, data: LoggingData) -> (handler: Self)
        ensures
            handler.preferences == preferences,
            handler.data == data,
            handler.input_prefix@ == Seq::<char>::empty(),
            handler.output_prefix@ == Seq::<char>::empty(),
    {
        LoggingHandler {
            preferences,
            data,
            input_prefix: String::new(),
            output_prefix: String::new(),
        }
    }
}

impl Loggable for LoggingHandler {
    open spec fn preferences(&self) -> LoggingPreferences {
        self.preferences
    }

    open spec fn data(&self) -> LoggingData {
        self.data
    }

    open spec fn input_prefix_text(&self) -> Seq<char> {
        self.input_prefix@
    }

    open spec fn output_prefix_text(&self) -> Seq<char> {
        self.output_prefix@
    }

    fn logging_preferences(&self) -> (preferences: &LoggingPreferences) {
        &self.preferences
    }

    fn logging_data(&self) -> (data: &LoggingData) {
        &self.data
    }

    fn input_prefix(&self) -> (prefix: &str) {
        self.input_prefix.as_str()
    }

    fn output_prefix(&self) -> (prefix: &str) {
        self.output_prefix.as_str()
    }
}

impl<'a, T: Loggable> From<&'a T> for LoggingPreferences {
    /// The preferences of a task, as a value of their own.
    fn from(loggable_task: &'a T) -> (preferences: Self) {
        let logging_preferences = loggable_task.logging_preferences();
        LoggingPreferences {
            label: logging_preferences.label.clone(),
            entry_level: logging_preferences.entry_level,
        }
    }
}

impl<'a, T: Loggable> vstd::std_specs::convert::FromSpecImpl<&'a T> for LoggingPreferences {
    open spec fn obeys_from_spec() -> bool {
        true
    }

    open spec fn from_spec(loggable_task: &'a T) -> Self {
        loggable_task.preferences()
    }
}

} // verus!
