//! The settings of the reader, and the level of its log.

use vstd::prelude::*;
use crate::text::same_text;

verus! {

/// The settings of the reader.
#[derive(Debug, Clone)]
pub struct AppSettings {
    pub feed_refresh_debounce_minutes: u64,
    pub refresh_all_debounce_minutes: u64,
    pub auto_update_interval_minutes: u64,
    pub log_level: String,
    /// Seconds since the epoch; zero where the store was never compacted.
    pub last_vacuum: i64,
}

pub struct AppSettingsView {
    pub feed_refresh_debounce_minutes: u64,
    pub refresh_all_debounce_minutes: u64,
    pub auto_update_interval_minutes: u64,
    pub log_level: Seq<char>,
    pub last_vacuum: i64,
}

impl View for AppSettings {
    type V = AppSettingsView;

    open spec fn view(&self) -> AppSettingsView {
        AppSettingsView {
            feed_refresh_debounce_minutes: self.feed_refresh_debounce_minutes,
            refresh_all_debounce_minutes: self.refresh_all_debounce_minutes,
            auto_update_interval_minutes: self.auto_update_interval_minutes,
            log_level: self.log_level@,
            last_vacuum: self.last_vacuum,
        }
    }
}

/// The settings of a reader that has none yet.
pub open spec fn default_settings() -> AppSettingsView {
    AppSettingsView {
        feed_refresh_debounce_minutes: 5,
        refresh_all_debounce_minutes: 2,
        auto_update_interval_minutes: 30,
        log_level: "info"@,
        last_vacuum: 0,
    }
}

impl Default for AppSettings {
    fn default() -> (settings: Self)
        ensures
            settings@ == default_settings(),
    {
        AppSettings {
            feed_refresh_debounce_minutes: 5,
            refresh_all_debounce_minutes: 2,
            auto_update_interval_minutes: 30,
            log_level: "info".to_owned(),
            last_vacuum: 0,
        }
    }
}

/// How much the log holds.
#[derive(Clone, Copy, Debug, PartialEq, Eq, Structural)]
pub enum LogLevel {
    Error,
    Warn,
    Info,
    Debug,
    Trace,
}

/// `name` in lower case.
pub uninterp spec fn lowercased(name: Seq<char>) -> Seq<char>;

/// `str::to_lowercase`: the string in lower case.
pub assume_specification[ str::to_lowercase ](name: &str) -> (lower: String)
    ensures
        lower@ == lowercased(name@),
;

/// The level that a name in lower case stands for; `Info` where it stands for none.
pub open spec fn level_named(lower: Seq<char>) -> LogLevel {
    if lower == "error"@ {
        LogLevel::Error
    } else if lower == "warn"@ {
        LogLevel::Warn
    } else if lower == "debug"@ {
        LogLevel::Debug
    } else if lower == "trace"@ {
        LogLevel::Trace
    } else {
        LogLevel::Info
    }
}

/// Finds the level that a name in lower case stands for.
pub fn level_of_name(lower: &str) -> (level: LogLevel)
    ensures
        level == level_named(lower@),
{
    if same_text(lower, "error") {
        LogLevel::Error
    } else if same_text(lower, "warn") {
        LogLevel::Warn
    } else if same_text(lower, "debug") {
        LogLevel::Debug
    } else if same_text(lower, "trace") {
        LogLevel::Trace
    } else {
        LogLevel::Info
    }
}

impl AppSettings {
    /// The level of the log that the settings ask for, whatever the case of its name.
    pub fn level(&self) -> (level: LogLevel)
        ensures
            level == level_named(lowercased(self@.log_level)),
    {
        let lower = self.log_level.as_str().to_lowercase();
        level_of_name(lower.as_str())
    }
}

} // verus!
