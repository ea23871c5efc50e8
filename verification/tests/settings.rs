use feedmee::settings::{level_of_name, AppSettings, LogLevel};

#[test]
fn default_settings_have_the_known_values() {
    let s = AppSettings::default();
    assert_eq!(s.feed_refresh_debounce_minutes, 5);
    assert_eq!(s.refresh_all_debounce_minutes, 2);
    assert_eq!(s.auto_update_interval_minutes, 30);
    assert_eq!(s.log_level, "info");
    assert_eq!(s.last_vacuum, 0);
}

#[test]
fn level_names_are_known() {
    assert_eq!(level_of_name("error"), LogLevel::Error);
    assert_eq!(level_of_name("warn"), LogLevel::Warn);
    assert_eq!(level_of_name("debug"), LogLevel::Debug);
    assert_eq!(level_of_name("trace"), LogLevel::Trace);
    assert_eq!(level_of_name("info"), LogLevel::Info);
    assert_eq!(level_of_name("verbose"), LogLevel::Info);
    assert_eq!(level_of_name(""), LogLevel::Info);
    assert_eq!(level_of_name("ERROR"), LogLevel::Info);
}

#[test]
fn level_of_settings_ignores_case() {
    let mut s = AppSettings::default();
    assert_eq!(s.level(), LogLevel::Info);
    s.log_level = "DEBUG".to_string();
    assert_eq!(s.level(), LogLevel::Debug);
    s.log_level = "Warn".to_string();
    assert_eq!(s.level(), LogLevel::Warn);
    s.log_level = "tRaCe".to_string();
    assert_eq!(s.level(), LogLevel::Trace);
    s.log_level = "Error".to_string();
    assert_eq!(s.level(), LogLevel::Error);
    s.log_level = "loud".to_string();
    assert_eq!(s.level(), LogLevel::Info);
}
