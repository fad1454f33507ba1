use shared::config::{AppConfig, LogLevel};

#[test]
fn log_level_names() {
    assert_eq!(LogLevel::Info.name(), "Info");
    assert_eq!(LogLevel::Debug.name(), "Debug");
    assert_eq!(LogLevel::Error.name(), "Error");
}

#[test]
fn log_level_name_is_its_debug_form() {
    assert_eq!(LogLevel::Info.name(), format!("{:?}", LogLevel::Info));
    assert_eq!(LogLevel::Debug.name(), format!("{:?}", LogLevel::Debug));
    assert_eq!(LogLevel::Error.name(), format!("{:?}", LogLevel::Error));
}

#[test]
fn debug_text_of_debugging_settings() {
    let app = AppConfig { debug_mode: true, log_level: LogLevel::Debug };
    assert_eq!(app.debug_text(), "AppConfig { debug_mode: true, log_level: Debug }");
}

#[test]
fn debug_text_of_quiet_settings() {
    let app = AppConfig { debug_mode: false, log_level: LogLevel::Error };
    assert_eq!(app.debug_text(), "AppConfig { debug_mode: false, log_level: Error }");
}

#[test]
fn debug_text_is_the_debug_form_for_every_setting() {
    let modes = vec![true, false];
    for mode in modes.iter() {
        let info = AppConfig { debug_mode: *mode, log_level: LogLevel::Info };
        assert_eq!(info.debug_text(), format!("{:?}", info));
        let debug = AppConfig { debug_mode: *mode, log_level: LogLevel::Debug };
        assert_eq!(debug.debug_text(), format!("{:?}", debug));
        let error = AppConfig { debug_mode: *mode, log_level: LogLevel::Error };
        assert_eq!(error.debug_text(), format!("{:?}", error));
    }
}

#[test]
fn app_config_fields_are_independent() {
    let app = AppConfig { debug_mode: false, log_level: LogLevel::Info };
    assert!(!app.debug_mode);
    assert!(matches!(app.log_level, LogLevel::Info));
}
