use garage_rfid::root_logger::{log_level, LogLevel};

#[test]
fn log_level_names() {
    assert_eq!(log_level("INFO"), LogLevel::Info);
    assert_eq!(log_level("WARNING"), LogLevel::Warning);
    assert_eq!(log_level("ERROR"), LogLevel::Error);
    assert_eq!(log_level("CRITICAL"), LogLevel::Critical);
}

#[test]
fn log_level_defaults_to_info() {
    assert_eq!(log_level("info"), LogLevel::Info);
    assert_eq!(log_level("DEBUG"), LogLevel::Info);
    assert_eq!(log_level(""), LogLevel::Info);
}
