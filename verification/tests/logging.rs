use websocket_bridge::logging::{LogLevel, MAX_VERBOSITY};

#[test]
fn no_flag_logs_errors_only() {
    assert_eq!(LogLevel::from_verbosity(0), Some(LogLevel::Error));
}

#[test]
fn each_flag_raises_the_level() {
    assert_eq!(LogLevel::from_verbosity(1), Some(LogLevel::Warn));
    assert_eq!(LogLevel::from_verbosity(2), Some(LogLevel::Info));
    assert_eq!(LogLevel::from_verbosity(3), Some(LogLevel::Debug));
    assert_eq!(LogLevel::from_verbosity(4), Some(LogLevel::Trace));
}

#[test]
fn more_than_four_flags_have_no_level() {
    assert_eq!(MAX_VERBOSITY, 4);
    assert_eq!(LogLevel::from_verbosity(5), None);
    assert_eq!(LogLevel::from_verbosity(255), None);
}
