use bendsql_trace::error::InitError;
use bendsql_trace::level::{enabled, parse_level, severity_of, Level};

#[test]
fn recognized_levels_parse() {
    assert_eq!(parse_level("off"), Ok(Level::Off));
    assert_eq!(parse_level("error"), Ok(Level::Error));
    assert_eq!(parse_level("warn"), Ok(Level::Warn));
    assert_eq!(parse_level("info"), Ok(Level::Info));
    assert_eq!(parse_level("debug"), Ok(Level::Debug));
    assert_eq!(parse_level("trace"), Ok(Level::Trace));
}

#[test]
fn parsing_ignores_ascii_case() {
    assert_eq!(parse_level("OFF"), Ok(Level::Off));
    assert_eq!(parse_level("Error"), Ok(Level::Error));
    assert_eq!(parse_level("WaRn"), Ok(Level::Warn));
    assert_eq!(parse_level("INFO"), Ok(Level::Info));
    assert_eq!(parse_level("Debug"), Ok(Level::Debug));
    assert_eq!(parse_level("TRACE"), Ok(Level::Trace));
}

#[test]
fn unrecognized_levels_fail() {
    assert_eq!(parse_level("bogus"), Err(InitError::InvalidLevel));
    assert_eq!(parse_level(""), Err(InitError::InvalidLevel));
    assert_eq!(parse_level("information"), Err(InitError::InvalidLevel));
    assert_eq!(parse_level("inf"), Err(InitError::InvalidLevel));
    assert_eq!(parse_level("off "), Err(InitError::InvalidLevel));
}

#[test]
fn severity_ranks_levels() {
    assert_eq!(severity_of(Level::Off), 0);
    assert_eq!(severity_of(Level::Error), 1);
    assert_eq!(severity_of(Level::Warn), 2);
    assert_eq!(severity_of(Level::Info), 3);
    assert_eq!(severity_of(Level::Debug), 4);
    assert_eq!(severity_of(Level::Trace), 5);
}

#[test]
fn filter_discards_records_above_threshold() {
    assert!(enabled(Level::Info, Level::Error));
    assert!(enabled(Level::Info, Level::Info));
    assert!(!enabled(Level::Info, Level::Debug));
    assert!(!enabled(Level::Error, Level::Warn));
    assert!(enabled(Level::Trace, Level::Trace));
}

#[test]
fn off_threshold_discards_everything() {
    assert!(!enabled(Level::Off, Level::Error));
    assert!(!enabled(Level::Off, Level::Trace));
    assert!(!enabled(Level::Info, Level::Off));
}

#[test]
fn error_messages_name_the_failure() {
    assert_eq!(InitError::InvalidLevel.message(), "unrecognized log level");
    assert_eq!(
        InitError::SinkCreationFailed.message(),
        "failed to open the rotating log file sink"
    );
}
