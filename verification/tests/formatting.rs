use bendsql_trace::format::{format_line, format_record};
use bendsql_trace::level::Level;

#[test]
fn record_line_layout() {
    let line = format_line("2024-01-02T03:04:05Z", Level::Info, "module::sub", "hello");
    assert_eq!(line, "[2024-01-02T03:04:05Z] - INFO - [module::sub] hello");
}

#[test]
fn record_line_layout_other_levels() {
    assert_eq!(
        format_line("2024-01-02T03:04:05Z", Level::Error, "a", "b"),
        "[2024-01-02T03:04:05Z] - ERROR - [a] b"
    );
    assert_eq!(
        format_line("2024-01-02T03:04:05Z", Level::Warn, "a", "b"),
        "[2024-01-02T03:04:05Z] - WARN - [a] b"
    );
    assert_eq!(
        format_line("2024-01-02T03:04:05Z", Level::Debug, "a", "b"),
        "[2024-01-02T03:04:05Z] - DEBUG - [a] b"
    );
    assert_eq!(
        format_line("2024-01-02T03:04:05Z", Level::Trace, "a", "b"),
        "[2024-01-02T03:04:05Z] - TRACE - [a] b"
    );
}

#[test]
fn record_line_keeps_empty_fields_apart() {
    let line = format_line("", Level::Info, "", "");
    assert_eq!(line, "[] - INFO - [] ");
}

#[test]
fn stamped_record_wraps_a_real_timestamp() {
    let line = format_record(Level::Info, "module::sub", "hello");
    assert!(line.starts_with('['));
    assert!(line.ends_with("] - INFO - [module::sub] hello"));
    // The clock's rendering is at least date, `T`, time, and an offset.
    assert!(line.len() >= "] - INFO - [module::sub] hello".len() + 1 + 20);
}
