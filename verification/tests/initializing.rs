use bendsql_trace::error::InitError;
use bendsql_trace::init::{attempt, complete_attempt, InitOutcome, LoggerSlot, SinkStatus};

#[test]
fn first_valid_attempt_installs() {
    let mut slot = LoggerSlot::new();
    let r = attempt(&mut slot, "info", SinkStatus::Ready);
    assert_eq!(r, Ok(InitOutcome::Installed));
    assert!(slot.installed);
}

#[test]
fn second_identical_attempt_is_a_harmless_no_op() {
    let mut slot = LoggerSlot::new();
    let first = attempt(&mut slot, "info", SinkStatus::Ready);
    let second = attempt(&mut slot, "info", SinkStatus::Ready);
    assert_eq!(first, Ok(InitOutcome::Installed));
    assert_eq!(second, Ok(InitOutcome::DuplicateIgnored));
    assert!(slot.installed);
}

#[test]
fn invalid_level_fails_and_installs_nothing() {
    let mut slot = LoggerSlot::new();
    let r = attempt(&mut slot, "bogus", SinkStatus::Ready);
    assert_eq!(r, Err(InitError::InvalidLevel));
    assert!(!slot.installed);
}

#[test]
fn failed_sink_fails_and_installs_nothing() {
    let mut slot = LoggerSlot::new();
    let r = attempt(&mut slot, "info", SinkStatus::OpenFailed);
    assert_eq!(r, Err(InitError::SinkCreationFailed));
    assert!(!slot.installed);
}

#[test]
fn settling_respects_an_occupied_slot() {
    let mut slot = LoggerSlot::new();
    assert!(slot.install());
    let r = complete_attempt(&mut slot, SinkStatus::Ready);
    assert_eq!(r, Ok(InitOutcome::DuplicateIgnored));
    assert!(slot.installed);
}
