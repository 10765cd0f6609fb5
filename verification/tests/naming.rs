use bendsql_trace::rotation::{daily_file_name, log_file_path, Date};

#[test]
fn daily_file_name_is_prefix_and_date() {
    let d = Date::new(2024, 1, 2).unwrap();
    assert_eq!(daily_file_name(d), "bendsql.2024-01-02");
}

#[test]
fn daily_file_name_pads_every_field() {
    let d = Date::new(987, 11, 30).unwrap();
    assert_eq!(daily_file_name(d), "bendsql.0987-11-30");
}

#[test]
fn log_file_path_joins_directory_and_name() {
    let d = Date::new(2024, 1, 2).unwrap();
    assert_eq!(log_file_path("/tmp/logs", d), "/tmp/logs/bendsql.2024-01-02");
}

#[test]
fn two_days_give_two_distinct_files_under_one_prefix() {
    let a = Date::new(2024, 1, 2).unwrap();
    let b = Date::new(2024, 1, 3).unwrap();
    let name_a = daily_file_name(a);
    let name_b = daily_file_name(b);
    assert_ne!(name_a, name_b);
    assert!(name_a.starts_with("bendsql."));
    assert!(name_b.starts_with("bendsql."));
}

#[test]
fn date_fields_are_validated() {
    assert!(Date::new(2024, 2, 29).is_some());
    assert!(Date::new(2024, 0, 1).is_none());
    assert!(Date::new(2024, 13, 1).is_none());
    assert!(Date::new(2024, 1, 0).is_none());
    assert!(Date::new(2024, 1, 32).is_none());
    assert!(Date::new(10000, 1, 1).is_none());
}
