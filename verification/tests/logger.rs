use osix_firmware::logger::{level_from_str, LogLevel};

#[test]
fn unknown_level_defaults_to_info() {
    assert_eq!(level_from_str("banana"), LogLevel::Info);
}

#[test]
fn known_levels_are_parsed_case_insensitively() {
    assert_eq!(level_from_str("DEBUG"), LogLevel::Debug);
    assert_eq!(level_from_str("Trace"), LogLevel::Trace);
    assert_eq!(level_from_str("ERROR"), LogLevel::Error);
}

#[test]
fn warning_alias_and_off_are_parsed() {
    assert_eq!(level_from_str("warning"), LogLevel::Warn);
    assert_eq!(level_from_str("Warn"), LogLevel::Warn);
    assert_eq!(level_from_str("OFF"), LogLevel::Off);
    assert_eq!(level_from_str(""), LogLevel::Info);
}
