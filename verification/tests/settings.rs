use jview::jview_config::settings::{
    clear_unit, get_max_connections, get_unit, is_logging_enabled, set_logging_enabled,
    set_max_connections, set_unit, Settings,
};

#[test]
fn settings_start_without_a_unit() {
    let settings = Settings::new();
    assert_eq!(get_unit(&settings), "");
    assert_eq!(get_max_connections(&settings), 10);
    assert!(is_logging_enabled(&settings));
}

#[test]
fn set_unit_is_read_back() {
    let mut settings = Settings::new();
    set_unit(&mut settings, "sshd");
    assert_eq!(get_unit(&settings), "sshd");
    set_unit(&mut settings, "nginx");
    assert_eq!(get_unit(&settings), "nginx");
}

#[test]
fn clear_unit_drops_the_unit_only() {
    let mut settings = Settings::new();
    set_unit(&mut settings, "sshd");
    set_max_connections(&mut settings, 3);
    set_logging_enabled(&mut settings, false);
    clear_unit(&mut settings);
    assert_eq!(get_unit(&settings), "");
    assert_eq!(get_max_connections(&settings), 3);
    assert!(!is_logging_enabled(&settings));
}

#[test]
fn set_unit_leaves_the_other_settings() {
    let mut settings = Settings::new();
    set_max_connections(&mut settings, 42);
    set_unit(&mut settings, "cron");
    assert_eq!(get_max_connections(&settings), 42);
    assert!(is_logging_enabled(&settings));
}

#[test]
fn max_connections_are_read_back() {
    let mut settings = Settings::new();
    set_max_connections(&mut settings, 0);
    assert_eq!(get_max_connections(&settings), 0);
    set_max_connections(&mut settings, usize::MAX);
    assert_eq!(get_max_connections(&settings), usize::MAX);
    assert_eq!(get_unit(&settings), "");
}

#[test]
fn logging_is_switched() {
    let mut settings = Settings::new();
    set_logging_enabled(&mut settings, false);
    assert!(!is_logging_enabled(&settings));
    set_logging_enabled(&mut settings, true);
    assert!(is_logging_enabled(&settings));
    assert_eq!(get_max_connections(&settings), 10);
}
