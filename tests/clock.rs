use oxidbar::clock::{format_local, format_local_default};
use oxidbar::config::BarConfig;

#[test]
fn formats_with_custom_pattern() {
    let out = format_local("%Y");
    assert!(out.chars().all(|c| c.is_ascii_digit()));
    assert!(out.len() == 4);
}

#[test]
fn formats_with_default_pattern() {
    let out = format_local_default();
    assert!(!out.is_empty());
}

#[test]
fn default_pattern_has_fixed_width() {
    let out = format_local_default();
    assert_eq!(out.chars().count(), 16);
    assert_eq!(out.chars().nth(3), Some(' '));
    assert_eq!(out.chars().nth(13), Some(':'));
}

#[test]
fn literal_text_is_copied() {
    assert_eq!(format_local("bar"), "bar");
    assert_eq!(format_local("100%%"), "100%");
}

#[test]
fn default_config_values() {
    let c = BarConfig::new();
    assert_eq!(c.height, 32);
    assert_eq!(c.workspaces_check_interval_ms, 100);
    assert_eq!(c.lang_update_interval_ms, 200);
    assert_eq!(c.clock_update_interval_ms, 1000);
    assert_eq!(c.tray_update_interval_secs, 1);
    assert_eq!(c.icon_size, 20);
    assert_eq!(c.spacing, 12);
}
