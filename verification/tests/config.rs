use std::time::Duration;

use shared_audio_clock::config::{
    lead_time_ms_from, schedule_lead_time_ms, tls_enabled_from, Config, DEFAULT_BIND_ADDRESS,
    DEFAULT_TLS_CERT_DIR,
};

#[test]
fn defaults_are_applied_when_env_vars_absent() {
    let config = Config::from_values(None, None, None, None);
    assert_eq!(config.bind_address, DEFAULT_BIND_ADDRESS);
    assert_eq!(config.schedule_lead_time, Duration::from_millis(150));
    assert!(!config.tls_enabled);
    assert_eq!(config.tls_cert_dir, DEFAULT_TLS_CERT_DIR);
}

#[test]
fn tls_enabled_accepts_common_truthy_spellings() {
    for value in ["1", "true", "TRUE", "yes"] {
        let config = Config::from_values(None, None, Some(value.to_string()), None);
        assert!(config.tls_enabled, "expected {value:?} to enable TLS");
    }
    assert!(tls_enabled_from(Some("  yes\n")));
}

#[test]
fn tls_enabled_defaults_false_for_unrecognized_values() {
    assert!(!Config::from_values(None, None, Some("nope".to_string()), None).tls_enabled);
    assert!(!tls_enabled_from(Some("True")));
    assert!(!tls_enabled_from(Some("")));
    assert!(!tls_enabled_from(None));
}

#[test]
fn invalid_lead_time_falls_back_to_default() {
    let config = Config::from_values(None, Some("not-a-number".to_string()), None, None);
    assert_eq!(config.schedule_lead_time, Duration::from_millis(150));
}

#[test]
fn zero_lead_time_falls_back_to_default() {
    let config = Config::from_values(None, Some("0".to_string()), None, None);
    assert_eq!(config.schedule_lead_time, Duration::from_millis(150));
}

#[test]
fn explicit_values_are_used() {
    let config = Config::from_values(
        Some("0.0.0.0:3000".to_string()),
        Some("90".to_string()),
        Some("1".to_string()),
        Some("/tmp/certs".to_string()),
    );
    assert_eq!(config.bind_address, "0.0.0.0:3000");
    assert_eq!(config.schedule_lead_time, Duration::from_millis(90));
    assert!(config.tls_enabled);
    assert_eq!(config.tls_cert_dir, "/tmp/certs");
}

#[test]
fn lead_time_parsing() {
    assert_eq!(schedule_lead_time_ms(Some("250")), 250);
    assert_eq!(schedule_lead_time_ms(Some(" 250")), 150);
    assert_eq!(schedule_lead_time_ms(Some("-5")), 150);
    assert_eq!(schedule_lead_time_ms(None), 150);
    assert_eq!(lead_time_ms_from(Some(0)), 150);
    assert_eq!(lead_time_ms_from(Some(7)), 7);
    assert_eq!(lead_time_ms_from(None), 150);
}

#[test]
fn lead_time_is_read_as_a_plain_decimal_number() {
    assert_eq!(schedule_lead_time_ms(Some("250")), 250);
    assert_eq!(schedule_lead_time_ms(Some("+250")), 250);
    assert_eq!(schedule_lead_time_ms(Some(" 250")), 150);
    assert_eq!(schedule_lead_time_ms(Some("250ms")), 150);
    assert_eq!(schedule_lead_time_ms(Some("+")), 150);
    assert_eq!(schedule_lead_time_ms(Some("-5")), 150);
    assert_eq!(schedule_lead_time_ms(Some("0")), 150);
    assert_eq!(schedule_lead_time_ms(Some("18446744073709551615")), u64::MAX);
    assert_eq!(schedule_lead_time_ms(Some("18446744073709551616")), 150);
}

#[test]
fn tls_flag_ignores_any_unicode_whitespace_around_it() {
    assert!(tls_enabled_from(Some("\u{a0}yes\u{2028}")));
    assert!(tls_enabled_from(Some("\u{3000}1")));
    assert!(!tls_enabled_from(Some("\u{200b}yes")));
}
