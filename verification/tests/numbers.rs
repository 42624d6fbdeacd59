//! Decimal numerals, staging paths, and port selection.

use custom_emojikun::port::{port_from_text, DEFAULT_PORT};
use custom_emojikun::staging::staging_path;
use custom_emojikun::text::u64_to_dec;

#[test]
fn numerals() {
    assert_eq!(u64_to_dec(0), "0");
    assert_eq!(u64_to_dec(7), "7");
    assert_eq!(u64_to_dec(10), "10");
    assert_eq!(u64_to_dec(6969), "6969");
    assert_eq!(u64_to_dec(u64::MAX), "18446744073709551615");
}

#[test]
fn staging_paths() {
    assert_eq!(staging_path(0), "emoji_0.png");
    assert_eq!(staging_path(12345), "emoji_12345.png");
    assert_ne!(staging_path(1), staging_path(11));
}

#[test]
fn port_defaults_when_absent() {
    assert_eq!(port_from_text(None), DEFAULT_PORT);
    assert_eq!(DEFAULT_PORT, 6969);
}

#[test]
fn port_parses_valid_settings() {
    assert_eq!(port_from_text(Some("8080")), 8080);
    assert_eq!(port_from_text(Some("+80")), 80);
    assert_eq!(port_from_text(Some("0")), 0);
    assert_eq!(port_from_text(Some("65535")), 65535);
    assert_eq!(port_from_text(Some("0006969")), 6969);
}

#[test]
fn port_defaults_on_malformed_settings() {
    assert_eq!(port_from_text(Some("")), DEFAULT_PORT);
    assert_eq!(port_from_text(Some("+")), DEFAULT_PORT);
    assert_eq!(port_from_text(Some("65536")), DEFAULT_PORT);
    assert_eq!(port_from_text(Some("999999999999999999999")), DEFAULT_PORT);
    assert_eq!(port_from_text(Some("80a")), DEFAULT_PORT);
    assert_eq!(port_from_text(Some("-80")), DEFAULT_PORT);
    assert_eq!(port_from_text(Some(" 80")), DEFAULT_PORT);
}
