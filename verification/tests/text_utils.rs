//! Decimal parsing, substring search and device-name cleaning.

use mechanix_wireless::text::{clean_device_name, parse_i32_str, parse_unsigned_str,
    parse_usize_str, str_contains, str_eq};

#[test]
fn parse_usize_str_accepts_plain_numerals() {
    assert_eq!(parse_usize_str("0"), Some(0));
    assert_eq!(parse_usize_str("7"), Some(7));
    assert_eq!(parse_usize_str("0042"), Some(42));
    assert_eq!(parse_usize_str("18446744073709551615"), Some(usize::MAX));
}

#[test]
fn parse_usize_str_rejects_everything_else() {
    assert_eq!(parse_usize_str(""), None);
    assert_eq!(parse_usize_str("-1"), None);
    assert_eq!(parse_usize_str("+1"), None);
    assert_eq!(parse_usize_str("1 "), None);
    assert_eq!(parse_usize_str("4x2"), None);
    assert_eq!(parse_usize_str("18446744073709551616"), None);
    assert_eq!(parse_usize_str("99999999999999999999999999"), None);
}

#[test]
fn parse_unsigned_str_accepts_a_leading_plus() {
    assert_eq!(parse_unsigned_str("42"), Some(42));
    assert_eq!(parse_unsigned_str("+42"), Some(42));
    assert_eq!(parse_unsigned_str("+0"), Some(0));
    assert_eq!(parse_unsigned_str("+"), None);
    assert_eq!(parse_unsigned_str("++1"), None);
    assert_eq!(parse_unsigned_str("-1"), None);
    assert_eq!(parse_unsigned_str(""), None);
}

#[test]
fn parse_i32_str_reads_signed_numerals() {
    assert_eq!(parse_i32_str("-55"), Some(-55));
    assert_eq!(parse_i32_str("+55"), Some(55));
    assert_eq!(parse_i32_str("+"), None);
    assert_eq!(parse_i32_str("+-1"), None);
    assert_eq!(parse_i32_str("0"), Some(0));
    assert_eq!(parse_i32_str("-0"), Some(0));
    assert_eq!(parse_i32_str("2147483647"), Some(i32::MAX));
    assert_eq!(parse_i32_str("-2147483648"), Some(i32::MIN));
    assert_eq!(parse_i32_str("2147483648"), None);
    assert_eq!(parse_i32_str("-2147483649"), None);
    assert_eq!(parse_i32_str("-"), None);
    assert_eq!(parse_i32_str("--1"), None);
    assert_eq!(parse_i32_str(""), None);
}

#[test]
fn str_contains_finds_flag_markers() {
    assert!(str_contains("[WPA2-PSK-CCMP][CURRENT]", "[CURRENT]"));
    assert!(str_contains("[CURRENT]", "[CURRENT]"));
    assert!(!str_contains("[WPA2-PSK-CCMP]", "[CURRENT]"));
    assert!(str_contains("abc", ""));
    assert!(!str_contains("ab", "abc"));
    assert!(str_contains("aab", "ab"));
}

#[test]
fn str_eq_compares_characters() {
    assert!(str_eq("HomeNet", "HomeNet"));
    assert!(!str_eq("HomeNet", "HomeNet2"));
    assert!(!str_eq("HomeNet", "homenet"));
    assert!(str_eq("", ""));
}

#[test]
fn clean_device_name_strips_the_monitor_suffix() {
    assert_eq!(
        clean_device_name("alsa_output.platform-sound.stereo-fallback.monitor"),
        "alsa_output.platform-sound.stereo-fallback"
    );
    assert_eq!(clean_device_name(".monitor"), "");
    assert_eq!(clean_device_name("speaker"), "speaker");
    assert_eq!(clean_device_name("monitor"), "monitor");
    assert_eq!(clean_device_name(""), "");
}
