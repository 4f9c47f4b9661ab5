use remote_control::browser::normalize_url;
use remote_control::strutil::contains_str;
use remote_control::strutil::starts_with_str;
use remote_control::strutil::str_eq;
use remote_control::strutil::strip_bom;
use remote_control::strutil::trim_spaces;
use remote_control::Config;

#[test]
fn bare_hosts_get_the_secure_scheme() {
    assert_eq!(normalize_url("example.com"), "https://example.com");
    assert_eq!(normalize_url("example.com/path?q=1"), "https://example.com/path?q=1");
}

#[test]
fn urls_with_a_scheme_are_left_alone() {
    assert_eq!(normalize_url("http://example.com"), "http://example.com");
    assert_eq!(normalize_url("https://example.com"), "https://example.com");
}

#[test]
fn string_equality_is_by_characters() {
    assert!(str_eq("0xAB", "0xAB"));
    assert!(!str_eq("0xAB", "0xab"));
    assert!(!str_eq("0xAB", "0xABC"));
    assert!(str_eq("", ""));
}

#[test]
fn prefix_test() {
    assert!(starts_with_str("0xFFFFFFFF", "0x"));
    assert!(!starts_with_str("x0", "0x"));
    assert!(!starts_with_str("0", "0x"));
    assert!(starts_with_str("anything", ""));
}

#[test]
fn substring_test() {
    assert!(contains_str("SteelSeries Sonar - Gaming", "SteelSeries Sonar"));
    assert!(!contains_str("Speakers", "SteelSeries Sonar"));
    assert!(contains_str("abc", ""));
    assert!(!contains_str("ab", "abc"));
}

#[test]
fn trimming_strips_line_whitespace() {
    assert_eq!(trim_spaces("  0xAB\r\n"), "0xAB");
    assert_eq!(trim_spaces("0xAB"), "0xAB");
    assert_eq!(trim_spaces(" \t \r\n"), "");
    assert_eq!(trim_spaces(""), "");
}

#[test]
fn bom_stripping_removes_leading_marks_only() {
    assert_eq!(strip_bom("\u{feff}abc"), "abc");
    assert_eq!(strip_bom("\u{feff}\u{feff}abc"), "abc");
    assert_eq!(strip_bom("abc"), "abc");
    assert_eq!(strip_bom("a\u{feff}bc"), "a\u{feff}bc");
}

#[test]
fn default_config_matches_the_shipped_values() {
    let c = Config::default();
    assert_eq!(c.com_port, 8);
    assert_eq!(c.baud_rate, 9600);
    assert!(c.binds.is_empty());
    assert!(c.steel_series_filter);
}
