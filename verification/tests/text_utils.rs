use niri_cast::text::contains_hdmi_str;
use niri_cast::text::contains_substr;
use niri_cast::text::find_substr;
use niri_cast::text::join_strings;
use niri_cast::text::split_lines;
use niri_cast::text::trim_str;
use niri_cast::text::usize_to_string;

#[test]
fn decimal_rendering() {
    assert_eq!(usize_to_string(0), "0");
    assert_eq!(usize_to_string(7), "7");
    assert_eq!(usize_to_string(42), "42");
    assert_eq!(usize_to_string(1203), "1203");
}

#[test]
fn line_splitting_matches_line_semantics() {
    assert_eq!(split_lines("a\nb\n"), vec!["a", "b"]);
    assert_eq!(split_lines("a\r\nb"), vec!["a", "b"]);
    assert_eq!(split_lines(""), Vec::<&str>::new());
    assert_eq!(split_lines("\n\n"), vec!["", ""]);
    assert_eq!(split_lines("last"), vec!["last"]);
}

#[test]
fn trimming_strips_both_ends() {
    assert_eq!(trim_str("  x y\t "), "x y");
    assert_eq!(trim_str("   "), "");
    assert_eq!(trim_str("plain"), "plain");
}

#[test]
fn substring_search_finds_first_occurrence() {
    assert_eq!(find_substr("node.name = \"v\"", "node.name = \""), Some(0));
    assert_eq!(find_substr("abcabc", "bc"), Some(1));
    assert_eq!(find_substr("abc", "zz"), None);
    assert!(contains_substr("HDMI-A-1 connected", "HDMI-A-1"));
    assert!(!contains_substr("DP-1", "HDMI"));
}

#[test]
fn hdmi_search_ignores_ascii_case() {
    assert!(contains_hdmi_str("output hdmi thing"));
    assert!(contains_hdmi_str("OUTPUT HDMI THING"));
    assert!(contains_hdmi_str("HdMi"));
    assert!(!contains_hdmi_str("hdm"));
    assert!(!contains_hdmi_str("analog"));
}

#[test]
fn joining_with_separator() {
    let names = vec!["eDP-1".to_string(), "HDMI-1".to_string(), "DP-3".to_string()];
    assert_eq!(join_strings(&names, ", "), "eDP-1, HDMI-1, DP-3");
    assert_eq!(join_strings(&vec!["solo".to_string()], ", "), "solo");
    assert_eq!(join_strings(&vec![], ", "), "");
}
