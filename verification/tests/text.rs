use dialog::text::decimal_string;
use dialog::text::decimal_string_i32;
use dialog::text::eq_ignore_ascii_case;
use dialog::text::split_search_path;
use dialog::text::str_eq;
use dialog::text::tool_path;
use dialog::text::trim_trailing_newlines;
use dialog::text::underline;

#[test]
fn decimal_rendering() {
    assert_eq!(decimal_string(0), "0");
    assert_eq!(decimal_string(7), "7");
    assert_eq!(decimal_string(12345), "12345");
    assert_eq!(decimal_string(u64::MAX), "18446744073709551615");
    assert_eq!(decimal_string_i32(-42), "-42");
    assert_eq!(decimal_string_i32(i32::MIN), "-2147483648");
}

#[test]
fn trailing_newlines_are_trimmed() {
    assert_eq!(trim_trailing_newlines("value\n"), "value");
    assert_eq!(trim_trailing_newlines("value\n\n\n"), "value");
    assert_eq!(trim_trailing_newlines("value"), "value");
    assert_eq!(trim_trailing_newlines("\n"), "");
    assert_eq!(trim_trailing_newlines("a\nb\n"), "a\nb");
    assert_eq!(trim_trailing_newlines(""), "");
}

#[test]
fn case_insensitive_comparison() {
    assert!(eq_ignore_ascii_case("Zenity", "zenity"));
    assert!(eq_ignore_ascii_case("KDIALOG", "kdialog"));
    assert!(!eq_ignore_ascii_case("dialog", "dialogs"));
    assert!(!eq_ignore_ascii_case("", "x"));
    assert!(str_eq("KDE", "KDE"));
    assert!(!str_eq("KDE", "kde"));
}

#[test]
fn search_path_splitting() {
    let pieces = split_search_path("/usr/local/bin:/usr/bin:/bin");
    assert_eq!(pieces, vec!["/usr/local/bin", "/usr/bin", "/bin"]);
    assert_eq!(split_search_path(""), vec![""]);
    assert_eq!(split_search_path(":a:"), vec!["", "a", ""]);
}

#[test]
fn tool_paths_are_joined_with_one_separator() {
    assert_eq!(tool_path("/usr/bin", "zenity"), "/usr/bin/zenity");
    assert_eq!(tool_path("/usr/bin/", "zenity"), "/usr/bin/zenity");
    assert_eq!(tool_path("", "zenity"), "zenity");
}

#[test]
fn underline_width() {
    assert_eq!(underline(0), "");
    assert_eq!(underline(4), "====");
}
