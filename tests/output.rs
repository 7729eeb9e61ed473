use cpkit::output::{compare_output, normalize_output, normalized_chars};

#[test]
fn normalize_strips_each_line_and_the_whole() {
    assert_eq!(normalize_output("  1 2  \n3\t\n\n"), "1 2\n3");
    assert_eq!(normalize_output("a\n  b  \n"), "a\n  b");
    assert_eq!(normalize_output("\n\n a \n"), "a");
    assert_eq!(normalize_output(""), "");
    assert_eq!(normalize_output(" \t\n \r\n"), "");
}

#[test]
fn normalize_handles_crlf() {
    assert_eq!(normalize_output("1\r\n2\r\n"), "1\n2");
}

#[test]
fn normalized_chars_match_string_form() {
    let v = normalized_chars("x  \ny\n");
    assert_eq!(v, vec!['x', '\n', 'y']);
}

#[test]
fn trailing_line_whitespace_is_ignored() {
    assert!(compare_output("1 2\n3 4", "1 2   \n3 4\t"));
    assert!(compare_output("6", "6\n"));
    assert!(compare_output("a\nb", "a \r\nb \r\n"));
}

#[test]
fn surrounding_blank_lines_are_ignored() {
    assert!(compare_output("6", "\n\n6\n\n\n"));
    assert!(compare_output("  \n6", "6"));
    assert!(compare_output("", "\n \n\t\n"));
}

#[test]
fn non_whitespace_difference_is_detected() {
    assert!(!compare_output("6", "5"));
    assert!(!compare_output("1 2 3", "1 2"));
    assert!(!compare_output("abc", "abd\n"));
    assert!(!compare_output("", "x"));
}

#[test]
fn inner_whitespace_is_significant() {
    assert!(!compare_output("1 2", "1  2"));
    assert!(!compare_output("1\n2", "1\n\n2"));
}

#[test]
fn unicode_whitespace_is_trimmed() {
    assert!(compare_output("6", "6\u{3000}\u{a0}"));
    assert!(!compare_output("6", "6\u{200b}"));
}

#[test]
fn whitespace_only_differences_compare_equal() {
    assert!(compare_output("\n \n1 2\n3 4\n\n", "1 2  \r\n3 4\t"));
    assert!(compare_output("  \t\nx\r\n\r\n", "x"));
}

#[test]
fn blank_lines_on_both_sides_compare_equal() {
    assert!(compare_output("\n\n1\n2\n\n", "  \r\n1  \r\n2\r\n \r\n\r\n"));
    assert!(!compare_output("1\n2", "1\n\n2"));
}
