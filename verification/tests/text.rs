use warp_helm::text::{
    decimal_text, split_lines, str_eq, strip_prefix, trim_end_char, trimmed_field,
};

#[test]
fn lines_end_like_those_of_std() {
    for s in ["", "\n", "a", "a\n", "a\r\nb", "a\rb\r\n\nc\r", "\r\n", "x\n\n", "é\n\u{1f600}"] {
        let expected: Vec<String> = s.lines().map(|l| l.to_string()).collect();
        assert_eq!(split_lines(s), expected, "{s:?}");
    }
}

#[test]
fn prefixes_come_off_once() {
    assert_eq!(strip_prefix("data: data: x", "data: ").as_deref(), Some("data: x"));
    assert_eq!(strip_prefix("dat", "data: "), None);
    assert_eq!(strip_prefix("date: x", "data: "), None);
    assert_eq!(strip_prefix("é", "").as_deref(), Some("é"));
}

#[test]
fn trailing_characters_all_come_off() {
    assert_eq!(trim_end_char("a//b///", '/'), "a//b");
    assert_eq!(trim_end_char("///", '/'), "");
    assert_eq!(trim_end_char("", '/'), "");
}

#[test]
fn equality_is_by_characters() {
    assert!(str_eq("é", "\u{e9}"));
    assert!(!str_eq("é", "e\u{301}"));
    assert!(!str_eq("a", "ab"));
    assert!(str_eq("", ""));
}

#[test]
fn fields_are_trimmed_by_unicode_white_space() {
    assert_eq!(trimmed_field(Some("\u{3000}\t a b \u{85}")), Some("a b"));
    assert_eq!(trimmed_field(Some("\u{2028}\u{205f}")), None);
    assert_eq!(trimmed_field(Some("\u{200b}")), Some("\u{200b}"));
    assert_eq!(trimmed_field(None), None);
}

#[test]
fn decimals_have_no_leading_zeros() {
    for n in [0u16, 7, 10, 99, 100, 8080, 65535] {
        assert_eq!(decimal_text(n), n.to_string());
    }
}
