use train_viewer::decimal::{i64_to_decimal, parse_i64};
use train_viewer::text::{chars_of, find_char, same_chars, split_lines, string_of, trim_chars};

fn parse(s: &str) -> Option<i64> {
    parse_i64(&chars_of(s))
}

#[test]
fn decimal_round_trip_on_edges() {
    for n in [0i64, 7, -7, 42, 999078, -1000, i64::MAX, i64::MIN] {
        let text = i64_to_decimal(n);
        assert_eq!(text, n.to_string());
        assert_eq!(parse(&text), Some(n));
    }
}

#[test]
fn parse_follows_std_parse() {
    for s in ["0", "+7", "-0", "0012", "9223372036854775807", "-9223372036854775808"] {
        assert_eq!(parse(s), s.parse::<i64>().ok());
    }
    for s in ["", "-", "+", "1 2", " 1", "9223372036854775808", "-9223372036854775809", "12a", "--1"] {
        assert_eq!(parse(s), None);
        assert!(s.parse::<i64>().is_err());
    }
}

#[test]
fn same_chars_compares_whole_strings() {
    assert!(same_chars("PIF", "PIF"));
    assert!(!same_chars("PIF", "PI"));
    assert!(!same_chars("PIF", "PIG"));
    assert!(same_chars("", ""));
}

#[test]
fn find_char_gives_first_position() {
    assert_eq!(find_char(&chars_of("ab$c$"), '$'), Some(2));
    assert_eq!(find_char(&chars_of("abc"), '$'), None);
}

#[test]
fn lines_drop_line_endings() {
    let lines: Vec<String> = split_lines(&chars_of("a\r\nb\n\nc"))
        .iter()
        .map(|l| string_of(l))
        .collect();
    let expected: Vec<String> = "a\r\nb\n\nc".lines().map(|l| l.to_string()).collect();
    assert_eq!(lines, expected);
    assert_eq!(lines, vec!["a", "b", "", "c"]);
    assert!(split_lines(&chars_of("")).is_empty());
}

#[test]
fn trim_removes_unicode_whitespace() {
    let t = string_of(&trim_chars(&chars_of("\u{a0} a b\t\n")));
    assert_eq!(t, "a b");
}
