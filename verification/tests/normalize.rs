use topsy_turvy::normalize::{chars_of, is_whitespace, normalize_chars, outputs_match, split, trimmed_len};

fn normal(s: &str) -> String {
    normalize_chars(&chars_of(s)).into_iter().collect()
}

#[test]
fn whitespace_is_what_std_calls_whitespace() {
    for u in 0..=0x10ffff_u32 {
        if let Some(c) = char::from_u32(u) {
            assert_eq!(is_whitespace(c), c.is_whitespace(), "U+{u:04X}");
        }
    }
}

#[test]
fn a_final_line_feed_opens_no_line() {
    assert_eq!(normal("15\n"), "15");
    assert_eq!(normal("15"), "15");
    assert_eq!(normal(""), "");
    assert_eq!(normal("\n"), "");
}

#[test]
fn blank_lines_are_kept() {
    assert_eq!(normal("a\n\nb\n"), "a\n\nb");
    assert_eq!(normal("a\n\n"), "a\n");
    assert_eq!(normal("\n\na"), "\n\na");
}

#[test]
fn only_trailing_whitespace_is_trimmed() {
    assert_eq!(normal("  a  \n b\t\r\n"), "  a\n b");
    assert_eq!(normal("a \u{3000}\nb\u{a0}"), "a\nb");
    assert_eq!(normal("   "), "");
}

#[test]
fn normalization_agrees_with_lines_and_trim_end() {
    for s in ["", "\n", "a", "a\n", "a\r\n", "a \n b \n", "\n\n", " \n \n", "x\ny", "x\n\ny\n\n", "\r", "a\rb \r\n"] {
        let expected = s.lines().map(str::trim_end).collect::<Vec<_>>().join("\n");
        assert_eq!(normal(s), expected, "{s:?}");
    }
}

#[test]
fn split_cuts_at_line_feeds() {
    let lines = split(&chars_of("ab\n\ncd"));
    let lines: Vec<String> = lines.into_iter().map(|l| l.into_iter().collect()).collect();
    assert_eq!(lines, ["ab", "", "cd"]);
    assert!(split(&chars_of("")).is_empty());
    assert_eq!(split(&chars_of("\n")).len(), 1);
}

#[test]
fn trimmed_len_stops_at_the_last_visible_character() {
    assert_eq!(trimmed_len(&chars_of("ab  ")), 2);
    assert_eq!(trimmed_len(&chars_of("  ")), 0);
    assert_eq!(trimmed_len(&chars_of(" a b")), 4);
    assert_eq!(trimmed_len(&chars_of("")), 0);
}

#[test]
fn outputs_match_after_normalization_only() {
    assert!(outputs_match("15\n", "15"));
    assert!(outputs_match("1 \n2\t\n", "1\n2"));
    assert!(!outputs_match(" 15", "15"));
    assert!(!outputs_match("15\n\n", "15"));
    assert!(!outputs_match("0\n", "15"));
    assert!(!outputs_match("1\n2", "12"));
}

#[test]
fn chars_of_reads_every_character() {
    assert_eq!(chars_of("aé\u{1f600}"), vec!['a', 'é', '\u{1f600}']);
    assert!(chars_of("").is_empty());
}
