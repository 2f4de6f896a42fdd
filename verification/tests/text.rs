use vpm::text::{
    chars_of, copy_texts, decimal_text, find_first, find_last, join, lines_of, natural_text,
    next_line, space, text_of, trim,
};

fn texts(items: &[&str]) -> Vec<String> {
    items.iter().map(|s| s.to_string()).collect()
}

#[test]
fn chars_and_back() {
    let chars = chars_of("héllo");
    assert_eq!(chars, vec!['h', 'é', 'l', 'l', 'o']);
    assert_eq!(text_of(&chars, 1, 4), "éll");
    assert_eq!(text_of(&chars, 2, 2), "");
    assert_eq!(text_of(&chars, 0, 5), "héllo");
}

#[test]
fn join_puts_the_separator_between() {
    assert_eq!(join(&texts(&["a", "b"]), ","), "a,b");
    assert_eq!(join(&texts(&["a"]), ","), "a");
    assert_eq!(join(&Vec::new(), ","), "");
    assert_eq!(join(&texts(&["a", "b", "c"]), ", "), "a, b, c");
    assert_eq!(join(&texts(&["", ""]), ","), ",");
    assert_eq!(join(&texts(&["x", "", "y"]), "-"), "x--y");
}

#[test]
fn join_agrees_with_std() {
    let parts = texts(&["xbps-install", "-S", "vim", "", "zsh"]);
    assert_eq!(join(&parts, " "), parts.join(" "));
    assert_eq!(join(&parts, ""), parts.join(""));
}

#[test]
fn numerals() {
    assert_eq!(natural_text(0), "0");
    assert_eq!(natural_text(7), "7");
    assert_eq!(natural_text(10), "10");
    assert_eq!(natural_text(1234567890), "1234567890");
    assert_eq!(natural_text(u64::MAX), "18446744073709551615");
    assert_eq!(decimal_text(0), "0");
    assert_eq!(decimal_text(-1), "-1");
    assert_eq!(decimal_text(127), "127");
    assert_eq!(decimal_text(-2147483648), "-2147483648");
    assert_eq!(decimal_text(i64::MIN), "-9223372036854775808");
    assert_eq!(decimal_text(i64::MAX), "9223372036854775807");
}

#[test]
fn numerals_agree_with_std() {
    for n in [0i64, 1, 9, 10, 11, 99, 100, 101, 255, 256, 65535, -1, -9, -10, -255] {
        assert_eq!(decimal_text(n), n.to_string());
    }
}

#[test]
fn white_space_is_what_unicode_says() {
    for c in ['\u{0}', '\u{8}', '\u{e}', 'a', '\u{84}', '\u{200b}', '\u{2027}', '\u{3001}', '-'] {
        assert!(!space(c), "{c:?}");
    }
    for c in [' ', '\t', '\n', '\r', '\u{b}', '\u{c}', '\u{85}', '\u{a0}', '\u{1680}', '\u{2000}',
        '\u{200a}', '\u{2028}', '\u{2029}', '\u{202f}', '\u{205f}', '\u{3000}']
    {
        assert!(space(c), "{c:?}");
    }
}

#[test]
fn white_space_agrees_with_std() {
    for code in 0u32..0x3100 {
        if let Some(c) = char::from_u32(code) {
            assert_eq!(space(c), c.is_whitespace(), "{code:x}");
        }
    }
}

#[test]
fn lines_end_at_line_feeds() {
    assert_eq!(lines_of("a\nb\n"), texts(&["a", "b"]));
    assert_eq!(lines_of("a\nb"), texts(&["a", "b"]));
    assert_eq!(lines_of(""), Vec::<String>::new());
    assert_eq!(lines_of("\n"), texts(&[""]));
    assert_eq!(lines_of("\n\n"), texts(&["", ""]));
    assert_eq!(lines_of("a\n\nb"), texts(&["a", "", "b"]));
    assert_eq!(lines_of("no feed"), texts(&["no feed"]));
}

#[test]
fn lines_drop_the_carriage_return_before_a_line_feed() {
    assert_eq!(lines_of("a\r\nb\r\n"), texts(&["a", "b"]));
    assert_eq!(lines_of("a\r\r\nb"), texts(&["a\r", "b"]));
    assert_eq!(lines_of("a\rb\n"), texts(&["a\rb"]));
    assert_eq!(lines_of("\r\n"), texts(&[""]));
    assert_eq!(lines_of("a\r"), texts(&["a\r"]));
}

#[test]
fn lines_agree_with_std() {
    for text in ["", "a", "a\n", "\na", "a\r\n\r\nb", "x\ry\r", "\r", "\n\r\n\n", "é\nü\r\n"] {
        let expected: Vec<String> = text.lines().map(|l| l.to_string()).collect();
        assert_eq!(lines_of(text), expected, "{text:?}");
    }
}

#[test]
fn next_line_gives_bounds_and_the_next_start() {
    let chars = chars_of("ab\r\ncd\nef");
    assert_eq!(next_line(&chars, 0), (2, 4));
    assert_eq!(next_line(&chars, 4), (6, 7));
    assert_eq!(next_line(&chars, 7), (9, 9));
    assert_eq!(next_line(&chars, 1), (2, 4));
}

#[test]
fn finding_the_first_and_the_last() {
    let chars = chars_of("a-b-c d");
    assert_eq!(find_first(&chars, 0, 7, '-'), Some(1));
    assert_eq!(find_last(&chars, 0, 7, '-'), Some(3));
    assert_eq!(find_first(&chars, 2, 7, '-'), Some(3));
    assert_eq!(find_last(&chars, 0, 3, '-'), Some(1));
    assert_eq!(find_first(&chars, 4, 7, '-'), None);
    assert_eq!(find_last(&chars, 4, 7, '-'), None);
    assert_eq!(find_first(&chars, 3, 3, '-'), None);
    assert_eq!(find_first(&chars, 0, 7, ' '), Some(5));
}

#[test]
fn trimming_gives_the_bounds_of_what_is_left() {
    let chars = chars_of("  a b \t");
    assert_eq!(trim(&chars, 0, 7), (2, 5));
    assert_eq!(trim(&chars, 2, 5), (2, 5));
    assert_eq!(trim(&chars, 0, 2), (2, 2));
    assert_eq!(trim(&chars, 3, 4), (4, 4));
    let blank = chars_of(" \u{a0}\n");
    assert_eq!(trim(&blank, 0, 3), (3, 3));
}

#[test]
fn copies_are_equal() {
    let texts = texts(&["a", "", "b c"]);
    assert_eq!(copy_texts(&texts), texts);
    assert_eq!(copy_texts(&Vec::new()), Vec::<String>::new());
}
