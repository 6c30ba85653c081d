use opentelemetry_otlp::text::{chars_of, find_char, str_eq, trim_bounds};

#[test]
fn equal_texts_are_equal() {
    assert!(str_eq("", ""));
    assert!(str_eq("gzip", "gzip"));
    assert!(str_eq("caf\u{e9}", "caf\u{e9}"));
    assert!(!str_eq("gzip", "gzi"));
    assert!(!str_eq("gzip", "gzit"));
    assert!(!str_eq("", " "));
    assert!(!str_eq("e\u{301}", "\u{e9}"));
}

#[test]
fn the_characters_of_a_text() {
    assert_eq!(chars_of(""), Vec::<char>::new());
    assert_eq!(chars_of("a\u{e9}\u{4e2d}"), vec!['a', '\u{e9}', '\u{4e2d}']);
}

#[test]
fn the_first_separator_is_found() {
    let chars = chars_of("ab,cd,e");
    assert_eq!(find_char(&chars, 0, 7, ','), 2);
    assert_eq!(find_char(&chars, 3, 7, ','), 5);
    assert_eq!(find_char(&chars, 6, 7, ','), 7);
    assert_eq!(find_char(&chars, 0, 2, ','), 2);
    assert_eq!(find_char(&chars, 2, 2, ','), 2);
    assert_eq!(find_char(&chars, 0, 7, 'x'), 7);
}

#[test]
fn blanks_are_trimmed_at_both_ends() {
    let chars = chars_of("  a b\t\r\n");
    assert_eq!(trim_bounds(&chars, 0, chars.len()), (2, 5));
    assert_eq!(trim_bounds(&chars, 0, 2), (2, 2));
    assert_eq!(trim_bounds(&chars, 3, 4), (4, 4));
    assert_eq!(trim_bounds(&chars, 2, 5), (2, 5));
    let chars = chars_of("\u{a0}x\u{a0}");
    assert_eq!(trim_bounds(&chars, 0, 3), (0, 3));
}
