use meeting_detector::text::{
    chars_of, contains, eq_ignore_ascii_case, is_white_space, join, lower_chars_of, same_text,
    starts_with, to_ascii_lower, trim,
};

#[test]
fn white_space_is_that_of_unicode() {
    for c in '\0'..=char::MAX {
        assert_eq!(is_white_space(c), c.is_whitespace(), "{:?}", c);
    }
}

#[test]
fn small_letters_are_those_of_ascii() {
    for c in '\0'..=char::MAX {
        assert_eq!(to_ascii_lower(c), c.to_ascii_lowercase(), "{:?}", c);
    }
}

#[test]
fn trimming_agrees_with_the_standard_library() {
    for s in ["", " ", "a", "  a ", "\u{2003}a b\u{85}", "\t\r\n", "\u{200b}a\u{200b}", "\u{e9} "] {
        assert_eq!(trim(s), s.trim());
    }
}

#[test]
fn searching_agrees_with_the_standard_library() {
    let texts = ["", "a", "ab", "aab", "CptHost", "zoom cpthost.exe", "cpthos", "\u{e9}ab"];
    for s in texts {
        for t in texts {
            assert_eq!(contains(&chars_of(s), &chars_of(t)), s.contains(t));
            assert_eq!(starts_with(s, t), s.starts_with(t));
            assert_eq!(same_text(s, t), s == t);
            assert_eq!(eq_ignore_ascii_case(s, t), s.eq_ignore_ascii_case(t));
        }
    }
    assert!(eq_ignore_ascii_case("Org.Example", "oRG.eXAMPLE"));
    assert!(!eq_ignore_ascii_case("\u{c4}", "\u{e4}"));
}

#[test]
fn lower_chars_keep_what_is_not_ascii() {
    assert_eq!(lower_chars_of("A\u{c4}z").into_iter().collect::<String>(), "a\u{c4}z");
}

#[test]
fn join_puts_texts_in_order() {
    assert_eq!(join("a\u{e9}", "b"), "a\u{e9}b");
    assert_eq!(join("", ""), "");
}
