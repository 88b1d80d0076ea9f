use gotify_desktop::text::{decimal_string, file_name_of, trim_end};

#[test]
fn decimal_of_small_numbers() {
    assert_eq!(decimal_string(0), "0");
    assert_eq!(decimal_string(7), "7");
    assert_eq!(decimal_string(10), "10");
    assert_eq!(decimal_string(1234567890), "1234567890");
    assert_eq!(decimal_string(-1), "-1");
    assert_eq!(decimal_string(-405), "-405");
}

#[test]
fn decimal_at_the_ends_of_the_range() {
    assert_eq!(decimal_string(i64::MAX), "9223372036854775807");
    assert_eq!(decimal_string(i64::MIN), "-9223372036854775808");
}

#[test]
fn decimal_agrees_with_the_standard_form() {
    for n in [-1000_i64, -99, -10, -9, 9, 99, 100, 101, 4096, 65535, 999_999_999_999] {
        assert_eq!(decimal_string(n), format!("{n}"));
    }
}

#[test]
fn file_name_is_the_final_segment() {
    assert_eq!(file_name_of("image/abc.png"), Some("abc.png".to_owned()));
    assert_eq!(file_name_of("static/defaultapp.png"), Some("defaultapp.png".to_owned()));
    assert_eq!(file_name_of("a/b/c/d.jpeg"), Some("d.jpeg".to_owned()));
    assert_eq!(file_name_of("plain.png"), Some("plain.png".to_owned()));
    assert_eq!(file_name_of("/rooted.png"), Some("rooted.png".to_owned()));
    assert_eq!(file_name_of("image/é.png"), Some("é.png".to_owned()));
}

#[test]
fn file_name_is_missing() {
    assert_eq!(file_name_of(""), None);
    assert_eq!(file_name_of("/"), None);
    assert_eq!(file_name_of("image/"), None);
    assert_eq!(file_name_of("."), None);
    assert_eq!(file_name_of(".."), None);
    assert_eq!(file_name_of("image/.."), None);
    assert_eq!(file_name_of("image/."), None);
}

#[test]
fn file_name_with_dots() {
    assert_eq!(file_name_of("image/..."), Some("...".to_owned()));
    assert_eq!(file_name_of("image/.hidden"), Some(".hidden".to_owned()));
    assert_eq!(file_name_of("image/a."), Some("a.".to_owned()));
    assert_eq!(file_name_of("x/.a"), Some(".a".to_owned()));
}

#[test]
fn trim_end_removes_ascii_blanks() {
    assert_eq!(trim_end("abcdef1234\n"), "abcdef1234");
    assert_eq!(trim_end("token \t\r\n\x0C"), "token");
    assert_eq!(trim_end("  lead stays"), "  lead stays");
    assert_eq!(trim_end(" a b "), " a b");
    assert_eq!(trim_end(""), "");
    assert_eq!(trim_end(" \n "), "");
}

#[test]
fn trim_end_keeps_other_blanks() {
    assert_eq!(trim_end("a\u{a0}"), "a\u{a0}");
    assert_eq!(trim_end("a\u{b}"), "a\u{b}");
    assert_eq!(trim_end("é \n"), "é");
}
