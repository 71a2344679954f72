use degenerate::text;

#[test]
fn trims_unicode_whitespace() {
    assert_eq!(text::trim("\u{3000} a b\t\n"), "a b");
    assert_eq!(text::trim(" \u{85}\u{a0} "), "");
    assert_eq!(text::trim("plain"), "plain");
    for code in 0u32..0x3100 {
        if let Some(c) = char::from_u32(code) {
            assert_eq!(text::is_white_space(c), c.is_whitespace(), "{code:x}");
            let framed = format!("{c}x{c}");
            assert_eq!(text::trim(&framed), framed.trim());
        }
    }
}

#[test]
fn blank_is_nothing_but_whitespace() {
    assert!(text::is_blank(""));
    assert!(text::is_blank(" \t\n"));
    assert!(!text::is_blank(" x "));
}

#[test]
fn finds_parts_of_a_text() {
    assert!(text::contains("status 429: slow down", "429"));
    assert!(text::contains("abc", ""));
    assert!(text::contains("", ""));
    assert!(text::contains("abc", "abc"));
    assert!(!text::contains("abc", "abcd"));
    assert!(!text::contains("aab", "ba"));
    assert!(text::contains("gr\u{fc}n", "\u{fc}n"));
}

#[test]
fn compares_without_ascii_case() {
    assert!(text::eq_ignore_ascii_case("Optimistic", "oPTIMISTIC"));
    assert!(!text::eq_ignore_ascii_case("optimistic ", "optimistic"));
    assert!(!text::eq_ignore_ascii_case("\u{c4}", "\u{e4}"));
    assert!(!text::eq_ignore_ascii_case("@", "`"));
    assert!(!text::eq_ignore_ascii_case("[", "{"));
}

#[test]
fn drops_a_character_everywhere() {
    assert_eq!(text::without_char("[\\\"Yes\\\"]", '\\'), "[\"Yes\"]");
    assert_eq!(text::without_char("", 'x'), "");
}

#[test]
fn sees_the_last_character() {
    assert!(text::ends_with("Really?", '?'));
    assert!(!text::ends_with("Really? ", '?'));
    assert!(!text::ends_with("", '?'));
}

#[test]
fn writes_numerals() {
    assert_eq!(text::u64_text(0), "0");
    assert_eq!(text::u64_text(10), "10");
    assert_eq!(text::u64_text(907), "907");
    assert_eq!(text::u64_text(u64::MAX), u64::MAX.to_string());
}

#[test]
fn reads_signed_numbers_as_std_does() {
    let samples = [
        "0", "-0", "+7", "-12", "9223372036854775807", "9223372036854775808",
        "-9223372036854775808", "-9223372036854775809", "", "-", "+", "1a", " 1", "1 ", "--1",
        "00012", "999999999999999999999999999999999999999999999",
    ];
    for s in samples {
        assert_eq!(text::parse_i64(s), s.parse::<i64>().ok(), "{s:?}");
    }
}

#[test]
fn reads_unsigned_numbers_as_std_does() {
    let samples = [
        "0", "+7", "-0", "-1", "18446744073709551615", "18446744073709551616", "", "+", "12x", "007",
        "99999999999999999999999999999",
    ];
    for s in samples {
        assert_eq!(text::parse_u64(s), s.parse::<u64>().ok(), "{s:?}");
    }
}

#[test]
fn knows_its_choices() {
    assert!(text::is_one_of("b", &["a", "b"]));
    assert!(!text::is_one_of("c", &["a", "b"]));
    assert!(!text::is_one_of("", &[]));
    assert_eq!(text::concat3("a", "", "bc"), "abc");
}
