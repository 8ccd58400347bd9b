use polybot::text::{
    char_is_space, chars_of, decimal_text, find_word, joined, same_text,
    signed_decimal_text,
};

#[test]
fn white_space_is_what_the_standard_library_calls_so() {
    let mut code: u32 = 0;
    while code <= 0x10FFFF {
        if let Some(c) = char::from_u32(code) {
            assert_eq!(char_is_space(c), c.is_whitespace(), "U+{:04X}", code);
        }
        code += 1;
    }
}

#[test]
fn chars_come_in_order() {
    assert_eq!(chars_of("a\u{e9}\u{1f600}z"), vec!['a', '\u{e9}', '\u{1f600}', 'z']);
    assert_eq!(chars_of(""), Vec::<char>::new());
}

#[test]
fn words_are_found_by_their_bounds() {
    let chars = chars_of("  ab\tcde ");
    assert_eq!(find_word(&chars, 0), Some((2, 4)));
    assert_eq!(find_word(&chars, 2), Some((2, 4)));
    assert_eq!(find_word(&chars, 3), Some((3, 4)));
    assert_eq!(find_word(&chars, 4), Some((5, 8)));
    assert_eq!(find_word(&chars, 8), None);
    assert_eq!(find_word(&chars, 9), None);
    assert_eq!(find_word(&chars, 10), None);
    assert_eq!(find_word(&chars, usize::MAX), None);
    assert_eq!(find_word(&chars_of(""), 0), None);
    assert_eq!(find_word(&chars_of("x"), 0), Some((0, 1)));
}

#[test]
fn words_agree_with_split_whitespace() {
    let samples = [
        "",
        " ",
        "one",
        " one",
        "one ",
        "one two",
        "\u{2028}one\u{85}two\u{1680}three",
        "/temp  Paris\n",
        "\u{feff}x y",
    ];
    for sample in samples {
        let chars = chars_of(sample);
        let mut found: Vec<String> = Vec::new();
        let mut from = 0;
        while let Some((start, end)) = find_word(&chars, from) {
            found.push(chars[start..end].iter().collect());
            from = end;
        }
        let expected: Vec<String> = sample.split_whitespace().map(|w| w.to_string()).collect();
        assert_eq!(found, expected, "{:?}", sample);
    }
}

#[test]
fn digits_are_written_one_by_one() {
    let expected = ["0", "1", "2", "3", "4", "5", "6", "7", "8", "9"];
    for d in 0..10u64 {
        assert_eq!(decimal_text(d), expected[d as usize]);
    }
}

#[test]
fn decimals_are_written_without_leading_zeros() {
    assert_eq!(decimal_text(0), "0");
    assert_eq!(decimal_text(7), "7");
    assert_eq!(decimal_text(10), "10");
    assert_eq!(decimal_text(1905), "1905");
    assert_eq!(decimal_text(u64::MAX), "18446744073709551615");
}

#[test]
fn signed_decimals_carry_their_sign() {
    assert_eq!(signed_decimal_text(0), "0");
    assert_eq!(signed_decimal_text(42), "42");
    assert_eq!(signed_decimal_text(-1), "-1");
    assert_eq!(signed_decimal_text(i64::MAX), "9223372036854775807");
    assert_eq!(signed_decimal_text(i64::MIN), "-9223372036854775808");
}

#[test]
fn texts_are_joined_and_compared() {
    assert_eq!(joined("ab", "cd"), "abcd");
    assert_eq!(joined("", ""), "");
    assert!(same_text("abc", "abc"));
    assert!(!same_text("abc", "abd"));
    assert!(!same_text("abc", "ab"));
}
