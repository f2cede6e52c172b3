use displaymux::text::{
    chars_of, decimal_string, decode_utf16, hexadecimal_string, is_blank, join2, join3, replaced,
    scalar_chars, split_fields, string_of, strip_leading, to_ascii_lower, to_ascii_upper, trimmed,
    until_zero, white_space,
};

const SAMPLES: [&str; 7] = [
    "",
    "plain",
    "  Äpfel \u{3000}\n",
    "配對 密碼",
    "\u{85}a\u{a0}",
    "ABC xyz 123",
    "😀#a##b#",
];

#[test]
fn characters_and_strings_are_taken_apart_and_put_together() {
    for text in SAMPLES {
        let chars: Vec<char> = text.chars().collect();
        assert_eq!(chars_of(text), chars);
        assert_eq!(string_of(&chars), text);
        assert_eq!(join2(text, "x"), format!("{text}x"));
        assert_eq!(join3("a", text, "b"), format!("a{text}b"));
        assert_eq!(
            string_of(&to_ascii_upper(&chars)),
            text.to_ascii_uppercase()
        );
        assert_eq!(
            string_of(&to_ascii_lower(&chars)),
            text.to_ascii_lowercase()
        );
        assert_eq!(string_of(&trimmed(&chars)), text.trim());
        assert_eq!(is_blank(text), text.trim().is_empty());
        assert_eq!(
            split_fields(&chars, '#')
                .iter()
                .map(|part| string_of(part))
                .collect::<Vec<_>>(),
            text.split('#').collect::<Vec<_>>()
        );
    }
}

#[test]
fn white_space_is_that_of_the_standard_library() {
    for code in 0..=0x10ffff_u32 {
        if let Some(c) = char::from_u32(code) {
            assert_eq!(white_space(c), c.is_whitespace());
        }
    }
}

#[test]
fn repeated_prefixes_are_stripped() {
    for text in ["", "ab", "abab", "abac", "xab", "aab"] {
        assert_eq!(
            string_of(&strip_leading(&chars_of(text), &chars_of("ab"))),
            text.trim_start_matches("ab")
        );
    }
}

#[test]
fn replacing_does_not_overlap() {
    for (text, pattern, value) in [
        ("aaa", "aa", "b"),
        ("abcabc", "bc", ""),
        ("abc", "abc", "abcabc"),
        ("abc", "x", "y"),
    ] {
        assert_eq!(
            replaced(text, pattern, value),
            text.replace(pattern, value)
        );
    }
}

#[test]
fn numbers_are_written_as_the_standard_library_does() {
    for value in [0, 7, 10, 99, 100, 65_535, u128::MAX] {
        assert_eq!(decimal_string(value), value.to_string());
    }
    for value in [0, 1, 0xf, 0x10, 0xff, 0x100, 0xabcd, u32::MAX] {
        assert_eq!(hexadecimal_string(value, 2), format!("{value:02X}"));
        assert_eq!(hexadecimal_string(value, 4), format!("{value:04X}"));
    }
}

#[test]
fn sixteen_bit_units_end_at_zero() {
    assert_eq!(until_zero(&[1, 2, 0, 3]), vec![1, 2]);
    assert_eq!(until_zero(&[0]), Vec::<u16>::new());
    assert_eq!(until_zero(&[5]), vec![5]);
    let units = [0x41, 0xd83d, 0xde00, 0xd83d, 0x42];
    assert_eq!(
        string_of(&decode_utf16(&units)),
        String::from_utf16_lossy(&units)
    );
    assert_eq!(scalar_chars(&units), vec!['A', 'B']);
}
