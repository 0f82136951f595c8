use listenmoe::number::{capped_product, decimal_string, pad_with_zeros, parse_unsigned};
use listenmoe::text::{
    chars_before, chars_of, has_prefix, is_whitespace, lower_chars, same_text, split_chars,
    string_of, trimmed,
};

#[test]
fn white_space_is_what_it_is_elsewhere() {
    for code in 0..=0x10ffffu32 {
        if let Some(c) = char::from_u32(code) {
            assert_eq!(is_whitespace(c), c.is_whitespace(), "{code:x}");
        }
    }
}

#[test]
fn texts_are_trimmed_split_and_lowered() {
    assert_eq!(trimmed("\u{3000} a b\t\n"), "a b");
    assert_eq!(trimmed(" \n"), "");
    let chars = chars_of("a:b::c");
    let parts: Vec<String> = split_chars(&chars, ':')
        .iter()
        .map(|part| string_of(part))
        .collect();
    assert_eq!(parts, vec!["a", "b", "", "c"]);
    assert_eq!(split_chars(&[], ':').len(), 1);
    assert_eq!(string_of(chars_before(&chars, &[':', 'b'])), "a");
    assert_eq!(string_of(&lower_chars(&chars_of("ÀbC"))), "Àbc");
    assert!(has_prefix(&chars, "a:"));
    assert!(!has_prefix(&chars, "b"));
    assert!(same_text("x", "x") && !same_text("x", "y"));
}

#[test]
fn numbers_are_written_and_read() {
    assert_eq!(decimal_string(0), "0");
    assert_eq!(decimal_string(u128::MAX), u128::MAX.to_string());
    assert_eq!(pad_with_zeros("12", 6), "000012");
    assert_eq!(pad_with_zeros("1234567", 6), "1234567");
    for text in ["0", "+7", "007", "18446744073709551615", "18446744073709551616", "-1", "", "+", "1a"] {
        assert_eq!(parse_unsigned(text), text.parse::<u64>().ok(), "{text}");
    }
    assert_eq!(capped_product(3, 4), 12);
    assert_eq!(capped_product(u64::MAX, 2), u64::MAX);
}
