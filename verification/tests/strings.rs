use aleph_naught::util::string::{capitalize, to_ascii_upper};

fn capitalized(text: &str) -> String {
    let mut owned = text.to_string();
    capitalize(&mut owned);
    owned
}

#[test]
fn capitalize_empty_stays_empty() {
    assert_eq!(capitalized(""), "");
}

#[test]
fn capitalize_lowercase_word() {
    assert_eq!(capitalized("hello"), "Hello");
}

#[test]
fn capitalize_already_capitalized() {
    assert_eq!(capitalized("Hello"), "Hello");
}

#[test]
fn capitalize_changes_only_first_character() {
    assert_eq!(capitalized("hello world"), "Hello world");
    assert_eq!(capitalized("a"), "A");
    assert_eq!(capitalized("zebra crossing"), "Zebra crossing");
}

#[test]
fn capitalize_leaves_non_ascii_leading_character() {
    assert_eq!(capitalized("\u{e9}cole"), "\u{e9}cole");
    assert_eq!(capitalized("\u{df}a"), "\u{df}a");
    assert_eq!(capitalized("\u{4e16}\u{754c}"), "\u{4e16}\u{754c}");
}

#[test]
fn capitalize_leaves_digits_and_punctuation() {
    assert_eq!(capitalized("1abc"), "1abc");
    assert_eq!(capitalized(" abc"), " abc");
    assert_eq!(capitalized("{x}"), "{x}");
    assert_eq!(capitalized("`x"), "`x");
}

#[test]
fn capitalize_keeps_non_ascii_tail() {
    assert_eq!(capitalized("h\u{e9}llo"), "H\u{e9}llo");
}

#[test]
fn to_ascii_upper_maps_letters_only() {
    assert_eq!(to_ascii_upper('a'), 'A');
    assert_eq!(to_ascii_upper('z'), 'Z');
    assert_eq!(to_ascii_upper('m'), 'M');
    assert_eq!(to_ascii_upper('A'), 'A');
    assert_eq!(to_ascii_upper('0'), '0');
    assert_eq!(to_ascii_upper('\u{e9}'), '\u{e9}');
}
