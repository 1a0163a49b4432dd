//! Text, character by character.

use voicestudio::text::{
    blank, chars_of, clock_text, eq_ignore_ascii_case, number, same, trim, white_space, word_count,
};

#[test]
fn white_space_is_what_unicode_calls_white_space() {
    for c in (0..=0x10FFFFu32).filter_map(char::from_u32) {
        assert_eq!(white_space(c), c.is_whitespace(), "{c:?}");
    }
}

#[test]
fn trimming_takes_white_space_off_both_ends() {
    for text in ["", " ", "a", " a ", "\t\u{a0}two words\u{3000}\n", "  \n", "é ", " ọ̀rọ̀ "] {
        assert_eq!(trim(text), text.trim(), "{text:?}");
        assert_eq!(blank(text), text.trim().is_empty(), "{text:?}");
    }
}

#[test]
fn words_are_counted_as_they_are_split() {
    for text in ["", " ", "one", "one two", " one  two\tthree\n", "a\u{2003}b", "ẹ kú àárọ̀"] {
        assert_eq!(word_count(text), text.split_whitespace().count(), "{text:?}");
    }
}

#[test]
fn numbers_are_written_in_base_ten() {
    for n in [0u128, 7, 9, 10, 42, 100, 1_000, 65_535, u64::MAX as u128, u128::MAX] {
        assert_eq!(number(n), n.to_string());
    }
}

#[test]
fn minutes_and_seconds_have_two_digits_of_seconds() {
    assert_eq!(clock_text(0), "0:00");
    assert_eq!(clock_text(9), "0:09");
    assert_eq!(clock_text(75), "1:15");
    assert_eq!(clock_text(3_600), "60:00");
}

#[test]
fn the_case_of_latin_letters_does_not_matter() {
    assert!(eq_ignore_ascii_case("JSONrpc", "jsonrpc"));
    assert!(!eq_ignore_ascii_case("jsonrpc ", "jsonrpc"));
    assert!(!eq_ignore_ascii_case("É", "é"));
    assert!(eq_ignore_ascii_case("@[`{", "@[`{"));
    assert!(!eq_ignore_ascii_case("@", "`"));
}

#[test]
fn texts_are_the_same_by_their_characters() {
    assert!(same("voice-1", "voice-1"));
    assert!(!same("voice-1", "voice-10"));
    assert_eq!(chars_of("aé🎙"), vec!['a', 'é', '🎙']);
}
