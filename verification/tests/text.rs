use spotifatius::text::{
    chars_of, ends_with, lower_ascii, replace, same_chars, same_text, string_of,
};

#[test]
fn characters_come_out_in_order() {
    assert_eq!(chars_of("a\u{e9}z"), vec!['a', '\u{e9}', 'z']);
    assert_eq!(chars_of(""), Vec::<char>::new());
}

#[test]
fn characters_go_back_into_a_string() {
    assert_eq!(string_of(&vec!['h', 'i', '\u{f144}']), "hi\u{f144}");
    assert_eq!(string_of(&Vec::new()), "");
}

#[test]
fn texts_compare_by_their_characters() {
    assert!(same_text("abc", "abc"));
    assert!(same_text("", ""));
    assert!(!same_text("abc", "abd"));
    assert!(!same_text("abc", "ab"));
    assert!(!same_text("ab", "abc"));
    assert!(same_chars(&vec!['x'], &vec!['x']));
    assert!(!same_chars(&vec!['x'], &vec!['y']));
}

#[test]
fn replace_fills_every_occurrence() {
    assert_eq!(replace("{a} - {a}", "{a}", "x"), "x - x");
    assert_eq!(replace("abc", "b", ""), "ac");
    assert_eq!(replace("abc", "abc", "z"), "z");
    assert_eq!(replace("abc", "abcd", "z"), "abc");
    assert_eq!(replace("", "a", "z"), "");
}

#[test]
fn replace_goes_from_left_to_right_without_overlap() {
    assert_eq!(replace("aaa", "aa", "b"), "ba");
    assert_eq!(replace("aaaa", "aa", "b"), "bb");
    assert_eq!(replace("abab", "ab", "ba"), "baba");
}

#[test]
fn replace_with_an_empty_pattern_changes_nothing() {
    assert_eq!(replace("abc", "", "-"), "abc");
}

#[test]
fn replace_does_not_look_into_what_it_put_in() {
    assert_eq!(replace("ab", "a", "aa"), "aab");
}

#[test]
fn suffixes_are_found_at_the_end_only() {
    assert!(ends_with("Address already in use (os error 98)", "(os error 98)"));
    assert!(!ends_with("(os error 98) and more", "(os error 98)"));
    assert!(ends_with("abc", ""));
    assert!(ends_with("", ""));
    assert!(!ends_with("bc", "abc"));
    assert!(ends_with("abc", "abc"));
}

#[test]
fn ascii_capitals_are_lowered_and_nothing_else() {
    assert_eq!(lower_ascii("PlaYing"), "playing");
    assert_eq!(lower_ascii("AZ az @[ `{ 09"), "az az @[ `{ 09");
    assert_eq!(lower_ascii("\u{c0}\u{c9}X\u{130}"), "\u{c0}\u{c9}x\u{130}");
    assert_eq!(lower_ascii(""), "");
}
