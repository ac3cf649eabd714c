use diwa::text::{
    chars_eq, chars_of, find_sub, join_with, parse_u64_digits, split_char, str_eq, string_of,
    sub_chars,
};

#[test]
fn strings_round_trip_through_chars() {
    let cs = chars_of("zażółć");
    assert_eq!(cs.len(), 6);
    assert_eq!(string_of(&cs), "zażółć");
}

#[test]
fn string_equality_is_by_characters() {
    assert!(str_eq("abc", "abc"));
    assert!(!str_eq("abc", "abd"));
    assert!(!str_eq("abc", "ab"));
    assert!(chars_eq(&chars_of("x"), &chars_of("x")));
    assert!(!chars_eq(&chars_of("x"), &chars_of("y")));
}

#[test]
fn substring_search_finds_the_first_occurrence() {
    let h = chars_of("abcabc");
    assert_eq!(find_sub(&h, &chars_of("bc"), 0), Some(1));
    assert_eq!(find_sub(&h, &chars_of("bc"), 2), Some(4));
    assert_eq!(find_sub(&h, &chars_of("xy"), 0), None);
    assert_eq!(find_sub(&h, &chars_of(""), 3), Some(3));
}

#[test]
fn digit_runs_parse_to_numbers() {
    let cs = chars_of("00123x");
    assert_eq!(parse_u64_digits(&cs, 0, 5), Some(123));
    assert_eq!(parse_u64_digits(&cs, 0, 6), None);
    assert_eq!(parse_u64_digits(&cs, 2, 2), None);
    assert_eq!(sub_chars(&cs, 2, 5), chars_of("123"));
}

#[test]
fn splitting_keeps_empty_sections() {
    let cs = chars_of("a::b");
    let parts = split_char(&cs, ':');
    assert_eq!(parts, vec![chars_of("a"), chars_of(""), chars_of("b")]);
    assert_eq!(split_char(&chars_of(""), ':'), vec![chars_of("")]);
}

#[test]
fn joining_inserts_the_separator_between_parts() {
    let parts = vec!["a".to_string(), "b".to_string(), "c".to_string()];
    assert_eq!(join_with(&parts, ", "), "a, b, c");
    assert_eq!(join_with(&vec!["a".to_string()], ", "), "a");
    assert_eq!(join_with(&vec![], ", "), "");
}
