use eventkit_core::text::{
    chars_of, find_text, has_text, is_text, join, push_decimal, push_signed, same_text,
    split_at_first,
};

#[test]
fn texts_are_compared_by_their_characters() {
    assert!(same_text("äb", "äb"));
    assert!(!same_text("ab", "aB"));
    assert!(is_text(&Some("x".to_string()), "x"));
    assert!(!is_text(&Some("x".to_string()), "y"));
    assert!(!is_text(&None, "x"));
    assert_eq!(chars_of("aé☃"), vec!['a', 'é', '☃']);
}

#[test]
fn texts_are_found_at_their_first_place() {
    assert_eq!(find_text("abcabc", "ca"), Some(2));
    assert_eq!(find_text("éa: b: c", ": "), Some(2));
    assert_eq!(find_text("abc", ""), Some(0));
    assert_eq!(find_text("abc", "abcd"), None);
    assert!(has_text("abc", "bc"));
    assert!(!has_text("abc", "cb"));
}

#[test]
fn texts_are_cut_at_the_first_separator() {
    let parts = split_at_first("id: a: b", ": ").unwrap();
    assert_eq!(parts, ("id".to_string(), "a: b".to_string()));
    assert_eq!(split_at_first("no separator", ": "), None);
    assert_eq!(split_at_first(": x", ": ").unwrap(), (String::new(), "x".to_string()));
}

#[test]
fn texts_are_joined() {
    let parts = vec!["a".to_string(), "b".to_string(), "c".to_string()];
    assert_eq!(join(&parts, ", "), "a, b, c");
    assert_eq!(join(&Vec::new(), ", "), "");
    assert_eq!(join(&vec!["x".to_string()], ", "), "x");
}

#[test]
fn numbers_are_written_in_decimal() {
    let mut s = String::from("n=");
    push_decimal(&mut s, 0);
    push_decimal(&mut s, 1_234_567_890);
    assert_eq!(s, "n=01234567890");
    let mut s = String::new();
    push_decimal(&mut s, u64::MAX);
    assert_eq!(s, u64::MAX.to_string());
    let mut s = String::new();
    push_signed(&mut s, i32::MIN);
    push_signed(&mut s, 7);
    assert_eq!(s, "-21474836487");
}
