use pistactl::text::{
    chars_of, decimal_string, join_path_str, join_strings, lines_of, parse_usize,
    split_whitespace,
};

#[test]
fn decimal_forms() {
    assert_eq!("0", decimal_string(0));
    assert_eq!("7", decimal_string(7));
    assert_eq!("1234", decimal_string(1234));
    assert_eq!("18446744073709551615", decimal_string(u64::MAX));
}

#[test]
fn parse_usize_like_from_str() {
    assert_eq!(Some(5), parse_usize("5"));
    assert_eq!(Some(5), parse_usize("+5"));
    assert_eq!(Some(0), parse_usize("000"));
    assert_eq!(None, parse_usize(""));
    assert_eq!(None, parse_usize("+"));
    assert_eq!(None, parse_usize("-1"));
    assert_eq!(None, parse_usize("1a"));
    assert_eq!(None, parse_usize(" 1"));
    assert_eq!(Some(usize::MAX), parse_usize(&usize::MAX.to_string()));
    assert_eq!(None, parse_usize("99999999999999999999999"));
}

#[test]
fn split_on_unicode_whitespace() {
    assert_eq!(vec!["a", "bc", "d"], split_whitespace("  a\tbc\u{3000}d \n"));
    assert!(split_whitespace("").is_empty());
    assert!(split_whitespace(" \t ").is_empty());
}

#[test]
fn lines_like_str_lines() {
    assert_eq!(vec!["a", "b"], lines_of("a\nb\n"));
    assert_eq!(vec!["a", "b"], lines_of("a\r\nb"));
    assert_eq!(vec!["a", "", "b\r"], lines_of("a\n\nb\r"));
    assert!(lines_of("").is_empty());
    assert_eq!(vec![""], lines_of("\n"));
}

#[test]
fn join_paths() {
    assert_eq!("/a/b", join_path_str("/a", "b"));
    assert_eq!("/a/b", join_path_str("/a/", "b"));
    assert_eq!("/b", join_path_str("/a", "/b"));
    assert_eq!("b", join_path_str("", "b"));
}

#[test]
fn join_and_chars() {
    let parts = vec!["x".to_string(), "y".to_string(), "z".to_string()];
    assert_eq!("x, y, z", join_strings(&parts, ", "));
    assert_eq!("", join_strings(&Vec::new(), ", "));
    assert_eq!(vec!['h', 'é'], chars_of("hé"));
}
