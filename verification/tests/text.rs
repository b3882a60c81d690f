use rest_server::text::{chars_of, contains_text, decimal, same_text};

#[test]
fn decimal_renders_numbers() {
    assert_eq!(decimal(0), "0");
    assert_eq!(decimal(7), "7");
    assert_eq!(decimal(9), "9");
    assert_eq!(decimal(10), "10");
    assert_eq!(decimal(99), "99");
    assert_eq!(decimal(100), "100");
    assert_eq!(decimal(8080), "8080");
    assert_eq!(decimal(65535), "65535");
    assert_eq!(decimal(1234567890), "1234567890");
    assert_eq!(decimal(u64::MAX), "18446744073709551615");
}

#[test]
fn decimal_agrees_with_the_standard_rendering() {
    let mut n: u64 = 1;
    for _ in 0..60 {
        assert_eq!(decimal(n), n.to_string());
        assert_eq!(decimal(n - 1), (n - 1).to_string());
        n = n.wrapping_mul(3).wrapping_add(1);
    }
}

#[test]
fn contains_text_finds_substrings() {
    assert!(contains_text("HTTP/1.1", "HTTP"));
    assert!(contains_text("xHTTP", "HTTP"));
    assert!(contains_text("HTTP", "HTTP"));
    assert!(contains_text("HTHTTP", "HTTP"));
    assert!(contains_text("abc", ""));
    assert!(contains_text("", ""));
    assert!(contains_text("añb", "ñ"));
    assert!(!contains_text("", "HTTP"));
    assert!(!contains_text("HTT", "HTTP"));
    assert!(!contains_text("HTTp", "HTTP"));
    assert!(!contains_text("H T T P", "HTTP"));
    assert!(!contains_text("PTTH", "HTTP"));
}

#[test]
fn contains_text_agrees_with_the_standard_search() {
    let hays = ["", "a", "ab", "aab", "abab", "bbbb", "abcabc", "ααβ"];
    let needles = ["", "a", "b", "ab", "ba", "abc", "bb", "αβ", "c"];
    for hay in hays {
        for needle in needles {
            assert_eq!(contains_text(hay, needle), hay.contains(needle));
        }
    }
}

#[test]
fn same_text_compares_characters() {
    assert!(same_text("", ""));
    assert!(same_text("GET", "GET"));
    assert!(!same_text("GET", "get"));
    assert!(!same_text("GET", "GET "));
    assert!(!same_text("", " "));
}

#[test]
fn chars_of_lists_characters() {
    assert_eq!(chars_of(""), Vec::<char>::new());
    assert_eq!(chars_of("a/ñ"), vec!['a', '/', 'ñ']);
}
