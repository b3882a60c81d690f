use rest_server::head::RequestHead;

#[test]
fn head_stops_at_the_first_blank_line() {
    let mut head = RequestHead::new();
    assert!(!head.is_complete());
    assert!(head.lines().is_empty());
    assert!(head.feed("GET / HTTP/1.1".to_string()));
    assert!(head.feed("Host: x".to_string()));
    assert!(!head.is_complete());
    assert!(!head.feed(String::new()));
    assert!(head.is_complete());
    assert_eq!(head.lines(), &vec!["GET / HTTP/1.1".to_string(), "Host: x".to_string()]);
    assert!(!head.feed("late".to_string()));
    assert!(!head.feed(String::new()));
    assert_eq!(head.lines().len(), 2);
}

#[test]
fn head_of_a_stream_that_starts_blank_is_empty() {
    let mut head = RequestHead::new();
    assert!(!head.feed(String::new()));
    assert!(!head.feed("GET / HTTP/1.1".to_string()));
    assert!(head.is_complete());
    assert!(head.lines().is_empty());
}

#[test]
fn head_keeps_lines_of_whitespace() {
    let mut head = RequestHead::new();
    assert!(head.feed(" ".to_string()));
    assert!(head.feed("\r".to_string()));
    assert_eq!(head.lines(), &vec![" ".to_string(), "\r".to_string()]);
}
