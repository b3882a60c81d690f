use rest_server::error::RequestFault;
use rest_server::grammar::{
    parse_request_line, request_from_captures, GROUP_COUNT, HTTP_REGEX_PATTERN,
};
use rest_server::method::HttpMethod;
use rest_server::request::{HttpRequest, BODY_PLACEHOLDER};

fn groups(text: &[Option<&str>]) -> Option<Vec<Option<String>>> {
    Some(text.iter().map(|group| group.map(|t| t.to_string())).collect())
}

fn accepted(line: &str) -> HttpRequest {
    parse_request_line(line).unwrap()
}

fn no_match(line: &str) -> Result<(), RequestFault> {
    Err(RequestFault::NoMatch { line: line.to_string() })
}

#[test]
fn get_ping_is_parsed() {
    let request = accepted("GET /ping HTTP/1.1");
    assert_eq!(request.method(), HttpMethod::GET);
    assert_eq!(request.path(), "/ping");
    assert!(request.headers().is_empty());
    assert_eq!(request.body(), "todo");
    assert_eq!(request.body(), BODY_PLACEHOLDER);
}

#[test]
fn post_is_parsed() {
    let request = accepted("POST /items/7 HTTP/2");
    assert_eq!(request.method(), HttpMethod::POST);
    assert_eq!(request.path(), "/items/7");
}

#[test]
fn delete_matches_the_grammar_and_fails_the_method_check() {
    assert_eq!(
        parse_request_line("DELETE /x HTTP/1.1").map(|_| ()),
        Err(RequestFault::Method { token: "DELETE".to_string() })
    );
}

#[test]
fn option_and_put_fail_the_method_check() {
    for token in ["OPTION", "PUT"] {
        let line = format!("{} /x HTTP/1.1", token);
        assert_eq!(
            parse_request_line(&line).map(|_| ()),
            Err(RequestFault::Method { token: token.to_string() })
        );
    }
}

#[test]
fn unknown_method_does_not_match_the_grammar() {
    for line in ["PATCH /x HTTP/1.1", "get /x HTTP/1.1", "Get /x HTTP/1.1", "OPTIONS /x HTTP/1.1"] {
        assert_eq!(parse_request_line(line).map(|_| ()), no_match(line));
    }
}

#[test]
fn path_starts_with_a_slash() {
    for line in ["GET ping HTTP/1.1", "GET x/ HTTP/1.1", "GET  HTTP/1.1"] {
        assert_eq!(parse_request_line(line).map(|_| ()), no_match(line));
    }
    assert_eq!(accepted("GET / HTTP/1.1").path(), "/");
    assert_eq!(accepted("GET /a?b=c&d=%20 HTTP/1.1").path(), "/a?b=c&d=%20");
}

#[test]
fn tokens_are_parted_by_a_single_space() {
    for line in [
        "GET  /x HTTP/1.1",
        "GET /x  HTTP/1.1",
        "GET/x HTTP/1.1",
        "GET /xHTTP/1.1",
        "GET\t/x\tHTTP/1.1",
        "GET\t/x HTTP/1.1",
        "GET /x\u{a0}HTTP/1.1",
    ] {
        assert_eq!(parse_request_line(line).map(|_| ()), no_match(line));
    }
}

#[test]
fn line_ends_with_the_protocol() {
    for line in ["GET /x HTTP/1.1 ", "GET /x HTTP/1.1 extra", "GET /x", "GET /x ", "GET /x HTTP/1.1\r"] {
        assert_eq!(parse_request_line(line).map(|_| ()), no_match(line));
    }
}

#[test]
fn match_may_start_inside_the_line() {
    let request = accepted("noise GET /x HTTP/1.1");
    assert_eq!(request.method(), HttpMethod::GET);
    assert_eq!(request.path(), "/x");
    let request = accepted("PUTPOST /y HTTP/1.1");
    assert_eq!(request.method(), HttpMethod::POST);
    assert_eq!(request.path(), "/y");
}

#[test]
fn protocol_holds_http_anywhere() {
    for protocol in ["HTTP", "HTTP/1.1", "xHTTPx", "SHTTP", "1.1/HTTP"] {
        let line = format!("GET /x {}", protocol);
        assert_eq!(accepted(&line).path(), "/x");
    }
    for protocol in ["http/1.1", "HTT", "H-TTP", "FTP", "HTPT", "1"] {
        let line = format!("GET /x {}", protocol);
        assert_eq!(
            parse_request_line(&line).map(|_| ()),
            Err(RequestFault::Protocol { token: protocol.to_string() })
        );
    }
}

#[test]
fn method_is_checked_before_the_protocol() {
    assert_eq!(
        parse_request_line("DELETE /x FTP").map(|_| ()),
        Err(RequestFault::Method { token: "DELETE".to_string() })
    );
}

#[test]
fn empty_line_does_not_match() {
    assert_eq!(parse_request_line("").map(|_| ()), no_match(""));
}

#[test]
fn pattern_has_three_groups_besides_the_whole_match() {
    assert_eq!(GROUP_COUNT, 4);
    assert_eq!(HTTP_REGEX_PATTERN, r"(GET|POST|OPTION|PUT|DELETE) (\/[\S]*) ([\S]+)$");
}

#[test]
fn captures_of_a_request_are_read() {
    let captures = groups(&[Some("POST /a HTTP/1.1"), Some("POST"), Some("/a"), Some("HTTP/1.1")]);
    let request = request_from_captures("POST /a HTTP/1.1", &captures).unwrap();
    assert_eq!(request.method(), HttpMethod::POST);
    assert_eq!(request.path(), "/a");
    assert!(request.headers().is_empty());
    assert_eq!(request.body(), "todo");
}

#[test]
fn captures_are_read_as_given() {
    let captures = groups(&[None, Some("GET"), Some("anything at all"), Some("HTTP")]);
    let request = request_from_captures("unrelated", &captures).unwrap();
    assert_eq!(request.method(), HttpMethod::GET);
    assert_eq!(request.path(), "anything at all");
}

#[test]
fn absent_captures_are_no_match() {
    assert_eq!(request_from_captures("some line", &None).map(|_| ()), no_match("some line"));
}

#[test]
fn wrong_number_of_groups_is_a_fault() {
    for found in [0usize, 1, 2, 3, 5, 6] {
        let captures = Some(vec![Some("GET".to_string()); found]);
        assert_eq!(
            request_from_captures("GET / HTTP", &captures).map(|_| ()),
            Err(RequestFault::GroupCount { found })
        );
    }
}

#[test]
fn missing_group_is_a_fault() {
    let all = [Some("GET / HTTP"), Some("GET"), Some("/"), Some("HTTP")];
    for index in 1..4usize {
        let mut text = all;
        text[index] = None;
        assert_eq!(
            request_from_captures("GET / HTTP", &groups(&text)).map(|_| ()),
            Err(RequestFault::MissingGroup { index })
        );
    }
    assert_eq!(
        request_from_captures("", &groups(&[None, None, None, None])).map(|_| ()),
        Err(RequestFault::MissingGroup { index: 1 })
    );
    assert_eq!(
        request_from_captures("", &groups(&[None, Some("PUT"), None, None])).map(|_| ()),
        Err(RequestFault::Method { token: "PUT".to_string() })
    );
    assert_eq!(
        request_from_captures("", &groups(&[None, Some("GET"), Some("/"), Some("")])).map(|_| ()),
        Err(RequestFault::Protocol { token: "".to_string() })
    );
}

#[test]
fn method_tokens_are_read_exactly() {
    assert_eq!(HttpMethod::from_token("GET"), Some(HttpMethod::GET));
    assert_eq!(HttpMethod::from_token("POST"), Some(HttpMethod::POST));
    for token in ["", "get", "Get", "GET ", " GET", "GETS", "PUT", "DELETE", "OPTION", "POS"] {
        assert_eq!(HttpMethod::from_token(token), None);
    }
}

#[test]
fn method_is_shown_in_brackets() {
    assert_eq!(HttpMethod::GET.to_string(), "[GET]");
    assert_eq!(HttpMethod::POST.to_string(), "[POST]");
}
