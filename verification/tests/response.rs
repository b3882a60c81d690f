use rest_server::response::render_response;

#[test]
fn payload_is_rendered_after_the_status_line() {
    assert_eq!(render_response(&Ok("pong".to_string())), "HTTP/1.1 200 OK\npong\r\n\r\n");
    assert_eq!(render_response(&Ok(String::new())), "HTTP/1.1 200 OK\n\r\n\r\n");
}

#[test]
fn failure_is_rendered_as_an_error_line() {
    assert_eq!(
        render_response(&Err("boom".to_string())),
        "HTTP/1.1 200 OK\nerror: boom\r\n\r\n"
    );
    assert_eq!(render_response(&Err(String::new())), "HTTP/1.1 200 OK\nerror: \r\n\r\n");
}

#[test]
fn payload_is_kept_character_for_character() {
    for payload in ["pong", "two\nlines", "{\n    \"a\": 1,\n}", "tab\t\"quoted\"", "ünï"] {
        let response = render_response(&Ok(payload.to_string()));
        assert_eq!(response, format!("HTTP/1.1 200 OK\n{}\r\n\r\n", payload));
        assert!(response.contains(payload));
        let response = render_response(&Err(payload.to_string()));
        assert!(response.contains(&format!("error: {}", payload)));
    }
}
