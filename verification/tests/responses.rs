use http_listener::application::{Application, DEFAULT_PORT};
use http_listener::request::{ParseError, Request};
use http_listener::response::{failure_response, response_for, success_response};
use http_listener::text::render_decimal;

const SUCCESS_HEAD: &str = "HTTP/1.1 200 OK\r\nContent-Type: text/plain\r\nContent-Length: 59\r\n\r\n";
const FAILURE: &str = "HTTP/1.1 400 Bad Request\r\n\r\nInvalid request";

fn status_line(response: &str) -> &str {
    match response.split_once("\r\n") {
        Some((line, _)) => line,
        None => panic!("no status line in {:?}", response),
    }
}

fn body(response: &str) -> &str {
    match response.split_once("\r\n\r\n") {
        Some((_, body)) => body,
        None => panic!("no blank line in {:?}", response),
    }
}

fn request_with_headers(count: usize) -> Vec<u8> {
    let mut bytes = b"GET /many HTTP/1.1\r\n".to_vec();
    for i in 0..count {
        bytes.extend_from_slice(format!("X-Header-{}: value-{}\r\n", i, i).as_bytes());
    }
    bytes.extend_from_slice(b"\r\n");
    bytes
}

#[test]
fn valid_request_gets_the_success_response() {
    let response = Application::respond(b"GET /hello HTTP/1.1\r\nHost: x\r\n\r\n");
    assert_eq!(status_line(&response), "HTTP/1.1 200 OK");
    assert_eq!(body(&response), "Received GET request to /hello with 1 headers");
    assert_eq!(
        response,
        format!("{}Received GET request to /hello with 1 headers", SUCCESS_HEAD)
    );
}

#[test]
fn free_text_gets_the_failure_response() {
    assert_eq!(Application::respond(b"not a valid request at all"), FAILURE);
}

#[test]
fn seventeen_headers_get_the_failure_response() {
    assert_eq!(Application::respond(&request_with_headers(17)), FAILURE);
}

#[test]
fn sixteen_headers_get_the_success_response() {
    let response = Application::respond(&request_with_headers(16));
    assert_eq!(status_line(&response), "HTTP/1.1 200 OK");
    assert_eq!(body(&response), "Received GET request to /many with 16 headers");
}

#[test]
fn partial_request_gets_the_failure_response() {
    assert_eq!(Application::respond(b"GET /hello HTTP/1.1\r\nHost: x\r\n"), FAILURE);
}

#[test]
fn empty_read_gets_the_failure_response() {
    assert_eq!(Application::respond(b""), FAILURE);
}

#[test]
fn request_body_is_not_echoed() {
    let response = Application::respond(b"POST /p HTTP/1.1\r\n\r\nsecret payload");
    assert_eq!(body(&response), "Received POST request to /p with 0 headers");
    assert!(!response.contains("secret"));
}

#[test]
fn declared_length_is_the_fixed_literal() {
    let short = Application::respond(b"GET / HTTP/1.1\r\n\r\n");
    let long = Application::respond(b"OPTIONS /a/very/long/path/that/goes/on/and/on HTTP/1.1\r\nA: b\r\n\r\n");
    assert!(short.starts_with(SUCCESS_HEAD));
    assert!(long.starts_with(SUCCESS_HEAD));
    assert_ne!(body(&short).len(), body(&long).len());
}

#[test]
fn every_failure_kind_gets_the_same_response() {
    assert_eq!(response_for(&Err(ParseError::Incomplete)), FAILURE);
    assert_eq!(response_for(&Err(ParseError::Malformed)), FAILURE);
    assert_eq!(response_for(&Err(ParseError::MissingField)), FAILURE);
    assert_eq!(failure_response(), FAILURE);
}

#[test]
fn success_response_reports_method_path_and_count() {
    let headers = vec![
        ("A".to_string(), "1".to_string()),
        ("B".to_string(), "2".to_string()),
        ("A".to_string(), "3".to_string()),
    ];
    let request = Request::new("DELETE".to_string(), "/items/7".to_string(), headers, vec![1, 2, 3]);
    let expected = format!("{}Received DELETE request to /items/7 with 3 headers", SUCCESS_HEAD);
    assert_eq!(success_response(&request), expected);
    assert_eq!(response_for(&Ok(request)), expected);
}

#[test]
fn distinct_requests_get_their_own_responses() {
    let requests: Vec<Vec<u8>> = (0..8)
        .map(|i| format!("GET /client/{} HTTP/1.1\r\nHost: h{}\r\n\r\n", i, i).into_bytes())
        .collect();
    let first: Vec<String> = requests.iter().map(|r| Application::respond(r)).collect();
    let second: Vec<String> = requests.iter().rev().map(|r| Application::respond(r)).collect();
    for i in 0..8 {
        let expected = format!("Received GET request to /client/{} with 1 headers", i);
        assert_eq!(body(&first[i]), expected);
        assert_eq!(body(&second[7 - i]), expected);
    }
}

#[test]
fn renders_decimal_numerals() {
    assert_eq!(render_decimal(0), "0");
    assert_eq!(render_decimal(7), "7");
    assert_eq!(render_decimal(9), "9");
    assert_eq!(render_decimal(10), "10");
    assert_eq!(render_decimal(16), "16");
    assert_eq!(render_decimal(109), "109");
    assert_eq!(render_decimal(8000), "8000");
    assert_eq!(render_decimal(1234567890), "1234567890");
    assert_eq!(render_decimal(usize::MAX), usize::MAX.to_string());
}

#[test]
fn new_listener_binds_the_default_port() {
    assert_eq!(DEFAULT_PORT, 8000);
    let app = Application::new();
    assert_eq!(app.port(), 8000);
    assert_eq!(app.address(), "127.0.0.1:8000");
}

#[test]
fn default_listener_binds_port_zero() {
    let app = Application::default();
    assert_eq!(app.port(), 0);
    assert_eq!(app.address(), "127.0.0.1:0");
}
