use http_listener::decode::assemble;
use http_listener::request::{ParseError, Request};
use http_listener::scan::{HeadScan, HeaderSlot};

fn slot(name: &str, value: &[u8]) -> HeaderSlot {
    HeaderSlot { name: name.to_string(), value: value.to_vec() }
}

fn complete(offset: usize, method: Option<&str>, path: Option<&str>, table: Vec<HeaderSlot>) -> HeadScan {
    HeadScan::Complete {
        offset,
        method: method.map(String::from),
        path: path.map(String::from),
        table,
    }
}

fn assembled(scan: HeadScan, buffer: &[u8]) -> Request {
    match assemble(scan, buffer) {
        Ok(request) => request,
        Err(error) => panic!("expected a request, got {:?}", error),
    }
}

#[test]
fn invalid_scan_is_malformed() {
    assert_eq!(assemble(HeadScan::Invalid, b"whatever"), Err(ParseError::Malformed));
}

#[test]
fn partial_scan_is_incomplete() {
    assert_eq!(assemble(HeadScan::Partial, b"GET /"), Err(ParseError::Incomplete));
}

#[test]
fn absent_method_is_a_missing_field() {
    let scan = complete(0, None, Some("/"), vec![]);
    assert_eq!(assemble(scan, b""), Err(ParseError::MissingField));
}

#[test]
fn absent_path_is_a_missing_field() {
    let scan = complete(0, Some("GET"), None, vec![]);
    assert_eq!(assemble(scan, b""), Err(ParseError::MissingField));
}

#[test]
fn empty_method_or_path_is_a_missing_field() {
    assert_eq!(
        assemble(complete(0, Some(""), Some("/"), vec![]), b""),
        Err(ParseError::MissingField)
    );
    assert_eq!(
        assemble(complete(0, Some("GET"), Some(""), vec![]), b""),
        Err(ParseError::MissingField)
    );
}

#[test]
fn headers_are_the_filled_front_of_the_table() {
    let table = vec![
        slot("Host", b"example.org"),
        slot("Accept", b"*/*"),
        slot("", b""),
        slot("Late", b"ignored"),
    ];
    let request = assembled(complete(4, Some("GET"), Some("/x"), table), b"headbody");
    assert_eq!(
        request.headers(),
        &vec![
            ("Host".to_string(), "example.org".to_string()),
            ("Accept".to_string(), "*/*".to_string()),
        ]
    );
    assert_eq!(request.header_count(), 2);
    assert_eq!(request.method(), "GET");
    assert_eq!(request.path(), "/x");
    assert_eq!(request.body(), b"body");
}

#[test]
fn a_full_table_gives_all_its_headers() {
    let table = vec![slot("A", b"1"), slot("B", b"2"), slot("C", b"3")];
    let request = assembled(complete(0, Some("GET"), Some("/"), table), b"");
    assert_eq!(request.header_count(), 3);
    assert_eq!(request.headers()[2], ("C".to_string(), "3".to_string()));
}

#[test]
fn an_empty_first_slot_gives_no_headers() {
    let table = vec![slot("", b""), slot("B", b"2")];
    let request = assembled(complete(0, Some("GET"), Some("/"), table), b"");
    assert_eq!(request.header_count(), 0);
}

#[test]
fn body_starts_at_the_offset() {
    let buffer = b"0123456789";
    assert_eq!(assembled(complete(0, Some("M"), Some("p"), vec![]), buffer).body(), b"0123456789");
    assert_eq!(assembled(complete(7, Some("M"), Some("p"), vec![]), buffer).body(), b"789");
    assert_eq!(assembled(complete(10, Some("M"), Some("p"), vec![]), buffer).body(), b"");
}

#[test]
fn invalid_value_bytes_do_not_fail_assembly() {
    let table = vec![slot("Bad", b"\xc3\x28"), slot("Good", b"ok")];
    let request = assembled(complete(0, Some("GET"), Some("/"), table), b"");
    assert_eq!(
        request.headers(),
        &vec![
            ("Bad".to_string(), "\u{FFFD}(".to_string()),
            ("Good".to_string(), "ok".to_string()),
        ]
    );
}

#[test]
fn values_do_not_decide_the_outcome() {
    let valid = complete(0, Some("GET"), Some("/"), vec![slot("H", b"plain")]);
    let invalid = complete(0, Some("GET"), Some("/"), vec![slot("H", b"\xff\xfe")]);
    let a = assembled(valid, b"b");
    let b = assembled(invalid, b"b");
    assert_eq!(a.method(), b.method());
    assert_eq!(a.path(), b.path());
    assert_eq!(a.body(), b.body());
    assert_eq!(a.header_count(), b.header_count());
    assert_eq!(a.headers()[0].0, b.headers()[0].0);
    assert!(b.headers()[0].1.contains('\u{FFFD}'));
}
