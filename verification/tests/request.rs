use truelayer_rust::request::{
    is_valid_header_value, lower_byte, names_match, Body, Header, Headers, Method, Request,
};

#[test]
fn header_names_are_compared_without_regard_to_case() {
    assert!(names_match(b"Idempotency-Key", b"idempotency-key"));
    assert!(names_match(b"IDEMPOTENCY-KEY", b"idempotency-key"));
    assert!(names_match(b"", b""));
    assert!(!names_match(b"a", b"ab"));
    assert!(!names_match(b"a-b", b"a_b"));
    // Only ASCII letters have a case
    assert!(!names_match(b"@", b"`"));
    assert!(!names_match(b"[", b"{"));
    assert!(!names_match(&[0xc9], &[0xe9]));
}

#[test]
fn bytes_are_lowered() {
    assert_eq!(lower_byte(b'A'), b'a');
    assert_eq!(lower_byte(b'Z'), b'z');
    assert_eq!(lower_byte(b'a'), b'a');
    assert_eq!(lower_byte(b'@'), b'@');
    assert_eq!(lower_byte(b'['), b'[');
    assert_eq!(lower_byte(0), 0);
    assert_eq!(lower_byte(255), 255);
}

#[test]
fn header_values_are_checked() {
    assert!(is_valid_header_value(b""));
    assert!(is_valid_header_value(b"Bearer abc"));
    assert!(is_valid_header_value(b"tab\there"));
    assert!(is_valid_header_value(&[0x80, 0xff]));
    assert!(!is_valid_header_value(b"line\nbreak"));
    assert!(!is_valid_header_value(b"carriage\rreturn"));
    assert!(!is_valid_header_value(&[0x7f]));
    assert!(!is_valid_header_value(&[0x00]));
    assert!(!is_valid_header_value(&[0x1f]));
}

#[test]
fn header_is_read_from_its_first_line() {
    let headers = Headers {
        lines: vec![
            Header { name: "Accept".to_string(), value: b"text/html".to_vec(), sensitive: false },
            Header { name: "accept".to_string(), value: b"application/json".to_vec(), sensitive: false },
        ],
    };
    assert_eq!(headers.get("ACCEPT").map(|v| v.as_slice()), Some(&b"text/html"[..]));
    assert!(headers.contains("accept"));
    assert!(!headers.contains("accept-encoding"));
    assert_eq!(headers.get("accept-encoding"), None);
}

#[test]
fn setting_a_header_replaces_all_its_lines() {
    let mut headers = Headers {
        lines: vec![
            Header { name: "Accept".to_string(), value: b"text/html".to_vec(), sensitive: false },
            Header { name: "Host".to_string(), value: b"example.com".to_vec(), sensitive: false },
            Header { name: "accept".to_string(), value: b"application/json".to_vec(), sensitive: false },
            Header { name: "X-Last".to_string(), value: b"last".to_vec(), sensitive: true },
        ],
    };
    headers.insert("ACCEPT", b"*/*".to_vec(), true);
    assert!(
        headers.lines
            == vec![
                Header { name: "Host".to_string(), value: b"example.com".to_vec(), sensitive: false },
                Header { name: "X-Last".to_string(), value: b"last".to_vec(), sensitive: true },
                Header { name: "ACCEPT".to_string(), value: b"*/*".to_vec(), sensitive: true },
            ]
    );
    assert_eq!(headers.get("accept").map(|v| v.as_slice()), Some(&b"*/*"[..]));
    assert_eq!(headers.get("host").map(|v| v.as_slice()), Some(&b"example.com"[..]));
}

#[test]
fn setting_a_header_that_is_absent_adds_a_line() {
    let mut headers = Headers::new();
    assert!(headers.lines.is_empty());
    headers.insert("A", b"1".to_vec(), false);
    headers.insert("B", b"2".to_vec(), false);
    assert_eq!(headers.lines.len(), 2);
    assert_eq!(headers.lines[0].name, "A");
    assert_eq!(headers.lines[1].name, "B");
}

#[test]
fn new_request_is_bare() {
    let req = Request::new(Method::Patch, "/path");
    assert_eq!(req.method, Method::Patch);
    assert_eq!(req.path, "/path");
    assert!(req.query.is_empty());
    assert!(req.headers.lines.is_empty());
    assert!(req.body == Body::Empty);
}
