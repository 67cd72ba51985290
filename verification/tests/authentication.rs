use truelayer_rust::apis::auth::Token;
use truelayer_rust::error::Error;
use truelayer_rust::middlewares::authentication::{bearer_header, AuthenticationMiddleware};
use truelayer_rust::middlewares::inject_user_agent::InjectUserAgentMiddleware;
use truelayer_rust::request::copy_bytes;
use truelayer_rust::request::{Body, Method, Request};

const MOCK_ACCESS_TOKEN: &str = "mock-access-token";

#[test]
fn access_token_is_attached_to_outgoing_request() {
    let mut req = Request::new(Method::Get, "/test");
    let token = Token::new(MOCK_ACCESS_TOKEN.to_string());

    AuthenticationMiddleware.handle(&mut req, &token).unwrap();

    assert_eq!(
        req.headers.get("Authorization").map(|v| v.as_slice()),
        Some(format!("Bearer {}", MOCK_ACCESS_TOKEN).as_bytes())
    );
    // The header is flagged as sensitive
    assert_eq!(req.headers.lines.len(), 1);
    assert!(req.headers.lines[0].sensitive);
    assert_eq!(req.method, Method::Get);
    assert_eq!(req.path, "/test");
    assert!(req.body == Body::Empty);
}

#[test]
fn access_token_replaces_an_earlier_authorization() {
    let mut req = Request::new(Method::Post, "/test");
    req.headers.insert("authorization", b"Basic abc".to_vec(), false);
    req.headers.insert("Accept", b"application/json".to_vec(), false);
    AuthenticationMiddleware.handle(&mut req, &Token::new("new".to_string())).unwrap();
    assert_eq!(req.headers.lines.len(), 2);
    assert_eq!(req.headers.get("Authorization").map(|v| v.as_slice()), Some(&b"Bearer new"[..]));
    assert_eq!(req.headers.get("accept").map(|v| v.as_slice()), Some(&b"application/json"[..]));
}

#[test]
fn access_token_that_cannot_stand_in_a_header_is_refused() {
    for token in ["line\nbreak", "nul\0", "del\x7f"] {
        let mut req = Request::new(Method::Get, "/test");
        let before = req.clone();
        assert_eq!(
            AuthenticationMiddleware.handle(&mut req, &Token::new(token.to_string())),
            Err(Error::Other("failed to parse header value".to_string()))
        );
        assert!(req == before);
    }
}

#[test]
fn bearer_header_prefixes_the_token() {
    assert_eq!(bearer_header(&Token::new("abc".to_string())), b"Bearer abc".to_vec());
    assert_eq!(bearer_header(&Token::new(String::new())), b"Bearer ".to_vec());
    assert_eq!(bearer_header(&Token::new("é".to_string())), "Bearer é".as_bytes().to_vec());
}

#[test]
fn user_agent_is_set_on_every_request() {
    let middleware = InjectUserAgentMiddleware::new();
    let mut req = Request::new(Method::Get, "/test");
    middleware.handle(&mut req);
    assert_eq!(
        req.headers.get("User-Agent").map(|v| v.as_slice()),
        Some(&b"truelayer-rust/0.1.0"[..])
    );
    assert!(!req.headers.lines[0].sensitive);

    // Whatever the request carried is replaced
    let mut req = Request::new(Method::Post, "/test");
    req.headers.insert("user-agent", b"curl/8.0".to_vec(), false);
    req.headers.insert("Idempotency-Key", b"key".to_vec(), false);
    req.body = Body::Bytes(b"body".to_vec());
    middleware.handle(&mut req);
    assert_eq!(req.headers.lines.len(), 2);
    assert_eq!(
        req.headers.get("USER-AGENT").map(|v| v.as_slice()),
        Some(&b"truelayer-rust/0.1.0"[..])
    );
    assert_eq!(req.headers.get("Idempotency-Key").map(|v| v.as_slice()), Some(&b"key"[..]));
    assert!(req.body == Body::Bytes(b"body".to_vec()));
    assert_eq!(req.method, Method::Post);
}

#[test]
fn copy_bytes_copies() {
    assert_eq!(copy_bytes(b"abc"), b"abc".to_vec());
    assert_eq!(copy_bytes(b""), Vec::<u8>::new());
}
