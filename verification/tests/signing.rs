use openssl::ec::{EcGroup, EcKey};
use openssl::nid::Nid;
use openssl::pkey::Private;
use truelayer_rust::error::{Error, SigningError};
use truelayer_rust::middlewares::signing::{attach_signature, signed_method, SignedMethod, SigningMiddleware};
use truelayer_rust::request::{Body, Method, Request};

const IDEMPOTENCY_KEY_HEADER: &str = "Idempotency-Key";
const TL_SIGNATURE_HEADER: &str = "Tl-Signature";

fn mock_middleware() -> (SigningMiddleware, EcKey<Private>) {
    // Generate a new EC private key
    let key = EcKey::generate(&EcGroup::from_curve_name(Nid::SECP521R1).unwrap()).unwrap();
    let middleware = SigningMiddleware::new("mock-certificate-id", key.private_key_to_pem().unwrap());
    (middleware, key)
}

fn signing_method(method: &Method) -> truelayer_signing::Method {
    match method {
        Method::Post => truelayer_signing::Method::Post,
        Method::Put => truelayer_signing::Method::Put,
        Method::Patch => truelayer_signing::Method::Patch,
        Method::Delete => truelayer_signing::Method::Delete,
        _ => truelayer_signing::Method::Get,
    }
}

fn method_name(method: &Method) -> &'static str {
    match method {
        Method::Get => "GET",
        Method::Head => "HEAD",
        Method::Options => "OPTIONS",
        Method::Post => "POST",
        Method::Put => "PUT",
        Method::Patch => "PATCH",
        Method::Delete => "DELETE",
        _ => "OTHER",
    }
}

#[test]
fn includes_signature_only_in_post_put_delete() {
    let table = [
        (Method::Get, false),
        (Method::Head, false),
        (Method::Options, false),
        (Method::Post, true),
        (Method::Put, true),
        (Method::Patch, true),
        (Method::Delete, true),
    ];

    let (middleware, key) = mock_middleware();
    for (method, expected_signature) in table {
        let idempotency_key = format!("idempotency-key-value-{}", method_name(&method));

        let mut req = Request::new(method.clone(), "/test");
        req.headers.insert(IDEMPOTENCY_KEY_HEADER, idempotency_key.clone().into_bytes(), false);
        req.body = Body::Bytes(b"request-body".to_vec());

        middleware.handle(&mut req).unwrap();

        let signature = req.headers.get(TL_SIGNATURE_HEADER).cloned();
        assert_eq!(signature.is_some(), expected_signature, "Method: {:?}", method);

        // Verify the signature
        if let Some(signature) = signature {
            let signature = String::from_utf8(signature).unwrap();
            truelayer_signing::verify_with_pem(key.public_key_to_pem().unwrap().as_slice())
                .method(signing_method(&method))
                .path("/test")
                .require_header(IDEMPOTENCY_KEY_HEADER)
                .header(IDEMPOTENCY_KEY_HEADER, idempotency_key.as_bytes())
                .body("request-body".as_bytes())
                .build_verifier()
                .verify(&signature)
                .unwrap();
        }

        // Everything else is as it was
        assert_eq!(req.method, method);
        assert_eq!(req.path, "/test");
        assert!(req.body == Body::Bytes(b"request-body".to_vec()));
        assert_eq!(
            req.headers.get(IDEMPOTENCY_KEY_HEADER).map(|v| v.as_slice()),
            Some(idempotency_key.as_bytes())
        );
    }
}

#[test]
fn identical_requests_are_signed_verifiably_each_time() {
    let (middleware, key) = mock_middleware();
    let public_key = key.public_key_to_pem().unwrap();
    for _ in 0..3 {
        let mut req = Request::new(Method::Post, "/payments");
        req.headers.insert(IDEMPOTENCY_KEY_HEADER, b"same-key".to_vec(), false);
        req.body = Body::Bytes(br#"{"amount_in_minor":1}"#.to_vec());
        middleware.handle(&mut req).unwrap();
        let signature = String::from_utf8(req.headers.get(TL_SIGNATURE_HEADER).unwrap().clone()).unwrap();
        truelayer_signing::verify_with_pem(&public_key)
            .method(truelayer_signing::Method::Post)
            .path("/payments")
            .require_header(IDEMPOTENCY_KEY_HEADER)
            .header(IDEMPOTENCY_KEY_HEADER, b"same-key")
            .body(br#"{"amount_in_minor":1}"#)
            .build_verifier()
            .verify(&signature)
            .unwrap();
    }
}

#[test]
fn signature_covers_the_body() {
    let (middleware, key) = mock_middleware();
    let mut req = Request::new(Method::Post, "/payments");
    req.body = Body::Bytes(b"signed body".to_vec());
    middleware.handle(&mut req).unwrap();
    let signature = String::from_utf8(req.headers.get(TL_SIGNATURE_HEADER).unwrap().clone()).unwrap();
    let public_key = key.public_key_to_pem().unwrap();
    truelayer_signing::verify_with_pem(&public_key)
        .method(truelayer_signing::Method::Post)
        .path("/payments")
        .body(b"signed body")
        .build_verifier()
        .verify(&signature)
        .unwrap();
    assert!(truelayer_signing::verify_with_pem(&public_key)
        .method(truelayer_signing::Method::Post)
        .path("/payments")
        .body(b"another body")
        .build_verifier()
        .verify(&signature)
        .is_err());
    assert!(truelayer_signing::verify_with_pem(&public_key)
        .method(truelayer_signing::Method::Post)
        .path("/payouts")
        .body(b"signed body")
        .build_verifier()
        .verify(&signature)
        .is_err());
}

#[test]
fn request_without_body_and_key_is_signed_over_the_empty_body() {
    let (middleware, key) = mock_middleware();
    let mut req = Request::new(Method::Delete, "/merchant-accounts/1/sweeping");
    middleware.handle(&mut req).unwrap();
    let signature = String::from_utf8(req.headers.get(TL_SIGNATURE_HEADER).unwrap().clone()).unwrap();
    assert_eq!(truelayer_signing::extract_jws_header(&signature).unwrap().kid, "mock-certificate-id");
    truelayer_signing::verify_with_pem(key.public_key_to_pem().unwrap().as_slice())
        .method(truelayer_signing::Method::Delete)
        .path("/merchant-accounts/1/sweeping")
        .body(b"")
        .build_verifier()
        .verify(&signature)
        .unwrap();
}

#[test]
fn streaming_body_is_refused_and_nothing_is_signed() {
    let (middleware, _) = mock_middleware();
    for method in [Method::Post, Method::Put, Method::Patch, Method::Delete] {
        let mut req = Request::new(method, "/test");
        req.body = Body::Streaming;
        let before = req.clone();
        assert_eq!(
            middleware.handle(&mut req),
            Err(Error::SigningError(SigningError::StreamingBody))
        );
        assert!(req == before);
        assert!(req.headers.get(TL_SIGNATURE_HEADER).is_none());
    }
}

#[test]
fn streaming_body_of_a_safe_method_passes_unsigned() {
    let (middleware, _) = mock_middleware();
    let mut req = Request::new(Method::Get, "/test");
    req.body = Body::Streaming;
    let before = req.clone();
    assert_eq!(middleware.handle(&mut req), Ok(()));
    assert!(req == before);
}

#[test]
fn relative_path_is_refused() {
    let (middleware, _) = mock_middleware();
    for path in ["", "payments", "payments/1"] {
        let mut req = Request::new(Method::Post, path);
        let before = req.clone();
        assert_eq!(
            middleware.handle(&mut req),
            Err(Error::SigningError(SigningError::RelativePath))
        );
        assert!(req == before);
    }
}

#[test]
fn invalid_key_is_reported_as_signing_error() {
    let middleware = SigningMiddleware::new("kid", b"not a key".to_vec());
    let mut req = Request::new(Method::Post, "/test");
    let before = req.clone();
    match middleware.handle(&mut req) {
        Err(Error::SigningError(SigningError::InvalidKey(_))) => {}
        other => panic!("Unexpected result: {:?}", other),
    }
    assert!(req == before);
}

#[test]
fn key_of_another_curve_is_reported_as_invalid() {
    let key = EcKey::generate(&EcGroup::from_curve_name(Nid::X9_62_PRIME256V1).unwrap()).unwrap();
    let middleware = SigningMiddleware::new("kid", key.private_key_to_pem().unwrap());
    let mut req = Request::new(Method::Post, "/test");
    match middleware.handle(&mut req) {
        Err(Error::SigningError(SigningError::InvalidKey(_))) => {}
        other => panic!("Unexpected result: {:?}", other),
    }
}

#[test]
fn signature_replaces_an_earlier_one() {
    let (middleware, _) = mock_middleware();
    let mut req = Request::new(Method::Post, "/test");
    req.headers.insert("tl-signature", b"stale".to_vec(), false);
    middleware.handle(&mut req).unwrap();
    assert_eq!(req.headers.lines.len(), 1);
    assert_ne!(req.headers.get(TL_SIGNATURE_HEADER).unwrap().as_slice(), b"stale");
}

#[test]
fn attach_signature_reports_what_the_signer_reported() {
    let mut req = Request::new(Method::Post, "/test");
    let before = req.clone();
    assert_eq!(
        attach_signature(&mut req, Err(SigningError::JwsError("broken".to_string()))),
        Err(Error::SigningError(SigningError::JwsError("broken".to_string())))
    );
    assert!(req == before);
    assert_eq!(
        attach_signature(&mut req, Err(SigningError::Other("other".to_string()))),
        Err(Error::SigningError(SigningError::Other("other".to_string())))
    );
    assert!(req == before);
}

#[test]
fn attach_signature_refuses_what_cannot_stand_in_a_header() {
    let mut req = Request::new(Method::Post, "/test");
    let before = req.clone();
    assert_eq!(
        attach_signature(&mut req, Ok("line\nbreak".to_string())),
        Err(Error::Other("failed to parse header value".to_string()))
    );
    assert!(req == before);
    assert_eq!(attach_signature(&mut req, Ok("a..b".to_string())), Ok(()));
    assert_eq!(req.headers.get(TL_SIGNATURE_HEADER).map(|v| v.as_slice()), Some(&b"a..b"[..]));
    assert!(!req.headers.lines[0].sensitive);
}

#[test]
fn only_mutating_methods_are_signed() {
    assert_eq!(signed_method(&Method::Post), Some(SignedMethod::Post));
    assert_eq!(signed_method(&Method::Put), Some(SignedMethod::Put));
    assert_eq!(signed_method(&Method::Patch), Some(SignedMethod::Patch));
    assert_eq!(signed_method(&Method::Delete), Some(SignedMethod::Delete));
    for method in [
        Method::Get,
        Method::Head,
        Method::Options,
        Method::Trace,
        Method::Connect,
        Method::Extension("POST".to_string()),
    ] {
        assert_eq!(signed_method(&method), None);
    }
}
