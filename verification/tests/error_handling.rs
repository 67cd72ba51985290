use truelayer_rust::error::{ApiError, Error};
use truelayer_rust::middlewares::error_handling::{
    api_error_from_response, correlation_id, fallback_api_error, header_text, is_success,
    normalize, wrap_details, ErrorHandlingMiddleware, ErrorResponse,
};
use truelayer_rust::request::Headers;

const TL_CORRELATION_ID_HEADER: &str = "X-Tl-Correlation-Id";

fn api_error(res: Result<(), Error>) -> ApiError {
    match res.expect_err("Call succeeded") {
        Error::ApiError(api_error) => api_error,
        e => panic!("Unexpected error: {:?}", e),
    }
}

#[test]
fn error_handling_success_responses_are_ignored() {
    let headers = Headers::new();
    assert_eq!(ErrorHandlingMiddleware.handle(200, &headers, None), Ok(()));
    assert_eq!(ErrorHandlingMiddleware.handle(204, &headers, None), Ok(()));
    assert_eq!(ErrorHandlingMiddleware.handle(299, &headers, None), Ok(()));
    // The body is not looked at
    let parsed = ErrorResponse::V1ErrorResponse {
        error: "error".to_string(),
        error_description: None,
        error_details: None,
    };
    assert_eq!(ErrorHandlingMiddleware.handle(200, &headers, Some(parsed)), Ok(()));
}

#[test]
fn error_handling_json_errors_v1_are_mapped_correctly() {
    let mut headers = Headers::new();
    headers.insert(TL_CORRELATION_ID_HEADER, b"correlation-id".to_vec(), false);
    let parsed = ErrorResponse::V1ErrorResponse {
        error: "error".to_string(),
        error_description: Some("description".to_string()),
        error_details: Some(vec![("reason".to_string(), "yes".to_string())]),
    };

    let api_error = api_error(ErrorHandlingMiddleware.handle(400, &headers, Some(parsed)));

    assert_eq!(api_error.status, 400);
    assert_eq!(api_error.error_type, None);
    assert_eq!(api_error.title, "error");
    assert_eq!(api_error.detail.as_deref(), Some("description"));
    assert_eq!(api_error.errors, vec![("reason".to_string(), vec!["yes".to_string()])]);
    assert_eq!(api_error.trace_id.as_deref(), Some("correlation-id"));
}

#[test]
fn error_handling_json_errors_v3_are_mapped_correctly() {
    let mut headers = Headers::new();
    headers.insert(TL_CORRELATION_ID_HEADER, b"correlation-id".to_vec(), false);
    let parsed = ErrorResponse::V3ErrorResponse {
        error_type: "https://docs.truelayer.com/docs/error-types#invalid-parameters".to_string(),
        title: "Invalid Parameters".to_string(),
        trace_id: "trace-id".to_string(),
        detail: "Some more details".to_string(),
        errors: Some(vec![("reason".to_string(), vec!["one".to_string(), "two".to_string()])]),
    };

    let api_error = api_error(ErrorHandlingMiddleware.handle(400, &headers, Some(parsed)));

    assert_eq!(api_error.status, 400);
    assert_eq!(
        api_error.error_type,
        Some("https://docs.truelayer.com/docs/error-types#invalid-parameters".to_string())
    );
    assert_eq!(api_error.title, "Invalid Parameters");
    assert_eq!(api_error.detail.as_deref(), Some("Some more details"));
    assert_eq!(
        api_error.errors,
        vec![("reason".to_string(), vec!["one".to_string(), "two".to_string()])]
    );
    assert_eq!(api_error.trace_id, Some("trace-id".to_string()));
}

#[test]
fn non_conforming_json_errors_default_to_generic_message() {
    let mut headers = Headers::new();
    headers.insert(TL_CORRELATION_ID_HEADER, b"correlation-id".to_vec(), false);

    // The body is no JSON of either shape, so nothing was read from it
    let api_error = api_error(ErrorHandlingMiddleware.handle(400, &headers, None));

    assert_eq!(api_error.status, 400);
    assert_eq!(api_error.error_type, None);
    assert_eq!(api_error.title, "Bad Request");
    assert_eq!(api_error.detail, None);
    assert_eq!(api_error.errors, vec![]);
    assert_eq!(api_error.trace_id.as_deref(), Some("correlation-id"));
}

#[test]
fn fallback_title_is_the_reason_phrase_of_the_status() {
    let headers = Headers::new();
    for (status, reason) in [
        (404u16, "Not Found"),
        (429, "Too Many Requests"),
        (500, "Internal Server Error"),
        (503, "Service Unavailable"),
        (301, "Moved Permanently"),
        (100, "Continue"),
    ] {
        let e = api_error_from_response(status, &headers, None);
        assert_eq!(e.title, reason);
        assert_eq!(e.status, status);
        assert_eq!(e.trace_id, None);
    }
}

#[test]
fn fallback_title_for_a_status_without_reason_phrase() {
    let headers = Headers::new();
    for status in [599u16, 0, 99, 1000, 65535] {
        let e = api_error_from_response(status, &headers, None);
        assert_eq!(e.title, "Unknown Error");
        assert_eq!(e.status, status);
    }
}

#[test]
fn v3_error_without_field_errors_has_an_empty_listing() {
    let parsed = ErrorResponse::V3ErrorResponse {
        error_type: "type".to_string(),
        title: "title".to_string(),
        trace_id: "trace".to_string(),
        detail: "detail".to_string(),
        errors: None,
    };
    let e = parsed.into_api_error(422, Some("correlation".to_string()));
    assert_eq!(
        e,
        ApiError {
            error_type: Some("type".to_string()),
            title: "title".to_string(),
            status: 422,
            // The trace id of the body wins over the correlation id
            trace_id: Some("trace".to_string()),
            detail: Some("detail".to_string()),
            errors: vec![],
        }
    );
}

#[test]
fn v1_error_without_description_and_details() {
    let parsed = ErrorResponse::V1ErrorResponse {
        error: "invalid_client".to_string(),
        error_description: None,
        error_details: None,
    };
    let e = parsed.into_api_error(401, None);
    assert_eq!(
        e,
        ApiError {
            error_type: None,
            title: "invalid_client".to_string(),
            status: 401,
            trace_id: None,
            detail: None,
            errors: vec![],
        }
    );
}

#[test]
fn details_are_wrapped_in_their_order() {
    let details = vec![
        ("b".to_string(), "second".to_string()),
        ("a".to_string(), "first".to_string()),
        ("c".to_string(), "".to_string()),
    ];
    assert_eq!(
        wrap_details(&details),
        vec![
            ("b".to_string(), vec!["second".to_string()]),
            ("a".to_string(), vec!["first".to_string()]),
            ("c".to_string(), vec!["".to_string()]),
        ]
    );
    assert_eq!(wrap_details(&vec![]), vec![]);
}

#[test]
fn status_is_preserved_whatever_the_body() {
    let headers = Headers::new();
    for status in [300u16, 400, 404, 418, 500, 502] {
        let v3 = ErrorResponse::V3ErrorResponse {
            error_type: "t".to_string(),
            title: "t".to_string(),
            trace_id: "t".to_string(),
            detail: "d".to_string(),
            errors: None,
        };
        let v1 = ErrorResponse::V1ErrorResponse {
            error: "e".to_string(),
            error_description: None,
            error_details: None,
        };
        assert_eq!(api_error_from_response(status, &headers, Some(v3)).status, status);
        assert_eq!(api_error_from_response(status, &headers, Some(v1)).status, status);
        assert_eq!(api_error_from_response(status, &headers, None).status, status);
    }
}

#[test]
fn only_statuses_from_200_to_299_are_successes() {
    assert!(!is_success(199));
    assert!(is_success(200));
    assert!(is_success(299));
    assert!(!is_success(300));
    assert!(!is_success(404));
    assert!(!is_success(0));
}

#[test]
fn correlation_id_is_found_whatever_the_case_of_the_header_name() {
    let mut headers = Headers::new();
    headers.insert("x-tl-correlation-id", b"abc".to_vec(), false);
    assert_eq!(correlation_id(&headers), Some("abc".to_string()));
    let mut headers = Headers::new();
    headers.insert("X-TL-CORRELATION-ID", b"def".to_vec(), false);
    assert_eq!(correlation_id(&headers), Some("def".to_string()));
    assert_eq!(correlation_id(&Headers::new()), None);
}

#[test]
fn correlation_id_that_is_no_text_is_left_out() {
    let mut headers = Headers::new();
    headers.insert(TL_CORRELATION_ID_HEADER, vec![0xff, 0xfe], false);
    assert_eq!(correlation_id(&headers), None);
    let e = api_error_from_response(500, &headers, None);
    assert_eq!(e.trace_id, None);
}

#[test]
fn header_text_takes_visible_ascii_only() {
    assert_eq!(header_text(b"plain text\twith tab"), Some("plain text\twith tab".to_string()));
    assert_eq!(header_text(b""), Some(String::new()));
    assert_eq!(header_text(b"~"), Some("~".to_string()));
    assert_eq!(header_text(&[0x7f]), None);
    assert_eq!(header_text(&[0x1f]), None);
    assert_eq!(header_text("é".as_bytes()), None);
    assert_eq!(header_text(b"line\nbreak"), None);
}

#[test]
fn normalize_picks_the_body_over_the_fallback() {
    let parsed = ErrorResponse::V1ErrorResponse {
        error: "from body".to_string(),
        error_description: None,
        error_details: None,
    };
    let e = normalize(400, Some("Bad Request"), Some("id".to_string()), Some(parsed));
    assert_eq!(e.title, "from body");
    assert_eq!(e.trace_id.as_deref(), Some("id"));
    let e = normalize(400, Some("Bad Request"), Some("id".to_string()), None);
    assert_eq!(e.title, "Bad Request");
    assert_eq!(e.trace_id.as_deref(), Some("id"));
    let e = fallback_api_error(400, None, None);
    assert_eq!(e.title, "Unknown Error");
}

#[test]
fn api_error_message_lists_everything_that_is_there() {
    let e = ApiError {
        error_type: Some("https://docs.truelayer.com/docs/error-types#invalid-parameters".to_string()),
        title: "Invalid Parameters".to_string(),
        status: 400,
        trace_id: Some("trace-id".to_string()),
        detail: Some("Some more details".to_string()),
        errors: vec![
            ("reason".to_string(), vec!["one".to_string(), "two".to_string()]),
            ("other".to_string(), vec!["three".to_string()]),
        ],
    };
    assert_eq!(
        e.message(),
        "TrueLayer HTTP error 400: Invalid Parameters (https://docs.truelayer.com/docs/error-types#invalid-parameters)\nAdditional details: Some more details\nTrace ID: trace-id\nAll errors:\n- reason: one, two\n- other: three"
    );
}

#[test]
fn api_error_message_of_a_bare_error() {
    let e = ApiError {
        error_type: None,
        title: "Not Found".to_string(),
        status: 404,
        trace_id: None,
        detail: None,
        errors: vec![],
    };
    assert_eq!(e.message(), "TrueLayer HTTP error 404: Not Found");
}
