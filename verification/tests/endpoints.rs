use truelayer_rust::apis::auth::api::AuthApi;
use truelayer_rust::apis::auth::Token;
use truelayer_rust::apis::endpoint::{
    delete, found_or_error, get, none_if_not_found, path_to_id, path_with_id, path_with_raw, post,
    status_of, with_key,
};
use truelayer_rust::apis::merchant_accounts::api::MerchantAccountsApi;
use truelayer_rust::apis::merchant_accounts::{
    ListPaymentSourcesRequest, ListTransactionsRequest, TransactionTypeFilter,
};
use truelayer_rust::apis::payments::api::PaymentsApi;
use truelayer_rust::apis::payments_providers::api::PaymentsProvidersApi;
use truelayer_rust::apis::payouts::api::PayoutsApi;
use truelayer_rust::apis::stablecoin::api::StablecoinApi;
use truelayer_rust::error::{ApiError, Error, TransportError, TransportErrorKind};
use truelayer_rust::middlewares::retry_idempotent::RetryIdempotentMiddleware;
use truelayer_rust::request::{is_valid_header_value, Body, Method, Request};
use truelayer_rust::time::Timestamp;

const IDEMPOTENCY_KEY_HEADER: &str = "Idempotency-Key";

fn assert_post(req: &Request, path: &str, body: &[u8]) {
    assert_eq!(req.method, Method::Post);
    assert_eq!(req.path, path);
    assert!(req.query.is_empty());
    assert!(req.body == Body::Bytes(body.to_vec()));
    assert_key(req);
}

fn assert_key(req: &Request) {
    assert_eq!(req.headers.lines.len(), 1);
    let key = req.headers.get(IDEMPOTENCY_KEY_HEADER).expect("no idempotency key");
    assert_eq!(key.len(), 36);
    assert!(key.iter().all(|b| b.is_ascii_hexdigit() && !b.is_ascii_uppercase() || *b == b'-'));
    assert!(is_valid_header_value(key));
    assert!(RetryIdempotentMiddleware::is_idempotent(req));
}

fn assert_get(req: &Request, path: &str) {
    assert_eq!(req.method, Method::Get);
    assert_eq!(req.path, path);
    assert!(req.query.is_empty());
    assert!(req.headers.lines.is_empty());
    assert!(req.body == Body::Empty);
}

fn not_found() -> Error {
    Error::ApiError(ApiError {
        error_type: None,
        title: "Not Found".to_string(),
        status: 404,
        trace_id: None,
        detail: None,
        errors: vec![],
    })
}

#[test]
fn api_create() {
    let req = PaymentsApi::create(br#"{"amount_in_minor":100}"#.to_vec());
    assert_post(&req, "/payments", br#"{"amount_in_minor":100}"#);
    let req = PayoutsApi::create(b"{}".to_vec());
    assert_post(&req, "/payouts", b"{}");
}

#[test]
fn every_request_draws_a_key_of_its_own() {
    let a = PaymentsApi::create(Vec::new());
    let b = PaymentsApi::create(Vec::new());
    assert_ne!(
        a.headers.get(IDEMPOTENCY_KEY_HEADER).unwrap(),
        b.headers.get(IDEMPOTENCY_KEY_HEADER).unwrap()
    );
}

#[test]
fn start_authorization_flow() {
    let req = PaymentsApi::start_authorization_flow("payment-id", b"{}".to_vec());
    assert_post(&req, "/payments/payment-id/authorization-flow", b"{}");
}

#[test]
fn submit_provider_selection() {
    let req = PaymentsApi::submit_provider_selection("payment-id", b"{}".to_vec());
    assert_post(&req, "/payments/payment-id/authorization-flow/actions/provider-selection", b"{}");
}

#[test]
fn submit_consent() {
    let req = PaymentsApi::submit_consent("payment-id", b"{}".to_vec());
    assert_post(&req, "/payments/payment-id/authorization-flow/actions/consent", b"{}");
}

#[test]
fn submit_form_inputs() {
    let req = PaymentsApi::submit_form_inputs("payment-id", b"{}".to_vec());
    assert_post(&req, "/payments/payment-id/authorization-flow/actions/form", b"{}");
}

#[test]
fn cancel() {
    let req = PaymentsApi::cancel("payment-id", b"{}".to_vec());
    assert_post(&req, "/payments/payment-id/actions/cancel", b"{}");
}

#[test]
fn submit_provider_return_parameters() {
    let req = PaymentsApi::submit_provider_return_parameters(b"{}".to_vec());
    assert_post(&req, "/payments-provider-return", b"{}");
}

#[test]
fn api_create_refund() {
    let req = PaymentsApi::create_refund("payment-id", b"{}".to_vec());
    assert_post(&req, "/payments/payment-id/refunds", b"{}");
}

#[test]
fn get_refund_by_id() {
    let req = PaymentsApi::get_refund_by_id("payment id", "refund/id");
    assert_get(&req, "/payments/payment%20id/refunds/refund%2Fid");
}

#[test]
fn list_refunds() {
    assert_get(&PaymentsApi::list_refunds("payment-id"), "/payments/payment-id/refunds");
}

#[test]
fn api_get_by_id_successful() {
    assert_get(&PaymentsApi::get_by_id("payment-id"), "/payments/payment-id");
    assert_get(&PayoutsApi::get_by_id("payout-id"), "/payouts/payout-id");
    assert_get(&MerchantAccountsApi::get_by_id("account-id"), "/merchant-accounts/account-id");
    assert_eq!(none_if_not_found(Ok::<u8, Error>(7), None), Ok(Some(7)));
}

#[test]
fn api_get_by_id_not_found() {
    let error = not_found();
    let status = status_of(&error);
    assert_eq!(status, Some(404));
    assert_eq!(none_if_not_found::<u8, Error>(Err(error), status), Ok(None));
}

#[test]
fn other_failures_of_a_lookup_are_handed_on() {
    let forbidden = Error::ApiError(ApiError {
        error_type: None,
        title: "Forbidden".to_string(),
        status: 403,
        trace_id: None,
        detail: None,
        errors: vec![],
    });
    assert_eq!(status_of(&forbidden), Some(403));
    assert_eq!(none_if_not_found::<u8, Error>(Err(forbidden.clone()), Some(403)), Err(forbidden));
    let transport = Error::HttpError(TransportError {
        kind: TransportErrorKind::Timeout,
        message: "timed out".to_string(),
    });
    assert_eq!(status_of(&transport), None);
    assert_eq!(none_if_not_found::<u8, Error>(Err(transport.clone()), None), Err(transport));
    let other = Error::Other("404".to_string());
    assert_eq!(status_of(&other), None);
    assert_eq!(none_if_not_found::<u8, Error>(Err(other.clone()), None), Err(other));
    assert_eq!(none_if_not_found::<u8, &str>(Err("any error"), Some(404)), Ok(None));
}

#[test]
fn a_polled_resource_that_is_gone_is_an_error() {
    assert_eq!(found_or_error(Some(1u8), "Payment returned 404 while polling"), Ok(1));
    assert_eq!(
        found_or_error::<u8>(None, "Payment returned 404 while polling"),
        Err(Error::Other("Payment returned 404 while polling".to_string()))
    );
}

#[test]
fn identifiers_are_escaped_in_paths() {
    assert_get(&PaymentsApi::get_by_id("a b/c?d#e"), "/payments/a%20b%2Fc%3Fd%23e");
    assert_get(&PaymentsApi::get_by_id("AZaz09-._~"), "/payments/AZaz09-._~");
    assert_get(&PaymentsApi::get_by_id("é"), "/payments/%C3%A9");
    assert_get(&PaymentsApi::get_by_id(""), "/payments/");
    assert_eq!(path_to_id("/x/", "%"), "/x/%25");
    assert_eq!(path_with_id("/x/", "+", "/y"), "/x/%2B/y");
    assert_eq!(path_with_raw("/x/", "a b", "/y"), "/x/a b/y");
}

#[test]
fn hosted_payments_page_link() {
    let fragment = PaymentsApi::get_hosted_payments_page_link(
        "payment-id",
        &Token::new("resource-token".to_string()),
        "https://my.return.uri",
    );
    assert_eq!(
        fragment,
        "payment_id=payment-id&resource_token=resource-token&return_uri=https://my.return.uri"
    );
}

#[test]
fn list() {
    assert_get(&MerchantAccountsApi::list(), "/merchant-accounts");
}

#[test]
fn setup_sweeping() {
    let req = MerchantAccountsApi::setup_sweeping("merchant-account-id", b"{}".to_vec());
    assert_post(&req, "/merchant-accounts/merchant-account-id/sweeping", b"{}");
}

#[test]
fn disable_sweeping() {
    let req = MerchantAccountsApi::disable_sweeping("merchant-account-id");
    assert_eq!(req.method, Method::Delete);
    assert_eq!(req.path, "/merchant-accounts/merchant-account-id/sweeping");
    assert!(req.body == Body::Empty);
    assert_key(&req);
}

#[test]
fn get_sweeping_settings() {
    assert_get(
        &MerchantAccountsApi::get_sweeping_settings("merchant account"),
        "/merchant-accounts/merchant%20account/sweeping",
    );
}

#[test]
fn api_list_payment_sources() {
    let req = MerchantAccountsApi::list_payment_sources(
        "merchant-account-id",
        &ListPaymentSourcesRequest { user_id: "user-id".to_string() },
    );
    assert_eq!(req.method, Method::Get);
    assert_eq!(req.path, "/merchant-accounts/merchant-account-id/payment-sources");
    assert_eq!(req.query, vec![("user_id".to_string(), "user-id".to_string())]);
    assert!(req.headers.lines.is_empty());
}

#[test]
fn api_list_transactions() {
    let request = ListTransactionsRequest {
        from: Timestamp::from_unix(1_650_000_000, 123_456_789),
        to: Timestamp::from_unix(1_650_003_600, 0),
        kind: None,
    };
    let req = MerchantAccountsApi::list_transactions("merchant-account-id", &request).unwrap();
    assert_eq!(req.method, Method::Get);
    assert_eq!(req.path, "/merchant-accounts/merchant-account-id/transactions");
    assert_eq!(
        req.query,
        vec![
            ("from".to_string(), "2022-04-15T05:20:00.123Z".to_string()),
            ("to".to_string(), "2022-04-15T06:20:00.000Z".to_string()),
        ]
    );
    for (kind, name) in
        [(TransactionTypeFilter::Payment, "payment"), (TransactionTypeFilter::Payout, "payout")]
    {
        let request = ListTransactionsRequest { kind: Some(kind), ..request };
        let req = MerchantAccountsApi::list_transactions("id", &request).unwrap();
        assert_eq!(req.query.len(), 3);
        assert_eq!(req.query[2], ("type".to_string(), name.to_string()));
    }
}

#[test]
fn transactions_of_a_time_beyond_the_calendar_cannot_be_listed() {
    let request = ListTransactionsRequest {
        from: Timestamp { nanos: i128::MAX },
        to: Timestamp::from_unix(0, 0),
        kind: None,
    };
    assert!(MerchantAccountsApi::list_transactions("id", &request).is_none());
    let request = ListTransactionsRequest {
        from: Timestamp::from_unix(0, 0),
        to: Timestamp::from_unix(i64::MAX, 0),
        kind: None,
    };
    assert!(MerchantAccountsApi::list_transactions("id", &request).is_none());
}

#[test]
fn payments_provider_is_asked_for_on_behalf_of_the_client() {
    let req = PaymentsProvidersApi::get_by_id("mock-payments-gb-redirect", "client-id");
    assert_eq!(req.method, Method::Get);
    assert_eq!(req.path, "/payments-providers/mock-payments-gb-redirect");
    assert_eq!(req.query, vec![("client_id".to_string(), "client-id".to_string())]);
}

#[test]
fn valid_test_signature_success() {
    let req = StablecoinApi::test_signature(br#"{"foo":"bar"}"#.to_vec());
    assert_post(&req, "/v1/test-signature", br#"{"foo":"bar"}"#);
}

#[test]
fn on_ramps_are_listed_up_to_a_limit() {
    let req = StablecoinApi::list_on_ramps(25);
    assert_eq!(req.method, Method::Get);
    assert_eq!(req.path, "/v1/on-ramp/transactions");
    assert_eq!(req.query, vec![("limit".to_string(), "25".to_string())]);
    assert_eq!(StablecoinApi::list_on_ramps(0).query[0].1, "0");
    assert_eq!(StablecoinApi::list_on_ramps(u64::MAX).query[0].1, "18446744073709551615");
}

#[test]
fn token_request_carries_no_idempotency_key() {
    let req = AuthApi::token_request(br#"{"grant_type":"client_credentials"}"#.to_vec());
    assert_eq!(req.method, Method::Post);
    assert_eq!(req.path, "/connect/token");
    assert!(req.headers.lines.is_empty());
    assert!(req.body == Body::Bytes(br#"{"grant_type":"client_credentials"}"#.to_vec()));
    assert!(!RetryIdempotentMiddleware::is_idempotent(&req));
}

#[test]
fn plain_builders() {
    assert_get(&get("/x".to_string()), "/x");
    let req = with_key(Method::Put, "/x".to_string(), "my-key", Body::Empty);
    assert_eq!(req.method, Method::Put);
    assert_eq!(req.headers.get(IDEMPOTENCY_KEY_HEADER).map(|v| v.as_slice()), Some(&b"my-key"[..]));
    assert_post(&post("/y".to_string(), b"b".to_vec()), "/y", b"b");
    assert_key(&delete("/z".to_string()));
}

#[test]
fn get_by_id() {
    assert_get(
        &MerchantAccountsApi::get_by_id("merchant-account-id"),
        "/merchant-accounts/merchant-account-id",
    );
}

#[test]
fn get_sweeping_settings_not_found() {
    // A lookup that the server answers with 404 finds nothing
    let error = not_found();
    let status = status_of(&error);
    assert_eq!(none_if_not_found::<u8, Error>(Err(error), status), Ok(None));
}

#[test]
fn setup_sweeping_account_not_found() {
    // A change that the server answers with 404 fails with that error
    let req = MerchantAccountsApi::setup_sweeping("non-existent", b"{}".to_vec());
    assert_eq!(req.path, "/merchant-accounts/non-existent/sweeping");
    assert_eq!(status_of(&not_found()), Some(404));
    assert!(matches!(not_found(), Error::ApiError(e) if e.status == 404));
}

#[test]
fn disable_sweeping_account_not_found() {
    let req = MerchantAccountsApi::disable_sweeping("non-existent");
    assert_eq!(req.method, Method::Delete);
    assert_eq!(req.path, "/merchant-accounts/non-existent/sweeping");
}

#[test]
fn list_empty() {
    // An empty list is a success, not an absence
    assert_eq!(none_if_not_found(Ok::<Vec<u8>, Error>(vec![]), None), Ok(Some(vec![])));
}

#[test]
fn payments_fetch_non_existing_payment_returns_none() {
    let req = PaymentsApi::get_by_id("non-existing-payment");
    assert_get(&req, "/payments/non-existing-payment");
    let error = not_found();
    let status = status_of(&error);
    assert_eq!(none_if_not_found::<u8, Error>(Err(error), status), Ok(None));
}
