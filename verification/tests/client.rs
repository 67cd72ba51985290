use truelayer_rust::apis::auth::{Credentials, Token};
use truelayer_rust::client::{build_client_with_middleware, Environment, Middleware};
use truelayer_rust::middlewares::authentication::AuthenticationMiddleware;
use truelayer_rust::middlewares::signing::SigningMiddleware;
use truelayer_rust::backoff::ExponentialBackoff;
use truelayer_rust::{TrueLayerClient, TrueLayerClientBuilder};

fn credentials() -> Credentials {
    Credentials::ClientCredentials {
        client_id: "some-client-id".to_string(),
        client_secret: Token::new("some-client-secret".to_string()),
        scope: "payments".to_string(),
    }
}

fn kinds(chain: &[Middleware]) -> Vec<&'static str> {
    chain
        .iter()
        .map(|link| match link {
            Middleware::InjectUserAgent(_) => "user-agent",
            Middleware::ErrorHandling(_) => "error-handling",
            Middleware::RetryIdempotent(_) => "retry",
            Middleware::Authentication(_) => "authentication",
            Middleware::Signing(_) => "signing",
        })
        .collect()
}

#[test]
fn chain_is_composed_in_a_fixed_order() {
    let signing = SigningMiddleware::new("my-kid", b"key".to_vec());
    let chain = build_client_with_middleware(
        Some(ExponentialBackoff::with_max_retries(3)),
        Some(AuthenticationMiddleware),
        Some(signing.clone()),
    );
    assert_eq!(
        kinds(&chain),
        vec!["user-agent", "error-handling", "retry", "authentication", "signing"]
    );
    assert!(chain[4] == Middleware::Signing(signing));
    match &chain[2] {
        Middleware::RetryIdempotent(link) => assert_eq!(link.retry_policy.max_n_retries, 3),
        other => panic!("Unexpected link"),
    }
}

#[test]
fn optional_links_are_left_out() {
    assert_eq!(
        kinds(&build_client_with_middleware(None, None, None)),
        vec!["user-agent", "error-handling"]
    );
    assert_eq!(
        kinds(&build_client_with_middleware(None, Some(AuthenticationMiddleware), None)),
        vec!["user-agent", "error-handling", "authentication"]
    );
    assert_eq!(
        kinds(&build_client_with_middleware(
            None,
            None,
            Some(SigningMiddleware::new("kid", Vec::new()))
        )),
        vec!["user-agent", "error-handling", "signing"]
    );
    assert_eq!(
        kinds(&build_client_with_middleware(Some(ExponentialBackoff::with_max_retries(1)), None, None)),
        vec!["user-agent", "error-handling", "retry"]
    );
}

#[test]
fn default_client() {
    let client = TrueLayerClient::new(credentials());
    assert_eq!(client.environment, Environment::Live);
    assert_eq!(client.credentials.client_id(), "some-client-id");
    assert_eq!(kinds(&client.auth_chain), vec!["user-agent", "error-handling", "retry"]);
    assert_eq!(kinds(&client.chain), vec!["user-agent", "error-handling", "retry", "authentication"]);
    match &client.chain[2] {
        Middleware::RetryIdempotent(link) => {
            assert_eq!(link.retry_policy, ExponentialBackoff::with_max_retries(3))
        }
        other => panic!("Unexpected link"),
    }
}

#[test]
fn configured_client() {
    let client = TrueLayerClient::builder(credentials())
        .with_signing_key("my-kid", b"private-key".to_vec())
        .with_environment(Environment::Sandbox)
        .with_retry_policy(None)
        .build();
    assert_eq!(client.environment, Environment::Sandbox);
    // The authenticator neither authenticates nor signs
    assert_eq!(kinds(&client.auth_chain), vec!["user-agent", "error-handling"]);
    assert_eq!(
        kinds(&client.chain),
        vec!["user-agent", "error-handling", "authentication", "signing"]
    );
    match &client.chain[3] {
        Middleware::Signing(link) => {
            assert_eq!(link.key_id, "my-kid");
            assert_eq!(link.private_key, b"private-key".to_vec());
        }
        other => panic!("Unexpected link"),
    }
}

#[test]
fn builder_keeps_what_is_not_set() {
    let builder = TrueLayerClientBuilder::new(credentials());
    assert_eq!(builder.retry_policy, Some(ExponentialBackoff::with_max_retries(3)));
    assert_eq!(builder.environment, Environment::Live);
    assert!(builder.signing_key.is_none());
    let builder = builder.with_signing_key("kid", vec![1, 2, 3]);
    let builder = builder.with_environment(Environment::from_single_url("https://non.existent.domain"));
    assert_eq!(builder.signing_key, Some(("kid".to_string(), vec![1, 2, 3])));
    assert_eq!(builder.retry_policy, Some(ExponentialBackoff::with_max_retries(3)));
    let builder = builder.with_retry_policy(Some(ExponentialBackoff::with_max_retries(7)));
    assert_eq!(builder.signing_key, Some(("kid".to_string(), vec![1, 2, 3])));
    assert_eq!(
        builder.environment,
        Environment::Custom {
            auth_url: "https://non.existent.domain".to_string(),
            payments_url: "https://non.existent.domain".to_string(),
            hpp_url: "https://non.existent.domain".to_string(),
        }
    );
    assert_eq!(builder.credentials.client_secret().expose_secret(), "some-client-secret");
}

#[test]
fn environments_have_their_urls() {
    assert_eq!(Environment::Live.auth_url(), "https://auth.truelayer.com");
    assert_eq!(Environment::Live.payments_url(), "https://test-pay-api.truelayer.com");
    assert_eq!(Environment::Live.hpp_url(), "https://payment.truelayer.com");
    assert_eq!(Environment::Sandbox.auth_url(), "https://auth.truelayer-sandbox.com");
    assert_eq!(Environment::Sandbox.payments_url(), "https://test-pay-api.truelayer-sandbox.com");
    assert_eq!(Environment::Sandbox.hpp_url(), "https://payment.truelayer-sandbox.com");
    let custom = Environment::Custom {
        auth_url: "https://a".to_string(),
        payments_url: "https://p".to_string(),
        hpp_url: "https://h".to_string(),
    };
    assert_eq!(custom.auth_url(), "https://a");
    assert_eq!(custom.payments_url(), "https://p");
    assert_eq!(custom.hpp_url(), "https://h");
}
