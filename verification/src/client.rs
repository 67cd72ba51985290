//! The configuration of a client and the chain of links that it puts
//! around every request.
use vstd::prelude::*;
use crate::apis::auth::Credentials;
use crate::common::{
    DEFAULT_AUTH_URL, DEFAULT_HOSTED_PAYMENTS_PAGE_URL, DEFAULT_PAYMENTS_URL,
    DEFAULT_SANDBOX_AUTH_URL, DEFAULT_SANDBOX_HOSTED_PAYMENTS_PAGE_URL,
    DEFAULT_SANDBOX_PAYMENTS_URL,
};
use crate::middlewares::authentication::AuthenticationMiddleware;
use crate::middlewares::error_handling::ErrorHandlingMiddleware;
use crate::middlewares::inject_user_agent::InjectUserAgentMiddleware;
use crate::middlewares::retry_idempotent::RetryIdempotentMiddleware;
use crate::middlewares::signing::SigningMiddleware;
use crate::backoff::ExponentialBackoff;

verus! {

/// How many times a request that failed for the moment is sent again by
/// default.
pub const DEFAULT_MAX_RETRIES: u32 = 3;

/// TrueLayer environment to which a client should connect.
#[derive(Debug, Clone, PartialEq, Eq)]
pub enum Environment {
    /// TrueLayer Live environment.
    Live,
    /// TrueLayer Sandbox environment.
    Sandbox,
    /// Custom environment. This variant is mainly used for tests.
    Custom { auth_url: String, payments_url: String, hpp_url: String },
}

impl Environment {
    /// Shortcut to build an `Environment::Custom` with all urls set to the given value.
    pub fn from_single_url(url: &str) -> (r: Environment)
        ensures
            r matches Environment::Custom { auth_url, payments_url, hpp_url } && auth_url@ == url@
                && payments_url@ == url@ && hpp_url@ == url@,
    {
        Environment::Custom {
            auth_url: url.to_owned(),
            payments_url: url.to_owned(),
            hpp_url: url.to_owned(),
        }
    }

    /// Base URL for authentication-related requests.
    pub open spec fn spec_auth_url(&self) -> Seq<char> {
        match self {
            Environment::Live => DEFAULT_AUTH_URL@,
            Environment::Sandbox => DEFAULT_SANDBOX_AUTH_URL@,
            Environment::Custom { auth_url, .. } => auth_url@,
        }
    }

    /// Base URL for payments-related requests.
    pub open spec fn spec_payments_url(&self) -> Seq<char> {
        match self {
            Environment::Live => DEFAULT_PAYMENTS_URL@,
            Environment::Sandbox => DEFAULT_SANDBOX_PAYMENTS_URL@,
            Environment::Custom { payments_url, .. } => payments_url@,
        }
    }

    /// Base URL for the Hosted Payments Page.
    pub open spec fn spec_hpp_url(&self) -> Seq<char> {
        match self {
            Environment::Live => DEFAULT_HOSTED_PAYMENTS_PAGE_URL@,
            Environment::Sandbox => DEFAULT_SANDBOX_HOSTED_PAYMENTS_PAGE_URL@,
            Environment::Custom { hpp_url, .. } => hpp_url@,
        }
    }

    /// Base URL for authentication-related requests.
    pub fn auth_url(&self) -> (r: String)
        ensures
            r@ == self.spec_auth_url(),
    {
        match self {
            Environment::Live => DEFAULT_AUTH_URL.to_owned(),
            Environment::Sandbox => DEFAULT_SANDBOX_AUTH_URL.to_owned(),
            Environment::Custom { auth_url, .. } => auth_url.clone(),
        }
    }

    /// Base URL for payments-related requests.
    pub fn payments_url(&self) -> (r: String)
        ensures
            r@ == self.spec_payments_url(),
    {
        match self {
            Environment::Live => DEFAULT_PAYMENTS_URL.to_owned(),
            Environment::Sandbox => DEFAULT_SANDBOX_PAYMENTS_URL.to_owned(),
            Environment::Custom { payments_url, .. } => payments_url.clone(),
        }
    }

    /// Base URL for the Hosted Payments Page.
    pub fn hpp_url(&self) -> (r: String)
        ensures
            r@ == self.spec_hpp_url(),
    {
        match self {
            Environment::Live => DEFAULT_HOSTED_PAYMENTS_PAGE_URL.to_owned(),
            Environment::Sandbox => DEFAULT_SANDBOX_HOSTED_PAYMENTS_PAGE_URL.to_owned(),
            Environment::Custom { hpp_url, .. } => hpp_url.clone(),
        }
    }
}

/// One link of the chain around the transport.
#[derive(Clone, PartialEq, Eq)]
pub enum Middleware {
    /// Sets the `User-Agent` header.
    InjectUserAgent(InjectUserAgentMiddleware),
    /// Turns error responses into typed errors.
    ErrorHandling(ErrorHandlingMiddleware),
    /// Retries idempotent requests that failed for the moment.
    RetryIdempotent(RetryIdempotentMiddleware),
    /// Puts the access token on the request.
    Authentication(AuthenticationMiddleware),
    /// Signs the request.
    Signing(SigningMiddleware),
}

/// A link of the chain as plain values.
pub enum MiddlewareView {
    /// Sets the `User-Agent` header to the given value.
    InjectUserAgent(Seq<u8>),
    /// Turns error responses into typed errors.
    ErrorHandling,
    /// Retries idempotent requests under the given policy.
    RetryIdempotent(ExponentialBackoff),
    /// Puts the access token on the request.
    Authentication,
    /// Signs the request with the given key.
    Signing { key_id: Seq<char>, private_key: Seq<u8> },
}

impl View for Middleware {
    type V = MiddlewareView;

    open spec fn view(&self) -> MiddlewareView {
        match self {
            Middleware::InjectUserAgent(link) => MiddlewareView::InjectUserAgent(link.user_agent()),
            Middleware::ErrorHandling(_) => MiddlewareView::ErrorHandling,
            Middleware::RetryIdempotent(link) => MiddlewareView::RetryIdempotent(link.retry_policy),
            Middleware::Authentication(_) => MiddlewareView::Authentication,
            Middleware::Signing(link) => MiddlewareView::Signing {
                key_id: link.key_id@,
                private_key: link.private_key@,
            },
        }
    }
}

/// The links of a chain as plain values, outermost first.
pub open spec fn links_of(chain: Vec<Middleware>) -> Seq<MiddlewareView> {
    Seq::new(chain@.len(), |i: int| chain@[i]@)
}

/// A signing key as plain values: its identifier and its PEM encoding.
pub open spec fn key_of(signing_key: Option<(String, Vec<u8>)>) -> Option<(Seq<char>, Seq<u8>)> {
    match signing_key {
        Some(key) => Some((key.0@, key.1@)),
        None => None,
    }
}

/// The chain for the given optional links, outermost link first: the user
/// agent injector, the error normalizer, then the retry link, the
/// authentication link and the signing link, each if it is there.
pub open spec fn chain_of(
    retry_policy: Option<ExponentialBackoff>,
    authenticates: bool,
    signing_key: Option<(Seq<char>, Seq<u8>)>,
) -> Seq<MiddlewareView> {
    seq![
        MiddlewareView::InjectUserAgent(InjectUserAgentMiddleware::default_user_agent()),
        MiddlewareView::ErrorHandling,
    ] + (match retry_policy {
        Some(policy) => seq![MiddlewareView::RetryIdempotent(policy)],
        None => seq![],
    }) + (if authenticates {
        seq![MiddlewareView::Authentication]
    } else {
        seq![]
    }) + (match signing_key {
        Some(key) => seq![MiddlewareView::Signing { key_id: key.0, private_key: key.1 }],
        None => seq![],
    })
}

/// In every chain the user agent injector stands outermost and the error
/// normalizer next to it; then come, each if the chain has it, the retry
/// link, the authentication link and the signing link, in this order and
/// without anything else between or after them. So a failure reaches the
/// retry link before it is turned into a typed error, every attempt of a
/// retry is authenticated and signed anew, and the signature is the last
/// thing put on a request.
pub proof fn lemma_chain_order(
    retry_policy: Option<ExponentialBackoff>,
    authenticates: bool,
    signing_key: Option<(Seq<char>, Seq<u8>)>,
)
    ensures
        ({
            let chain = chain_of(retry_policy, authenticates, signing_key);
            let retry: int = if retry_policy is Some { 1 } else { 0 };
            let auth: int = if authenticates { 1 } else { 0 };
            let signing: int = if signing_key is Some { 1 } else { 0 };
            &&& chain.len() == 2 + retry + auth + signing
            &&& chain[0] is InjectUserAgent
            &&& chain[1] is ErrorHandling
            &&& retry_policy matches Some(policy) ==> chain[2] == MiddlewareView::RetryIdempotent(
                policy,
            )
            &&& authenticates ==> chain[2 + retry] is Authentication
            &&& signing_key matches Some(key) ==> chain[2 + retry + auth]
                == (MiddlewareView::Signing { key_id: key.0, private_key: key.1 })
        }),
{
}

/// Puts the links of a chain in their order, outermost first.
pub fn build_client_with_middleware(
    retry_policy: Option<ExponentialBackoff>,
    auth_middleware: Option<AuthenticationMiddleware>,
    signing_middleware: Option<SigningMiddleware>,
) -> (r: Vec<Middleware>)
    ensures
        links_of(r) == chain_of(
            retry_policy,
            auth_middleware is Some,
            match signing_middleware {
                Some(link) => Some((link.key_id@, link.private_key@)),
                None => None,
            },
        ),
{
    let mut chain: Vec<Middleware> = Vec::new();
    chain.push(Middleware::InjectUserAgent(InjectUserAgentMiddleware::new()));
    chain.push(Middleware::ErrorHandling(ErrorHandlingMiddleware));
    if let Some(policy) = retry_policy {
        chain.push(Middleware::RetryIdempotent(RetryIdempotentMiddleware::new(policy)));
    }
    if let Some(link) = auth_middleware {
        chain.push(Middleware::Authentication(link));
    }
    if let Some(link) = signing_middleware {
        chain.push(Middleware::Signing(link));
    }
    chain
}

/// Builder for a [`TrueLayerClient`].
#[derive(Debug, Clone)]
pub struct TrueLayerClientBuilder {
    pub retry_policy: Option<ExponentialBackoff>,
    pub environment: Environment,
    pub credentials: Credentials,
    pub signing_key: Option<(String, Vec<u8>)>,
}

/// What a client is made of.
#[derive(Clone)]
pub struct TrueLayerClient {
    /// The environment that the client connects to.
    pub environment: Environment,
    /// The credentials that the client's authenticator starts with.
    pub credentials: Credentials,
    /// The chain around the requests of the authenticator, outermost link
    /// first. It neither authenticates nor signs.
    pub auth_chain: Vec<Middleware>,
    /// The chain around every other request, outermost link first.
    pub chain: Vec<Middleware>,
}

impl TrueLayerClient {
    /// Builds a new client with the default configuration.
    pub fn new(credentials: Credentials) -> (r: TrueLayerClient)
        ensures
            r.environment == Environment::Live,
            r.credentials@ == credentials@,
            links_of(r.auth_chain) == chain_of(
                Some(TrueLayerClientBuilder::default_retry_policy()),
                false,
                None,
            ),
            links_of(r.chain) == chain_of(
                Some(TrueLayerClientBuilder::default_retry_policy()),
                true,
                None,
            ),
    {
        TrueLayerClientBuilder::new(credentials).build()
    }

    /// Returns a new builder to configure a new client.
    pub fn builder(credentials: Credentials) -> (r: TrueLayerClientBuilder)
        ensures
            r.retry_policy == Some(TrueLayerClientBuilder::default_retry_policy()),
            r.environment == Environment::Live,
            r.credentials@ == credentials@,
            r.signing_key is None,
    {
        TrueLayerClientBuilder::new(credentials)
    }
}

impl TrueLayerClientBuilder {
    /// The policy under which a client retries unless it is told otherwise:
    /// three retries, between 1 second and 30 minutes apart.
    pub open spec fn default_retry_policy() -> ExponentialBackoff {
        ExponentialBackoff {
            max_n_retries: DEFAULT_MAX_RETRIES,
            min_retry_interval_ms: crate::backoff::BUILDER_MIN_INTERVAL_MS,
            max_retry_interval_ms: crate::backoff::BUILDER_MAX_INTERVAL_MS,
            backoff_exponent: crate::backoff::DEFAULT_BACKOFF_EXPONENT,
        }
    }

    /// Creates a new builder to configure a client: for the live
    /// environment, with three retries and without a signing key.
    pub fn new(credentials: Credentials) -> (r: TrueLayerClientBuilder)
        ensures
            r.retry_policy == Some(Self::default_retry_policy()),
            r.environment == Environment::Live,
            r.credentials@ == credentials@,
            r.signing_key is None,
    {
        TrueLayerClientBuilder {
            retry_policy: Some(ExponentialBackoff::with_max_retries(DEFAULT_MAX_RETRIES)),
            environment: Environment::Live,
            credentials,
            signing_key: None,
        }
    }

    /// Sets a specific policy to use when retrying transient failures.
    ///
    /// To disable automatic retrying of failed requests, use `None`.
    pub fn with_retry_policy(self, retry_policy: Option<ExponentialBackoff>) -> (r:
        TrueLayerClientBuilder)
        ensures
            r.retry_policy == retry_policy,
            r.environment == self.environment,
            r.credentials == self.credentials,
            r.signing_key == self.signing_key,
    {
        TrueLayerClientBuilder {
            retry_policy,
            environment: self.environment,
            credentials: self.credentials,
            signing_key: self.signing_key,
        }
    }

    /// Configures a signing key for request signing.
    /// Signing is required for some operations like initiating a new payment.
    ///
    /// The private key is expected to be PEM encoded.
    pub fn with_signing_key(self, key_id: &str, private_key: Vec<u8>) -> (r: TrueLayerClientBuilder)
        ensures
            r.signing_key matches Some(key) && key.0@ == key_id@ && key.1 == private_key,
            r.retry_policy == self.retry_policy,
            r.environment == self.environment,
            r.credentials == self.credentials,
    {
        TrueLayerClientBuilder {
            retry_policy: self.retry_policy,
            environment: self.environment,
            credentials: self.credentials,
            signing_key: Some((key_id.to_owned(), private_key)),
        }
    }

    /// Sets the environment to which this client should connect.
    pub fn with_environment(self, environment: Environment) -> (r: TrueLayerClientBuilder)
        ensures
            r.environment == environment,
            r.retry_policy == self.retry_policy,
            r.credentials == self.credentials,
            r.signing_key == self.signing_key,
    {
        TrueLayerClientBuilder {
            retry_policy: self.retry_policy,
            environment,
            credentials: self.credentials,
            signing_key: self.signing_key,
        }
    }

    /// Consumes the builder and lays out a new client.
    ///
    /// The chain of the authenticator retries as the client does, but
    /// neither authenticates nor signs. The chain of the client
    /// authenticates always, and signs if a signing key was given.
    pub fn build(self) -> (r: TrueLayerClient)
        ensures
            r.environment == self.environment,
            r.credentials == self.credentials,
            links_of(r.auth_chain) == chain_of(self.retry_policy, false, None),
            links_of(r.chain) == chain_of(self.retry_policy, true, key_of(self.signing_key)),
    {
        let auth_chain = build_client_with_middleware(self.retry_policy, None, None);
        let signing_middleware = match self.signing_key {
            Some((key_id, private_key)) => Some(SigningMiddleware { key_id, private_key }),
            None => None,
        };
        let chain = build_client_with_middleware(
            self.retry_policy,
            Some(AuthenticationMiddleware),
            signing_middleware,
        );
        TrueLayerClient {
            environment: self.environment,
            credentials: self.credentials,
            auth_chain,
            chain,
        }
    }
}

} // verus!
