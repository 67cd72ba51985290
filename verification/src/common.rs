//! Names and addresses that the client and the TrueLayer APIs agree on.
use vstd::prelude::*;

verus! {

/// Base address of the authentication server of the live environment.
pub const DEFAULT_AUTH_URL: &'static str = "https://auth.truelayer.com";

/// Base address of the payments API of the live environment.
pub const DEFAULT_PAYMENTS_URL: &'static str = "https://test-pay-api.truelayer.com";

/// Base address of the hosted payments page of the live environment.
pub const DEFAULT_HOSTED_PAYMENTS_PAGE_URL: &'static str = "https://payment.truelayer.com";

/// Base address of the authentication server of the sandbox.
pub const DEFAULT_SANDBOX_AUTH_URL: &'static str = "https://auth.truelayer-sandbox.com";

/// Base address of the payments API of the sandbox.
pub const DEFAULT_SANDBOX_PAYMENTS_URL: &'static str = "https://test-pay-api.truelayer-sandbox.com";

/// Base address of the hosted payments page of the sandbox.
pub const DEFAULT_SANDBOX_HOSTED_PAYMENTS_PAGE_URL: &'static str =
    "https://payment.truelayer-sandbox.com";

/// Path of the authentication endpoint, relative to the authentication server.
pub const CONNECT_TOKEN_PATH: &'static str = "/connect/token";

/// Header that marks a mutating request as safe to repeat.
pub const IDEMPOTENCY_KEY_HEADER: &'static str = "Idempotency-Key";

/// Header that carries the detached signature of a request.
pub const TL_SIGNATURE_HEADER: &'static str = "Tl-Signature";

/// Response header by which the server names the request in its own logs.
pub const TL_CORRELATION_ID_HEADER: &'static str = "X-Tl-Correlation-Id";

/// Header that carries the access token.
pub const AUTHORIZATION_HEADER: &'static str = "Authorization";

/// Header that names the client software.
pub const USER_AGENT_HEADER: &'static str = "User-Agent";

/// What the client calls itself in the `User-Agent` header.
pub const USER_AGENT: &'static str = "truelayer-rust/0.1.0";

/// The only token type that the client accepts from the authentication server.
pub const BEARER: &'static str = "Bearer";

} // verus!
