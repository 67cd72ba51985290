//! The links of the chain that every request and response passes through.
//!
//! Outermost to innermost: the user agent injector, the error normalizer,
//! the idempotent retry, the authentication injector and the request signer.
pub mod authentication;
pub mod error_handling;
pub mod inject_user_agent;
pub mod retry_idempotent;
pub mod signing;
