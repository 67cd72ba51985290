//! Tells the requests that are safe to repeat from those that are not.
use vstd::prelude::*;
use vstd::string::StringSliceAdditionalSpecFns;
use crate::common::IDEMPOTENCY_KEY_HEADER;
use crate::backoff::ExponentialBackoff;
use crate::request::{lookup, HeaderView, Method, Request};

verus! {

/// The link of the chain that retries transient failures only on
/// idempotent requests.
///
/// A request is considered idempotent if and only if:
/// - it has an idempotent method (`GET`, `HEAD`, `OPTIONS`, `TRACE`, `PUT` or `DELETE`), or
/// - it has a `POST` or `PATCH` method *and* an `Idempotency-Key` header
///   whose value is not empty.
#[derive(Debug, Clone, Copy, PartialEq, Eq, Structural)]
pub struct RetryIdempotentMiddleware {
    /// The policy that says how often, and after what time, a request that
    /// failed for the moment is sent again.
    pub retry_policy: ExponentialBackoff,
}

/// What is to be done with a request that reaches the retry link.
#[derive(Debug, Clone, Copy, PartialEq, Eq, Structural)]
pub enum Dispatch {
    /// The request is handed to the retry policy: a transient failure is
    /// answered by sending it again.
    WithRetries,
    /// The request is sent exactly once, and whatever comes back, a
    /// transient failure too, is handed to the caller.
    Once,
}

/// The request carries an idempotency key: its first `Idempotency-Key`
/// header has a value that is not empty.
pub open spec fn has_idempotency_key(headers: Seq<HeaderView>) -> bool {
    match lookup(headers, IDEMPOTENCY_KEY_HEADER.spec_bytes()) {
        Some(value) => value.len() > 0,
        None => false,
    }
}

/// A request with this method and these headers is safe to repeat.
pub open spec fn spec_is_idempotent(method: Method, headers: Seq<HeaderView>) -> bool {
    method.is_idempotent() || (method.needs_idempotency_key() && has_idempotency_key(headers))
}

impl RetryIdempotentMiddleware {
    /// A link that retries under the given policy.
    pub fn new(retry_policy: ExponentialBackoff) -> (r: RetryIdempotentMiddleware)
        ensures
            r.retry_policy == retry_policy,
    {
        RetryIdempotentMiddleware { retry_policy }
    }

    /// Whether the request is safe to repeat.
    pub fn is_idempotent(req: &Request) -> (r: bool)
        ensures
            r == spec_is_idempotent(req.method, req.headers@),
    {
        match req.method {
            Method::Get => true,
            Method::Head => true,
            Method::Options => true,
            Method::Trace => true,
            Method::Put => true,
            Method::Delete => true,
            Method::Post | Method::Patch => {
                match req.headers.get(IDEMPOTENCY_KEY_HEADER) {
                    Some(value) => value.len() > 0,
                    None => false,
                }
            },
            _ => false,
        }
    }

    /// Decides how the request is sent: with retries if it is idempotent,
    /// once if it is not.
    pub fn handle(&self, req: &Request) -> (r: Dispatch)
        ensures
            r == if spec_is_idempotent(req.method, req.headers@) {
                Dispatch::WithRetries
            } else {
                Dispatch::Once
            },
    {
        if Self::is_idempotent(req) {
            Dispatch::WithRetries
        } else {
            Dispatch::Once
        }
    }
}

} // verus!
