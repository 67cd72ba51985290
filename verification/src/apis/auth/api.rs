//! The request of the authentication API.
use vstd::prelude::*;
use crate::common::CONNECT_TOKEN_PATH;
use crate::request::{Body, Headers, Method, Request};

verus! {

/// TrueLayer authentication API client.
#[derive(Debug, Clone, Copy, PartialEq, Eq, Structural)]
pub struct AuthApi;

impl AuthApi {
    /// The request that asks the authentication server for an access
    /// token, from the credentials as JSON. It carries no idempotency key,
    /// so that it is sent once and never again.
    pub fn token_request(body: Vec<u8>) -> (r: Request)
        ensures
            r.method == Method::Post,
            r.path@ == CONNECT_TOKEN_PATH@,
            r.query@.len() == 0,
            r.headers@.len() == 0,
            r.body == Body::Bytes(body),
    {
        Request {
            method: Method::Post,
            path: CONNECT_TOKEN_PATH.to_owned(),
            query: Vec::new(),
            headers: Headers::new(),
            body: Body::Bytes(body),
        }
    }
}

} // verus!
