//! Puts the access token on outgoing requests.
use vstd::prelude::*;
use vstd::string::StringSliceAdditionalSpecFns;
use vstd::utf8::encode_utf8;
use crate::apis::auth::Token;
use crate::common::AUTHORIZATION_HEADER;
use crate::error::Error;
use crate::request::{
    append_bytes, is_valid_header_value, is_valid_value, with_line, HeaderView, Request,
};

verus! {

/// The link of the chain that injects the access token into outgoing
/// requests.
#[derive(Debug, Clone, Copy, PartialEq, Eq, Structural)]
pub struct AuthenticationMiddleware;

/// What precedes the token in the value of the `Authorization` header.
pub const BEARER_PREFIX: &'static str = "Bearer ";

/// What is reported when a token cannot be put into a header.
pub const INVALID_TOKEN: &'static str = "failed to parse header value";

/// The value of the `Authorization` header for a token.
pub open spec fn bearer_value(token: Seq<char>) -> Seq<u8> {
    BEARER_PREFIX.spec_bytes() + encode_utf8(token)
}

/// The value of the `Authorization` header for a token.
pub fn bearer_header(token: &Token) -> (r: Vec<u8>)
    ensures
        r@ == bearer_value(token@),
{
    let mut value: Vec<u8> = Vec::new();
    append_bytes(&mut value, BEARER_PREFIX.as_bytes());
    append_bytes(&mut value, token.expose_secret().as_bytes());
    value
}

impl AuthenticationMiddleware {
    /// Sets the `Authorization` header of the request to the bearer form of
    /// the access token and flags it as sensitive. A token that cannot
    /// stand in a header is refused, and the request is left as it is.
    pub fn handle(&self, req: &mut Request, access_token: &Token) -> (r: Result<(), Error>)
        ensures
            final(req).method == old(req).method,
            final(req).path == old(req).path,
            final(req).query == old(req).query,
            final(req).body == old(req).body,
            is_valid_value(bearer_value(access_token@)) ==> r is Ok && final(req).headers@
                == with_line(
                old(req).headers@,
                HeaderView {
                    name: AUTHORIZATION_HEADER.spec_bytes(),
                    value: bearer_value(access_token@),
                    sensitive: true,
                },
            ),
            !is_valid_value(bearer_value(access_token@)) ==> (r matches Err(Error::Other(why))
                && why@ == INVALID_TOKEN@) && final(req).headers == old(req).headers,
    {
        let value = bearer_header(access_token);
        if !is_valid_header_value(value.as_slice()) {
            return Err(Error::Other(INVALID_TOKEN.to_owned()));
        }
        req.headers.insert(AUTHORIZATION_HEADER, value, true);
        Ok(())
    }
}

} // verus!
