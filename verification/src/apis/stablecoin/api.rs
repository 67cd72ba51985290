//! The requests of the stablecoin API.
use vstd::prelude::*;
use crate::apis::endpoint::{get_with_query, is_post, is_query, post};
use crate::request::Request;
use crate::text::{decimal, decimal_digits};

verus! {

/// TrueLayer stablecoin API client.
#[derive(Debug, Clone, Copy, PartialEq, Eq, Structural)]
pub struct StablecoinApi;

impl StablecoinApi {
    /// The request that has the server check the signature of a request,
    /// with any JSON as the body.
    pub fn test_signature(body: Vec<u8>) -> (r: Request)
        ensures
            is_post(r, "/v1/test-signature"@, body),
    {
        post("/v1/test-signature".to_owned(), body)
    }

    /// The request that lists at most `limit` on-ramp transactions.
    pub fn list_on_ramps(limit: u64) -> (r: Request)
        ensures
            is_query(
                r,
                "/v1/on-ramp/transactions"@,
                seq![("limit"@, decimal_digits(limit as nat))],
            ),
    {
        let mut query: Vec<(String, String)> = Vec::new();
        query.push(("limit".to_owned(), decimal(limit)));
        let r = get_with_query("/v1/on-ramp/transactions".to_owned(), query);
        assert(crate::apis::endpoint::query_of(r.query) =~= seq![
            ("limit"@, decimal_digits(limit as nat)),
        ]);
        r
    }
}

} // verus!
