//! The requests of the payouts API.
use vstd::prelude::*;
use crate::apis::endpoint::{encoded_text, get, is_get, is_post, path_to_id, post};
use crate::request::Request;

verus! {

/// TrueLayer payouts API client.
#[derive(Debug, Clone, Copy, PartialEq, Eq, Structural)]
pub struct PayoutsApi;

/// What a poller reports when the payout it polls is gone.
pub const PAYOUT_MISSING: &'static str = "Payout returned 404 while polling";

impl PayoutsApi {
    /// The request that creates a new payout, from the payout as JSON.
    pub fn create(body: Vec<u8>) -> (r: Request)
        ensures
            is_post(r, "/payouts"@, body),
    {
        post("/payouts".to_owned(), body)
    }

    /// The request that gets the details of an existing payout.
    pub fn get_by_id(id: &str) -> (r: Request)
        ensures
            is_get(r, "/payouts/"@ + encoded_text(id@)),
    {
        get(path_to_id("/payouts/", id))
    }
}

} // verus!
