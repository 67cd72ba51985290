//! The requests of the payments providers API.
use vstd::prelude::*;
use crate::apis::endpoint::{encoded_text, get_with_query, is_query, path_to_id};
use crate::request::Request;

verus! {

/// TrueLayer payments providers API client.
#[derive(Debug, Clone, Copy, PartialEq, Eq, Structural)]
pub struct PaymentsProvidersApi;

impl PaymentsProvidersApi {
    /// The request that gets the details of a payments provider, asked on
    /// behalf of the client with the given id.
    pub fn get_by_id(id: &str, client_id: &str) -> (r: Request)
        ensures
            is_query(
                r,
                "/payments-providers/"@ + encoded_text(id@),
                seq![("client_id"@, client_id@)],
            ),
    {
        let mut query: Vec<(String, String)> = Vec::new();
        query.push(("client_id".to_owned(), client_id.to_owned()));
        let r = get_with_query(path_to_id("/payments-providers/", id), query);
        assert(crate::apis::endpoint::query_of(r.query) =~= seq![("client_id"@, client_id@)]);
        r
    }
}

} // verus!
