//! The requests of the merchant accounts API.
use vstd::prelude::*;
use crate::apis::endpoint::{
    delete, encoded_text, get, get_with_query, is_delete, is_get, is_post, is_query,
    path_to_id, path_with_id, path_with_raw, post, query_of,
};
use crate::apis::merchant_accounts::{
    ListPaymentSourcesRequest, ListTransactionsRequest, TransactionTypeFilter,
};
use crate::request::Request;

verus! {

/// TrueLayer merchant accounts API client.
#[derive(Debug, Clone, Copy, PartialEq, Eq, Structural)]
pub struct MerchantAccountsApi;

/// The name under which a kind of transaction goes in a query.
pub open spec fn filter_name(filter: TransactionTypeFilter) -> Seq<char> {
    match filter {
        TransactionTypeFilter::Payment => "payment"@,
        TransactionTypeFilter::Payout => "payout"@,
    }
}

/// The query that asks for the transactions of a span of time: its two
/// ends as date and time, then the kind of transaction, if one is asked
/// for. Nothing where an end cannot be written as date and time.
pub open spec fn transactions_query(request: ListTransactionsRequest) -> Option<
    Seq<(Seq<char>, Seq<char>)>,
> {
    match (request.from.spec_to_rfc3339(), request.to.spec_to_rfc3339()) {
        (Some(from), Some(to)) => Some(
            seq![("from"@, from), ("to"@, to)] + (match request.kind {
                Some(filter) => seq![("type"@, filter_name(filter))],
                None => seq![],
            }),
        ),
        _ => None,
    }
}

impl MerchantAccountsApi {
    /// The request that lists all merchant accounts.
    pub fn list() -> (r: Request)
        ensures
            is_get(r, "/merchant-accounts"@),
    {
        get("/merchant-accounts".to_owned())
    }

    /// The request that gets the details of a single merchant account.
    pub fn get_by_id(merchant_account_id: &str) -> (r: Request)
        ensures
            is_get(r, "/merchant-accounts/"@ + encoded_text(merchant_account_id@)),
    {
        get(path_to_id("/merchant-accounts/", merchant_account_id))
    }

    /// The request that sets up the sweeping of a merchant account, from
    /// the settings as JSON.
    pub fn setup_sweeping(merchant_account_id: &str, body: Vec<u8>) -> (r: Request)
        ensures
            is_post(r, "/merchant-accounts/"@ + merchant_account_id@ + "/sweeping"@, body),
    {
        post(path_with_raw("/merchant-accounts/", merchant_account_id, "/sweeping"), body)
    }

    /// The request that disables the sweeping of a merchant account.
    pub fn disable_sweeping(merchant_account_id: &str) -> (r: Request)
        ensures
            is_delete(r, "/merchant-accounts/"@ + merchant_account_id@ + "/sweeping"@),
    {
        delete(path_with_raw("/merchant-accounts/", merchant_account_id, "/sweeping"))
    }

    /// The request that gets the sweeping settings of a merchant account.
    pub fn get_sweeping_settings(merchant_account_id: &str) -> (r: Request)
        ensures
            is_get(
                r,
                "/merchant-accounts/"@ + encoded_text(merchant_account_id@) + "/sweeping"@,
            ),
    {
        get(path_with_id("/merchant-accounts/", merchant_account_id, "/sweeping"))
    }

    /// The request that lists the transactions of a merchant account within
    /// a span of time, or `None` where an end of the span cannot be written
    /// as date and time.
    pub fn list_transactions(merchant_account_id: &str, request: &ListTransactionsRequest) -> (r:
        Option<Request>)
        ensures
            match transactions_query(*request) {
                Some(query) => r matches Some(req) && is_query(
                    req,
                    "/merchant-accounts/"@ + merchant_account_id@ + "/transactions"@,
                    query,
                ),
                None => r is None,
            },
    {
        let from = match request.from.to_rfc3339() {
            Some(text) => text,
            None => {
                return None;
            },
        };
        let to = match request.to.to_rfc3339() {
            Some(text) => text,
            None => {
                return None;
            },
        };
        let mut query: Vec<(String, String)> = Vec::new();
        query.push(("from".to_owned(), from));
        query.push(("to".to_owned(), to));
        match request.kind {
            Some(TransactionTypeFilter::Payment) => {
                query.push(("type".to_owned(), "payment".to_owned()));
            },
            Some(TransactionTypeFilter::Payout) => {
                query.push(("type".to_owned(), "payout".to_owned()));
            },
            None => {},
        }
        assert(query_of(query) =~= transactions_query(*request).unwrap());
        Some(
            get_with_query(
                path_with_raw("/merchant-accounts/", merchant_account_id, "/transactions"),
                query,
            ),
        )
    }

    /// The request that lists the payment sources of a user of a merchant
    /// account.
    pub fn list_payment_sources(
        merchant_account_id: &str,
        request: &ListPaymentSourcesRequest,
    ) -> (r: Request)
        ensures
            is_query(
                r,
                "/merchant-accounts/"@ + merchant_account_id@ + "/payment-sources"@,
                seq![("user_id"@, request.user_id@)],
            ),
    {
        let mut query: Vec<(String, String)> = Vec::new();
        query.push(("user_id".to_owned(), request.user_id.clone()));
        let r = get_with_query(
            path_with_raw("/merchant-accounts/", merchant_account_id, "/payment-sources"),
            query,
        );
        assert(query_of(r.query) =~= seq![("user_id"@, request.user_id@)]);
        r
    }
}

} // verus!
