//! The requests of the payments API.
use vstd::prelude::*;
use vstd::string::StringExecFns;
use crate::apis::auth::Token;
use crate::apis::endpoint::{
    encoded_text, get, is_get, is_post, path_to_id, path_with_id, post,
};
use crate::request::Request;

verus! {

/// TrueLayer payments API client.
#[derive(Debug, Clone, Copy, PartialEq, Eq, Structural)]
pub struct PaymentsApi;

/// What a poller reports when the payment it polls is gone.
pub const PAYMENT_MISSING: &'static str = "Payment returned 404 while polling";

/// What a poller reports when the refund it polls is gone.
pub const REFUND_MISSING: &'static str = "Refund returned 404 while polling";

/// The fragment of a link to the hosted payments page: the payment, its
/// resource token and where to return to.
pub open spec fn hpp_fragment(
    payment_id: Seq<char>,
    resource_token: Seq<char>,
    return_uri: Seq<char>,
) -> Seq<char> {
    "payment_id="@ + payment_id + "&resource_token="@ + resource_token + "&return_uri="@
        + return_uri
}

impl PaymentsApi {
    /// The request that creates a new payment, from the payment as JSON.
    pub fn create(body: Vec<u8>) -> (r: Request)
        ensures
            is_post(r, "/payments"@, body),
    {
        post("/payments".to_owned(), body)
    }

    /// The request that starts the authorization flow of a payment.
    pub fn start_authorization_flow(payment_id: &str, body: Vec<u8>) -> (r: Request)
        ensures
            is_post(r, "/payments/"@ + encoded_text(payment_id@) + "/authorization-flow"@, body),
    {
        post(path_with_id("/payments/", payment_id, "/authorization-flow"), body)
    }

    /// The request that submits the provider that the user picked.
    pub fn submit_provider_selection(payment_id: &str, body: Vec<u8>) -> (r: Request)
        ensures
            is_post(
                r,
                "/payments/"@ + encoded_text(payment_id@)
                    + "/authorization-flow/actions/provider-selection"@,
                body,
            ),
    {
        post(
            path_with_id(
                "/payments/",
                payment_id,
                "/authorization-flow/actions/provider-selection",
            ),
            body,
        )
    }

    /// The request that submits the user's consent, with the empty JSON
    /// object that the endpoint expects as the body.
    pub fn submit_consent(payment_id: &str, body: Vec<u8>) -> (r: Request)
        ensures
            is_post(
                r,
                "/payments/"@ + encoded_text(payment_id@) + "/authorization-flow/actions/consent"@,
                body,
            ),
    {
        post(path_with_id("/payments/", payment_id, "/authorization-flow/actions/consent"), body)
    }

    /// The request that submits what the user entered into a form.
    pub fn submit_form_inputs(payment_id: &str, body: Vec<u8>) -> (r: Request)
        ensures
            is_post(
                r,
                "/payments/"@ + encoded_text(payment_id@) + "/authorization-flow/actions/form"@,
                body,
            ),
    {
        post(path_with_id("/payments/", payment_id, "/authorization-flow/actions/form"), body)
    }

    /// The request that cancels a payment, with the empty JSON object that
    /// the endpoint expects as the body.
    pub fn cancel(payment_id: &str, body: Vec<u8>) -> (r: Request)
        ensures
            is_post(r, "/payments/"@ + encoded_text(payment_id@) + "/actions/cancel"@, body),
    {
        post(path_with_id("/payments/", payment_id, "/actions/cancel"), body)
    }

    /// The request that gets the details of an existing payment.
    pub fn get_by_id(id: &str) -> (r: Request)
        ensures
            is_get(r, "/payments/"@ + encoded_text(id@)),
    {
        get(path_to_id("/payments/", id))
    }

    /// The fragment of the link to the hosted payments page for a payment;
    /// the page itself is at `/payments` of the environment's hosted
    /// payments page.
    pub fn get_hosted_payments_page_link(
        payment_id: &str,
        resource_token: &Token,
        return_uri: &str,
    ) -> (r: String)
        ensures
            r@ == hpp_fragment(payment_id@, resource_token@, return_uri@),
    {
        let mut fragment = "payment_id=".to_owned();
        fragment.append(payment_id);
        fragment.append("&resource_token=");
        fragment.append(resource_token.expose_secret());
        fragment.append("&return_uri=");
        fragment.append(return_uri);
        fragment
    }

    /// The request that submits what the provider handed back when it
    /// returned the user.
    pub fn submit_provider_return_parameters(body: Vec<u8>) -> (r: Request)
        ensures
            is_post(r, "/payments-provider-return"@, body),
    {
        post("/payments-provider-return".to_owned(), body)
    }

    /// The request that refunds a payment.
    pub fn create_refund(payment_id: &str, body: Vec<u8>) -> (r: Request)
        ensures
            is_post(r, "/payments/"@ + encoded_text(payment_id@) + "/refunds"@, body),
    {
        post(path_with_id("/payments/", payment_id, "/refunds"), body)
    }

    /// The request that gets the details of a refund of a payment.
    pub fn get_refund_by_id(payment_id: &str, id: &str) -> (r: Request)
        ensures
            is_get(
                r,
                "/payments/"@ + encoded_text(payment_id@) + "/refunds/"@ + encoded_text(id@),
            ),
    {
        let mut path = path_with_id("/payments/", payment_id, "/refunds/");
        path.append(crate::apis::endpoint::encode(id).as_str());
        get(path)
    }

    /// The request that lists the refunds of a payment.
    pub fn list_refunds(payment_id: &str) -> (r: Request)
        ensures
            is_get(r, "/payments/"@ + encoded_text(payment_id@) + "/refunds"@),
    {
        get(path_with_id("/payments/", payment_id, "/refunds"))
    }
}

} // verus!
