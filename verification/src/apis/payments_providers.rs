//! Providers through which payments can be made.
use vstd::prelude::*;
use crate::apis::payments::CountryCode;

pub mod api;
pub mod capabilities;

verus! {

/// A provider and what it can do.
#[derive(Debug, Clone, PartialEq, Eq)]
pub struct Provider {
    pub id: String,
    pub display_name: Option<String>,
    pub icon_uri: Option<String>,
    pub logo_uri: Option<String>,
    pub bg_color: Option<String>,
    pub country_code: Option<CountryCode>,
    pub capabilities: Capabilities,
}

/// What a provider can do.
#[derive(Debug, Clone, PartialEq, Eq)]
pub struct Capabilities {
    pub payments: capabilities::Payments,
}

/// A payment scheme that a provider takes part in.
#[derive(Debug, Clone, PartialEq, Eq)]
pub struct PaymentScheme {
    pub id: String,
}

} // verus!
