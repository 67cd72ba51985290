//! Purchases of stablecoin tokens with fiat money.
use vstd::prelude::*;
use crate::time::Timestamp;

pub mod api;

verus! {

/// One page of on-ramp transactions.
#[derive(Debug, Clone)]
pub struct ListOnRampResponse {
    pub items: Vec<OnRamp>,
    pub pagination: Pagination,
}

/// Where the next page of a list starts.
#[derive(Debug, Clone)]
pub struct Pagination {
    pub next_cursor: String,
}

/// A purchase of stablecoin tokens.
#[derive(Debug, Clone)]
pub struct OnRamp {
    pub id: String,
    pub status: OnRampStatus,
    pub status_detail: Option<String>,
    pub fiat_currency: FiatCurrency,
    pub blockchain_network: BlockchainNetwork,
    pub stablecoin_token: StablecoinToken,
    pub stablecoin_destination_address: String,
    pub fiat_amount_in_minor: i64,
    pub fiat_fee_in_minor: Option<i64>,
    pub price_plan_id: Option<String>,
    pub price_plan_name: Option<String>,
    pub stablecoin_token_amount_in_minor: Option<i64>,
    pub blockchain_transaction_hash: Option<String>,
    pub created_at: Timestamp,
    pub updated_at: Timestamp,
}

/// The states of an on-ramp transaction.
#[derive(Debug, Clone, Copy)]
pub enum OnRampStatus {
    Pending,
    Completed,
    Failed,
}

/// The fiat currencies that tokens can be bought with.
#[derive(Debug, Clone, Copy)]
pub enum FiatCurrency {
    GBP,
}

/// The tokens that can be bought.
#[derive(Debug, Clone, Copy)]
pub enum StablecoinToken {
    GBPL,
}

/// The networks on which tokens are issued.
#[derive(Debug, Clone, Copy)]
pub enum BlockchainNetwork {
    Ethereum,
    Polygon,
}

} // verus!
