//! Data exchanged with the TrueLayer APIs.
pub mod auth;
pub mod endpoint;
pub mod merchant_accounts;
pub mod payments;
pub mod payments_providers;
pub mod payouts;
pub mod stablecoin;
