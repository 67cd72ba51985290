//! What a provider can do, by kind of operation.
use vstd::prelude::*;
use crate::apis::payments::ReleaseChannel;
use crate::apis::payments_providers::PaymentScheme;

verus! {

/// The ways in which a provider can take payments.
#[derive(Debug, Clone, PartialEq, Eq)]
pub struct Payments {
    pub bank_transfer: Option<BankTransfer>,
}

/// How a provider takes bank transfers.
#[derive(Debug, Clone, PartialEq, Eq)]
pub struct BankTransfer {
    pub release_channel: ReleaseChannel,
    pub schemes: Vec<PaymentScheme>,
}

} // verus!
