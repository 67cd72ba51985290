//! Payouts from a merchant account.
use vstd::prelude::*;
use crate::apis::payments::{AccountIdentifier, Currency};
use crate::pollable::IsInTerminalState;
use crate::time::Timestamp;

pub mod api;

verus! {

/// A request to pay out of a merchant account.
#[derive(Debug, Clone, PartialEq, Eq)]
pub struct CreatePayoutRequest {
    pub merchant_account_id: String,
    pub amount_in_minor: u64,
    pub currency: Currency,
    pub beneficiary: PayoutBeneficiary,
}

impl CreatePayoutRequest {
    /// A request to pay `amount_in_minor` of `currency` out of the given
    /// merchant account to `beneficiary`.
    pub fn new(
        merchant_account_id: String,
        amount_in_minor: u64,
        currency: Currency,
        beneficiary: PayoutBeneficiary,
    ) -> (r: CreatePayoutRequest)
        ensures
            r == (CreatePayoutRequest {
                merchant_account_id,
                amount_in_minor,
                currency,
                beneficiary,
            }),
    {
        CreatePayoutRequest { merchant_account_id, amount_in_minor, currency, beneficiary }
    }
}

/// The reply to a request to create a payout.
#[derive(Debug, Clone, PartialEq, Eq)]
pub struct CreatePayoutResponse {
    pub id: String,
}

/// Who receives a payout.
#[derive(Debug, Clone, PartialEq, Eq)]
pub enum PayoutBeneficiary {
    ExternalAccount(ExternalAccount),
    PaymentSource(PaymentSource),
}

/// An account outside TrueLayer that receives a payout.
#[derive(Debug, Clone, PartialEq, Eq)]
pub struct ExternalAccount {
    pub account_holder_name: String,
    pub account_identifier: AccountIdentifier,
    pub reference: String,
}

/// A payment source of a user that receives a payout.
#[derive(Debug, Clone, PartialEq, Eq)]
pub struct PaymentSource {
    pub user_id: String,
    pub payment_source_id: String,
    pub reference: String,
}

/// A payout as the server reports it.
#[derive(Debug, Clone, PartialEq, Eq)]
pub struct Payout {
    pub id: String,
    pub merchant_account_id: String,
    pub amount_in_minor: u64,
    pub currency: Currency,
    pub beneficiary: PayoutBeneficiary,
    pub created_at: Timestamp,
    pub status: PayoutStatus,
}

impl Payout {
    /// The payout has reached a state that it does not leave.
    pub open spec fn is_terminal(&self) -> bool {
        self.status is Executed || self.status is Failed
    }
}

impl IsInTerminalState for Payout {
    fn is_in_terminal_state(&self) -> (r: bool)
        ensures
            r == self.is_terminal(),
    {
        match self.status {
            PayoutStatus::Executed { .. } => true,
            PayoutStatus::Failed { .. } => true,
            _ => false,
        }
    }
}

/// The states of a payout.
#[derive(Debug, Clone, PartialEq, Eq)]
pub enum PayoutStatus {
    Pending,
    Authorized,
    Executed { executed_at: Timestamp },
    Failed { failed_at: Timestamp, failure_reason: String },
}

} // verus!
