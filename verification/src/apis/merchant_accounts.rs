//! Merchant accounts, their sweeping settings and their transactions.
use vstd::prelude::*;
use crate::apis::payments::{AccountIdentifier, Currency, ExternalPaymentRemitter, PaymentSource};
use crate::apis::payouts::PayoutBeneficiary;
use crate::time::Timestamp;

pub mod api;

verus! {

/// An account that holds a merchant's funds.
#[derive(Debug, Clone, PartialEq, Eq)]
pub struct MerchantAccount {
    pub id: String,
    pub currency: Currency,
    pub account_identifiers: Vec<AccountIdentifier>,
    pub available_balance_in_minor: u64,
    pub current_balance_in_minor: u64,
    pub account_holder_name: String,
}

/// A request to sweep what exceeds an amount out of a merchant account.
#[derive(Debug, Clone, Copy, PartialEq, Eq, Structural)]
pub struct SetupSweepingRequest {
    pub max_amount_in_minor: u64,
    pub currency: Currency,
    pub frequency: SweepingFrequency,
}

/// How often a merchant account is swept.
#[derive(Debug, Clone, Copy, PartialEq, Eq, Hash, Structural)]
pub enum SweepingFrequency {
    Daily,
    Weekly,
    Fortnightly,
}

/// The sweeping that is set up on a merchant account.
#[derive(Debug, Clone, PartialEq, Eq)]
pub struct SweepingSettings {
    pub max_amount_in_minor: u64,
    pub currency: Currency,
    pub frequency: SweepingFrequency,
    pub destination: AccountIdentifier,
}

/// Asks for the payment sources of one user.
#[derive(Debug, Clone, PartialEq, Eq)]
pub struct ListPaymentSourcesRequest {
    pub user_id: String,
}

/// Asks for the transactions of a span of time.
#[derive(Debug, Clone, Copy, PartialEq, Eq, Structural)]
pub struct ListTransactionsRequest {
    pub from: Timestamp,
    pub to: Timestamp,
    pub kind: Option<TransactionTypeFilter>,
}

/// Narrows a list of transactions to one kind.
#[derive(Debug, Clone, Copy, PartialEq, Eq, Hash, Structural)]
pub enum TransactionTypeFilter {
    Payment,
    Payout,
}

/// A movement of funds on a merchant account.
#[derive(Debug, Clone, PartialEq, Eq)]
pub struct Transaction {
    pub id: String,
    pub currency: Currency,
    pub amount_in_minor: u64,
    pub kind: TransactionType,
}

/// The kinds of transaction, each with what is known of it.
#[derive(Debug, Clone, PartialEq, Eq)]
pub enum TransactionType {
    MerchantAccountPayment {
        status: TransactionPayinStatus,
        settled_at: Timestamp,
        payment_source: PaymentSource,
        payment_id: String,
    },
    ExternalPayment {
        status: TransactionPayinStatus,
        settled_at: Timestamp,
        remitter: ExternalPaymentRemitter,
    },
    Payout {
        status: TransactionPayoutStatus,
        created_at: Timestamp,
        beneficiary: PayoutBeneficiary,
        context_code: TransactionPayoutContextCode,
        payout_id: String,
    },
}

/// The states of an incoming transaction.
#[derive(Debug, Clone, Copy, PartialEq, Eq, Hash, Structural)]
pub enum TransactionPayinStatus {
    Settled,
}

/// The states of an outgoing transaction.
#[derive(Debug, Clone, Copy, PartialEq, Eq, Structural)]
pub enum TransactionPayoutStatus {
    Pending,
    Executed { executed_at: Timestamp },
}

/// Why funds left a merchant account.
#[derive(Debug, Clone, Copy, PartialEq, Eq, Hash, Structural)]
pub enum TransactionPayoutContextCode {
    Withdrawal,
    ServicePayment,
    Internal,
}

} // verus!
