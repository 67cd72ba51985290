//! Refunds of payments.
use vstd::prelude::*;
use crate::apis::payments::Currency;
use crate::pollable::IsInTerminalState;
use crate::time::Timestamp;

verus! {

/// A request to refund a payment, in full when no amount is given.
#[derive(Debug, Clone, PartialEq, Eq)]
pub struct CreateRefundRequest {
    pub amount_in_minor: Option<u64>,
    pub reference: String,
    pub metadata: Option<Vec<(String, String)>>,
}

/// The reply to a request to create a refund.
#[derive(Debug, Clone, PartialEq, Eq)]
pub struct CreateRefundResponse {
    pub id: String,
}

/// A refund as the server reports it.
#[derive(Debug, Clone, PartialEq, Eq)]
pub struct Refund {
    pub id: String,
    pub amount_in_minor: u64,
    pub currency: Currency,
    pub reference: String,
    pub created_at: Timestamp,
    pub metadata: Option<Vec<(String, String)>>,
    pub status: RefundStatus,
}

impl Refund {
    /// The refund has reached a state that it does not leave.
    pub open spec fn is_terminal(&self) -> bool {
        self.status is Executed || self.status is Failed
    }
}

impl IsInTerminalState for Refund {
    fn is_in_terminal_state(&self) -> (r: bool)
        ensures
            r == self.is_terminal(),
    {
        match self.status {
            RefundStatus::Executed { .. } => true,
            RefundStatus::Failed { .. } => true,
            _ => false,
        }
    }
}

/// The states of a refund.
#[derive(Debug, Clone, PartialEq, Eq)]
pub enum RefundStatus {
    Pending,
    Authorized,
    Executed { executed_at: Timestamp },
    Failed { failed_at: Timestamp, failure_reason: String },
}

} // verus!
