//! Wire shapes of the billing collaborator's wallet-creation call, and
//! the classification of its reply.
//!
//! The call itself is plain request/response HTTP made by the
//! surrounding process; only the data and the decisions on it live
//! here. The reply is either a created wallet or a refusal carrying the
//! remote status and message.

use vstd::prelude::*;

verus! {

/// A currency, by its ISO code.
pub struct Currency {
    pub code: String,
}

/// Whether a wallet is live or was terminated.
#[derive(Clone, Copy, Debug, PartialEq, Eq, Structural)]
pub enum WalletStatus {
    Active,
    Terminated,
}

/// A rule by which credits recur on a wallet.
pub struct RecurringTransactionRule {
    pub interval: String,
    pub paid_credits: String,
    pub granted_credits: String,
}

/// One key/value entry of transaction metadata.
pub struct Meta {
    pub key: String,
    pub value: String,
}

/// A wallet-creation request.
pub struct Request {
    pub currency: Currency,
    pub external_customer_id: String,
    pub rate_amount: String,
    pub expiration_at: Option<String>,
    pub granted_credits: String,
    pub invoice_requires_successful_payment: Option<bool>,
    pub name: Option<String>,
    pub paid_credits: String,
    pub recurring_transaction_rules: Option<Vec<RecurringTransactionRule>>,
    pub transaction_metadata: Option<Vec<Meta>>,
}

/// The collaborator's reply: a created wallet, or a refusal with the
/// remote status and message.
pub enum Response {
    Created { wallet: Box<Wallet> },
    Refused { status: u16, error: String },
}

/// A wallet as the collaborator reports it.
pub struct Wallet {
    pub balance_cents: u64,
    pub consumed_credits: String,
    pub created_at: String,
    pub credits_balance: String,
    pub credits_ongoing_balance: String,
    pub credits_ongoing_usage_balance: String,
    pub currency: Currency,
    pub external_customer_id: String,
    pub lago_customer_id: String,
    pub lago_id: String,
    pub ongoing_balance_cents: u64,
    pub ongoing_usage_balance_cents: u64,
    pub rate_amount: String,
    pub status: WalletStatus,
    pub expiration_at: Option<String>,
    pub invoice_requires_successful_payment: Option<bool>,
    pub last_balance_sync_at: Option<String>,
    pub last_consumed_credit_at: Option<String>,
    pub name: Option<String>,
    pub recurring_transaction_rules: Option<Vec<RecurringTransactionRule>>,
    pub terminated_at: Option<String>,
}

impl Response {
    /// Whether the reply carries a created wallet.
    pub fn is_created(&self) -> (r: bool)
        ensures
            r == (self is Created),
    {
        match self {
            Response::Created { .. } => true,
            Response::Refused { .. } => false,
        }
    }

    /// The remote status of a refusal, if the reply is one.
    pub fn refusal_status(&self) -> (r: Option<u16>)
        ensures
            (*self) matches Response::Refused { status, .. } ==> r == Some(status),
            self is Created ==> r is None,
    {
        match self {
            Response::Created { .. } => None,
            Response::Refused { status, .. } => Some(*status),
        }
    }
}

impl Wallet {
    /// Whether the wallet is live.
    pub fn is_active(&self) -> (r: bool)
        ensures
            r == (self.status == WalletStatus::Active),
    {
        match self.status {
            WalletStatus::Active => true,
            WalletStatus::Terminated => false,
        }
    }
}

} // verus!
