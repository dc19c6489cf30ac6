//! The reasons for which a call on a trade is rejected.

use vstd::prelude::*;

verus! {

/// Why a single call was rejected. Every rejection is local and leaves the
/// trade and every account as they were.
#[derive(Clone, Copy, Debug, PartialEq, Eq, Structural)]
pub enum TradeError {
    /// The transition is not legal from the trade's current status.
    InvalidStatus,
    /// The caller is not a party entitled to this action.
    Unauthorized,
    /// The caller is neither maker nor counterparty of the disputed trade.
    UnauthorizedDisputer,
    /// The amount is outside the bounds on offer.
    InvalidAmount,
    /// The price is not positive.
    InvalidPrice,
    /// The source account holds less than the amount to lock.
    InsufficientFunds,
    /// The account's asset is not the one the trade declares.
    AssetMismatch,
    /// Custody holds less than the amount to release.
    EscrowEmpty,
    /// The receiving balance cannot hold the amount: it would pass the
    /// largest value a balance can take.
    BalanceOverflow,
    /// The quoted price is further from the oracle's than the tolerance allows.
    PriceMismatch,
    /// No trade has this id.
    NotFound,
}

impl TradeError {
    /// The words in which the rejection is reported.
    pub open spec fn message_text(self) -> Seq<char> {
        match self {
            TradeError::InvalidStatus => "Invalid trade status for this operation"@,
            TradeError::Unauthorized => "Unauthorized trader"@,
            TradeError::UnauthorizedDisputer => "Unauthorized disputer"@,
            TradeError::InvalidAmount => "Amount is outside the allowed range"@,
            TradeError::InvalidPrice => "Price must be greater than zero"@,
            TradeError::InsufficientFunds => "Insufficient funds to lock in escrow"@,
            TradeError::AssetMismatch => "Asset differs from the trade's asset"@,
            TradeError::EscrowEmpty => "Escrow holds less than the amount to release"@,
            TradeError::BalanceOverflow => "Balance cannot hold the amount"@,
            TradeError::PriceMismatch => "Price is outside the oracle tolerance"@,
            TradeError::NotFound => "Trade not found"@,
        }
    }

    /// The rejection in words.
    pub fn message(&self) -> (text: String)
        ensures
            text@ == self.message_text(),
    {
        match self {
            TradeError::InvalidStatus => "Invalid trade status for this operation".to_owned(),
            TradeError::Unauthorized => "Unauthorized trader".to_owned(),
            TradeError::UnauthorizedDisputer => "Unauthorized disputer".to_owned(),
            TradeError::InvalidAmount => "Amount is outside the allowed range".to_owned(),
            TradeError::InvalidPrice => "Price must be greater than zero".to_owned(),
            TradeError::InsufficientFunds => "Insufficient funds to lock in escrow".to_owned(),
            TradeError::AssetMismatch => "Asset differs from the trade's asset".to_owned(),
            TradeError::EscrowEmpty => "Escrow holds less than the amount to release".to_owned(),
            TradeError::BalanceOverflow => "Balance cannot hold the amount".to_owned(),
            TradeError::PriceMismatch => "Price is outside the oracle tolerance".to_owned(),
            TradeError::NotFound => "Trade not found".to_owned(),
        }
    }
}

} // verus!
