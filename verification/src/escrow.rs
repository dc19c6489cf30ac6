//! The custody primitive: a neutral holding of one asset, tied to one trade.
//!
//! Funds enter custody by `lock` and leave it by `release`. Both either move
//! exactly the amount asked for or change nothing. In this library only the
//! transitions of a trade call them.

use vstd::prelude::*;
use crate::error::TradeError;
use crate::key::Key;

verus! {

/// A party's spendable balance of one asset.
#[derive(Clone, Copy, Debug, PartialEq, Eq, Structural)]
pub struct TokenAccount {
    pub owner: Key,
    pub mint: Key,
    pub amount: u64,
}

/// The custody of one trade: how much of the trade's asset it holds.
#[derive(Clone, Copy, Debug, PartialEq, Eq, Structural)]
pub struct Escrow {
    pub asset: Key,
    pub balance: u64,
}

impl TokenAccount {
    /// The account after `amount` has been added to it.
    pub open spec fn credited(self, amount: u64) -> TokenAccount {
        TokenAccount { amount: (self.amount + amount) as u64, ..self }
    }

    /// The account after `amount` has been taken from it.
    pub open spec fn debited(self, amount: u64) -> TokenAccount {
        TokenAccount { amount: (self.amount - amount) as u64, ..self }
    }
}

impl Escrow {
    /// The custody after `amount` has entered it.
    pub open spec fn filled(self, amount: u64) -> Escrow {
        Escrow { balance: (self.balance + amount) as u64, ..self }
    }

    /// The custody after `amount` has left it.
    pub open spec fn drained(self, amount: u64) -> Escrow {
        Escrow { balance: (self.balance - amount) as u64, ..self }
    }

    /// Why `lock` would refuse to take `amount` from `from`, if it would.
    pub open spec fn lock_rejection(self, from: TokenAccount, amount: u64) -> Option<TradeError> {
        if from.mint != self.asset {
            Some(TradeError::AssetMismatch)
        } else if from.amount < amount {
            Some(TradeError::InsufficientFunds)
        } else if self.balance + amount > u64::MAX {
            Some(TradeError::BalanceOverflow)
        } else {
            None
        }
    }

    /// Why `release` would refuse to pay `amount` to `to`, if it would.
    pub open spec fn release_rejection(self, to: TokenAccount, amount: u64) -> Option<TradeError> {
        if self.balance < amount {
            Some(TradeError::EscrowEmpty)
        } else if to.mint != self.asset {
            Some(TradeError::AssetMismatch)
        } else if to.amount + amount > u64::MAX {
            Some(TradeError::BalanceOverflow)
        } else {
            None
        }
    }

    /// An empty custody for `asset`.
    pub fn new(asset: Key) -> (e: Escrow)
        ensures
            e == (Escrow { asset, balance: 0 }),
    {
        Escrow { asset, balance: 0 }
    }

    /// Moves `amount` from `from` into custody, or rejects and changes nothing.
    pub fn lock(&mut self, from: &mut TokenAccount, amount: u64) -> (r: Result<(), TradeError>)
        ensures
            r == (match old(self).lock_rejection(*old(from), amount) {
                Some(e) => Err::<(), TradeError>(e),
                None => Ok::<(), TradeError>(()),
            }),
            r is Err ==> *final(self) == *old(self) && *final(from) == *old(from),
            r is Ok ==> *final(self) == old(self).filled(amount),
            r is Ok ==> *final(from) == old(from).debited(amount),
    {
        if from.mint != self.asset {
            return Err(TradeError::AssetMismatch);
        }
        if from.amount < amount {
            return Err(TradeError::InsufficientFunds);
        }
        if amount > u64::MAX - self.balance {
            return Err(TradeError::BalanceOverflow);
        }
        from.amount = from.amount - amount;
        self.balance = self.balance + amount;
        Ok(())
    }

    /// Moves `amount` out of custody to `to`, or rejects and changes nothing.
    pub fn release(&mut self, to: &mut TokenAccount, amount: u64) -> (r: Result<(), TradeError>)
        ensures
            r == (match old(self).release_rejection(*old(to), amount) {
                Some(e) => Err::<(), TradeError>(e),
                None => Ok::<(), TradeError>(()),
            }),
            r is Err ==> *final(self) == *old(self) && *final(to) == *old(to),
            r is Ok ==> *final(self) == old(self).drained(amount),
            r is Ok ==> *final(to) == old(to).credited(amount),
    {
        if self.balance < amount {
            return Err(TradeError::EscrowEmpty);
        }
        if to.mint != self.asset {
            return Err(TradeError::AssetMismatch);
        }
        if amount > u64::MAX - to.amount {
            return Err(TradeError::BalanceOverflow);
        }
        self.balance = self.balance - amount;
        to.amount = to.amount + amount;
        Ok(())
    }
}

} // verus!
