//! The trades of one ledger, and the entry points that name a trade by id.
//!
//! Ids are handed out in sequence: the trade with id `n` is the one created
//! after `n` others. Every entry point finds the trade, asks the record's
//! own transition, and stores the outcome.

use vstd::prelude::*;
use crate::error::TradeError;
use crate::escrow::TokenAccount;
use crate::history::Action;
use crate::key::Key;
use crate::trade::{
    accept_trade, cancel_trade, complete_trade, create_rejection, create_trade, created,
    deposit_escrow, dispute_trade, resolve_trade, ProfileNotices, Trade, TradeStatus, Winner,
};

verus! {

/// The terms of a trade to be created.
#[derive(Clone, Copy, Debug, PartialEq, Eq, Structural)]
pub struct NewTrade {
    pub maker: Key,
    pub arbitrator: Option<Key>,
    pub asset: Key,
    pub amount: u64,
    pub price: u64,
    pub min: u64,
    pub max: u64,
}

/// The trades of one ledger, in the order of their creation.
#[derive(Clone, Debug, PartialEq, Eq)]
pub struct Ledger {
    pub trades: Vec<Trade>,
}

/// Why the request on the trade with this id is rejected, if it is.
pub open spec fn refusal(trades: Seq<Trade>, trade_id: u64, action: Action) -> Option<TradeError> {
    if trade_id < trades.len() {
        trades[trade_id as int].rejection(action)
    } else {
        Some(TradeError::NotFound)
    }
}

/// The trades after the request on the trade with this id.
pub open spec fn applied(trades: Seq<Trade>, trade_id: u64, action: Action) -> Seq<Trade> {
    if trade_id < trades.len() {
        trades.update(trade_id as int, trades[trade_id as int].after(action))
    } else {
        trades
    }
}

/// The trades after a request to create one with these terms.
pub open spec fn opened(trades: Seq<Trade>, terms: NewTrade, now: i64) -> Seq<Trade> {
    if create_rejection(terms.amount, terms.price, terms.min, terms.max) is Some {
        trades
    } else {
        trades.push(
            created(
                trades.len() as u64,
                terms.maker,
                terms.arbitrator,
                terms.asset,
                terms.amount,
                terms.price,
                now,
            ),
        )
    }
}

/// Every trade carries its position as id and meets its own invariant.
pub open spec fn well_kept(trades: Seq<Trade>) -> bool {
    forall|i: int| 0 <= i < trades.len() ==> (#[trigger] trades[i]).id == i && trades[i].wf()
}

/// The answer of an entry point that returns nothing on success.
pub open spec fn answer(refused: Option<TradeError>) -> Result<(), TradeError> {
    match refused {
        Some(e) => Err(e),
        None => Ok(()),
    }
}

impl Ledger {
    pub open spec fn wf(&self) -> bool {
        well_kept(self.trades@)
    }

    /// A ledger without trades.
    pub fn new() -> (ledger: Ledger)
        ensures
            ledger.trades@ == Seq::<Trade>::empty(),
            ledger.wf(),
    {
        Ledger { trades: Vec::new() }
    }

    /// Creates a trade and returns its id: the number of trades created
    /// before it. Nothing is compared with the trades already there, so the
    /// same terms twice make two trades.
    pub fn create(&mut self, terms: NewTrade, now: i64) -> (r: Result<u64, TradeError>)
        ensures
            r == (match create_rejection(terms.amount, terms.price, terms.min, terms.max) {
                Some(e) => Err::<u64, TradeError>(e),
                None => Ok::<u64, TradeError>(old(self).trades@.len() as u64),
            }),
            final(self).trades@ == opened(old(self).trades@, terms, now),
            old(self).wf() ==> final(self).wf(),
    {
        let id: u64 = self.trades.len() as u64;
        match create_trade(
            id,
            terms.maker,
            terms.arbitrator,
            terms.asset,
            terms.amount,
            terms.price,
            terms.min,
            terms.max,
            now,
        ) {
            Err(e) => Err(e),
            Ok(trade) => {
                self.trades.push(trade);
                Ok(id)
            },
        }
    }

    /// The trade with this id, or `NotFound`.
    pub fn query_state(&self, trade_id: u64) -> (r: Result<Trade, TradeError>)
        ensures
            r == (if trade_id < self.trades@.len() {
                Ok::<Trade, TradeError>(self.trades@[trade_id as int])
            } else {
                Err(TradeError::NotFound)
            }),
    {
        if trade_id >= self.trades.len() as u64 {
            return Err(TradeError::NotFound);
        }
        Ok(self.trades[trade_id as usize])
    }

    /// Funds the trade with this id from the maker's `source` account.
    pub fn fund_escrow(
        &mut self,
        trade_id: u64,
        caller: Key,
        source: &mut TokenAccount,
        now: i64,
    ) -> (r: Result<(), TradeError>)
        ensures
            ({
                let action = Action::Deposit { caller, source: *old(source), now };
                &&& r == answer(refusal(old(self).trades@, trade_id, action))
                &&& final(self).trades@ == applied(old(self).trades@, trade_id, action)
            }),
            r is Err ==> *final(source) == *old(source),
            r is Ok ==> *final(source) == old(source).debited(
                old(self).trades@[trade_id as int].amount,
            ),
            old(self).wf() ==> final(self).wf(),
    {
        if trade_id >= self.trades.len() as u64 {
            return Err(TradeError::NotFound);
        }
        let at: usize = trade_id as usize;
        let mut trade: Trade = self.trades[at];
        let r = deposit_escrow(&mut trade, caller, source, now);
        self.trades.set(at, trade);
        r
    }

    /// Binds `taker` to the trade with this id.
    pub fn accept(&mut self, trade_id: u64, taker: Key, now: i64) -> (r: Result<(), TradeError>)
        ensures
            ({
                let action = Action::Accept { taker, now };
                &&& r == answer(refusal(old(self).trades@, trade_id, action))
                &&& final(self).trades@ == applied(old(self).trades@, trade_id, action)
            }),
            old(self).wf() ==> final(self).wf(),
    {
        if trade_id >= self.trades.len() as u64 {
            return Err(TradeError::NotFound);
        }
        let at: usize = trade_id as usize;
        let mut trade: Trade = self.trades[at];
        let r = accept_trade(&mut trade, taker, now);
        self.trades.set(at, trade);
        r
    }

    /// Completes the trade with this id, paying the counterparty's
    /// `destination` account.
    pub fn complete(
        &mut self,
        trade_id: u64,
        caller: Key,
        destination: &mut TokenAccount,
        oracle_price: u64,
        tolerance_bps: u64,
        now: i64,
    ) -> (r: Result<ProfileNotices, TradeError>)
        ensures
            ({
                let action = Action::Complete {
                    caller,
                    destination: *old(destination),
                    oracle_price,
                    tolerance_bps,
                    now,
                };
                &&& r == (match refusal(old(self).trades@, trade_id, action) {
                    Some(e) => Err::<ProfileNotices, TradeError>(e),
                    None => Ok::<ProfileNotices, TradeError>(
                        ProfileNotices {
                            maker: old(self).trades@[trade_id as int].maker,
                            counterparty: old(self).trades@[trade_id as int].counterparty->Some_0,
                        },
                    ),
                })
                &&& final(self).trades@ == applied(old(self).trades@, trade_id, action)
            }),
            r is Err ==> *final(destination) == *old(destination),
            r is Ok ==> *final(destination) == old(destination).credited(
                old(self).trades@[trade_id as int].amount,
            ),
            old(self).wf() ==> final(self).wf(),
    {
        if trade_id >= self.trades.len() as u64 {
            return Err(TradeError::NotFound);
        }
        let at: usize = trade_id as usize;
        let mut trade: Trade = self.trades[at];
        let r = complete_trade(&mut trade, caller, destination, oracle_price, tolerance_bps, now);
        self.trades.set(at, trade);
        r
    }

    /// Cancels the trade with this id; a funded one is refunded into the
    /// maker's `refund_to` account.
    pub fn cancel(
        &mut self,
        trade_id: u64,
        caller: Key,
        refund_to: &mut TokenAccount,
        now: i64,
    ) -> (r: Result<(), TradeError>)
        ensures
            ({
                let action = Action::Cancel { caller, refund_to: *old(refund_to), now };
                &&& r == answer(refusal(old(self).trades@, trade_id, action))
                &&& final(self).trades@ == applied(old(self).trades@, trade_id, action)
            }),
            r is Err ==> *final(refund_to) == *old(refund_to),
            r is Ok ==> *final(refund_to) == (if old(self).trades@[trade_id as int].status
                == TradeStatus::EscrowFunded {
                old(refund_to).credited(old(self).trades@[trade_id as int].amount)
            } else {
                *old(refund_to)
            }),
            old(self).wf() ==> final(self).wf(),
    {
        if trade_id >= self.trades.len() as u64 {
            return Err(TradeError::NotFound);
        }
        let at: usize = trade_id as usize;
        let mut trade: Trade = self.trades[at];
        let r = cancel_trade(&mut trade, caller, refund_to, now);
        self.trades.set(at, trade);
        r
    }

    /// Opens a dispute on the trade with this id.
    pub fn dispute(&mut self, trade_id: u64, caller: Key, now: i64) -> (r: Result<(), TradeError>)
        ensures
            ({
                let action = Action::Dispute { caller, now };
                &&& r == answer(refusal(old(self).trades@, trade_id, action))
                &&& final(self).trades@ == applied(old(self).trades@, trade_id, action)
            }),
            old(self).wf() ==> final(self).wf(),
    {
        if trade_id >= self.trades.len() as u64 {
            return Err(TradeError::NotFound);
        }
        let at: usize = trade_id as usize;
        let mut trade: Trade = self.trades[at];
        let r = dispute_trade(&mut trade, caller, now);
        self.trades.set(at, trade);
        r
    }

    /// Resolves the disputed trade with this id for `winner`, paying the
    /// winner's `destination` account.
    pub fn resolve(
        &mut self,
        trade_id: u64,
        caller: Key,
        winner: Winner,
        destination: &mut TokenAccount,
        now: i64,
    ) -> (r: Result<(), TradeError>)
        ensures
            ({
                let action = Action::Resolve { caller, winner, destination: *old(destination), now };
                &&& r == answer(refusal(old(self).trades@, trade_id, action))
                &&& final(self).trades@ == applied(old(self).trades@, trade_id, action)
            }),
            r is Err ==> *final(destination) == *old(destination),
            r is Ok ==> *final(destination) == old(destination).credited(
                old(self).trades@[trade_id as int].amount,
            ),
            old(self).wf() ==> final(self).wf(),
    {
        if trade_id >= self.trades.len() as u64 {
            return Err(TradeError::NotFound);
        }
        let at: usize = trade_id as usize;
        let mut trade: Trade = self.trades[at];
        let r = resolve_trade(&mut trade, caller, winner, destination, now);
        self.trades.set(at, trade);
        r
    }
}

} // verus!
