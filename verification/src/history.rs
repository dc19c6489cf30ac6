//! Requests as values, and what a sequence of them makes of a trade.
//!
//! This is the state machine seen from outside: a request is either applied
//! or rejected, and a rejected request leaves the trade as it was.

use vstd::prelude::*;
use crate::error::TradeError;
use crate::escrow::TokenAccount;
use crate::key::Key;
use crate::trade::{Trade, TradeStatus, Winner};

verus! {

/// A request for one transition, with the account it was handed.
pub enum Action {
    Deposit { caller: Key, source: TokenAccount, now: i64 },
    Accept { taker: Key, now: i64 },
    Complete {
        caller: Key,
        destination: TokenAccount,
        oracle_price: u64,
        tolerance_bps: u64,
        now: i64,
    },
    Cancel { caller: Key, refund_to: TokenAccount, now: i64 },
    Dispute { caller: Key, now: i64 },
    Resolve { caller: Key, winner: Winner, destination: TokenAccount, now: i64 },
}

impl Action {
    /// Both requests ask for the same transition.
    pub open spec fn same_transition(self, other: Action) -> bool {
        match self {
            Action::Deposit { .. } => other is Deposit,
            Action::Accept { .. } => other is Accept,
            Action::Complete { .. } => other is Complete,
            Action::Cancel { .. } => other is Cancel,
            Action::Dispute { .. } => other is Dispute,
            Action::Resolve { .. } => other is Resolve,
        }
    }

    /// The request, if applied, pays custody out.
    pub open spec fn pays_out(self) -> bool {
        self is Complete || self is Cancel || self is Resolve
    }
}

impl Trade {
    /// Why the request would be rejected, if it would.
    pub open spec fn rejection(self, action: Action) -> Option<TradeError> {
        match action {
            Action::Deposit { caller, source, .. } => self.deposit_rejection(caller, source),
            Action::Accept { .. } => self.accept_rejection(),
            Action::Complete { caller, destination, oracle_price, tolerance_bps, .. } =>
                self.complete_rejection(caller, destination, oracle_price, tolerance_bps),
            Action::Cancel { caller, refund_to, .. } => self.cancel_rejection(caller, refund_to),
            Action::Dispute { caller, .. } => self.dispute_rejection(caller),
            Action::Resolve { caller, winner, destination, .. } => self.resolve_rejection(
                caller,
                winner,
                destination,
            ),
        }
    }

    /// The trade after the request: changed if the request is applied, the
    /// same if it is rejected.
    pub open spec fn after(self, action: Action) -> Trade {
        if self.rejection(action) is Some {
            self
        } else {
            match action {
                Action::Deposit { now, .. } => self.funded(now),
                Action::Accept { taker, now } => self.accepted(taker, now),
                Action::Complete { now, .. } => self.settled(TradeStatus::Released, now),
                Action::Cancel { now, .. } => self.cancelled(now),
                Action::Dispute { now, .. } => self.moved_to(TradeStatus::Disputed, now),
                Action::Resolve { winner, now, .. } => self.settled(Trade::verdict(winner), now),
            }
        }
    }

    /// The trade after a sequence of requests, taken in order.
    pub open spec fn after_all(self, actions: Seq<Action>) -> Trade
        decreases actions.len(),
    {
        if actions.len() == 0 {
            self
        } else {
            self.after_all(actions.drop_last()).after(actions.last())
        }
    }

    /// By the history alone: a funding was applied, and no request that pays
    /// custody out has been applied since.
    pub open spec fn funded_and_not_paid_out(self, actions: Seq<Action>) -> bool
        decreases actions.len(),
    {
        if actions.len() == 0 {
            false
        } else {
            let before = actions.drop_last();
            let last = actions.last();
            if self.after_all(before).rejection(last) is Some {
                self.funded_and_not_paid_out(before)
            } else if last is Deposit {
                true
            } else if last.pays_out() {
                false
            } else {
                self.funded_and_not_paid_out(before)
            }
        }
    }
}

} // verus!
