//! The trade record and its guarded transitions.
//!
//! Every transition either applies in full or rejects and leaves the trade
//! and every account exactly as they were. The status is the first thing each
//! transition tests, so repeating a transition that has just succeeded is
//! rejected with `InvalidStatus`.

use vstd::prelude::*;
use crate::error::TradeError;
use crate::escrow::{Escrow, TokenAccount};
use crate::guards::{
    amount_in_bounds, amount_within, is_maker, is_party, party_of, price_positive, price_tolerated,
    price_within_tolerance, status_is, status_is_either,
};
use crate::history::Action;
use crate::key::Key;

verus! {

/// The states a trade can occupy.
#[derive(Clone, Copy, Debug, PartialEq, Eq, Structural)]
pub enum TradeStatus {
    /// Created by the maker; nothing is in custody yet.
    Created,
    /// The maker's funds are in custody; no counterparty is bound.
    EscrowFunded,
    /// A counterparty is bound; the funds stay in custody.
    Accepted,
    /// The funds were paid to the counterparty.
    Released,
    /// The maker withdrew before anyone accepted.
    Cancelled,
    /// A party contests the trade; the funds stay in custody.
    Disputed,
    /// The arbitrator sent the funds back to the maker.
    Refunded,
}

/// The party an arbitrator decides for.
#[derive(Clone, Copy, Debug, PartialEq, Eq, Structural)]
pub enum Winner {
    Maker,
    Counterparty,
}

/// The profiles to be told that a trade has been completed.
#[derive(Clone, Copy, Debug, PartialEq, Eq, Structural)]
pub struct ProfileNotices {
    pub maker: Key,
    pub counterparty: Key,
}

/// One trade.
#[derive(Clone, Copy, Debug, PartialEq, Eq, Structural)]
pub struct Trade {
    pub id: u64,
    pub maker: Key,
    /// Bound at acceptance, absent until then.
    pub counterparty: Option<Key>,
    /// Consulted on the dispute path only.
    pub arbitrator: Option<Key>,
    pub amount: u64,
    pub price: u64,
    pub asset: Key,
    pub escrow: Escrow,
    pub status: TradeStatus,
    pub created_at: i64,
    pub updated_at: i64,
}

impl TradeStatus {
    /// The statuses in which the trade's funds sit in custody.
    pub open spec fn holds_funds(self) -> bool {
        self == TradeStatus::EscrowFunded || self == TradeStatus::Accepted
            || self == TradeStatus::Disputed
    }

    /// The statuses that a trade reaches only with a counterparty bound.
    pub open spec fn has_counterparty(self) -> bool {
        self == TradeStatus::Accepted || self == TradeStatus::Disputed
            || self == TradeStatus::Released || self == TradeStatus::Refunded
    }

    /// The arrows of the transition table: `next` is a status that one
    /// transition reaches from this one.
    pub open spec fn leads_to(self, next: TradeStatus) -> bool {
        match self {
            TradeStatus::Created => next == TradeStatus::EscrowFunded || next
                == TradeStatus::Cancelled,
            TradeStatus::EscrowFunded => next == TradeStatus::Accepted || next
                == TradeStatus::Cancelled,
            TradeStatus::Accepted => next == TradeStatus::Released || next
                == TradeStatus::Disputed,
            TradeStatus::Disputed => next == TradeStatus::Released || next
                == TradeStatus::Refunded,
            TradeStatus::Released => false,
            TradeStatus::Cancelled => false,
            TradeStatus::Refunded => false,
        }
    }

    /// How far along its life a trade in this status is.
    pub open spec fn progress(self) -> nat {
        match self {
            TradeStatus::Created => 0,
            TradeStatus::EscrowFunded => 1,
            TradeStatus::Accepted => 2,
            TradeStatus::Disputed => 3,
            TradeStatus::Released => 4,
            TradeStatus::Cancelled => 4,
            TradeStatus::Refunded => 4,
        }
    }

    /// The statuses that no transition leaves.
    pub open spec fn is_terminal(self) -> bool {
        self == TradeStatus::Released || self == TradeStatus::Cancelled
            || self == TradeStatus::Refunded
    }
}

impl Trade {
    /// The custody invariant and the binding invariant: custody holds exactly
    /// `amount` of the trade's asset while the status holds funds and nothing
    /// otherwise, and a counterparty is bound exactly in the statuses that
    /// follow acceptance.
    pub open spec fn wf(self) -> bool {
        &&& self.escrow.asset == self.asset
        &&& self.escrow.balance == (if self.status.holds_funds() { self.amount } else { 0 })
        &&& (self.counterparty is Some <==> self.status.has_counterparty())
    }

    /// The same trade in another status, touched at `now`.
    pub open spec fn moved_to(self, status: TradeStatus, now: i64) -> Trade {
        Trade { status, updated_at: now, ..self }
    }

    /// The same trade with other custody.
    pub open spec fn with_escrow(self, escrow: Escrow) -> Trade {
        Trade { escrow, ..self }
    }
}

/// Why a trade with these terms would not be created, if it would not.
/// The whole of `max` is on offer, so `max` is also what is available.
pub open spec fn create_rejection(amount: u64, price: u64, min: u64, max: u64) -> Option<
    TradeError,
> {
    if price == 0 {
        Some(TradeError::InvalidPrice)
    } else if !amount_within(amount, min, max, max) {
        Some(TradeError::InvalidAmount)
    } else {
        None
    }
}

/// The trade as it stands right after creation.
pub open spec fn created(
    id: u64,
    maker: Key,
    arbitrator: Option<Key>,
    asset: Key,
    amount: u64,
    price: u64,
    now: i64,
) -> Trade {
    Trade {
        id,
        maker,
        counterparty: None,
        arbitrator,
        amount,
        price,
        asset,
        escrow: Escrow { asset, balance: 0 },
        status: TradeStatus::Created,
        created_at: now,
        updated_at: now,
    }
}

impl Trade {
    /// Why funding by `caller` from `source` would be rejected, if it would.
    pub open spec fn deposit_rejection(self, caller: Key, source: TokenAccount) -> Option<
        TradeError,
    > {
        if self.status != TradeStatus::Created {
            Some(TradeError::InvalidStatus)
        } else if caller != self.maker || source.owner != caller {
            Some(TradeError::Unauthorized)
        } else {
            self.escrow.lock_rejection(source, self.amount)
        }
    }

    /// Why acceptance would be rejected, if it would.
    pub open spec fn accept_rejection(self) -> Option<TradeError> {
        if self.status != TradeStatus::EscrowFunded || self.counterparty is Some {
            Some(TradeError::InvalidStatus)
        } else {
            None
        }
    }

    /// Why completion by `caller`, paying into `destination`, would be
    /// rejected, if it would.
    pub open spec fn complete_rejection(
        self,
        caller: Key,
        destination: TokenAccount,
        oracle_price: u64,
        tolerance_bps: u64,
    ) -> Option<TradeError> {
        if self.status != TradeStatus::Accepted || self.counterparty is None {
            Some(TradeError::InvalidStatus)
        } else if !party_of(caller, self) {
            Some(TradeError::Unauthorized)
        } else if !price_tolerated(self.price, oracle_price, tolerance_bps) {
            Some(TradeError::PriceMismatch)
        } else if Some(destination.owner) != self.counterparty {
            Some(TradeError::Unauthorized)
        } else {
            self.escrow.release_rejection(destination, self.amount)
        }
    }

    /// Why cancellation by `caller`, refunding into `refund_to`, would be
    /// rejected, if it would. The refund account is looked at only when
    /// there is something to refund.
    pub open spec fn cancel_rejection(self, caller: Key, refund_to: TokenAccount) -> Option<
        TradeError,
    > {
        if self.status != TradeStatus::Created && self.status != TradeStatus::EscrowFunded {
            Some(TradeError::InvalidStatus)
        } else if caller != self.maker {
            Some(TradeError::Unauthorized)
        } else if self.status == TradeStatus::Created {
            None
        } else if refund_to.owner != self.maker {
            Some(TradeError::Unauthorized)
        } else {
            self.escrow.release_rejection(refund_to, self.amount)
        }
    }

    /// Why a dispute raised by `caller` would be rejected, if it would.
    pub open spec fn dispute_rejection(self, caller: Key) -> Option<TradeError> {
        if self.status != TradeStatus::Accepted {
            Some(TradeError::InvalidStatus)
        } else if !party_of(caller, self) {
            Some(TradeError::UnauthorizedDisputer)
        } else {
            None
        }
    }

    /// The party that a decision for `winner` pays.
    pub open spec fn payee(self, winner: Winner) -> Option<Key> {
        match winner {
            Winner::Maker => Some(self.maker),
            Winner::Counterparty => self.counterparty,
        }
    }

    /// Why a resolution by `caller` for `winner`, paying into `destination`,
    /// would be rejected, if it would.
    pub open spec fn resolve_rejection(
        self,
        caller: Key,
        winner: Winner,
        destination: TokenAccount,
    ) -> Option<TradeError> {
        if self.status != TradeStatus::Disputed || self.counterparty is None {
            Some(TradeError::InvalidStatus)
        } else if self.arbitrator != Some(caller) {
            Some(TradeError::Unauthorized)
        } else if Some(destination.owner) != self.payee(winner) {
            Some(TradeError::Unauthorized)
        } else {
            self.escrow.release_rejection(destination, self.amount)
        }
    }

    /// The trade after its funding.
    pub open spec fn funded(self, now: i64) -> Trade {
        self.with_escrow(self.escrow.filled(self.amount)).moved_to(TradeStatus::EscrowFunded, now)
    }

    /// The trade after `taker` has accepted it.
    pub open spec fn accepted(self, taker: Key, now: i64) -> Trade {
        Trade { counterparty: Some(taker), ..self.moved_to(TradeStatus::Accepted, now) }
    }

    /// The trade after custody has been paid out and the status set.
    pub open spec fn settled(self, status: TradeStatus, now: i64) -> Trade {
        self.with_escrow(self.escrow.drained(self.amount)).moved_to(status, now)
    }

    /// The trade after its cancellation: custody is paid out if it was funded.
    pub open spec fn cancelled(self, now: i64) -> Trade {
        if self.status == TradeStatus::EscrowFunded {
            self.settled(TradeStatus::Cancelled, now)
        } else {
            self.moved_to(TradeStatus::Cancelled, now)
        }
    }

    /// The status that a decision for `winner` leads to.
    pub open spec fn verdict(winner: Winner) -> TradeStatus {
        match winner {
            Winner::Maker => TradeStatus::Refunded,
            Winner::Counterparty => TradeStatus::Released,
        }
    }
}

/// Creates a trade in status `Created`, with empty custody and no
/// counterparty. Rejects a price of zero with `InvalidPrice`, then an amount
/// outside `min..=max` with `InvalidAmount`.
pub fn create_trade(
    id: u64,
    maker: Key,
    arbitrator: Option<Key>,
    asset: Key,
    amount: u64,
    price: u64,
    min: u64,
    max: u64,
    now: i64,
) -> (r: Result<Trade, TradeError>)
    ensures
        r == (match create_rejection(amount, price, min, max) {
            Some(e) => Err::<Trade, TradeError>(e),
            None => Ok::<Trade, TradeError>(
                created(id, maker, arbitrator, asset, amount, price, now),
            ),
        }),
        r is Ok ==> r->Ok_0.wf(),
{
    match price_positive(price) {
        Err(e) => {
            return Err(e);
        },
        Ok(()) => {},
    }
    match amount_in_bounds(amount, min, max, max) {
        Err(e) => {
            return Err(e);
        },
        Ok(()) => {},
    }
    Ok(
        Trade {
            id,
            maker,
            counterparty: None,
            arbitrator,
            amount,
            price,
            asset,
            escrow: Escrow::new(asset),
            status: TradeStatus::Created,
            created_at: now,
            updated_at: now,
        },
    )
}

/// Funds the trade: locks `amount` from the maker's `source` account into
/// custody and moves the trade from `Created` to `EscrowFunded`.
pub fn deposit_escrow(trade: &mut Trade, caller: Key, source: &mut TokenAccount, now: i64) -> (r:
    Result<(), TradeError>)
    ensures
        r == (match old(trade).deposit_rejection(caller, *old(source)) {
            Some(e) => Err::<(), TradeError>(e),
            None => Ok::<(), TradeError>(()),
        }),
        r is Err ==> *final(trade) == *old(trade) && *final(source) == *old(source),
        r is Ok ==> *final(trade) == old(trade).funded(now),
        r is Ok ==> *final(source) == old(source).debited(old(trade).amount),
        *final(trade) == old(trade).after(Action::Deposit { caller, source: *old(source), now }),
        old(trade).wf() ==> final(trade).wf(),
{
    match status_is(trade, TradeStatus::Created) {
        Err(e) => {
            return Err(e);
        },
        Ok(()) => {},
    }
    match is_maker(caller, trade) {
        Err(e) => {
            return Err(e);
        },
        Ok(()) => {},
    }
    if source.owner != caller {
        return Err(TradeError::Unauthorized);
    }
    let mut escrow: Escrow = trade.escrow;
    match escrow.lock(source, trade.amount) {
        Err(e) => {
            return Err(e);
        },
        Ok(()) => {},
    }
    trade.escrow = escrow;
    trade.status = TradeStatus::EscrowFunded;
    trade.updated_at = now;
    Ok(())
}

/// Binds `taker` as counterparty of a funded trade that has none, and moves
/// the trade from `EscrowFunded` to `Accepted`. Anything else is rejected
/// with `InvalidStatus`.
pub fn accept_trade(trade: &mut Trade, taker: Key, now: i64) -> (r: Result<(), TradeError>)
    ensures
        r == (match old(trade).accept_rejection() {
            Some(e) => Err::<(), TradeError>(e),
            None => Ok::<(), TradeError>(()),
        }),
        r is Err ==> *final(trade) == *old(trade),
        r is Ok ==> *final(trade) == old(trade).accepted(taker, now),
        *final(trade) == old(trade).after(Action::Accept { taker, now }),
        old(trade).wf() ==> final(trade).wf(),
{
    match status_is(trade, TradeStatus::EscrowFunded) {
        Err(e) => {
            return Err(e);
        },
        Ok(()) => {},
    }
    if trade.counterparty.is_some() {
        return Err(TradeError::InvalidStatus);
    }
    trade.counterparty = Some(taker);
    trade.status = TradeStatus::Accepted;
    trade.updated_at = now;
    Ok(())
}

/// Completes an accepted trade: after a fresh test of the trade's price
/// against the oracle's, pays custody out to the counterparty's
/// `destination` account and moves the trade to `Released`. On success it
/// names the two profiles to notify.
pub fn complete_trade(
    trade: &mut Trade,
    caller: Key,
    destination: &mut TokenAccount,
    oracle_price: u64,
    tolerance_bps: u64,
    now: i64,
) -> (r: Result<ProfileNotices, TradeError>)
    ensures
        r == (match old(trade).complete_rejection(
            caller,
            *old(destination),
            oracle_price,
            tolerance_bps,
        ) {
            Some(e) => Err::<ProfileNotices, TradeError>(e),
            None => Ok::<ProfileNotices, TradeError>(
                ProfileNotices {
                    maker: old(trade).maker,
                    counterparty: old(trade).counterparty->Some_0,
                },
            ),
        }),
        r is Err ==> *final(trade) == *old(trade) && *final(destination) == *old(destination),
        r is Ok ==> *final(trade) == old(trade).settled(TradeStatus::Released, now),
        r is Ok ==> *final(destination) == old(destination).credited(old(trade).amount),
        *final(trade) == old(trade).after(
            Action::Complete {
                caller,
                destination: *old(destination),
                oracle_price,
                tolerance_bps,
                now,
            },
        ),
        old(trade).wf() ==> final(trade).wf(),
{
    match status_is(trade, TradeStatus::Accepted) {
        Err(e) => {
            return Err(e);
        },
        Ok(()) => {},
    }
    let counterparty: Key = match trade.counterparty {
        Some(c) => c,
        None => {
            return Err(TradeError::InvalidStatus);
        },
    };
    match is_party(caller, trade) {
        Err(e) => {
            return Err(e);
        },
        Ok(()) => {},
    }
    match price_within_tolerance(trade.price, oracle_price, tolerance_bps) {
        Err(e) => {
            return Err(e);
        },
        Ok(()) => {},
    }
    if destination.owner != counterparty {
        return Err(TradeError::Unauthorized);
    }
    let mut escrow: Escrow = trade.escrow;
    match escrow.release(destination, trade.amount) {
        Err(e) => {
            return Err(e);
        },
        Ok(()) => {},
    }
    trade.escrow = escrow;
    trade.status = TradeStatus::Released;
    trade.updated_at = now;
    Ok(ProfileNotices { maker: trade.maker, counterparty })
}

/// Cancels a trade that nobody has accepted. Only the maker may. A funded
/// trade pays custody back into the maker's `refund_to` account; a trade
/// that was never funded moves no funds and leaves `refund_to` untouched.
pub fn cancel_trade(trade: &mut Trade, caller: Key, refund_to: &mut TokenAccount, now: i64) -> (r:
    Result<(), TradeError>)
    ensures
        r == (match old(trade).cancel_rejection(caller, *old(refund_to)) {
            Some(e) => Err::<(), TradeError>(e),
            None => Ok::<(), TradeError>(()),
        }),
        r is Err ==> *final(trade) == *old(trade) && *final(refund_to) == *old(refund_to),
        r is Ok ==> *final(trade) == old(trade).cancelled(now),
        r is Ok ==> *final(refund_to) == (if old(trade).status == TradeStatus::EscrowFunded {
            old(refund_to).credited(old(trade).amount)
        } else {
            *old(refund_to)
        }),
        *final(trade) == old(trade).after(
            Action::Cancel { caller, refund_to: *old(refund_to), now },
        ),
        old(trade).wf() ==> final(trade).wf(),
{
    match status_is_either(trade, TradeStatus::Created, TradeStatus::EscrowFunded) {
        Err(e) => {
            return Err(e);
        },
        Ok(()) => {},
    }
    match is_maker(caller, trade) {
        Err(e) => {
            return Err(e);
        },
        Ok(()) => {},
    }
    if trade.status == TradeStatus::EscrowFunded {
        if refund_to.owner != trade.maker {
            return Err(TradeError::Unauthorized);
        }
        let mut escrow: Escrow = trade.escrow;
        match escrow.release(refund_to, trade.amount) {
            Err(e) => {
                return Err(e);
            },
            Ok(()) => {},
        }
        trade.escrow = escrow;
    }
    trade.status = TradeStatus::Cancelled;
    trade.updated_at = now;
    Ok(())
}

/// Opens a dispute on an accepted trade. Only the maker or the counterparty
/// may. The funds stay in custody.
pub fn dispute_trade(trade: &mut Trade, caller: Key, now: i64) -> (r: Result<(), TradeError>)
    ensures
        r == (match old(trade).dispute_rejection(caller) {
            Some(e) => Err::<(), TradeError>(e),
            None => Ok::<(), TradeError>(()),
        }),
        r is Err ==> *final(trade) == *old(trade),
        r is Ok ==> *final(trade) == old(trade).moved_to(TradeStatus::Disputed, now),
        *final(trade) == old(trade).after(Action::Dispute { caller, now }),
        old(trade).wf() ==> final(trade).wf(),
{
    match status_is(trade, TradeStatus::Accepted) {
        Err(e) => {
            return Err(e);
        },
        Ok(()) => {},
    }
    match is_party(caller, trade) {
        Err(_) => {
            return Err(TradeError::UnauthorizedDisputer);
        },
        Ok(()) => {},
    }
    trade.status = TradeStatus::Disputed;
    trade.updated_at = now;
    Ok(())
}

/// Resolves a disputed trade. Only the arbitrator may. Custody is paid to
/// the winner's `destination` account: to the counterparty, and the trade
/// is `Released`, or back to the maker, and the trade is `Refunded`.
pub fn resolve_trade(
    trade: &mut Trade,
    caller: Key,
    winner: Winner,
    destination: &mut TokenAccount,
    now: i64,
) -> (r: Result<(), TradeError>)
    ensures
        r == (match old(trade).resolve_rejection(caller, winner, *old(destination)) {
            Some(e) => Err::<(), TradeError>(e),
            None => Ok::<(), TradeError>(()),
        }),
        r is Err ==> *final(trade) == *old(trade) && *final(destination) == *old(destination),
        r is Ok ==> *final(trade) == old(trade).settled(Trade::verdict(winner), now),
        r is Ok ==> *final(destination) == old(destination).credited(old(trade).amount),
        *final(trade) == old(trade).after(
            Action::Resolve { caller, winner, destination: *old(destination), now },
        ),
        old(trade).wf() ==> final(trade).wf(),
{
    match status_is(trade, TradeStatus::Disputed) {
        Err(e) => {
            return Err(e);
        },
        Ok(()) => {},
    }
    let counterparty: Key = match trade.counterparty {
        Some(c) => c,
        None => {
            return Err(TradeError::InvalidStatus);
        },
    };
    match trade.arbitrator {
        Some(a) => {
            if a != caller {
                return Err(TradeError::Unauthorized);
            }
        },
        None => {
            return Err(TradeError::Unauthorized);
        },
    }
    let payee: Key = match winner {
        Winner::Maker => trade.maker,
        Winner::Counterparty => counterparty,
    };
    if destination.owner != payee {
        return Err(TradeError::Unauthorized);
    }
    let mut escrow: Escrow = trade.escrow;
    match escrow.release(destination, trade.amount) {
        Err(e) => {
            return Err(e);
        },
        Ok(()) => {},
    }
    trade.escrow = escrow;
    trade.status = match winner {
        Winner::Maker => TradeStatus::Refunded,
        Winner::Counterparty => TradeStatus::Released,
    };
    trade.updated_at = now;
    Ok(())
}

} // verus!
