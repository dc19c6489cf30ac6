//! Offers: what a maker puts on the catalog. A trade reads an offer's bounds
//! and never changes it.

use vstd::prelude::*;
use crate::key::Key;

verus! {

/// The lifecycle of an offer.
#[derive(Clone, Copy, Debug, PartialEq, Eq, Structural)]
pub enum OfferStatus {
    Active,
    Paused,
    Closed,
}

/// The side of the market an offer is on.
#[derive(Clone, Copy, Debug, PartialEq, Eq, Structural)]
pub enum OfferType {
    Buy,
    Sell,
}

impl Default for OfferStatus {
    fn default() -> (status: OfferStatus)
        ensures
            status == OfferStatus::Active,
    {
        OfferStatus::Active
    }
}

impl Default for OfferType {
    fn default() -> (kind: OfferType)
        ensures
            kind == OfferType::Buy,
    {
        OfferType::Buy
    }
}

impl OfferType {
    /// The number that stands for the type where an offer's address is
    /// derived: 0 for `Buy`, 1 for `Sell`.
    pub open spec fn code(self) -> u8 {
        match self {
            OfferType::Buy => 0,
            OfferType::Sell => 1,
        }
    }

    pub fn to_u8(&self) -> (code: u8)
        ensures
            code == self.code(),
    {
        match self {
            OfferType::Buy => 0,
            OfferType::Sell => 1,
        }
    }
}

/// Why a call on an offer was rejected.
#[derive(Clone, Copy, Debug, PartialEq, Eq, Structural)]
pub enum OfferError {
    /// The offer's status does not allow the operation.
    InvalidStatus,
    /// The amount is outside the allowed range.
    InvalidAmount,
    /// The lower bound is above the upper bound.
    InvalidAmounts,
    /// A price could not be calculated.
    CalculationError,
    /// The price is not greater than zero.
    InvalidPrice,
    /// Less is available than was asked for.
    InsufficientAmount,
}

/// One offer.
#[derive(Clone, Copy, Debug, PartialEq, Eq, Structural)]
pub struct Offer {
    pub maker: Key,
    pub token_mint: Key,
    pub price_per_token: u64,
    pub min_amount: u64,
    pub max_amount: u64,
    pub offer_type: OfferType,
    pub status: OfferStatus,
    pub created_at: i64,
    pub updated_at: i64,
}

impl Offer {
    /// The bounds are in order.
    pub open spec fn wf(self) -> bool {
        self.min_amount <= self.max_amount
    }

    /// The offer with the given changes; an absent value keeps what is there.
    pub open spec fn revised(
        self,
        price_per_token: Option<u64>,
        min_amount: Option<u64>,
        max_amount: Option<u64>,
        now: i64,
    ) -> Offer {
        Offer {
            price_per_token: match price_per_token {
                Some(p) => p,
                None => self.price_per_token,
            },
            min_amount: match min_amount {
                Some(m) => m,
                None => self.min_amount,
            },
            max_amount: match max_amount {
                Some(m) => m,
                None => self.max_amount,
            },
            updated_at: now,
            ..self
        }
    }

    /// The offer in another status, touched at `now`.
    pub open spec fn moved_to(self, status: OfferStatus, now: i64) -> Offer {
        Offer { status, updated_at: now, ..self }
    }
}

/// Why an offer with these terms would not be created, if it would not.
pub open spec fn create_offer_rejection(price_per_token: u64, min_amount: u64, max_amount: u64)
    -> Option<OfferError> {
    if price_per_token == 0 {
        Some(OfferError::InvalidPrice)
    } else if min_amount > max_amount {
        Some(OfferError::InvalidAmounts)
    } else {
        None
    }
}

/// Creates an active offer. Rejects a price of zero with `InvalidPrice`,
/// then bounds out of order with `InvalidAmounts`.
pub fn create_offer(
    maker: Key,
    token_mint: Key,
    price_per_token: u64,
    min_amount: u64,
    max_amount: u64,
    offer_type: OfferType,
    now: i64,
) -> (r: Result<Offer, OfferError>)
    ensures
        r == (match create_offer_rejection(price_per_token, min_amount, max_amount) {
            Some(e) => Err::<Offer, OfferError>(e),
            None => Ok::<Offer, OfferError>(
                Offer {
                    maker,
                    token_mint,
                    price_per_token,
                    min_amount,
                    max_amount,
                    offer_type,
                    status: OfferStatus::Active,
                    created_at: now,
                    updated_at: now,
                },
            ),
        }),
        r is Ok ==> r->Ok_0.wf(),
{
    if price_per_token == 0 {
        return Err(OfferError::InvalidPrice);
    }
    if min_amount > max_amount {
        return Err(OfferError::InvalidAmounts);
    }
    Ok(
        Offer {
            maker,
            token_mint,
            price_per_token,
            min_amount,
            max_amount,
            offer_type,
            status: OfferStatus::Active,
            created_at: now,
            updated_at: now,
        },
    )
}

/// Changes the price or the bounds of an offer. The change is applied as a
/// whole, or rejected with `InvalidAmounts` if it would leave the bounds out
/// of order; a rejected change leaves the offer as it was.
pub fn update_offer(
    offer: &mut Offer,
    price_per_token: Option<u64>,
    min_amount: Option<u64>,
    max_amount: Option<u64>,
    now: i64,
) -> (r: Result<(), OfferError>)
    ensures
        r == (if old(offer).revised(price_per_token, min_amount, max_amount, now).wf() {
            Ok::<(), OfferError>(())
        } else {
            Err(OfferError::InvalidAmounts)
        }),
        r is Ok ==> *final(offer) == old(offer).revised(
            price_per_token,
            min_amount,
            max_amount,
            now,
        ),
        r is Err ==> *final(offer) == *old(offer),
{
    let new_price: u64 = match price_per_token {
        Some(p) => p,
        None => offer.price_per_token,
    };
    let new_min: u64 = match min_amount {
        Some(m) => m,
        None => offer.min_amount,
    };
    let new_max: u64 = match max_amount {
        Some(m) => m,
        None => offer.max_amount,
    };
    if new_min > new_max {
        return Err(OfferError::InvalidAmounts);
    }
    offer.price_per_token = new_price;
    offer.min_amount = new_min;
    offer.max_amount = new_max;
    offer.updated_at = now;
    Ok(())
}

/// Pauses an active offer.
pub fn pause_offer(offer: &mut Offer, now: i64) -> (r: Result<(), OfferError>)
    ensures
        r == (if old(offer).status == OfferStatus::Active {
            Ok::<(), OfferError>(())
        } else {
            Err(OfferError::InvalidStatus)
        }),
        r is Ok ==> *final(offer) == old(offer).moved_to(OfferStatus::Paused, now),
        r is Err ==> *final(offer) == *old(offer),
{
    if offer.status != OfferStatus::Active {
        return Err(OfferError::InvalidStatus);
    }
    offer.status = OfferStatus::Paused;
    offer.updated_at = now;
    Ok(())
}

/// Resumes a paused offer.
pub fn resume_offer(offer: &mut Offer, now: i64) -> (r: Result<(), OfferError>)
    ensures
        r == (if old(offer).status == OfferStatus::Paused {
            Ok::<(), OfferError>(())
        } else {
            Err(OfferError::InvalidStatus)
        }),
        r is Ok ==> *final(offer) == old(offer).moved_to(OfferStatus::Active, now),
        r is Err ==> *final(offer) == *old(offer),
{
    if offer.status != OfferStatus::Paused {
        return Err(OfferError::InvalidStatus);
    }
    offer.status = OfferStatus::Active;
    offer.updated_at = now;
    Ok(())
}

/// Closes an offer that is active or paused. A closed offer stays closed.
pub fn close_offer(offer: &mut Offer, now: i64) -> (r: Result<(), OfferError>)
    ensures
        r == (if old(offer).status == OfferStatus::Active || old(offer).status
            == OfferStatus::Paused {
            Ok::<(), OfferError>(())
        } else {
            Err(OfferError::InvalidStatus)
        }),
        r is Ok ==> *final(offer) == old(offer).moved_to(OfferStatus::Closed, now),
        r is Err ==> *final(offer) == *old(offer),
{
    if offer.status != OfferStatus::Active && offer.status != OfferStatus::Paused {
        return Err(OfferError::InvalidStatus);
    }
    offer.status = OfferStatus::Closed;
    offer.updated_at = now;
    Ok(())
}

} // verus!
