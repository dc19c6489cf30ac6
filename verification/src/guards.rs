//! Guards: the tests a request must pass before anything is changed.
//!
//! Each guard reads the trade, the caller and the request, and answers with
//! success or with the one reason for rejection. None changes anything.

use vstd::prelude::*;
use crate::error::TradeError;
use crate::key::Key;
use crate::trade::{Trade, TradeStatus};

verus! {

/// `min <= amount <= max <= available`.
pub open spec fn amount_within(amount: u64, min: u64, max: u64, available: u64) -> bool {
    min <= amount && amount <= max && max <= available
}

/// The oracle's price is positive and the quoted price differs from it by at
/// most `tolerance_bps` hundredths of a percent of the oracle's price.
pub open spec fn price_tolerated(quoted_price: u64, oracle_price: u64, tolerance_bps: u64) -> bool {
    let gap: int = if quoted_price >= oracle_price {
        quoted_price - oracle_price
    } else {
        oracle_price - quoted_price
    };
    oracle_price > 0 && gap * 10000 <= tolerance_bps * oracle_price
}

/// The caller is the maker, or the bound counterparty.
pub open spec fn party_of(caller: Key, trade: Trade) -> bool {
    caller == trade.maker || trade.counterparty == Some(caller)
}

/// Passes if the trade is in status `expected`.
pub fn status_is(trade: &Trade, expected: TradeStatus) -> (r: Result<(), TradeError>)
    ensures
        r == (if trade.status == expected {
            Ok::<(), TradeError>(())
        } else {
            Err(TradeError::InvalidStatus)
        }),
{
    if trade.status == expected {
        Ok(())
    } else {
        Err(TradeError::InvalidStatus)
    }
}

/// Passes if the trade is in one of two statuses, for a transition with two
/// origins.
pub fn status_is_either(trade: &Trade, first: TradeStatus, second: TradeStatus) -> (r: Result<
    (),
    TradeError,
>)
    ensures
        r == (if trade.status == first || trade.status == second {
            Ok::<(), TradeError>(())
        } else {
            Err(TradeError::InvalidStatus)
        }),
{
    if trade.status == first || trade.status == second {
        Ok(())
    } else {
        Err(TradeError::InvalidStatus)
    }
}

/// Passes if the caller is the maker or the bound counterparty.
pub fn is_party(caller: Key, trade: &Trade) -> (r: Result<(), TradeError>)
    ensures
        r == (if party_of(caller, *trade) {
            Ok::<(), TradeError>(())
        } else {
            Err(TradeError::Unauthorized)
        }),
{
    if caller == trade.maker {
        return Ok(());
    }
    match trade.counterparty {
        Some(c) => {
            if c == caller {
                Ok(())
            } else {
                Err(TradeError::Unauthorized)
            }
        },
        None => Err(TradeError::Unauthorized),
    }
}

/// Passes if the caller is the maker: the test for the actions that only the
/// maker may take.
pub fn is_maker(caller: Key, trade: &Trade) -> (r: Result<(), TradeError>)
    ensures
        r == (if caller == trade.maker {
            Ok::<(), TradeError>(())
        } else {
            Err(TradeError::Unauthorized)
        }),
{
    if caller == trade.maker {
        Ok(())
    } else {
        Err(TradeError::Unauthorized)
    }
}

/// Passes if `min <= amount <= max <= available`.
pub fn amount_in_bounds(amount: u64, min: u64, max: u64, available: u64) -> (r: Result<
    (),
    TradeError,
>)
    ensures
        r == (if amount_within(amount, min, max, available) {
            Ok::<(), TradeError>(())
        } else {
            Err(TradeError::InvalidAmount)
        }),
{
    if min <= amount && amount <= max && max <= available {
        Ok(())
    } else {
        Err(TradeError::InvalidAmount)
    }
}

/// Passes if the price is positive.
pub fn price_positive(price: u64) -> (r: Result<(), TradeError>)
    ensures
        r == (if price > 0 {
            Ok::<(), TradeError>(())
        } else {
            Err(TradeError::InvalidPrice)
        }),
{
    if price > 0 {
        Ok(())
    } else {
        Err(TradeError::InvalidPrice)
    }
}

/// Passes if the quoted price is within `tolerance_bps` basis points of the
/// oracle's price. An oracle price of zero tolerates nothing.
pub fn price_within_tolerance(quoted_price: u64, oracle_price: u64, tolerance_bps: u64) -> (r:
    Result<(), TradeError>)
    ensures
        r == (if price_tolerated(quoted_price, oracle_price, tolerance_bps) {
            Ok::<(), TradeError>(())
        } else {
            Err(TradeError::PriceMismatch)
        }),
{
    if oracle_price == 0 {
        return Err(TradeError::PriceMismatch);
    }
    let gap: u64 = if quoted_price >= oracle_price {
        quoted_price - oracle_price
    } else {
        oracle_price - quoted_price
    };
    let wide_gap: u128 = gap as u128;
    let wide_tolerance: u128 = tolerance_bps as u128;
    let wide_oracle: u128 = oracle_price as u128;
    assert(wide_gap * 10000 <= u128::MAX) by (nonlinear_arith)
        requires
            wide_gap <= u64::MAX,
    ;
    assert(wide_tolerance * wide_oracle <= u128::MAX) by (nonlinear_arith)
        requires
            wide_tolerance <= u64::MAX,
            wide_oracle <= u64::MAX,
    ;
    let scaled_gap: u128 = wide_gap * 10000;
    let allowance: u128 = wide_tolerance * wide_oracle;
    if scaled_gap <= allowance {
        Ok(())
    } else {
        Err(TradeError::PriceMismatch)
    }
}

} // verus!
