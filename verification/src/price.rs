//! The price oracle's own state: who administers it, who feeds it, and the
//! routes by which a price is found.

use vstd::prelude::*;
use crate::key::Key;

verus! {

/// The oracle's state.
#[derive(Clone, Copy, Debug, PartialEq, Eq, Structural)]
pub struct PriceState {
    pub is_initialized: bool,
    pub admin: Key,
    pub price_provider: Key,
}

/// One step of a route: the asset on offer and the pool that prices it.
#[derive(Clone, Debug, PartialEq, Eq)]
pub struct PriceRoute {
    pub offer_asset: String,
    pub pool: Key,
}

/// The route registered for one denomination.
#[derive(Clone, Debug, PartialEq, Eq)]
pub struct PriceRouteData {
    pub denom: String,
    pub route: Vec<PriceRoute>,
}

/// The price of one currency, as last reported.
#[derive(Clone, Debug, PartialEq, Eq)]
pub struct CurrencyPrice {
    pub currency: String,
    pub usd_price: u64,
    pub updated_at: i64,
}

/// Why a call on the oracle was rejected.
#[derive(Clone, Copy, Debug, PartialEq, Eq, Structural)]
pub enum PriceError {
    /// The oracle has not been initialized.
    NotInitialized,
    /// The caller is not the price provider.
    InvalidPriceProvider,
    /// The route is not a valid one.
    InvalidPriceRoute,
}

/// Initializes the oracle: `admin` administers it and, to begin with, also
/// provides its prices.
pub fn initialize(state: &mut PriceState, admin: Key)
    ensures
        *final(state) == (PriceState { is_initialized: true, admin, price_provider: admin }),
{
    state.admin = admin;
    state.price_provider = admin;
    state.is_initialized = true;
}

/// Registers the route for `denom`, in place of what was there.
pub fn register_price_route(route_data: &mut PriceRouteData, denom: String, route: Vec<PriceRoute>)
    ensures
        final(route_data).denom == denom,
        final(route_data).route == route,
{
    route_data.denom = denom;
    route_data.route = route;
}

/// Admits a trade's price for verification only once the oracle has been
/// initialized.
pub fn verify_price_for_trade(state: &PriceState, trade_price: u64) -> (r: Result<(), PriceError>)
    ensures
        r == (if state.is_initialized {
            Ok::<(), PriceError>(())
        } else {
            Err(PriceError::NotInitialized)
        }),
{
    if !state.is_initialized {
        return Err(PriceError::NotInitialized);
    }
    Ok(())
}

} // verus!
