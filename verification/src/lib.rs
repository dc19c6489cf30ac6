//! Escrow-mediated peer-to-peer trades: the custody primitive, the guards,
//! the trade state machine and the relay that lets a remote ledger request
//! a transition.

pub mod error;
pub mod escrow;
pub mod guards;
pub mod history;
pub mod key;
pub mod laws;
pub mod ledger;
pub mod offer;
pub mod price;
pub mod protocol;
pub mod relay;
pub mod trade;
