//! The messages of the trade contract and the record it answers with.

use vstd::prelude::*;

verus! {

/// What a trade contract is set up with.
#[derive(Clone, Debug, PartialEq, Eq)]
pub struct InstantiateMsg {
    pub offer_id: u64,
    pub ust_amount: String,
    pub taker: String,
    pub offers_addr: String,
    pub arbitrator: String,
    pub taker_contact: String,
    pub timestamp: u64,
}

/// The transitions that can be asked of a trade contract.
#[derive(Clone, Copy, Debug, PartialEq, Eq, Structural)]
pub enum ExecuteMsg {
    FundEscrow {  },
    Refund {  },
    Release {  },
    Dispute {  },
}

/// The questions a trade contract answers.
#[derive(Clone, Copy, Debug, PartialEq, Eq, Structural)]
pub enum QueryMsg {
    State {  },
}

/// The state of a trade contract.
#[derive(Clone, Copy, Debug, PartialEq, Eq, Structural)]
pub enum TradeState {
    Canceled,
    Closed,
    Created,
    EscrowFunded,
    Disputed,
    SettledForMaker,
    SettledForTaker,
}

/// A trade contract's record, as it answers a query.
#[derive(Clone, Debug, PartialEq, Eq)]
pub struct TradeData {
    pub addr: String,
    pub factory_addr: String,
    pub buyer: String,
    pub seller: String,
    pub taker_contact: String,
    pub arbitrator: String,
    pub offer_contract: String,
    pub offer_id: u64,
    pub expire_height: u64,
    pub ust_amount: u128,
    pub state: TradeState,
}

impl TradeState {
    /// The state's name, as it is written.
    pub open spec fn name_text(self) -> Seq<char> {
        match self {
            TradeState::Canceled => "Canceled"@,
            TradeState::Closed => "Closed"@,
            TradeState::Created => "Created"@,
            TradeState::EscrowFunded => "EscrowFunded"@,
            TradeState::Disputed => "Disputed"@,
            TradeState::SettledForMaker => "SettledForMaker"@,
            TradeState::SettledForTaker => "SettledForTaker"@,
        }
    }

    /// The state's name.
    pub fn to_string(&self) -> (text: String)
        ensures
            text@ == self.name_text(),
    {
        match self {
            TradeState::Canceled => "Canceled".to_owned(),
            TradeState::Closed => "Closed".to_owned(),
            TradeState::Created => "Created".to_owned(),
            TradeState::EscrowFunded => "EscrowFunded".to_owned(),
            TradeState::Disputed => "Disputed".to_owned(),
            TradeState::SettledForMaker => "SettledForMaker".to_owned(),
            TradeState::SettledForTaker => "SettledForTaker".to_owned(),
        }
    }
}

} // verus!
