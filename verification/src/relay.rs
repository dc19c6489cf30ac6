//! The relay: requests for a transition that arrive from a remote ledger.
//!
//! A channel is accepted only if it is unordered and both ends speak the same
//! version. Each packet received ends in exactly one acknowledgment: success,
//! or the reason for rejection in words. Nothing is retried here, and nothing
//! is deduplicated: the same request delivered twice is applied twice.

use vstd::prelude::*;
use crate::error::TradeError;
use crate::escrow::TokenAccount;
use crate::history::Action;
use crate::key::Key;
use crate::ledger::{applied, opened, refusal, Ledger, NewTrade};
use crate::trade::{create_rejection, Trade, TradeStatus};

verus! {

/// The version that both ends of a channel must name.
pub const IBC_VERSION: &'static str = "ics";

/// How a channel delivers its packets.
#[derive(Clone, Copy, Debug, PartialEq, Eq, Structural)]
pub enum ChannelOrder {
    Unordered,
    Ordered,
}

/// What is read of a channel at the handshake.
#[derive(Clone, Debug, PartialEq, Eq)]
pub struct Channel {
    pub order: ChannelOrder,
    pub version: String,
    pub channel_id: String,
}

/// Why a handshake was refused.
#[derive(Clone, Debug, PartialEq, Eq)]
pub enum RelayError {
    /// The channel is ordered: one lost packet would stop it.
    OrderedChannelRejected,
    /// One end names a version other than the expected one.
    ChannelVersionMismatch { actual: String, expected: String },
}

/// `RelayError` by its contents.
pub enum RelayFault {
    OrderedChannelRejected,
    ChannelVersionMismatch { actual: Seq<char>, expected: Seq<char> },
}

impl View for RelayError {
    type V = RelayFault;

    open spec fn view(&self) -> RelayFault {
        match self {
            RelayError::OrderedChannelRejected => RelayFault::OrderedChannelRejected,
            RelayError::ChannelVersionMismatch { actual, expected } =>
                RelayFault::ChannelVersionMismatch { actual: actual@, expected: expected@ },
        }
    }
}

/// Why the handshake fails, if it does: first the order, then this end's
/// version, then the other end's, where it is known.
pub open spec fn handshake_fault(
    order: ChannelOrder,
    version: Seq<char>,
    counterparty_version: Option<Seq<char>>,
) -> Option<RelayFault> {
    if order != ChannelOrder::Unordered {
        Some(RelayFault::OrderedChannelRejected)
    } else if version != IBC_VERSION@ {
        Some(RelayFault::ChannelVersionMismatch { actual: version, expected: IBC_VERSION@ })
    } else if counterparty_version is Some && counterparty_version->Some_0 != IBC_VERSION@ {
        Some(
            RelayFault::ChannelVersionMismatch {
                actual: counterparty_version->Some_0,
                expected: IBC_VERSION@,
            },
        )
    } else {
        None
    }
}

/// The other end's version as a sequence of characters, where it is known.
pub open spec fn known_version(counterparty_version: Option<&str>) -> Option<Seq<char>> {
    match counterparty_version {
        Some(v) => Some(v@),
        None => None,
    }
}

/// Accepts an unordered channel on which this end, and the other end where
/// its version is known, name `IBC_VERSION`. Anything else is refused.
pub fn validate_order_and_version(channel: &Channel, counterparty_version: Option<&str>) -> (r:
    Result<(), RelayError>)
    ensures
        match handshake_fault(channel.order, channel.version@, known_version(counterparty_version)) {
            Some(fault) => r is Err && r->Err_0@ == fault,
            None => r is Ok,
        },
{
    if channel.order != ChannelOrder::Unordered {
        return Err(RelayError::OrderedChannelRejected);
    }
    let expected: String = IBC_VERSION.to_owned();
    if channel.version != expected {
        return Err(
            RelayError::ChannelVersionMismatch { actual: channel.version.clone(), expected },
        );
    }
    match counterparty_version {
        Some(v) => {
            let actual: String = v.to_owned();
            if actual != expected {
                return Err(RelayError::ChannelVersionMismatch { actual, expected });
            }
        },
        None => {},
    }
    Ok(())
}

/// The diagnostic counters of one channel.
#[derive(Clone, Copy, Debug, PartialEq, Eq, Structural)]
pub struct ChannelCounters {
    /// Packets received on the channel.
    pub received: u32,
    /// Packets sent on the channel that timed out.
    pub timeouts: u32,
}

/// The first step of the handshake: the channel is accepted or refused.
pub fn ibc_channel_open(channel: &Channel, counterparty_version: Option<&str>) -> (r: Result<
    (),
    RelayError,
>)
    ensures
        match handshake_fault(channel.order, channel.version@, known_version(counterparty_version)) {
            Some(fault) => r is Err && r->Err_0@ == fault,
            None => r is Ok,
        },
{
    validate_order_and_version(channel, counterparty_version)
}

/// The last step of the handshake: an accepted channel starts with both
/// counters at zero.
pub fn ibc_channel_connect(channel: &Channel, counterparty_version: Option<&str>) -> (r: Result<
    ChannelCounters,
    RelayError,
>)
    ensures
        match handshake_fault(channel.order, channel.version@, known_version(counterparty_version)) {
            Some(fault) => r is Err && r->Err_0@ == fault,
            None => r == Ok::<ChannelCounters, RelayError>(
                ChannelCounters { received: 0, timeouts: 0 },
            ),
        },
{
    match validate_order_and_version(channel, counterparty_version) {
        Err(e) => Err(e),
        Ok(()) => Ok(ChannelCounters { received: 0, timeouts: 0 }),
    }
}

/// Closing a channel resets both of its counters.
pub fn ibc_channel_close(counters: &mut ChannelCounters)
    ensures
        *final(counters) == (ChannelCounters { received: 0, timeouts: 0 }),
{
    counters.received = 0;
    counters.timeouts = 0;
}

/// A packet sent on the channel timed out: the timeout counter goes up by
/// one, and nothing else changes.
pub fn ibc_packet_timeout(counters: &mut ChannelCounters)
    requires
        old(counters).timeouts < u32::MAX,
    ensures
        final(counters).timeouts == old(counters).timeouts + 1,
        final(counters).received == old(counters).received,
{
    counters.timeouts = counters.timeouts + 1;
}

/// The single answer to a relayed request.
#[derive(Clone, Debug, PartialEq, Eq)]
pub enum Ack {
    Result(Vec<u8>),
    Error(String),
}

impl Ack {
    /// The acknowledgment says what became of the request: success, as the
    /// one byte `'1'`, or the rejection in words.
    pub open spec fn reports(self, refused: Option<TradeError>) -> bool {
        match refused {
            None => self is Result && self->Result_0@ == seq![0x31u8],
            Some(e) => self is Error && self->Error_0@ == e.message_text(),
        }
    }
}

/// The acknowledgment of a request that was applied.
pub fn make_ack_success() -> (ack: Ack)
    ensures
        ack is Result,
        ack->Result_0@ == seq![0x31u8],
{
    let mut payload: Vec<u8> = Vec::new();
    payload.push(0x31u8);
    assert(payload@ =~= seq![0x31u8]);
    Ack::Result(payload)
}

/// The acknowledgment of a request that was rejected, with the reason.
pub fn make_ack_fail(err: String) -> (ack: Ack)
    ensures
        ack == Ack::Error(err),
{
    Ack::Error(err)
}

/// A request relayed from a remote ledger.
#[derive(Clone, Debug, PartialEq, Eq)]
pub enum IbcExecuteMsg {
    Create { source_address: Key, source_chain: String, new_trade: NewTrade },
    CancelRequest { source_address: Key, source_chain: String, trade_id: u64 },
}

impl IbcExecuteMsg {
    /// Why the relayed request is rejected, if it is. A cancellation is
    /// asked for in the name of the address it came from.
    pub open spec fn refused(self, trades: Seq<Trade>, refund_to: TokenAccount, now: i64) -> Option<
        TradeError,
    > {
        match self {
            IbcExecuteMsg::Create { new_trade, .. } => create_rejection(
                new_trade.amount,
                new_trade.price,
                new_trade.min,
                new_trade.max,
            ),
            IbcExecuteMsg::CancelRequest { source_address, trade_id, .. } => refusal(
                trades,
                trade_id,
                Action::Cancel { caller: source_address, refund_to, now },
            ),
        }
    }

    /// The trades after the relayed request.
    pub open spec fn relayed(self, trades: Seq<Trade>, refund_to: TokenAccount, now: i64) -> Seq<
        Trade,
    > {
        match self {
            IbcExecuteMsg::Create { new_trade, .. } => opened(trades, new_trade, now),
            IbcExecuteMsg::CancelRequest { source_address, trade_id, .. } => applied(
                trades,
                trade_id,
                Action::Cancel { caller: source_address, refund_to, now },
            ),
        }
    }

    /// The refund account after the relayed request: credited with the
    /// trade's amount by a cancellation that is applied to a funded trade,
    /// and otherwise as it was.
    pub open spec fn refunded(self, trades: Seq<Trade>, refund_to: TokenAccount, now: i64)
        -> TokenAccount {
        match self {
            IbcExecuteMsg::Create { .. } => refund_to,
            IbcExecuteMsg::CancelRequest { trade_id, .. } => if self.refused(
                trades,
                refund_to,
                now,
            ) is None && trades[trade_id as int].status == TradeStatus::EscrowFunded {
                refund_to.credited(trades[trade_id as int].amount)
            } else {
                refund_to
            },
        }
    }

    /// The request is a cancellation.
    pub open spec fn is_cancel(self) -> bool {
        self is CancelRequest
    }
}

/// Applies a relayed creation. A rejection is handed back as an error.
fn execute_create_trade(ledger: &mut Ledger, new_trade: NewTrade, now: i64) -> (r: Result<
    Ack,
    TradeError,
>)
    ensures
        match create_rejection(new_trade.amount, new_trade.price, new_trade.min, new_trade.max) {
            Some(e) => r == Err::<Ack, TradeError>(e),
            None => r is Ok && r->Ok_0.reports(None),
        },
        final(ledger).trades@ == opened(old(ledger).trades@, new_trade, now),
        old(ledger).wf() ==> final(ledger).wf(),
{
    match ledger.create(new_trade, now) {
        Err(e) => Err(e),
        Ok(_) => Ok(make_ack_success()),
    }
}

/// Applies a relayed cancellation, asked for by `source_address`. A
/// rejection is answered at once, with an acknowledgment of failure.
fn execute_cancel_trade(
    ledger: &mut Ledger,
    source_address: Key,
    trade_id: u64,
    refund_to: &mut TokenAccount,
    now: i64,
) -> (ack: Ack)
    ensures
        ({
            let action = Action::Cancel { caller: source_address, refund_to: *old(refund_to), now };
            &&& ack.reports(refusal(old(ledger).trades@, trade_id, action))
            &&& final(ledger).trades@ == applied(old(ledger).trades@, trade_id, action)
            &&& refusal(old(ledger).trades@, trade_id, action) is Some ==> *final(refund_to)
                == *old(refund_to)
            &&& refusal(old(ledger).trades@, trade_id, action) is None ==> *final(refund_to)
                == (if old(ledger).trades@[trade_id as int].status == TradeStatus::EscrowFunded {
                old(refund_to).credited(old(ledger).trades@[trade_id as int].amount)
            } else {
                *old(refund_to)
            })
        }),
        old(ledger).wf() ==> final(ledger).wf(),
{
    match ledger.cancel(trade_id, source_address, refund_to, now) {
        Ok(()) => make_ack_success(),
        Err(e) => make_ack_fail(e.message()),
    }
}

/// Hands a relayed request to the entry point it asks for. A rejected
/// creation comes back as an error; a rejected cancellation as an
/// acknowledgment of failure.
pub fn do_ibc_packet_receive(
    ledger: &mut Ledger,
    msg: &IbcExecuteMsg,
    refund_to: &mut TokenAccount,
    now: i64,
) -> (r: Result<Ack, TradeError>)
    ensures
        ({
            let refused = msg.refused(old(ledger).trades@, *old(refund_to), now);
            if msg.is_cancel() {
                r is Ok && r->Ok_0.reports(refused)
            } else {
                match refused {
                    Some(e) => r == Err::<Ack, TradeError>(e),
                    None => r is Ok && r->Ok_0.reports(None),
                }
            }
        }),
        final(ledger).trades@ == msg.relayed(old(ledger).trades@, *old(refund_to), now),
        *final(refund_to) == msg.refunded(old(ledger).trades@, *old(refund_to), now),
        old(ledger).wf() ==> final(ledger).wf(),
{
    match msg {
        IbcExecuteMsg::Create { source_address: _, source_chain: _, new_trade } => {
            execute_create_trade(ledger, *new_trade, now)
        },
        IbcExecuteMsg::CancelRequest { source_address, source_chain: _, trade_id } => {
            Ok(execute_cancel_trade(ledger, *source_address, *trade_id, refund_to, now))
        },
    }
}

/// Receives one packet: counts it, applies the request it carries, and
/// answers with exactly one acknowledgment, whatever became of the request.
pub fn ibc_packet_receive(
    ledger: &mut Ledger,
    counters: &mut ChannelCounters,
    msg: &IbcExecuteMsg,
    refund_to: &mut TokenAccount,
    now: i64,
) -> (ack: Ack)
    requires
        old(counters).received < u32::MAX,
    ensures
        ack.reports(msg.refused(old(ledger).trades@, *old(refund_to), now)),
        final(ledger).trades@ == msg.relayed(old(ledger).trades@, *old(refund_to), now),
        *final(refund_to) == msg.refunded(old(ledger).trades@, *old(refund_to), now),
        final(counters).received == old(counters).received + 1,
        final(counters).timeouts == old(counters).timeouts,
        old(ledger).wf() ==> final(ledger).wf(),
{
    counters.received = counters.received + 1;
    match do_ibc_packet_receive(ledger, msg, refund_to, now) {
        Ok(ack) => ack,
        Err(error) => make_ack_fail(error.message()),
    }
}

} // verus!
