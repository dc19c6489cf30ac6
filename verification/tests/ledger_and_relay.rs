use trade_escrow::error::TradeError;
use trade_escrow::escrow::TokenAccount;
use trade_escrow::key::Key;
use trade_escrow::ledger::{Ledger, NewTrade};
use trade_escrow::relay::{
    do_ibc_packet_receive, ibc_channel_close, ibc_channel_connect, ibc_channel_open,
    ibc_packet_receive, ibc_packet_timeout, make_ack_fail, make_ack_success,
    validate_order_and_version, Ack, Channel, ChannelCounters, ChannelOrder, IbcExecuteMsg,
    RelayError, IBC_VERSION,
};
use trade_escrow::trade::{ProfileNotices, TradeStatus, Winner};

fn maker() -> Key {
    Key::from_low(1)
}

fn taker() -> Key {
    Key::from_low(2)
}

fn arbitrator() -> Key {
    Key::from_low(3)
}

fn asset() -> Key {
    Key::from_low(9)
}

fn terms() -> NewTrade {
    NewTrade {
        maker: maker(),
        arbitrator: Some(arbitrator()),
        asset: asset(),
        amount: 100,
        price: 50,
        min: 10,
        max: 100,
    }
}

fn account(owner: Key, amount: u64) -> TokenAccount {
    TokenAccount { owner, mint: asset(), amount }
}

fn channel(order: ChannelOrder, version: &str) -> Channel {
    Channel { order, version: version.to_string(), channel_id: "channel-7".to_string() }
}

fn mismatch(actual: &str) -> RelayError {
    RelayError::ChannelVersionMismatch { actual: actual.to_string(), expected: "ics".to_string() }
}

fn create_msg() -> IbcExecuteMsg {
    IbcExecuteMsg::Create {
        source_address: maker(),
        source_chain: "remote-1".to_string(),
        new_trade: terms(),
    }
}

fn cancel_msg(source_address: Key, trade_id: u64) -> IbcExecuteMsg {
    IbcExecuteMsg::CancelRequest {
        source_address,
        source_chain: "remote-1".to_string(),
        trade_id,
    }
}

#[test]
fn a_new_ledger_is_empty() {
    let ledger = Ledger::new();
    assert!(ledger.trades.is_empty());
    assert_eq!(ledger.query_state(0), Err(TradeError::NotFound));
}

#[test]
fn ids_are_handed_out_in_sequence() {
    let mut ledger = Ledger::new();
    assert_eq!(ledger.create(terms(), 1000), Ok(0));
    assert_eq!(ledger.create(terms(), 1001), Ok(1));
    assert_eq!(ledger.create(terms(), 1002), Ok(2));
    assert_eq!(ledger.trades.len(), 3);
    for (i, trade) in ledger.trades.iter().enumerate() {
        assert_eq!(trade.id, i as u64);
        assert_eq!(trade.status, TradeStatus::Created);
    }
}

#[test]
fn a_rejected_creation_adds_no_trade() {
    let mut ledger = Ledger::new();
    let mut bad = terms();
    bad.price = 0;
    assert_eq!(ledger.create(bad, 1000), Err(TradeError::InvalidPrice));
    bad.price = 50;
    bad.amount = 5;
    assert_eq!(ledger.create(bad, 1000), Err(TradeError::InvalidAmount));
    assert!(ledger.trades.is_empty());
}

#[test]
fn query_state_returns_the_trade_or_not_found() {
    let mut ledger = Ledger::new();
    ledger.create(terms(), 1000).unwrap();
    let trade = ledger.query_state(0).unwrap();
    assert_eq!(trade.id, 0);
    assert_eq!(trade.maker, maker());
    assert_eq!(trade.amount, 100);
    assert_eq!(ledger.query_state(1), Err(TradeError::NotFound));
    assert_eq!(ledger.query_state(u64::MAX), Err(TradeError::NotFound));
}

#[test]
fn every_entry_point_answers_not_found_for_an_unknown_id() {
    let mut ledger = Ledger::new();
    ledger.create(terms(), 1000).unwrap();
    let before = ledger.clone();
    let mut acct = account(maker(), 500);
    assert_eq!(ledger.fund_escrow(1, maker(), &mut acct, 1), Err(TradeError::NotFound));
    assert_eq!(ledger.accept(1, taker(), 1), Err(TradeError::NotFound));
    assert_eq!(ledger.complete(1, maker(), &mut acct, 50, 100, 1), Err(TradeError::NotFound));
    assert_eq!(ledger.cancel(1, maker(), &mut acct, 1), Err(TradeError::NotFound));
    assert_eq!(ledger.dispute(1, maker(), 1), Err(TradeError::NotFound));
    assert_eq!(
        ledger.resolve(1, arbitrator(), Winner::Maker, &mut acct, 1),
        Err(TradeError::NotFound)
    );
    assert_eq!(ledger, before);
    assert_eq!(acct.amount, 500);
}

#[test]
fn the_ledger_runs_a_trade_to_release() {
    let mut ledger = Ledger::new();
    let mut maker_account = account(maker(), 250);
    let mut taker_account = account(taker(), 7);
    let id = ledger.create(terms(), 1000).unwrap();
    assert_eq!(ledger.fund_escrow(id, maker(), &mut maker_account, 1001), Ok(()));
    assert_eq!(ledger.accept(id, taker(), 1002), Ok(()));
    assert_eq!(
        ledger.complete(id, taker(), &mut taker_account, 50, 100, 1003),
        Ok(ProfileNotices { maker: maker(), counterparty: taker() })
    );
    let trade = ledger.query_state(id).unwrap();
    assert_eq!(trade.status, TradeStatus::Released);
    assert_eq!(trade.escrow.balance, 0);
    assert_eq!(maker_account.amount, 150);
    assert_eq!(taker_account.amount, 107);
}

#[test]
fn the_ledger_runs_a_trade_to_refund() {
    let mut ledger = Ledger::new();
    let mut maker_account = account(maker(), 250);
    let id = ledger.create(terms(), 1000).unwrap();
    ledger.fund_escrow(id, maker(), &mut maker_account, 1001).unwrap();
    ledger.accept(id, taker(), 1002).unwrap();
    assert_eq!(ledger.dispute(id, taker(), 1003), Ok(()));
    assert_eq!(
        ledger.resolve(id, arbitrator(), Winner::Maker, &mut maker_account, 1004),
        Ok(())
    );
    assert_eq!(ledger.query_state(id).unwrap().status, TradeStatus::Refunded);
    assert_eq!(maker_account.amount, 250);
}

#[test]
fn a_request_on_one_trade_leaves_the_others() {
    let mut ledger = Ledger::new();
    let mut maker_account = account(maker(), 250);
    ledger.create(terms(), 1000).unwrap();
    ledger.create(terms(), 1001).unwrap();
    let untouched = ledger.query_state(0).unwrap();
    ledger.fund_escrow(1, maker(), &mut maker_account, 1002).unwrap();
    assert_eq!(ledger.query_state(0), Ok(untouched));
    assert_eq!(ledger.query_state(1).unwrap().status, TradeStatus::EscrowFunded);
}

#[test]
fn a_rejected_request_leaves_the_ledger() {
    let mut ledger = Ledger::new();
    let mut maker_account = account(maker(), 250);
    ledger.create(terms(), 1000).unwrap();
    let before = ledger.clone();
    assert_eq!(ledger.accept(0, taker(), 1001), Err(TradeError::InvalidStatus));
    assert_eq!(
        ledger.cancel(0, taker(), &mut maker_account, 1001),
        Err(TradeError::Unauthorized)
    );
    assert_eq!(ledger, before);
}

#[test]
fn the_version_is_ics() {
    assert_eq!(IBC_VERSION, "ics");
}

#[test]
fn handshake_accepts_unordered_ics() {
    let ch = channel(ChannelOrder::Unordered, "ics");
    assert_eq!(validate_order_and_version(&ch, None), Ok(()));
    assert_eq!(validate_order_and_version(&ch, Some("ics")), Ok(()));
    assert_eq!(ibc_channel_open(&ch, Some("ics")), Ok(()));
}

#[test]
fn handshake_rejects_an_ordered_channel() {
    let ch = channel(ChannelOrder::Ordered, "ics");
    assert_eq!(
        validate_order_and_version(&ch, Some("ics")),
        Err(RelayError::OrderedChannelRejected)
    );
    assert_eq!(ibc_channel_open(&ch, None), Err(RelayError::OrderedChannelRejected));
    assert_eq!(ibc_channel_connect(&ch, None), Err(RelayError::OrderedChannelRejected));
}

#[test]
fn handshake_tests_the_order_before_the_version() {
    let ch = channel(ChannelOrder::Ordered, "other");
    assert_eq!(
        validate_order_and_version(&ch, Some("third")),
        Err(RelayError::OrderedChannelRejected)
    );
}

#[test]
fn handshake_rejects_another_version_on_this_end() {
    let ch = channel(ChannelOrder::Unordered, "ics-2");
    assert_eq!(validate_order_and_version(&ch, None), Err(mismatch("ics-2")));
    assert_eq!(validate_order_and_version(&ch, Some("ics")), Err(mismatch("ics-2")));
}

#[test]
fn handshake_rejects_another_version_on_the_other_end() {
    let ch = channel(ChannelOrder::Unordered, "ics");
    assert_eq!(validate_order_and_version(&ch, Some("ICS")), Err(mismatch("ICS")));
    assert_eq!(validate_order_and_version(&ch, Some("")), Err(mismatch("")));
    assert_eq!(ibc_channel_connect(&ch, Some("ic")), Err(mismatch("ic")));
}

#[test]
fn connect_starts_both_counters_at_zero() {
    let ch = channel(ChannelOrder::Unordered, "ics");
    assert_eq!(
        ibc_channel_connect(&ch, Some("ics")),
        Ok(ChannelCounters { received: 0, timeouts: 0 })
    );
}

#[test]
fn timeout_counts_and_close_resets() {
    let mut counters = ChannelCounters { received: 4, timeouts: 0 };
    ibc_packet_timeout(&mut counters);
    ibc_packet_timeout(&mut counters);
    assert_eq!(counters, ChannelCounters { received: 4, timeouts: 2 });
    ibc_channel_close(&mut counters);
    assert_eq!(counters, ChannelCounters { received: 0, timeouts: 0 });
}

#[test]
fn timeout_counts_up_to_the_largest_value() {
    let mut counters = ChannelCounters { received: 0, timeouts: u32::MAX - 1 };
    ibc_packet_timeout(&mut counters);
    assert_eq!(counters.timeouts, u32::MAX);
}

#[test]
fn the_success_ack_is_the_byte_one() {
    assert_eq!(make_ack_success(), Ack::Result(vec![b'1']));
}

#[test]
fn the_failure_ack_carries_the_reason() {
    assert_eq!(make_ack_fail("no".to_string()), Ack::Error("no".to_string()));
    assert_eq!(make_ack_fail(String::new()), Ack::Error(String::new()));
}

#[test]
fn relayed_create_is_acknowledged_and_applied() {
    let mut ledger = Ledger::new();
    let mut counters = ChannelCounters { received: 0, timeouts: 0 };
    let mut acct = account(maker(), 250);
    let ack = ibc_packet_receive(&mut ledger, &mut counters, &create_msg(), &mut acct, 1000);
    assert_eq!(ack, make_ack_success());
    assert_eq!(ledger.trades.len(), 1);
    assert_eq!(ledger.trades[0].status, TradeStatus::Created);
    assert_eq!(ledger.trades[0].maker, maker());
    assert_eq!(counters, ChannelCounters { received: 1, timeouts: 0 });
    assert_eq!(acct.amount, 250);
}

#[test]
fn relayed_create_twice_makes_two_independent_trades() {
    let mut ledger = Ledger::new();
    let mut counters = ChannelCounters { received: 0, timeouts: 0 };
    let mut acct = account(maker(), 250);
    let msg = create_msg();
    assert_eq!(
        ibc_packet_receive(&mut ledger, &mut counters, &msg, &mut acct, 1000),
        make_ack_success()
    );
    assert_eq!(
        ibc_packet_receive(&mut ledger, &mut counters, &msg, &mut acct, 1000),
        make_ack_success()
    );
    assert_eq!(ledger.trades.len(), 2);
    assert_eq!(ledger.trades[0].id, 0);
    assert_eq!(ledger.trades[1].id, 1);
    assert_eq!(counters.received, 2);

    ledger.fund_escrow(0, maker(), &mut acct, 1001).unwrap();
    assert_eq!(ledger.trades[0].status, TradeStatus::EscrowFunded);
    assert_eq!(ledger.trades[1].status, TradeStatus::Created);
    assert_eq!(ledger.trades[1].escrow.balance, 0);
}

#[test]
fn rejected_relayed_create_is_an_error_then_a_failure_ack() {
    let mut bad = terms();
    bad.price = 0;
    let msg = IbcExecuteMsg::Create {
        source_address: maker(),
        source_chain: "remote-1".to_string(),
        new_trade: bad,
    };
    let mut ledger = Ledger::new();
    let mut acct = account(maker(), 250);
    assert_eq!(
        do_ibc_packet_receive(&mut ledger, &msg, &mut acct, 1000),
        Err(TradeError::InvalidPrice)
    );
    let mut counters = ChannelCounters { received: 9, timeouts: 1 };
    let ack = ibc_packet_receive(&mut ledger, &mut counters, &msg, &mut acct, 1000);
    assert_eq!(ack, Ack::Error("Price must be greater than zero".to_string()));
    assert!(ledger.trades.is_empty());
    assert_eq!(counters, ChannelCounters { received: 10, timeouts: 1 });
}

#[test]
fn relayed_cancel_refunds_a_funded_trade() {
    let mut ledger = Ledger::new();
    let mut acct = account(maker(), 250);
    ledger.create(terms(), 1000).unwrap();
    ledger.fund_escrow(0, maker(), &mut acct, 1001).unwrap();
    assert_eq!(acct.amount, 150);
    let r = do_ibc_packet_receive(&mut ledger, &cancel_msg(maker(), 0), &mut acct, 1002);
    assert_eq!(r, Ok(make_ack_success()));
    assert_eq!(ledger.trades[0].status, TradeStatus::Cancelled);
    assert_eq!(ledger.trades[0].escrow.balance, 0);
    assert_eq!(acct.amount, 250);
}

#[test]
fn rejected_relayed_cancel_is_a_failure_ack_not_an_error() {
    let mut ledger = Ledger::new();
    let mut acct = account(maker(), 250);
    ledger.create(terms(), 1000).unwrap();
    let before = ledger.clone();

    let r = do_ibc_packet_receive(&mut ledger, &cancel_msg(taker(), 0), &mut acct, 1002);
    assert_eq!(r, Ok(Ack::Error("Unauthorized trader".to_string())));
    let r = do_ibc_packet_receive(&mut ledger, &cancel_msg(maker(), 5), &mut acct, 1002);
    assert_eq!(r, Ok(Ack::Error("Trade not found".to_string())));
    assert_eq!(ledger, before);
    assert_eq!(acct.amount, 250);
}

#[test]
fn relayed_cancel_twice_is_applied_once() {
    let mut ledger = Ledger::new();
    let mut counters = ChannelCounters { received: 0, timeouts: 0 };
    let mut acct = account(maker(), 250);
    ledger.create(terms(), 1000).unwrap();
    ledger.fund_escrow(0, maker(), &mut acct, 1001).unwrap();
    let msg = cancel_msg(maker(), 0);
    assert_eq!(
        ibc_packet_receive(&mut ledger, &mut counters, &msg, &mut acct, 1002),
        make_ack_success()
    );
    let after_first = ledger.clone();
    assert_eq!(
        ibc_packet_receive(&mut ledger, &mut counters, &msg, &mut acct, 1003),
        Ack::Error("Invalid trade status for this operation".to_string())
    );
    assert_eq!(ledger, after_first);
    assert_eq!(acct.amount, 250);
    assert_eq!(counters.received, 2);
}
