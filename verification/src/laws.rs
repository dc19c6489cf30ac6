//! What holds of every trade, whatever is asked of it.

use vstd::prelude::*;
use crate::error::TradeError;
use crate::escrow::TokenAccount;
use crate::history::Action;
use crate::key::Key;
use crate::ledger::{applied, opened, well_kept, NewTrade};
use crate::relay::IbcExecuteMsg;
use crate::trade::{create_rejection, created, Trade, TradeStatus};

verus! {

/// Custody and status agree: a well-formed trade with funds in custody is
/// in one of the statuses that hold funds, and a well-formed trade of a
/// positive amount with empty custody is in none of them.
pub proof fn custody_agrees_with_status(trade: Trade)
    requires
        trade.wf(),
    ensures
        trade.escrow.balance > 0 ==> trade.status.holds_funds(),
        trade.amount > 0 && trade.escrow.balance == 0 ==> !trade.status.holds_funds(),
        trade.status.holds_funds() ==> trade.escrow.balance == trade.amount,
{
}

/// No request breaks the invariant of a trade, applied or rejected.
pub proof fn request_keeps_invariant(trade: Trade, action: Action)
    requires
        trade.wf(),
    ensures
        trade.after(action).wf(),
{
}

/// No sequence of requests breaks the invariant of a trade.
pub proof fn requests_keep_invariant(trade: Trade, actions: Seq<Action>)
    requires
        trade.wf(),
    ensures
        trade.after_all(actions).wf(),
    decreases actions.len(),
{
    if actions.len() > 0 {
        requests_keep_invariant(trade, actions.drop_last());
        request_keeps_invariant(trade.after_all(actions.drop_last()), actions.last());
    }
}

/// Custody and status agree in every state that a newly created trade can
/// reach.
pub proof fn custody_agrees_in_every_reachable_state(
    id: u64,
    maker: Key,
    arbitrator: Option<Key>,
    asset: Key,
    amount: u64,
    price: u64,
    now: i64,
    actions: Seq<Action>,
)
    ensures
        ({
            let trade = created(id, maker, arbitrator, asset, amount, price, now).after_all(
                actions,
            );
            &&& trade.amount == amount
            &&& trade.escrow.balance > 0 ==> trade.status.holds_funds()
            &&& amount > 0 && trade.escrow.balance == 0 ==> !trade.status.holds_funds()
        }),
{
    let start = created(id, maker, arbitrator, asset, amount, price, now);
    requests_keep_invariant(start, actions);
    terms_are_fixed(start, actions);
}

/// No sequence of requests changes who made the trade, what it is for, or
/// how much.
pub proof fn terms_are_fixed(trade: Trade, actions: Seq<Action>)
    ensures
        trade.after_all(actions).id == trade.id,
        trade.after_all(actions).maker == trade.maker,
        trade.after_all(actions).arbitrator == trade.arbitrator,
        trade.after_all(actions).asset == trade.asset,
        trade.after_all(actions).amount == trade.amount,
        trade.after_all(actions).price == trade.price,
        trade.after_all(actions).created_at == trade.created_at,
    decreases actions.len(),
{
    if actions.len() > 0 {
        terms_are_fixed(trade, actions.drop_last());
    }
}

/// The funds are in custody exactly when the history says so: a trade that
/// starts unfunded holds funds after a sequence of requests if and only if
/// one of them was an applied funding and no applied request since has paid
/// custody out.
pub proof fn custody_follows_history(trade: Trade, actions: Seq<Action>)
    requires
        trade.status == TradeStatus::Created,
    ensures
        trade.after_all(actions).status.holds_funds() <==> trade.funded_and_not_paid_out(actions),
    decreases actions.len(),
{
    if actions.len() > 0 {
        custody_follows_history(trade, actions.drop_last());
    }
}

/// Completion is applied only to a trade whose funding was applied earlier
/// and whose custody no cancellation, refund or release has emptied since:
/// custody is never paid out twice.
pub proof fn complete_needs_live_funding(
    trade: Trade,
    actions: Seq<Action>,
    caller: Key,
    destination: TokenAccount,
    oracle_price: u64,
    tolerance_bps: u64,
)
    requires
        trade.status == TradeStatus::Created,
        trade.after_all(actions).complete_rejection(
            caller,
            destination,
            oracle_price,
            tolerance_bps,
        ) is None,
    ensures
        trade.funded_and_not_paid_out(actions),
{
    custody_follows_history(trade, actions);
}

/// Once custody has been paid out, nothing is applied any more: from a
/// status that no transition leaves, every request is rejected with
/// `InvalidStatus` and the trade stays as it is.
pub proof fn closed_trade_rejects_everything(trade: Trade, action: Action)
    requires
        trade.status.is_terminal(),
    ensures
        trade.rejection(action) == Some(TradeError::InvalidStatus),
        trade.after(action) == trade,
{
}

/// A cancellation between funding and acceptance returns the whole locked
/// amount to the maker, once: custody is empty afterwards, and every later
/// request is rejected with `InvalidStatus`.
pub proof fn cancel_refunds_maker_once(
    trade: Trade,
    caller: Key,
    refund_to: TokenAccount,
    now: i64,
    later: Action,
)
    requires
        trade.wf(),
        trade.status == TradeStatus::EscrowFunded,
        trade.cancel_rejection(caller, refund_to) is None,
    ensures
        caller == trade.maker,
        refund_to.owner == trade.maker,
        refund_to.credited(trade.amount).amount == refund_to.amount + trade.escrow.balance,
        trade.cancelled(now).status == TradeStatus::Cancelled,
        trade.cancelled(now).escrow.balance == 0,
        trade.cancelled(now).rejection(later) == Some(TradeError::InvalidStatus),
        trade.cancelled(now).after(later) == trade.cancelled(now),
{
}

/// A transition asked for twice in immediate succession is applied once:
/// if the first request is applied, a second request for the same
/// transition is rejected with `InvalidStatus`, and the trade after both is
/// the trade after the first.
pub proof fn repeated_request_is_rejected(trade: Trade, first: Action, second: Action)
    requires
        trade.rejection(first) is None,
        first.same_transition(second),
    ensures
        trade.after(first).rejection(second) == Some(TradeError::InvalidStatus),
        trade.after(first).after(second) == trade.after(first),
{
}

/// A rejected request changes nothing, so asking again is rejected for the
/// same reason.
pub proof fn rejection_is_idempotent(trade: Trade, action: Action)
    requires
        trade.rejection(action) is Some,
    ensures
        trade.after(action) == trade,
        trade.after(action).rejection(action) == trade.rejection(action),
{
}

/// Creation does not look for duplicates: the same terms, asked for twice,
/// make two trades with two ids, each newly created, and leave the earlier
/// trades as they were.
pub proof fn same_terms_twice_make_two_trades(
    trades: Seq<Trade>,
    terms: NewTrade,
    first_now: i64,
    second_now: i64,
)
    requires
        create_rejection(terms.amount, terms.price, terms.min, terms.max) is None,
        trades.len() < u64::MAX,
    ensures
        ({
            let n = trades.len() as int;
            let twice = opened(opened(trades, terms, first_now), terms, second_now);
            &&& twice.len() == n + 2
            &&& twice.subrange(0, n) == trades
            &&& twice[n] == created(
                n as u64,
                terms.maker,
                terms.arbitrator,
                terms.asset,
                terms.amount,
                terms.price,
                first_now,
            )
            &&& twice[n + 1] == created(
                (n + 1) as u64,
                terms.maker,
                terms.arbitrator,
                terms.asset,
                terms.amount,
                terms.price,
                second_now,
            )
            &&& twice[n].id != twice[n + 1].id
        }),
{
    let n = trades.len() as int;
    let twice = opened(opened(trades, terms, first_now), terms, second_now);
    assert(twice.subrange(0, n) =~= trades);
}

/// Trades are independent: a request on one trade changes no other.
pub proof fn request_touches_one_trade(
    trades: Seq<Trade>,
    trade_id: u64,
    action: Action,
    other: int,
)
    requires
        0 <= other < trades.len(),
        other != trade_id,
    ensures
        applied(trades, trade_id, action).len() == trades.len(),
        applied(trades, trade_id, action)[other] == trades[other],
{
}

/// Neither creating a trade nor a request on one breaks the invariant of
/// the ledger.
pub proof fn ledger_keeps_invariant(
    trades: Seq<Trade>,
    terms: NewTrade,
    now: i64,
    trade_id: u64,
    action: Action,
)
    requires
        well_kept(trades),
        trades.len() < u64::MAX,
    ensures
        well_kept(opened(trades, terms, now)),
        well_kept(applied(trades, trade_id, action)),
{
}

/// The relay does not deduplicate: a request to create a trade that is
/// delivered twice, and applied, makes two trades with two ids, and leaves
/// the earlier trades and the refund account as they were.
pub proof fn relayed_create_twice_makes_two_trades(
    trades: Seq<Trade>,
    msg: IbcExecuteMsg,
    refund_to: TokenAccount,
    first_now: i64,
    second_now: i64,
)
    requires
        msg is Create,
        msg.refused(trades, refund_to, first_now) is None,
        trades.len() < u64::MAX,
    ensures
        ({
            let n = trades.len() as int;
            let once = msg.relayed(trades, refund_to, first_now);
            let twice = msg.relayed(once, refund_to, second_now);
            &&& msg.refused(once, refund_to, second_now) is None
            &&& msg.refunded(trades, refund_to, first_now) == refund_to
            &&& msg.refunded(once, refund_to, second_now) == refund_to
            &&& twice.len() == n + 2
            &&& twice.subrange(0, n) == trades
            &&& twice[n].id == n
            &&& twice[n + 1].id == n + 1
            &&& twice[n].status == TradeStatus::Created
            &&& twice[n + 1].status == TradeStatus::Created
            &&& twice[n].maker == twice[n + 1].maker
            &&& twice[n].amount == twice[n + 1].amount
        }),
{
    same_terms_twice_make_two_trades(trades, msg->Create_new_trade, first_now, second_now);
}

/// The status moves along the transition table and never back: a request
/// that is applied takes the trade along one arrow of the table, to a status
/// further along; a request that is rejected leaves the status.
pub proof fn status_moves_along_the_table(trade: Trade, action: Action)
    ensures
        trade.rejection(action) is None ==> trade.status.leads_to(trade.after(action).status),
        trade.rejection(action) is None ==> trade.status.progress() < trade.after(
            action,
        ).status.progress(),
        trade.rejection(action) is Some ==> trade.after(action).status == trade.status,
{
}

/// The status never moves back, whatever is asked and however often.
pub proof fn status_never_moves_back(trade: Trade, actions: Seq<Action>)
    ensures
        trade.status.progress() <= trade.after_all(actions).status.progress(),
    decreases actions.len(),
{
    if actions.len() > 0 {
        status_never_moves_back(trade, actions.drop_last());
        status_moves_along_the_table(trade.after_all(actions.drop_last()), actions.last());
    }
}

/// Funding moves funds and makes none: what custody and the source account
/// hold together is the same before and after.
pub proof fn funding_conserves_funds(trade: Trade, caller: Key, source: TokenAccount, now: i64)
    requires
        trade.deposit_rejection(caller, source) is None,
    ensures
        trade.funded(now).escrow.balance + source.debited(trade.amount).amount
            == trade.escrow.balance + source.amount,
        trade.funded(now).escrow.balance == trade.escrow.balance + trade.amount,
{
}

/// Paying out moves funds and makes none: whenever custody can pay the
/// trade's amount into an account, what the two hold together is the same
/// before and after, whichever status the trade is left in.
pub proof fn payout_conserves_funds(
    trade: Trade,
    destination: TokenAccount,
    status: TradeStatus,
    now: i64,
)
    requires
        trade.escrow.release_rejection(destination, trade.amount) is None,
    ensures
        trade.settled(status, now).escrow.balance + destination.credited(trade.amount).amount
            == trade.escrow.balance + destination.amount,
        trade.settled(status, now).escrow.balance == trade.escrow.balance - trade.amount,
{
}

} // verus!
