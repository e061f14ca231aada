use vstd::prelude::*;

use crate::decimal::Dec;
use crate::decimal_laws;
use crate::kinds::{Currency, Exchange};
use crate::manager::account;
use crate::manager::account::{AccountAnswer, AccountEvent, AccountEventKind, AccountQuery, AccountReply, AccountState, Ticket};
use crate::manager::types;
use crate::manager::types::{
    AccountModel, AccountPartitionRef, AccountSnapshot, BalanceQuery, BalanceView, CollateralScope, CollateralSummary,
    MarginMode, Measure,
};
use crate::time::UtcTime;

verus! {

/// What a balance is worth after debts is total and unrealized profit less what is borrowed.
pub proof fn equity_is_what_is_owned(b: BalanceView)
    requires
        b.sound(),
        b.total@.exact_sum(b.unrealized_pnl@) matches Some(gross) && gross.exact_difference(b.borrowed@) is Some,
    ensures
        b.equity() matches Some(e) && e.units() == b.total@.units() + b.unrealized_pnl@.units() - b.borrowed@.units(),
{
    decimal_laws::sum_units(b.total@, b.unrealized_pnl@);
    decimal_laws::difference_units(b.total@.sum(b.unrealized_pnl@)->0, b.borrowed@);
}

/// More borrowed is worth less, by as much.
pub proof fn debt_lowers_equity(b: BalanceView, c: BalanceView)
    requires
        b.sound(),
        c.sound(),
        b.total@.exact_sum(b.unrealized_pnl@) matches Some(gross) && gross.exact_difference(b.borrowed@) is Some,
        c.total@.exact_sum(c.unrealized_pnl@) matches Some(gross) && gross.exact_difference(c.borrowed@) is Some,
        c.total@ == b.total@,
        c.unrealized_pnl@ == b.unrealized_pnl@,
    ensures
        (b.equity()->0).units() - (c.equity()->0).units() == c.borrowed@.units() - b.borrowed@.units(),
{
    equity_is_what_is_owned(b);
    equity_is_what_is_owned(c);
}

/// The number of a balance that a figure adds up, in units.
pub open spec fn figure_units(what: Measure, b: BalanceView) -> int {
    match what {
        Measure::Equity => b.total@.units() + b.unrealized_pnl@.units() - b.borrowed@.units(),
        Measure::Total => b.total@.units(),
        Measure::Borrowed => b.borrowed@.units(),
        Measure::Unrealized => b.unrealized_pnl@.units(),
    }
}

/// One more balance adds its own number to a figure, and nothing where it does not count: where it
/// is of another asset, or lies outside the part that is asked about. What is shared in a unified
/// account counts for every part; a segmented account as a whole has no figures.
pub proof fn one_more_balance_adds_itself(
    model: AccountModel,
    balances: Seq<BalanceView>,
    b: BalanceView,
    quote_asset: Currency,
    partition: Option<AccountPartitionRef>,
    what: Measure,
)
    requires
        forall|i: int| 0 <= i < balances.len() ==> (#[trigger] balances[i]).sound(),
        b.sound(),
        types::adds_exactly(model, balances.push(b), quote_asset, partition, what),
    ensures
        types::added_up(model, balances, quote_asset, partition, what) matches Some(before) && (types::added_up(
            model,
            balances.push(b),
            quote_asset,
            partition,
            what,
        ) matches Some(after) && {
            let inside = partition matches Some(p) && (b.partition matches Some(held) && held.same_part(p));
            let shared = model == AccountModel::Unified && (partition is None || b.collateral_scope
                == CollateralScope::SharedAcrossPartitions);
            &&& b.asset == quote_asset && (inside || shared) ==> after.units() - before.units() == figure_units(what, b)
            &&& b.asset != quote_asset || !(inside || shared) ==> after.units() == before.units()
        }),
{
    let all = balances.push(b);
    assert(all.drop_last() =~= balances);
    assert forall|i: int| 0 <= i < all.len() implies (#[trigger] all[i]).sound() by {
        if i < balances.len() {
            assert(balances[i].sound());
        }
    }
    types::exact_figure_is_sum(model, all, quote_asset, partition, what);
    types::exact_figure_is_sum(model, balances, quote_asset, partition, what);
}

/// Without balances every figure is zero.
pub proof fn nothing_adds_up_to_zero(
    model: AccountModel,
    quote_asset: Currency,
    partition: Option<AccountPartitionRef>,
    what: Measure,
)
    ensures
        types::added_up(model, Seq::empty(), quote_asset, partition, what) matches Some(d) && d.units() == 0,
{
    decimal_laws::units_have_sign(Dec::zero());
}

/// Of a single balance a summary tells the balance's own numbers, each under its name.
pub proof fn summary_tells_the_balance(
    c: CollateralSummary,
    snapshot: AccountSnapshot,
    exchange: Exchange,
    quote_asset: Currency,
    b: BalanceView,
)
    requires
        account::summarizes(c, snapshot, exchange, quote_asset, None),
        snapshot.model == AccountModel::Unified,
        snapshot.balances@ == seq![b],
        b.asset == quote_asset,
        b.sound(),
        forall|what: Measure| #[trigger]
            types::adds_exactly(snapshot.model, snapshot.balances@, quote_asset, None, what),
    ensures
        c.total_balance@.units() == b.total@.units(),
        c.total_borrowed@.units() == b.borrowed@.units(),
        c.total_unrealized_pnl@.units() == b.unrealized_pnl@.units(),
        c.effective_collateral@.units() == b.total@.units() + b.unrealized_pnl@.units() - b.borrowed@.units(),
        c.exchange == exchange,
        c.quote_asset == quote_asset,
        c.as_of_utc == snapshot.as_of_utc,
{
    let none: Seq<BalanceView> = Seq::empty();
    assert(none.push(b) =~= snapshot.balances@);
    single_balance(snapshot, b, quote_asset, Measure::Total);
    single_balance(snapshot, b, quote_asset, Measure::Borrowed);
    single_balance(snapshot, b, quote_asset, Measure::Unrealized);
    single_balance(snapshot, b, quote_asset, Measure::Equity);
}

proof fn single_balance(snapshot: AccountSnapshot, b: BalanceView, quote_asset: Currency, what: Measure)
    requires
        snapshot.model == AccountModel::Unified,
        snapshot.balances@ == Seq::<BalanceView>::empty().push(b),
        b.asset == quote_asset,
        b.sound(),
        types::adds_exactly(snapshot.model, snapshot.balances@, quote_asset, None, what),
    ensures
        snapshot.figure(quote_asset, None, what) matches Some(d) && d.units() == figure_units(what, b),
{
    one_more_balance_adds_itself(snapshot.model, Seq::empty(), b, quote_asset, None, what);
    nothing_adds_up_to_zero(snapshot.model, quote_asset, None, what);
}

/// A part is itself, is another just as the other is it, and is none of another exchange, of another
/// kind or under another identifier.
pub proof fn parts_are_told_apart(a: AccountPartitionRef, b: AccountPartitionRef)
    ensures
        a.same_part(a),
        a.same_part(b) <==> b.same_part(a),
        a.exchange != b.exchange ==> !a.same_part(b),
        a.account_id is Some && b.account_id is None ==> !a.same_part(b),
        a.account_id matches Some(x) ==> (b.account_id matches Some(y) ==> (x@ != y@ ==> !a.same_part(b))),
        a.kind is Spot && b.kind is Swap ==> !a.same_part(b),
        a.kind is Unified && !(b.kind is Unified) ==> !a.same_part(b),
        a.kind is Spot && !(b.kind is Spot) ==> !a.same_part(b),
        a.kind is Swap && !(b.kind is Swap) ==> !a.same_part(b),
        a.kind is Margin && !(b.kind is Margin) ==> !a.same_part(b),
        a.kind is Funding && !(b.kind is Funding) ==> !a.same_part(b),
        a.kind is Options && !(b.kind is Options) ==> !a.same_part(b),
{
}

/// What is the same part as a part is the same as every part that is.
pub proof fn same_part_carries_over(a: AccountPartitionRef, b: AccountPartitionRef, c: AccountPartitionRef)
    requires
        a.same_part(b),
        b.same_part(c),
    ensures
        a.same_part(c),
{
}

/// A question without any condition wants every balance; each condition leaves out what does not
/// meet it, and nothing else.
pub proof fn conditions_narrow_a_question(query: BalanceQuery, b: BalanceView)
    ensures
        query.asset is None && query.partition is None && query.include_zero_balances ==> query.wants(b),
        query.asset matches Some(asset) ==> (b.asset != asset ==> !query.wants(b)),
        query.partition is Some && b.partition is None ==> !query.wants(b),
        query.partition matches Some(p) ==> (b.partition matches Some(held) ==> (!held.same_part(p) ==> !query.wants(b))),
        !query.include_zero_balances && b.total@.units() == 0 && b.unrealized_pnl@.units() == 0 ==> !query.wants(b),
        (query.asset matches Some(asset) ==> b.asset == asset) && (query.partition matches Some(p) ==> (
        b.partition matches Some(held) && held.same_part(p))) && (query.include_zero_balances || b.total@.units() != 0
            || b.unrealized_pnl@.units() != 0) ==> query.wants(b),
{
    decimal_laws::units_have_sign(b.total@);
    decimal_laws::units_have_sign(b.unrealized_pnl@);
}

/// A snapshot grows old: it is fresh for as long as it may be old, and from then on it is old for
/// good.
pub proof fn snapshots_grow_old(state: AccountState, exchange: Exchange, now: UtcTime, later: UtcTime)
    requires
        state.snapshots().contains_key(exchange),
        now@ <= later@,
    ensures
        state.stale(exchange, now) ==> state.stale(exchange, later),
        now@ <= state.snapshots()[exchange].as_of_utc@ && state.max_age() >= 0 ==> !state.stale(exchange, now),
        now@ == state.snapshots()[exchange].as_of_utc@ + state.max_age() * 1_000_000_000 ==> !state.stale(exchange, now),
        now@ > state.snapshots()[exchange].as_of_utc@ + state.max_age() * 1_000_000_000 ==> state.stale(exchange, now),
{
}

/// There is nothing old where there is no snapshot.
pub proof fn no_snapshot_is_not_old(state: AccountState, exchange: Exchange, now: UtcTime)
    requires
        !state.snapshots().contains_key(exchange),
    ensures
        !state.stale(exchange, now),
{
}

/// How many questions ask for a fresh snapshot.
pub open spec fn reconciling(tickets: Seq<Ticket>) -> nat
    decreases tickets.len(),
{
    if tickets.len() == 0 {
        0
    } else if tickets.last().query is ReconcileSnapshot {
        reconciling(tickets.drop_last()) + 1
    } else {
        reconciling(tickets.drop_last())
    }
}

/// There are as many events of reconciling as questions that asked for it, each on the exchange and
/// at the time of the snapshot.
pub proof fn each_reconciling_is_told(tickets: Seq<Ticket>, exchange: Exchange, as_of_utc: UtcTime)
    ensures
        account::reconcile_events(tickets, exchange, as_of_utc).len() == reconciling(tickets),
        forall|i: int|
            0 <= i < reconciling(tickets) ==> (#[trigger] account::reconcile_events(tickets, exchange, as_of_utc)[i]) == (
            AccountEvent { exchange, kind: AccountEventKind::SnapshotReconciled, as_of_utc }),
    decreases tickets.len(),
{
    if tickets.len() > 0 {
        each_reconciling_is_told(tickets.drop_last(), exchange, as_of_utc);
    }
}

/// Whenever a snapshot comes in something is told: that it was updated, where nobody asked for a
/// fresh one, else nothing but that it was reconciled.
pub proof fn new_snapshot_is_told(tickets: Seq<Ticket>, exchange: Exchange, as_of_utc: UtcTime)
    ensures
        reconciling(tickets) == 0 ==> account::fetch_events(tickets, exchange, as_of_utc) == seq![
            AccountEvent { exchange, kind: AccountEventKind::SnapshotUpdated, as_of_utc },
        ],
        reconciling(tickets) > 0 ==> account::fetch_events(tickets, exchange, as_of_utc).len() == reconciling(tickets),
        reconciling(tickets) > 0 ==> forall|i: int|
            0 <= i < reconciling(tickets) ==> (#[trigger] account::fetch_events(tickets, exchange, as_of_utc)[i]) == (
            AccountEvent { exchange, kind: AccountEventKind::SnapshotReconciled, as_of_utc }),
{
    each_reconciling_is_told(tickets, exchange, as_of_utc);
    reconciling_means_asked(tickets);
}

/// Some question asks for a fresh snapshot just where their number is not zero.
proof fn reconciling_means_asked(tickets: Seq<Ticket>)
    ensures
        account::any_reconcile(tickets) <==> reconciling(tickets) > 0,
    decreases tickets.len(),
{
    if tickets.len() > 0 {
        let front = tickets.drop_last();
        reconciling_means_asked(front);
        if tickets.last().query is ReconcileSnapshot {
            assert(tickets[tickets.len() - 1].query is ReconcileSnapshot);
        } else if account::any_reconcile(front) {
            let i = choose|i: int| 0 <= i < front.len() && (#[trigger] front[i]).query is ReconcileSnapshot;
            assert(tickets[i].query is ReconcileSnapshot);
        } else if account::any_reconcile(tickets) {
            let i = choose|i: int| 0 <= i < tickets.len() && (#[trigger] tickets[i]).query is ReconcileSnapshot;
            assert(front[i].query is ReconcileSnapshot);
        }
    }
}

/// The margin of a unified account is that of a portfolio, the margin of a segmented one that of
/// its parts; it is told for the exchange and the part that were asked about, at the snapshot's time.
pub proof fn margin_follows_the_model(
    snapshot: AccountSnapshot,
    exchange: Exchange,
    partition: Option<AccountPartitionRef>,
    r: AccountReply,
)
    requires
        account::answers(snapshot, AccountQuery::GetMarginState { exchange, partition }, r),
        partition matches Some(p) ==> snapshot.has_part(p),
    ensures
        r matches Ok(AccountAnswer::Margin(m)) && {
            &&& m.exchange == exchange
            &&& m.partition == partition
            &&& snapshot.model == AccountModel::Unified ==> m.mode == MarginMode::Portfolio
            &&& snapshot.model == AccountModel::Segmented ==> m.mode == MarginMode::Cross
            &&& m.as_of_utc == snapshot.as_of_utc
        },
{
}

/// A part that the account does not have is named in the refusal, whether collateral or margin is
/// asked for.
pub proof fn unknown_part_is_refused(
    snapshot: AccountSnapshot,
    exchange: Exchange,
    quote_asset: Currency,
    part: AccountPartitionRef,
    collateral: AccountReply,
    margin: AccountReply,
)
    requires
        !snapshot.has_part(part),
        account::answers(
            snapshot,
            AccountQuery::GetEffectiveCollateral { exchange, quote_asset, partition: Some(part) },
            collateral,
        ),
        account::answers(snapshot, AccountQuery::GetMarginState { exchange, partition: Some(part) }, margin),
    ensures
        collateral is Err,
        margin is Err,
        collateral->Err_0.text() == margin->Err_0.text(),
{
}

} // verus!
