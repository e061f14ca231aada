use boldtrax::decimal::Decimal;
use boldtrax::errors::AccountError;
use boldtrax::kinds::{Currency, Exchange};
use boldtrax::manager::account::{
    answer, get_balances, AccountAnswer, AccountEventKind, AccountManagerConfig, AccountManagerError, AccountQuery,
    AccountState, Ticket,
};
use boldtrax::manager::types::{
    AccountModel, AccountPartitionRef, AccountSnapshot, BalanceQuery, BalanceView, CollateralScope, MarginMode,
    PartitionKind,
};
use boldtrax::time::UtcTime;

fn dec(s: &str) -> Decimal {
    Decimal::from_str(s).unwrap()
}

fn partition(exchange: Exchange, kind: PartitionKind, account_id: &str) -> AccountPartitionRef {
    AccountPartitionRef { exchange, kind, account_id: Some(account_id.to_string()) }
}

fn balance(exchange: Exchange, part: Option<AccountPartitionRef>, total: &str, pnl: &str) -> BalanceView {
    let collateral_scope = if part.is_none() {
        CollateralScope::SharedAcrossPartitions
    } else {
        CollateralScope::PartitionOnly
    };
    BalanceView {
        exchange,
        partition: part,
        asset: Currency::USDT,
        total: dec(total),
        free: dec(total),
        locked: dec("0"),
        borrowed: dec("0"),
        unrealized_pnl: dec(pnl),
        collateral_scope,
        as_of_utc: UtcTime::now(),
    }
}

fn unified_snapshot(exchange: Exchange) -> AccountSnapshot {
    let swap = partition(exchange, PartitionKind::Swap, "swap");
    AccountSnapshot {
        exchange,
        model: AccountModel::Unified,
        partitions: vec![swap.clone()],
        balances: vec![balance(exchange, None, "1000", "0"), balance(exchange, Some(swap), "200", "10")],
        as_of_utc: UtcTime::now(),
    }
}

fn at(ms: i64) -> UtcTime {
    UtcTime::from_millis(ms).unwrap()
}

#[test]
fn balance_net_equity_is_total_plus_pnl_minus_borrowed() {
    let balance = BalanceView {
        exchange: Exchange::Bybit,
        partition: None,
        asset: Currency::USDT,
        total: dec("1200"),
        free: dec("1100"),
        locked: dec("100"),
        borrowed: dec("200"),
        unrealized_pnl: dec("50"),
        collateral_scope: CollateralScope::SharedAcrossPartitions,
        as_of_utc: UtcTime::now(),
    };

    assert_eq!(balance.net_equity(), dec("1050"));
    assert_eq!(balance.checked_net_equity(), Some(dec("1050")));
}

#[test]
fn unified_effective_collateral_uses_shared_and_matching_partition_only() {
    let swap_partition = partition(Exchange::Bybit, PartitionKind::Swap, "swap-1");
    let spot_partition = partition(Exchange::Bybit, PartitionKind::Spot, "spot-1");

    let snapshot = AccountSnapshot {
        exchange: Exchange::Bybit,
        model: AccountModel::Unified,
        partitions: vec![swap_partition.clone(), spot_partition.clone()],
        balances: vec![
            balance(Exchange::Bybit, None, "1000", "0"),
            balance(Exchange::Bybit, Some(swap_partition.clone()), "200", "0"),
            balance(Exchange::Bybit, Some(spot_partition), "300", "0"),
        ],
        as_of_utc: UtcTime::now(),
    };

    assert_eq!(snapshot.effective_collateral(Currency::USDT, Some(&swap_partition)), dec("1200"));
    assert_eq!(snapshot.effective_collateral(Currency::USDT, None), dec("1500"));
    assert_eq!(snapshot.effective_collateral(Currency::BTC, None), dec("0"));
}

#[test]
fn segmented_effective_collateral_requires_partition_match() {
    let futures_partition = partition(Exchange::Binance, PartitionKind::Swap, "futures");

    let snapshot = AccountSnapshot {
        exchange: Exchange::Binance,
        model: AccountModel::Segmented,
        partitions: vec![futures_partition.clone()],
        balances: vec![balance(Exchange::Binance, Some(futures_partition.clone()), "500", "25")],
        as_of_utc: UtcTime::now(),
    };

    assert_eq!(snapshot.effective_collateral(Currency::USDT, Some(&futures_partition)), dec("525"));
    assert_eq!(snapshot.effective_collateral(Currency::USDT, None), dec("0"));
}

#[test]
fn collateral_that_overflows_is_told() {
    let mut snapshot = unified_snapshot(Exchange::Bybit);
    snapshot.balances[0].total = Decimal::max_value();
    assert_eq!(snapshot.checked_effective_collateral(Currency::USDT, None), None);
    let query = AccountQuery::GetEffectiveCollateral {
        exchange: Exchange::Bybit,
        quote_asset: Currency::USDT,
        partition: None,
    };
    assert!(matches!(answer(&snapshot, &query), Ok(AccountAnswer::Overflow)));
}

#[test]
fn actor_returns_cached_model_and_only_fetches_once() {
    let mut state = AccountState::new(&AccountManagerConfig { mailbox_capacity: 32, ..Default::default() });
    let ask = |id| Ticket { id, query: AccountQuery::AccountModel { exchange: Exchange::Bybit } };

    let first = state.handle_command(ask(1));
    assert_eq!(first.fetch, Some(Exchange::Bybit));
    assert!(first.replies.is_empty());
    let waiting = state.handle_command(ask(2));
    assert_eq!(waiting.fetch, None);
    let came = state.handle_fetch_result(Exchange::Bybit, Ok(unified_snapshot(Exchange::Bybit)));
    assert_eq!(came.replies.len(), 2);
    assert!(matches!(came.replies[0], (1, Ok(AccountAnswer::Model(AccountModel::Unified)))));
    assert!(matches!(came.replies[1], (2, Ok(AccountAnswer::Model(AccountModel::Unified)))));

    let later = state.handle_command(ask(3));
    assert_eq!(later.fetch, None);
    assert!(matches!(later.replies[0], (3, Ok(AccountAnswer::Model(AccountModel::Unified)))));
}

#[test]
fn actor_computes_unified_effective_collateral() {
    let snapshot = unified_snapshot(Exchange::Bybit);
    let query = AccountQuery::GetEffectiveCollateral {
        exchange: Exchange::Bybit,
        quote_asset: Currency::USDT,
        partition: None,
    };
    match answer(&snapshot, &query) {
        Ok(AccountAnswer::Collateral(summary)) => {
            assert_eq!(summary.model, AccountModel::Unified);
            assert_eq!(summary.effective_collateral, dec("1210"));
            assert_eq!(summary.total_balance, dec("1200"));
            assert_eq!(summary.total_unrealized_pnl, dec("10"));
            assert_eq!(summary.total_borrowed, dec("0"));
        }
        _ => panic!("expected a summary"),
    }
}

#[test]
fn actor_emits_reconcile_event() {
    let mut state = AccountState::new(&AccountManagerConfig { mailbox_capacity: 32, ..Default::default() });
    let step =
        state.handle_command(Ticket { id: 1, query: AccountQuery::ReconcileSnapshot { exchange: Exchange::Binance } });
    assert_eq!(step.fetch, Some(Exchange::Binance));
    let came = state.handle_fetch_result(Exchange::Binance, Ok(unified_snapshot(Exchange::Binance)));
    assert_eq!(came.events.len(), 1);
    assert_eq!(came.events[0].exchange, Exchange::Binance);
    assert_eq!(came.events[0].kind, AccountEventKind::SnapshotReconciled);
    assert!(matches!(came.replies[0], (1, Ok(AccountAnswer::Snapshot(_)))));
}

#[test]
fn plain_fetch_tells_an_update() {
    let mut state = AccountState::new(&AccountManagerConfig::default());
    state.handle_command(Ticket { id: 1, query: AccountQuery::GetSnapshot { exchange: Exchange::Aster } });
    let came = state.handle_fetch_result(Exchange::Aster, Ok(unified_snapshot(Exchange::Aster)));
    assert_eq!(came.events.len(), 1);
    assert_eq!(came.events[0].kind, AccountEventKind::SnapshotUpdated);
}

#[test]
fn stale_snapshot_is_given_and_fetched_anew() {
    let mut state = AccountState::new(&AccountManagerConfig::default());
    let mut snapshot = unified_snapshot(Exchange::Bybit);
    snapshot.as_of_utc = at(1_000_000);
    state.handle_fetch_result(Exchange::Bybit, Ok(snapshot));
    assert!(!state.is_stale_at(Exchange::Bybit, at(1_030_000)));
    assert!(state.is_stale_at(Exchange::Bybit, at(1_030_001)));
    let ask = |id| Ticket { id, query: AccountQuery::ListPartitions { exchange: Exchange::Bybit } };
    let fresh = state.handle_command_at(ask(1), at(1_030_000));
    assert_eq!(fresh.fetch, None);
    let stale = state.handle_command_at(ask(2), at(1_030_001));
    assert_eq!(stale.fetch, Some(Exchange::Bybit));
    assert!(matches!(&stale.replies[0], (2, Ok(AccountAnswer::Partitions(p))) if p.len() == 1));
}

#[test]
fn failed_fetch_is_told_to_all_who_wait() {
    let mut state = AccountState::new(&AccountManagerConfig::default());
    for id in [4, 5] {
        state.handle_command(Ticket { id, query: AccountQuery::AccountModel { exchange: Exchange::Okx } });
    }
    let failure = AccountManagerError::SourceError(AccountError::Unauthorized);
    let step = state.handle_fetch_result(Exchange::Okx, Err(failure));
    assert_eq!(step.replies.len(), 2);
    for (_, reply) in step.replies {
        match reply {
            Err(AccountManagerError::Other { reason }) => assert_eq!(reason, "account source error: unauthorized"),
            _ => panic!("expected a refusal"),
        }
    }
    let again = state.handle_command(Ticket { id: 6, query: AccountQuery::AccountModel { exchange: Exchange::Okx } });
    assert_eq!(again.fetch, Some(Exchange::Okx));
}

#[test]
fn margin_mode_follows_the_model_and_unknown_parts_are_refused() {
    let snapshot = unified_snapshot(Exchange::Bybit);
    let query = AccountQuery::GetMarginState { exchange: Exchange::Bybit, partition: None };
    assert!(matches!(
        answer(&snapshot, &query),
        Ok(AccountAnswer::Margin(m)) if m.mode == MarginMode::Portfolio && m.margin_ratio.is_none()
    ));
    let unknown = AccountQuery::GetMarginState {
        exchange: Exchange::Bybit,
        partition: Some(partition(Exchange::Bybit, PartitionKind::Margin, "m")),
    };
    assert!(matches!(answer(&snapshot, &unknown), Err(AccountManagerError::PartitionNotFound { .. })));
    let mut segmented = unified_snapshot(Exchange::Bybit);
    segmented.model = AccountModel::Segmented;
    assert!(matches!(
        answer(&segmented, &query),
        Ok(AccountAnswer::Margin(m)) if m.mode == MarginMode::Cross
    ));
}

#[test]
fn balances_are_chosen_by_part_asset_and_zero() {
    let mut snapshot = unified_snapshot(Exchange::Bybit);
    snapshot.balances.push(balance(Exchange::Bybit, None, "0", "0"));
    let all = BalanceQuery {
        exchange: Exchange::Bybit,
        partition: None,
        asset: Some(Currency::USDT),
        include_zero_balances: true,
    };
    assert_eq!(get_balances(&snapshot, &all).len(), 3);
    let full = BalanceQuery { include_zero_balances: false, ..all.clone() };
    assert_eq!(get_balances(&snapshot, &full).len(), 2);
    let part = BalanceQuery {
        partition: Some(partition(Exchange::Bybit, PartitionKind::Swap, "swap")),
        ..all.clone()
    };
    assert_eq!(get_balances(&snapshot, &part).len(), 1);
    let other = BalanceQuery { asset: Some(Currency::ETH), ..all };
    assert_eq!(get_balances(&snapshot, &other).len(), 0);
}

#[test]
fn errors_of_the_account_manager_in_words() {
    let unknown = AccountManagerError::PartitionNotFound { exchange: Exchange::Bybit, partition: "p".to_string() };
    assert_eq!(unknown.message(), "partition not found on Bybit: p");
    let stale = AccountManagerError::SnapshotStale {
        exchange: Exchange::Binance,
        last_update_utc: at(1_737_410_400_000),
        max_age_secs: 30,
    };
    assert_eq!(
        stale.message(),
        "snapshot for Binance is stale: updated at 2025-01-20 22:00:00 UTC, max age 30s"
    );
}

#[test]
fn question_about_one_exchange_leaves_others_waiting() {
    let mut state = AccountState::new(&AccountManagerConfig { mailbox_capacity: 32, ..Default::default() });
    let ask = |id, exchange| Ticket { id, query: AccountQuery::AccountModel { exchange } };
    assert_eq!(state.handle_command(ask(1, Exchange::Bybit)).fetch, Some(Exchange::Bybit));
    assert_eq!(state.handle_command(ask(2, Exchange::Aster)).fetch, Some(Exchange::Aster));
    let came = state.handle_fetch_result(Exchange::Aster, Ok(unified_snapshot(Exchange::Aster)));
    assert_eq!(came.replies.len(), 1);
    assert_eq!(state.handle_command(ask(3, Exchange::Bybit)).fetch, None);
    let later = state.handle_fetch_result(Exchange::Bybit, Ok(unified_snapshot(Exchange::Bybit)));
    assert_eq!(later.replies.len(), 2);
}

#[test]
fn collateral_is_total_and_profit_less_borrowed() {
    let mut snapshot = unified_snapshot(Exchange::Bybit);
    snapshot.balances[0].borrowed = dec("30.5");
    let query = AccountQuery::GetEffectiveCollateral {
        exchange: Exchange::Bybit,
        quote_asset: Currency::USDT,
        partition: None,
    };
    match answer(&snapshot, &query) {
        Ok(AccountAnswer::Collateral(c)) => {
            assert_eq!(c.effective_collateral, dec("1179.5"));
            let gross = c.total_balance.checked_add(c.total_unrealized_pnl).unwrap();
            assert_eq!(gross.checked_sub(c.total_borrowed).unwrap(), c.effective_collateral);
        }
        _ => panic!("expected a summary"),
    }
}
