use vstd::prelude::*;

use crate::exchanges::aster;
use crate::exchanges::aster::auth::AsterHmacAuth;
use crate::exchanges::aster::client::AsterConfig;
use crate::exchanges::aster::types::AsterFuturesBalance;
use crate::exchanges::binance;
use crate::exchanges::binance::auth::BinanceHmacAuth;
use crate::exchanges::binance::client::{BinanceApiMode, BinanceConfig};
use crate::exchanges::binance::types::{BinanceFuturesBalance, BinanceSpotBalance};
use crate::exchanges::bybit;
use crate::exchanges::bybit::auth::BybitHmacAuth;
use crate::exchanges::bybit::client::BybitConfig;
use crate::exchanges::bybit::types::{BybitAccountEntry, BybitCoinBalance};
use crate::exchanges::common;
use crate::exchanges::common::{BalanceFacts, KindFacts, Overflow};
use crate::kinds::{Exchange, InstrumentType};
use crate::manager::types::{AccountModel, AccountSnapshot};
use crate::time::UtcTime;

verus! {

/// Whether a balance lies in a part of a kind at an exchange, as of a time.
pub open spec fn lies_at(b: BalanceFacts, exchange: Exchange, kind: KindFacts, as_of: int) -> bool {
    &&& b.exchange == exchange
    &&& b.partition matches Some(part) && part.exchange == exchange && part.kind == kind
    &&& b.as_of == as_of
}

/// Every balance of coins lies in the one part that a Bybit account has.
pub proof fn coins_lie_in_the_account(coins: Seq<BybitCoinBalance>, as_of: int, list: Seq<BalanceFacts>)
    requires
        bybit::client::coin_balances(coins, as_of) == Ok::<_, Overflow>(list),
    ensures
        list.len() <= coins.len(),
        forall|i: int| 0 <= i < list.len() ==> lies_at(#[trigger] list[i], Exchange::Bybit, KindFacts::Unified, as_of),
    decreases coins.len(),
{
    if coins.len() > 0 {
        let front = bybit::client::coin_balances(coins.drop_last(), as_of)->Ok_0;
        coins_lie_in_the_account(coins.drop_last(), as_of, front);
        assert forall|i: int| 0 <= i < list.len() implies lies_at(
            #[trigger] list[i],
            Exchange::Bybit,
            KindFacts::Unified,
            as_of,
        ) by {
            if i < front.len() {
                assert(list[i] == front[i]);
            }
        }
    }
}

/// A Bybit account is unified, and every balance of it is of Bybit, at the account's time.
pub proof fn bybit_account_is_unified(s: AccountSnapshot, accounts: Seq<BybitAccountEntry>, as_of: UtcTime, i: int)
    requires
        bybit::client::is_account(s, accounts, as_of),
        0 <= i < s.balances@.len(),
    ensures
        s.exchange == Exchange::Bybit,
        s.model == AccountModel::Unified,
        s.balances@[i].exchange == Exchange::Bybit,
        s.balances@[i].partition matches Some(part) && part.kind is Unified,
        s.balances@[i].as_of_utc@ == s.as_of_utc@,
        s.partitions@.len() == 1,
{
    let list = common::balance_views(s.balances@);
    coins_lie_in_the_account(bybit::client::all_coins(accounts), as_of@, list);
    assert(list[i] == s.balances@[i].facts());
    assert(lies_at(list[i], Exchange::Bybit, KindFacts::Unified, as_of@));
    assert(common::part_views(s.partitions@).len() == 1);
}

/// Every balance of futures lies in the one part that an Aster account has.
pub proof fn aster_balances_lie_in_the_account(told: Seq<AsterFuturesBalance>, as_of: int, list: Seq<BalanceFacts>)
    requires
        aster::client::futures_balances(told, as_of) == Ok::<_, Overflow>(list),
    ensures
        list.len() <= told.len(),
        forall|i: int| 0 <= i < list.len() ==> lies_at(#[trigger] list[i], Exchange::Aster, KindFacts::Swap, as_of),
    decreases told.len(),
{
    if told.len() > 0 {
        let front = aster::client::futures_balances(told.drop_last(), as_of)->Ok_0;
        aster_balances_lie_in_the_account(told.drop_last(), as_of, front);
        assert forall|i: int| 0 <= i < list.len() implies lies_at(
            #[trigger] list[i],
            Exchange::Aster,
            KindFacts::Swap,
            as_of,
        ) by {
            if i < front.len() {
                assert(list[i] == front[i]);
            }
        }
    }
}

/// Every spot balance of Binance lies in the part that trades spot.
pub proof fn spot_balances_lie_in_spot(told: Seq<BinanceSpotBalance>, as_of: int, list: Seq<BalanceFacts>)
    requires
        binance::mappers::spot_balances(told, as_of) == Ok::<_, Overflow>(list),
    ensures
        list.len() <= told.len(),
        forall|i: int| 0 <= i < list.len() ==> lies_at(#[trigger] list[i], Exchange::Binance, KindFacts::Spot, as_of),
    decreases told.len(),
{
    if told.len() > 0 {
        let front = binance::mappers::spot_balances(told.drop_last(), as_of)->Ok_0;
        spot_balances_lie_in_spot(told.drop_last(), as_of, front);
        assert forall|i: int| 0 <= i < list.len() implies lies_at(
            #[trigger] list[i],
            Exchange::Binance,
            KindFacts::Spot,
            as_of,
        ) by {
            if i < front.len() {
                assert(list[i] == front[i]);
            }
        }
    }
}

/// Every futures balance of Binance lies in the part that trades futures.
pub proof fn futures_balances_lie_in_futures(told: Seq<BinanceFuturesBalance>, as_of: int, list: Seq<BalanceFacts>)
    requires
        binance::mappers::futures_balances(told, as_of) == Ok::<_, Overflow>(list),
    ensures
        list.len() <= told.len(),
        forall|i: int| 0 <= i < list.len() ==> lies_at(#[trigger] list[i], Exchange::Binance, KindFacts::Swap, as_of),
    decreases told.len(),
{
    if told.len() > 0 {
        let front = binance::mappers::futures_balances(told.drop_last(), as_of)->Ok_0;
        futures_balances_lie_in_futures(told.drop_last(), as_of, front);
        assert forall|i: int| 0 <= i < list.len() implies lies_at(
            #[trigger] list[i],
            Exchange::Binance,
            KindFacts::Swap,
            as_of,
        ) by {
            if i < front.len() {
                assert(list[i] == front[i]);
            }
        }
    }
}

/// A Binance account is segmented: it has the parts that were asked for, spot before futures, and
/// lists the balances of spot before those of futures.
pub proof fn binance_account_is_segmented(
    s: AccountSnapshot,
    include_spot: bool,
    include_futures: bool,
    spot: Seq<BinanceSpotBalance>,
    futures: Seq<BinanceFuturesBalance>,
    as_of: UtcTime,
)
    requires
        binance::mappers::is_account(s, include_spot, include_futures, spot, futures, as_of),
        binance::mappers::account_computes(spot, futures, as_of@),
    ensures
        s.exchange == Exchange::Binance,
        s.model == AccountModel::Segmented,
        s.as_of_utc == as_of,
        include_spot && include_futures ==> s.partitions@.len() == 2 && s.partitions@[0].kind is Spot
            && s.partitions@[1].kind is Swap,
        include_spot && !include_futures ==> s.partitions@.len() == 1 && s.partitions@[0].kind is Spot,
        !include_spot && include_futures ==> s.partitions@.len() == 1 && s.partitions@[0].kind is Swap,
        !include_spot && !include_futures ==> s.partitions@.len() == 0,
        forall|i: int, j: int|
            #![trigger s.balances@[i], s.balances@[j]]
            0 <= i < j < s.balances@.len() && (s.balances@[i].partition matches Some(p) && p.kind is Swap) ==> (
            s.balances@[j].partition matches Some(p) && p.kind is Swap),
{
    let first = binance::mappers::spot_balances(spot, as_of@)->Ok_0;
    let second = binance::mappers::futures_balances(futures, as_of@)->Ok_0;
    spot_balances_lie_in_spot(spot, as_of@, first);
    futures_balances_lie_in_futures(futures, as_of@, second);
    let parts = common::part_views(s.partitions@);
    assert(parts.len() == s.partitions@.len());
    assert(s.partitions@.len() > 0 ==> parts[0] == s.partitions@[0].facts());
    assert(s.partitions@.len() > 1 ==> parts[1] == s.partitions@[1].facts());
    let list = common::balance_views(s.balances@);
    assert(list.len() == s.balances@.len());
    assert forall|i: int, j: int|
        #![trigger s.balances@[i], s.balances@[j]]
        0 <= i < j < s.balances@.len() && (s.balances@[i].partition matches Some(p) && p.kind is Swap) implies (
    s.balances@[j].partition matches Some(p) && p.kind is Swap) by {
        assert(list[i] == s.balances@[i].facts());
        assert(list[j] == s.balances@[j].facts());
        if i < first.len() {
            assert(lies_at(first[i], Exchange::Binance, KindFacts::Spot, as_of@));
        } else {
            assert(lies_at(second[j - first.len()], Exchange::Binance, KindFacts::Swap, as_of@));
        }
    }
}

/// Requests go to the test network just where that is wanted, and for Aster and Binance to a given
/// address before all.
pub proof fn requests_go_where_they_should(aster: AsterConfig, bybit: BybitConfig, binance: BinanceConfig)
    ensures
        bybit.testnet ==> bybit.base() == "https://api-testnet.bybit.com"@,
        !bybit.testnet ==> bybit.base() == "https://api.bybit.com"@,
        aster.futures_base_url matches Some(url) ==> aster.base() == url@,
        aster.futures_base_url is None && aster.testnet ==> aster.base() == "https://fapi.asterdex-testnet.com"@,
        aster.futures_base_url is None && !aster.testnet ==> aster.base() == "https://fapi.asterdex.com"@,
        aster.testnet ==> aster.stream() == "wss://fstream.asterdex-testnet.com"@,
        !aster.testnet ==> aster.stream() == "wss://fstream.asterdex.com"@,
        binance.futures_base_url matches Some(url) ==> binance.base_of(InstrumentType::Swap) == url@,
        binance.spot_base_url matches Some(url) ==> binance.base_of(InstrumentType::Spot) == url@,
        binance.futures_base_url is None && binance.testnet ==> binance.base_of(InstrumentType::Swap)
            == "https://testnet.binancefuture.com"@,
        binance.futures_base_url is None && !binance.testnet ==> binance.base_of(InstrumentType::Swap)
            == "https://fapi.binance.com"@,
        binance.spot_base_url is None && binance.testnet ==> binance.base_of(InstrumentType::Spot)
            == "https://testnet.binance.vision"@,
        binance.spot_base_url is None && !binance.testnet ==> binance.base_of(InstrumentType::Spot)
            == "https://api.binance.com"@,
        binance.testnet ==> binance.stream_of(InstrumentType::Swap) == "wss://stream.binancefuture.com"@,
        !binance.testnet ==> binance.stream_of(InstrumentType::Swap) == "wss://fstream.binance.com"@,
        binance.testnet ==> binance.stream_of(InstrumentType::Spot) == "wss://testnet.binance.vision:443"@,
        !binance.testnet ==> binance.stream_of(InstrumentType::Spot) == "wss://stream.binance.com:9443"@,
{
}

/// An authenticator signs with the key as the key and the secret as the secret, and there is one
/// only where both are set.
pub proof fn credentials_are_not_mixed_up(
    bybit: BybitConfig,
    bybit_auth: BybitHmacAuth,
    aster: AsterConfig,
    aster_auth: AsterHmacAuth,
    binance: BinanceConfig,
    binance_auth: BinanceHmacAuth,
)
    requires
        bybit.signs(bybit_auth),
        aster.signs(aster_auth),
        binance.signs(binance_auth),
    ensures
        bybit.has_credentials(),
        bybit.api_key matches Some(key) && key@ == bybit_auth.key(),
        bybit.api_secret matches Some(secret) && secret@ == bybit_auth.secret(),
        bybit_auth.window() == bybit.recv_window,
        aster.has_credentials(),
        aster.api_key matches Some(key) && key@ == aster_auth.key(),
        aster.api_secret matches Some(secret) && secret@ == aster_auth.secret(),
        binance.has_credentials(),
        binance.api_key matches Some(key) && key@ == binance_auth.key(),
        binance.api_secret matches Some(secret) && secret@ == binance_auth.secret(),
{
}

/// Binance trades on both markets unless it is kept to one, and then not on the other.
pub proof fn mode_keeps_to_its_market(mode: BinanceApiMode)
    ensures
        mode.trades(InstrumentType::Spot) || mode.trades(InstrumentType::Swap),
        mode == BinanceApiMode::Both <==> mode.trades(InstrumentType::Spot) && mode.trades(InstrumentType::Swap),
        mode == BinanceApiMode::Spot <==> !mode.trades(InstrumentType::Swap),
        mode == BinanceApiMode::Futures <==> !mode.trades(InstrumentType::Spot),
{
}

} // verus!
