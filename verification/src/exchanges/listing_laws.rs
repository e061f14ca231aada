use vstd::prelude::*;

use crate::decimal;
use crate::exchanges::aster;
use crate::exchanges::aster::types::{AsterFundingInfo, AsterOrderResponse, AsterSymbolInfo};
use crate::exchanges::binance;
use crate::exchanges::binance::types::{BinanceFundingInfo, BinanceFuturesSymbol, BinanceSpotSymbol};
use crate::exchanges::bybit;
use crate::exchanges::bybit::types::{BybitInstrumentInfo, BybitOrderEntry};
use crate::exchanges::codec;
use crate::exchanges::common;
use crate::exchanges::common::InstrumentFacts;
use crate::kinds::{Exchange, InstrumentType};
use crate::types::InstrumentKey;

verus! {

/// Whether an instrument is the one that a symbol names: a future, or a market of spot, of an
/// exchange.
pub open spec fn is_named(i: InstrumentFacts, exchange: Exchange, kind: InstrumentType, symbol: Seq<char>) -> bool {
    i.key.exchange == exchange && i.key.instrument_type == kind && i.exchange_symbol == symbol
}

/// Every future that Aster lists is of a symbol that is open for trading.
pub proof fn aster_lists_only_open_futures(symbols: Seq<AsterSymbolInfo>, funding: Seq<AsterFundingInfo>, j: int)
    requires
        0 <= j < aster::client::listed_swaps(symbols, funding).len(),
    ensures
        exists|k: int|
            0 <= k < symbols.len() && (#[trigger] symbols[k]).status@ == "TRADING"@ && is_named(
                aster::client::listed_swaps(symbols, funding)[j],
                Exchange::Aster,
                InstrumentType::Swap,
                symbols[k].symbol@,
            ),
    decreases symbols.len(),
{
    let front = symbols.drop_last();
    if j < aster::client::listed_swaps(front, funding).len() {
        aster_lists_only_open_futures(front, funding, j);
        let k = choose|k: int|
            0 <= k < front.len() && (#[trigger] front[k]).status@ == "TRADING"@ && is_named(
                aster::client::listed_swaps(front, funding)[j],
                Exchange::Aster,
                InstrumentType::Swap,
                front[k].symbol@,
            );
        assert(symbols[k] == front[k]);
    } else {
        assert(symbols[symbols.len() - 1].status@ == "TRADING"@);
    }
}

/// Every future of Aster that is known and open for trading is listed.
pub proof fn aster_lists_every_open_future(symbols: Seq<AsterSymbolInfo>, funding: Seq<AsterFundingInfo>, k: int)
    requires
        0 <= k < symbols.len(),
        symbols[k].status@ == "TRADING"@,
        aster::types::swap_of(symbols[k], aster::client::hours_of(funding, symbols[k].symbol@)) is Some,
    ensures
        exists|j: int|
            0 <= j < aster::client::listed_swaps(symbols, funding).len() && is_named(
                #[trigger] aster::client::listed_swaps(symbols, funding)[j],
                Exchange::Aster,
                InstrumentType::Swap,
                symbols[k].symbol@,
            ),
    decreases symbols.len(),
{
    let front = symbols.drop_last();
    let all = aster::client::listed_swaps(symbols, funding);
    let rest = aster::client::listed_swaps(front, funding);
    if k < front.len() {
        assert(front[k] == symbols[k]);
        aster_lists_every_open_future(front, funding, k);
        let j = choose|j: int|
            0 <= j < rest.len() && is_named(
                #[trigger] rest[j],
                Exchange::Aster,
                InstrumentType::Swap,
                front[k].symbol@,
            );
        assert(all[j] == rest[j]);
    } else {
        assert(is_named(all[rest.len() as int], Exchange::Aster, InstrumentType::Swap, symbols[k].symbol@));
    }
}

/// Every future that Bybit lists is a linear perpetual that is open for trading.
pub proof fn bybit_lists_only_open_futures(page: Seq<BybitInstrumentInfo>, j: int)
    requires
        0 <= j < bybit::client::listed_swaps(page).len(),
    ensures
        exists|k: int|
            0 <= k < page.len() && (#[trigger] page[k]).status@ == "Trading"@ && page[k].contract_type@
                == "LinearPerpetual"@ && is_named(
                bybit::client::listed_swaps(page)[j],
                Exchange::Bybit,
                InstrumentType::Swap,
                page[k].symbol@,
            ),
    decreases page.len(),
{
    let front = page.drop_last();
    if j < bybit::client::listed_swaps(front).len() {
        bybit_lists_only_open_futures(front, j);
        let k = choose|k: int|
            0 <= k < front.len() && (#[trigger] front[k]).status@ == "Trading"@ && front[k].contract_type@
                == "LinearPerpetual"@ && is_named(
                bybit::client::listed_swaps(front)[j],
                Exchange::Bybit,
                InstrumentType::Swap,
                front[k].symbol@,
            );
        assert(page[k] == front[k]);
    } else {
        assert(page[page.len() - 1].status@ == "Trading"@);
    }
}

/// Every future of Bybit that is known and open for trading is listed.
pub proof fn bybit_lists_every_open_future(page: Seq<BybitInstrumentInfo>, k: int)
    requires
        0 <= k < page.len(),
        page[k].status@ == "Trading"@,
        bybit::types::swap_of(page[k]) is Some,
    ensures
        exists|j: int|
            0 <= j < bybit::client::listed_swaps(page).len() && is_named(
                #[trigger] bybit::client::listed_swaps(page)[j],
                Exchange::Bybit,
                InstrumentType::Swap,
                page[k].symbol@,
            ),
    decreases page.len(),
{
    let front = page.drop_last();
    let all = bybit::client::listed_swaps(page);
    let rest = bybit::client::listed_swaps(front);
    if k < front.len() {
        assert(front[k] == page[k]);
        bybit_lists_every_open_future(front, k);
        let j = choose|j: int|
            0 <= j < rest.len() && is_named(
                #[trigger] rest[j],
                Exchange::Bybit,
                InstrumentType::Swap,
                front[k].symbol@,
            );
        assert(all[j] == rest[j]);
    } else {
        assert(is_named(all[rest.len() as int], Exchange::Bybit, InstrumentType::Swap, page[k].symbol@));
    }
}

/// Every future that Binance lists is a perpetual that is open for trading.
pub proof fn binance_lists_only_open_futures(
    symbols: Seq<BinanceFuturesSymbol>,
    funding: Seq<BinanceFundingInfo>,
    listed: Seq<InstrumentFacts>,
    j: int,
)
    requires
        binance::client::listed_swaps(symbols, funding) == Ok::<_, common::Overflow>(listed),
        0 <= j < listed.len(),
    ensures
        exists|k: int|
            0 <= k < symbols.len() && (#[trigger] symbols[k]).status@ == "TRADING"@ && symbols[k].contract_type@
                == "PERPETUAL"@ && is_named(listed[j], Exchange::Binance, InstrumentType::Swap, symbols[k].symbol@),
    decreases symbols.len(),
{
    let front = symbols.drop_last();
    let rest = binance::client::listed_swaps(front, funding)->Ok_0;
    if j < rest.len() {
        binance_lists_only_open_futures(front, funding, rest, j);
        let k = choose|k: int|
            0 <= k < front.len() && (#[trigger] front[k]).status@ == "TRADING"@ && front[k].contract_type@
                == "PERPETUAL"@ && is_named(rest[j], Exchange::Binance, InstrumentType::Swap, front[k].symbol@);
        assert(symbols[k] == front[k]);
        assert(listed[j] == rest[j]);
    } else {
        assert(symbols[symbols.len() - 1].status@ == "TRADING"@);
    }
}

/// Every market of spot that Binance lists is open for trading.
pub proof fn binance_lists_only_open_spot(symbols: Seq<BinanceSpotSymbol>, j: int)
    requires
        0 <= j < binance::client::listed_spots(symbols).len(),
    ensures
        exists|k: int|
            0 <= k < symbols.len() && (#[trigger] symbols[k]).status@ == "TRADING"@ && symbols[k].is_spot_trading_allowed
                && is_named(
                binance::client::listed_spots(symbols)[j],
                Exchange::Binance,
                InstrumentType::Spot,
                symbols[k].symbol@,
            ),
    decreases symbols.len(),
{
    let front = symbols.drop_last();
    if j < binance::client::listed_spots(front).len() {
        binance_lists_only_open_spot(front, j);
        let k = choose|k: int|
            0 <= k < front.len() && (#[trigger] front[k]).status@ == "TRADING"@ && front[k].is_spot_trading_allowed
                && is_named(
                binance::client::listed_spots(front)[j],
                Exchange::Binance,
                InstrumentType::Spot,
                front[k].symbol@,
            );
        assert(symbols[k] == front[k]);
    } else {
        assert(symbols[symbols.len() - 1].status@ == "TRADING"@);
    }
}

/// Every market of spot of Binance that is known and open for trading is listed.
pub proof fn binance_lists_every_open_spot(symbols: Seq<BinanceSpotSymbol>, k: int)
    requires
        0 <= k < symbols.len(),
        symbols[k].status@ == "TRADING"@,
        symbols[k].is_spot_trading_allowed,
        binance::types::pair_of(symbols[k].base_asset@, symbols[k].quote_asset@) is Some,
    ensures
        exists|j: int|
            0 <= j < binance::client::listed_spots(symbols).len() && is_named(
                #[trigger] binance::client::listed_spots(symbols)[j],
                Exchange::Binance,
                InstrumentType::Spot,
                symbols[k].symbol@,
            ),
    decreases symbols.len(),
{
    let front = symbols.drop_last();
    let all = binance::client::listed_spots(symbols);
    let rest = binance::client::listed_spots(front);
    if k < front.len() {
        assert(front[k] == symbols[k]);
        binance_lists_every_open_spot(front, k);
        let j = choose|j: int|
            0 <= j < rest.len() && is_named(
                #[trigger] rest[j],
                Exchange::Binance,
                InstrumentType::Spot,
                front[k].symbol@,
            );
        assert(all[j] == rest[j]);
    } else {
        assert(is_named(all[rest.len() as int], Exchange::Binance, InstrumentType::Spot, symbols[k].symbol@));
    }
}

/// The orders of a list that can all be read are those of its entries, one for one and in order.
pub proof fn bybit_orders_are_as_listed(list: Seq<BybitOrderEntry>, key: InstrumentKey, now: int)
    requires
        forall|i: int|
            0 <= i < list.len() ==> bybit::mappers::told_order(
                (#[trigger] list[i]).said(),
                decimal::parsed(list[i].cum_exec_qty@),
                key,
                now,
            ) is Some,
    ensures
        bybit::client::told_orders(list, key, now).len() == list.len(),
        forall|i: int|
            0 <= i < list.len() ==> (#[trigger] bybit::client::told_orders(list, key, now)[i]).client_order_id
                == list[i].order_link_id@ && decimal::parsed(list[i].qty@) == Some(
                bybit::client::told_orders(list, key, now)[i].size,
            ) && decimal::parsed(list[i].cum_exec_qty@) == Some(
                bybit::client::told_orders(list, key, now)[i].filled_size,
            ),
    decreases list.len(),
{
    if list.len() > 0 {
        let front = list.drop_last();
        let all = bybit::client::told_orders(list, key, now);
        let rest = bybit::client::told_orders(front, key, now);
        assert forall|i: int| 0 <= i < front.len() implies bybit::mappers::told_order(
            (#[trigger] front[i]).said(),
            decimal::parsed(front[i].cum_exec_qty@),
            key,
            now,
        ) is Some by {
            assert(front[i] == list[i]);
        }
        bybit_orders_are_as_listed(front, key, now);
        assert(bybit::mappers::told_order(
            list[list.len() - 1].said(),
            decimal::parsed(list[list.len() - 1].cum_exec_qty@),
            key,
            now,
        ) is Some);
        assert forall|i: int| 0 <= i < list.len() implies (#[trigger] all[i]).client_order_id == list[i].order_link_id@
            && decimal::parsed(list[i].qty@) == Some(all[i].size) && decimal::parsed(list[i].cum_exec_qty@)
            == Some(all[i].filled_size) by {
            if i < front.len() {
                assert(front[i] == list[i]);
                assert(all[i] == rest[i]);
            }
        }
    }
}

/// The open orders that Aster lists are those of the entries, in order, each of the strategy that
/// its client identifier names.
pub proof fn aster_open_orders_are_as_listed(
    list: Seq<AsterOrderResponse>,
    key: InstrumentKey,
)
    requires
        forall|i: int|
            0 <= i < list.len() ==> codec::strategy_in((#[trigger] list[i]).client_order_id@) is Some
                && aster::mappers::replied_order(
                list[i],
                key,
                codec::strategy_in(list[i].client_order_id@)->0,
                list[i].client_order_id@,
            ) is Some,
    ensures
        aster::client::open_orders(list, key) matches Some(orders) && orders.len() == list.len() && forall|i: int|
            0 <= i < list.len() ==> (#[trigger] orders[i]).client_order_id == list[i].client_order_id@
                && codec::strategy_in(list[i].client_order_id@) == Some(orders[i].strategy_id)
                && decimal::parsed(list[i].orig_qty@) == Some(orders[i].size) && decimal::parsed(
                list[i].executed_qty@,
            ) == Some(orders[i].filled_size),
    decreases list.len(),
{
    if list.len() > 0 {
        let front = list.drop_last();
        assert forall|i: int| 0 <= i < front.len() implies codec::strategy_in((#[trigger] front[i]).client_order_id@)
            is Some && aster::mappers::replied_order(
            front[i],
            key,
            codec::strategy_in(front[i].client_order_id@)->0,
            front[i].client_order_id@,
        ) is Some by {
            assert(front[i] == list[i]);
        }
        aster_open_orders_are_as_listed(front, key);
        assert(codec::strategy_in(list[list.len() - 1].client_order_id@) is Some);
        let all = aster::client::open_orders(list, key)->0;
        let rest = aster::client::open_orders(front, key)->0;
        assert forall|i: int| 0 <= i < list.len() implies (#[trigger] all[i]).client_order_id
            == list[i].client_order_id@ && codec::strategy_in(list[i].client_order_id@) == Some(all[i].strategy_id)
            && decimal::parsed(list[i].orig_qty@) == Some(all[i].size) && decimal::parsed(
            list[i].executed_qty@,
        ) == Some(all[i].filled_size) by {
            if i < front.len() {
                assert(front[i] == list[i]);
                assert(all[i] == rest[i]);
            }
        }
    }
}

} // verus!
