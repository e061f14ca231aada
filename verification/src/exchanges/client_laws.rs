use vstd::prelude::*;

use crate::decimal;
use crate::decimal::Decimal;
use crate::exchanges::aster;
use crate::exchanges::aster::client::AsterClient;
use crate::exchanges::aster::types::AsterOrderResponse;
use crate::exchanges::binance::client::{BinanceCall, BinanceClient};
use crate::exchanges::bybit;
use crate::exchanges::bybit::client::{BybitCancelBody, BybitClient, BybitLeverageBody, BybitOrderBody};
use crate::exchanges::bybit::types::BybitOrderEntry;
use crate::exchanges::requests::ApiCall;
use crate::http::auth::Method;
use crate::kinds::{FundingInterval, InstrumentType, OrderSide};
use crate::orders::{Order, OrderRequest};
use crate::registry;
use crate::time::UtcTime;
use crate::types::InstrumentKey;

verus! {

/// The request that places an order on Bybit names the side of the order: who reads the word as the
/// exchange's own orders are read finds the side again. It is about the instrument of the order.
pub proof fn bybit_asks_for_the_side(c: BybitClient, request: OrderRequest, client_order_id: &str, body: BybitOrderBody)
    requires
        call_ensures(BybitClient::place_order, (&c, &request, client_order_id), Some(Ok(body))),
    ensures
        bybit::mappers::named_side(body.side@) == Some(request.side),
        body.side@ == "Buy"@ <==> request.side == OrderSide::Buy,
        body.side@ == "Sell"@ <==> request.side == OrderSide::Sell,
        body.order_link_id@ == client_order_id@,
        body.reduce_only == request.reduce_only,
        registry::found(c.instruments(), request.key) matches Some(i) && body.symbol@ == i.exchange_symbol@,
        c.config().has_credentials(),
{
    let i = registry::found(c.instruments(), request.key)->0;
    bybit::laws::body_side_reads_back(body, i, request, client_order_id@);
}

/// What takes an order back on Bybit is about the same symbol and the same identifier as what placed
/// it.
pub proof fn bybit_takes_back_what_it_placed(
    c: BybitClient,
    request: OrderRequest,
    id: &str,
    placed: BybitOrderBody,
    canceled: BybitCancelBody,
)
    requires
        call_ensures(BybitClient::place_order, (&c, &request, id), Some(Ok(placed))),
        call_ensures(BybitClient::cancel_order, (&c, request.key, id), Ok(canceled)),
    ensures
        canceled.symbol@ == placed.symbol@,
        canceled.order_link_id@ == placed.order_link_id@,
        canceled.category@ == placed.category@,
{
}

/// The leverage that is set on Bybit is the same for purchases and sales, and is the one that was
/// asked for.
pub proof fn bybit_sets_one_leverage(c: BybitClient, key: InstrumentKey, leverage: Decimal, body: BybitLeverageBody)
    requires
        call_ensures(BybitClient::set_leverage, (&c, key, leverage), Ok(body)),
    ensures
        body.buy_leverage@ == body.sell_leverage@,
        body.buy_leverage@ == leverage@.text(),
        registry::found(c.instruments(), key) matches Some(i) && body.symbol@ == i.exchange_symbol@,
{
}

/// An order that Bybit lists has the size that was asked for and the filled size that was executed.
pub proof fn bybit_entry_keeps_sizes_apart(entry: BybitOrderEntry, key: InstrumentKey, now: UtcTime, o: Order)
    requires
        call_ensures(bybit::mappers::bybit_order_to_order_at, (&entry, key, now), Some(o)),
    ensures
        decimal::parsed(entry.qty@) == Some(o.request.size@),
        decimal::parsed(entry.cum_exec_qty@) == Some(o.filled_size@),
        bybit::mappers::named_side(entry.side@) == Some(o.request.side),
        o.request.key == key,
{
}

/// An order that Aster tells of has the size that was asked for and the filled size that was
/// executed; where no more was executed than was asked for, no more is filled than its size.
pub proof fn aster_reply_keeps_sizes_apart(
    response: AsterOrderResponse,
    key: InstrumentKey,
    strategy_id: &str,
    internal_id: &str,
    o: Order,
)
    requires
        call_ensures(
            aster::mappers::aster_order_response_to_order,
            (&response, key, strategy_id, internal_id),
            Some(o),
        ),
    ensures
        decimal::parsed(response.orig_qty@) == Some(o.request.size@),
        decimal::parsed(response.executed_qty@) == Some(o.filled_size@),
        decimal::parsed(response.executed_qty@) matches Some(executed) ==> (decimal::parsed(response.orig_qty@) matches Some(
            asked,
        ) ==> (executed.units() <= asked.units() <==> o.filled_size@.units() <= o.request.size@.units())),
        o.request.side == OrderSide::Buy <==> response.side@ == "BUY"@,
        o.request.side == OrderSide::Sell <==> response.side@ == "SELL"@,
{
    aster::laws::reply_is_told(o, response, key, strategy_id@, internal_id@);
}

/// An order is placed on Aster by a signed request that changes something, and the request names
/// side and kind.
pub proof fn aster_places_orders(c: AsterClient, request: OrderRequest, id: &str, call: ApiCall)
    requires
        call_ensures(AsterClient::place_order, (&c, &request, id), Some(Ok(call))),
    ensures
        call.method == Method::Post,
        call.signed,
        c.config().has_credentials(),
        registry::found(c.instruments(), request.key) matches Some(i) && {
            let kind = aster::client::order_words(request).0;
            &&& request.side == OrderSide::Buy ==> aster::laws::starts_with(call.path@, i.exchange_symbol@, "BUY"@, kind)
            &&& request.side == OrderSide::Sell ==> aster::laws::starts_with(call.path@, i.exchange_symbol@, "SELL"@, kind)
        },
{
    let i = registry::found(c.instruments(), request.key)->0;
    aster::laws::path_names_side_and_kind(i, request, id@, call.path@);
}

/// Taking an order back and asking for its state go to the same place on Aster and name the same
/// order; only one of the two changes something, and both are signed.
pub proof fn aster_names_one_order(c: AsterClient, key: InstrumentKey, id: &str, canceled: ApiCall, asked: ApiCall)
    requires
        call_ensures(AsterClient::cancel_order, (&c, key, id), Ok(canceled)),
        call_ensures(AsterClient::get_order_status, (&c, key, id), Ok(asked)),
    ensures
        canceled.path@ == asked.path@,
        canceled.method == Method::Delete,
        asked.method == Method::Get,
        canceled.signed,
        asked.signed,
        id@.is_suffix_of(canceled.path@),
{
    let p = canceled.path@;
    assert(p.subrange(p.len() - id@.len(), p.len() as int) =~= id@);
}

/// Requests for different orders of one instrument differ.
pub proof fn aster_tells_orders_apart(c: AsterClient, key: InstrumentKey, a: &str, b: &str, first: ApiCall, second: ApiCall)
    requires
        call_ensures(AsterClient::cancel_order, (&c, key, a), Ok(first)),
        call_ensures(AsterClient::cancel_order, (&c, key, b), Ok(second)),
        a@ != b@,
    ensures
        first.path@ != second.path@,
{
    if first.path@ == second.path@ {
        let p = first.path@;
        let i = registry::found(c.instruments(), key)->0;
        let head = "/fapi/v1/order?symbol="@ + i.exchange_symbol@ + "&origClientOrderId="@;
        assert(first.path@ =~= head + a@);
        assert(second.path@ =~= head + b@);
        assert(a@.len() == b@.len());
        assert(a@ =~= p.subrange(p.len() - a@.len(), p.len() as int));
        assert(b@ =~= p.subrange(p.len() - b@.len(), p.len() as int));
    }
}

/// Market data are asked for without a signature and change nothing; what is known of an account is
/// asked for with one.
pub proof fn aster_signs_only_what_is_private(
    c: AsterClient,
    key: InstrumentKey,
    rate: ApiCall,
    interval: FundingInterval,
    book: ApiCall,
    balances: ApiCall,
    positions: ApiCall,
)
    requires
        call_ensures(AsterClient::funding_rate_snapshot, (&c, key), Ok((rate, interval))),
        call_ensures(AsterClient::fetch_order_book, (&c, key), Ok(book)),
        call_ensures(AsterClient::account_call, (&c,), Ok(balances)),
        call_ensures(AsterClient::positions_call, (&c,), Ok(positions)),
    ensures
        !rate.signed && rate.method == Method::Get,
        !book.signed && book.method == Method::Get,
        balances.signed && balances.method == Method::Get,
        positions.signed && positions.method == Method::Get,
        key.instrument_type == InstrumentType::Swap,
{
}

/// As for Aster, market data of Bybit are asked for without a signature and an account's with one.
pub proof fn bybit_signs_only_what_is_private(
    c: BybitClient,
    key: InstrumentKey,
    rate: ApiCall,
    interval: FundingInterval,
    book: ApiCall,
    balances: ApiCall,
    positions: ApiCall,
    orders: ApiCall,
)
    requires
        call_ensures(BybitClient::funding_rate_snapshot, (&c, key), Ok((rate, interval))),
        call_ensures(BybitClient::fetch_order_book, (&c, key), Ok(book)),
        call_ensures(BybitClient::account_call, (&c,), Ok(balances)),
        call_ensures(BybitClient::positions_call, (&c,), Ok(positions)),
        call_ensures(BybitClient::get_open_orders, (&c, key), Ok(orders)),
    ensures
        !rate.signed && rate.method == Method::Get,
        !book.signed && book.method == Method::Get,
        balances.signed && balances.method == Method::Get,
        positions.signed && positions.method == Method::Get,
        orders.signed && orders.method == Method::Get,
        key.instrument_type == InstrumentType::Swap,
{
}

/// An order book of Binance is asked for on the market of the instrument, and each market has its
/// own address.
pub proof fn binance_asks_the_right_market(c: BinanceClient, key: InstrumentKey, book: BinanceCall)
    requires
        call_ensures(BinanceClient::fetch_order_book, (&c, key), Ok(book)),
    ensures
        book.market == key.instrument_type,
        !book.signed,
        c.config().mode.trades(key.instrument_type),
        key.instrument_type == InstrumentType::Swap ==> ("/fapi/"@).is_prefix_of(book.path@),
        key.instrument_type == InstrumentType::Spot ==> ("/api/"@).is_prefix_of(book.path@),
{
    reveal_strlit("/fapi/");
    reveal_strlit("/api/");
    reveal_strlit("/fapi/v1/depth?symbol=");
    reveal_strlit("/api/v3/depth?symbol=");
    if key.instrument_type == InstrumentType::Swap {
        assert(book.path@.subrange(0, 6) =~= "/fapi/"@);
    } else {
        assert(book.path@.subrange(0, 5) =~= "/api/"@);
    }
}

} // verus!
