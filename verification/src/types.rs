use vstd::prelude::*;

use crate::decimal;
use crate::decimal::{Dec, Decimal};
pub use crate::kinds::{
    Currency, Exchange, ExecutionMode, FundingInterval, InstrumentType, OrderSide, OrderStatus, OrderType, Pairs,
};
use crate::text;
use crate::text::{concat, split, to_ascii_lower};
use crate::time::UtcTime;
use vstd::string::*;

verus! {

/// What an instrument is found by.
#[derive(Clone, Copy, Debug, PartialEq, Eq, Hash, Structural)]
pub struct InstrumentKey {
    pub exchange: Exchange,
    pub pair: Pairs,
    pub instrument_type: InstrumentType,
}

impl Default for InstrumentKey {
    fn default() -> (r: InstrumentKey)
        ensures
            r == InstrumentKey::default_key(),
    {
        InstrumentKey { exchange: Exchange::Binance, pair: Pairs::BTCUSDT, instrument_type: InstrumentType::Spot }
    }
}

impl Exchange {
    /// The exchange's name as error messages give it.
    pub open spec fn variant(self) -> Seq<char> {
        match self {
            Exchange::Binance => "Binance"@,
            Exchange::Bybit => "Bybit"@,
            Exchange::Gateio => "Gateio"@,
            Exchange::Aster => "Aster"@,
            Exchange::Okx => "Okx"@,
        }
    }

    pub fn variant_name(&self) -> (r: &'static str)
        ensures
            r@ == self.variant(),
    {
        match self {
            Exchange::Binance => "Binance",
            Exchange::Bybit => "Bybit",
            Exchange::Gateio => "Gateio",
            Exchange::Aster => "Aster",
            Exchange::Okx => "Okx",
        }
    }
}

impl InstrumentType {
    /// The kind in upper case, as keys are written.
    pub open spec fn upper_text(self) -> Seq<char> {
        match self {
            InstrumentType::Spot => "SPOT"@,
            InstrumentType::Swap => "SWAP"@,
        }
    }

    pub fn to_upper_string(&self) -> (r: String)
        ensures
            r@ == self.upper_text(),
    {
        match self {
            InstrumentType::Spot => "SPOT".to_owned(),
            InstrumentType::Swap => "SWAP".to_owned(),
        }
    }
}

impl InstrumentKey {
    pub open spec fn default_key() -> InstrumentKey {
        InstrumentKey { exchange: Exchange::Binance, pair: Pairs::BTCUSDT, instrument_type: InstrumentType::Spot }
    }

    /// A key in writing: pair, exchange code and kind, joined by hyphens.
    pub open spec fn text(self) -> Seq<char> {
        self.pair.text() + seq!['-'] + self.exchange.code() + seq!['-'] + self.instrument_type.upper_text()
    }

    /// The key that a text denotes: three pieces between hyphens, the kind in any case. Else the
    /// message that says which piece is at fault, the first one first.
    pub open spec fn read(s: Seq<char>) -> Result<InstrumentKey, Seq<char>> {
        let parts = text::pieces(s, '-');
        if parts.len() != 3 {
            Err("Invalid InstrumentKey format: "@ + s)
        } else {
            match (Pairs::named(parts[0]), Exchange::named(parts[1]), InstrumentType::named(text::ascii_lower(parts[2]))) {
                (None, _, _) => Err("Invalid pair: "@ + parts[0]),
                (_, None, _) => Err("Invalid exchange short code: "@ + parts[1]),
                (_, _, None) => Err("Invalid instrument type: "@ + parts[2]),
                (Some(pair), Some(exchange), Some(instrument_type)) => Ok(
                    InstrumentKey { exchange, pair, instrument_type },
                ),
            }
        }
    }

    pub fn to_string(&self) -> (r: String)
        ensures
            r@ == self.text(),
    {
        let mut out = self.pair.to_string();
        out.push('-');
        out.append(self.exchange.short_code());
        out.push('-');
        out.append(self.instrument_type.to_upper_string().as_str());
        assert(out@ =~= self.text());
        out
    }

    pub fn from_str(s: &str) -> (r: Result<InstrumentKey, String>)
        ensures
            match r {
                Ok(key) => InstrumentKey::read(s@) == Ok::<InstrumentKey, Seq<char>>(key),
                Err(message) => InstrumentKey::read(s@) == Err::<InstrumentKey, Seq<char>>(message@),
            },
    {
        let parts = split(s, '-');
        if parts.len() != 3 {
            return Err(concat("Invalid InstrumentKey format: ", s));
        }
        let pair = match Pairs::from_str(parts[0].as_str()) {
            Some(pair) => pair,
            None => return Err(concat("Invalid pair: ", parts[0].as_str())),
        };
        let exchange = match Exchange::from_str(parts[1].as_str()) {
            Some(exchange) => exchange,
            None => return Err(concat("Invalid exchange short code: ", parts[1].as_str())),
        };
        let kind = to_ascii_lower(parts[2].as_str());
        let instrument_type = match InstrumentType::from_str(kind.as_str()) {
            Some(instrument_type) => instrument_type,
            None => return Err(concat("Invalid instrument type: ", parts[2].as_str())),
        };
        Ok(InstrumentKey { exchange, pair, instrument_type })
    }
}

/// Reading back what `InstrumentKey::to_string` writes gives the same key.
pub proof fn instrument_key_text_round_trip(key: InstrumentKey)
    ensures
        InstrumentKey::read(key.text()) == Ok::<InstrumentKey, Seq<char>>(key),
{
    reveal_strlit("BTCUSDT");
    reveal_strlit("ETHUSDT");
    reveal_strlit("XRPUSDT");
    reveal_strlit("USDCUSDT");
    reveal_strlit("SOLUSDT");
    reveal_strlit("BN");
    reveal_strlit("BY");
    reveal_strlit("GT");
    reveal_strlit("AS");
    reveal_strlit("OK");
    reveal_strlit("SPOT");
    reveal_strlit("SWAP");
    reveal_strlit("spot");
    reveal_strlit("swap");
    let pair = key.pair.text();
    let code = key.exchange.code();
    let kind = key.instrument_type.upper_text();
    assert(!pair.contains('-'));
    assert(!code.contains('-'));
    assert(!kind.contains('-'));
    text::pieces_of_plain(pair, '-');
    text::pieces_after_separator(pair, code, '-');
    text::pieces_after_separator(pair + seq!['-'] + code, kind, '-');
    assert(text::pieces(key.text(), '-') =~= seq![pair, code, kind]);
    crate::kinds::pairs_text_round_trip(key.pair);
    crate::kinds::exchange_text_round_trip(key.exchange);
    crate::kinds::instrumenttype_text_round_trip(key.instrument_type);
    assert(text::ascii_lower(kind) =~= key.instrument_type.text());
}

/// What an exchange says of one of its instruments.
#[derive(Debug, PartialEq)]
pub struct Instrument {
    pub key: InstrumentKey,
    pub exchange_symbol: String,
    pub exchange_id: String,
    pub tick_size: Decimal,
    pub lot_size: Decimal,
    pub min_notional: Option<Decimal>,
    pub contract_size: Option<Decimal>,
    pub multiplier: Decimal,
    pub funding_interval: Option<FundingInterval>,
}

impl Clone for Instrument {
    fn clone(&self) -> (r: Instrument)
        ensures
            r == *self,
    {
        Instrument {
            key: self.key,
            exchange_symbol: self.exchange_symbol.clone(),
            exchange_id: self.exchange_id.clone(),
            tick_size: self.tick_size,
            lot_size: self.lot_size,
            min_notional: self.min_notional,
            contract_size: self.contract_size,
            multiplier: self.multiplier,
            funding_interval: self.funding_interval,
        }
    }
}

/// The nearest multiple of a tick size, without trailing zeros. `None` where a step overflows or
/// the tick size is zero.
pub open spec fn price_on_tick(price: Dec, tick_size: Dec) -> Option<Dec> {
    match price.quotient(tick_size) {
        None => None,
        Some(steps) => match steps.round().product(tick_size) {
            None => None,
            Some(on_tick) => Some(on_tick.normalized()),
        },
    }
}

/// A quantity cut down to a multiple of a lot size, without trailing zeros. `None` where a step
/// overflows or the lot size is zero.
pub open spec fn quantity_in_lots(quantity: Dec, lot_size: Dec) -> Option<Dec> {
    match quantity.quotient(lot_size) {
        None => None,
        Some(lots) => match lots.floor().product(lot_size) {
            None => None,
            Some(whole) => Some(whole.normalized()),
        },
    }
}

/// A price that was put on its tick is a whole multiple of the tick size, wherever the multiple
/// is a number that fits.
pub proof fn normalized_price_is_on_tick(price: Dec, tick_size: Dec)
    requires
        tick_size.wf(),
        price.quotient(tick_size) is Some,
        (price.quotient(tick_size)->0).round().multiplies_exactly(tick_size),
    ensures
        price_on_tick(price, tick_size) is Some,
        exists|k: int| crate::decimal_laws::is_multiple(price_on_tick(price, tick_size)->0, k, tick_size),
{
    let k = (price.quotient(tick_size)->0).round().m;
    let multiple = (price.quotient(tick_size)->0).round().product(tick_size)->0;
    crate::decimal_laws::whole_multiple_units(k, tick_size);
    crate::decimal_laws::normalized_keeps_units(multiple);
    assert(crate::decimal_laws::is_multiple(price_on_tick(price, tick_size)->0, k, tick_size));
}

/// A quantity that was cut to lots is a whole multiple of the lot size, wherever the multiple
/// is a number that fits.
pub proof fn normalized_quantity_is_in_lots(quantity: Dec, lot_size: Dec)
    requires
        lot_size.wf(),
        quantity.quotient(lot_size) is Some,
        (quantity.quotient(lot_size)->0).floor().multiplies_exactly(lot_size),
    ensures
        quantity_in_lots(quantity, lot_size) is Some,
        exists|k: int| crate::decimal_laws::is_multiple(quantity_in_lots(quantity, lot_size)->0, k, lot_size),
{
    let k = (quantity.quotient(lot_size)->0).floor().m;
    let multiple = (quantity.quotient(lot_size)->0).floor().product(lot_size)->0;
    crate::decimal_laws::whole_multiple_units(k, lot_size);
    crate::decimal_laws::normalized_keeps_units(multiple);
    assert(crate::decimal_laws::is_multiple(quantity_in_lots(quantity, lot_size)->0, k, lot_size));
}

/// Where its quotient by the lot size is exact, a normalized quantity is the largest whole number
/// of lots that is not above the quantity.
pub proof fn normalized_quantity_is_largest(quantity: Dec, lot_size: Dec)
    requires
        lot_size.wf(),
        lot_size.m > 0,
        crate::decimal_laws::divides(quantity, lot_size),
        (quantity.quotient(lot_size)->0).floor().multiplies_exactly(lot_size),
    ensures
        quantity_in_lots(quantity, lot_size) matches Some(r) && (exists|n: int|
            crate::decimal_laws::is_multiple(r, n, lot_size)) && r.units() <= quantity.units() < r.units()
            + lot_size.units(),
{
    let n = (quantity.quotient(lot_size)->0).floor().m;
    let multiple = (quantity.quotient(lot_size)->0).floor().product(lot_size)->0;
    crate::decimal_laws::units_have_sign(lot_size);
    crate::decimal_laws::floor_is_largest(quantity, lot_size);
    crate::decimal_laws::whole_multiple_units(n, lot_size);
    crate::decimal_laws::normalized_keeps_units(multiple);
    let x = lot_size.units();
    assert((n + 1) * x == n * x + x) by (nonlinear_arith);
    assert(crate::decimal_laws::is_multiple(quantity_in_lots(quantity, lot_size)->0, n, lot_size));
}

/// A quantity that was normalized stays as it is when it is normalized again.
pub proof fn normalizing_quantity_twice_is_once(quantity: Dec, lot_size: Dec)
    requires
        lot_size.wf(),
        lot_size.m > 0,
        quantity.quotient(lot_size) is Some,
        (quantity.quotient(lot_size)->0).floor().wf(),
        (quantity.quotient(lot_size)->0).floor().multiplies_exactly(lot_size),
    ensures
        quantity_in_lots(quantity_in_lots(quantity, lot_size)->0, lot_size) == quantity_in_lots(quantity, lot_size),
{
    let n = (quantity.quotient(lot_size)->0).floor().m;
    let multiple = (quantity.quotient(lot_size)->0).floor().product(lot_size)->0;
    crate::decimal_laws::units_have_sign(lot_size);
    crate::decimal_laws::whole_multiple_units(n, lot_size);
    crate::decimal_laws::normalized_keeps_units(multiple);
    crate::decimal_laws::multiples_divide(multiple.normalized(), n, lot_size);
    crate::decimal_laws::steps_divide_evenly(multiple.normalized(), n, lot_size);
}

/// Where its quotient by the tick size is exact, a normalized price is the nearest tick, the even
/// one of two that are equally near.
pub proof fn normalized_price_is_nearest(price: Dec, tick_size: Dec)
    requires
        tick_size.wf(),
        tick_size.m > 0,
        crate::decimal_laws::divides(price, tick_size),
        (price.quotient(tick_size)->0).round().multiplies_exactly(tick_size),
    ensures
        price_on_tick(price, tick_size) matches Some(r) && exists|n: int| #[trigger]
            crate::decimal_laws::is_multiple(r, n, tick_size) && ({
                let off = 2 * (price.units() - r.units());
                -tick_size.units() <= off <= tick_size.units() && (off == tick_size.units() || off == -tick_size.units()
                    ==> n % 2 == 0)
            }),
{
    let n = (price.quotient(tick_size)->0).round().m;
    let multiple = (price.quotient(tick_size)->0).round().product(tick_size)->0;
    crate::decimal_laws::units_have_sign(tick_size);
    crate::decimal_laws::round_is_nearest(price, tick_size);
    crate::decimal_laws::whole_multiple_units(n, tick_size);
    crate::decimal_laws::normalized_keeps_units(multiple);
    assert(crate::decimal_laws::is_multiple(price_on_tick(price, tick_size)->0, n, tick_size));
}

/// A price that was normalized stays as it is when it is normalized again.
pub proof fn normalizing_price_twice_is_once(price: Dec, tick_size: Dec)
    requires
        tick_size.wf(),
        tick_size.m > 0,
        price.quotient(tick_size) is Some,
        (price.quotient(tick_size)->0).round().wf(),
        (price.quotient(tick_size)->0).round().multiplies_exactly(tick_size),
    ensures
        price_on_tick(price_on_tick(price, tick_size)->0, tick_size) == price_on_tick(price, tick_size),
{
    let n = (price.quotient(tick_size)->0).round().m;
    let multiple = (price.quotient(tick_size)->0).round().product(tick_size)->0;
    crate::decimal_laws::units_have_sign(tick_size);
    crate::decimal_laws::whole_multiple_units(n, tick_size);
    crate::decimal_laws::normalized_keeps_units(multiple);
    crate::decimal_laws::multiples_divide(multiple.normalized(), n, tick_size);
    crate::decimal_laws::steps_divide_evenly(multiple.normalized(), n, tick_size);
}

/// Whether an order's notional value is zero or reaches the minimum; without a minimum any does.
/// `None` where the value overflows.
pub open spec fn notional_valid(min_notional: Option<Dec>, price: Dec, quantity: Dec) -> Option<bool> {
    match min_notional {
        None => Some(true),
        Some(min) => match price.product(quantity) {
            None => None,
            Some(notional) => Some(notional.is_zero() || min.le(notional)),
        },
    }
}

impl Instrument {
    /// The price on the nearest tick.
    pub fn normalize_price(&self, price: Decimal) -> (r: Decimal)
        requires
            price_on_tick(price@, self.tick_size@) is Some,
        ensures
            Some(r@) == price_on_tick(price@, self.tick_size@),
    {
        let steps = price.checked_div(self.tick_size).unwrap().round();
        steps.checked_mul(self.tick_size).unwrap().normalize()
    }

    /// The price on the nearest tick, or `None` where the arithmetic overflows.
    pub fn checked_normalize_price(&self, price: Decimal) -> (r: Option<Decimal>)
        ensures
            decimal::view_opt(r) == price_on_tick(price@, self.tick_size@),
    {
        let steps = match price.checked_div(self.tick_size) {
            Some(q) => q.round(),
            None => return None,
        };
        match steps.checked_mul(self.tick_size) {
            Some(_) => Some(self.normalize_price(price)),
            None => None,
        }
    }

    /// The quantity cut down to whole lots.
    pub fn normalize_quantity(&self, quantity: Decimal) -> (r: Decimal)
        requires
            quantity_in_lots(quantity@, self.lot_size@) is Some,
        ensures
            Some(r@) == quantity_in_lots(quantity@, self.lot_size@),
    {
        let lots = quantity.checked_div(self.lot_size).unwrap().floor();
        lots.checked_mul(self.lot_size).unwrap().normalize()
    }

    /// The quantity cut down to whole lots, or `None` where the arithmetic overflows.
    pub fn checked_normalize_quantity(&self, quantity: Decimal) -> (r: Option<Decimal>)
        ensures
            decimal::view_opt(r) == quantity_in_lots(quantity@, self.lot_size@),
    {
        let lots = match quantity.checked_div(self.lot_size) {
            Some(q) => q.floor(),
            None => return None,
        };
        match lots.checked_mul(self.lot_size) {
            Some(_) => Some(self.normalize_quantity(quantity)),
            None => None,
        }
    }

    /// Whether an order of this value may be placed.
    pub fn is_notional_valid(&self, price: Decimal, quantity: Decimal) -> (r: bool)
        requires
            notional_valid(decimal::view_opt(self.min_notional), price@, quantity@) is Some,
        ensures
            Some(r) == notional_valid(decimal::view_opt(self.min_notional), price@, quantity@),
    {
        match self.min_notional {
            Some(min) => {
                let notional = price.checked_mul(quantity).unwrap();
                notional.is_zero() || min.at_most(notional)
            },
            None => true,
        }
    }

    /// Whether an order of this value may be placed, or `None` where its value overflows.
    pub fn checked_is_notional_valid(&self, price: Decimal, quantity: Decimal) -> (r: Option<bool>)
        ensures
            r == notional_valid(decimal::view_opt(self.min_notional), price@, quantity@),
    {
        match self.min_notional {
            Some(_) => match price.checked_mul(quantity) {
                Some(_) => Some(self.is_notional_valid(price, quantity)),
                None => None,
            },
            None => Some(true),
        }
    }
}

#[derive(Clone, Debug, PartialEq)]
pub struct FundingRatePoint {
    pub funding_rate: Decimal,
    pub event_time_utc: UtcTime,
    pub event_time_ms: i64,
}

#[derive(Clone, Copy, Debug, PartialEq)]
pub struct FundingRateSnapshot {
    pub key: InstrumentKey,
    pub funding_rate: Decimal,
    pub mark_price: Decimal,
    pub index_price: Decimal,
    pub interest_rate: Option<Decimal>,
    pub next_funding_time_utc: UtcTime,
    pub next_funding_time_ms: i64,
    pub event_time_utc: UtcTime,
    pub event_time_ms: i64,
    pub interval: FundingInterval,
}

#[derive(Clone, Debug, PartialEq)]
pub struct FundingRateSeries {
    pub key: InstrumentKey,
    pub interval: FundingInterval,
    pub points: Vec<FundingRatePoint>,
}

/// A price in an order book and the quantity on offer there.
#[derive(Clone, Copy, Debug, PartialEq)]
pub struct PriceLevel {
    pub price: Decimal,
    pub quantity: Decimal,
}

#[derive(Clone, Debug, PartialEq)]
pub struct Ticker {
    pub key: InstrumentKey,
    pub price: Decimal,
    pub volume_24h: Option<Decimal>,
    pub timestamp: UtcTime,
}

#[derive(Clone, Debug, PartialEq)]
pub struct Trade {
    pub key: InstrumentKey,
    pub trade_id: String,
    pub price: Decimal,
    pub size: Decimal,
    pub side: OrderSide,
    pub timestamp: UtcTime,
}

/// The best levels of an order book, with what follows from the first of each side.
#[derive(Debug, PartialEq)]
pub struct OrderBookSnapshot {
    pub key: InstrumentKey,
    /// Bids, the best first.
    pub bids: Vec<PriceLevel>,
    /// Asks, the best first.
    pub asks: Vec<PriceLevel>,
    pub best_bid: Option<Decimal>,
    pub best_ask: Option<Decimal>,
    pub mid: Option<Decimal>,
    pub spread: Option<Decimal>,
    pub timestamp_utc: UtcTime,
    pub timestamp_ms: i64,
}

/// A copy of a list of levels.
pub fn copy_levels(levels: &Vec<PriceLevel>) -> (r: Vec<PriceLevel>)
    ensures
        r@ == levels@,
{
    let mut out: Vec<PriceLevel> = Vec::new();
    for i in 0..levels.len()
        invariant
            out@ == levels@.take(i as int),
    {
        out.push(levels[i]);
        assert(levels@.take(i as int).push(levels@[i as int]) =~= levels@.take(i + 1));
    }
    assert(levels@.take(levels@.len() as int) =~= levels@);
    out
}

impl Clone for OrderBookSnapshot {
    fn clone(&self) -> (r: OrderBookSnapshot)
        ensures
            r.same_book(*self),
    {
        OrderBookSnapshot {
            key: self.key,
            bids: copy_levels(&self.bids),
            asks: copy_levels(&self.asks),
            best_bid: self.best_bid,
            best_ask: self.best_ask,
            mid: self.mid,
            spread: self.spread,
            timestamp_utc: self.timestamp_utc,
            timestamp_ms: self.timestamp_ms,
        }
    }
}

/// The price of the first level.
pub open spec fn top_price(levels: Seq<PriceLevel>) -> Option<Dec> {
    if levels.len() == 0 {
        None
    } else {
        Some(levels[0].price@)
    }
}

/// Half way between two prices. `None` where the arithmetic overflows.
pub open spec fn mid_price(bid: Dec, ask: Dec) -> Option<Dec> {
    match bid.sum(ask) {
        None => None,
        Some(total) => total.quotient(Dec::two()),
    }
}

/// Whether mid-price and spread of a book can be computed: a book with an empty side has
/// neither, any other must not overflow.
pub open spec fn book_computes(bids: Seq<PriceLevel>, asks: Seq<PriceLevel>) -> bool {
    match (top_price(bids), top_price(asks)) {
        (Some(bid), Some(ask)) => mid_price(bid, ask) is Some && ask.difference(bid) is Some,
        _ => true,
    }
}

impl OrderBookSnapshot {
    /// Equal field by field, the levels one by one.
    pub open spec fn same_book(self, other: OrderBookSnapshot) -> bool {
        &&& self.key == other.key
        &&& self.bids@ == other.bids@
        &&& self.asks@ == other.asks@
        &&& self.best_bid == other.best_bid
        &&& self.best_ask == other.best_ask
        &&& self.mid == other.mid
        &&& self.spread == other.spread
        &&& self.timestamp_utc == other.timestamp_utc
        &&& self.timestamp_ms == other.timestamp_ms
    }

    /// The snapshot of a book: its levels as given and the derived prices, which are present
    /// exactly where the sides that they come from are.
    pub open spec fn is_book(
        self,
        key: InstrumentKey,
        bids: Seq<PriceLevel>,
        asks: Seq<PriceLevel>,
        timestamp_utc: UtcTime,
        timestamp_ms: i64,
    ) -> bool {
        &&& self.key == key
        &&& self.bids@ == bids
        &&& self.asks@ == asks
        &&& decimal::view_opt(self.best_bid) == top_price(bids)
        &&& decimal::view_opt(self.best_ask) == top_price(asks)
        &&& match (top_price(bids), top_price(asks)) {
            (Some(bid), Some(ask)) => {
                &&& decimal::view_opt(self.mid) == mid_price(bid, ask)
                &&& decimal::view_opt(self.spread) == ask.difference(bid)
            },
            _ => self.mid is None && self.spread is None,
        }
        &&& self.timestamp_utc == timestamp_utc
        &&& self.timestamp_ms == timestamp_ms
    }

    /// The snapshot of a book with its derived prices filled in.
    pub fn new(
        key: InstrumentKey,
        bids: Vec<PriceLevel>,
        asks: Vec<PriceLevel>,
        timestamp_utc: UtcTime,
        timestamp_ms: i64,
    ) -> (r: OrderBookSnapshot)
        requires
            book_computes(bids@, asks@),
        ensures
            r.is_book(key, bids@, asks@, timestamp_utc, timestamp_ms),
            r.bids == bids,
            r.asks == asks,
    {
        let best_bid = if bids.len() == 0 { None } else { Some(bids[0].price) };
        let best_ask = if asks.len() == 0 { None } else { Some(asks[0].price) };
        let (mid, spread) = match (best_bid, best_ask) {
            (Some(bid), Some(ask)) => (
                Some(bid.checked_add(ask).unwrap().checked_div(Decimal::two()).unwrap()),
                Some(ask.checked_sub(bid).unwrap()),
            ),
            _ => (None, None),
        };
        OrderBookSnapshot { key, bids, asks, best_bid, best_ask, mid, spread, timestamp_utc, timestamp_ms }
    }

    /// The snapshot of a book, or `None` where mid-price or spread overflow.
    pub fn checked_new(
        key: InstrumentKey,
        bids: Vec<PriceLevel>,
        asks: Vec<PriceLevel>,
        timestamp_utc: UtcTime,
        timestamp_ms: i64,
    ) -> (r: Option<OrderBookSnapshot>)
        ensures
            r is Some <==> book_computes(bids@, asks@),
            r matches Some(book) ==> book.is_book(key, bids@, asks@, timestamp_utc, timestamp_ms),
    {
        if bids.len() > 0 && asks.len() > 0 {
            let bid = bids[0].price;
            let ask = asks[0].price;
            match bid.checked_add(ask) {
                Some(total) => if total.checked_div(Decimal::two()).is_none() {
                    return None;
                },
                None => return None,
            }
            if ask.checked_sub(bid).is_none() {
                return None;
            }
        }
        Some(OrderBookSnapshot::new(key, bids, asks, timestamp_utc, timestamp_ms))
    }
}

/// A snapshot on its way from a feed to the price manager.
#[derive(Clone, Debug, PartialEq)]
pub struct OrderBookUpdate {
    pub snapshot: OrderBookSnapshot,
}

} // verus!
