use vstd::prelude::*;
use vstd::string::*;

use crate::exchanges::binance::mappers;
use crate::exchanges::binance::mappers::{
    checked_ws_depth_event_to_order_book, futures_execution_to_order_event, spot_execution_to_order_event,
    ws_position_to_patch,
};
use crate::exchanges::binance::types::{
    BinanceFuturesOrderTradeUpdate, BinanceFuturesUserDataEvent, BinanceFuturesWsPosition, BinanceSpotExecutionReport,
    BinanceSpotUserDataEvent, BinanceWsApiResponse, BinanceWsDepthEvent,
};
use crate::exchanges::common;
use crate::exchanges::common::{OrderFacts, Overflow, PatchFacts};
use crate::exchanges::requests;
use crate::exchanges::requests::{depth_url, find_streamed_key, is_listen_key_expired, keep_alive_path, listen_url};
use crate::http::auth;
use crate::http::auth::hmac_sha256_hex;
use crate::ids::outside_uuid;
use crate::kinds::{Exchange, InstrumentType};
use crate::manager::position::WsPositionPatch;
use crate::orders::OrderEvent;
use crate::registry;
use crate::registry::InstrumentRegistry;
use crate::table::Table;
use crate::text;
use crate::text::{concat3, number};
use crate::time::UtcTime;
use crate::types::{Instrument, InstrumentKey, OrderBookUpdate};

verus! {

/// A stream of order books.
#[derive(Debug)]
pub struct BinanceDepthPolicy {
    base_url: String,
    symbol_to_key: Table<String, InstrumentKey>,
}

impl BinanceDepthPolicy {
    pub closed spec fn base(&self) -> Seq<char> {
        self.base_url@
    }

    /// The instruments by the name that the stream gives them.
    pub closed spec fn names(&self) -> Table<String, InstrumentKey> {
        self.symbol_to_key
    }

    pub fn new(base_url: String, symbol_to_key: Table<String, InstrumentKey>) -> (r: BinanceDepthPolicy)
        ensures
            r.base() == base_url@,
            r.names() == symbol_to_key,
    {
        BinanceDepthPolicy { base_url, symbol_to_key }
    }

    /// The address to connect to: it names every instrument.
    pub fn prepare(&self) -> (r: String)
        ensures
            r@ == self.base() + "/stream?streams="@ + text::joined(
                requests::depth_names(self.names().rows()),
                "/"@,
            ),
    {
        depth_url(self.base_url.as_str(), &self.symbol_to_key)
    }

    /// The instrument that a message is about, by the stream that it came from; `None` where it is
    /// about another.
    pub fn message_key(&self, stream: &str) -> (r: Option<InstrumentKey>)
        ensures
            r == requests::streamed_key(self.names()@, stream@),
    {
        find_streamed_key(&self.symbol_to_key, stream)
    }

    /// The order book that a message tells; `None` where it is about another instrument or cannot be
    /// read, an error where mid-price or spread overflow.
    pub fn parse_message(&self, stream: &str, event: &BinanceWsDepthEvent, now: UtcTime) -> (r: Result<
        Option<OrderBookUpdate>,
        Overflow,
    >)
        ensures
            match requests::streamed_key(self.names()@, stream@) {
                None => r matches Ok(None),
                Some(key) => match r {
                    Ok(Some(update)) => mappers::is_depth_book(Some(update.snapshot), *event, key, now),
                    Ok(None) => mappers::is_depth_book(None, *event, key, now),
                    Err(_) => mappers::depth_time_reads(*event) && !common::raw_book_computes(event.bids@, event.asks@),
                },
            },
    {
        match self.message_key(stream) {
            Some(key) => match checked_ws_depth_event_to_order_book(event, key, now) {
                Ok(Some(snapshot)) => Ok(Some(OrderBookUpdate { snapshot })),
                Ok(None) => Ok(None),
                Err(e) => Err(e),
            },
            None => Ok(None),
        }
    }
}

/// The order that a futures execution is about, where its instrument is known.
pub open spec fn futures_order(instruments: Seq<Instrument>, report: BinanceFuturesOrderTradeUpdate) -> Option<OrderFacts> {
    match registry::known_by(instruments, Exchange::Binance, report.symbol@, InstrumentType::Swap) {
        Some(i) => mappers::executed_order(report.said(), i.key),
        None => None,
    }
}

/// The order that a spot execution is about, where its instrument is known.
pub open spec fn spot_order(instruments: Seq<Instrument>, report: BinanceSpotExecutionReport) -> Option<OrderFacts> {
    match registry::known_by(instruments, Exchange::Binance, report.symbol@, InstrumentType::Spot) {
        Some(i) => mappers::executed_order(report.said(), i.key),
        None => None,
    }
}

/// The change of a position that is streamed, where its instrument is known.
pub open spec fn futures_patch(instruments: Seq<Instrument>, p: BinanceFuturesWsPosition) -> Option<PatchFacts> {
    match registry::known_by(instruments, Exchange::Binance, p.symbol@, InstrumentType::Swap) {
        Some(i) => common::signed_patch(i.key, p.position_amt@, p.entry_price@, p.unrealized_profit@),
        None => None,
    }
}

/// The changes of positions that can be read, in order.
pub open spec fn futures_patches(instruments: Seq<Instrument>, positions: Seq<BinanceFuturesWsPosition>) -> Seq<PatchFacts>
    decreases positions.len(),
{
    if positions.len() == 0 {
        Seq::empty()
    } else {
        let front = futures_patches(instruments, positions.drop_last());
        match futures_patch(instruments, positions.last()) {
            Some(p) => front.push(p),
            None => front,
        }
    }
}

/// What a message of a futures user stream tells.
#[derive(Debug)]
pub struct FuturesUserData {
    pub order: Option<OrderEvent>,
    pub positions: Vec<WsPositionPatch>,
}

/// The stream of a user's futures. A listen key opens it and has to be kept alive.
#[derive(Debug)]
pub struct BinanceFuturesUserDataPolicy {
    base_ws_url: String,
    listen_key: String,
}

impl BinanceFuturesUserDataPolicy {
    pub closed spec fn base(&self) -> Seq<char> {
        self.base_ws_url@
    }

    pub closed spec fn key(&self) -> Seq<char> {
        self.listen_key@
    }

    /// A stream that no key has opened yet.
    pub fn new(base_ws_url: String) -> (r: BinanceFuturesUserDataPolicy)
        ensures
            r.base() == base_ws_url@,
            r.key() == Seq::<char>::empty(),
    {
        BinanceFuturesUserDataPolicy { base_ws_url, listen_key: String::new() }
    }

    /// Takes in a listen key and gives the address to connect to.
    pub fn prepare(&mut self, listen_key: String) -> (r: String)
        ensures
            final(self).base() == old(self).base(),
            final(self).key() == listen_key@,
            r@ == old(self).base() + "/ws/"@ + listen_key@,
    {
        self.listen_key = listen_key;
        listen_url(self.base_ws_url.as_str(), self.listen_key.as_str())
    }

    /// Seconds between two heartbeats.
    pub fn heartbeat_interval(&self) -> (r: Option<u64>)
        ensures
            r == Some(1_800u64),
    {
        Some(requests::KEEP_ALIVE_SECS)
    }

    /// The path of a heartbeat.
    pub fn heartbeat_path(&self) -> (r: String)
        ensures
            r@ == "/fapi/v1/listenKey?listenKey="@ + self.key(),
    {
        keep_alive_path(self.listen_key.as_str())
    }

    /// Whether the stream goes on after a heartbeat failed. It does not where the key has expired.
    pub fn heartbeat_failed(&self, message: &str) -> (r: Result<(), String>)
        ensures
            match r {
                Ok(_) => !requests::listen_key_expired(message@),
                Err(m) => requests::listen_key_expired(message@) && m@ == "Futures listen key expired ("@ + message@
                    + "); forcing reconnect to obtain a new key"@,
            },
    {
        if is_listen_key_expired(message) {
            Err(concat3("Futures listen key expired (", message, "); forcing reconnect to obtain a new key"))
        } else {
            Ok(())
        }
    }

    /// What a message tells: an order's new state, or the positions that changed. What is about
    /// another instrument or cannot be read is left out.
    pub fn parse_message(&self, registry: &InstrumentRegistry, event: &BinanceFuturesUserDataEvent) -> (r: FuturesUserData)
        ensures
            match event {
                BinanceFuturesUserDataEvent::OrderTradeUpdate { order } => common::event_is(
                    r.order,
                    futures_order(registry@, **order),
                ) && r.positions@.len() == 0,
                BinanceFuturesUserDataEvent::AccountUpdate { update } => r.order is None && common::patch_views(
                    r.positions@,
                ) == futures_patches(registry@, update.positions@),
                BinanceFuturesUserDataEvent::Other => r.order is None && r.positions@.len() == 0,
            },
    {
        match event {
            BinanceFuturesUserDataEvent::OrderTradeUpdate { order } => {
                let report: &BinanceFuturesOrderTradeUpdate = &**order;
                let event = match registry.get_by_exchange_symbol(
                    Exchange::Binance,
                    report.symbol.as_str(),
                    InstrumentType::Swap,
                ) {
                    Some(instrument) => futures_execution_to_order_event(report, instrument.key),
                    None => None,
                };
                FuturesUserData { order: event, positions: Vec::new() }
            },
            BinanceFuturesUserDataEvent::AccountUpdate { update } => {
                let positions = &update.positions;
                let mut patches: Vec<WsPositionPatch> = Vec::new();
                assert(common::patch_views(patches@) =~= Seq::<PatchFacts>::empty());
                for i in 0..positions.len()
                    invariant
                        common::patch_views(patches@) == futures_patches(registry@, positions@.take(i as int)),
                {
                    assert(positions@.take(i + 1).drop_last() =~= positions@.take(i as int));
                    if let Some(instrument) = registry.get_by_exchange_symbol(
                        Exchange::Binance,
                        positions[i].symbol.as_str(),
                        InstrumentType::Swap,
                    ) {
                        if let Some(patch) = ws_position_to_patch(&positions[i], instrument.key) {
                            let ghost before = patches@;
                            patches.push(patch);
                            assert(common::patch_views(patches@) =~= common::patch_views(before).push(patch.facts()));
                        }
                    }
                }
                assert(positions@.take(positions@.len() as int) =~= positions@);
                FuturesUserData { order: None, positions: patches }
            },
            BinanceFuturesUserDataEvent::Other => FuturesUserData { order: None, positions: Vec::new() },
        }
    }
}

/// The request that opens the stream of a user's spot orders.
#[derive(Debug)]
pub struct SpotSubscription {
    pub id: String,
    pub method: String,
    pub api_key: String,
    pub signature: String,
    pub timestamp: u64,
}

/// The stream of a user's spot orders. A signed request opens it.
#[derive(Debug)]
pub struct BinanceSpotUserDataPolicy {
    ws_api_url: String,
    api_key: String,
    api_secret: String,
    subscription_id: Option<u64>,
}

impl BinanceSpotUserDataPolicy {
    pub closed spec fn url(&self) -> Seq<char> {
        self.ws_api_url@
    }

    pub closed spec fn key(&self) -> Seq<char> {
        self.api_key@
    }

    pub closed spec fn secret(&self) -> Seq<char> {
        self.api_secret@
    }

    /// What the exchange calls the stream, once it is open.
    pub closed spec fn subscription(&self) -> Option<u64> {
        self.subscription_id
    }

    pub fn new(ws_api_url: String, api_key: String, api_secret: String) -> (r: BinanceSpotUserDataPolicy)
        ensures
            r.url() == ws_api_url@,
            r.key() == api_key@,
            r.secret() == api_secret@,
            r.subscription() is None,
    {
        BinanceSpotUserDataPolicy { ws_api_url, api_key, api_secret, subscription_id: None }
    }

    /// The address to connect to.
    pub fn prepare(&self) -> (r: String)
        ensures
            r@ == self.url(),
    {
        self.ws_api_url.clone()
    }

    /// The request to send when the connection is open, under a new identifier.
    pub fn on_connected(&self, timestamp_ms: u64) -> (r: SpotSubscription)
        ensures
            self.subscribes(r, timestamp_ms),
            r.id@.len() == 36,
    {
        self.on_connected_as(outside_uuid(), timestamp_ms)
    }

    /// Whether a request opens the stream at a time: key and time are signed.
    pub open spec fn subscribes(&self, r: SpotSubscription, timestamp_ms: u64) -> bool {
        &&& r.method@ == "userDataStream.subscribe.signature"@
        &&& r.api_key@ == self.key()
        &&& r.timestamp == timestamp_ms
        &&& r.signature@ == auth::text_signature(
            self.secret(),
            "apiKey="@ + self.key() + "&timestamp="@ + text::digits(timestamp_ms as nat),
        )
    }

    /// The request to send when the connection is open, under a given identifier.
    pub fn on_connected_as(&self, id: String, timestamp_ms: u64) -> (r: SpotSubscription)
        ensures
            r.id == id,
            self.subscribes(r, timestamp_ms),
    {
        let mut payload: String = concat3("apiKey=", self.api_key.as_str(), "&timestamp=");
        payload.append(number(timestamp_ms).as_str());
        SpotSubscription {
            id,
            method: "userDataStream.subscribe.signature".to_owned(),
            api_key: self.api_key.clone(),
            signature: hmac_sha256_hex(self.api_secret.as_str().as_bytes(), payload.as_str().as_bytes()),
            timestamp: timestamp_ms,
        }
    }

    /// Takes in the answer to the request; an error where the exchange rejects it. `raw` is the
    /// answer as it came in.
    pub fn confirm(&mut self, ack: &BinanceWsApiResponse, raw: &str) -> (r: Result<(), String>)
        ensures
            final(self).url() == old(self).url(),
            final(self).key() == old(self).key(),
            final(self).secret() == old(self).secret(),
            match r {
                Ok(_) => ack.status == 200 && final(self).subscription() == (match ack.result {
                    Some(result) => Some(result.subscription_id),
                    None => None,
                }),
                Err(m) => ack.status != 200 && final(self).subscription() == old(self).subscription() && m@
                    == "subscription rejected \u{2014} status "@ + text::digits(ack.status as nat)
                    + " \u{2014} raw: "@ + raw@,
            },
    {
        if ack.status != 200 {
            let mut message: String = "subscription rejected \u{2014} status ".to_owned();
            message.append(number(ack.status as u64).as_str());
            message.append(" \u{2014} raw: ");
            message.append(raw);
            return Err(message);
        }
        self.subscription_id = match &ack.result {
            Some(result) => Some(result.subscription_id),
            None => None,
        };
        Ok(())
    }

    /// The order's new state that a message tells; `None` where it is about another instrument or
    /// cannot be read.
    pub fn parse_message(&self, registry: &InstrumentRegistry, event: &BinanceSpotUserDataEvent) -> (r: Option<OrderEvent>)
        ensures
            match event {
                BinanceSpotUserDataEvent::ExecutionReport(report) => common::event_is(r, spot_order(registry@, **report)),
                BinanceSpotUserDataEvent::Other => r is None,
            },
    {
        match event {
            BinanceSpotUserDataEvent::ExecutionReport(report) => {
                let report: &BinanceSpotExecutionReport = &**report;
                match registry.get_by_exchange_symbol(Exchange::Binance, report.symbol.as_str(), InstrumentType::Spot) {
                    Some(instrument) => spot_execution_to_order_event(report, instrument.key),
                    None => None,
                }
            },
            BinanceSpotUserDataEvent::Other => None,
        }
    }
}

} // verus!
