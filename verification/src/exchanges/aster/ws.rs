use vstd::prelude::*;

use crate::exchanges::aster::mappers;
use crate::exchanges::aster::mappers::{
    aster_execution_to_order_event, checked_partial_depth_to_order_book, ws_position_to_patch,
};
use crate::exchanges::aster::types::{
    AsterFuturesOrderTradeUpdate, AsterFuturesUserDataEvent, AsterFuturesWsPosition, AsterPartialDepth,
};
use crate::exchanges::common;
use crate::exchanges::common::{OrderFacts, Overflow, PatchFacts};
use crate::exchanges::requests;
use crate::exchanges::requests::{find_streamed_key, is_listen_key_expired, keep_alive_path, listen_url};
use crate::kinds::{Exchange, InstrumentType};
use crate::manager::position::WsPositionPatch;
use crate::orders::OrderEvent;
use crate::registry;
use crate::registry::InstrumentRegistry;
use crate::table::Table;
use crate::text::concat3;
use crate::time;
use crate::types::{Instrument, InstrumentKey, OrderBookUpdate};

verus! {

/// A message of a depth stream, with the stream that it came from.
#[derive(Debug)]
pub struct AsterWsStreamMessage {
    pub stream: String,
    pub data: AsterPartialDepth,
}

/// A stream of order books.
#[derive(Debug)]
pub struct AsterDepthPolicy {
    pub url: String,
    /// The instruments by the name that the stream gives them.
    pub symbol_map: Table<String, InstrumentKey>,
}

impl AsterDepthPolicy {
    /// The address to connect to.
    pub fn prepare(&self) -> (r: String)
        ensures
            r@ == self.url@,
    {
        self.url.clone()
    }

    /// The order book that a message tells; `None` where it is about another instrument or its time
    /// cannot be read, an error where mid-price or spread overflow.
    pub fn parse_message(&self, message: &AsterWsStreamMessage, timestamp_ms: i64) -> (r: Result<
        Option<OrderBookUpdate>,
        Overflow,
    >)
        ensures
            match requests::streamed_key(self.symbol_map@, message.stream@) {
                None => r matches Ok(None),
                Some(key) => match r {
                    Ok(Some(update)) => mappers::is_depth_book(Some(update.snapshot), message.data, key, timestamp_ms),
                    Ok(None) => mappers::is_depth_book(None, message.data, key, timestamp_ms),
                    Err(_) => time::millis_in_calendar(mappers::depth_time(message.data, timestamp_ms))
                        && !mappers::depth_computes(message.data),
                },
            },
    {
        match find_streamed_key(&self.symbol_map, message.stream.as_str()) {
            Some(key) => match checked_partial_depth_to_order_book(&message.data, key, timestamp_ms) {
                Ok(Some(snapshot)) => Ok(Some(OrderBookUpdate { snapshot })),
                Ok(None) => Ok(None),
                Err(e) => Err(e),
            },
            None => Ok(None),
        }
    }
}

/// The order that an execution is about, where its instrument is known.
pub open spec fn user_order(instruments: Seq<Instrument>, report: AsterFuturesOrderTradeUpdate) -> Option<OrderFacts> {
    match registry::known_by(instruments, Exchange::Aster, report.symbol@, InstrumentType::Swap) {
        Some(i) => mappers::executed_order(report, i.key),
        None => None,
    }
}

/// The change of a position that is streamed, where its instrument is known.
pub open spec fn user_patch(instruments: Seq<Instrument>, p: AsterFuturesWsPosition) -> Option<PatchFacts> {
    match registry::known_by(instruments, Exchange::Aster, p.symbol@, InstrumentType::Swap) {
        Some(i) => common::signed_patch(i.key, p.position_amt@, p.entry_price@, p.unrealized_profit@),
        None => None,
    }
}

/// The changes of positions that can be read, in order.
pub open spec fn user_patches(instruments: Seq<Instrument>, positions: Seq<AsterFuturesWsPosition>) -> Seq<PatchFacts>
    decreases positions.len(),
{
    if positions.len() == 0 {
        Seq::empty()
    } else {
        let front = user_patches(instruments, positions.drop_last());
        match user_patch(instruments, positions.last()) {
            Some(p) => front.push(p),
            None => front,
        }
    }
}

/// What a message of a user stream tells.
#[derive(Debug)]
pub struct AsterUserData {
    pub order: Option<OrderEvent>,
    pub positions: Vec<WsPositionPatch>,
}

/// The stream of a user's orders and positions. A listen key opens it and has to be kept alive.
#[derive(Debug)]
pub struct AsterUserDataPolicy {
    base_ws_url: String,
    listen_key: String,
}

impl AsterUserDataPolicy {
    pub closed spec fn base(&self) -> Seq<char> {
        self.base_ws_url@
    }

    pub closed spec fn key(&self) -> Seq<char> {
        self.listen_key@
    }

    /// A stream that no key has opened yet.
    pub fn new(base_ws_url: String) -> (r: AsterUserDataPolicy)
        ensures
            r.base() == base_ws_url@,
            r.key() == Seq::<char>::empty(),
    {
        AsterUserDataPolicy { base_ws_url, listen_key: String::new() }
    }

    /// Takes in a listen key and gives the address to connect to.
    pub fn prepare(&mut self, listen_key: String) -> (r: String)
        ensures
            final(self).base() == old(self).base(),
            final(self).key() == listen_key@,
            r@ == old(self).base() + "/ws/"@ + listen_key@,
    {
        self.listen_key = listen_key;
        listen_url(self.base_ws_url.as_str(), self.listen_key.as_str())
    }

    /// Seconds between two heartbeats.
    pub fn heartbeat_interval(&self) -> (r: Option<u64>)
        ensures
            r == Some(1_800u64),
    {
        Some(requests::KEEP_ALIVE_SECS)
    }

    /// The path of a heartbeat.
    pub fn heartbeat_path(&self) -> (r: String)
        ensures
            r@ == "/fapi/v1/listenKey?listenKey="@ + self.key(),
    {
        keep_alive_path(self.listen_key.as_str())
    }

    /// Whether the stream goes on after a heartbeat failed. It does not where the key has expired.
    pub fn heartbeat_failed(&self, message: &str) -> (r: Result<(), String>)
        ensures
            match r {
                Ok(_) => !requests::listen_key_expired(message@),
                Err(m) => requests::listen_key_expired(message@) && m@ == "Aster listen key expired ("@ + message@
                    + "); forcing reconnect"@,
            },
    {
        if is_listen_key_expired(message) {
            Err(concat3("Aster listen key expired (", message, "); forcing reconnect"))
        } else {
            Ok(())
        }
    }

    /// What a message tells: an order's new state, or the positions that changed. What is about
    /// another instrument or cannot be read is left out.
    pub fn parse_message(&self, registry: &InstrumentRegistry, event: &AsterFuturesUserDataEvent) -> (r: AsterUserData)
        ensures
            match event {
                AsterFuturesUserDataEvent::OrderTradeUpdate { order } => common::event_is(
                    r.order,
                    user_order(registry@, **order),
                ) && r.positions@.len() == 0,
                AsterFuturesUserDataEvent::AccountUpdate { update } => r.order is None && common::patch_views(
                    r.positions@,
                ) == user_patches(registry@, update.positions@),
                AsterFuturesUserDataEvent::Other => r.order is None && r.positions@.len() == 0,
            },
    {
        match event {
            AsterFuturesUserDataEvent::OrderTradeUpdate { order } => {
                let report: &AsterFuturesOrderTradeUpdate = &**order;
                let event = match registry.get_by_exchange_symbol(
                    Exchange::Aster,
                    report.symbol.as_str(),
                    InstrumentType::Swap,
                ) {
                    Some(instrument) => aster_execution_to_order_event(report, instrument.key),
                    None => None,
                };
                AsterUserData { order: event, positions: Vec::new() }
            },
            AsterFuturesUserDataEvent::AccountUpdate { update } => {
                let positions = &update.positions;
                let mut patches: Vec<WsPositionPatch> = Vec::new();
                assert(common::patch_views(patches@) =~= Seq::<PatchFacts>::empty());
                for i in 0..positions.len()
                    invariant
                        common::patch_views(patches@) == user_patches(registry@, positions@.take(i as int)),
                {
                    assert(positions@.take(i + 1).drop_last() =~= positions@.take(i as int));
                    if let Some(instrument) = registry.get_by_exchange_symbol(
                        Exchange::Aster,
                        positions[i].symbol.as_str(),
                        InstrumentType::Swap,
                    ) {
                        if let Some(patch) = ws_position_to_patch(&positions[i], instrument.key) {
                            let ghost before = patches@;
                            patches.push(patch);
                            assert(common::patch_views(patches@) =~= common::patch_views(before).push(patch.facts()));
                        }
                    }
                }
                assert(positions@.take(positions@.len() as int) =~= positions@);
                AsterUserData { order: None, positions: patches }
            },
            AsterFuturesUserDataEvent::Other => AsterUserData { order: None, positions: Vec::new() },
        }
    }
}

} // verus!
