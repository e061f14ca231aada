use vstd::prelude::*;
use vstd::string::*;

use crate::decimal;
use crate::exchanges::bybit::mappers;
use crate::exchanges::bybit::mappers::{
    checked_order_book_to_snapshot, ws_order_to_order_event_at, ws_position_to_patch,
};
use crate::exchanges::bybit::types::{
    BybitOrderBookResult, BybitWsControl, BybitWsOrderUpdate, BybitWsPositionUpdate, BybitWsPrivateMessage,
};
use crate::exchanges::common;
use crate::exchanges::common::{OrderFacts, Overflow, PatchFacts};
use crate::http::auth;
use crate::http::auth::hmac_sha256_hex;
use crate::kinds::{Exchange, InstrumentType};
use crate::manager::position::WsPositionPatch;
use crate::orders::OrderEvent;
use crate::registry;
use crate::registry::InstrumentRegistry;
use crate::table::Table;
use crate::text;
use crate::text::{concat, concat3, number, split};
use crate::time;
use crate::time::UtcTime;
use crate::types::{Instrument, InstrumentKey, OrderBookUpdate};

verus! {

/// Seconds between two heartbeats.
pub const HEARTBEAT_SECS: u64 = 20;

/// A message of a public stream: an order book, or an answer to a request.
#[derive(Debug)]
pub struct BybitWsRawMessage {
    pub topic: Option<String>,
    pub msg_type: Option<String>,
    pub ts: Option<u64>,
    pub data: Option<BybitOrderBookResult>,
    /// What request it answers.
    pub op: Option<String>,
    pub success: Option<bool>,
}

/// The message that keeps a stream alive.
pub fn ping() -> (r: BybitWsControl)
    ensures
        r.op@ == "ping"@,
        r.args is None,
{
    BybitWsControl { op: "ping".to_owned(), args: None }
}

/// A stream of order books.
#[derive(Debug)]
pub struct BybitDepthPolicy {
    pub url: String,
    /// The instruments by symbol.
    pub symbol_map: Table<String, InstrumentKey>,
    /// How many levels are streamed: 1, 50, 200 or 1000.
    pub depth: u32,
}

/// The topics of the order books of some symbols.
pub open spec fn topics(rows: Seq<(String, InstrumentKey)>, depth: u32) -> Seq<Seq<char>> {
    rows.map_values(|row: (String, InstrumentKey)| "orderbook."@ + text::digits(depth as nat) + "."@ + row.0@)
}

/// The symbol that a topic names: what stands after its second dot.
pub open spec fn topic_symbol(topic: Seq<char>) -> Option<Seq<char>> {
    let parts = text::pieces(topic, '.');
    if parts.len() > 2 {
        Some(parts[2])
    } else {
        None
    }
}

/// The order book that a message carries, and the instrument that it is about.
pub open spec fn carried(message: BybitWsRawMessage, names: Map<Seq<char>, InstrumentKey>) -> Option<
    (BybitOrderBookResult, InstrumentKey),
> {
    match (message.op, message.topic, message.data) {
        (None, Some(topic), Some(data)) => match topic_symbol(topic@) {
            Some(symbol) => if names.contains_key(symbol) {
                Some((data, names[symbol]))
            } else {
                None
            },
            None => None,
        },
        _ => None,
    }
}

impl BybitDepthPolicy {
    /// The address to connect to.
    pub fn prepare(&self) -> (r: String)
        ensures
            r@ == self.url@,
    {
        self.url.clone()
    }

    /// The message to send when the connection is open: it asks for the order book of every symbol.
    /// `None` where there is no symbol.
    pub fn on_connected(&self) -> (r: Option<BybitWsControl>)
        ensures
            r is None <==> self.symbol_map.rows().len() == 0,
            r matches Some(control) ==> control.op@ == "subscribe"@ && (control.args matches Some(args) && text::views(
                args@,
            ) == topics(self.symbol_map.rows(), self.depth)),
    {
        let n: usize = self.symbol_map.len();
        if n == 0 {
            return None;
        }
        let mut args: Vec<String> = Vec::new();
        for i in 0..n
            invariant
                n == self.symbol_map.rows().len(),
                text::views(args@) == topics(self.symbol_map.rows().take(i as int), self.depth),
        {
            let (symbol, _) = self.symbol_map.row(i);
            let mut topic: String = concat3("orderbook.", number(self.depth as u64).as_str(), ".");
            topic.append(symbol.as_str());
            let ghost before = args@;
            let ghost this = topic@;
            args.push(topic);
            assert(text::views(args@) =~= text::views(before).push(this));
            assert(topics(self.symbol_map.rows().take(i + 1), self.depth) =~= topics(
                self.symbol_map.rows().take(i as int),
                self.depth,
            ).push(this));
        }
        assert(self.symbol_map.rows().take(n as int) =~= self.symbol_map.rows());
        Some(BybitWsControl { op: "subscribe".to_owned(), args: Some(args) })
    }

    pub fn heartbeat_interval(&self) -> (r: Option<u64>)
        ensures
            r == Some(20u64),
    {
        Some(HEARTBEAT_SECS)
    }

    /// The order book that a message tells; `None` where it is an answer to a request, is about
    /// another instrument or its time cannot be read, an error where mid-price or spread overflow.
    pub fn parse_message(&self, message: &BybitWsRawMessage, now_ms: i64) -> (r: Result<Option<OrderBookUpdate>, Overflow>)
        ensures
            match carried(*message, self.symbol_map@) {
                None => r matches Ok(None),
                Some((data, key)) => match r {
                    Ok(Some(update)) => mappers::is_good_book(Some(update.snapshot), data, key, now_ms),
                    Ok(None) => mappers::is_good_book(None, data, key, now_ms),
                    Err(_) => time::millis_in_calendar(mappers::book_time(data, now_ms)) && !mappers::book_computes(
                        data,
                    ),
                },
            },
    {
        if message.op.is_some() {
            return Ok(None);
        }
        match (&message.topic, &message.data) {
            (Some(topic), Some(data)) => {
                let parts = split(topic.as_str(), '.');
                if parts.len() <= 2 {
                    return Ok(None);
                }
                match self.symbol_map.get(&parts[2]) {
                    Some(key) => match checked_order_book_to_snapshot(data, *key, now_ms) {
                        Ok(Some(snapshot)) => Ok(Some(OrderBookUpdate { snapshot })),
                        Ok(None) => Ok(None),
                        Err(e) => Err(e),
                    },
                    None => Ok(None),
                }
            },
            _ => Ok(None),
        }
    }
}

/// What opens a user's stream: key, end of validity in milliseconds, and signature.
#[derive(Debug)]
pub struct BybitWsAuth {
    pub api_key: String,
    pub expires: u64,
    pub signature: String,
}

/// What a message of a user's stream is about.
#[derive(Clone, Copy, Debug, PartialEq, Eq, Structural)]
pub enum BybitTopic {
    /// An answer to a request.
    Control,
    Orders,
    Positions,
    Nothing,
}

/// What a message of a user's stream is about.
pub open spec fn topic_of(message: BybitWsPrivateMessage) -> BybitTopic {
    match (message.op, message.topic) {
        (Some(_), _) => BybitTopic::Control,
        (None, Some(topic)) => if topic@ == "order"@ {
            BybitTopic::Orders
        } else if topic@ == "position"@ {
            BybitTopic::Positions
        } else {
            BybitTopic::Nothing
        },
        (None, None) => BybitTopic::Nothing,
    }
}

/// Whether a message tells that the exchange does not let the user in.
pub open spec fn refuses_user(message: BybitWsPrivateMessage) -> bool {
    message.op matches Some(op) && op@ == "auth"@ && message.success != Some(true)
}

/// The order that is streamed at a time, where its instrument is known.
pub open spec fn user_order(instruments: Seq<Instrument>, update: BybitWsOrderUpdate, now: int) -> Option<OrderFacts> {
    match registry::known_by(instruments, Exchange::Bybit, update.symbol@, InstrumentType::Swap) {
        Some(i) => mappers::told_order(
            update.said(),
            Some(common::or_zero(decimal::parsed(update.cum_exec_qty@))),
            i.key,
            now,
        ),
        None => None,
    }
}

/// The orders that can be read, in order.
pub open spec fn user_orders(instruments: Seq<Instrument>, updates: Seq<BybitWsOrderUpdate>, now: int) -> Seq<OrderFacts>
    decreases updates.len(),
{
    if updates.len() == 0 {
        Seq::empty()
    } else {
        let front = user_orders(instruments, updates.drop_last(), now);
        match user_order(instruments, updates.last(), now) {
            Some(o) => front.push(o),
            None => front,
        }
    }
}

/// The change of a position that is streamed, where its instrument is known.
pub open spec fn user_patch(instruments: Seq<Instrument>, update: BybitWsPositionUpdate) -> Option<PatchFacts> {
    match registry::known_by(instruments, Exchange::Bybit, update.symbol@, InstrumentType::Swap) {
        Some(i) => mappers::told_patch(update, i.key),
        None => None,
    }
}

/// The changes of positions that can be read, in order.
pub open spec fn user_patches(instruments: Seq<Instrument>, updates: Seq<BybitWsPositionUpdate>) -> Seq<PatchFacts>
    decreases updates.len(),
{
    if updates.len() == 0 {
        Seq::empty()
    } else {
        let front = user_patches(instruments, updates.drop_last());
        match user_patch(instruments, updates.last()) {
            Some(p) => front.push(p),
            None => front,
        }
    }
}

/// The orders of events, as facts.
pub open spec fn event_orders(events: Seq<OrderEvent>) -> Seq<OrderFacts> {
    events.map_values(|e: OrderEvent| e.order().facts())
}

/// The stream of a user's orders and positions.
#[derive(Debug)]
pub struct BybitUserDataPolicy {
    url: String,
    api_key: String,
    api_secret: String,
}

impl BybitUserDataPolicy {
    pub closed spec fn address(&self) -> Seq<char> {
        self.url@
    }

    pub closed spec fn key(&self) -> Seq<char> {
        self.api_key@
    }

    pub closed spec fn secret(&self) -> Seq<char> {
        self.api_secret@
    }

    pub fn new(url: String, api_key: String, api_secret: String) -> (r: BybitUserDataPolicy)
        ensures
            r.address() == url@,
            r.key() == api_key@,
            r.secret() == api_secret@,
    {
        BybitUserDataPolicy { url, api_key, api_secret }
    }

    /// The address to connect to.
    pub fn prepare(&self) -> (r: String)
        ensures
            r@ == self.address(),
    {
        self.url.clone()
    }

    /// What to send when the connection is open: first the user's signature, good for ten seconds,
    /// then the wish for orders and positions. `None` where the end of validity cannot be counted.
    pub fn on_connected(&self, now_secs: u64) -> (r: Option<(BybitWsAuth, BybitWsControl)>)
        ensures
            r is None <==> (now_secs + 10) * 1000 > u64::MAX,
            r matches Some((sign, control)) ==> {
                &&& sign.api_key@ == self.key()
                &&& sign.expires == (now_secs + 10) * 1000
                &&& sign.signature@ == auth::text_signature(
                    self.secret(),
                    "GET/realtime"@ + text::digits(sign.expires as nat),
                )
                &&& control.op@ == "subscribe"@
                &&& control.args matches Some(args) && text::views(args@) == seq!["order"@, "position"@]
            },
    {
        if now_secs > 18_446_744_073_709_541 {
            return None;
        }
        let expires: u64 = (now_secs + 10) * 1000;
        let payload = concat("GET/realtime", number(expires).as_str());
        let signature = hmac_sha256_hex(self.api_secret.as_str().as_bytes(), payload.as_str().as_bytes());
        let mut args: Vec<String> = Vec::new();
        args.push("order".to_owned());
        args.push("position".to_owned());
        assert(text::views(args@) =~= seq!["order"@, "position"@]);
        Some(
            (
                BybitWsAuth { api_key: self.api_key.clone(), expires, signature },
                BybitWsControl { op: "subscribe".to_owned(), args: Some(args) },
            ),
        )
    }

    pub fn heartbeat_interval(&self) -> (r: Option<u64>)
        ensures
            r == Some(20u64),
    {
        Some(HEARTBEAT_SECS)
    }

    /// What a message is about; an error where it tells that the exchange does not let the user in.
    pub fn parse_message(&self, message: &BybitWsPrivateMessage) -> (r: Result<BybitTopic, String>)
        ensures
            match r {
                Ok(topic) => !refuses_user(*message) && topic == topic_of(*message),
                Err(m) => refuses_user(*message) && m@ == "Bybit private WS auth failed: "@ + (match message.ret_msg {
                    Some(reason) => reason@,
                    None => "unknown"@,
                }),
            },
    {
        if let Some(op) = &message.op {
            if op.as_str().eq("auth") && message.success != Some(true) {
                let reason: &str = match &message.ret_msg {
                    Some(reason) => reason.as_str(),
                    None => "unknown",
                };
                return Err(concat("Bybit private WS auth failed: ", reason));
            }
            return Ok(BybitTopic::Control);
        }
        match &message.topic {
            Some(topic) => if topic.as_str().eq("order") {
                Ok(BybitTopic::Orders)
            } else if topic.as_str().eq("position") {
                Ok(BybitTopic::Positions)
            } else {
                Ok(BybitTopic::Nothing)
            },
            None => Ok(BybitTopic::Nothing),
        }
    }

    /// The new states of orders that a message tells at a time. What is about another instrument or
    /// cannot be read is left out.
    pub fn order_events(&self, registry: &InstrumentRegistry, updates: &[BybitWsOrderUpdate], now: UtcTime) -> (r: Vec<
        OrderEvent,
    >)
        ensures
            event_orders(r@) == user_orders(registry@, updates@, now@),
            forall|i: int| 0 <= i < r@.len() ==> #[trigger] r@[i] == OrderEvent::of(r@[i].order()),
    {
        let mut events: Vec<OrderEvent> = Vec::new();
        assert(event_orders(events@) =~= Seq::<OrderFacts>::empty());
        for i in 0..updates.len()
            invariant
                event_orders(events@) == user_orders(registry@, updates@.take(i as int), now@),
                forall|j: int| 0 <= j < events@.len() ==> #[trigger] events@[j] == OrderEvent::of(events@[j].order()),
        {
            assert(updates@.take(i + 1).drop_last() =~= updates@.take(i as int));
            if let Some(instrument) = registry.get_by_exchange_symbol(
                Exchange::Bybit,
                updates[i].symbol.as_str(),
                InstrumentType::Swap,
            ) {
                if let Some(event) = ws_order_to_order_event_at(&updates[i], instrument.key, now) {
                    let ghost before = events@;
                    let ghost facts = event.order().facts();
                    events.push(event);
                    assert(event_orders(events@) =~= event_orders(before).push(facts));
                }
            }
        }
        assert(updates@.take(updates@.len() as int) =~= updates@);
        events
    }

    /// The changes of positions that a message tells. What is about another instrument or cannot be
    /// read is left out.
    pub fn position_patches(&self, registry: &InstrumentRegistry, updates: &[BybitWsPositionUpdate]) -> (r: Vec<
        WsPositionPatch,
    >)
        ensures
            common::patch_views(r@) == user_patches(registry@, updates@),
    {
        let mut patches: Vec<WsPositionPatch> = Vec::new();
        assert(common::patch_views(patches@) =~= Seq::<PatchFacts>::empty());
        for i in 0..updates.len()
            invariant
                common::patch_views(patches@) == user_patches(registry@, updates@.take(i as int)),
        {
            assert(updates@.take(i + 1).drop_last() =~= updates@.take(i as int));
            if let Some(instrument) = registry.get_by_exchange_symbol(
                Exchange::Bybit,
                updates[i].symbol.as_str(),
                InstrumentType::Swap,
            ) {
                if let Some(patch) = ws_position_to_patch(&updates[i], instrument.key) {
                    let ghost before = patches@;
                    patches.push(patch);
                    assert(common::patch_views(patches@) =~= common::patch_views(before).push(patch.facts()));
                }
            }
        }
        assert(updates@.take(updates@.len() as int) =~= updates@);
        patches
    }
}

} // verus!
