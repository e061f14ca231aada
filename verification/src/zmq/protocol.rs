use vstd::prelude::*;
use vstd::string::*;

use crate::decimal::Decimal;
use crate::kinds::{Exchange, Pairs};
use crate::manager::types::AccountSnapshot;
use crate::orders::{Order, OrderEvent, OrderRequest, Position};
use crate::types::{
    FundingRateSnapshot, Instrument, InstrumentKey, OrderBookSnapshot, OrderBookUpdate, Ticker, Trade,
};

verus! {

/// What a strategy asks of an exchange's server.
#[derive(Debug, PartialEq)]
pub enum ZmqCommand {
    SubmitOrder(OrderRequest),
    /// The order's own identifier.
    CancelOrder(String),
    GetPosition(InstrumentKey),
    GetAllPositions,
    GetAccountSnapshot,
    GetInstrument(InstrumentKey),
    GetAllInstruments,
    GetReferencePrice(InstrumentKey),
    GetFundingRate(InstrumentKey),
    SetLeverage(InstrumentKey, Decimal),
}

/// What the server answers.
#[derive(Debug, PartialEq)]
pub enum ZmqResponse {
    SubmitAck(Order),
    CancelAck(Order),
    Position(Option<Position>),
    AllPositions(Vec<Position>),
    AccountSnapshot(AccountSnapshot),
    Instrument(Option<Instrument>),
    AllInstruments(Vec<Instrument>),
    ReferencePrice(Decimal),
    FundingRate(FundingRateSnapshot),
    SetLeverageAck(Decimal),
    Error(String),
}

/// What the server publishes.
#[derive(Debug, PartialEq)]
pub enum ZmqEvent {
    OrderBook(OrderBookSnapshot),
    OrderBookUpdate(OrderBookUpdate),
    Ticker(Ticker),
    Trade(Trade),
    FundingRate(FundingRateSnapshot),
    OrderUpdate(OrderEvent),
    PositionUpdate(Position),
}

/// A kind of event and the market that it is about.
pub open spec fn topic_of(prefix: Seq<char>, exchange: Exchange, pair: Pairs) -> Seq<char> {
    prefix + exchange.variant() + "."@ + pair.text()
}

fn make_topic(prefix: &str, key: &InstrumentKey) -> (r: String)
    ensures
        r@ == topic_of(prefix@, key.exchange, key.pair),
{
    let mut out: String = prefix.to_owned();
    out.append(key.exchange.variant_name());
    out.append(".");
    out.append(key.pair.to_string().as_str());
    out
}

impl ZmqEvent {
    /// The instrument that an event is about.
    pub open spec fn about(self) -> InstrumentKey {
        match self {
            ZmqEvent::OrderBook(ob) => ob.key,
            ZmqEvent::OrderBookUpdate(ob) => ob.snapshot.key,
            ZmqEvent::Ticker(t) => t.key,
            ZmqEvent::Trade(t) => t.key,
            ZmqEvent::FundingRate(f) => f.key,
            ZmqEvent::OrderUpdate(event) => event.order().request.key,
            ZmqEvent::PositionUpdate(p) => p.key,
        }
    }

    /// What the topics of a kind of event begin with.
    pub open spec fn prefix(self) -> Seq<char> {
        match self {
            ZmqEvent::OrderBook(_) => "MD.OB."@,
            ZmqEvent::OrderBookUpdate(_) => "MD.OBU."@,
            ZmqEvent::Ticker(_) => "MD.TICKER."@,
            ZmqEvent::Trade(_) => "MD.TRADE."@,
            ZmqEvent::FundingRate(_) => "MD.FUNDING."@,
            ZmqEvent::OrderUpdate(_) => "EXEC."@,
            ZmqEvent::PositionUpdate(_) => "POS."@,
        }
    }

    /// The topic, by which subscribers choose: kind, exchange and pair.
    pub fn topic(&self) -> (r: String)
        ensures
            r@ == topic_of(self.prefix(), self.about().exchange, self.about().pair),
    {
        match self {
            ZmqEvent::OrderBook(ob) => make_topic("MD.OB.", &ob.key),
            ZmqEvent::OrderBookUpdate(ob) => make_topic("MD.OBU.", &ob.snapshot.key),
            ZmqEvent::Ticker(t) => make_topic("MD.TICKER.", &t.key),
            ZmqEvent::Trade(t) => make_topic("MD.TRADE.", &t.key),
            ZmqEvent::FundingRate(f) => make_topic("MD.FUNDING.", &f.key),
            ZmqEvent::OrderUpdate(event) => make_topic("EXEC.", &event.inner().request.key),
            ZmqEvent::PositionUpdate(p) => make_topic("POS.", &p.key),
        }
    }
}

} // verus!
