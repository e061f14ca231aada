use vstd::prelude::*;
use vstd::string::*;

use crate::decimal::Decimal;
use crate::kinds::Exchange;
use crate::orders::OrderRequest;
use crate::table::Table;
use crate::text::concat;
use crate::types::InstrumentKey;
use crate::zmq::protocol::ZmqCommand;

verus! {

/// What can be asked of all exchanges together. Some calls name an instrument, whose exchange they
/// go to; the others name the exchange.
#[derive(Debug)]
pub enum CoreCall {
    SubmitOrder(OrderRequest),
    GetPosition(InstrumentKey),
    GetInstrument(InstrumentKey),
    GetReferencePrice(InstrumentKey),
    GetFundingRate(InstrumentKey),
    SetLeverage(InstrumentKey, Decimal),
    CancelOrder(Exchange, String),
    GetAllPositions(Exchange),
    GetAccountSnapshot(Exchange),
    GetAllInstruments(Exchange),
}

impl CoreCall {
    /// The exchange that a call goes to.
    pub open spec fn goes_to(self) -> Exchange {
        match self {
            CoreCall::SubmitOrder(req) => req.key.exchange,
            CoreCall::GetPosition(key) => key.exchange,
            CoreCall::GetInstrument(key) => key.exchange,
            CoreCall::GetReferencePrice(key) => key.exchange,
            CoreCall::GetFundingRate(key) => key.exchange,
            CoreCall::SetLeverage(key, _) => key.exchange,
            CoreCall::CancelOrder(exchange, _) => exchange,
            CoreCall::GetAllPositions(exchange) => exchange,
            CoreCall::GetAccountSnapshot(exchange) => exchange,
            CoreCall::GetAllInstruments(exchange) => exchange,
        }
    }

    /// The command that a call becomes.
    pub open spec fn becomes(self) -> ZmqCommand {
        match self {
            CoreCall::SubmitOrder(req) => ZmqCommand::SubmitOrder(req),
            CoreCall::GetPosition(key) => ZmqCommand::GetPosition(key),
            CoreCall::GetInstrument(key) => ZmqCommand::GetInstrument(key),
            CoreCall::GetReferencePrice(key) => ZmqCommand::GetReferencePrice(key),
            CoreCall::GetFundingRate(key) => ZmqCommand::GetFundingRate(key),
            CoreCall::SetLeverage(key, leverage) => ZmqCommand::SetLeverage(key, leverage),
            CoreCall::CancelOrder(_, id) => ZmqCommand::CancelOrder(id),
            CoreCall::GetAllPositions(_) => ZmqCommand::GetAllPositions,
            CoreCall::GetAccountSnapshot(_) => ZmqCommand::GetAccountSnapshot,
            CoreCall::GetAllInstruments(_) => ZmqCommand::GetAllInstruments,
        }
    }

    pub fn exchange(&self) -> (r: Exchange)
        ensures
            r == self.goes_to(),
    {
        match self {
            CoreCall::SubmitOrder(req) => req.key.exchange,
            CoreCall::GetPosition(key) => key.exchange,
            CoreCall::GetInstrument(key) => key.exchange,
            CoreCall::GetReferencePrice(key) => key.exchange,
            CoreCall::GetFundingRate(key) => key.exchange,
            CoreCall::SetLeverage(key, _) => key.exchange,
            CoreCall::CancelOrder(exchange, _) => *exchange,
            CoreCall::GetAllPositions(exchange) => *exchange,
            CoreCall::GetAccountSnapshot(exchange) => *exchange,
            CoreCall::GetAllInstruments(exchange) => *exchange,
        }
    }

    pub fn command(self) -> (r: ZmqCommand)
        ensures
            r == self.becomes(),
    {
        match self {
            CoreCall::SubmitOrder(req) => ZmqCommand::SubmitOrder(req),
            CoreCall::GetPosition(key) => ZmqCommand::GetPosition(key),
            CoreCall::GetInstrument(key) => ZmqCommand::GetInstrument(key),
            CoreCall::GetReferencePrice(key) => ZmqCommand::GetReferencePrice(key),
            CoreCall::GetFundingRate(key) => ZmqCommand::GetFundingRate(key),
            CoreCall::SetLeverage(key, leverage) => ZmqCommand::SetLeverage(key, leverage),
            CoreCall::CancelOrder(_, id) => ZmqCommand::CancelOrder(id),
            CoreCall::GetAllPositions(_) => ZmqCommand::GetAllPositions,
            CoreCall::GetAccountSnapshot(_) => ZmqCommand::GetAccountSnapshot,
            CoreCall::GetAllInstruments(_) => ZmqCommand::GetAllInstruments,
        }
    }
}

/// Which connection serves which exchange. Connections are numbered in the order in which their
/// exchanges were first named.
#[derive(Debug)]
pub struct Routes {
    connections: Table<Exchange, usize>,
}

impl View for Routes {
    type V = Map<Exchange, usize>;

    closed spec fn view(&self) -> Map<Exchange, usize> {
        self.connections@
    }
}

impl Routes {
    /// How many connections there are.
    pub closed spec fn count(&self) -> nat {
        self.connections.rows().len()
    }

    /// Connections are numbered below their count, and no two exchanges share one.
    #[verifier::type_invariant]
    pub open spec fn inv(self) -> bool {
        &&& forall|e: Exchange| #[trigger] self@.contains_key(e) ==> self@[e] < self.count()
        &&& forall|a: Exchange, b: Exchange| #[trigger]
            self@.contains_key(a) && #[trigger] self@.contains_key(b) && self@[a] == self@[b] ==> a == b
    }

    /// No connections.
    pub fn new() -> (r: Routes)
        ensures
            r@ == Map::<Exchange, usize>::empty(),
            r.count() == 0,
    {
        Routes { connections: Table::new() }
    }

    /// Whether an exchange has a connection.
    pub fn has_exchange(&self, exchange: Exchange) -> (r: bool)
        ensures
            r == self@.contains_key(exchange),
    {
        self.connections.contains(&exchange)
    }

    /// Gives an exchange the next connection, unless it has one already, and says which is to be
    /// made.
    pub fn connect(&mut self, exchange: Exchange) -> (r: Option<usize>)
        ensures
            old(self)@.contains_key(exchange) ==> r is None && *final(self) == *old(self),
            !old(self)@.contains_key(exchange) ==> {
                &&& r is Some
                &&& r->0 == old(self).count()
                &&& final(self)@ == old(self)@.insert(exchange, r->0)
                &&& final(self).count() == old(self).count() + 1
            },
            // No two exchanges share a connection.
            forall|a: Exchange, b: Exchange| #[trigger]
                final(self)@.contains_key(a) && #[trigger] final(self)@.contains_key(b) && final(self)@[a] == final(
                    self)@[b] ==> a == b,
    {
        proof {
            use_type_invariant(&*self);
        }
        if self.connections.contains(&exchange) {
            return None;
        }
        let next: usize = self.connections.len();
        let mut connections: Table<Exchange, usize> = Table::new();
        std::mem::swap(&mut connections, &mut self.connections);
        connections.insert(exchange, next);
        proof {
            assert forall|e: Exchange| #[trigger] connections@.contains_key(e) implies connections@[e]
                < connections.rows().len() by {
                assert(e != exchange ==> old(self)@.contains_key(e));
            }
            assert forall|a: Exchange, b: Exchange| #[trigger]
                connections@.contains_key(a) && #[trigger] connections@.contains_key(b) && connections@[a]
                    == connections@[b] implies a == b by {
                assert(a != exchange ==> old(self)@.contains_key(a));
                assert(b != exchange ==> old(self)@.contains_key(b));
            }
        }
        self.connections = connections;
        Some(next)
    }

    /// The exchanges that have a connection, each once.
    pub fn exchanges(&self) -> (r: Vec<Exchange>)
        ensures
            forall|e: Exchange| #[trigger] r@.contains(e) <==> self@.contains_key(e),
            r@.no_duplicates(),
    {
        let n: usize = self.connections.len();
        let ghost rows = self.connections.rows();
        let mut out: Vec<Exchange> = Vec::new();
        for i in 0..n
            invariant
                n == rows.len(),
                rows == self.connections.rows(),
                crate::table::distinct(rows),
                out@.len() == i,
                forall|j: int| 0 <= j < i ==> #[trigger] out@[j] == rows[j].0,
        {
            let (e, _) = self.connections.row(i);
            out.push(*e);
        }
        proof {
            assert forall|e: Exchange| #[trigger] out@.contains(e) <==> self@.contains_key(e) by {
                if out@.contains(e) {
                    let j = choose|j: int| 0 <= j < out@.len() && out@[j] == e;
                    assert(rows[j].0 == e);
                    assert(crate::table::holds(rows, e));
                }
                if self@.contains_key(e) {
                    assert(crate::table::holds(rows, e));
                    let j = choose|j: int| 0 <= j < rows.len() && crate::table::Key::key(&(#[trigger] rows[j]).0) == e;
                    assert(out@[j] == e);
                }
            }
            assert forall|i: int, j: int| 0 <= i < out@.len() && 0 <= j < out@.len() && i != j implies out@[i] != out@[j] by {
                if i < j {
                    assert(rows[i].0 != rows[j].0);
                } else {
                    assert(rows[j].0 != rows[i].0);
                }
            }
        }
        out
    }

    /// The connection that a call goes over, or that its exchange has none.
    pub fn route(&self, call: &CoreCall) -> (r: Result<usize, String>)
        ensures
            match r {
                Ok(i) => self@.contains_key(call.goes_to()) && self@[call.goes_to()] == i && (i as nat) < self.count(),
                Err(m) => !self@.contains_key(call.goes_to()) && m@ == "no ZMQ client registered for exchange: "@
                    + call.goes_to().text(),
            },
    {
        proof {
            use_type_invariant(self);
        }
        let exchange = call.exchange();
        match self.connections.get(&exchange) {
            Some(i) => {
                assert(self@.contains_key(exchange));
                Ok(*i)
            },
            None => Err(concat("no ZMQ client registered for exchange: ", exchange.to_string().as_str())),
        }
    }
}

} // verus!
