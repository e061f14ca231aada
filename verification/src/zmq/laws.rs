use vstd::prelude::*;

use crate::kinds::Exchange;
use crate::registry;
use crate::types::Instrument;
use crate::zmq::protocol::{ZmqEvent, ZmqResponse};
use crate::zmq::router::CoreCall;
use crate::zmq::server;
use crate::zmq::server::{Managers, Plan};

verus! {

/// What is asked of all exchanges together is done by the one that it is about: an order is
/// submitted as it was made, a position is looked up by its own key, and an identifier is canceled
/// under the name that was given.
pub proof fn call_arrives_as_it_was_made(
    call: CoreCall,
    exchange: Exchange,
    instruments: Seq<Instrument>,
    plan: Plan,
)
    requires
        server::plans(
            exchange,
            Managers { orders: true, positions: true, account: true },
            instruments,
            call.becomes(),
            plan,
        ),
    ensures
        call matches CoreCall::SubmitOrder(request) ==> plan == Plan::Submit(request) && call.goes_to()
            == request.key.exchange,
        call matches CoreCall::CancelOrder(to, id) ==> plan == Plan::Cancel(id) && call.goes_to() == to,
        call matches CoreCall::GetPosition(key) ==> plan == Plan::Position(key) && call.goes_to() == key.exchange,
        call matches CoreCall::GetAllPositions(to) ==> plan == Plan::AllPositions && call.goes_to() == to,
        call matches CoreCall::GetAccountSnapshot(to) ==> plan == Plan::Account(exchange) && call.goes_to() == to,
        call matches CoreCall::GetInstrument(key) ==> (plan matches Plan::Reply(ZmqResponse::Instrument(found)) && found
            == registry::found(instruments, key)) && call.goes_to() == key.exchange,
        call matches CoreCall::GetAllInstruments(to) ==> (plan matches Plan::Reply(ZmqResponse::AllInstruments(list))
            && list@ == instruments) && call.goes_to() == to,
        call matches CoreCall::GetReferencePrice(key) ==> (plan matches Plan::Reply(ZmqResponse::Error(_)))
            && call.goes_to() == key.exchange,
        call matches CoreCall::GetFundingRate(key) ==> (plan matches Plan::Reply(ZmqResponse::Error(_)))
            && call.goes_to() == key.exchange,
        call matches CoreCall::SetLeverage(key, _) ==> (plan matches Plan::Reply(ZmqResponse::Error(_)))
            && call.goes_to() == key.exchange,
{
}

/// A question reaches a manager only where that manager is there: orders the one of orders,
/// positions the one of positions, accounts the one of accounts.
pub proof fn managers_are_asked_only_where_they_are(
    exchange: Exchange,
    managers: Managers,
    instruments: Seq<Instrument>,
    call: CoreCall,
    plan: Plan,
)
    requires
        server::plans(exchange, managers, instruments, call.becomes(), plan),
    ensures
        plan is Submit || plan is Cancel ==> managers.orders,
        plan is Position || plan is AllPositions ==> managers.positions,
        plan is Account ==> managers.account,
        call is SubmitOrder && managers.orders ==> plan is Submit,
        call is CancelOrder && managers.orders ==> plan is Cancel,
        call is GetPosition && managers.positions ==> plan is Position,
        call is GetAllPositions && managers.positions ==> plan is AllPositions,
        call is GetAccountSnapshot && managers.account ==> plan is Account,
{
}

/// An event is about the instrument of what it carries.
pub proof fn event_is_about_what_it_carries(event: ZmqEvent)
    ensures
        event matches ZmqEvent::OrderBook(book) ==> event.about() == book.key,
        event matches ZmqEvent::OrderBookUpdate(update) ==> event.about() == update.snapshot.key,
        event matches ZmqEvent::Ticker(ticker) ==> event.about() == ticker.key,
        event matches ZmqEvent::Trade(trade) ==> event.about() == trade.key,
        event matches ZmqEvent::FundingRate(rate) ==> event.about() == rate.key,
        event matches ZmqEvent::OrderUpdate(order) ==> event.about() == order.order().request.key,
        event matches ZmqEvent::PositionUpdate(p) ==> event.about() == p.key,
{
}

/// Whether two events are of one kind.
pub open spec fn same_kind(a: ZmqEvent, b: ZmqEvent) -> bool {
    match (a, b) {
        (ZmqEvent::OrderBook(_), ZmqEvent::OrderBook(_)) => true,
        (ZmqEvent::OrderBookUpdate(_), ZmqEvent::OrderBookUpdate(_)) => true,
        (ZmqEvent::Ticker(_), ZmqEvent::Ticker(_)) => true,
        (ZmqEvent::Trade(_), ZmqEvent::Trade(_)) => true,
        (ZmqEvent::FundingRate(_), ZmqEvent::FundingRate(_)) => true,
        (ZmqEvent::OrderUpdate(_), ZmqEvent::OrderUpdate(_)) => true,
        (ZmqEvent::PositionUpdate(_), ZmqEvent::PositionUpdate(_)) => true,
        _ => false,
    }
}

/// Who subscribes to one kind of event gets no other: what the topics of one kind begin with is not
/// what those of another begin with.
pub proof fn kinds_have_their_own_topics(a: ZmqEvent, b: ZmqEvent)
    ensures
        same_kind(a, b) ==> a.prefix() == b.prefix(),
        !same_kind(a, b) ==> !a.prefix().is_prefix_of(b.prefix()),
{
    reveal_strlit("MD.OB.");
    reveal_strlit("MD.OBU.");
    reveal_strlit("MD.TICKER.");
    reveal_strlit("MD.TRADE.");
    reveal_strlit("MD.FUNDING.");
    reveal_strlit("EXEC.");
    reveal_strlit("POS.");
    if !same_kind(a, b) && a.prefix().is_prefix_of(b.prefix()) {
        let (x, y) = (a.prefix(), b.prefix());
        assert(x =~= y.subrange(0, x.len() as int));
        assert(x[0] == y[0] && x[1] == y[1] && x[2] == y[2] && x[3] == y[3]);
        assert(x.len() > 4 ==> x[4] == y[4]);
        assert(x.len() > 5 ==> x[5] == y[5]);
    }
}

} // verus!
