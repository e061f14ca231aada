use vstd::prelude::*;

use crate::errors::TradingError;
use crate::kinds::Exchange;
use crate::manager::account::AccountManagerError;
use crate::manager::types::AccountSnapshot;
use crate::orders::{Order, OrderRequest, Position};
use crate::registry;
use crate::registry::InstrumentRegistry;
use crate::types::InstrumentKey;
use crate::zmq::protocol::{ZmqCommand, ZmqResponse};

verus! {

/// Settings of an exchange's server.
#[derive(Debug)]
pub struct ZmqServerConfig {
    pub exchange: Exchange,
    pub redis_url: String,
    pub ttl_secs: u64,
}

/// The managers that a server can ask.
#[derive(Clone, Copy, Debug)]
pub struct Managers {
    pub orders: bool,
    pub positions: bool,
    pub account: bool,
}

/// What a command comes to: an answer at once, or a question to a manager.
#[derive(Debug)]
pub enum Plan {
    Reply(ZmqResponse),
    Submit(OrderRequest),
    Cancel(String),
    Position(InstrumentKey),
    AllPositions,
    /// The snapshot of the server's own exchange.
    Account(Exchange),
}

/// The answer that a manager is not there.
pub open spec fn says(r: Plan, message: Seq<char>) -> bool {
    r matches Plan::Reply(ZmqResponse::Error(m)) && m@ == message
}

/// Whether a command comes to a plan.
pub open spec fn plans(
    exchange: Exchange,
    managers: Managers,
    instruments: Seq<crate::types::Instrument>,
    command: ZmqCommand,
    r: Plan,
) -> bool {
    match command {
        ZmqCommand::SubmitOrder(req) => if managers.orders {
            r == Plan::Submit(req)
        } else {
            says(r, "Order management not implemented for this exchange"@)
        },
        ZmqCommand::CancelOrder(id) => if managers.orders {
            r == Plan::Cancel(id)
        } else {
            says(r, "Order management not implemented for this exchange"@)
        },
        ZmqCommand::GetPosition(key) => if managers.positions {
            r == Plan::Position(key)
        } else {
            says(r, "Position management not implemented for this exchange"@)
        },
        ZmqCommand::GetAllPositions => if managers.positions {
            r == Plan::AllPositions
        } else {
            says(r, "Position management not implemented for this exchange"@)
        },
        ZmqCommand::GetAccountSnapshot => if managers.account {
            r == Plan::Account(exchange)
        } else {
            says(r, "Account management not implemented for this exchange"@)
        },
        ZmqCommand::GetInstrument(key) => r == Plan::Reply(
            ZmqResponse::Instrument(registry::found(instruments, key)),
        ),
        ZmqCommand::GetAllInstruments => r matches Plan::Reply(ZmqResponse::AllInstruments(list)) && list@ == instruments,
        ZmqCommand::GetReferencePrice(_) => says(r, "Reference prices not implemented for this exchange"@),
        ZmqCommand::GetFundingRate(_) => says(r, "Funding rates not implemented for this exchange"@),
        ZmqCommand::SetLeverage(_, _) => says(r, "Leverage not implemented for this exchange"@),
    }
}

fn error(message: &str) -> (r: Plan)
    ensures
        says(r, message@),
{
    Plan::Reply(ZmqResponse::Error(message.to_owned()))
}

/// What is to be done for a command.
pub fn process_command(exchange: Exchange, managers: Managers, registry: &InstrumentRegistry, command: ZmqCommand) -> (r:
    Plan)
    ensures
        plans(exchange, managers, registry@, command, r),
{
    match command {
        ZmqCommand::SubmitOrder(req) => if managers.orders {
            Plan::Submit(req)
        } else {
            error("Order management not implemented for this exchange")
        },
        ZmqCommand::CancelOrder(id) => if managers.orders {
            Plan::Cancel(id)
        } else {
            error("Order management not implemented for this exchange")
        },
        ZmqCommand::GetPosition(key) => if managers.positions {
            Plan::Position(key)
        } else {
            error("Position management not implemented for this exchange")
        },
        ZmqCommand::GetAllPositions => if managers.positions {
            Plan::AllPositions
        } else {
            error("Position management not implemented for this exchange")
        },
        ZmqCommand::GetAccountSnapshot => if managers.account {
            Plan::Account(exchange)
        } else {
            error("Account management not implemented for this exchange")
        },
        ZmqCommand::GetInstrument(key) => Plan::Reply(ZmqResponse::Instrument(registry.get(&key))),
        ZmqCommand::GetAllInstruments => Plan::Reply(ZmqResponse::AllInstruments(registry.get_all())),
        ZmqCommand::GetReferencePrice(_) => error("Reference prices not implemented for this exchange"),
        ZmqCommand::GetFundingRate(_) => error("Funding rates not implemented for this exchange"),
        ZmqCommand::SetLeverage(_, _) => error("Leverage not implemented for this exchange"),
    }
}

/// The answer to an order that was submitted.
pub fn submit_response(result: Result<Order, TradingError>) -> (r: ZmqResponse)
    ensures
        match result {
            Ok(order) => r == ZmqResponse::SubmitAck(order),
            Err(e) => r matches ZmqResponse::Error(m) && m@ == e.text(),
        },
{
    match result {
        Ok(order) => ZmqResponse::SubmitAck(order),
        Err(e) => ZmqResponse::Error(e.message()),
    }
}

/// The answer to an order that was to be cancelled.
pub fn cancel_response(result: Result<Order, TradingError>) -> (r: ZmqResponse)
    ensures
        match result {
            Ok(order) => r == ZmqResponse::CancelAck(order),
            Err(e) => r matches ZmqResponse::Error(m) && m@ == e.text(),
        },
{
    match result {
        Ok(order) => ZmqResponse::CancelAck(order),
        Err(e) => ZmqResponse::Error(e.message()),
    }
}

/// The answer to a question for the account.
pub fn account_response(result: Result<AccountSnapshot, AccountManagerError>) -> (r: ZmqResponse)
    ensures
        match result {
            Ok(snapshot) => r == ZmqResponse::AccountSnapshot(snapshot),
            Err(e) => r matches ZmqResponse::Error(m) && m@ == e.text(),
        },
{
    match result {
        Ok(snapshot) => ZmqResponse::AccountSnapshot(snapshot),
        Err(e) => ZmqResponse::Error(e.message()),
    }
}

/// The answer to a question for one position.
pub fn position_response(position: Option<Position>) -> (r: ZmqResponse)
    ensures
        r == ZmqResponse::Position(position),
{
    ZmqResponse::Position(position)
}

/// The answer to a question for all positions.
pub fn positions_response(positions: Vec<Position>) -> (r: ZmqResponse)
    ensures
        r == ZmqResponse::AllPositions(positions),
{
    ZmqResponse::AllPositions(positions)
}

/// The answer to a message that cannot be read.
pub fn unreadable_response() -> (r: ZmqResponse)
    ensures
        r matches ZmqResponse::Error(m) && m@ == "Invalid payload format"@,
{
    ZmqResponse::Error("Invalid payload format".to_owned())
}

/// Without a manager no command reaches one: the answer is an error.
pub proof fn no_manager_no_question(
    exchange: Exchange,
    instruments: Seq<crate::types::Instrument>,
    command: ZmqCommand,
    r: Plan,
)
    requires
        plans(exchange, Managers { orders: false, positions: false, account: false }, instruments, command, r),
    ensures
        r is Reply,
        !(command is GetInstrument) && !(command is GetAllInstruments) ==> (r->Reply_0) is Error,
{
}

} // verus!
