use vstd::prelude::*;

use crate::decimal::Decimal;
use crate::manager::types::AccountSnapshot;
use crate::orders::{Order, Position};
use crate::text::concat;
use crate::types::{FundingRateSnapshot, Instrument};
use crate::zmq::protocol::ZmqResponse;

verus! {

/// Whether a message says why an answer is not the expected one: the exchange's own words, or that
/// the answer is of another kind.
pub open spec fn explains(message: Seq<char>, response: ZmqResponse) -> bool {
    match response {
        ZmqResponse::Error(e) => message == "Exchange error: "@ + e@,
        _ => message == "Unexpected response type"@,
    }
}

fn explain(response: ZmqResponse) -> (r: String)
    ensures
        explains(r@, response),
{
    match response {
        ZmqResponse::Error(e) => concat("Exchange error: ", e.as_str()),
        _ => "Unexpected response type".to_owned(),
    }
}

/// What a submission was answered.
pub fn submit_order_answer(response: ZmqResponse) -> (r: Result<Order, String>)
    ensures
        match r {
            Ok(order) => response == ZmqResponse::SubmitAck(order),
            Err(message) => !(response is SubmitAck) && explains(message@, response),
        },
{
    match response {
        ZmqResponse::SubmitAck(order) => Ok(order),
        other => Err(explain(other)),
    }
}

/// What a cancellation was answered.
pub fn cancel_order_answer(response: ZmqResponse) -> (r: Result<Order, String>)
    ensures
        match r {
            Ok(order) => response == ZmqResponse::CancelAck(order),
            Err(message) => !(response is CancelAck) && explains(message@, response),
        },
{
    match response {
        ZmqResponse::CancelAck(order) => Ok(order),
        other => Err(explain(other)),
    }
}

/// What a question for a position was answered.
pub fn get_position_answer(response: ZmqResponse) -> (r: Result<Option<Position>, String>)
    ensures
        match r {
            Ok(position) => response == ZmqResponse::Position(position),
            Err(message) => !(response is Position) && explains(message@, response),
        },
{
    match response {
        ZmqResponse::Position(position) => Ok(position),
        other => Err(explain(other)),
    }
}

/// What a question for all positions was answered.
pub fn get_all_positions_answer(response: ZmqResponse) -> (r: Result<Vec<Position>, String>)
    ensures
        match r {
            Ok(positions) => response == ZmqResponse::AllPositions(positions),
            Err(message) => !(response is AllPositions) && explains(message@, response),
        },
{
    match response {
        ZmqResponse::AllPositions(positions) => Ok(positions),
        other => Err(explain(other)),
    }
}

/// What a question for the account was answered.
pub fn get_account_snapshot_answer(response: ZmqResponse) -> (r: Result<AccountSnapshot, String>)
    ensures
        match r {
            Ok(snapshot) => response == ZmqResponse::AccountSnapshot(snapshot),
            Err(message) => !(response is AccountSnapshot) && explains(message@, response),
        },
{
    match response {
        ZmqResponse::AccountSnapshot(snapshot) => Ok(snapshot),
        other => Err(explain(other)),
    }
}

/// What a question for an instrument was answered.
pub fn get_instrument_answer(response: ZmqResponse) -> (r: Result<Option<Instrument>, String>)
    ensures
        match r {
            Ok(instrument) => response == ZmqResponse::Instrument(instrument),
            Err(message) => !(response is Instrument) && explains(message@, response),
        },
{
    match response {
        ZmqResponse::Instrument(instrument) => Ok(instrument),
        other => Err(explain(other)),
    }
}

/// What a question for all instruments was answered.
pub fn get_all_instruments_answer(response: ZmqResponse) -> (r: Result<Vec<Instrument>, String>)
    ensures
        match r {
            Ok(instruments) => response == ZmqResponse::AllInstruments(instruments),
            Err(message) => !(response is AllInstruments) && explains(message@, response),
        },
{
    match response {
        ZmqResponse::AllInstruments(instruments) => Ok(instruments),
        other => Err(explain(other)),
    }
}

/// What a question for a reference price was answered.
pub fn get_reference_price_answer(response: ZmqResponse) -> (r: Result<Decimal, String>)
    ensures
        match r {
            Ok(price) => response == ZmqResponse::ReferencePrice(price),
            Err(message) => !(response is ReferencePrice) && explains(message@, response),
        },
{
    match response {
        ZmqResponse::ReferencePrice(price) => Ok(price),
        other => Err(explain(other)),
    }
}

/// What a question for a funding rate was answered.
pub fn get_funding_rate_answer(response: ZmqResponse) -> (r: Result<FundingRateSnapshot, String>)
    ensures
        match r {
            Ok(rate) => response == ZmqResponse::FundingRate(rate),
            Err(message) => !(response is FundingRate) && explains(message@, response),
        },
{
    match response {
        ZmqResponse::FundingRate(rate) => Ok(rate),
        other => Err(explain(other)),
    }
}

/// What a change of leverage was answered.
pub fn set_leverage_answer(response: ZmqResponse) -> (r: Result<Decimal, String>)
    ensures
        match r {
            Ok(leverage) => response == ZmqResponse::SetLeverageAck(leverage),
            Err(message) => !(response is SetLeverageAck) && explains(message@, response),
        },
{
    match response {
        ZmqResponse::SetLeverageAck(leverage) => Ok(leverage),
        other => Err(explain(other)),
    }
}

} // verus!
