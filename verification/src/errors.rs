use vstd::prelude::*;
use vstd::string::*;

use crate::decimal::Decimal;
use crate::text;
use crate::text::{concat, number};

verus! {

/// What can go wrong with an HTTP request.
#[derive(Debug, PartialEq)]
pub enum ClientError {
    InvalidUrl(String),
    Request(String),
    Serialization(String),
    Unauthorized,
    RateLimited,
    Timeout,
    ServerError(u16),
    InvalidResponse(String),
    AuthError(String),
}

impl ClientError {
    /// The error in words.
    pub open spec fn text(self) -> Seq<char> {
        match self {
            ClientError::InvalidUrl(detail) => "invalid url: "@ + detail@,
            ClientError::Request(detail) => "request error: "@ + detail@,
            ClientError::Serialization(detail) => "serialization error: "@ + detail@,
            ClientError::Unauthorized => "unauthorized"@,
            ClientError::RateLimited => "rate limited"@,
            ClientError::Timeout => "timeout"@,
            ClientError::ServerError(detail) => "server error: "@ + text::digits(detail as nat),
            ClientError::InvalidResponse(detail) => "invalid response: "@ + detail@,
            ClientError::AuthError(detail) => "auth error: "@ + detail@,
        }
    }

    pub fn message(&self) -> (r: String)
        ensures
            r@ == self.text(),
    {
        match self {
            ClientError::InvalidUrl(detail) => {
                let mut out: String = "invalid url: ".to_owned();
                out.append(detail.as_str());
                out
            },
            ClientError::Request(detail) => {
                let mut out: String = "request error: ".to_owned();
                out.append(detail.as_str());
                out
            },
            ClientError::Serialization(detail) => {
                let mut out: String = "serialization error: ".to_owned();
                out.append(detail.as_str());
                out
            },
            ClientError::Unauthorized => "unauthorized".to_owned(),
            ClientError::RateLimited => "rate limited".to_owned(),
            ClientError::Timeout => "timeout".to_owned(),
            ClientError::ServerError(detail) => {
                let mut out: String = "server error: ".to_owned();
                out.append(number(*detail as u64).as_str());
                out
            },
            ClientError::InvalidResponse(detail) => {
                let mut out: String = "invalid response: ".to_owned();
                out.append(detail.as_str());
                out
            },
            ClientError::AuthError(detail) => {
                let mut out: String = "auth error: ".to_owned();
                out.append(detail.as_str());
                out
            },
        }
    }
}

/// What can go wrong with market data.
#[derive(Debug, PartialEq)]
pub enum MarketDataError {
    UnsupportedInstrument,
    NotFound(String),
    RateLimited,
    Network(String),
    Parse(String),
    Other(String),
}

impl MarketDataError {
    /// The error in words.
    pub open spec fn text(self) -> Seq<char> {
        match self {
            MarketDataError::UnsupportedInstrument => "unsupported instrument"@,
            MarketDataError::NotFound(detail) => "not found: "@ + detail@,
            MarketDataError::RateLimited => "rate limited"@,
            MarketDataError::Network(detail) => "network error: "@ + detail@,
            MarketDataError::Parse(detail) => "parse error: "@ + detail@,
            MarketDataError::Other(detail) => "other: "@ + detail@,
        }
    }

    pub fn message(&self) -> (r: String)
        ensures
            r@ == self.text(),
    {
        match self {
            MarketDataError::UnsupportedInstrument => "unsupported instrument".to_owned(),
            MarketDataError::NotFound(detail) => {
                let mut out: String = "not found: ".to_owned();
                out.append(detail.as_str());
                out
            },
            MarketDataError::RateLimited => "rate limited".to_owned(),
            MarketDataError::Network(detail) => {
                let mut out: String = "network error: ".to_owned();
                out.append(detail.as_str());
                out
            },
            MarketDataError::Parse(detail) => {
                let mut out: String = "parse error: ".to_owned();
                out.append(detail.as_str());
                out
            },
            MarketDataError::Other(detail) => {
                let mut out: String = "other: ".to_owned();
                out.append(detail.as_str());
                out
            },
        }
    }
}

/// What can go wrong with order books.
#[derive(Debug, PartialEq)]
pub enum PriceError {
    UnsupportedInstrument,
    NotFound(String),
    RateLimited,
    Network(String),
    Parse(String),
    Other(String),
}

impl PriceError {
    /// The error in words.
    pub open spec fn text(self) -> Seq<char> {
        match self {
            PriceError::UnsupportedInstrument => "unsupported instrument"@,
            PriceError::NotFound(detail) => "not found: "@ + detail@,
            PriceError::RateLimited => "rate limited"@,
            PriceError::Network(detail) => "network error: "@ + detail@,
            PriceError::Parse(detail) => "parse error: "@ + detail@,
            PriceError::Other(detail) => "other: "@ + detail@,
        }
    }

    pub fn message(&self) -> (r: String)
        ensures
            r@ == self.text(),
    {
        match self {
            PriceError::UnsupportedInstrument => "unsupported instrument".to_owned(),
            PriceError::NotFound(detail) => {
                let mut out: String = "not found: ".to_owned();
                out.append(detail.as_str());
                out
            },
            PriceError::RateLimited => "rate limited".to_owned(),
            PriceError::Network(detail) => {
                let mut out: String = "network error: ".to_owned();
                out.append(detail.as_str());
                out
            },
            PriceError::Parse(detail) => {
                let mut out: String = "parse error: ".to_owned();
                out.append(detail.as_str());
                out
            },
            PriceError::Other(detail) => {
                let mut out: String = "other: ".to_owned();
                out.append(detail.as_str());
                out
            },
        }
    }
}

/// What can go wrong with an account.
#[derive(Debug, PartialEq)]
pub enum AccountError {
    UnsupportedExchange(String),
    Unauthorized,
    RateLimited,
    Network(String),
    Parse(String),
    Other(String),
}

impl AccountError {
    /// The error in words.
    pub open spec fn text(self) -> Seq<char> {
        match self {
            AccountError::UnsupportedExchange(detail) => "unsupported exchange: "@ + detail@,
            AccountError::Unauthorized => "unauthorized"@,
            AccountError::RateLimited => "rate limited"@,
            AccountError::Network(detail) => "network error: "@ + detail@,
            AccountError::Parse(detail) => "parse error: "@ + detail@,
            AccountError::Other(detail) => "other: "@ + detail@,
        }
    }

    pub fn message(&self) -> (r: String)
        ensures
            r@ == self.text(),
    {
        match self {
            AccountError::UnsupportedExchange(detail) => {
                let mut out: String = "unsupported exchange: ".to_owned();
                out.append(detail.as_str());
                out
            },
            AccountError::Unauthorized => "unauthorized".to_owned(),
            AccountError::RateLimited => "rate limited".to_owned(),
            AccountError::Network(detail) => {
                let mut out: String = "network error: ".to_owned();
                out.append(detail.as_str());
                out
            },
            AccountError::Parse(detail) => {
                let mut out: String = "parse error: ".to_owned();
                out.append(detail.as_str());
                out
            },
            AccountError::Other(detail) => {
                let mut out: String = "other: ".to_owned();
                out.append(detail.as_str());
                out
            },
        }
    }
}

/// What can go wrong with an order.
#[derive(Debug, PartialEq)]
pub enum TradingError {
    InsufficientBalance { required: Decimal, available: Decimal },
    PositionLimitExceeded { symbol: String, requested: Decimal, limit: Decimal },
    OrderNotFound { exchange: String, order_id: String },
    InvalidExecutionMode,
    MinNotionalViolated { requested: Decimal, min: Decimal },
    MaxOrderSizeExceeded { requested: Decimal, max: Decimal },
    MaxNotionalExceeded { requested: Decimal, max: Decimal },
    PriceBandViolation { deviation_pct: Decimal, max_pct: Decimal },
    InvalidPostOnly,
    PriceNotReady,
    UnsupportedInstrument,
    RateLimited,
    Network(String),
    Parse(String),
    Other(String),
}

impl TradingError {
    /// The error in words.
    pub open spec fn text(self) -> Seq<char> {
        match self {
            TradingError::InsufficientBalance { required, available } => "insufficient balance: required "@ + required@.text() + ", available "@ + available@.text(),
            TradingError::PositionLimitExceeded { symbol, requested, limit } => "position limit exceeded: requested "@ + requested@.text() + ", limit "@ + limit@.text() + " for "@ + symbol@,
            TradingError::OrderNotFound { exchange, order_id } => "order not found: "@ + order_id@ + " on "@ + exchange@,
            TradingError::InvalidExecutionMode => "invalid execution mode: cannot execute live trade in paper mode"@,
            TradingError::MinNotionalViolated { requested, min } => "minimum notional violated: requested "@ + requested@.text() + ", minimum "@ + min@.text(),
            TradingError::MaxOrderSizeExceeded { requested, max } => "order size "@ + requested@.text() + " exceeds maximum allowed "@ + max@.text(),
            TradingError::MaxNotionalExceeded { requested, max } => "order notional "@ + requested@.text() + " exceeds maximum allowed "@ + max@.text(),
            TradingError::PriceBandViolation { deviation_pct, max_pct } => "limit price deviates "@ + deviation_pct@.text() + "% from market price, exceeds max "@ + max_pct@.text() + "%"@,
            TradingError::InvalidPostOnly => "post_only is only valid for Limit orders"@,
            TradingError::PriceNotReady => "price data not available for instrument — wait for order book snapshot"@,
            TradingError::UnsupportedInstrument => "unsupported instrument"@,
            TradingError::RateLimited => "rate limited"@,
            TradingError::Network(detail) => "network error: "@ + detail@,
            TradingError::Parse(detail) => "parse error: "@ + detail@,
            TradingError::Other(detail) => "other: "@ + detail@,
        }
    }

    pub fn message(&self) -> (r: String)
        ensures
            r@ == self.text(),
    {
        match self {
            TradingError::InsufficientBalance { required, available } => {
                let mut out: String = "insufficient balance: required ".to_owned();
                out.append(required.to_string().as_str());
                out.append(", available ");
                out.append(available.to_string().as_str());
                out
            },
            TradingError::PositionLimitExceeded { symbol, requested, limit } => {
                let mut out: String = "position limit exceeded: requested ".to_owned();
                out.append(requested.to_string().as_str());
                out.append(", limit ");
                out.append(limit.to_string().as_str());
                out.append(" for ");
                out.append(symbol.as_str());
                out
            },
            TradingError::OrderNotFound { exchange, order_id } => {
                let mut out: String = "order not found: ".to_owned();
                out.append(order_id.as_str());
                out.append(" on ");
                out.append(exchange.as_str());
                out
            },
            TradingError::InvalidExecutionMode => "invalid execution mode: cannot execute live trade in paper mode".to_owned(),
            TradingError::MinNotionalViolated { requested, min } => {
                let mut out: String = "minimum notional violated: requested ".to_owned();
                out.append(requested.to_string().as_str());
                out.append(", minimum ");
                out.append(min.to_string().as_str());
                out
            },
            TradingError::MaxOrderSizeExceeded { requested, max } => {
                let mut out: String = "order size ".to_owned();
                out.append(requested.to_string().as_str());
                out.append(" exceeds maximum allowed ");
                out.append(max.to_string().as_str());
                out
            },
            TradingError::MaxNotionalExceeded { requested, max } => {
                let mut out: String = "order notional ".to_owned();
                out.append(requested.to_string().as_str());
                out.append(" exceeds maximum allowed ");
                out.append(max.to_string().as_str());
                out
            },
            TradingError::PriceBandViolation { deviation_pct, max_pct } => {
                let mut out: String = "limit price deviates ".to_owned();
                out.append(deviation_pct.to_string().as_str());
                out.append("% from market price, exceeds max ");
                out.append(max_pct.to_string().as_str());
                out.append("%");
                out
            },
            TradingError::InvalidPostOnly => "post_only is only valid for Limit orders".to_owned(),
            TradingError::PriceNotReady => "price data not available for instrument — wait for order book snapshot".to_owned(),
            TradingError::UnsupportedInstrument => "unsupported instrument".to_owned(),
            TradingError::RateLimited => "rate limited".to_owned(),
            TradingError::Network(detail) => {
                let mut out: String = "network error: ".to_owned();
                out.append(detail.as_str());
                out
            },
            TradingError::Parse(detail) => {
                let mut out: String = "parse error: ".to_owned();
                out.append(detail.as_str());
                out
            },
            TradingError::Other(detail) => {
                let mut out: String = "other: ".to_owned();
                out.append(detail.as_str());
                out
            },
        }
    }
}

/// What can go wrong with a WebSocket connection.
#[derive(Debug, PartialEq)]
pub enum WsError {
    PrepareFailed(String),
    ConnectFailed(String),
    HandshakeFailed(String),
    HeartbeatFailed(String),
    ReceiverDropped,
}

impl WsError {
    /// The error in words.
    pub open spec fn text(self) -> Seq<char> {
        match self {
            WsError::PrepareFailed(detail) => "WebSocket prepare phase failed: "@ + detail@,
            WsError::ConnectFailed(detail) => "WebSocket connect failed: "@ + detail@,
            WsError::HandshakeFailed(detail) => "WebSocket handshake/on_connected failed: "@ + detail@,
            WsError::HeartbeatFailed(detail) => "WebSocket heartbeat failed: "@ + detail@,
            WsError::ReceiverDropped => "WebSocket message receiver dropped"@,
        }
    }

    pub fn message(&self) -> (r: String)
        ensures
            r@ == self.text(),
    {
        match self {
            WsError::PrepareFailed(detail) => {
                let mut out: String = "WebSocket prepare phase failed: ".to_owned();
                out.append(detail.as_str());
                out
            },
            WsError::ConnectFailed(detail) => {
                let mut out: String = "WebSocket connect failed: ".to_owned();
                out.append(detail.as_str());
                out
            },
            WsError::HandshakeFailed(detail) => {
                let mut out: String = "WebSocket handshake/on_connected failed: ".to_owned();
                out.append(detail.as_str());
                out
            },
            WsError::HeartbeatFailed(detail) => {
                let mut out: String = "WebSocket heartbeat failed: ".to_owned();
                out.append(detail.as_str());
                out
            },
            WsError::ReceiverDropped => "WebSocket message receiver dropped".to_owned(),
        }
    }
}

/// What can be wrong with a configuration.
#[derive(Debug, PartialEq)]
pub enum ConfigError {
    MissingField { field: String },
    InvalidValue { field: String, value: String, expected: String },
    ValidationFailed { reason: String },
    LoadError(String),
}

impl ConfigError {
    /// The error in words.
    pub open spec fn text(self) -> Seq<char> {
        match self {
            ConfigError::MissingField { field } => "Missing required configuration: "@ + field@,
            ConfigError::InvalidValue { field, value, expected } => "Invalid value for "@ + field@ + ": "@ + value@ + " (expected "@ + expected@ + ")"@,
            ConfigError::ValidationFailed { reason } => "Configuration validation failed: "@ + reason@,
            ConfigError::LoadError(detail) => "Failed to load configuration: "@ + detail@,
        }
    }

    pub fn message(&self) -> (r: String)
        ensures
            r@ == self.text(),
    {
        match self {
            ConfigError::MissingField { field } => {
                let mut out: String = "Missing required configuration: ".to_owned();
                out.append(field.as_str());
                out
            },
            ConfigError::InvalidValue { field, value, expected } => {
                let mut out: String = "Invalid value for ".to_owned();
                out.append(field.as_str());
                out.append(": ");
                out.append(value.as_str());
                out.append(" (expected ");
                out.append(expected.as_str());
                out.append(")");
                out
            },
            ConfigError::ValidationFailed { reason } => {
                let mut out: String = "Configuration validation failed: ".to_owned();
                out.append(reason.as_str());
                out
            },
            ConfigError::LoadError(detail) => {
                let mut out: String = "Failed to load configuration: ".to_owned();
                out.append(detail.as_str());
                out
            },
        }
    }
}

impl MarketDataError {
    /// How a request's error is passed on.
    pub open spec fn is_from_client(self, err: ClientError) -> bool {
        match (err, self) {
            (ClientError::RateLimited, MarketDataError::RateLimited) => true,
            (ClientError::Timeout, MarketDataError::Network(s)) => s@ == "timeout"@,
            (ClientError::Request(detail), MarketDataError::Network(s)) => s == detail,
            (ClientError::InvalidUrl(detail), MarketDataError::Other(s)) => s == detail,
            (ClientError::Serialization(detail), MarketDataError::Parse(s)) => s == detail,
            (ClientError::ServerError(code), MarketDataError::Network(s)) => s@ == "server error: "@ + text::digits(code as nat),
            (ClientError::InvalidResponse(detail), MarketDataError::Parse(s)) => s == detail,
            (ClientError::Unauthorized, MarketDataError::Other(s)) => s@ == "unauthorized"@,
            (ClientError::AuthError(detail), MarketDataError::Other(s)) => s@ == "auth error: "@ + detail@,
            _ => false,
        }
    }
}

impl From<ClientError> for MarketDataError {
    fn from(err: ClientError) -> (r: MarketDataError)
        ensures
            r.is_from_client(err),
    {
        match err {
            ClientError::RateLimited => MarketDataError::RateLimited,
            ClientError::Timeout => MarketDataError::Network("timeout".to_owned()),
            ClientError::Request(detail) => MarketDataError::Network(detail),
            ClientError::InvalidUrl(detail) => MarketDataError::Other(detail),
            ClientError::Serialization(detail) => MarketDataError::Parse(detail),
            ClientError::ServerError(code) => MarketDataError::Network(concat("server error: ", number(code as u64).as_str())),
            ClientError::InvalidResponse(detail) => MarketDataError::Parse(detail),
            ClientError::Unauthorized => MarketDataError::Other("unauthorized".to_owned()),
            ClientError::AuthError(detail) => MarketDataError::Other(concat("auth error: ", detail.as_str())),
        }
    }
}

impl vstd::std_specs::convert::FromSpecImpl<ClientError> for MarketDataError {
    open spec fn obeys_from_spec() -> bool {
        false
    }

    open spec fn from_spec(err: ClientError) -> MarketDataError {
        arbitrary()
    }
}

impl AccountError {
    /// How a request's error is passed on.
    pub open spec fn is_from_client(self, err: ClientError) -> bool {
        match (err, self) {
            (ClientError::RateLimited, AccountError::RateLimited) => true,
            (ClientError::Timeout, AccountError::Network(s)) => s@ == "timeout"@,
            (ClientError::Request(detail), AccountError::Network(s)) => s == detail,
            (ClientError::InvalidUrl(detail), AccountError::Other(s)) => s == detail,
            (ClientError::Serialization(detail), AccountError::Parse(s)) => s == detail,
            (ClientError::ServerError(code), AccountError::Network(s)) => s@ == "server error: "@ + text::digits(code as nat),
            (ClientError::InvalidResponse(detail), AccountError::Parse(s)) => s == detail,
            (ClientError::Unauthorized, AccountError::Unauthorized) => true,
            (ClientError::AuthError(detail), AccountError::Other(s)) => s@ == "auth error: "@ + detail@,
            _ => false,
        }
    }
}

impl From<ClientError> for AccountError {
    fn from(err: ClientError) -> (r: AccountError)
        ensures
            r.is_from_client(err),
    {
        match err {
            ClientError::RateLimited => AccountError::RateLimited,
            ClientError::Timeout => AccountError::Network("timeout".to_owned()),
            ClientError::Request(detail) => AccountError::Network(detail),
            ClientError::InvalidUrl(detail) => AccountError::Other(detail),
            ClientError::Serialization(detail) => AccountError::Parse(detail),
            ClientError::ServerError(code) => AccountError::Network(concat("server error: ", number(code as u64).as_str())),
            ClientError::InvalidResponse(detail) => AccountError::Parse(detail),
            ClientError::Unauthorized => AccountError::Unauthorized,
            ClientError::AuthError(detail) => AccountError::Other(concat("auth error: ", detail.as_str())),
        }
    }
}

impl vstd::std_specs::convert::FromSpecImpl<ClientError> for AccountError {
    open spec fn obeys_from_spec() -> bool {
        false
    }

    open spec fn from_spec(err: ClientError) -> AccountError {
        arbitrary()
    }
}

impl PriceError {
    /// How a request's error is passed on.
    pub open spec fn is_from_client(self, err: ClientError) -> bool {
        match (err, self) {
            (ClientError::RateLimited, PriceError::RateLimited) => true,
            (ClientError::Timeout, PriceError::Network(s)) => s@ == "timeout"@,
            (ClientError::Request(detail), PriceError::Network(s)) => s == detail,
            (ClientError::InvalidUrl(detail), PriceError::Other(s)) => s == detail,
            (ClientError::Serialization(detail), PriceError::Parse(s)) => s == detail,
            (ClientError::ServerError(code), PriceError::Network(s)) => s@ == "server error: "@ + text::digits(code as nat),
            (ClientError::InvalidResponse(detail), PriceError::Parse(s)) => s == detail,
            (ClientError::Unauthorized, PriceError::Other(s)) => s@ == "unauthorized"@,
            (ClientError::AuthError(detail), PriceError::Other(s)) => s@ == "auth error: "@ + detail@,
            _ => false,
        }
    }
}

impl From<ClientError> for PriceError {
    fn from(err: ClientError) -> (r: PriceError)
        ensures
            r.is_from_client(err),
    {
        match err {
            ClientError::RateLimited => PriceError::RateLimited,
            ClientError::Timeout => PriceError::Network("timeout".to_owned()),
            ClientError::Request(detail) => PriceError::Network(detail),
            ClientError::InvalidUrl(detail) => PriceError::Other(detail),
            ClientError::Serialization(detail) => PriceError::Parse(detail),
            ClientError::ServerError(code) => PriceError::Network(concat("server error: ", number(code as u64).as_str())),
            ClientError::InvalidResponse(detail) => PriceError::Parse(detail),
            ClientError::Unauthorized => PriceError::Other("unauthorized".to_owned()),
            ClientError::AuthError(detail) => PriceError::Other(concat("auth error: ", detail.as_str())),
        }
    }
}

impl vstd::std_specs::convert::FromSpecImpl<ClientError> for PriceError {
    open spec fn obeys_from_spec() -> bool {
        false
    }

    open spec fn from_spec(err: ClientError) -> PriceError {
        arbitrary()
    }
}

impl TradingError {
    /// How a request's error is passed on.
    pub open spec fn is_from_client(self, err: ClientError) -> bool {
        match (err, self) {
            (ClientError::RateLimited, TradingError::RateLimited) => true,
            (ClientError::Timeout, TradingError::Network(s)) => s@ == "timeout"@,
            (ClientError::Request(detail), TradingError::Network(s)) => s == detail,
            (ClientError::InvalidUrl(detail), TradingError::Other(s)) => s == detail,
            (ClientError::Serialization(detail), TradingError::Parse(s)) => s == detail,
            (ClientError::ServerError(code), TradingError::Network(s)) => s@ == "server error: "@ + text::digits(code as nat),
            (ClientError::InvalidResponse(detail), TradingError::Parse(s)) => s == detail,
            (ClientError::Unauthorized, TradingError::Other(s)) => s@ == "unauthorized"@,
            (ClientError::AuthError(detail), TradingError::Other(s)) => s@ == "auth error: "@ + detail@,
            _ => false,
        }
    }
}

impl From<ClientError> for TradingError {
    fn from(err: ClientError) -> (r: TradingError)
        ensures
            r.is_from_client(err),
    {
        match err {
            ClientError::RateLimited => TradingError::RateLimited,
            ClientError::Timeout => TradingError::Network("timeout".to_owned()),
            ClientError::Request(detail) => TradingError::Network(detail),
            ClientError::InvalidUrl(detail) => TradingError::Other(detail),
            ClientError::Serialization(detail) => TradingError::Parse(detail),
            ClientError::ServerError(code) => TradingError::Network(concat("server error: ", number(code as u64).as_str())),
            ClientError::InvalidResponse(detail) => TradingError::Parse(detail),
            ClientError::Unauthorized => TradingError::Other("unauthorized".to_owned()),
            ClientError::AuthError(detail) => TradingError::Other(concat("auth error: ", detail.as_str())),
        }
    }
}

impl vstd::std_specs::convert::FromSpecImpl<ClientError> for TradingError {
    open spec fn obeys_from_spec() -> bool {
        false
    }

    open spec fn from_spec(err: ClientError) -> TradingError {
        arbitrary()
    }
}

impl TradingError {
    /// How a account's error is passed on.
    pub open spec fn is_from_account(self, err: AccountError) -> bool {
        match (err, self) {
            (AccountError::Unauthorized, TradingError::Other(s)) => s@ == "unauthorized"@,
            (AccountError::RateLimited, TradingError::RateLimited) => true,
            (AccountError::Network(detail), TradingError::Network(s)) => s == detail,
            (AccountError::Parse(detail), TradingError::Parse(s)) => s == detail,
            (AccountError::UnsupportedExchange(detail), TradingError::Other(s)) => s == detail,
            (AccountError::Other(detail), TradingError::Other(s)) => s == detail,
            _ => false,
        }
    }
}

impl From<AccountError> for TradingError {
    fn from(err: AccountError) -> (r: TradingError)
        ensures
            r.is_from_account(err),
    {
        match err {
            AccountError::Unauthorized => TradingError::Other("unauthorized".to_owned()),
            AccountError::RateLimited => TradingError::RateLimited,
            AccountError::Network(detail) => TradingError::Network(detail),
            AccountError::Parse(detail) => TradingError::Parse(detail),
            AccountError::UnsupportedExchange(detail) => TradingError::Other(detail),
            AccountError::Other(detail) => TradingError::Other(detail),
        }
    }
}

impl vstd::std_specs::convert::FromSpecImpl<AccountError> for TradingError {
    open spec fn obeys_from_spec() -> bool {
        false
    }

    open spec fn from_spec(err: AccountError) -> TradingError {
        arbitrary()
    }
}

impl Clone for AccountError {
    fn clone(&self) -> (r: AccountError)
        ensures
            r == *self,
    {
        match self {
            AccountError::UnsupportedExchange(detail) => AccountError::UnsupportedExchange(detail.clone()),
            AccountError::Unauthorized => AccountError::Unauthorized,
            AccountError::RateLimited => AccountError::RateLimited,
            AccountError::Network(detail) => AccountError::Network(detail.clone()),
            AccountError::Parse(detail) => AccountError::Parse(detail.clone()),
            AccountError::Other(detail) => AccountError::Other(detail.clone()),
        }
    }
}

impl Clone for PriceError {
    fn clone(&self) -> (r: PriceError)
        ensures
            r == *self,
    {
        match self {
            PriceError::UnsupportedInstrument => PriceError::UnsupportedInstrument,
            PriceError::NotFound(detail) => PriceError::NotFound(detail.clone()),
            PriceError::RateLimited => PriceError::RateLimited,
            PriceError::Network(detail) => PriceError::Network(detail.clone()),
            PriceError::Parse(detail) => PriceError::Parse(detail.clone()),
            PriceError::Other(detail) => PriceError::Other(detail.clone()),
        }
    }
}

/// The kind of error that an exchange's refusal becomes does not depend on whether the request was
/// made for market data, prices or trading.
pub proof fn request_errors_agree(err: ClientError, m: MarketDataError, p: PriceError, t: TradingError)
    requires
        m.is_from_client(err),
        p.is_from_client(err),
        t.is_from_client(err),
    ensures
        m.text() == p.text(),
        m.text() == t.text(),
{
}

} // verus!
