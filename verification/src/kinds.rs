use vstd::prelude::*;

use crate::text::same;

verus! {

/// Currencies that are traded or held.
#[derive(Clone, Copy, Debug, PartialEq, Eq, Hash, Structural)]
pub enum Currency {
    BTC,
    ETH,
    XRP,
    USDT,
    USDC,
    SOL,
}

/// Kinds of instrument.
#[derive(Clone, Copy, Debug, PartialEq, Eq, PartialOrd, Ord, Hash, Structural)]
pub enum InstrumentType {
    Spot,
    Swap,
}

/// Exchanges that a key may name.
#[derive(Clone, Copy, Debug, PartialEq, Eq, PartialOrd, Ord, Hash, Structural)]
pub enum Exchange {
    Binance,
    Bybit,
    Gateio,
    Aster,
    Okx,
}

/// Currency pairs that are traded.
#[derive(Clone, Copy, Debug, PartialEq, Eq, Hash, Structural)]
pub enum Pairs {
    BTCUSDT,
    ETHUSDT,
    XRPUSDT,
    USDCUSDT,
    SOLUSDT,
}

/// How often funding is paid.
#[derive(Clone, Copy, Debug, PartialEq, Eq, Hash, Structural)]
pub enum FundingInterval {
    EveryHour,
    Every4Hours,
    Every8Hours,
    CustomSeconds(u32),
}

/// Whether orders go to the exchange or stay on paper.
#[derive(Clone, Copy, Debug, PartialEq, Eq, Hash, Structural)]
pub enum ExecutionMode {
    Live,
    Paper,
}

impl Default for ExecutionMode {
    fn default() -> (r: ExecutionMode)
        ensures
            r == ExecutionMode::Paper,
    {
        ExecutionMode::Paper
    }
}

/// The side of an order.
#[derive(Clone, Copy, Debug, PartialEq, Eq, Hash, Structural)]
pub enum OrderSide {
    Buy,
    Sell,
}

/// The type of an order.
#[derive(Clone, Copy, Debug, PartialEq, Eq, Hash, Structural)]
pub enum OrderType {
    Market,
    Limit,
    PostOnly,
}

/// Where an order stands in its life.
#[derive(Clone, Copy, Debug, PartialEq, Eq, Hash, Structural)]
pub enum OrderStatus {
    PendingSubmit,
    New,
    PartiallyFilled,
    Filled,
    Canceled,
    Rejected,
}

impl Currency {
    /// The currency's code.
    pub open spec fn text(self) -> Seq<char> {
        match self {
            Currency::BTC => "BTC"@,
            Currency::ETH => "ETH"@,
            Currency::XRP => "XRP"@,
            Currency::USDT => "USDT"@,
            Currency::USDC => "USDC"@,
            Currency::SOL => "SOL"@,
        }
    }

    /// The variant that a text names.
    pub open spec fn named(s: Seq<char>) -> Option<Currency> {
        if s == "BTC"@ {
            Some(Currency::BTC)
        } else if s == "ETH"@ {
            Some(Currency::ETH)
        } else if s == "XRP"@ {
            Some(Currency::XRP)
        } else if s == "USDT"@ {
            Some(Currency::USDT)
        } else if s == "USDC"@ {
            Some(Currency::USDC)
        } else if s == "SOL"@ {
            Some(Currency::SOL)
        } else {
            None
        }
    }

    pub fn to_string(&self) -> (r: String)
        ensures
            r@ == self.text(),
    {
        match self {
            Currency::BTC => "BTC".to_owned(),
            Currency::ETH => "ETH".to_owned(),
            Currency::XRP => "XRP".to_owned(),
            Currency::USDT => "USDT".to_owned(),
            Currency::USDC => "USDC".to_owned(),
            Currency::SOL => "SOL".to_owned(),
        }
    }

    pub fn from_str(s: &str) -> (r: Option<Currency>)
        ensures
            r == Currency::named(s@),
    {
        if same(s, "BTC") {
            Some(Currency::BTC)
        } else if same(s, "ETH") {
            Some(Currency::ETH)
        } else if same(s, "XRP") {
            Some(Currency::XRP)
        } else if same(s, "USDT") {
            Some(Currency::USDT)
        } else if same(s, "USDC") {
            Some(Currency::USDC)
        } else if same(s, "SOL") {
            Some(Currency::SOL)
        } else {
            None
        }
    }
}

/// Reading back what `Currency::to_string` writes gives the same value.
pub proof fn currency_text_round_trip(v: Currency)
    ensures
        Currency::named(v.text()) == Some(v),
{
    reveal_strlit("BTC");
    reveal_strlit("ETH");
    reveal_strlit("XRP");
    reveal_strlit("USDT");
    reveal_strlit("USDC");
    reveal_strlit("SOL");
    assert("BTC"@.len() == 3);
    assert("ETH"@.len() == 3);
    assert("XRP"@.len() == 3);
    assert("USDT"@.len() == 4);
    assert("USDC"@.len() == 4);
    assert("SOL"@.len() == 3);
    assert("BTC"@[0] != "ETH"@[0]);
    assert("BTC"@[0] != "XRP"@[0]);
    assert("ETH"@[0] != "XRP"@[0]);
    assert("USDT"@[3] != "USDC"@[3]);
    assert("BTC"@[0] != "SOL"@[0]);
    assert("ETH"@[0] != "SOL"@[0]);
    assert("XRP"@[0] != "SOL"@[0]);
}

impl InstrumentType {
    /// The kind in lower case.
    pub open spec fn text(self) -> Seq<char> {
        match self {
            InstrumentType::Spot => "spot"@,
            InstrumentType::Swap => "swap"@,
        }
    }

    /// The variant that a text names.
    pub open spec fn named(s: Seq<char>) -> Option<InstrumentType> {
        if s == "spot"@ {
            Some(InstrumentType::Spot)
        } else if s == "swap"@ {
            Some(InstrumentType::Swap)
        } else {
            None
        }
    }

    pub fn to_string(&self) -> (r: String)
        ensures
            r@ == self.text(),
    {
        match self {
            InstrumentType::Spot => "spot".to_owned(),
            InstrumentType::Swap => "swap".to_owned(),
        }
    }

    pub fn from_str(s: &str) -> (r: Option<InstrumentType>)
        ensures
            r == InstrumentType::named(s@),
    {
        if same(s, "spot") {
            Some(InstrumentType::Spot)
        } else if same(s, "swap") {
            Some(InstrumentType::Swap)
        } else {
            None
        }
    }
}

/// Reading back what `InstrumentType::to_string` writes gives the same value.
pub proof fn instrumenttype_text_round_trip(v: InstrumentType)
    ensures
        InstrumentType::named(v.text()) == Some(v),
{
    reveal_strlit("spot");
    reveal_strlit("swap");
    assert("spot"@[1] != "swap"@[1]);
}

impl Exchange {
    /// The two-letter code of the exchange.
    pub open spec fn code(self) -> Seq<char> {
        match self {
            Exchange::Binance => "BN"@,
            Exchange::Bybit => "BY"@,
            Exchange::Gateio => "GT"@,
            Exchange::Aster => "AS"@,
            Exchange::Okx => "OK"@,
        }
    }

    pub fn short_code(&self) -> (r: &'static str)
        ensures
            r@ == self.code(),
    {
        match self {
            Exchange::Binance => "BN",
            Exchange::Bybit => "BY",
            Exchange::Gateio => "GT",
            Exchange::Aster => "AS",
            Exchange::Okx => "OK",
        }
    }

    /// The exchange's name in lower case.
    pub open spec fn text(self) -> Seq<char> {
        match self {
            Exchange::Binance => "binance"@,
            Exchange::Bybit => "bybit"@,
            Exchange::Gateio => "gateio"@,
            Exchange::Aster => "aster"@,
            Exchange::Okx => "okx"@,
        }
    }

    /// The variant that a text names.
    pub open spec fn named(s: Seq<char>) -> Option<Exchange> {
        if s == "binance"@ || s == "BN"@ {
            Some(Exchange::Binance)
        } else if s == "bybit"@ || s == "BY"@ {
            Some(Exchange::Bybit)
        } else if s == "gateio"@ || s == "GT"@ {
            Some(Exchange::Gateio)
        } else if s == "aster"@ || s == "AS"@ {
            Some(Exchange::Aster)
        } else if s == "okx"@ || s == "OK"@ {
            Some(Exchange::Okx)
        } else {
            None
        }
    }

    pub fn to_string(&self) -> (r: String)
        ensures
            r@ == self.text(),
    {
        match self {
            Exchange::Binance => "binance".to_owned(),
            Exchange::Bybit => "bybit".to_owned(),
            Exchange::Gateio => "gateio".to_owned(),
            Exchange::Aster => "aster".to_owned(),
            Exchange::Okx => "okx".to_owned(),
        }
    }

    pub fn from_str(s: &str) -> (r: Option<Exchange>)
        ensures
            r == Exchange::named(s@),
    {
        if same(s, "binance") || same(s, "BN") {
            Some(Exchange::Binance)
        } else if same(s, "bybit") || same(s, "BY") {
            Some(Exchange::Bybit)
        } else if same(s, "gateio") || same(s, "GT") {
            Some(Exchange::Gateio)
        } else if same(s, "aster") || same(s, "AS") {
            Some(Exchange::Aster)
        } else if same(s, "okx") || same(s, "OK") {
            Some(Exchange::Okx)
        } else {
            None
        }
    }
}

/// Reading back an exchange's name or its short code gives the same exchange.
pub proof fn exchange_text_round_trip(v: Exchange)
    ensures
        Exchange::named(v.text()) == Some(v),
        Exchange::named(v.code()) == Some(v),
{
    reveal_strlit("binance");
    reveal_strlit("BN");
    reveal_strlit("bybit");
    reveal_strlit("BY");
    reveal_strlit("gateio");
    reveal_strlit("GT");
    reveal_strlit("aster");
    reveal_strlit("AS");
    reveal_strlit("okx");
    reveal_strlit("OK");
    assert("binance"@.len() == 7);
    assert("bybit"@.len() == 5);
    assert("gateio"@.len() == 6);
    assert("aster"@.len() == 5);
    assert("okx"@.len() == 3);
    assert("BN"@.len() == 2);
    assert("BY"@.len() == 2);
    assert("GT"@.len() == 2);
    assert("AS"@.len() == 2);
    assert("OK"@.len() == 2);
    assert("bybit"@[0] != "aster"@[0]);
    assert("BN"@[1] != "BY"@[1]);
    assert("BN"@[0] != "GT"@[0]);
    assert("BY"@[0] != "GT"@[0]);
    assert("BN"@[0] != "AS"@[0]);
    assert("BY"@[0] != "AS"@[0]);
    assert("GT"@[0] != "AS"@[0]);
    assert("BN"@[0] != "OK"@[0]);
    assert("BY"@[0] != "OK"@[0]);
    assert("GT"@[0] != "OK"@[0]);
    assert("AS"@[0] != "OK"@[0]);
}

impl Pairs {
    /// The pair's symbol: the base currency's code and then the quote currency's.
    pub open spec fn text(self) -> Seq<char> {
        match self {
            Pairs::BTCUSDT => "BTCUSDT"@,
            Pairs::ETHUSDT => "ETHUSDT"@,
            Pairs::XRPUSDT => "XRPUSDT"@,
            Pairs::USDCUSDT => "USDCUSDT"@,
            Pairs::SOLUSDT => "SOLUSDT"@,
        }
    }

    /// The variant that a text names.
    pub open spec fn named(s: Seq<char>) -> Option<Pairs> {
        if s == "BTCUSDT"@ {
            Some(Pairs::BTCUSDT)
        } else if s == "ETHUSDT"@ {
            Some(Pairs::ETHUSDT)
        } else if s == "XRPUSDT"@ {
            Some(Pairs::XRPUSDT)
        } else if s == "USDCUSDT"@ {
            Some(Pairs::USDCUSDT)
        } else if s == "SOLUSDT"@ {
            Some(Pairs::SOLUSDT)
        } else {
            None
        }
    }

    pub fn to_string(&self) -> (r: String)
        ensures
            r@ == self.text(),
    {
        match self {
            Pairs::BTCUSDT => "BTCUSDT".to_owned(),
            Pairs::ETHUSDT => "ETHUSDT".to_owned(),
            Pairs::XRPUSDT => "XRPUSDT".to_owned(),
            Pairs::USDCUSDT => "USDCUSDT".to_owned(),
            Pairs::SOLUSDT => "SOLUSDT".to_owned(),
        }
    }

    pub fn from_str(s: &str) -> (r: Option<Pairs>)
        ensures
            r == Pairs::named(s@),
    {
        if same(s, "BTCUSDT") {
            Some(Pairs::BTCUSDT)
        } else if same(s, "ETHUSDT") {
            Some(Pairs::ETHUSDT)
        } else if same(s, "XRPUSDT") {
            Some(Pairs::XRPUSDT)
        } else if same(s, "USDCUSDT") {
            Some(Pairs::USDCUSDT)
        } else if same(s, "SOLUSDT") {
            Some(Pairs::SOLUSDT)
        } else {
            None
        }
    }
}

/// Reading back what `Pairs::to_string` writes gives the same value.
pub proof fn pairs_text_round_trip(v: Pairs)
    ensures
        Pairs::named(v.text()) == Some(v),
{
    reveal_strlit("BTCUSDT");
    reveal_strlit("ETHUSDT");
    reveal_strlit("XRPUSDT");
    reveal_strlit("USDCUSDT");
    reveal_strlit("SOLUSDT");
    assert("BTCUSDT"@.len() == 7);
    assert("ETHUSDT"@.len() == 7);
    assert("XRPUSDT"@.len() == 7);
    assert("USDCUSDT"@.len() == 8);
    assert("SOLUSDT"@.len() == 7);
    assert("BTCUSDT"@[0] != "ETHUSDT"@[0]);
    assert("BTCUSDT"@[0] != "XRPUSDT"@[0]);
    assert("ETHUSDT"@[0] != "XRPUSDT"@[0]);
    assert("BTCUSDT"@[0] != "SOLUSDT"@[0]);
    assert("ETHUSDT"@[0] != "SOLUSDT"@[0]);
    assert("XRPUSDT"@[0] != "SOLUSDT"@[0]);
}

impl Pairs {
    pub open spec fn base_currency(self) -> Currency {
        match self {
            Pairs::BTCUSDT => Currency::BTC,
            Pairs::ETHUSDT => Currency::ETH,
            Pairs::XRPUSDT => Currency::XRP,
            Pairs::USDCUSDT => Currency::USDC,
            Pairs::SOLUSDT => Currency::SOL,
        }
    }

    /// The currency that is bought and sold.
    pub fn base(&self) -> (r: Currency)
        ensures
            r == self.base_currency(),
    {
        match self {
            Pairs::BTCUSDT => Currency::BTC,
            Pairs::ETHUSDT => Currency::ETH,
            Pairs::XRPUSDT => Currency::XRP,
            Pairs::USDCUSDT => Currency::USDC,
            Pairs::SOLUSDT => Currency::SOL,
        }
    }

    /// The currency that prices are in: USDT for every pair.
    pub fn quote(&self) -> (r: Currency)
        ensures
            r == Currency::USDT,
    {
        match self {
            Pairs::BTCUSDT => Currency::USDT,
            Pairs::ETHUSDT => Currency::USDT,
            Pairs::XRPUSDT => Currency::USDT,
            Pairs::USDCUSDT => Currency::USDT,
            Pairs::SOLUSDT => Currency::USDT,
        }
    }

    /// The pair of two currencies, where they form one.
    pub open spec fn of_currencies(base: Currency, quote: Currency) -> Option<Pairs> {
        match (base, quote) {
            (Currency::BTC, Currency::USDT) => Some(Pairs::BTCUSDT),
            (Currency::ETH, Currency::USDT) => Some(Pairs::ETHUSDT),
            (Currency::XRP, Currency::USDT) => Some(Pairs::XRPUSDT),
            (Currency::USDC, Currency::USDT) => Some(Pairs::USDCUSDT),
            (Currency::SOL, Currency::USDT) => Some(Pairs::SOLUSDT),
            _ => None,
        }
    }

    /// The pair of two currencies, where they form one: every currency but USDT itself is
    /// traded against USDT, and against nothing else.
    pub fn from_currencies(base: Currency, quote: Currency) -> (r: Option<Pairs>)
        ensures
            r == Pairs::of_currencies(base, quote),
            r is Some <==> quote == Currency::USDT && base != Currency::USDT,
            r matches Some(p) ==> p.base_currency() == base,
    {
        match (base, quote) {
            (Currency::BTC, Currency::USDT) => Some(Pairs::BTCUSDT),
            (Currency::ETH, Currency::USDT) => Some(Pairs::ETHUSDT),
            (Currency::XRP, Currency::USDT) => Some(Pairs::XRPUSDT),
            (Currency::USDC, Currency::USDT) => Some(Pairs::USDCUSDT),
            (Currency::SOL, Currency::USDT) => Some(Pairs::SOLUSDT),
            _ => None,
        }
    }
}

/// No two pairs have the same base currency, so a pair is found again from its currencies.
pub proof fn pairs_base_determines_pair(a: Pairs, b: Pairs)
    requires
        a.base_currency() == b.base_currency(),
    ensures
        a == b,
{
}

/// A pair's symbol is the code of its base currency followed by `USDT`.
pub proof fn pairs_text_is_base_and_quote(p: Pairs)
    ensures
        p.text() == p.base_currency().text() + Currency::USDT.text(),
{
    reveal_strlit("BTC");
    reveal_strlit("ETH");
    reveal_strlit("XRP");
    reveal_strlit("USDT");
    reveal_strlit("USDC");
    reveal_strlit("SOL");
    reveal_strlit("BTCUSDT");
    reveal_strlit("ETHUSDT");
    reveal_strlit("XRPUSDT");
    reveal_strlit("USDCUSDT");
    reveal_strlit("SOLUSDT");
    assert(p.text() =~= p.base_currency().text() + Currency::USDT.text());
}

impl OrderSide {
    /// The side in lower case.
    pub open spec fn text(self) -> Seq<char> {
        match self {
            OrderSide::Buy => "buy"@,
            OrderSide::Sell => "sell"@,
        }
    }

    /// The variant that a text names.
    pub open spec fn named(s: Seq<char>) -> Option<OrderSide> {
        if s == "buy"@ {
            Some(OrderSide::Buy)
        } else if s == "sell"@ {
            Some(OrderSide::Sell)
        } else {
            None
        }
    }

    pub fn to_string(&self) -> (r: String)
        ensures
            r@ == self.text(),
    {
        match self {
            OrderSide::Buy => "buy".to_owned(),
            OrderSide::Sell => "sell".to_owned(),
        }
    }

    pub fn from_str(s: &str) -> (r: Option<OrderSide>)
        ensures
            r == OrderSide::named(s@),
    {
        if same(s, "buy") {
            Some(OrderSide::Buy)
        } else if same(s, "sell") {
            Some(OrderSide::Sell)
        } else {
            None
        }
    }
}

/// Reading back what `OrderSide::to_string` writes gives the same value.
pub proof fn orderside_text_round_trip(v: OrderSide)
    ensures
        OrderSide::named(v.text()) == Some(v),
{
    reveal_strlit("buy");
    reveal_strlit("sell");
    assert("buy"@.len() == 3);
    assert("sell"@.len() == 4);
}

impl OrderType {
    /// The type in lower case.
    pub open spec fn text(self) -> Seq<char> {
        match self {
            OrderType::Market => "market"@,
            OrderType::Limit => "limit"@,
            OrderType::PostOnly => "postonly"@,
        }
    }

    /// The variant that a text names.
    pub open spec fn named(s: Seq<char>) -> Option<OrderType> {
        if s == "market"@ {
            Some(OrderType::Market)
        } else if s == "limit"@ {
            Some(OrderType::Limit)
        } else if s == "postonly"@ {
            Some(OrderType::PostOnly)
        } else {
            None
        }
    }

    pub fn to_string(&self) -> (r: String)
        ensures
            r@ == self.text(),
    {
        match self {
            OrderType::Market => "market".to_owned(),
            OrderType::Limit => "limit".to_owned(),
            OrderType::PostOnly => "postonly".to_owned(),
        }
    }

    pub fn from_str(s: &str) -> (r: Option<OrderType>)
        ensures
            r == OrderType::named(s@),
    {
        if same(s, "market") {
            Some(OrderType::Market)
        } else if same(s, "limit") {
            Some(OrderType::Limit)
        } else if same(s, "postonly") {
            Some(OrderType::PostOnly)
        } else {
            None
        }
    }
}

/// Reading back what `OrderType::to_string` writes gives the same value.
pub proof fn ordertype_text_round_trip(v: OrderType)
    ensures
        OrderType::named(v.text()) == Some(v),
{
    reveal_strlit("market");
    reveal_strlit("limit");
    reveal_strlit("postonly");
    assert("market"@.len() == 6);
    assert("limit"@.len() == 5);
    assert("postonly"@.len() == 8);
}

impl OrderStatus {
    /// The variant's name.
    pub open spec fn text(self) -> Seq<char> {
        match self {
            OrderStatus::PendingSubmit => "PendingSubmit"@,
            OrderStatus::New => "New"@,
            OrderStatus::PartiallyFilled => "PartiallyFilled"@,
            OrderStatus::Filled => "Filled"@,
            OrderStatus::Canceled => "Canceled"@,
            OrderStatus::Rejected => "Rejected"@,
        }
    }

    pub fn to_string(&self) -> (r: String)
        ensures
            r@ == self.text(),
    {
        match self {
            OrderStatus::PendingSubmit => "PendingSubmit".to_owned(),
            OrderStatus::New => "New".to_owned(),
            OrderStatus::PartiallyFilled => "PartiallyFilled".to_owned(),
            OrderStatus::Filled => "Filled".to_owned(),
            OrderStatus::Canceled => "Canceled".to_owned(),
            OrderStatus::Rejected => "Rejected".to_owned(),
        }
    }
}

} // verus!
