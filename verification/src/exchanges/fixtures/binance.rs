use vstd::prelude::*;

verus! {

/// The futures that Binance lists.
pub fn futures_exchange_info_json() -> (r: &'static str)
    ensures
        r@ == r#"{
    "symbols": [
        {
            "symbol": "BTCUSDT",
            "status": "TRADING",
            "contractType": "PERPETUAL",
            "baseAsset": "BTC",
            "quoteAsset": "USDT",
            "contractSize": "1",
            "filters": [
                {"filterType": "PRICE_FILTER", "tickSize": "0.10"},
                {"filterType": "LOT_SIZE", "stepSize": "0.001"},
                {"filterType": "MIN_NOTIONAL", "notional": "5"}
            ]
        },
        {
            "symbol": "ETHUSDT",
            "status": "TRADING",
            "contractType": "PERPETUAL",
            "baseAsset": "ETH",
            "quoteAsset": "USDT",
            "contractSize": "1",
            "filters": [
                {"filterType": "PRICE_FILTER", "tickSize": "0.01"},
                {"filterType": "LOT_SIZE", "stepSize": "0.001"},
                {"filterType": "MIN_NOTIONAL", "notional": "5"}
            ]
        },
        {
            "symbol": "SOLUSDT",
            "status": "BREAK",
            "contractType": "PERPETUAL",
            "baseAsset": "SOL",
            "quoteAsset": "USDT",
            "contractSize": "1",
            "filters": []
        },
        {
            "symbol": "BTCUSD_PERP",
            "status": "TRADING",
            "contractType": "PERPETUAL",
            "baseAsset": "BTC",
            "quoteAsset": "USD",
            "contractSize": "100",
            "filters": []
        }
    ]
}"#@,
{
    r#"{
    "symbols": [
        {
            "symbol": "BTCUSDT",
            "status": "TRADING",
            "contractType": "PERPETUAL",
            "baseAsset": "BTC",
            "quoteAsset": "USDT",
            "contractSize": "1",
            "filters": [
                {"filterType": "PRICE_FILTER", "tickSize": "0.10"},
                {"filterType": "LOT_SIZE", "stepSize": "0.001"},
                {"filterType": "MIN_NOTIONAL", "notional": "5"}
            ]
        },
        {
            "symbol": "ETHUSDT",
            "status": "TRADING",
            "contractType": "PERPETUAL",
            "baseAsset": "ETH",
            "quoteAsset": "USDT",
            "contractSize": "1",
            "filters": [
                {"filterType": "PRICE_FILTER", "tickSize": "0.01"},
                {"filterType": "LOT_SIZE", "stepSize": "0.001"},
                {"filterType": "MIN_NOTIONAL", "notional": "5"}
            ]
        },
        {
            "symbol": "SOLUSDT",
            "status": "BREAK",
            "contractType": "PERPETUAL",
            "baseAsset": "SOL",
            "quoteAsset": "USDT",
            "contractSize": "1",
            "filters": []
        },
        {
            "symbol": "BTCUSD_PERP",
            "status": "TRADING",
            "contractType": "PERPETUAL",
            "baseAsset": "BTC",
            "quoteAsset": "USD",
            "contractSize": "100",
            "filters": []
        }
    ]
}"#
}

/// How often the futures of Binance pay funding.
pub fn funding_info_json() -> (r: &'static str)
    ensures
        r@ == r#"[
    {"symbol": "BTCUSDT", "fundingIntervalHours": 8},
    {"symbol": "ETHUSDT", "fundingIntervalHours": 8},
    {"symbol": "SOLUSDT", "fundingIntervalHours": 4}
]"#@,
{
    r#"[
    {"symbol": "BTCUSDT", "fundingIntervalHours": 8},
    {"symbol": "ETHUSDT", "fundingIntervalHours": 8},
    {"symbol": "SOLUSDT", "fundingIntervalHours": 4}
]"#
}

/// The spot markets that Binance lists.
pub fn spot_exchange_info_json() -> (r: &'static str)
    ensures
        r@ == r#"{
    "symbols": [
        {
            "symbol": "BTCUSDT",
            "status": "TRADING",
            "baseAsset": "BTC",
            "quoteAsset": "USDT",
            "isSpotTradingAllowed": true,
            "filters": [
                {"filterType": "PRICE_FILTER", "tickSize": "0.01"},
                {"filterType": "LOT_SIZE", "stepSize": "0.00001"},
                {"filterType": "NOTIONAL", "minNotional": "10"}
            ]
        },
        {
            "symbol": "ETHUSDT",
            "status": "TRADING",
            "baseAsset": "ETH",
            "quoteAsset": "USDT",
            "isSpotTradingAllowed": true,
            "filters": [
                {"filterType": "PRICE_FILTER", "tickSize": "0.01"},
                {"filterType": "LOT_SIZE", "stepSize": "0.0001"}
            ]
        },
        {
            "symbol": "RANDOMCOIN",
            "status": "TRADING",
            "baseAsset": "RANDOM",
            "quoteAsset": "USDT",
            "isSpotTradingAllowed": true,
            "filters": []
        }
    ]
}"#@,
{
    r#"{
    "symbols": [
        {
            "symbol": "BTCUSDT",
            "status": "TRADING",
            "baseAsset": "BTC",
            "quoteAsset": "USDT",
            "isSpotTradingAllowed": true,
            "filters": [
                {"filterType": "PRICE_FILTER", "tickSize": "0.01"},
                {"filterType": "LOT_SIZE", "stepSize": "0.00001"},
                {"filterType": "NOTIONAL", "minNotional": "10"}
            ]
        },
        {
            "symbol": "ETHUSDT",
            "status": "TRADING",
            "baseAsset": "ETH",
            "quoteAsset": "USDT",
            "isSpotTradingAllowed": true,
            "filters": [
                {"filterType": "PRICE_FILTER", "tickSize": "0.01"},
                {"filterType": "LOT_SIZE", "stepSize": "0.0001"}
            ]
        },
        {
            "symbol": "RANDOMCOIN",
            "status": "TRADING",
            "baseAsset": "RANDOM",
            "quoteAsset": "USDT",
            "isSpotTradingAllowed": true,
            "filters": []
        }
    ]
}"#
}

/// A premium index of Binance.
pub fn premium_index_json() -> (r: &'static str)
    ensures
        r@ == r#"{
    "symbol": "BTCUSDT",
    "markPrice": "100000.50",
    "indexPrice": "100000.00",
    "lastFundingRate": "0.0001",
    "nextFundingTime": 1737417600000,
    "time": 1737410400000
}"#@,
{
    r#"{
    "symbol": "BTCUSDT",
    "markPrice": "100000.50",
    "indexPrice": "100000.00",
    "lastFundingRate": "0.0001",
    "nextFundingTime": 1737417600000,
    "time": 1737410400000
}"#
}

/// Past funding rates of Binance.
pub fn funding_rate_history_json() -> (r: &'static str)
    ensures
        r@ == r#"[
    {"symbol": "BTCUSDT", "fundingRate": "0.0001", "fundingTime": 1737388800000},
    {"symbol": "BTCUSDT", "fundingRate": "0.00015", "fundingTime": 1737360000000},
    {"symbol": "BTCUSDT", "fundingRate": "0.00008", "fundingTime": 1737331200000}
]"#@,
{
    r#"[
    {"symbol": "BTCUSDT", "fundingRate": "0.0001", "fundingTime": 1737388800000},
    {"symbol": "BTCUSDT", "fundingRate": "0.00015", "fundingTime": 1737360000000},
    {"symbol": "BTCUSDT", "fundingRate": "0.00008", "fundingTime": 1737331200000}
]"#
}

/// The time of Binance.
pub fn server_time_json() -> (r: &'static str)
    ensures
        r@ == r#"{"serverTime": 1737410400000}"#@,
{
    r#"{"serverTime": 1737410400000}"#
}

/// The balances of a spot account at Binance.
pub fn spot_account_json() -> (r: &'static str)
    ensures
        r@ == r#"{
    "makerCommission": 10,
    "takerCommission": 10,
    "buyerCommission": 0,
    "sellerCommission": 0,
    "canTrade": true,
    "canWithdraw": true,
    "canDeposit": true,
    "updateTime": 123456789,
    "accountType": "SPOT",
    "balances": [
        {"asset": "USDT", "free": "100.50000000", "locked": "10.00000000"},
        {"asset": "BTC", "free": "0.10000000", "locked": "0.00000000"},
        {"asset": "UNKNOWN", "free": "5.00000000", "locked": "0.00000000"}
    ]
}"#@,
{
    r#"{
    "makerCommission": 10,
    "takerCommission": 10,
    "buyerCommission": 0,
    "sellerCommission": 0,
    "canTrade": true,
    "canWithdraw": true,
    "canDeposit": true,
    "updateTime": 123456789,
    "accountType": "SPOT",
    "balances": [
        {"asset": "USDT", "free": "100.50000000", "locked": "10.00000000"},
        {"asset": "BTC", "free": "0.10000000", "locked": "0.00000000"},
        {"asset": "UNKNOWN", "free": "5.00000000", "locked": "0.00000000"}
    ]
}"#
}

/// The balances of a futures account at Binance.
pub fn futures_balance_json() -> (r: &'static str)
    ensures
        r@ == r#"[
    {
        "accountAlias": "SgsR",
        "asset": "USDT",
        "balance": "250.00000000",
        "crossWalletBalance": "240.00000000",
        "crossUnPnl": "5.25000000",
        "availableBalance": "200.00000000",
        "updateTime": 1576756674610
    },
    {
        "accountAlias": "SgsR",
        "asset": "ETH",
        "balance": "1.50000000",
        "crossWalletBalance": "1.20000000",
        "crossUnPnl": "-0.10000000",
        "availableBalance": "1.00000000",
        "updateTime": 1576756674610
    },
    {
        "accountAlias": "SgsR",
        "asset": "UNSUPPORTED",
        "balance": "9.0",
        "crossWalletBalance": "9.0",
        "crossUnPnl": "0.0",
        "availableBalance": "9.0",
        "updateTime": 1576756674610
    }
]"#@,
{
    r#"[
    {
        "accountAlias": "SgsR",
        "asset": "USDT",
        "balance": "250.00000000",
        "crossWalletBalance": "240.00000000",
        "crossUnPnl": "5.25000000",
        "availableBalance": "200.00000000",
        "updateTime": 1576756674610
    },
    {
        "accountAlias": "SgsR",
        "asset": "ETH",
        "balance": "1.50000000",
        "crossWalletBalance": "1.20000000",
        "crossUnPnl": "-0.10000000",
        "availableBalance": "1.00000000",
        "updateTime": 1576756674610
    },
    {
        "accountAlias": "SgsR",
        "asset": "UNSUPPORTED",
        "balance": "9.0",
        "crossWalletBalance": "9.0",
        "crossUnPnl": "0.0",
        "availableBalance": "9.0",
        "updateTime": 1576756674610
    }
]"#
}

} // verus!
