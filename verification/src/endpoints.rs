//! Endpoint paths and stream names of the service.

use vstd::prelude::*;
use vstd::string::*;
use crate::text::{lowercase, to_lowercase};

verus! {

/// API endpoint paths
pub struct Endpoints;

impl Endpoints {
    /// Get ticker price
    /// GET /api/v3/ticker/price
    pub fn ticker_price() -> (r: &'static str)
        ensures
            r@ == "/api/v3/ticker/price"@,
    {
        "/api/v3/ticker/price"
    }

    /// Get 24h ticker statistics
    /// GET /api/v3/ticker/24hr
    pub fn ticker_24h() -> (r: &'static str)
        ensures
            r@ == "/api/v3/ticker/24hr"@,
    {
        "/api/v3/ticker/24hr"
    }

    /// Get klines (candlestick data)
    /// GET /api/v3/klines
    pub fn klines() -> (r: &'static str)
        ensures
            r@ == "/api/v3/klines"@,
    {
        "/api/v3/klines"
    }

    /// Get order book depth
    /// GET /api/v3/depth
    pub fn depth() -> (r: &'static str)
        ensures
            r@ == "/api/v3/depth"@,
    {
        "/api/v3/depth"
    }

    /// Get recent trades
    /// GET /api/v3/trades
    pub fn trades() -> (r: &'static str)
        ensures
            r@ == "/api/v3/trades"@,
    {
        "/api/v3/trades"
    }

    /// Get exchange info
    /// GET /api/v3/exchangeInfo
    pub fn exchange_info() -> (r: &'static str)
        ensures
            r@ == "/api/v3/exchangeInfo"@,
    {
        "/api/v3/exchangeInfo"
    }

    /// Server time
    /// GET /api/v3/time
    pub fn time() -> (r: &'static str)
        ensures
            r@ == "/api/v3/time"@,
    {
        "/api/v3/time"
    }

    /// Ping
    /// GET /api/v3/ping
    pub fn ping() -> (r: &'static str)
        ensures
            r@ == "/api/v3/ping"@,
    {
        "/api/v3/ping"
    }
}

/// WebSocket streams
pub struct WebSocketStreams;

impl WebSocketStreams {
    /// Individual symbol ticker stream
    /// wss://stream.binance.com:9443/ws/<symbol>@ticker
    pub fn ticker(symbol: &str) -> (r: String)
        ensures
            r@ == lowercase(symbol@) + "@ticker"@,
    {
        let mut r = to_lowercase(symbol);
        r.append("@ticker");
        r
    }

    /// Individual symbol kline/candlestick stream
    /// wss://stream.binance.com:9443/ws/<symbol>@kline_<interval>
    pub fn kline(symbol: &str, interval: &str) -> (r: String)
        ensures
            r@ == lowercase(symbol@) + "@kline_"@ + interval@,
    {
        let mut r = to_lowercase(symbol);
        r.append("@kline_");
        r.append(interval);
        r
    }

    /// Individual symbol trade stream
    /// wss://stream.binance.com:9443/ws/<symbol>@trade
    pub fn trade(symbol: &str) -> (r: String)
        ensures
            r@ == lowercase(symbol@) + "@trade"@,
    {
        let mut r = to_lowercase(symbol);
        r.append("@trade");
        r
    }

    /// Individual symbol mini ticker stream
    /// wss://stream.binance.com:9443/ws/<symbol>@miniTicker
    pub fn mini_ticker(symbol: &str) -> (r: String)
        ensures
            r@ == lowercase(symbol@) + "@miniTicker"@,
    {
        let mut r = to_lowercase(symbol);
        r.append("@miniTicker");
        r
    }

    /// Partial book depth stream
    /// wss://stream.binance.com:9443/ws/<symbol>@depth
    pub fn depth(symbol: &str) -> (r: String)
        ensures
            r@ == lowercase(symbol@) + "@depth"@,
    {
        let mut r = to_lowercase(symbol);
        r.append("@depth");
        r
    }
}

} // verus!
