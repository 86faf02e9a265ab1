//! Client core for the Binance market-data service: request throttling,
//! bounded retries, and supervised reconnecting streams.

pub mod client;
pub mod config;
pub mod decode;
pub mod endpoints;
pub mod error;
pub mod json;
pub mod models;
pub mod rate_limiter;
pub mod responses;
pub mod retry;
pub mod text;
pub mod time;
pub mod websocket;

pub use client::BinanceClient;
pub use config::BinanceConfig;
pub use error::{Error, Result};
pub use models::{Interval, Kline, OrderBook, PriceLevel, Symbol, Ticker, Ticker24h, Trade};
pub use websocket::BinanceWebSocket;
