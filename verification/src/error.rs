//! The error type of the connector.

use vstd::prelude::*;
use vstd::string::*;
use crate::text::{decimal, join2, signed_decimal, i64_to_string, u64_to_string};

verus! {

pub type Result<T> = std::result::Result<T, Error>;

/// How an HTTP request failed in transit.
#[derive(Debug, Clone, Copy, PartialEq, Eq, Structural)]
pub enum FailureKind {
    /// No answer arrived within the configured timeout.
    Timeout,
    /// The connection could not be established.
    Connect,
    /// Any other failure: a malformed request, a broken body, a redirect loop.
    Other,
}

/// A failed HTTP exchange: its kind and the transport's own description.
#[derive(Debug, Clone, PartialEq, Eq)]
pub struct TransportFailure {
    pub kind: FailureKind,
    pub message: String,
}

#[derive(Debug, Clone, PartialEq, Eq)]
pub enum Error {
    HttpError(TransportFailure),
    ApiError { code: i32, msg: String },
    RateLimitExceeded { retry_after_seconds: u64 },
    InvalidSymbol(String),
    InvalidInterval(String),
    Timeout(u64),
    DeserializationError(String),
    ConfigError(String),
    WebSocketError(String),
    WebSocketClosed,
    InvalidDateRange { start: String, end: String },
}

/// The mathematical value of an [`Error`]: texts as character sequences.
pub enum ErrorView {
    HttpError { kind: FailureKind, message: Seq<char> },
    ApiError { code: int, msg: Seq<char> },
    RateLimitExceeded { retry_after_seconds: nat },
    InvalidSymbol(Seq<char>),
    InvalidInterval(Seq<char>),
    Timeout(nat),
    DeserializationError(Seq<char>),
    ConfigError(Seq<char>),
    WebSocketError(Seq<char>),
    WebSocketClosed,
    InvalidDateRange { start: Seq<char>, end: Seq<char> },
}

impl View for Error {
    type V = ErrorView;

    open spec fn view(&self) -> ErrorView {
        match *self {
            Error::HttpError(f) => ErrorView::HttpError { kind: f.kind, message: f.message@ },
            Error::ApiError { code, msg } => ErrorView::ApiError { code: code as int, msg: msg@ },
            Error::RateLimitExceeded { retry_after_seconds } => ErrorView::RateLimitExceeded {
                retry_after_seconds: retry_after_seconds as nat,
            },
            Error::InvalidSymbol(s) => ErrorView::InvalidSymbol(s@),
            Error::InvalidInterval(s) => ErrorView::InvalidInterval(s@),
            Error::Timeout(s) => ErrorView::Timeout(s as nat),
            Error::DeserializationError(s) => ErrorView::DeserializationError(s@),
            Error::ConfigError(s) => ErrorView::ConfigError(s@),
            Error::WebSocketError(s) => ErrorView::WebSocketError(s@),
            Error::WebSocketClosed => ErrorView::WebSocketClosed,
            Error::InvalidDateRange { start, end } => ErrorView::InvalidDateRange {
                start: start@,
                end: end@,
            },
        }
    }
}

impl ErrorView {
    /// Whether repeating the failed operation may succeed.
    pub open spec fn is_retryable(self) -> bool {
        self is HttpError || self is Timeout || self is RateLimitExceeded || self is WebSocketClosed
    }

    /// The text shown for the error.
    pub open spec fn message(self) -> Seq<char> {
        match self {
            ErrorView::HttpError { kind, message } => "HTTP request failed: "@ + message,
            ErrorView::ApiError { code, msg } => "Binance API error "@ + signed_decimal(code)
                + ": "@ + msg,
            ErrorView::RateLimitExceeded { retry_after_seconds } =>
                "Rate limit exceeded, retry after "@ + decimal(retry_after_seconds) + "s"@,
            ErrorView::InvalidSymbol(s) => "Invalid symbol: "@ + s,
            ErrorView::InvalidInterval(s) => "Invalid interval: "@ + s,
            ErrorView::Timeout(s) => "Network timeout after "@ + decimal(s) + "s"@,
            ErrorView::DeserializationError(s) => "Deserialization error: "@ + s,
            ErrorView::ConfigError(s) => "Configuration error: "@ + s,
            ErrorView::WebSocketError(s) => "WebSocket error: "@ + s,
            ErrorView::WebSocketClosed => "WebSocket connection closed"@,
            ErrorView::InvalidDateRange { start, end } => "Invalid date range: start="@ + start
                + ", end="@ + end,
        }
    }
}

impl Error {
    /// Check if error is retryable
    pub fn is_retryable(&self) -> (r: bool)
        ensures
            r == self@.is_retryable(),
    {
        match self {
            Error::HttpError(_) => true,
            Error::Timeout(_) => true,
            Error::RateLimitExceeded { .. } => true,
            Error::WebSocketClosed => true,
            _ => false,
        }
    }

    /// Check if error is related to rate limiting
    pub fn is_rate_limit(&self) -> (r: bool)
        ensures
            r == (self@ is RateLimitExceeded),
    {
        match self {
            Error::RateLimitExceeded { .. } => true,
            _ => false,
        }
    }

    /// The text shown for the error.
    pub fn to_string(&self) -> (r: String)
        ensures
            r@ == self@.message(),
    {
        match self {
            Error::HttpError(f) => join2("HTTP request failed: ", f.message.as_str()),
            Error::ApiError { code, msg } => {
                let number = i64_to_string(*code as i64);
                let mut r = join2("Binance API error ", number.as_str());
                r.append(": ");
                r.append(msg.as_str());
                r
            },
            Error::RateLimitExceeded { retry_after_seconds } => {
                let number = u64_to_string(*retry_after_seconds);
                let mut r = join2("Rate limit exceeded, retry after ", number.as_str());
                r.append("s");
                r
            },
            Error::InvalidSymbol(s) => join2("Invalid symbol: ", s.as_str()),
            Error::InvalidInterval(s) => join2("Invalid interval: ", s.as_str()),
            Error::Timeout(s) => {
                let number = u64_to_string(*s);
                let mut r = join2("Network timeout after ", number.as_str());
                r.append("s");
                r
            },
            Error::DeserializationError(s) => join2("Deserialization error: ", s.as_str()),
            Error::ConfigError(s) => join2("Configuration error: ", s.as_str()),
            Error::WebSocketError(s) => join2("WebSocket error: ", s.as_str()),
            Error::WebSocketClosed => "WebSocket connection closed".to_owned(),
            Error::InvalidDateRange { start, end } => {
                let mut r = join2("Invalid date range: start=", start.as_str());
                r.append(", end=");
                r.append(end.as_str());
                r
            },
        }
    }
}

} // verus!
