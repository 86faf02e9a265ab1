//! The REST client's core: what to ask for, how often, and how often again.
//!
//! The client holds a configuration, the rate limiter that all its requests
//! pass, and the retry policy. It builds the URL of each request; sending
//! the request is its caller's part, and so is reading the clock.

use vstd::prelude::*;
use vstd::string::*;
use crate::config::BinanceConfig;
use crate::endpoints::Endpoints;
use crate::error::{Error, ErrorView};
use crate::models::Interval;
use crate::rate_limiter::{burst_per_minute, grant_time, next_tat, Admission, RateLimiter, NANOS_PER_MINUTE};
use crate::retry::{RetryExecutor, RetryPolicy, MAX_RETRIES};
use crate::text::{decimal, i64_to_string, join2, signed_decimal, u64_to_string};

verus! {

/// The most candlesticks that one request may ask for.
pub const MAX_KLINES: usize = 1000;

/// Binance API client
pub struct BinanceClient {
    config: BinanceConfig,
    rate_limiter: RateLimiter,
    policy: RetryPolicy,
}

/// The error that a configuration is refused with, if it is refused: what
/// its validation finds, else more retries than delays can be computed for.
pub open spec fn refusal(config: BinanceConfig) -> Option<ErrorView> {
    match config.validation() {
        Err(e) => Some(e),
        Ok(()) => if config.max_retries > MAX_RETRIES {
            Some(ErrorView::ConfigError("Maximum retries must not exceed 56"@))
        } else {
            None
        },
    }
}

impl BinanceClient {
    pub closed spec fn config(&self) -> BinanceConfig {
        self.config
    }

    pub closed spec fn rate_limiter(&self) -> RateLimiter {
        self.rate_limiter
    }

    pub closed spec fn policy(&self) -> RetryPolicy {
        self.policy
    }

    /// Create new Binance client: its rate limiter full, its retry policy
    /// that of the configuration.
    pub fn new(config: BinanceConfig) -> (r: Result<Self, Error>)
        ensures
            r is Ok <==> refusal(config) is None,
            r matches Err(e) ==> refusal(config) == Some(e@),
            r matches Ok(c) ==> {
                &&& c.config() == config
                &&& c.policy().spec_enabled() == config.enable_retries
                &&& c.policy().spec_max_retries() == config.max_retries
                &&& c.rate_limiter().spec_capacity() == burst_per_minute(
                    config.requests_per_minute as int,
                )
                &&& c.rate_limiter().spec_interval() == NANOS_PER_MINUTE / (
                config.requests_per_minute as u64)
                &&& c.rate_limiter().spec_tat() == 0
            },
    {
        match config.validate() {
            Err(e) => Err(e),
            Ok(()) => match RetryPolicy::new(config.enable_retries, config.max_retries) {
                Err(e) => Err(e),
                Ok(policy) => {
                    let rate_limiter = RateLimiter::new(config.requests_per_minute);
                    Ok(Self { config, rate_limiter, policy })
                },
            },
        }
    }

    /// The executor for one request: no attempt made yet.
    pub fn retry_executor(&self) -> (r: RetryExecutor)
        ensures
            r.policy() == self.policy(),
            r.spec_attempts() == 0,
    {
        RetryExecutor::new(self.policy)
    }

    /// Whether a request may ask for admission at `now`.
    pub fn can_throttle(&self, now: u64) -> (r: bool)
        ensures
            r == self.rate_limiter().can_acquire(now as int),
    {
        self.rate_limiter.fits(now)
    }

    /// Passes one request through the rate limiter at `now` (nanoseconds
    /// since the client's creation): it is admitted, and told how long to
    /// wait before it is sent.
    pub fn throttle(&mut self, now: u64) -> (r: Admission)
        requires
            old(self).rate_limiter().can_acquire(now as int),
        ensures
            final(self).config() == old(self).config(),
            final(self).policy() == old(self).policy(),
            final(self).rate_limiter().spec_capacity() == old(self).rate_limiter().spec_capacity(),
            final(self).rate_limiter().spec_interval() == old(self).rate_limiter().spec_interval(),
            now + r.wait_nanos == grant_time(
                old(self).rate_limiter().spec_capacity(),
                old(self).rate_limiter().spec_interval(),
                old(self).rate_limiter().spec_tat(),
                now as int,
            ),
            final(self).rate_limiter().spec_tat() == next_tat(
                old(self).rate_limiter().spec_interval(),
                old(self).rate_limiter().spec_tat(),
                now as int,
            ),
    {
        self.rate_limiter.acquire(now)
    }

    /// The URL of an endpoint.
    pub open spec fn endpoint_url(&self, path: Seq<char>) -> Seq<char> {
        self.config().spec_base_url() + path
    }

    fn url(&self, path: &str) -> (r: String)
        ensures
            r@ == self.endpoint_url(path@),
    {
        let mut r = self.config.get_base_url();
        r.append(path);
        r
    }

    /// The request for the current price of a symbol.
    pub fn ticker_price_url(&self, symbol: &str) -> (r: String)
        ensures
            r@ == self.endpoint_url("/api/v3/ticker/price"@) + "?symbol="@ + symbol@,
    {
        let mut r = self.url(Endpoints::ticker_price());
        r.append("?symbol=");
        r.append(symbol);
        r
    }

    /// The request for the prices of all symbols.
    pub fn all_ticker_prices_url(&self) -> (r: String)
        ensures
            r@ == self.endpoint_url("/api/v3/ticker/price"@),
    {
        self.url(Endpoints::ticker_price())
    }

    /// The request for the 24-hour statistics of a symbol.
    pub fn ticker_24h_url(&self, symbol: &str) -> (r: String)
        ensures
            r@ == self.endpoint_url("/api/v3/ticker/24hr"@) + "?symbol="@ + symbol@,
    {
        let mut r = self.url(Endpoints::ticker_24h());
        r.append("?symbol=");
        r.append(symbol);
        r
    }

    /// The request for the last `limit` candlesticks of a symbol. More than
    /// [`MAX_KLINES`] is refused before anything is sent.
    pub fn klines_url(&self, symbol: &str, interval: Interval, limit: usize) -> (r: Result<
        String,
        Error,
    >)
        ensures
            limit <= MAX_KLINES ==> r is Ok && r.unwrap()@ == self.endpoint_url("/api/v3/klines"@)
                + "?symbol="@ + symbol@ + "&interval="@ + interval.name() + "&limit="@ + decimal(
                limit as nat,
            ),
            limit > MAX_KLINES ==> r is Err && r.unwrap_err()@ == ErrorView::ConfigError(
                "Limit "@ + decimal(limit as nat) + " exceeds maximum of 1000"@,
            ),
    {
        let number = u64_to_string(limit as u64);
        if limit > MAX_KLINES {
            let mut message = join2("Limit ", number.as_str());
            message.append(" exceeds maximum of 1000");
            return Err(Error::ConfigError(message));
        }
        let mut r = self.url(Endpoints::klines());
        r.append("?symbol=");
        r.append(symbol);
        r.append("&interval=");
        r.append(interval.as_str());
        r.append("&limit=");
        r.append(number.as_str());
        Ok(r)
    }

    /// The request for the candlesticks of a symbol between two times, in
    /// milliseconds since the Unix epoch.
    pub fn klines_range_url(
        &self,
        symbol: &str,
        interval: Interval,
        start_time: i64,
        end_time: i64,
    ) -> (r: String)
        ensures
            r@ == self.endpoint_url("/api/v3/klines"@) + "?symbol="@ + symbol@ + "&interval="@
                + interval.name() + "&startTime="@ + signed_decimal(start_time as int)
                + "&endTime="@ + signed_decimal(end_time as int),
    {
        let start = i64_to_string(start_time);
        let end = i64_to_string(end_time);
        let mut r = self.url(Endpoints::klines());
        r.append("?symbol=");
        r.append(symbol);
        r.append("&interval=");
        r.append(interval.as_str());
        r.append("&startTime=");
        r.append(start.as_str());
        r.append("&endTime=");
        r.append(end.as_str());
        r
    }

    /// The request for the order book of a symbol, `limit` levels deep.
    pub fn depth_url(&self, symbol: &str, limit: usize) -> (r: String)
        ensures
            r@ == self.endpoint_url("/api/v3/depth"@) + "?symbol="@ + symbol@ + "&limit="@
                + decimal(limit as nat),
    {
        let number = u64_to_string(limit as u64);
        let mut r = self.url(Endpoints::depth());
        r.append("?symbol=");
        r.append(symbol);
        r.append("&limit=");
        r.append(number.as_str());
        r
    }

    /// The request for the last `limit` trades of a symbol.
    pub fn recent_trades_url(&self, symbol: &str, limit: usize) -> (r: String)
        ensures
            r@ == self.endpoint_url("/api/v3/trades"@) + "?symbol="@ + symbol@ + "&limit="@
                + decimal(limit as nat),
    {
        let number = u64_to_string(limit as u64);
        let mut r = self.url(Endpoints::trades());
        r.append("?symbol=");
        r.append(symbol);
        r.append("&limit=");
        r.append(number.as_str());
        r
    }

    /// The request for the exchange information.
    pub fn exchange_info_url(&self) -> (r: String)
        ensures
            r@ == self.endpoint_url("/api/v3/exchangeInfo"@),
    {
        self.url(Endpoints::exchange_info())
    }

    /// The request for the server time.
    pub fn server_time_url(&self) -> (r: String)
        ensures
            r@ == self.endpoint_url("/api/v3/time"@),
    {
        self.url(Endpoints::time())
    }

    /// The request that pings the server.
    pub fn ping_url(&self) -> (r: String)
        ensures
            r@ == self.endpoint_url("/api/v3/ping"@),
    {
        self.url(Endpoints::ping())
    }
}

/// Builder for BinanceClient
pub struct BinanceClientBuilder {
    config: BinanceConfig,
}

impl BinanceClientBuilder {
    /// The configuration as built so far.
    pub closed spec fn config(&self) -> BinanceConfig {
        self.config
    }

    /// Create new builder
    pub fn new(config: BinanceConfig) -> (r: Self)
        ensures
            r.config() == config,
    {
        Self { config }
    }

    /// Set timeout
    pub fn timeout(self, seconds: u64) -> (r: Self)
        ensures
            r.config() == (BinanceConfig { timeout_seconds: seconds, ..self.config() }),
    {
        let mut this = self;
        this.config.timeout_seconds = seconds;
        this
    }

    /// Set rate limit
    pub fn rate_limit(self, requests_per_minute: u32) -> (r: Self)
        ensures
            r.config() == (BinanceConfig { requests_per_minute, ..self.config() }),
    {
        let mut this = self;
        this.config.requests_per_minute = requests_per_minute;
        this
    }

    /// Enable/disable retries
    pub fn retries(self, enable: bool) -> (r: Self)
        ensures
            r.config() == (BinanceConfig { enable_retries: enable, ..self.config() }),
    {
        let mut this = self;
        this.config.enable_retries = enable;
        this
    }

    /// Set max retry attempts
    pub fn max_retries(self, max: u32) -> (r: Self)
        ensures
            r.config() == (BinanceConfig { max_retries: max, ..self.config() }),
    {
        let mut this = self;
        this.config.max_retries = max;
        this
    }

    /// Build client
    pub fn build(self) -> (r: Result<BinanceClient, Error>)
        ensures
            r is Ok <==> refusal(self.config()) is None,
            r matches Err(e) ==> refusal(self.config()) == Some(e@),
            r matches Ok(c) ==> c.config() == self.config(),
    {
        BinanceClient::new(self.config)
    }
}

} // verus!
