//! Configuration for the connector.

use vstd::prelude::*;
use vstd::string::*;
use core::time::Duration;
use crate::error::{Error, ErrorView};
use crate::text::{parse_bool, parse_u32, parse_u64, truth_value, unsigned_decimal};

verus! {

/// What `Duration::as_nanos` of std returns for a duration: its length in
/// nanoseconds.
pub uninterp spec fn total_nanos(d: Duration) -> nat;

/// `Duration::from_secs` of std: a duration of that many whole seconds and
/// nothing more.
#[verifier::external_body]
fn seconds(secs: u64) -> (d: Duration)
    ensures
        total_nanos(d) == secs * 1_000_000_000,
{
    Duration::from_secs(secs)
}

#[derive(Debug, Clone)]
pub struct BinanceConfig {
    /// API key (optional - not needed for market data)
    pub api_key: Option<String>,
    /// Secret key (optional - not needed for market data)
    pub secret_key: Option<String>,
    /// Use testnet (true) or mainnet (false)
    pub testnet: bool,
    /// Base URL (set from the testnet flag where absent)
    pub base_url: Option<String>,
    /// WebSocket URL (set from the testnet flag where absent)
    pub ws_url: Option<String>,
    /// Request timeout in seconds
    pub timeout_seconds: u64,
    /// Maximum requests per minute
    pub requests_per_minute: u32,
    /// Enable automatic retries
    pub enable_retries: bool,
    /// Maximum retry attempts
    pub max_retries: u32,
}

pub fn default_timeout() -> (r: u64)
    ensures
        r == 10,
{
    10
}

/// The service's own limit.
pub fn default_rate_limit() -> (r: u32)
    ensures
        r == 1200,
{
    1200
}

pub fn default_true() -> (r: bool)
    ensures
        r,
{
    true
}

pub fn default_max_retries() -> (r: u32)
    ensures
        r == 3,
{
    3
}

/// The value of an optional text.
pub open spec fn text_option(o: Option<String>) -> Option<Seq<char>> {
    match o {
        Some(s) => Some(s@),
        None => None,
    }
}

/// The truth value that an optional setting spells, `fallback` where it is
/// absent or spells none.
pub open spec fn flag_setting(o: Option<Seq<char>>, fallback: bool) -> bool {
    match o {
        Some(s) => match truth_value(s) {
            Some(b) => b,
            None => fallback,
        },
        None => fallback,
    }
}

/// The number that an optional setting spells, `fallback` where it is absent,
/// spells none, or spells more than `max`.
pub open spec fn number_setting(o: Option<Seq<char>>, max: nat, fallback: nat) -> nat {
    match o {
        Some(s) => match unsigned_decimal(s, max) {
            Some(n) => n,
            None => fallback,
        },
        None => fallback,
    }
}

impl BinanceConfig {
    /// Whether the configuration is the default one for a network, but for
    /// its credentials.
    pub open spec fn has_defaults(&self, testnet: bool) -> bool {
        &&& self.testnet == testnet
        &&& self.base_url is None
        &&& self.ws_url is None
        &&& self.timeout_seconds == 10
        &&& self.requests_per_minute == 1200
        &&& self.enable_retries
        &&& self.max_retries == 3
    }

    /// Create new configuration (no auth needed for market data)
    pub fn new(testnet: bool) -> (r: Self)
        ensures
            r.has_defaults(testnet),
            r.api_key is None,
            r.secret_key is None,
    {
        Self {
            api_key: None,
            secret_key: None,
            testnet,
            base_url: None,
            ws_url: None,
            timeout_seconds: default_timeout(),
            requests_per_minute: default_rate_limit(),
            enable_retries: default_true(),
            max_retries: default_max_retries(),
        }
    }

    /// Create config with API credentials (for trading)
    pub fn with_auth(api_key: String, secret_key: String, testnet: bool) -> (r: Self)
        ensures
            r.has_defaults(testnet),
            r.api_key == Some(api_key),
            r.secret_key == Some(secret_key),
    {
        Self {
            api_key: Some(api_key),
            secret_key: Some(secret_key),
            testnet,
            base_url: None,
            ws_url: None,
            timeout_seconds: default_timeout(),
            requests_per_minute: default_rate_limit(),
            enable_retries: default_true(),
            max_retries: default_max_retries(),
        }
    }

    /// The configuration that the environment's settings spell: the two
    /// credentials as they are, the network flag, the timeout in seconds and
    /// the requests per minute read from their texts. A setting that is
    /// absent or does not parse takes its default.
    pub fn from_env_values(
        api_key: Option<String>,
        secret_key: Option<String>,
        testnet: Option<String>,
        timeout_seconds: Option<String>,
        requests_per_minute: Option<String>,
    ) -> (r: Self)
        ensures
            r.api_key == api_key,
            r.secret_key == secret_key,
            r.testnet == flag_setting(text_option(testnet), false),
            r.timeout_seconds == number_setting(text_option(timeout_seconds), u64::MAX as nat, 10),
            r.requests_per_minute == number_setting(
                text_option(requests_per_minute),
                u32::MAX as nat,
                1200,
            ),
            r.base_url is None,
            r.ws_url is None,
            r.enable_retries,
            r.max_retries == 3,
    {
        let testnet_flag = match &testnet {
            Some(s) => match parse_bool(s.as_str()) {
                Some(b) => b,
                None => false,
            },
            None => false,
        };
        let timeout = match &timeout_seconds {
            Some(s) => match parse_u64(s.as_str()) {
                Some(n) => n,
                None => default_timeout(),
            },
            None => default_timeout(),
        };
        let rate = match &requests_per_minute {
            Some(s) => match parse_u32(s.as_str()) {
                Some(n) => n,
                None => default_rate_limit(),
            },
            None => default_rate_limit(),
        };
        Self {
            api_key,
            secret_key,
            testnet: testnet_flag,
            base_url: None,
            ws_url: None,
            timeout_seconds: timeout,
            requests_per_minute: rate,
            enable_retries: default_true(),
            max_retries: default_max_retries(),
        }
    }

    /// The REST base URL: the configured one, else that of the network.
    pub open spec fn spec_base_url(&self) -> Seq<char> {
        match self.base_url {
            Some(url) => url@,
            None => if self.testnet {
                "https://testnet.binance.vision"@
            } else {
                "https://api.binance.com"@
            },
        }
    }

    /// The WebSocket URL: the configured one, else that of the network.
    pub open spec fn spec_ws_url(&self) -> Seq<char> {
        match self.ws_url {
            Some(url) => url@,
            None => if self.testnet {
                "wss://testnet.binance.vision/ws"@
            } else {
                "wss://stream.binance.com:9443/ws"@
            },
        }
    }

    /// Get REST API base URL
    pub fn get_base_url(&self) -> (r: String)
        ensures
            r@ == self.spec_base_url(),
    {
        match &self.base_url {
            Some(url) => url.clone(),
            None => if self.testnet {
                "https://testnet.binance.vision".to_owned()
            } else {
                "https://api.binance.com".to_owned()
            },
        }
    }

    /// Get WebSocket URL
    pub fn get_ws_url(&self) -> (r: String)
        ensures
            r@ == self.spec_ws_url(),
    {
        match &self.ws_url {
            Some(url) => url.clone(),
            None => if self.testnet {
                "wss://testnet.binance.vision/ws".to_owned()
            } else {
                "wss://stream.binance.com:9443/ws".to_owned()
            },
        }
    }

    /// Get timeout as Duration
    pub fn timeout(&self) -> (r: Duration)
        ensures
            total_nanos(r) == self.timeout_seconds * 1_000_000_000,
    {
        seconds(self.timeout_seconds)
    }

    /// Check if authenticated
    pub fn is_authenticated(&self) -> (r: bool)
        ensures
            r == (self.api_key is Some && self.secret_key is Some),
    {
        self.api_key.is_some() && self.secret_key.is_some()
    }

    /// What validation finds: the timeout is looked at first.
    pub open spec fn validation(&self) -> std::result::Result<(), ErrorView> {
        if self.timeout_seconds == 0 {
            Err(ErrorView::ConfigError("Timeout must be greater than 0"@))
        } else if self.requests_per_minute == 0 {
            Err(ErrorView::ConfigError("Requests per minute must be greater than 0"@))
        } else {
            Ok(())
        }
    }

    /// Validate configuration
    pub fn validate(&self) -> (r: Result<(), Error>)
        ensures
            r is Ok <==> self.validation() is Ok,
            r matches Err(e) ==> self.validation() == Err::<(), ErrorView>(e@),
    {
        if self.timeout_seconds == 0 {
            return Err(Error::ConfigError("Timeout must be greater than 0".to_owned()));
        }
        if self.requests_per_minute == 0 {
            return Err(
                Error::ConfigError("Requests per minute must be greater than 0".to_owned()),
            );
        }
        Ok(())
    }
}

impl Default for BinanceConfig {
    fn default() -> (r: Self)
        ensures
            r.has_defaults(false),
            r.api_key is None,
            r.secret_key is None,
    {
        Self::new(false)
    }
}

} // verus!
