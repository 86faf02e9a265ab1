use binance_connector::client::{BinanceClient, BinanceClientBuilder};
use binance_connector::config::BinanceConfig;
use binance_connector::error::Error;
use binance_connector::models::Interval;
use binance_connector::retry::{AttemptOutcome, RetryDecision};

#[test]
fn test_client_creation() {
    let config = BinanceConfig::new(false);
    let client = BinanceClient::new(config);
    assert!(client.is_ok());
}

#[test]
fn test_client_builder() {
    let config = BinanceConfig::new(false);
    let client = BinanceClientBuilder::new(config)
        .timeout(20)
        .rate_limit(600)
        .build();

    assert!(client.is_ok());
}

fn client() -> BinanceClient {
    BinanceClient::new(BinanceConfig::new(false)).unwrap()
}

#[test]
fn an_invalid_configuration_makes_no_client() {
    let refused = |builder: BinanceClientBuilder| match builder.build() {
        Err(Error::ConfigError(m)) => m,
        Ok(_) => panic!("accepted"),
        Err(other) => panic!("unexpected {:?}", other),
    };
    let config = BinanceConfig::new(false);
    assert_eq!(
        refused(BinanceClientBuilder::new(config.clone()).timeout(0)),
        "Timeout must be greater than 0"
    );
    assert_eq!(
        refused(BinanceClientBuilder::new(config.clone()).rate_limit(0)),
        "Requests per minute must be greater than 0"
    );
    assert_eq!(
        refused(BinanceClientBuilder::new(config.clone()).max_retries(57)),
        "Maximum retries must not exceed 56"
    );
    assert_eq!(
        refused(BinanceClientBuilder::new(config.clone()).max_retries(57).timeout(0)),
        "Timeout must be greater than 0"
    );
    assert!(BinanceClientBuilder::new(config).max_retries(56).retries(false).build().is_ok());
}

#[test]
fn the_builder_sets_the_retry_policy() {
    let config = BinanceConfig::new(false);
    let off = BinanceClientBuilder::new(config.clone()).retries(false).build().unwrap();
    let mut executor = off.retry_executor();
    assert_eq!(executor.on_outcome(AttemptOutcome::Timeout), RetryDecision::Surface);

    let once = BinanceClientBuilder::new(config.clone()).max_retries(1).build().unwrap();
    let mut executor = once.retry_executor();
    assert_eq!(
        executor.on_outcome(AttemptOutcome::Timeout),
        RetryDecision::Backoff { millis: 100 }
    );
    assert_eq!(executor.on_outcome(AttemptOutcome::Timeout), RetryDecision::Surface);

    // the default: three retries beyond the first attempt
    let mut executor = client().retry_executor();
    let mut delays = Vec::new();
    loop {
        match executor.on_outcome(AttemptOutcome::ConnectFailure) {
            RetryDecision::Backoff { millis } => delays.push(millis),
            RetryDecision::Surface => break,
            RetryDecision::Return => panic!("no success was reported"),
        }
    }
    assert_eq!(delays, vec![500, 1000, 2000]);
    assert_eq!(executor.attempts(), 4);
}

#[test]
fn the_builder_sets_the_rate_limit() {
    // 1200 per minute: twenty at once, then one every 50 ms
    let mut c = client();
    for _ in 0..20 {
        assert!(c.can_throttle(0));
        assert_eq!(c.throttle(0).wait_nanos, 0);
    }
    assert_eq!(c.throttle(0).wait_nanos, 50_000_000);
    assert_eq!(c.throttle(0).wait_nanos, 100_000_000);

    // 60 per minute: one at once, then one every second
    let mut slow =
        BinanceClientBuilder::new(BinanceConfig::new(false)).rate_limit(60).build().unwrap();
    assert_eq!(slow.throttle(0).wait_nanos, 0);
    assert_eq!(slow.throttle(0).wait_nanos, 1_000_000_000);
    assert_eq!(slow.throttle(2_500_000_000).wait_nanos, 0);
}

#[test]
fn thirty_requests_pass_within_two_seconds() {
    let mut c = client();
    let mut last = 0;
    for _ in 0..30 {
        last = c.throttle(0).wait_nanos;
    }
    assert!(last < 2_000_000_000);
    assert_eq!(last, 500_000_000);
}

#[test]
fn request_urls() {
    let c = client();
    let base = "https://api.binance.com";
    assert_eq!(c.ticker_price_url("BTCUSDT"), format!("{}/api/v3/ticker/price?symbol=BTCUSDT", base));
    assert_eq!(c.all_ticker_prices_url(), format!("{}/api/v3/ticker/price", base));
    assert_eq!(c.ticker_24h_url("ETHUSDT"), format!("{}/api/v3/ticker/24hr?symbol=ETHUSDT", base));
    assert_eq!(
        c.klines_url("BTCUSDT", Interval::Minutes5, 100).unwrap(),
        format!("{}/api/v3/klines?symbol=BTCUSDT&interval=5m&limit=100", base)
    );
    assert_eq!(
        c.klines_range_url("BTCUSDT", Interval::Hours1, 1640000000000, 1640086400000),
        format!(
            "{}/api/v3/klines?symbol=BTCUSDT&interval=1h&startTime=1640000000000&endTime=1640086400000",
            base
        )
    );
    assert_eq!(
        c.klines_range_url("X", Interval::Days1, -5, 0),
        format!("{}/api/v3/klines?symbol=X&interval=1d&startTime=-5&endTime=0", base)
    );
    assert_eq!(c.depth_url("BTCUSDT", 10), format!("{}/api/v3/depth?symbol=BTCUSDT&limit=10", base));
    assert_eq!(
        c.recent_trades_url("BTCUSDT", 500),
        format!("{}/api/v3/trades?symbol=BTCUSDT&limit=500", base)
    );
    assert_eq!(c.exchange_info_url(), format!("{}/api/v3/exchangeInfo", base));
    assert_eq!(c.server_time_url(), format!("{}/api/v3/time", base));
    assert_eq!(c.ping_url(), format!("{}/api/v3/ping", base));
}

#[test]
fn request_urls_follow_the_configured_base() {
    let mut config = BinanceConfig::new(true);
    assert_eq!(
        BinanceClient::new(config.clone()).unwrap().ping_url(),
        "https://testnet.binance.vision/api/v3/ping"
    );
    config.base_url = Some("http://127.0.0.1:1234".to_string());
    let c = BinanceClient::new(config).unwrap();
    assert_eq!(c.ticker_price_url("A"), "http://127.0.0.1:1234/api/v3/ticker/price?symbol=A");
}

#[test]
fn at_most_a_thousand_candlesticks_per_request() {
    let c = client();
    assert!(c.klines_url("BTCUSDT", Interval::Minutes1, 1000).is_ok());
    assert!(c.klines_url("BTCUSDT", Interval::Minutes1, 0).is_ok());
    match c.klines_url("BTCUSDT", Interval::Minutes1, 1001) {
        Err(Error::ConfigError(m)) => assert_eq!(m, "Limit 1001 exceeds maximum of 1000"),
        other => panic!("unexpected {:?}", other),
    }
}
