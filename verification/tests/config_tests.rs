use binance_connector::config::BinanceConfig;
use binance_connector::endpoints::{Endpoints, WebSocketStreams};
use binance_connector::models::Interval;
use std::str::FromStr;

#[test]
fn test_config_urls() {
    let config_mainnet = BinanceConfig::new(false);
    assert!(config_mainnet.get_base_url().contains("api.binance.com"));
    assert!(config_mainnet.get_ws_url().contains("stream.binance.com"));

    let config_testnet = BinanceConfig::new(true);
    assert!(config_testnet.get_base_url().contains("testnet"));
    assert!(config_testnet.get_ws_url().contains("testnet"));
}

#[test]
fn test_config_auth() {
    let config_noauth = BinanceConfig::new(false);
    assert!(!config_noauth.is_authenticated());

    let config_auth =
        BinanceConfig::with_auth("test_key".to_string(), "test_secret".to_string(), false);
    assert!(config_auth.is_authenticated());
}

#[test]
fn test_config_validation() {
    let mut config = BinanceConfig::default();
    assert!(config.validate().is_ok());

    config.timeout_seconds = 0;
    assert!(config.validate().is_err());
}

#[test]
fn test_endpoint_paths() {
    assert_eq!(Endpoints::ticker_price(), "/api/v3/ticker/price");
    assert_eq!(Endpoints::klines(), "/api/v3/klines");
}

#[test]
fn test_websocket_streams() {
    assert_eq!(WebSocketStreams::ticker("BTCUSDT"), "btcusdt@ticker");
    assert_eq!(WebSocketStreams::kline("ETHUSDT", "1m"), "ethusdt@kline_1m");
    assert_eq!(WebSocketStreams::trade("BTCUSDT"), "btcusdt@trade");
}

#[test]
fn test_interval_from_str() {
    assert_eq!("1m".parse::<Interval>().unwrap(), Interval::Minutes1);
    assert_eq!("1h".parse::<Interval>().unwrap(), Interval::Hours1);
    assert!("invalid".parse::<Interval>().is_err());
}

#[test]
fn test_interval_duration() {
    assert_eq!(Interval::Minutes1.duration_ms(), 60_000);
    assert_eq!(Interval::Hours1.duration_ms(), 3_600_000);
}

#[test]
fn test_library_exports() {
    // the main types are reachable from the crate root
    let _: Option<binance_connector::BinanceClient> = None;
    let _: Option<binance_connector::BinanceConfig> = None;
    let _: Option<binance_connector::Error> = None;
}

#[test]
fn config_defaults_match_the_service() {
    let config = BinanceConfig::new(false);
    assert_eq!(config.timeout_seconds, 10);
    assert_eq!(config.requests_per_minute, 1200);
    assert!(config.enable_retries);
    assert_eq!(config.max_retries, 3);
    assert_eq!(config.timeout(), std::time::Duration::from_secs(10));
    assert_eq!(config.get_base_url(), "https://api.binance.com");
    assert_eq!(config.get_ws_url(), "wss://stream.binance.com:9443/ws");
    let testnet = BinanceConfig::new(true);
    assert_eq!(testnet.get_base_url(), "https://testnet.binance.vision");
    assert_eq!(testnet.get_ws_url(), "wss://testnet.binance.vision/ws");
}

#[test]
fn config_urls_can_be_overridden() {
    let mut config = BinanceConfig::new(false);
    config.base_url = Some("http://127.0.0.1:9000".to_string());
    config.ws_url = Some("ws://127.0.0.1:9001".to_string());
    assert_eq!(config.get_base_url(), "http://127.0.0.1:9000");
    assert_eq!(config.get_ws_url(), "ws://127.0.0.1:9001");
}

#[test]
fn config_validation_names_the_fault() {
    let mut config = BinanceConfig::new(false);
    config.requests_per_minute = 0;
    match config.validate() {
        Err(binance_connector::Error::ConfigError(m)) => {
            assert_eq!(m, "Requests per minute must be greater than 0")
        }
        other => panic!("unexpected {:?}", other),
    }
    config.timeout_seconds = 0;
    match config.validate() {
        Err(binance_connector::Error::ConfigError(m)) => {
            assert_eq!(m, "Timeout must be greater than 0")
        }
        other => panic!("unexpected {:?}", other),
    }
}

#[test]
fn config_with_one_credential_is_not_authenticated() {
    let mut config = BinanceConfig::new(false);
    config.api_key = Some("k".to_string());
    assert!(!config.is_authenticated());
}

#[test]
fn config_from_environment_values() {
    let config = BinanceConfig::from_env_values(
        Some("key".to_string()),
        None,
        Some("true".to_string()),
        Some("25".to_string()),
        Some("+600".to_string()),
    );
    assert_eq!(config.api_key.as_deref(), Some("key"));
    assert!(config.secret_key.is_none());
    assert!(config.testnet);
    assert_eq!(config.timeout_seconds, 25);
    assert_eq!(config.requests_per_minute, 600);
    assert!(config.enable_retries);
    assert_eq!(config.max_retries, 3);
}

#[test]
fn config_from_environment_falls_back_on_defaults() {
    let config = BinanceConfig::from_env_values(
        None,
        None,
        Some("yes".to_string()),
        Some("ten".to_string()),
        Some("4294967296".to_string()),
    );
    assert!(!config.testnet);
    assert_eq!(config.timeout_seconds, 10);
    assert_eq!(config.requests_per_minute, 1200);
    let empty = BinanceConfig::from_env_values(None, None, None, Some("".to_string()), Some("-5".to_string()));
    assert_eq!(empty.timeout_seconds, 10);
    assert_eq!(empty.requests_per_minute, 1200);
}

#[test]
fn stream_names_are_lowercased() {
    assert_eq!(WebSocketStreams::mini_ticker("BnbUSDT"), "bnbusdt@miniTicker");
    assert_eq!(WebSocketStreams::depth("BTCUSDT"), "btcusdt@depth");
    assert_eq!(WebSocketStreams::kline("btcusdt", "1M"), "btcusdt@kline_1M");
}

#[test]
fn every_endpoint_path() {
    assert_eq!(Endpoints::ticker_24h(), "/api/v3/ticker/24hr");
    assert_eq!(Endpoints::depth(), "/api/v3/depth");
    assert_eq!(Endpoints::trades(), "/api/v3/trades");
    assert_eq!(Endpoints::exchange_info(), "/api/v3/exchangeInfo");
    assert_eq!(Endpoints::time(), "/api/v3/time");
    assert_eq!(Endpoints::ping(), "/api/v3/ping");
}

#[test]
fn every_interval_round_trips_through_its_name() {
    let all = [
        (Interval::Seconds1, "1s", 1_000i64),
        (Interval::Minutes1, "1m", 60_000),
        (Interval::Minutes3, "3m", 180_000),
        (Interval::Minutes5, "5m", 300_000),
        (Interval::Minutes15, "15m", 900_000),
        (Interval::Minutes30, "30m", 1_800_000),
        (Interval::Hours1, "1h", 3_600_000),
        (Interval::Hours2, "2h", 7_200_000),
        (Interval::Hours4, "4h", 14_400_000),
        (Interval::Hours6, "6h", 21_600_000),
        (Interval::Hours8, "8h", 28_800_000),
        (Interval::Hours12, "12h", 43_200_000),
        (Interval::Days1, "1d", 86_400_000),
        (Interval::Days3, "3d", 259_200_000),
        (Interval::Weeks1, "1w", 604_800_000),
        (Interval::Months1, "1M", 2_592_000_000),
    ];
    for (interval, name, millis) in all {
        assert_eq!(interval.as_str(), name);
        assert_eq!(interval.to_string(), name);
        assert_eq!(Interval::parse(name).unwrap(), interval);
        assert_eq!(interval.duration_ms(), millis);
    }
}

#[test]
fn test_interval_parsing() {
    assert_eq!(Interval::from_str("1m").unwrap(), Interval::Minutes1);
    assert_eq!(Interval::from_str("5m").unwrap(), Interval::Minutes5);
    assert_eq!(Interval::from_str("1h").unwrap(), Interval::Hours1);
    assert_eq!(Interval::from_str("1d").unwrap(), Interval::Days1);
    assert!(Interval::from_str("invalid").is_err());
}

#[test]
fn an_unknown_interval_is_reported_with_its_text() {
    match Interval::parse("1 m") {
        Err(binance_connector::Error::InvalidInterval(s)) => assert_eq!(s, "1 m"),
        other => panic!("unexpected {:?}", other),
    }
    assert!(Interval::parse("1m ").is_err());
    assert!(Interval::parse("1H").is_err());
    assert!(Interval::parse("").is_err());
}
