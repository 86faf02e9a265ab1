use binance_connector::error::Error;
use binance_connector::responses::{
    depth_snapshot_from_json, exchange_info_from_json, handle_response, kline_row_from_json,
    klines_from_json, ping_succeeded, recent_trades_from_json, server_time_from_json,
    symbols_from_json, ticker_24h_from_json, ticker_price_from_json, ticker_prices_from_json,
};

fn json(text: &str) -> serde_json::Value {
    serde_json::from_str(text).unwrap()
}

fn api_error<T: std::fmt::Debug>(r: Result<T, Error>) -> (i32, String) {
    match r {
        Err(Error::ApiError { code, msg }) => (code, msg),
        other => panic!("unexpected {:?}", other),
    }
}

#[test]
fn a_success_hands_the_document_on() {
    let body = r#"{"symbol": "BTCUSDT", "price": "43250.50"}"#;
    let v = handle_response(200, None, body).unwrap();
    assert_eq!(v, json(body));
    let ticker = ticker_price_from_json(&v, 1234).unwrap();
    assert_eq!(ticker.symbol, "BTCUSDT");
    assert_eq!(ticker.price, "43250.50");
    assert_eq!(ticker.timestamp, 1234);
}

#[test]
fn a_success_with_a_broken_body_is_an_api_error_of_code_zero() {
    let words = serde_json::from_str::<serde_json::Value>("<html>").unwrap_err().to_string();
    assert_eq!(
        api_error(handle_response(200, None, "<html>")),
        (0, format!("Failed to parse response: {}", words))
    );
}

#[test]
fn a_bad_request_carries_the_services_code_and_message() {
    let r = handle_response(400, None, r#"{"code":-1121,"msg":"Invalid symbol."}"#);
    let (code, msg) = api_error(r);
    assert_eq!(code, -1121);
    assert!(msg.contains("Invalid symbol"));
    assert_eq!(msg, "Invalid symbol.");
}

#[test]
fn a_bad_request_without_a_readable_error_is_code_400() {
    for body in [
        "",
        "oops",
        "{}",
        r#"{"code":"-1121","msg":"x"}"#,
        r#"{"code":-1121}"#,
        r#"{"code":2147483648,"msg":"x"}"#,
        r#"{"code":1.5,"msg":"x"}"#,
        r#"{"code":1,"msg":null}"#,
    ] {
        assert_eq!(
            api_error(handle_response(400, None, body)),
            (400, "Bad request".to_string()),
            "body {:?}",
            body
        );
    }
}

#[test]
fn too_many_requests_says_when_to_retry() {
    let body = r#"{"code":-1003,"msg":"Too many requests"}"#;
    match handle_response(429, Some("60".to_string()), body) {
        Err(Error::RateLimitExceeded { retry_after_seconds }) => {
            assert_eq!(retry_after_seconds, 60)
        }
        other => panic!("unexpected {:?}", other),
    }
    let after = |header: Option<&str>| match handle_response(429, header.map(String::from), "") {
        Err(Error::RateLimitExceeded { retry_after_seconds }) => retry_after_seconds,
        other => panic!("unexpected {:?}", other),
    };
    assert_eq!(after(Some("5")), 5);
    assert_eq!(after(Some("0")), 0);
    assert_eq!(after(None), 60);
    assert_eq!(after(Some("soon")), 60);
    assert_eq!(after(Some("")), 60);
    assert_eq!(after(Some("-1")), 60);
    assert_eq!(after(Some("1.5")), 60);
    assert_eq!(after(Some("18446744073709551616")), 60);
}

#[test]
fn any_other_status_is_an_api_error_with_the_body() {
    assert_eq!(
        api_error(handle_response(500, None, "internal error")),
        (500, "internal error".to_string())
    );
    assert_eq!(api_error(handle_response(418, None, "")), (418, String::new()));
    assert_eq!(api_error(handle_response(201, None, "{}")), (201, "{}".to_string()));
    assert_eq!(api_error(handle_response(65535, None, "x")), (65535, "x".to_string()));
}

#[test]
fn a_ping_succeeds_on_200_only() {
    assert!(ping_succeeded(200));
    assert!(!ping_succeeded(204));
    assert!(!ping_succeeded(500));
}

const STATS: &str = r#"{
    "symbol": "BTCUSDT",
    "priceChange": "1000.00",
    "priceChangePercent": "2.5",
    "weightedAvgPrice": "43000.00",
    "prevClosePrice": "42000.00",
    "lastPrice": "43000.00",
    "bidPrice": "42999.00",
    "askPrice": "43001.00",
    "openPrice": "42000.00",
    "highPrice": "43500.00",
    "lowPrice": "41500.00",
    "volume": "1000.0",
    "quoteVolume": "43000000.0",
    "openTime": 1640000000000,
    "closeTime": 1640086400000,
    "firstId": 1,
    "lastId": 1000,
    "count": 1000
}"#;

#[test]
fn the_24_hour_statistics_decode() {
    let t = ticker_24h_from_json(&json(STATS)).unwrap();
    assert_eq!(t.symbol, "BTCUSDT");
    assert_eq!(t.last_price, "43000.00");
    assert_eq!(t.price_change_percent, "2.5");
    assert_eq!(t.price_change, "1000.00");
    assert_eq!(t.weighted_avg_price, "43000.00");
    assert_eq!(t.prev_close_price, "42000.00");
    assert_eq!(t.bid_price, "42999.00");
    assert_eq!(t.ask_price, "43001.00");
    assert_eq!(t.open_price, "42000.00");
    assert_eq!(t.high_price, "43500.00");
    assert_eq!(t.low_price, "41500.00");
    assert_eq!(t.volume, "1000.0");
    assert_eq!(t.quote_volume, "43000000.0");
    assert_eq!(t.open_time, 1640000000000);
    assert_eq!(t.close_time, 1640086400000);
    assert_eq!((t.first_id, t.last_id, t.count), (1, 1000, 1000));
}

#[test]
fn statistics_with_an_impossible_time_are_refused() {
    let open = STATS.replace("1640000000000", "9223372036854775807");
    assert_eq!(
        ticker_24h_from_json(&json(&open)),
        Err(Error::DeserializationError("Invalid open time".to_string()))
    );
    let close = STATS.replace("1640086400000", "-9223372036854775808");
    assert_eq!(
        ticker_24h_from_json(&json(&close)),
        Err(Error::DeserializationError("Invalid close time".to_string()))
    );
    let both = open.replace("1640086400000", "9223372036854775807");
    assert_eq!(
        ticker_24h_from_json(&json(&both)),
        Err(Error::DeserializationError("Invalid open time".to_string()))
    );
    assert_eq!(
        api_error(ticker_24h_from_json(&json(&STATS.replace("lastPrice", "last")))),
        (0, "Failed to parse response: missing or invalid field: lastPrice".to_string())
    );
}

const KLINES: &str = r#"[
    [
        1640000000000,
        "43000.00",
        "43100.00",
        "42900.00",
        "43050.00",
        "100.5",
        1640000299999,
        "4320000.00",
        1000,
        "50.25",
        "2160000.00",
        "0"
    ]
]"#;

#[test]
fn candlesticks_decode() {
    let klines = klines_from_json(&json(KLINES), "BTCUSDT").unwrap();
    assert_eq!(klines.len(), 1);
    let k = &klines[0];
    assert_eq!(k.symbol, "BTCUSDT");
    assert_eq!(k.open, "43000.00");
    assert_eq!(k.close, "43050.00");
    assert_eq!(k.high, "43100.00");
    assert_eq!(k.low, "42900.00");
    assert_eq!(k.volume, "100.5");
    assert_eq!(k.quote_volume, "4320000.00");
    assert_eq!(k.open_time, 1640000000000);
    assert_eq!(k.close_time, 1640000299999);
    assert_eq!(k.trades, 1000);
    assert_eq!(k.taker_buy_base, "50.25");
    assert_eq!(k.taker_buy_quote, "2160000.00");
    assert!(k.is_closed);
    assert_eq!(klines_from_json(&json("[]"), "X").unwrap().len(), 0);
}

#[test]
fn candlesticks_stop_at_the_first_that_does_not_decode() {
    let row = &KLINES.trim()[1..KLINES.trim().len() - 1];
    let short = r#"[1640000000000, "1", "2"]"#;
    let late = row.replace("1640000299999", "9223372036854775807");
    let early = row.replace("1640000000000", "9223372036854775807");
    let body = format!("[{},{},{}]", row, late, short);
    assert_eq!(
        klines_from_json(&json(&body), "X"),
        Err(Error::DeserializationError("Invalid close time".to_string()))
    );
    let body = format!("[{},{},{}]", row, short, late);
    assert_eq!(
        api_error(klines_from_json(&json(&body), "X")),
        (0, "Failed to parse response: expected a candlestick of 12 values".to_string())
    );
    assert_eq!(
        kline_row_from_json(&json(&early), "X"),
        Err(Error::DeserializationError("Invalid open time".to_string()))
    );
    assert_eq!(
        api_error(kline_row_from_json(&json(&row.replace("1000,", "\"1000\",")), "X")),
        (0, "Failed to parse response: expected a candlestick of 12 values".to_string())
    );
    assert_eq!(
        api_error(kline_row_from_json(&json("{}"), "X")),
        (0, "Failed to parse response: expected a candlestick of 12 values".to_string())
    );
    assert_eq!(
        api_error(klines_from_json(&json("{}"), "X")),
        (0, "Failed to parse response: expected a list".to_string())
    );
}

#[test]
fn an_order_book_decodes() {
    let body = r#"{
        "lastUpdateId": 12345,
        "bids": [["43000.00", "1.5"], ["42999.00", "2.0"]],
        "asks": [["43001.00", "1.2"], ["43002.00", "1.8"]]
    }"#;
    let book = depth_snapshot_from_json(&json(body), "BTCUSDT", 99).unwrap();
    assert_eq!(book.symbol, "BTCUSDT");
    assert_eq!(book.last_update_id, 12345);
    assert_eq!(book.bids.len(), 2);
    assert_eq!(book.asks.len(), 2);
    assert_eq!(book.bids[0].price, "43000.00");
    assert_eq!(book.asks[0].price, "43001.00");
    assert_eq!(book.bids[1].quantity, "2.0");
    assert_eq!(book.asks[1].quantity, "1.8");
    assert_eq!(book.timestamp, 99);
    assert_eq!(
        api_error(depth_snapshot_from_json(&json(r#"{"lastUpdateId":1,"bids":[]}"#), "X", 0)),
        (0, "Failed to parse response: missing or invalid field: asks".to_string())
    );
}

#[test]
fn recent_trades_decode() {
    let body = r#"[
        {"id": 28457, "price": "4.00000100", "qty": "12.00000000", "quoteQty": "48.000012",
         "time": 1499865549590, "isBuyerMaker": true, "isBestMatch": true},
        {"id": 28458, "price": "4.1", "qty": "1", "quoteQty": "4.1",
         "time": 9223372036854775807, "isBuyerMaker": false}
    ]"#;
    let trades = recent_trades_from_json(&json(body), "BNBBTC").unwrap();
    assert_eq!(trades.len(), 2);
    assert_eq!(trades[0].id, 28457);
    assert_eq!(trades[0].symbol, "BNBBTC");
    assert_eq!(trades[0].price, "4.00000100");
    assert_eq!(trades[0].quantity, "12.00000000");
    assert_eq!(trades[0].quote_quantity.as_deref(), Some("48.000012"));
    assert_eq!(trades[0].time, 1499865549590);
    assert!(trades[0].is_buyer_maker);
    assert_eq!(trades[1].id, 28458);
    assert_eq!(trades[1].time, 0);
    assert!(!trades[1].is_buyer_maker);
    assert_eq!(
        api_error(recent_trades_from_json(&json(r#"[{"id":1}]"#), "X")),
        (0, "Failed to parse response: missing or invalid field: price".to_string())
    );
}

#[test]
fn all_price_tickers_decode() {
    let body = r#"[{"symbol":"BTCUSDT","price":"1"},{"symbol":"ETHUSDT","price":"2"}]"#;
    let tickers = ticker_prices_from_json(&json(body), 5).unwrap();
    assert_eq!(tickers.len(), 2);
    assert_eq!(tickers[0].symbol, "BTCUSDT");
    assert_eq!(tickers[1].symbol, "ETHUSDT");
    assert_eq!(tickers[1].price, "2");
    assert_eq!(tickers[1].timestamp, 5);
    assert_eq!(
        api_error(ticker_prices_from_json(
            &json(r#"[{"symbol":"A","price":"1"},{"symbol":"B"},{"price":"1"}]"#),
            5
        )),
        (0, "Failed to parse response: missing or invalid field: price".to_string())
    );
}

#[test]
fn the_exchange_information_decodes() {
    let body = r#"{"timezone":"UTC","symbols":[
        {"symbol":"BTCUSDT","status":"TRADING","base_asset":"BTC","quote_asset":"USDT",
         "base_asset_precision":8,"quote_asset_precision":8,"order_types":["LIMIT","MARKET"]}
    ]}"#;
    let symbols = exchange_info_from_json(&json(body)).unwrap();
    assert_eq!(symbols.len(), 1);
    assert_eq!(symbols[0].symbol, "BTCUSDT");
    assert_eq!(symbols[0].base_asset, "BTC");
    assert_eq!(symbols[0].quote_asset, "USDT");
    assert_eq!(symbols[0].status, "TRADING");
    assert_eq!(symbols[0].base_asset_precision, 8);
    assert_eq!(symbols[0].quote_asset_precision, 8);
    assert_eq!(symbols[0].order_types, vec!["LIMIT", "MARKET"]);
    assert_eq!(
        api_error(exchange_info_from_json(&json("{}"))),
        (0, "Failed to parse response: missing or invalid field: symbols".to_string())
    );
    assert_eq!(
        api_error(exchange_info_from_json(&json(r#"{"symbols":{}}"#))),
        (0, "Failed to parse response: expected a list".to_string())
    );
    assert_eq!(
        api_error(symbols_from_json(&json(r#"[{"symbol":"A","status":"S","base_asset":"B",
            "quote_asset":"Q","base_asset_precision":2147483648,"quote_asset_precision":1,
            "order_types":[]}]"#))),
        (0, "Failed to parse response: missing or invalid field: base_asset_precision".to_string())
    );
}

#[test]
fn the_server_time_decodes() {
    assert_eq!(server_time_from_json(&json(r#"{"serverTime":1499827319559}"#)), Ok(1499827319559));
    assert_eq!(
        api_error(server_time_from_json(&json(r#"{"serverTime":"now"}"#))),
        (0, "Failed to parse response: missing or invalid field: serverTime".to_string())
    );
}
