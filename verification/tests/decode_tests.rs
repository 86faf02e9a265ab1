use binance_connector::decode::{
    decode, depth_from_json, kline_from_json, mini_ticker_from_json, ticker_from_json,
    trade_from_json, DomainEvent, StreamKind,
};
use binance_connector::error::Error;
use binance_connector::json::{check_schema, check_value, fault, Field, FieldKind};
use binance_connector::time::normalize_millis;

const TICKER: &str = r#"{
    "e": "24hrTicker", "E": 1640000000001, "s": "BTCUSDT",
    "p": "1000.00", "P": "2.5", "w": "43000.00", "x": "42000.00", "c": "43000.00",
    "Q": "0.1", "b": "42999.00", "B": "1.0", "a": "43001.00", "A": "2.0",
    "o": "42000.00", "h": "43500.00", "l": "41500.00", "v": "1000.0", "q": "43000000.0",
    "O": 1640000000000, "C": 1640086400000, "F": 1, "L": 1000, "n": 1000
}"#;

const KLINE: &str = r#"{
    "e": "kline", "E": 1640000000500, "s": "ETHUSDT",
    "k": {
        "t": 1640000000000, "T": 1640000059999, "s": "ETHUSDT", "i": "1m",
        "f": 100, "L": 200, "o": "4000.10", "c": "4001.20", "h": "4002.00", "l": "3999.00",
        "v": "12.5", "n": 42, "x": false, "q": "50000.0", "V": "6.0", "Q": "24000.0", "B": "0"
    }
}"#;

const TRADE: &str =
    r#"{"e":"trade","E":1640000000100,"s":"BTCUSDT","t":12345,"p":"43000.10","q":"0.25","T":1640000000099,"m":true,"M":true}"#;

const DEPTH: &str = r#"{
    "e": "depthUpdate", "E": 1640000000100, "s": "BTCUSDT", "U": 157, "u": 160,
    "b": [["43000.00", "1.5"], ["42999.00", "2.0"]],
    "a": [["43001.00", "1.2"]]
}"#;

fn json(text: &str) -> serde_json::Value {
    serde_json::from_str(text).unwrap()
}

#[test]
fn a_ticker_frame_decodes() {
    match decode(StreamKind::Ticker, "ignored", TICKER, 0) {
        Ok(DomainEvent::Ticker(t)) => {
            assert_eq!(t.symbol, "BTCUSDT");
            assert_eq!(t.price_change, "1000.00");
            assert_eq!(t.price_change_percent, "2.5");
            assert_eq!(t.weighted_avg_price, "43000.00");
            assert_eq!(t.prev_close_price, "42000.00");
            assert_eq!(t.last_price, "43000.00");
            assert_eq!(t.bid_price, "42999.00");
            assert_eq!(t.ask_price, "43001.00");
            assert_eq!(t.open_price, "42000.00");
            assert_eq!(t.high_price, "43500.00");
            assert_eq!(t.low_price, "41500.00");
            assert_eq!(t.volume, "1000.0");
            assert_eq!(t.quote_volume, "43000000.0");
            assert_eq!(t.open_time, 1640000000000);
            assert_eq!(t.close_time, 1640086400000);
            assert_eq!(t.first_id, 1);
            assert_eq!(t.last_id, 1000);
            assert_eq!(t.count, 1000);
        }
        other => panic!("unexpected {:?}", other),
    }
    assert_eq!(ticker_from_json(&json(TICKER)), decode(StreamKind::Ticker, "", TICKER, 9));
}

#[test]
fn a_candlestick_frame_decodes_for_the_subscribed_symbol() {
    match decode(StreamKind::Kline, "ethusdt", KLINE, 0) {
        Ok(DomainEvent::Candle(k)) => {
            assert_eq!(k.symbol, "ethusdt");
            assert_eq!(k.open_time, 1640000000000);
            assert_eq!(k.close_time, 1640000059999);
            assert_eq!(k.open, "4000.10");
            assert_eq!(k.high, "4002.00");
            assert_eq!(k.low, "3999.00");
            assert_eq!(k.close, "4001.20");
            assert_eq!(k.volume, "12.5");
            assert_eq!(k.quote_volume, "50000.0");
            assert_eq!(k.trades, 42);
            assert_eq!(k.taker_buy_base, "6.0");
            assert_eq!(k.taker_buy_quote, "24000.0");
            assert!(!k.is_closed);
        }
        other => panic!("unexpected {:?}", other),
    }
    assert_eq!(kline_from_json(&json(KLINE), "x"), decode(StreamKind::Kline, "x", KLINE, 1));
}

#[test]
fn a_trade_frame_decodes() {
    match decode(StreamKind::Trade, "BTCUSDT", TRADE, 0) {
        Ok(DomainEvent::Trade(t)) => {
            assert_eq!(t.id, 12345);
            assert_eq!(t.symbol, "BTCUSDT");
            assert_eq!(t.price, "43000.10");
            assert_eq!(t.quantity, "0.25");
            assert_eq!(t.quote_quantity, None);
            assert_eq!(t.time, 1640000000099);
            assert!(t.is_buyer_maker);
        }
        other => panic!("unexpected {:?}", other),
    }
    assert_eq!(trade_from_json(&json(TRADE), "s"), decode(StreamKind::Trade, "s", TRADE, 1));
}

#[test]
fn a_depth_frame_decodes_and_is_stamped_with_its_arrival() {
    match decode(StreamKind::Depth, "BTCUSDT", DEPTH, 777) {
        Ok(DomainEvent::Depth(b)) => {
            assert_eq!(b.symbol, "BTCUSDT");
            assert_eq!(b.last_update_id, 160);
            assert_eq!(b.bids.len(), 2);
            assert_eq!(b.asks.len(), 1);
            assert_eq!(b.bids[0].price, "43000.00");
            assert_eq!(b.bids[0].quantity, "1.5");
            assert_eq!(b.bids[1].price, "42999.00");
            assert_eq!(b.bids[1].quantity, "2.0");
            assert_eq!(b.asks[0].price, "43001.00");
            assert_eq!(b.asks[0].quantity, "1.2");
            assert_eq!(b.timestamp, 777);
        }
        other => panic!("unexpected {:?}", other),
    }
    assert_eq!(
        depth_from_json(&json(DEPTH), "s", 3),
        decode(StreamKind::Depth, "s", DEPTH, 3)
    );
}

#[test]
fn a_mini_ticker_frame_decodes() {
    let text = r#"{"e":"24hrMiniTicker","E":1640000000000,"s":"BNBUSDT","c":"512.30"}"#;
    match decode(StreamKind::MiniTicker, "", text, 0) {
        Ok(DomainEvent::MiniTicker(t)) => {
            assert_eq!(t.symbol, "BNBUSDT");
            assert_eq!(t.price, "512.30");
            assert_eq!(t.timestamp, 1640000000000);
        }
        other => panic!("unexpected {:?}", other),
    }
    assert_eq!(mini_ticker_from_json(&json(text)), decode(StreamKind::MiniTicker, "", text, 0));
}

#[test]
fn a_raw_frame_is_handed_on_as_it_is() {
    assert_eq!(
        decode(StreamKind::Raw, "", "{not json", 0),
        Ok(DomainEvent::Raw("{not json".to_string()))
    );
}

#[test]
fn a_text_that_is_no_json_is_a_deserialization_error_with_the_parsers_words() {
    let expected = serde_json::from_str::<serde_json::Value>("{not json").unwrap_err().to_string();
    for kind in [
        StreamKind::Ticker,
        StreamKind::Kline,
        StreamKind::Trade,
        StreamKind::Depth,
        StreamKind::MiniTicker,
    ] {
        assert_eq!(
            decode(kind, "S", "{not json", 0),
            Err(Error::DeserializationError(expected.clone()))
        );
    }
}

#[test]
fn the_first_missing_field_is_named() {
    let missing = |text: &str, kind: StreamKind| match decode(kind, "S", text, 0) {
        Err(Error::DeserializationError(m)) => m,
        other => panic!("unexpected {:?}", other),
    };
    assert_eq!(missing("{}", StreamKind::Ticker), "missing or invalid field: e");
    assert_eq!(missing(r#"{"e":"x"}"#, StreamKind::Ticker), "missing or invalid field: s");
    assert_eq!(missing("[]", StreamKind::Trade), "missing or invalid field: e");
    assert_eq!(missing("7", StreamKind::Depth), "missing or invalid field: e");
    assert_eq!(
        missing(r#"{"e":"kline","s":"X"}"#, StreamKind::Kline),
        "missing or invalid field: k"
    );
    assert_eq!(
        missing(r#"{"e":"kline","s":"X","k":5}"#, StreamKind::Kline),
        "missing or invalid field: t"
    );
    assert_eq!(
        missing(&TICKER.replace(r#""n": 1000"#, r#""n": "1000""#), StreamKind::Ticker),
        "missing or invalid field: n"
    );
    assert_eq!(
        missing(&TICKER.replace(r#""O": 1640000000000"#, r#""O": 1.5"#), StreamKind::Ticker),
        "missing or invalid field: O"
    );
    assert_eq!(
        missing(&TRADE.replace(r#""m":true"#, r#""m":"true""#), StreamKind::Trade),
        "missing or invalid field: m"
    );
    assert_eq!(
        missing(&TRADE.replace(r#""p":"43000.10""#, r#""p":43000.10"#), StreamKind::Trade),
        "missing or invalid field: p"
    );
    assert_eq!(
        missing(&DEPTH.replace(r#"["43001.00", "1.2"]"#, r#"["43001.00"]"#), StreamKind::Depth),
        "missing or invalid field: a"
    );
    assert_eq!(
        missing(&DEPTH.replace(r#"["42999.00", "2.0"]"#, r#"["42999.00", 2.0]"#), StreamKind::Depth),
        "missing or invalid field: b"
    );
    assert_eq!(
        missing(&DEPTH.replace(r#""u": 160"#, r#""u": null"#), StreamKind::Depth),
        "missing or invalid field: u"
    );
}

#[test]
fn a_time_that_cannot_be_represented_becomes_the_epoch() {
    assert_eq!(normalize_millis(0), 0);
    assert_eq!(normalize_millis(1640000000000), 1640000000000);
    assert_eq!(normalize_millis(-1), -1);
    assert_eq!(normalize_millis(i64::MAX), 0);
    assert_eq!(normalize_millis(i64::MIN), 0);
    let text = TRADE.replace(r#""T":1640000000099"#, r#""T":9223372036854775807"#);
    match decode(StreamKind::Trade, "S", &text, 0) {
        Ok(DomainEvent::Trade(t)) => assert_eq!(t.time, 0),
        other => panic!("unexpected {:?}", other),
    }
}

#[test]
fn values_are_held_to_their_kinds() {
    let cases: Vec<(&str, FieldKind, bool)> = vec![
        (r#""a""#, FieldKind::Text, true),
        ("1", FieldKind::Text, false),
        ("null", FieldKind::Text, false),
        ("1", FieldKind::Integer, true),
        ("-9223372036854775808", FieldKind::Integer, true),
        ("9223372036854775808", FieldKind::Integer, false),
        ("1.0", FieldKind::Integer, false),
        (r#""1""#, FieldKind::Integer, false),
        ("2147483647", FieldKind::Integer32, true),
        ("2147483648", FieldKind::Integer32, false),
        ("-2147483648", FieldKind::Integer32, true),
        ("-2147483649", FieldKind::Integer32, false),
        ("true", FieldKind::Flag, true),
        ("0", FieldKind::Flag, false),
        (r#"["a","b"]"#, FieldKind::Texts, true),
        ("[]", FieldKind::Texts, true),
        (r#"["a",1]"#, FieldKind::Texts, false),
        (r#""a""#, FieldKind::Texts, false),
        (r#"[["1","2"]]"#, FieldKind::Levels, true),
        ("[]", FieldKind::Levels, true),
        (r#"[["1","2","3"]]"#, FieldKind::Levels, false),
        (r#"[["1","2"],["1"]]"#, FieldKind::Levels, false),
        (r#"[["1",2]]"#, FieldKind::Levels, false),
        (r#"{"0":"1","1":"2"}"#, FieldKind::Levels, false),
        ("null", FieldKind::Present, true),
    ];
    for (text, kind, expected) in cases {
        assert_eq!(check_value(&json(text), kind), expected, "{} as {:?}", text, kind);
    }
}

#[test]
fn a_schema_reports_its_first_fault() {
    let schema = vec![
        Field { key: "a", kind: FieldKind::Text },
        Field { key: "b", kind: FieldKind::Integer },
        Field { key: "c", kind: FieldKind::Flag },
    ];
    assert_eq!(check_schema(&json(r#"{"a":"x","b":1,"c":true,"d":0}"#), &schema), None);
    assert_eq!(check_schema(&json(r#"{"b":1,"c":true}"#), &schema), Some(0));
    assert_eq!(check_schema(&json(r#"{"a":"x","b":"1","c":1}"#), &schema), Some(1));
    assert_eq!(check_schema(&json(r#"{"a":"x","b":1}"#), &schema), Some(2));
    assert_eq!(check_schema(&json(r#"["x",1,true]"#), &schema), Some(0));
    assert_eq!(check_schema(&json("{}"), &vec![]), None);
    assert_eq!(fault("k"), Error::DeserializationError("missing or invalid field: k".to_string()));
}

#[test]
fn levels_and_texts_are_read_from_arrays() {
    let levels = json(r#"[["1.0","2"],["3","4.5"]]"#);
    let got = binance_connector::json::levels_from(levels.as_array().unwrap());
    assert_eq!(got.len(), 2);
    assert_eq!((got[0].price.as_str(), got[0].quantity.as_str()), ("1.0", "2"));
    assert_eq!((got[1].price.as_str(), got[1].quantity.as_str()), ("3", "4.5"));
    let texts = json(r#"["LIMIT","MARKET",""]"#);
    let got = binance_connector::json::texts_from(texts.as_array().unwrap());
    assert_eq!(got, vec!["LIMIT", "MARKET", ""]);
}

#[test]
fn a_later_key_of_the_same_name_wins() {
    let text = r#"{"e":"24hrMiniTicker","E":1,"s":"AAA","c":"1","s":"BBB"}"#;
    match decode(StreamKind::MiniTicker, "", text, 0) {
        Ok(DomainEvent::MiniTicker(t)) => assert_eq!(t.symbol, "BBB"),
        other => panic!("unexpected {:?}", other),
    }
}
