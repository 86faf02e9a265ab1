//! Decoders: one pure mapping per stream kind, from a frame's text to a
//! domain event or a decode error. A malformed payload is an error value,
//! never a panic.

use vstd::prelude::*;
use vstd::string::*;
use crate::error::{Error, ErrorView};
use crate::json::{
    check_schema, fault, fault_view, first_fault, integer_of, items_of, json_member, json_parse,
    levels_of, lemma_no_fault, member, parse, flag_of, schema_flag, schema_integer,
    schema_levels, schema_text, text_of, Field, FieldKind,
};
use crate::models::{
    Kline, KlineView, OrderBook, OrderBookView, Ticker, Ticker24h, Ticker24hView, TickerView,
    Trade, TradeView,
};
use crate::time::{normalize_millis, normalized_millis};

verus! {

/// The fields of a 24-hour ticker frame.
pub open spec fn ticker_fields() -> Seq<Field> {
    seq![
        Field { key: "e", kind: FieldKind::Text },
        Field { key: "s", kind: FieldKind::Text },
        Field { key: "p", kind: FieldKind::Text },
        Field { key: "P", kind: FieldKind::Text },
        Field { key: "w", kind: FieldKind::Text },
        Field { key: "x", kind: FieldKind::Text },
        Field { key: "c", kind: FieldKind::Text },
        Field { key: "b", kind: FieldKind::Text },
        Field { key: "a", kind: FieldKind::Text },
        Field { key: "o", kind: FieldKind::Text },
        Field { key: "h", kind: FieldKind::Text },
        Field { key: "l", kind: FieldKind::Text },
        Field { key: "v", kind: FieldKind::Text },
        Field { key: "q", kind: FieldKind::Text },
        Field { key: "O", kind: FieldKind::Integer },
        Field { key: "C", kind: FieldKind::Integer },
        Field { key: "F", kind: FieldKind::Integer },
        Field { key: "L", kind: FieldKind::Integer },
        Field { key: "n", kind: FieldKind::Integer },
    ]
}

pub fn ticker_schema() -> (r: Vec<Field>)
    ensures
        r@ == ticker_fields(),
{
    let mut r: Vec<Field> = Vec::new();
    r.push(Field { key: "e", kind: FieldKind::Text });
    r.push(Field { key: "s", kind: FieldKind::Text });
    r.push(Field { key: "p", kind: FieldKind::Text });
    r.push(Field { key: "P", kind: FieldKind::Text });
    r.push(Field { key: "w", kind: FieldKind::Text });
    r.push(Field { key: "x", kind: FieldKind::Text });
    r.push(Field { key: "c", kind: FieldKind::Text });
    r.push(Field { key: "b", kind: FieldKind::Text });
    r.push(Field { key: "a", kind: FieldKind::Text });
    r.push(Field { key: "o", kind: FieldKind::Text });
    r.push(Field { key: "h", kind: FieldKind::Text });
    r.push(Field { key: "l", kind: FieldKind::Text });
    r.push(Field { key: "v", kind: FieldKind::Text });
    r.push(Field { key: "q", kind: FieldKind::Text });
    r.push(Field { key: "O", kind: FieldKind::Integer });
    r.push(Field { key: "C", kind: FieldKind::Integer });
    r.push(Field { key: "F", kind: FieldKind::Integer });
    r.push(Field { key: "L", kind: FieldKind::Integer });
    r.push(Field { key: "n", kind: FieldKind::Integer });
    assert(r@ =~= ticker_fields());
    r
}

/// The fields of a mini ticker frame.
pub open spec fn mini_ticker_fields() -> Seq<Field> {
    seq![
        Field { key: "e", kind: FieldKind::Text },
        Field { key: "s", kind: FieldKind::Text },
        Field { key: "c", kind: FieldKind::Text },
        Field { key: "E", kind: FieldKind::Integer },
    ]
}

pub fn mini_ticker_schema() -> (r: Vec<Field>)
    ensures
        r@ == mini_ticker_fields(),
{
    let mut r: Vec<Field> = Vec::new();
    r.push(Field { key: "e", kind: FieldKind::Text });
    r.push(Field { key: "s", kind: FieldKind::Text });
    r.push(Field { key: "c", kind: FieldKind::Text });
    r.push(Field { key: "E", kind: FieldKind::Integer });
    assert(r@ =~= mini_ticker_fields());
    r
}

/// The fields of a candlestick frame.
pub open spec fn kline_frame_fields() -> Seq<Field> {
    seq![
        Field { key: "e", kind: FieldKind::Text },
        Field { key: "s", kind: FieldKind::Text },
        Field { key: "k", kind: FieldKind::Present },
    ]
}

pub fn kline_frame_schema() -> (r: Vec<Field>)
    ensures
        r@ == kline_frame_fields(),
{
    let mut r: Vec<Field> = Vec::new();
    r.push(Field { key: "e", kind: FieldKind::Text });
    r.push(Field { key: "s", kind: FieldKind::Text });
    r.push(Field { key: "k", kind: FieldKind::Present });
    assert(r@ =~= kline_frame_fields());
    r
}

/// The fields of the candlestick inside a candlestick frame, under `k`.
pub open spec fn kline_body_fields() -> Seq<Field> {
    seq![
        Field { key: "t", kind: FieldKind::Integer },
        Field { key: "T", kind: FieldKind::Integer },
        Field { key: "o", kind: FieldKind::Text },
        Field { key: "h", kind: FieldKind::Text },
        Field { key: "l", kind: FieldKind::Text },
        Field { key: "c", kind: FieldKind::Text },
        Field { key: "v", kind: FieldKind::Text },
        Field { key: "q", kind: FieldKind::Text },
        Field { key: "n", kind: FieldKind::Integer },
        Field { key: "V", kind: FieldKind::Text },
        Field { key: "Q", kind: FieldKind::Text },
        Field { key: "x", kind: FieldKind::Flag },
    ]
}

pub fn kline_body_schema() -> (r: Vec<Field>)
    ensures
        r@ == kline_body_fields(),
{
    let mut r: Vec<Field> = Vec::new();
    r.push(Field { key: "t", kind: FieldKind::Integer });
    r.push(Field { key: "T", kind: FieldKind::Integer });
    r.push(Field { key: "o", kind: FieldKind::Text });
    r.push(Field { key: "h", kind: FieldKind::Text });
    r.push(Field { key: "l", kind: FieldKind::Text });
    r.push(Field { key: "c", kind: FieldKind::Text });
    r.push(Field { key: "v", kind: FieldKind::Text });
    r.push(Field { key: "q", kind: FieldKind::Text });
    r.push(Field { key: "n", kind: FieldKind::Integer });
    r.push(Field { key: "V", kind: FieldKind::Text });
    r.push(Field { key: "Q", kind: FieldKind::Text });
    r.push(Field { key: "x", kind: FieldKind::Flag });
    assert(r@ =~= kline_body_fields());
    r
}

/// The fields of a trade frame.
pub open spec fn trade_fields() -> Seq<Field> {
    seq![
        Field { key: "e", kind: FieldKind::Text },
        Field { key: "t", kind: FieldKind::Integer },
        Field { key: "p", kind: FieldKind::Text },
        Field { key: "q", kind: FieldKind::Text },
        Field { key: "T", kind: FieldKind::Integer },
        Field { key: "m", kind: FieldKind::Flag },
    ]
}

pub fn trade_schema() -> (r: Vec<Field>)
    ensures
        r@ == trade_fields(),
{
    let mut r: Vec<Field> = Vec::new();
    r.push(Field { key: "e", kind: FieldKind::Text });
    r.push(Field { key: "t", kind: FieldKind::Integer });
    r.push(Field { key: "p", kind: FieldKind::Text });
    r.push(Field { key: "q", kind: FieldKind::Text });
    r.push(Field { key: "T", kind: FieldKind::Integer });
    r.push(Field { key: "m", kind: FieldKind::Flag });
    assert(r@ =~= trade_fields());
    r
}

/// The fields of an order book update frame.
pub open spec fn depth_fields() -> Seq<Field> {
    seq![
        Field { key: "e", kind: FieldKind::Text },
        Field { key: "s", kind: FieldKind::Text },
        Field { key: "U", kind: FieldKind::Integer },
        Field { key: "u", kind: FieldKind::Integer },
        Field { key: "b", kind: FieldKind::Levels },
        Field { key: "a", kind: FieldKind::Levels },
    ]
}

pub fn depth_schema() -> (r: Vec<Field>)
    ensures
        r@ == depth_fields(),
{
    let mut r: Vec<Field> = Vec::new();
    r.push(Field { key: "e", kind: FieldKind::Text });
    r.push(Field { key: "s", kind: FieldKind::Text });
    r.push(Field { key: "U", kind: FieldKind::Integer });
    r.push(Field { key: "u", kind: FieldKind::Integer });
    r.push(Field { key: "b", kind: FieldKind::Levels });
    r.push(Field { key: "a", kind: FieldKind::Levels });
    assert(r@ =~= depth_fields());
    r
}

/// The kinds of stream that can be subscribed to.
#[derive(Debug, Clone, Copy, PartialEq, Eq, Structural)]
pub enum StreamKind {
    /// 24-hour ticker statistics of one symbol.
    Ticker,
    /// Candlesticks of one symbol at one interval.
    Kline,
    /// Trades of one symbol.
    Trade,
    /// Order book updates of one symbol.
    Depth,
    /// Lightweight ticker of one symbol.
    MiniTicker,
    /// Several streams combined; frames are handed on as text.
    Raw,
}

/// A decoded event of one of the stream kinds.
#[derive(Debug, Clone, PartialEq, Eq)]
pub enum DomainEvent {
    Ticker(Ticker24h),
    Candle(Kline),
    Trade(Trade),
    Depth(OrderBook),
    MiniTicker(Ticker),
    Raw(String),
}

/// The mathematical value of a [`DomainEvent`].
pub enum DomainEventView {
    Ticker(Ticker24hView),
    Candle(KlineView),
    Trade(TradeView),
    Depth(OrderBookView),
    MiniTicker(TickerView),
    Raw(Seq<char>),
}

impl View for DomainEvent {
    type V = DomainEventView;

    open spec fn view(&self) -> DomainEventView {
        match *self {
            DomainEvent::Ticker(t) => DomainEventView::Ticker(t@),
            DomainEvent::Candle(k) => DomainEventView::Candle(k@),
            DomainEvent::Trade(t) => DomainEventView::Trade(t@),
            DomainEvent::Depth(b) => DomainEventView::Depth(b@),
            DomainEvent::MiniTicker(t) => DomainEventView::MiniTicker(t@),
            DomainEvent::Raw(s) => DomainEventView::Raw(s@),
        }
    }
}

/// What a subscription's channel carries: an event, or an error.
pub type Envelope = std::result::Result<DomainEvent, Error>;

/// The mathematical value of an [`Envelope`].
pub open spec fn envelope_view(e: Envelope) -> std::result::Result<DomainEventView, ErrorView> {
    match e {
        Ok(event) => Ok(event@),
        Err(error) => Err(error@),
    }
}

/// The field of `schema` that object `v` fails on, as an error; `None` where
/// it conforms.
pub open spec fn schema_fault(v: serde_json::Value, schema: Seq<Field>) -> Option<ErrorView> {
    match first_fault(v, schema, 0) {
        Some(i) => Some(fault_view(schema[i].key@)),
        None => None,
    }
}

fn find_fault(v: &serde_json::Value, schema: &Vec<Field>) -> (r: Option<Error>)
    ensures
        r matches Some(e) ==> schema_fault(*v, schema@) == Some(e@),
        r is None ==> schema_fault(*v, schema@) is None && first_fault(*v, schema@, 0) is None,
{
    match check_schema(v, schema) {
        Some(i) => Some(fault(schema[i].key)),
        None => None,
    }
}

/// The ticker that a conforming document spells out.
pub open spec fn ticker_of(v: serde_json::Value) -> Ticker24hView {
    Ticker24hView {
        symbol: text_of(v, "s"@),
        price_change: text_of(v, "p"@),
        price_change_percent: text_of(v, "P"@),
        weighted_avg_price: text_of(v, "w"@),
        prev_close_price: text_of(v, "x"@),
        last_price: text_of(v, "c"@),
        bid_price: text_of(v, "b"@),
        ask_price: text_of(v, "a"@),
        open_price: text_of(v, "o"@),
        high_price: text_of(v, "h"@),
        low_price: text_of(v, "l"@),
        volume: text_of(v, "v"@),
        quote_volume: text_of(v, "q"@),
        open_time: normalized_millis(integer_of(v, "O"@) as i64) as int,
        close_time: normalized_millis(integer_of(v, "C"@) as i64) as int,
        first_id: integer_of(v, "F"@),
        last_id: integer_of(v, "L"@),
        count: integer_of(v, "n"@),
    }
}

/// What a 24-hour ticker document decodes to.
pub open spec fn ticker_decoded(v: serde_json::Value) -> std::result::Result<
    DomainEventView,
    ErrorView,
> {
    match schema_fault(v, ticker_fields()) {
        Some(e) => Err(e),
        None => Ok(DomainEventView::Ticker(ticker_of(v))),
    }
}

/// Decodes a parsed 24-hour ticker frame.
pub fn ticker_from_json(v: &serde_json::Value) -> (r: Envelope)
    ensures
        envelope_view(r) == ticker_decoded(*v),
{
    let schema = ticker_schema();
    match find_fault(v, &schema) {
        Some(e) => Err(e),
        None => Ok(
            DomainEvent::Ticker(
                Ticker24h {
                    symbol: schema_text(v, &schema, 1),
                    price_change: schema_text(v, &schema, 2),
                    price_change_percent: schema_text(v, &schema, 3),
                    weighted_avg_price: schema_text(v, &schema, 4),
                    prev_close_price: schema_text(v, &schema, 5),
                    last_price: schema_text(v, &schema, 6),
                    bid_price: schema_text(v, &schema, 7),
                    ask_price: schema_text(v, &schema, 8),
                    open_price: schema_text(v, &schema, 9),
                    high_price: schema_text(v, &schema, 10),
                    low_price: schema_text(v, &schema, 11),
                    volume: schema_text(v, &schema, 12),
                    quote_volume: schema_text(v, &schema, 13),
                    open_time: normalize_millis(schema_integer(v, &schema, 14)),
                    close_time: normalize_millis(schema_integer(v, &schema, 15)),
                    first_id: schema_integer(v, &schema, 16),
                    last_id: schema_integer(v, &schema, 17),
                    count: schema_integer(v, &schema, 18),
                },
            ),
        ),
    }
}

/// The mini ticker that a conforming document spells out.
pub open spec fn mini_ticker_of(v: serde_json::Value) -> TickerView {
    TickerView {
        symbol: text_of(v, "s"@),
        price: text_of(v, "c"@),
        timestamp: normalized_millis(integer_of(v, "E"@) as i64) as int,
    }
}

/// What a mini ticker document decodes to.
pub open spec fn mini_ticker_decoded(v: serde_json::Value) -> std::result::Result<
    DomainEventView,
    ErrorView,
> {
    match schema_fault(v, mini_ticker_fields()) {
        Some(e) => Err(e),
        None => Ok(DomainEventView::MiniTicker(mini_ticker_of(v))),
    }
}

/// Decodes a parsed mini ticker frame.
pub fn mini_ticker_from_json(v: &serde_json::Value) -> (r: Envelope)
    ensures
        envelope_view(r) == mini_ticker_decoded(*v),
{
    let schema = mini_ticker_schema();
    match find_fault(v, &schema) {
        Some(e) => Err(e),
        None => Ok(
            DomainEvent::MiniTicker(
                Ticker {
                    symbol: schema_text(v, &schema, 1),
                    price: schema_text(v, &schema, 2),
                    timestamp: normalize_millis(schema_integer(v, &schema, 3)),
                },
            ),
        ),
    }
}

/// The candlestick that a conforming body `k` spells out for a symbol.
pub open spec fn kline_of(k: serde_json::Value, symbol: Seq<char>) -> KlineView {
    KlineView {
        symbol,
        open_time: normalized_millis(integer_of(k, "t"@) as i64) as int,
        close_time: normalized_millis(integer_of(k, "T"@) as i64) as int,
        open: text_of(k, "o"@),
        high: text_of(k, "h"@),
        low: text_of(k, "l"@),
        close: text_of(k, "c"@),
        volume: text_of(k, "v"@),
        quote_volume: text_of(k, "q"@),
        trades: integer_of(k, "n"@),
        taker_buy_base: text_of(k, "V"@),
        taker_buy_quote: text_of(k, "Q"@),
        is_closed: flag_of(k, "x"@),
    }
}

/// What a candlestick document decodes to: the frame is checked first, then
/// the candlestick under `k`.
pub open spec fn kline_decoded(v: serde_json::Value, symbol: Seq<char>) -> std::result::Result<
    DomainEventView,
    ErrorView,
> {
    match schema_fault(v, kline_frame_fields()) {
        Some(e) => Err(e),
        None => match schema_fault(json_member(v, "k"@).unwrap(), kline_body_fields()) {
            Some(e) => Err(e),
            None => Ok(DomainEventView::Candle(kline_of(json_member(v, "k"@).unwrap(), symbol))),
        },
    }
}

/// Decodes a parsed candlestick frame of a subscription to `symbol`.
pub fn kline_from_json(v: &serde_json::Value, symbol: &str) -> (r: Envelope)
    ensures
        envelope_view(r) == kline_decoded(*v, symbol@),
{
    let frame = kline_frame_schema();
    match find_fault(v, &frame) {
        Some(e) => Err(e),
        None => {
            proof {
                lemma_no_fault(*v, frame@, 0, 2);
            }
            match member(v, "k") {
                Some(k) => {
                    let schema = kline_body_schema();
                    match find_fault(k, &schema) {
                        Some(e) => Err(e),
                        None => Ok(
                            DomainEvent::Candle(
                                Kline {
                                    symbol: symbol.to_owned(),
                                    open_time: normalize_millis(schema_integer(k, &schema, 0)),
                                    close_time: normalize_millis(schema_integer(k, &schema, 1)),
                                    open: schema_text(k, &schema, 2),
                                    high: schema_text(k, &schema, 3),
                                    low: schema_text(k, &schema, 4),
                                    close: schema_text(k, &schema, 5),
                                    volume: schema_text(k, &schema, 6),
                                    quote_volume: schema_text(k, &schema, 7),
                                    trades: schema_integer(k, &schema, 8),
                                    taker_buy_base: schema_text(k, &schema, 9),
                                    taker_buy_quote: schema_text(k, &schema, 10),
                                    is_closed: schema_flag(k, &schema, 11),
                                },
                            ),
                        ),
                    }
                },
                None => Err(fault("k")),
            }
        },
    }
}

/// The trade that a conforming document spells out for a symbol. The stream
/// sends no quote quantity.
pub open spec fn trade_of(v: serde_json::Value, symbol: Seq<char>) -> TradeView {
    TradeView {
        id: integer_of(v, "t"@),
        symbol,
        price: text_of(v, "p"@),
        quantity: text_of(v, "q"@),
        quote_quantity: None,
        time: normalized_millis(integer_of(v, "T"@) as i64) as int,
        is_buyer_maker: flag_of(v, "m"@),
    }
}

/// What a trade document decodes to.
pub open spec fn trade_decoded(v: serde_json::Value, symbol: Seq<char>) -> std::result::Result<
    DomainEventView,
    ErrorView,
> {
    match schema_fault(v, trade_fields()) {
        Some(e) => Err(e),
        None => Ok(DomainEventView::Trade(trade_of(v, symbol))),
    }
}

/// Decodes a parsed trade frame of a subscription to `symbol`.
pub fn trade_from_json(v: &serde_json::Value, symbol: &str) -> (r: Envelope)
    ensures
        envelope_view(r) == trade_decoded(*v, symbol@),
{
    let schema = trade_schema();
    match find_fault(v, &schema) {
        Some(e) => Err(e),
        None => Ok(
            DomainEvent::Trade(
                Trade {
                    id: schema_integer(v, &schema, 1),
                    symbol: symbol.to_owned(),
                    price: schema_text(v, &schema, 2),
                    quantity: schema_text(v, &schema, 3),
                    quote_quantity: None,
                    time: normalize_millis(schema_integer(v, &schema, 4)),
                    is_buyer_maker: schema_flag(v, &schema, 5),
                },
            ),
        ),
    }
}

/// The order book update that a conforming document spells out for a symbol,
/// stamped with the time the frame arrived.
pub open spec fn depth_of(v: serde_json::Value, symbol: Seq<char>, received_at: i64)
    -> OrderBookView
{
    OrderBookView {
        symbol,
        last_update_id: integer_of(v, "u"@),
        bids: levels_of(items_of(v, "b"@)),
        asks: levels_of(items_of(v, "a"@)),
        timestamp: received_at as int,
    }
}

/// What an order book update document decodes to.
pub open spec fn depth_decoded(v: serde_json::Value, symbol: Seq<char>, received_at: i64)
    -> std::result::Result<DomainEventView, ErrorView>
{
    match schema_fault(v, depth_fields()) {
        Some(e) => Err(e),
        None => Ok(DomainEventView::Depth(depth_of(v, symbol, received_at))),
    }
}

/// Decodes a parsed order book update frame of a subscription to `symbol`,
/// which arrived at `received_at` (milliseconds since the Unix epoch).
pub fn depth_from_json(v: &serde_json::Value, symbol: &str, received_at: i64) -> (r: Envelope)
    ensures
        envelope_view(r) == depth_decoded(*v, symbol@, received_at),
{
    let schema = depth_schema();
    match find_fault(v, &schema) {
        Some(e) => Err(e),
        None => Ok(
            DomainEvent::Depth(
                OrderBook {
                    symbol: symbol.to_owned(),
                    last_update_id: schema_integer(v, &schema, 3),
                    bids: schema_levels(v, &schema, 4),
                    asks: schema_levels(v, &schema, 5),
                    timestamp: received_at,
                },
            ),
        ),
    }
}

/// What the text of a frame decodes to on a stream of a kind. A raw stream
/// hands the text on; on the others a text that is no JSON document is a
/// deserialization error with the parser's own words, and a document is held
/// to the kind's fields.
pub open spec fn decoded(kind: StreamKind, symbol: Seq<char>, text: Seq<char>, received_at: i64)
    -> std::result::Result<DomainEventView, ErrorView>
{
    if kind == StreamKind::Raw {
        Ok(DomainEventView::Raw(text))
    } else {
        match json_parse(text) {
            Err(m) => Err(ErrorView::DeserializationError(m)),
            Ok(v) => match kind {
                StreamKind::Ticker => ticker_decoded(v),
                StreamKind::Kline => kline_decoded(v, symbol),
                StreamKind::Trade => trade_decoded(v, symbol),
                StreamKind::Depth => depth_decoded(v, symbol, received_at),
                _ => mini_ticker_decoded(v),
            },
        }
    }
}

/// Decodes the text of one frame of a stream of `kind` subscribed for `symbol`.
pub fn decode(kind: StreamKind, symbol: &str, text: &str, received_at: i64) -> (r: Envelope)
    ensures
        envelope_view(r) == decoded(kind, symbol@, text@, received_at),
{
    match kind {
        StreamKind::Raw => Ok(DomainEvent::Raw(text.to_owned())),
        _ => match parse(text) {
            Err(m) => Err(Error::DeserializationError(m)),
            Ok(v) => match kind {
                StreamKind::Ticker => ticker_from_json(&v),
                StreamKind::Kline => kline_from_json(&v, symbol),
                StreamKind::Trade => trade_from_json(&v, symbol),
                StreamKind::Depth => depth_from_json(&v, symbol, received_at),
                _ => mini_ticker_from_json(&v),
            },
        },
    }
}

} // verus!
