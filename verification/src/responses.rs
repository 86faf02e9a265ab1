//! The answers of the REST endpoints: what a response's status asks for, and
//! the records that a body spells out.

use vstd::prelude::*;
use vstd::string::*;
use crate::config::{number_setting, text_option};
use crate::error::{Error, ErrorView};
use crate::json::{
    check_schema, check_value, first_fault, integer, integer_of, items, items_of, json_i64,
    json_items, json_member, json_parse, json_string, lemma_no_fault, levels_of, member, parse,
    schema_flag, schema_integer, schema_levels, schema_text, schema_texts, string, flag_of,
    text_of, texts_of, value_conforms, Field, FieldKind,
};
use crate::models::{
    Kline, KlineView, OrderBook, OrderBookView, Symbol, SymbolView,
    Ticker, Ticker24h, Ticker24hView, TickerView, Trade, TradeView,
};
use crate::text::{join2, parse_u64};
use crate::time::{is_representable, normalize_millis, normalized_millis, representable_millis};

verus! {

/// The error for a body that does not spell out what the endpoint answers.
pub open spec fn unreadable(detail: Seq<char>) -> ErrorView {
    ErrorView::ApiError { code: 0, msg: "Failed to parse response: "@ + detail }
}

fn unreadable_error(detail: &str) -> (e: Error)
    ensures
        e@ == unreadable(detail@),
{
    Error::ApiError { code: 0, msg: join2("Failed to parse response: ", detail) }
}

/// The error for a body that lacks a field or holds it with the wrong kind.
pub open spec fn missing(key: Seq<char>) -> ErrorView {
    unreadable("missing or invalid field: "@ + key)
}

/// The error for a body that is no list where the endpoint answers one.
pub open spec fn not_a_list() -> ErrorView {
    unreadable("expected a list"@)
}

/// The field of `schema` that body `v` fails on, as an error.
pub open spec fn body_fault(v: serde_json::Value, schema: Seq<Field>) -> Option<ErrorView> {
    match first_fault(v, schema, 0) {
        Some(i) => Some(missing(schema[i].key@)),
        None => None,
    }
}

fn find_body_fault(v: &serde_json::Value, schema: &Vec<Field>) -> (r: Option<Error>)
    ensures
        r matches Some(e) ==> body_fault(*v, schema@) == Some(e@),
        r is None ==> body_fault(*v, schema@) is None && first_fault(*v, schema@, 0) is None,
{
    match check_schema(v, schema) {
        Some(i) => {
            let detail = join2("missing or invalid field: ", schema[i].key);
            Some(unreadable_error(detail.as_str()))
        },
        None => None,
    }
}

/// The fields of the error that the service sends with a bad request.
pub open spec fn rejection_fields() -> Seq<Field> {
    seq![
        Field { key: "code", kind: FieldKind::Integer32 },
        Field { key: "msg", kind: FieldKind::Text },
    ]
}

fn rejection_schema() -> (r: Vec<Field>)
    ensures
        r@ == rejection_fields(),
{
    let mut r: Vec<Field> = Vec::new();
    r.push(Field { key: "code", kind: FieldKind::Integer32 });
    r.push(Field { key: "msg", kind: FieldKind::Text });
    assert(r@ =~= rejection_fields());
    r
}

/// What a response asks for, by its status, its `Retry-After` header and its
/// body: the document of a success, or the error.
///
/// - 200: the body as a JSON document; a body that is none is an API error
///   of code 0 with the parser's words.
/// - 400: the service's own error code and message where the body spells
///   them out, else code 400 and "Bad request".
/// - 429: the rate limit is exceeded; retry after the header's seconds, or
///   after 60 where the header is absent or no number.
/// - any other status: an API error of that code, with the body as message.
pub open spec fn response_outcome(status: u16, retry_after: Option<Seq<char>>, body: Seq<char>)
    -> std::result::Result<serde_json::Value, ErrorView>
{
    if status == 200 {
        match json_parse(body) {
            Ok(v) => Ok(v),
            Err(m) => Err(unreadable(m)),
        }
    } else if status == 400 {
        match json_parse(body) {
            Ok(v) => if first_fault(v, rejection_fields(), 0) is None {
                Err(ErrorView::ApiError { code: integer_of(v, "code"@), msg: text_of(v, "msg"@) })
            } else {
                Err(ErrorView::ApiError { code: 400, msg: "Bad request"@ })
            },
            Err(m) => Err(ErrorView::ApiError { code: 400, msg: "Bad request"@ }),
        }
    } else if status == 429 {
        Err(
            ErrorView::RateLimitExceeded {
                retry_after_seconds: number_setting(retry_after, u64::MAX as nat, 60),
            },
        )
    } else {
        Err(ErrorView::ApiError { code: status as int, msg: body })
    }
}

/// A parsed body or an error, with the error as its value.
pub open spec fn outcome_view(r: std::result::Result<serde_json::Value, Error>)
    -> std::result::Result<serde_json::Value, ErrorView>
{
    match r {
        Ok(v) => Ok(v),
        Err(e) => Err(e@),
    }
}

/// Handle an HTTP response: see [`response_outcome`].
pub fn handle_response(status: u16, retry_after: Option<String>, body: &str) -> (r: Result<
    serde_json::Value,
    Error,
>)
    ensures
        outcome_view(r) == response_outcome(status, text_option(retry_after), body@),
{
    if status == 200 {
        match parse(body) {
            Ok(v) => Ok(v),
            Err(m) => Err(unreadable_error(m.as_str())),
        }
    } else if status == 400 {
        match parse(body) {
            Ok(v) => {
                let schema = rejection_schema();
                match check_schema(&v, &schema) {
                    None => {
                        let code = schema_integer(&v, &schema, 0);
                        let msg = schema_text(&v, &schema, 1);
                        Err(Error::ApiError { code: code as i32, msg })
                    },
                    Some(_) => Err(Error::ApiError { code: 400, msg: "Bad request".to_owned() }),
                }
            },
            Err(_) => Err(Error::ApiError { code: 400, msg: "Bad request".to_owned() }),
        }
    } else if status == 429 {
        let seconds = match &retry_after {
            Some(s) => match parse_u64(s.as_str()) {
                Some(n) => n,
                None => 60,
            },
            None => 60,
        };
        Err(Error::RateLimitExceeded { retry_after_seconds: seconds })
    } else {
        Err(Error::ApiError { code: status as i32, msg: body.to_owned() })
    }
}

/// Whether a ping was answered: the status is 200.
pub fn ping_succeeded(status: u16) -> (r: bool)
    ensures
        r == (status == 200),
{
    status == 200
}

/// What each element of a list decodes to, in order; the first error where
/// an element does not decode.
pub open spec fn each_decoded<T>(
    rows: Seq<serde_json::Value>,
    f: spec_fn(serde_json::Value) -> std::result::Result<T, ErrorView>,
) -> std::result::Result<Seq<T>, ErrorView>
    decreases rows.len(),
{
    if rows.len() == 0 {
        Ok(Seq::empty())
    } else {
        match each_decoded(rows.drop_last(), f) {
            Err(e) => Err(e),
            Ok(head) => match f(rows.last()) {
                Err(e) => Err(e),
                Ok(x) => Ok(head.push(x)),
            },
        }
    }
}

/// Where the elements before `k` decode and element `k` does not, the list
/// decodes to the error of element `k`.
pub proof fn lemma_first_error<T>(
    rows: Seq<serde_json::Value>,
    f: spec_fn(serde_json::Value) -> std::result::Result<T, ErrorView>,
    k: int,
)
    requires
        0 <= k < rows.len(),
        each_decoded(rows.subrange(0, k), f) is Ok,
        f(rows[k]) is Err,
    ensures
        each_decoded(rows, f) == Err::<Seq<T>, ErrorView>(f(rows[k])->Err_0),
    decreases rows.len(),
{
    if k == rows.len() - 1 {
        assert(rows.drop_last() =~= rows.subrange(0, k));
    } else {
        assert(rows.drop_last().subrange(0, k) =~= rows.subrange(0, k));
        lemma_first_error(rows.drop_last(), f, k);
    }
}

/// Decoding one more element extends what the elements before decode to.
pub proof fn lemma_next_decoded<T>(
    rows: Seq<serde_json::Value>,
    f: spec_fn(serde_json::Value) -> std::result::Result<T, ErrorView>,
    k: int,
)
    requires
        0 <= k < rows.len(),
        each_decoded(rows.subrange(0, k), f) is Ok,
        f(rows[k]) is Ok,
    ensures
        each_decoded(rows.subrange(0, k + 1), f) == Ok::<Seq<T>, ErrorView>(
            each_decoded(rows.subrange(0, k), f)->Ok_0.push(f(rows[k])->Ok_0),
        ),
{
    assert(rows.subrange(0, k + 1).drop_last() =~= rows.subrange(0, k));
}

/// The fields of a price ticker.
pub open spec fn ticker_price_fields() -> Seq<Field> {
    seq![
        Field { key: "symbol", kind: FieldKind::Text },
        Field { key: "price", kind: FieldKind::Text },
    ]
}

fn ticker_price_schema() -> (r: Vec<Field>)
    ensures
        r@ == ticker_price_fields(),
{
    let mut r: Vec<Field> = Vec::new();
    r.push(Field { key: "symbol", kind: FieldKind::Text });
    r.push(Field { key: "price", kind: FieldKind::Text });
    assert(r@ =~= ticker_price_fields());
    r
}

/// The fields of the 24-hour statistics.
pub open spec fn ticker_24h_fields() -> Seq<Field> {
    seq![
        Field { key: "symbol", kind: FieldKind::Text },
        Field { key: "priceChange", kind: FieldKind::Text },
        Field { key: "priceChangePercent", kind: FieldKind::Text },
        Field { key: "weightedAvgPrice", kind: FieldKind::Text },
        Field { key: "prevClosePrice", kind: FieldKind::Text },
        Field { key: "lastPrice", kind: FieldKind::Text },
        Field { key: "bidPrice", kind: FieldKind::Text },
        Field { key: "askPrice", kind: FieldKind::Text },
        Field { key: "openPrice", kind: FieldKind::Text },
        Field { key: "highPrice", kind: FieldKind::Text },
        Field { key: "lowPrice", kind: FieldKind::Text },
        Field { key: "volume", kind: FieldKind::Text },
        Field { key: "quoteVolume", kind: FieldKind::Text },
        Field { key: "openTime", kind: FieldKind::Integer },
        Field { key: "closeTime", kind: FieldKind::Integer },
        Field { key: "firstId", kind: FieldKind::Integer },
        Field { key: "lastId", kind: FieldKind::Integer },
        Field { key: "count", kind: FieldKind::Integer },
    ]
}

fn ticker_24h_schema() -> (r: Vec<Field>)
    ensures
        r@ == ticker_24h_fields(),
{
    let mut r: Vec<Field> = Vec::new();
    r.push(Field { key: "symbol", kind: FieldKind::Text });
    r.push(Field { key: "priceChange", kind: FieldKind::Text });
    r.push(Field { key: "priceChangePercent", kind: FieldKind::Text });
    r.push(Field { key: "weightedAvgPrice", kind: FieldKind::Text });
    r.push(Field { key: "prevClosePrice", kind: FieldKind::Text });
    r.push(Field { key: "lastPrice", kind: FieldKind::Text });
    r.push(Field { key: "bidPrice", kind: FieldKind::Text });
    r.push(Field { key: "askPrice", kind: FieldKind::Text });
    r.push(Field { key: "openPrice", kind: FieldKind::Text });
    r.push(Field { key: "highPrice", kind: FieldKind::Text });
    r.push(Field { key: "lowPrice", kind: FieldKind::Text });
    r.push(Field { key: "volume", kind: FieldKind::Text });
    r.push(Field { key: "quoteVolume", kind: FieldKind::Text });
    r.push(Field { key: "openTime", kind: FieldKind::Integer });
    r.push(Field { key: "closeTime", kind: FieldKind::Integer });
    r.push(Field { key: "firstId", kind: FieldKind::Integer });
    r.push(Field { key: "lastId", kind: FieldKind::Integer });
    r.push(Field { key: "count", kind: FieldKind::Integer });
    assert(r@ =~= ticker_24h_fields());
    r
}

/// The fields of an order book snapshot.
pub open spec fn depth_snapshot_fields() -> Seq<Field> {
    seq![
        Field { key: "lastUpdateId", kind: FieldKind::Integer },
        Field { key: "bids", kind: FieldKind::Levels },
        Field { key: "asks", kind: FieldKind::Levels },
    ]
}

fn depth_snapshot_schema() -> (r: Vec<Field>)
    ensures
        r@ == depth_snapshot_fields(),
{
    let mut r: Vec<Field> = Vec::new();
    r.push(Field { key: "lastUpdateId", kind: FieldKind::Integer });
    r.push(Field { key: "bids", kind: FieldKind::Levels });
    r.push(Field { key: "asks", kind: FieldKind::Levels });
    assert(r@ =~= depth_snapshot_fields());
    r
}

/// The fields of a recent trade.
pub open spec fn recent_trade_fields() -> Seq<Field> {
    seq![
        Field { key: "id", kind: FieldKind::Integer },
        Field { key: "price", kind: FieldKind::Text },
        Field { key: "qty", kind: FieldKind::Text },
        Field { key: "quoteQty", kind: FieldKind::Text },
        Field { key: "time", kind: FieldKind::Integer },
        Field { key: "isBuyerMaker", kind: FieldKind::Flag },
    ]
}

fn recent_trade_schema() -> (r: Vec<Field>)
    ensures
        r@ == recent_trade_fields(),
{
    let mut r: Vec<Field> = Vec::new();
    r.push(Field { key: "id", kind: FieldKind::Integer });
    r.push(Field { key: "price", kind: FieldKind::Text });
    r.push(Field { key: "qty", kind: FieldKind::Text });
    r.push(Field { key: "quoteQty", kind: FieldKind::Text });
    r.push(Field { key: "time", kind: FieldKind::Integer });
    r.push(Field { key: "isBuyerMaker", kind: FieldKind::Flag });
    assert(r@ =~= recent_trade_fields());
    r
}

/// The fields of a symbol's description.
pub open spec fn symbol_info_fields() -> Seq<Field> {
    seq![
        Field { key: "symbol", kind: FieldKind::Text },
        Field { key: "status", kind: FieldKind::Text },
        Field { key: "base_asset", kind: FieldKind::Text },
        Field { key: "quote_asset", kind: FieldKind::Text },
        Field { key: "base_asset_precision", kind: FieldKind::Integer32 },
        Field { key: "quote_asset_precision", kind: FieldKind::Integer32 },
        Field { key: "order_types", kind: FieldKind::Texts },
    ]
}

fn symbol_info_schema() -> (r: Vec<Field>)
    ensures
        r@ == symbol_info_fields(),
{
    let mut r: Vec<Field> = Vec::new();
    r.push(Field { key: "symbol", kind: FieldKind::Text });
    r.push(Field { key: "status", kind: FieldKind::Text });
    r.push(Field { key: "base_asset", kind: FieldKind::Text });
    r.push(Field { key: "quote_asset", kind: FieldKind::Text });
    r.push(Field { key: "base_asset_precision", kind: FieldKind::Integer32 });
    r.push(Field { key: "quote_asset_precision", kind: FieldKind::Integer32 });
    r.push(Field { key: "order_types", kind: FieldKind::Texts });
    assert(r@ =~= symbol_info_fields());
    r
}

/// The fields of the exchange information.
pub open spec fn exchange_info_fields() -> Seq<Field> {
    seq![
        Field { key: "symbols", kind: FieldKind::Present },
    ]
}

fn exchange_info_schema() -> (r: Vec<Field>)
    ensures
        r@ == exchange_info_fields(),
{
    let mut r: Vec<Field> = Vec::new();
    r.push(Field { key: "symbols", kind: FieldKind::Present });
    assert(r@ =~= exchange_info_fields());
    r
}

/// The fields of the server time.
pub open spec fn server_time_fields() -> Seq<Field> {
    seq![
        Field { key: "serverTime", kind: FieldKind::Integer },
    ]
}

fn server_time_schema() -> (r: Vec<Field>)
    ensures
        r@ == server_time_fields(),
{
    let mut r: Vec<Field> = Vec::new();
    r.push(Field { key: "serverTime", kind: FieldKind::Integer });
    assert(r@ =~= server_time_fields());
    r
}

/// A record or an error, each as its value.
pub open spec fn record_view<T: View>(r: std::result::Result<T, Error>) -> std::result::Result<
    T::V,
    ErrorView,
> {
    match r {
        Ok(x) => Ok(x@),
        Err(e) => Err(e@),
    }
}

/// The values of a list of records.
pub open spec fn records_view<T: View>(rows: Seq<T>) -> Seq<T::V> {
    Seq::new(rows.len(), |i: int| rows[i]@)
}

/// A list of records or an error, each as its value.
pub open spec fn list_view<T: View>(r: std::result::Result<Vec<T>, Error>) -> std::result::Result<
    Seq<T::V>,
    ErrorView,
> {
    match r {
        Ok(rows) => Ok(records_view(rows@)),
        Err(e) => Err(e@),
    }
}

/// What the elements of a body decode to where the body is a list; the
/// error of a body that is none.
pub open spec fn list_decoded<T>(
    v: serde_json::Value,
    f: spec_fn(serde_json::Value) -> std::result::Result<T, ErrorView>,
) -> std::result::Result<Seq<T>, ErrorView> {
    match json_items(v) {
        Some(rows) => each_decoded(rows, f),
        None => Err(not_a_list()),
    }
}

/// The price ticker that a conforming body spells out, stamped with `now`.
pub open spec fn ticker_price_decoded(v: serde_json::Value, now: i64) -> std::result::Result<
    TickerView,
    ErrorView,
> {
    match body_fault(v, ticker_price_fields()) {
        Some(e) => Err(e),
        None => Ok(
            TickerView {
                symbol: text_of(v, "symbol"@),
                price: text_of(v, "price"@),
                timestamp: now as int,
            },
        ),
    }
}

/// Decodes the body of a price ticker, received at `now` (milliseconds since
/// the Unix epoch).
pub fn ticker_price_from_json(v: &serde_json::Value, now: i64) -> (r: Result<Ticker, Error>)
    ensures
        record_view(r) == ticker_price_decoded(*v, now),
{
    let schema = ticker_price_schema();
    match find_body_fault(v, &schema) {
        Some(e) => Err(e),
        None => Ok(
            Ticker {
                symbol: schema_text(v, &schema, 0),
                price: schema_text(v, &schema, 1),
                timestamp: now,
            },
        ),
    }
}

/// The 24-hour statistics that a conforming body spells out. A time that is
/// not representable is an error here, open time first.
pub open spec fn ticker_24h_decoded(v: serde_json::Value) -> std::result::Result<
    Ticker24hView,
    ErrorView,
> {
    match body_fault(v, ticker_24h_fields()) {
        Some(e) => Err(e),
        None => if !representable_millis(integer_of(v, "openTime"@) as i64) {
            Err(ErrorView::DeserializationError("Invalid open time"@))
        } else if !representable_millis(integer_of(v, "closeTime"@) as i64) {
            Err(ErrorView::DeserializationError("Invalid close time"@))
        } else {
            Ok(
                Ticker24hView {
                    symbol: text_of(v, "symbol"@),
                    price_change: text_of(v, "priceChange"@),
                    price_change_percent: text_of(v, "priceChangePercent"@),
                    weighted_avg_price: text_of(v, "weightedAvgPrice"@),
                    prev_close_price: text_of(v, "prevClosePrice"@),
                    last_price: text_of(v, "lastPrice"@),
                    bid_price: text_of(v, "bidPrice"@),
                    ask_price: text_of(v, "askPrice"@),
                    open_price: text_of(v, "openPrice"@),
                    high_price: text_of(v, "highPrice"@),
                    low_price: text_of(v, "lowPrice"@),
                    volume: text_of(v, "volume"@),
                    quote_volume: text_of(v, "quoteVolume"@),
                    open_time: integer_of(v, "openTime"@),
                    close_time: integer_of(v, "closeTime"@),
                    first_id: integer_of(v, "firstId"@),
                    last_id: integer_of(v, "lastId"@),
                    count: integer_of(v, "count"@),
                },
            )
        },
    }
}

/// Decodes the body of the 24-hour statistics.
pub fn ticker_24h_from_json(v: &serde_json::Value) -> (r: Result<Ticker24h, Error>)
    ensures
        record_view(r) == ticker_24h_decoded(*v),
{
    let schema = ticker_24h_schema();
    match find_body_fault(v, &schema) {
        Some(e) => Err(e),
        None => {
            let open_time = schema_integer(v, &schema, 13);
            let close_time = schema_integer(v, &schema, 14);
            if !is_representable(open_time) {
                return Err(Error::DeserializationError("Invalid open time".to_owned()));
            }
            if !is_representable(close_time) {
                return Err(Error::DeserializationError("Invalid close time".to_owned()));
            }
            Ok(
                Ticker24h {
                    symbol: schema_text(v, &schema, 0),
                    price_change: schema_text(v, &schema, 1),
                    price_change_percent: schema_text(v, &schema, 2),
                    weighted_avg_price: schema_text(v, &schema, 3),
                    prev_close_price: schema_text(v, &schema, 4),
                    last_price: schema_text(v, &schema, 5),
                    bid_price: schema_text(v, &schema, 6),
                    ask_price: schema_text(v, &schema, 7),
                    open_price: schema_text(v, &schema, 8),
                    high_price: schema_text(v, &schema, 9),
                    low_price: schema_text(v, &schema, 10),
                    volume: schema_text(v, &schema, 11),
                    quote_volume: schema_text(v, &schema, 12),
                    open_time,
                    close_time,
                    first_id: schema_integer(v, &schema, 15),
                    last_id: schema_integer(v, &schema, 16),
                    count: schema_integer(v, &schema, 17),
                },
            )
        },
    }
}

/// The order book that a conforming body spells out for a symbol, stamped
/// with `now`.
pub open spec fn depth_snapshot_decoded(v: serde_json::Value, symbol: Seq<char>, now: i64)
    -> std::result::Result<OrderBookView, ErrorView>
{
    match body_fault(v, depth_snapshot_fields()) {
        Some(e) => Err(e),
        None => Ok(
            OrderBookView {
                symbol,
                last_update_id: integer_of(v, "lastUpdateId"@),
                bids: levels_of(items_of(v, "bids"@)),
                asks: levels_of(items_of(v, "asks"@)),
                timestamp: now as int,
            },
        ),
    }
}

/// Decodes the body of an order book snapshot asked for `symbol`, received
/// at `now`.
pub fn depth_snapshot_from_json(v: &serde_json::Value, symbol: &str, now: i64) -> (r: Result<
    OrderBook,
    Error,
>)
    ensures
        record_view(r) == depth_snapshot_decoded(*v, symbol@, now),
{
    let schema = depth_snapshot_schema();
    match find_body_fault(v, &schema) {
        Some(e) => Err(e),
        None => Ok(
            OrderBook {
                symbol: symbol.to_owned(),
                last_update_id: schema_integer(v, &schema, 0),
                bids: schema_levels(v, &schema, 1),
                asks: schema_levels(v, &schema, 2),
                timestamp: now,
            },
        ),
    }
}

/// The trade that a conforming element spells out for a symbol.
pub open spec fn recent_trade_decoded(v: serde_json::Value, symbol: Seq<char>)
    -> std::result::Result<TradeView, ErrorView>
{
    match body_fault(v, recent_trade_fields()) {
        Some(e) => Err(e),
        None => Ok(
            TradeView {
                id: integer_of(v, "id"@),
                symbol,
                price: text_of(v, "price"@),
                quantity: text_of(v, "qty"@),
                quote_quantity: Some(text_of(v, "quoteQty"@)),
                time: normalized_millis(integer_of(v, "time"@) as i64) as int,
                is_buyer_maker: flag_of(v, "isBuyerMaker"@),
            },
        ),
    }
}

/// Decodes one element of the recent trades asked for `symbol`.
pub fn recent_trade_from_json(v: &serde_json::Value, symbol: &str) -> (r: Result<Trade, Error>)
    ensures
        record_view(r) == recent_trade_decoded(*v, symbol@),
{
    let schema = recent_trade_schema();
    match find_body_fault(v, &schema) {
        Some(e) => Err(e),
        None => Ok(
            Trade {
                id: schema_integer(v, &schema, 0),
                symbol: symbol.to_owned(),
                price: schema_text(v, &schema, 1),
                quantity: schema_text(v, &schema, 2),
                quote_quantity: Some(schema_text(v, &schema, 3)),
                time: normalize_millis(schema_integer(v, &schema, 4)),
                is_buyer_maker: schema_flag(v, &schema, 5),
            },
        ),
    }
}

/// The symbol description that a conforming element spells out.
pub open spec fn symbol_info_decoded(v: serde_json::Value) -> std::result::Result<
    SymbolView,
    ErrorView,
> {
    match body_fault(v, symbol_info_fields()) {
        Some(e) => Err(e),
        None => Ok(
            SymbolView {
                symbol: text_of(v, "symbol"@),
                status: text_of(v, "status"@),
                base_asset: text_of(v, "base_asset"@),
                quote_asset: text_of(v, "quote_asset"@),
                base_asset_precision: integer_of(v, "base_asset_precision"@),
                quote_asset_precision: integer_of(v, "quote_asset_precision"@),
                order_types: texts_of(items_of(v, "order_types"@)),
            },
        ),
    }
}

/// Decodes one symbol of the exchange information.
pub fn symbol_info_from_json(v: &serde_json::Value) -> (r: Result<Symbol, Error>)
    ensures
        record_view(r) == symbol_info_decoded(*v),
{
    let schema = symbol_info_schema();
    match find_body_fault(v, &schema) {
        Some(e) => Err(e),
        None => Ok(
            Symbol {
                symbol: schema_text(v, &schema, 0),
                status: schema_text(v, &schema, 1),
                base_asset: schema_text(v, &schema, 2),
                quote_asset: schema_text(v, &schema, 3),
                base_asset_precision: schema_integer(v, &schema, 4) as i32,
                quote_asset_precision: schema_integer(v, &schema, 5) as i32,
                order_types: schema_texts(v, &schema, 6),
            },
        ),
    }
}

/// The server time that a conforming body spells out.
pub open spec fn server_time_decoded(v: serde_json::Value) -> std::result::Result<i64, ErrorView> {
    match body_fault(v, server_time_fields()) {
        Some(e) => Err(e),
        None => Ok(integer_of(v, "serverTime"@) as i64),
    }
}

/// Decodes the body of the server time.
pub fn server_time_from_json(v: &serde_json::Value) -> (r: Result<i64, Error>)
    ensures
        r matches Ok(t) ==> server_time_decoded(*v) == Ok::<i64, ErrorView>(t),
        r matches Err(e) ==> server_time_decoded(*v) == Err::<i64, ErrorView>(e@),
{
    let schema = server_time_schema();
    match find_body_fault(v, &schema) {
        Some(e) => Err(e),
        None => Ok(schema_integer(v, &schema, 0)),
    }
}

/// Decodes a body that is a list, element by element, and stops at the first
/// element that does not decode.
fn decode_list<T: View, F: Fn(&serde_json::Value) -> Result<T, Error>>(
    v: &serde_json::Value,
    decode_one: F,
    Ghost(f): Ghost<spec_fn(serde_json::Value) -> std::result::Result<T::V, ErrorView>>,
) -> (r: Result<Vec<T>, Error>)
    requires
        forall|row: &serde_json::Value| call_requires(decode_one, (row,)),
        forall|row: &serde_json::Value, out: Result<T, Error>|
            call_ensures(decode_one, (row,), out) ==> record_view(out) == f(*row),
    ensures
        list_view(r) == list_decoded(*v, f),
{
    match items(v) {
        None => Err(unreadable_error("expected a list")),
        Some(rows) => {
            let mut out: Vec<T> = Vec::new();
            let mut i: usize = 0;
            assert(rows@.subrange(0, 0) =~= Seq::<serde_json::Value>::empty());
            assert(records_view(out@) =~= Seq::<T::V>::empty());
            while i < rows.len()
                invariant
                    i <= rows.len(),
                    json_items(*v) == Some(rows@),
                    forall|row: &serde_json::Value| call_requires(decode_one, (row,)),
                    forall|row: &serde_json::Value, out: Result<T, Error>|
                        call_ensures(decode_one, (row,), out) ==> record_view(out) == f(*row),
                    each_decoded(rows@.subrange(0, i as int), f) == Ok::<Seq<T::V>, ErrorView>(
                        records_view(out@),
                    ),
                decreases rows.len() - i,
            {
                match decode_one(&rows[i]) {
                    Err(e) => {
                        proof {
                            lemma_first_error(rows@, f, i as int);
                        }
                        return Err(e);
                    },
                    Ok(x) => {
                        proof {
                            lemma_next_decoded(rows@, f, i as int);
                            assert(records_view(out@.push(x)) =~= records_view(out@).push(x@));
                        }
                        out.push(x);
                    },
                }
                i = i + 1;
            }
            assert(rows@.subrange(0, rows.len() as int) =~= rows@);
            Ok(out)
        },
    }
}

/// Decodes the body of all price tickers, received at `now`.
pub fn ticker_prices_from_json(v: &serde_json::Value, now: i64) -> (r: Result<Vec<Ticker>, Error>)
    ensures
        list_view(r) == list_decoded(*v, |row: serde_json::Value| ticker_price_decoded(row, now)),
{
    decode_list(
        v,
        |row: &serde_json::Value| -> (out: Result<Ticker, Error>)
            ensures
                record_view(out) == ticker_price_decoded(*row, now)
            { ticker_price_from_json(row, now) },
        Ghost(|row: serde_json::Value| ticker_price_decoded(row, now)),
    )
}

/// Decodes the body of the recent trades asked for `symbol`.
pub fn recent_trades_from_json(v: &serde_json::Value, symbol: &str) -> (r: Result<
    Vec<Trade>,
    Error,
>)
    ensures
        list_view(r) == list_decoded(
            *v,
            |row: serde_json::Value| recent_trade_decoded(row, symbol@),
        ),
{
    decode_list(
        v,
        |row: &serde_json::Value| -> (out: Result<Trade, Error>)
            ensures
                record_view(out) == recent_trade_decoded(*row, symbol@)
            { recent_trade_from_json(row, symbol) },
        Ghost(|row: serde_json::Value| recent_trade_decoded(row, symbol@)),
    )
}

/// Decodes a list of symbol descriptions.
pub fn symbols_from_json(v: &serde_json::Value) -> (r: Result<Vec<Symbol>, Error>)
    ensures
        list_view(r) == list_decoded(*v, |row: serde_json::Value| symbol_info_decoded(row)),
{
    decode_list(
        v,
        |row: &serde_json::Value| -> (out: Result<Symbol, Error>)
            ensures
                record_view(out) == symbol_info_decoded(*row)
            { symbol_info_from_json(row) },
        Ghost(|row: serde_json::Value| symbol_info_decoded(row)),
    )
}

/// The kinds of the values of a candlestick, which the service sends as a
/// list: open time, open, high, low, close, volume, close time, quote volume,
/// number of trades, taker buy base volume, taker buy quote volume, and one
/// value to ignore.
pub open spec fn kline_row_kinds() -> Seq<FieldKind> {
    seq![
        FieldKind::Integer,
        FieldKind::Text,
        FieldKind::Text,
        FieldKind::Text,
        FieldKind::Text,
        FieldKind::Text,
        FieldKind::Integer,
        FieldKind::Text,
        FieldKind::Integer,
        FieldKind::Text,
        FieldKind::Text,
        FieldKind::Text,
    ]
}

fn kline_row_schema() -> (r: Vec<FieldKind>)
    ensures
        r@ == kline_row_kinds(),
{
    let mut r: Vec<FieldKind> = Vec::new();
    r.push(FieldKind::Integer);
    r.push(FieldKind::Text);
    r.push(FieldKind::Text);
    r.push(FieldKind::Text);
    r.push(FieldKind::Text);
    r.push(FieldKind::Text);
    r.push(FieldKind::Integer);
    r.push(FieldKind::Text);
    r.push(FieldKind::Integer);
    r.push(FieldKind::Text);
    r.push(FieldKind::Text);
    r.push(FieldKind::Text);
    assert(r@ =~= kline_row_kinds());
    r
}

/// Whether a list holds exactly one value of each kind, in order.
pub open spec fn row_conforms(cells: Seq<serde_json::Value>, kinds: Seq<FieldKind>) -> bool {
    cells.len() == kinds.len() && forall|i: int|
        0 <= i < kinds.len() ==> #[trigger] value_conforms(cells[i], kinds[i])
}

fn check_row(cells: &Vec<serde_json::Value>, kinds: &Vec<FieldKind>) -> (r: bool)
    ensures
        r == row_conforms(cells@, kinds@),
{
    if cells.len() != kinds.len() {
        return false;
    }
    let mut i: usize = 0;
    while i < kinds.len()
        invariant
            i <= kinds.len(),
            cells.len() == kinds.len(),
            forall|j: int| 0 <= j < i ==> #[trigger] value_conforms(cells@[j], kinds@[j]),
        decreases kinds.len() - i,
    {
        if !check_value(&cells[i], kinds[i]) {
            return false;
        }
        i = i + 1;
    }
    true
}

fn cell_text(cells: &Vec<serde_json::Value>, i: usize) -> (r: String)
    requires
        i < cells.len(),
        json_string(cells@[i as int]) is Some,
    ensures
        r@ == json_string(cells@[i as int]).unwrap(),
{
    match string(&cells[i]) {
        Some(s) => s.to_owned(),
        None => String::new(),
    }
}

fn cell_integer(cells: &Vec<serde_json::Value>, i: usize) -> (r: i64)
    requires
        i < cells.len(),
        json_i64(cells@[i as int]) is Some,
    ensures
        r == json_i64(cells@[i as int]).unwrap(),
{
    match integer(&cells[i]) {
        Some(n) => n,
        None => 0,
    }
}

/// The candlestick that a conforming list of values spells out for a symbol.
/// A candlestick of the past is closed.
pub open spec fn kline_of_row(cells: Seq<serde_json::Value>, symbol: Seq<char>) -> KlineView {
    KlineView {
        symbol,
        open_time: json_i64(cells[0]).unwrap() as int,
        close_time: json_i64(cells[6]).unwrap() as int,
        open: json_string(cells[1]).unwrap(),
        high: json_string(cells[2]).unwrap(),
        low: json_string(cells[3]).unwrap(),
        close: json_string(cells[4]).unwrap(),
        volume: json_string(cells[5]).unwrap(),
        quote_volume: json_string(cells[7]).unwrap(),
        trades: json_i64(cells[8]).unwrap() as int,
        taker_buy_base: json_string(cells[9]).unwrap(),
        taker_buy_quote: json_string(cells[10]).unwrap(),
        is_closed: true,
    }
}

/// What one element of the candlesticks' body decodes to. A time that is not
/// representable is an error, open time first.
pub open spec fn kline_row_decoded(row: serde_json::Value, symbol: Seq<char>)
    -> std::result::Result<KlineView, ErrorView>
{
    match json_items(row) {
        Some(cells) => if !row_conforms(cells, kline_row_kinds()) {
            Err(unreadable("expected a candlestick of 12 values"@))
        } else if !representable_millis(json_i64(cells[0]).unwrap()) {
            Err(ErrorView::DeserializationError("Invalid open time"@))
        } else if !representable_millis(json_i64(cells[6]).unwrap()) {
            Err(ErrorView::DeserializationError("Invalid close time"@))
        } else {
            Ok(kline_of_row(cells, symbol))
        },
        None => Err(unreadable("expected a candlestick of 12 values"@)),
    }
}

/// Decodes one element of the candlesticks asked for `symbol`.
pub fn kline_row_from_json(row: &serde_json::Value, symbol: &str) -> (r: Result<Kline, Error>)
    ensures
        record_view(r) == kline_row_decoded(*row, symbol@),
{
    match items(row) {
        None => Err(unreadable_error("expected a candlestick of 12 values")),
        Some(cells) => {
            let kinds = kline_row_schema();
            if !check_row(cells, &kinds) {
                return Err(unreadable_error("expected a candlestick of 12 values"));
            }
            proof {
                let ghost c = cells@;
                let ghost k = kinds@;
                assert(value_conforms(c[0], k[0]));
                assert(value_conforms(c[1], k[1]));
                assert(value_conforms(c[2], k[2]));
                assert(value_conforms(c[3], k[3]));
                assert(value_conforms(c[4], k[4]));
                assert(value_conforms(c[5], k[5]));
                assert(value_conforms(c[6], k[6]));
                assert(value_conforms(c[7], k[7]));
                assert(value_conforms(c[8], k[8]));
                assert(value_conforms(c[9], k[9]));
                assert(value_conforms(c[10], k[10]));
            }
            let open_time = cell_integer(cells, 0);
            let close_time = cell_integer(cells, 6);
            if !is_representable(open_time) {
                return Err(Error::DeserializationError("Invalid open time".to_owned()));
            }
            if !is_representable(close_time) {
                return Err(Error::DeserializationError("Invalid close time".to_owned()));
            }
            Ok(
                Kline {
                    symbol: symbol.to_owned(),
                    open_time,
                    close_time,
                    open: cell_text(cells, 1),
                    high: cell_text(cells, 2),
                    low: cell_text(cells, 3),
                    close: cell_text(cells, 4),
                    volume: cell_text(cells, 5),
                    quote_volume: cell_text(cells, 7),
                    trades: cell_integer(cells, 8),
                    taker_buy_base: cell_text(cells, 9),
                    taker_buy_quote: cell_text(cells, 10),
                    is_closed: true,
                },
            )
        },
    }
}

/// What the body of the exchange information decodes to: the symbols under
/// `symbols`, each decoded.
pub open spec fn exchange_info_decoded(v: serde_json::Value) -> std::result::Result<
    Seq<SymbolView>,
    ErrorView,
> {
    match body_fault(v, exchange_info_fields()) {
        Some(e) => Err(e),
        None => list_decoded(
            json_member(v, "symbols"@).unwrap(),
            |row: serde_json::Value| symbol_info_decoded(row),
        ),
    }
}

/// Decodes the body of the exchange information.
pub fn exchange_info_from_json(v: &serde_json::Value) -> (r: Result<Vec<Symbol>, Error>)
    ensures
        list_view(r) == exchange_info_decoded(*v),
{
    let schema = exchange_info_schema();
    match find_body_fault(v, &schema) {
        Some(e) => Err(e),
        None => {
            proof {
                lemma_no_fault(*v, schema@, 0, 0);
            }
            match member(v, "symbols") {
                Some(list) => symbols_from_json(list),
                None => Err(unreadable_error("missing or invalid field: symbols")),
            }
        },
    }
}

/// Decodes the body of the candlesticks asked for `symbol`.
pub fn klines_from_json(v: &serde_json::Value, symbol: &str) -> (r: Result<Vec<Kline>, Error>)
    ensures
        list_view(r) == list_decoded(*v, |row: serde_json::Value| kline_row_decoded(row, symbol@)),
{
    decode_list(
        v,
        |row: &serde_json::Value| -> (out: Result<Kline, Error>)
            ensures
                record_view(out) == kline_row_decoded(*row, symbol@)
            { kline_row_from_json(row, symbol) },
        Ghost(|row: serde_json::Value| kline_row_decoded(row, symbol@)),
    )
}

} // verus!
