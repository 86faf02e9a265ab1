//! Data models of the service's market data.

use vstd::prelude::*;
use vstd::string::*;
use crate::error::{Error, ErrorView};
use crate::text::same_text;

verus! {

/// The values of a list of price levels.
pub open spec fn levels_view(levels: Seq<PriceLevel>) -> Seq<PriceLevelView> {
    Seq::new(levels.len(), |i: int| levels[i]@)
}

/// The character sequences of a list of texts.
pub open spec fn texts_view(texts: Seq<String>) -> Seq<Seq<char>> {
    Seq::new(texts.len(), |i: int| texts[i]@)
}

/// OHLCV candlestick data (called "Kline" by the service). Amounts are the
/// decimal texts the service sent; times are milliseconds since the Unix epoch.
#[derive(Debug, Clone, PartialEq, Eq)]
pub struct Kline {
    pub symbol: String,
    pub open_time: i64,
    pub close_time: i64,
    pub open: String,
    pub high: String,
    pub low: String,
    pub close: String,
    pub volume: String,
    pub quote_volume: String,
    pub trades: i64,
    pub taker_buy_base: String,
    pub taker_buy_quote: String,
    pub is_closed: bool,
}

/// The mathematical value of a [`Kline`].
pub struct KlineView {
    pub symbol: Seq<char>,
    pub open_time: int,
    pub close_time: int,
    pub open: Seq<char>,
    pub high: Seq<char>,
    pub low: Seq<char>,
    pub close: Seq<char>,
    pub volume: Seq<char>,
    pub quote_volume: Seq<char>,
    pub trades: int,
    pub taker_buy_base: Seq<char>,
    pub taker_buy_quote: Seq<char>,
    pub is_closed: bool,
}

impl View for Kline {
    type V = KlineView;

    open spec fn view(&self) -> KlineView {
        KlineView {
            symbol: self.symbol@,
            open_time: self.open_time as int,
            close_time: self.close_time as int,
            open: self.open@,
            high: self.high@,
            low: self.low@,
            close: self.close@,
            volume: self.volume@,
            quote_volume: self.quote_volume@,
            trades: self.trades as int,
            taker_buy_base: self.taker_buy_base@,
            taker_buy_quote: self.taker_buy_quote@,
            is_closed: self.is_closed,
        }
    }
}

/// Real-time ticker (price info).
#[derive(Debug, Clone, PartialEq, Eq)]
pub struct Ticker {
    pub symbol: String,
    pub price: String,
    pub timestamp: i64,
}

/// The mathematical value of a [`Ticker`].
pub struct TickerView {
    pub symbol: Seq<char>,
    pub price: Seq<char>,
    pub timestamp: int,
}

impl View for Ticker {
    type V = TickerView;

    open spec fn view(&self) -> TickerView {
        TickerView {
            symbol: self.symbol@,
            price: self.price@,
            timestamp: self.timestamp as int,
        }
    }
}

/// 24-hour ticker statistics.
#[derive(Debug, Clone, PartialEq, Eq)]
pub struct Ticker24h {
    pub symbol: String,
    pub price_change: String,
    pub price_change_percent: String,
    pub weighted_avg_price: String,
    pub prev_close_price: String,
    pub last_price: String,
    pub bid_price: String,
    pub ask_price: String,
    pub open_price: String,
    pub high_price: String,
    pub low_price: String,
    pub volume: String,
    pub quote_volume: String,
    pub open_time: i64,
    pub close_time: i64,
    pub first_id: i64,
    pub last_id: i64,
    pub count: i64,
}

/// The mathematical value of a [`Ticker24h`].
pub struct Ticker24hView {
    pub symbol: Seq<char>,
    pub price_change: Seq<char>,
    pub price_change_percent: Seq<char>,
    pub weighted_avg_price: Seq<char>,
    pub prev_close_price: Seq<char>,
    pub last_price: Seq<char>,
    pub bid_price: Seq<char>,
    pub ask_price: Seq<char>,
    pub open_price: Seq<char>,
    pub high_price: Seq<char>,
    pub low_price: Seq<char>,
    pub volume: Seq<char>,
    pub quote_volume: Seq<char>,
    pub open_time: int,
    pub close_time: int,
    pub first_id: int,
    pub last_id: int,
    pub count: int,
}

impl View for Ticker24h {
    type V = Ticker24hView;

    open spec fn view(&self) -> Ticker24hView {
        Ticker24hView {
            symbol: self.symbol@,
            price_change: self.price_change@,
            price_change_percent: self.price_change_percent@,
            weighted_avg_price: self.weighted_avg_price@,
            prev_close_price: self.prev_close_price@,
            last_price: self.last_price@,
            bid_price: self.bid_price@,
            ask_price: self.ask_price@,
            open_price: self.open_price@,
            high_price: self.high_price@,
            low_price: self.low_price@,
            volume: self.volume@,
            quote_volume: self.quote_volume@,
            open_time: self.open_time as int,
            close_time: self.close_time as int,
            first_id: self.first_id as int,
            last_id: self.last_id as int,
            count: self.count as int,
        }
    }
}

/// One level of an order book.
#[derive(Debug, Clone, PartialEq, Eq)]
pub struct PriceLevel {
    pub price: String,
    pub quantity: String,
}

/// The mathematical value of a [`PriceLevel`].
pub struct PriceLevelView {
    pub price: Seq<char>,
    pub quantity: Seq<char>,
}

impl View for PriceLevel {
    type V = PriceLevelView;

    open spec fn view(&self) -> PriceLevelView {
        PriceLevelView {
            price: self.price@,
            quantity: self.quantity@,
        }
    }
}

/// Order book (market depth).
#[derive(Debug, Clone, PartialEq, Eq)]
pub struct OrderBook {
    pub symbol: String,
    pub last_update_id: i64,
    pub bids: Vec<PriceLevel>,
    pub asks: Vec<PriceLevel>,
    pub timestamp: i64,
}

/// The mathematical value of a [`OrderBook`].
pub struct OrderBookView {
    pub symbol: Seq<char>,
    pub last_update_id: int,
    pub bids: Seq<PriceLevelView>,
    pub asks: Seq<PriceLevelView>,
    pub timestamp: int,
}

impl View for OrderBook {
    type V = OrderBookView;

    open spec fn view(&self) -> OrderBookView {
        OrderBookView {
            symbol: self.symbol@,
            last_update_id: self.last_update_id as int,
            bids: levels_view(self.bids@),
            asks: levels_view(self.asks@),
            timestamp: self.timestamp as int,
        }
    }
}

/// Recent trade. `quote_quantity` is absent where the service does not send it.
#[derive(Debug, Clone, PartialEq, Eq)]
pub struct Trade {
    pub id: i64,
    pub symbol: String,
    pub price: String,
    pub quantity: String,
    pub quote_quantity: Option<String>,
    pub time: i64,
    pub is_buyer_maker: bool,
}

/// The mathematical value of a [`Trade`].
pub struct TradeView {
    pub id: int,
    pub symbol: Seq<char>,
    pub price: Seq<char>,
    pub quantity: Seq<char>,
    pub quote_quantity: Option<Seq<char>>,
    pub time: int,
    pub is_buyer_maker: bool,
}

impl View for Trade {
    type V = TradeView;

    open spec fn view(&self) -> TradeView {
        TradeView {
            id: self.id as int,
            symbol: self.symbol@,
            price: self.price@,
            quantity: self.quantity@,
            quote_quantity: match self.quote_quantity {
                Some(s) => Some(s@),
                None => None,
            },
            time: self.time as int,
            is_buyer_maker: self.is_buyer_maker,
        }
    }
}

/// Symbol information.
#[derive(Debug, Clone, PartialEq, Eq)]
pub struct Symbol {
    pub symbol: String,
    pub status: String,
    pub base_asset: String,
    pub quote_asset: String,
    pub base_asset_precision: i32,
    pub quote_asset_precision: i32,
    pub order_types: Vec<String>,
}

/// The mathematical value of a [`Symbol`].
pub struct SymbolView {
    pub symbol: Seq<char>,
    pub status: Seq<char>,
    pub base_asset: Seq<char>,
    pub quote_asset: Seq<char>,
    pub base_asset_precision: int,
    pub quote_asset_precision: int,
    pub order_types: Seq<Seq<char>>,
}

impl View for Symbol {
    type V = SymbolView;

    open spec fn view(&self) -> SymbolView {
        SymbolView {
            symbol: self.symbol@,
            status: self.status@,
            base_asset: self.base_asset@,
            quote_asset: self.quote_asset@,
            base_asset_precision: self.base_asset_precision as int,
            quote_asset_precision: self.quote_asset_precision as int,
            order_types: texts_view(self.order_types@),
        }
    }
}

/// Candlestick interval
#[derive(Debug, Clone, Copy, PartialEq, Eq, Structural)]
pub enum Interval {
    Seconds1,
    Minutes1,
    Minutes3,
    Minutes5,
    Minutes15,
    Minutes30,
    Hours1,
    Hours2,
    Hours4,
    Hours6,
    Hours8,
    Hours12,
    Days1,
    Days3,
    Weeks1,
    Months1,
}

/// The interval that the service calls by a name, if there is one.
pub open spec fn interval_named(s: Seq<char>) -> Option<Interval> {
    if s == "1s"@ {
        Some(Interval::Seconds1)
    } else if s == "1m"@ {
        Some(Interval::Minutes1)
    } else if s == "3m"@ {
        Some(Interval::Minutes3)
    } else if s == "5m"@ {
        Some(Interval::Minutes5)
    } else if s == "15m"@ {
        Some(Interval::Minutes15)
    } else if s == "30m"@ {
        Some(Interval::Minutes30)
    } else if s == "1h"@ {
        Some(Interval::Hours1)
    } else if s == "2h"@ {
        Some(Interval::Hours2)
    } else if s == "4h"@ {
        Some(Interval::Hours4)
    } else if s == "6h"@ {
        Some(Interval::Hours6)
    } else if s == "8h"@ {
        Some(Interval::Hours8)
    } else if s == "12h"@ {
        Some(Interval::Hours12)
    } else if s == "1d"@ {
        Some(Interval::Days1)
    } else if s == "3d"@ {
        Some(Interval::Days3)
    } else if s == "1w"@ {
        Some(Interval::Weeks1)
    } else if s == "1M"@ {
        Some(Interval::Months1)
    } else {
        None
    }
}

impl Interval {
    /// The length of the interval in milliseconds.
    pub open spec fn spec_duration_ms(self) -> int {
        match self {
            Interval::Seconds1 => 1000,
            Interval::Minutes1 => 60000,
            Interval::Minutes3 => 180000,
            Interval::Minutes5 => 300000,
            Interval::Minutes15 => 900000,
            Interval::Minutes30 => 1800000,
            Interval::Hours1 => 3600000,
            Interval::Hours2 => 7200000,
            Interval::Hours4 => 14400000,
            Interval::Hours6 => 21600000,
            Interval::Hours8 => 28800000,
            Interval::Hours12 => 43200000,
            Interval::Days1 => 86400000,
            Interval::Days3 => 259200000,
            Interval::Weeks1 => 604800000,
            Interval::Months1 => 2592000000,
        }
    }

    /// The service's name for the interval.
    pub open spec fn name(self) -> Seq<char> {
        match self {
            Interval::Seconds1 => "1s"@,
            Interval::Minutes1 => "1m"@,
            Interval::Minutes3 => "3m"@,
            Interval::Minutes5 => "5m"@,
            Interval::Minutes15 => "15m"@,
            Interval::Minutes30 => "30m"@,
            Interval::Hours1 => "1h"@,
            Interval::Hours2 => "2h"@,
            Interval::Hours4 => "4h"@,
            Interval::Hours6 => "6h"@,
            Interval::Hours8 => "8h"@,
            Interval::Hours12 => "12h"@,
            Interval::Days1 => "1d"@,
            Interval::Days3 => "3d"@,
            Interval::Weeks1 => "1w"@,
            Interval::Months1 => "1M"@,
        }
    }

    /// Get duration in milliseconds
    pub fn duration_ms(&self) -> (r: i64)
        ensures
            r == self.spec_duration_ms(),
    {
        match self {
            Interval::Seconds1 => 1_000,
            Interval::Minutes1 => 60_000,
            Interval::Minutes3 => 180_000,
            Interval::Minutes5 => 300_000,
            Interval::Minutes15 => 900_000,
            Interval::Minutes30 => 1_800_000,
            Interval::Hours1 => 3_600_000,
            Interval::Hours2 => 7_200_000,
            Interval::Hours4 => 14_400_000,
            Interval::Hours6 => 21_600_000,
            Interval::Hours8 => 28_800_000,
            Interval::Hours12 => 43_200_000,
            Interval::Days1 => 86_400_000,
            Interval::Days3 => 259_200_000,
            Interval::Weeks1 => 604_800_000,
            Interval::Months1 => 2_592_000_000,
        }
    }

    /// The service's name for the interval, as in a request's query.
    pub fn as_str(&self) -> (r: &'static str)
        ensures
            r@ == self.name(),
    {
        match self {
            Interval::Seconds1 => "1s",
            Interval::Minutes1 => "1m",
            Interval::Minutes3 => "3m",
            Interval::Minutes5 => "5m",
            Interval::Minutes15 => "15m",
            Interval::Minutes30 => "30m",
            Interval::Hours1 => "1h",
            Interval::Hours2 => "2h",
            Interval::Hours4 => "4h",
            Interval::Hours6 => "6h",
            Interval::Hours8 => "8h",
            Interval::Hours12 => "12h",
            Interval::Days1 => "1d",
            Interval::Days3 => "3d",
            Interval::Weeks1 => "1w",
            Interval::Months1 => "1M",
        }
    }

    /// The service's name for the interval, owned.
    pub fn to_string(&self) -> (r: String)
        ensures
            r@ == self.name(),
    {
        self.as_str().to_owned()
    }

    /// The interval of a name. Any other text is an invalid interval, reported
    /// with the text itself.
    pub fn parse(s: &str) -> (r: Result<Interval, Error>)
        ensures
            match interval_named(s@) {
                Some(i) => r == Ok::<Interval, Error>(i),
                None => r is Err && r.unwrap_err()@ == ErrorView::InvalidInterval(s@),
            },
    {
        if same_text(s, "1s") {
            Ok(Interval::Seconds1)
        } else if same_text(s, "1m") {
            Ok(Interval::Minutes1)
        } else if same_text(s, "3m") {
            Ok(Interval::Minutes3)
        } else if same_text(s, "5m") {
            Ok(Interval::Minutes5)
        } else if same_text(s, "15m") {
            Ok(Interval::Minutes15)
        } else if same_text(s, "30m") {
            Ok(Interval::Minutes30)
        } else if same_text(s, "1h") {
            Ok(Interval::Hours1)
        } else if same_text(s, "2h") {
            Ok(Interval::Hours2)
        } else if same_text(s, "4h") {
            Ok(Interval::Hours4)
        } else if same_text(s, "6h") {
            Ok(Interval::Hours6)
        } else if same_text(s, "8h") {
            Ok(Interval::Hours8)
        } else if same_text(s, "12h") {
            Ok(Interval::Hours12)
        } else if same_text(s, "1d") {
            Ok(Interval::Days1)
        } else if same_text(s, "3d") {
            Ok(Interval::Days3)
        } else if same_text(s, "1w") {
            Ok(Interval::Weeks1)
        } else if same_text(s, "1M") {
            Ok(Interval::Months1)
        } else {
            Err(Error::InvalidInterval(s.to_owned()))
        }
    }
}

impl std::str::FromStr for Interval {
    type Err = Error;

    /// The interval of a name, as [`Interval::parse`] reads it: any other
    /// text is an invalid interval, reported with the text itself.
    fn from_str(s: &str) -> (r: Result<Interval, Error>)
        ensures
            match interval_named(s@) {
                Some(i) => r == Ok::<Interval, Error>(i),
                None => r is Err && r.unwrap_err()@ == ErrorView::InvalidInterval(s@),
            },
    {
        Interval::parse(s)
    }
}

/// The second character tells the two-character names apart from each other
/// where the first does not; the length tells them from the longer ones.
proof fn lemma_interval_names_spelled()
    ensures
        "1s"@ =~= seq!['1', 's'],
        "1m"@ =~= seq!['1', 'm'],
        "3m"@ =~= seq!['3', 'm'],
        "5m"@ =~= seq!['5', 'm'],
        "15m"@ =~= seq!['1', '5', 'm'],
        "30m"@ =~= seq!['3', '0', 'm'],
        "1h"@ =~= seq!['1', 'h'],
        "2h"@ =~= seq!['2', 'h'],
        "4h"@ =~= seq!['4', 'h'],
        "6h"@ =~= seq!['6', 'h'],
        "8h"@ =~= seq!['8', 'h'],
        "12h"@ =~= seq!['1', '2', 'h'],
        "1d"@ =~= seq!['1', 'd'],
        "3d"@ =~= seq!['3', 'd'],
        "1w"@ =~= seq!['1', 'w'],
        "1M"@ =~= seq!['1', 'M'],
{
    reveal_strlit("1s");
    reveal_strlit("1m");
    reveal_strlit("3m");
    reveal_strlit("5m");
    reveal_strlit("15m");
    reveal_strlit("30m");
    reveal_strlit("1h");
    reveal_strlit("2h");
    reveal_strlit("4h");
    reveal_strlit("6h");
    reveal_strlit("8h");
    reveal_strlit("12h");
    reveal_strlit("1d");
    reveal_strlit("3d");
    reveal_strlit("1w");
    reveal_strlit("1M");
}

/// Every interval is found again under its own name.
pub proof fn lemma_interval_name_round_trip(i: Interval)
    ensures
        interval_named(i.name()) == Some(i),
{
    lemma_interval_names_spelled();
    assert("1m"@[1] != "1s"@[1]);
    assert("3m"@[0] != "1s"@[0]);
    assert("3m"@[0] != "1m"@[0]);
    assert("5m"@[0] != "1s"@[0]);
    assert("5m"@[0] != "1m"@[0]);
    assert("5m"@[0] != "3m"@[0]);
    assert("15m"@.len() != "1s"@.len());
    assert("15m"@.len() != "1m"@.len());
    assert("15m"@.len() != "3m"@.len());
    assert("15m"@.len() != "5m"@.len());
    assert("30m"@.len() != "1s"@.len());
    assert("30m"@.len() != "1m"@.len());
    assert("30m"@.len() != "3m"@.len());
    assert("30m"@.len() != "5m"@.len());
    assert("30m"@[0] != "15m"@[0]);
    assert("1h"@[1] != "1s"@[1]);
    assert("1h"@[1] != "1m"@[1]);
    assert("1h"@[0] != "3m"@[0]);
    assert("1h"@[0] != "5m"@[0]);
    assert("1h"@.len() != "15m"@.len());
    assert("1h"@.len() != "30m"@.len());
    assert("2h"@[0] != "1s"@[0]);
    assert("2h"@[0] != "1m"@[0]);
    assert("2h"@[0] != "3m"@[0]);
    assert("2h"@[0] != "5m"@[0]);
    assert("2h"@.len() != "15m"@.len());
    assert("2h"@.len() != "30m"@.len());
    assert("2h"@[0] != "1h"@[0]);
    assert("4h"@[0] != "1s"@[0]);
    assert("4h"@[0] != "1m"@[0]);
    assert("4h"@[0] != "3m"@[0]);
    assert("4h"@[0] != "5m"@[0]);
    assert("4h"@.len() != "15m"@.len());
    assert("4h"@.len() != "30m"@.len());
    assert("4h"@[0] != "1h"@[0]);
    assert("4h"@[0] != "2h"@[0]);
    assert("6h"@[0] != "1s"@[0]);
    assert("6h"@[0] != "1m"@[0]);
    assert("6h"@[0] != "3m"@[0]);
    assert("6h"@[0] != "5m"@[0]);
    assert("6h"@.len() != "15m"@.len());
    assert("6h"@.len() != "30m"@.len());
    assert("6h"@[0] != "1h"@[0]);
    assert("6h"@[0] != "2h"@[0]);
    assert("6h"@[0] != "4h"@[0]);
    assert("8h"@[0] != "1s"@[0]);
    assert("8h"@[0] != "1m"@[0]);
    assert("8h"@[0] != "3m"@[0]);
    assert("8h"@[0] != "5m"@[0]);
    assert("8h"@.len() != "15m"@.len());
    assert("8h"@.len() != "30m"@.len());
    assert("8h"@[0] != "1h"@[0]);
    assert("8h"@[0] != "2h"@[0]);
    assert("8h"@[0] != "4h"@[0]);
    assert("8h"@[0] != "6h"@[0]);
    assert("12h"@.len() != "1s"@.len());
    assert("12h"@.len() != "1m"@.len());
    assert("12h"@.len() != "3m"@.len());
    assert("12h"@.len() != "5m"@.len());
    assert("12h"@[1] != "15m"@[1]);
    assert("12h"@[0] != "30m"@[0]);
    assert("12h"@.len() != "1h"@.len());
    assert("12h"@.len() != "2h"@.len());
    assert("12h"@.len() != "4h"@.len());
    assert("12h"@.len() != "6h"@.len());
    assert("12h"@.len() != "8h"@.len());
    assert("1d"@[1] != "1s"@[1]);
    assert("1d"@[1] != "1m"@[1]);
    assert("1d"@[0] != "3m"@[0]);
    assert("1d"@[0] != "5m"@[0]);
    assert("1d"@.len() != "15m"@.len());
    assert("1d"@.len() != "30m"@.len());
    assert("1d"@[1] != "1h"@[1]);
    assert("1d"@[0] != "2h"@[0]);
    assert("1d"@[0] != "4h"@[0]);
    assert("1d"@[0] != "6h"@[0]);
    assert("1d"@[0] != "8h"@[0]);
    assert("1d"@.len() != "12h"@.len());
    assert("3d"@[0] != "1s"@[0]);
    assert("3d"@[0] != "1m"@[0]);
    assert("3d"@[1] != "3m"@[1]);
    assert("3d"@[0] != "5m"@[0]);
    assert("3d"@.len() != "15m"@.len());
    assert("3d"@.len() != "30m"@.len());
    assert("3d"@[0] != "1h"@[0]);
    assert("3d"@[0] != "2h"@[0]);
    assert("3d"@[0] != "4h"@[0]);
    assert("3d"@[0] != "6h"@[0]);
    assert("3d"@[0] != "8h"@[0]);
    assert("3d"@.len() != "12h"@.len());
    assert("3d"@[0] != "1d"@[0]);
    assert("1w"@[1] != "1s"@[1]);
    assert("1w"@[1] != "1m"@[1]);
    assert("1w"@[0] != "3m"@[0]);
    assert("1w"@[0] != "5m"@[0]);
    assert("1w"@.len() != "15m"@.len());
    assert("1w"@.len() != "30m"@.len());
    assert("1w"@[1] != "1h"@[1]);
    assert("1w"@[0] != "2h"@[0]);
    assert("1w"@[0] != "4h"@[0]);
    assert("1w"@[0] != "6h"@[0]);
    assert("1w"@[0] != "8h"@[0]);
    assert("1w"@.len() != "12h"@.len());
    assert("1w"@[1] != "1d"@[1]);
    assert("1w"@[0] != "3d"@[0]);
    assert("1M"@[1] != "1s"@[1]);
    assert("1M"@[1] != "1m"@[1]);
    assert("1M"@[0] != "3m"@[0]);
    assert("1M"@[0] != "5m"@[0]);
    assert("1M"@.len() != "15m"@.len());
    assert("1M"@.len() != "30m"@.len());
    assert("1M"@[1] != "1h"@[1]);
    assert("1M"@[0] != "2h"@[0]);
    assert("1M"@[0] != "4h"@[0]);
    assert("1M"@[0] != "6h"@[0]);
    assert("1M"@[0] != "8h"@[0]);
    assert("1M"@.len() != "12h"@.len());
    assert("1M"@[1] != "1d"@[1]);
    assert("1M"@[0] != "3d"@[0]);
    assert("1M"@[1] != "1w"@[1]);
}

} // verus!
