//! The closed set of events, and how a frame is classified into one of them.
use vstd::prelude::*;
use crate::json::{
    field_text, get, get_text, lookup, names_field, parse_json, json_of, DecodeError,
    JsonValue,
};
use crate::model::{
    account_position_update_matches, account_position_update_ok, account_update_matches,
    account_update_ok, balance_update_matches, balance_update_ok, book_ticker_event_matches,
    book_ticker_event_ok, day_ticker_event_matches, day_ticker_event_ok, decode_account_position_update,
    decode_account_update, decode_balance_update, decode_book_ticker_event, decode_day_ticker_event,
    decode_depth_order_book_event, decode_kline_event, decode_mini_day_ticker_event, decode_order_book,
    decode_order_list_update, decode_order_trade_update, decode_order_update, decode_trade_event,
    decode_trades_event, depth_order_book_event_matches, depth_order_book_event_ok,
    kline_event_matches, kline_event_ok, mini_day_ticker_event_matches, mini_day_ticker_event_ok,
    order_book_matches, order_book_ok, order_list_update_matches, order_list_update_ok,
    order_trade_update_matches, order_trade_update_ok, order_update_matches, order_update_ok,
    trade_event_matches, trade_event_ok, trades_event_matches, trades_event_ok, AccountPositionUpdate,
    AccountUpdate, BalanceUpdate, BookTickerEvent, DayTickerEvent, DepthOrderBookEvent, KlineEvent,
    MiniDayTickerEvent, OrderBook, OrderListUpdate, OrderTradeUpdate, OrderUpdate, TradeEvent,
    TradesEvent,
};
use crate::text::{text_is, upper_ascii, upper_char, upper_text};

verus! {

/// Which event a discriminator names.
#[derive(Clone, Copy, Debug, PartialEq, Eq, Structural)]
pub enum EventKind {
    AggTrade,
    Trade,
    Kline,
    DayTicker,
    DayMiniTicker,
    DepthOrderBook,
    AccountPositionUpdate,
    BalanceUpdate,
    OrderUpdate,
    ListOrderUpdate,
    OrderTradeUpdate,
    AccountUpdate,
}

/// An event that names its kind in the `e` field.
#[derive(Clone, Debug)]
pub enum FuturesWebsocketEvent {
    AggTrade(Box<TradesEvent>),
    Trade(Box<TradeEvent>),
    Kline(Box<KlineEvent>),
    DayTicker(Box<DayTickerEvent>),
    DayMiniTicker(Box<MiniDayTickerEvent>),
    DepthOrderBook(Box<DepthOrderBookEvent>),
    AccountPositionUpdate(Box<AccountPositionUpdate>),
    BalanceUpdate(Box<BalanceUpdate>),
    OrderUpdate(Box<OrderUpdate>),
    ListOrderUpdate(Box<OrderListUpdate>),
    OrderTradeUpdate(Box<OrderTradeUpdate>),
    AccountUpdate(Box<AccountUpdate>),
}

/// The protocol's name of each kind, as pushed on the wire.
pub open spec fn wire_name(k: EventKind) -> Seq<char> {
    match k {
        EventKind::AggTrade => "aggTrade"@,
        EventKind::Trade => "trade"@,
        EventKind::Kline => "kline"@,
        EventKind::DayTicker => "24hrTicker"@,
        EventKind::DayMiniTicker => "24hrMiniTicker"@,
        EventKind::DepthOrderBook => "depthUpdate"@,
        EventKind::AccountPositionUpdate => "outboundAccountPosition"@,
        EventKind::BalanceUpdate => "balanceUpdate"@,
        EventKind::OrderUpdate => "executionReport"@,
        EventKind::ListOrderUpdate => "listStatus"@,
        EventKind::OrderTradeUpdate => "orderTradeUpdate"@,
        EventKind::AccountUpdate => "accountUpdate"@,
    }
}

/// The upper-case name of each kind, also accepted.
pub open spec fn constant_name(k: EventKind) -> Seq<char> {
    match k {
        EventKind::AggTrade => "AGG_TRADE"@,
        EventKind::Trade => "TRADE"@,
        EventKind::Kline => "KLINE"@,
        EventKind::DayTicker => "DAY_TICKER"@,
        EventKind::DayMiniTicker => "DAY_MINI_TICKER"@,
        EventKind::DepthOrderBook => "DEPTH_ORDER_BOOK"@,
        EventKind::AccountPositionUpdate => "ACCOUNT_POSITION_UPDATE"@,
        EventKind::BalanceUpdate => "BALANCE_UPDATE"@,
        EventKind::OrderUpdate => "ORDER_UPDATE"@,
        EventKind::ListOrderUpdate => "LIST_ORDER_UPDATE"@,
        EventKind::OrderTradeUpdate => "ORDER_TRADE_UPDATE"@,
        EventKind::AccountUpdate => "ACCOUNT_UPDATE"@,
    }
}

/// The kind that a discriminator value names, if any.
pub open spec fn kind_of_name(t: Seq<char>) -> Option<EventKind> {
    if t == "aggTrade"@ || t == "AGG_TRADE"@ {
        Some(EventKind::AggTrade)
    } else if t == "trade"@ || t == "TRADE"@ {
        Some(EventKind::Trade)
    } else if t == "kline"@ || t == "KLINE"@ {
        Some(EventKind::Kline)
    } else if t == "24hrTicker"@ || t == "DAY_TICKER"@ {
        Some(EventKind::DayTicker)
    } else if t == "24hrMiniTicker"@ || t == "DAY_MINI_TICKER"@ {
        Some(EventKind::DayMiniTicker)
    } else if t == "depthUpdate"@ || t == "DEPTH_ORDER_BOOK"@ {
        Some(EventKind::DepthOrderBook)
    } else if t == "outboundAccountPosition"@ || t == "ACCOUNT_POSITION_UPDATE"@ {
        Some(EventKind::AccountPositionUpdate)
    } else if t == "balanceUpdate"@ || t == "BALANCE_UPDATE"@ {
        Some(EventKind::BalanceUpdate)
    } else if t == "executionReport"@ || t == "ORDER_UPDATE"@ {
        Some(EventKind::OrderUpdate)
    } else if t == "listStatus"@ || t == "LIST_ORDER_UPDATE"@ {
        Some(EventKind::ListOrderUpdate)
    } else if t == "orderTradeUpdate"@ || t == "ORDER_TRADE_UPDATE"@ {
        Some(EventKind::OrderTradeUpdate)
    } else if t == "accountUpdate"@ || t == "ACCOUNT_UPDATE"@ {
        Some(EventKind::AccountUpdate)
    } else {
        None
    }
}

pub fn parse_event_kind(t: &str) -> (r: Option<EventKind>)
    ensures
        r == kind_of_name(t@),
{
    if text_is(t, "aggTrade") || text_is(t, "AGG_TRADE") {
        Some(EventKind::AggTrade)
    } else if text_is(t, "trade") || text_is(t, "TRADE") {
        Some(EventKind::Trade)
    } else if text_is(t, "kline") || text_is(t, "KLINE") {
        Some(EventKind::Kline)
    } else if text_is(t, "24hrTicker") || text_is(t, "DAY_TICKER") {
        Some(EventKind::DayTicker)
    } else if text_is(t, "24hrMiniTicker") || text_is(t, "DAY_MINI_TICKER") {
        Some(EventKind::DayMiniTicker)
    } else if text_is(t, "depthUpdate") || text_is(t, "DEPTH_ORDER_BOOK") {
        Some(EventKind::DepthOrderBook)
    } else if text_is(t, "outboundAccountPosition") || text_is(t, "ACCOUNT_POSITION_UPDATE") {
        Some(EventKind::AccountPositionUpdate)
    } else if text_is(t, "balanceUpdate") || text_is(t, "BALANCE_UPDATE") {
        Some(EventKind::BalanceUpdate)
    } else if text_is(t, "executionReport") || text_is(t, "ORDER_UPDATE") {
        Some(EventKind::OrderUpdate)
    } else if text_is(t, "listStatus") || text_is(t, "LIST_ORDER_UPDATE") {
        Some(EventKind::ListOrderUpdate)
    } else if text_is(t, "orderTradeUpdate") || text_is(t, "ORDER_TRADE_UPDATE") {
        Some(EventKind::OrderTradeUpdate)
    } else if text_is(t, "accountUpdate") || text_is(t, "ACCOUNT_UPDATE") {
        Some(EventKind::AccountUpdate)
    } else {
        None
    }
}

pub open spec fn kind_of(ev: FuturesWebsocketEvent) -> EventKind {
    match ev {
        FuturesWebsocketEvent::AggTrade(_) => EventKind::AggTrade,
        FuturesWebsocketEvent::Trade(_) => EventKind::Trade,
        FuturesWebsocketEvent::Kline(_) => EventKind::Kline,
        FuturesWebsocketEvent::DayTicker(_) => EventKind::DayTicker,
        FuturesWebsocketEvent::DayMiniTicker(_) => EventKind::DayMiniTicker,
        FuturesWebsocketEvent::DepthOrderBook(_) => EventKind::DepthOrderBook,
        FuturesWebsocketEvent::AccountPositionUpdate(_) => EventKind::AccountPositionUpdate,
        FuturesWebsocketEvent::BalanceUpdate(_) => EventKind::BalanceUpdate,
        FuturesWebsocketEvent::OrderUpdate(_) => EventKind::OrderUpdate,
        FuturesWebsocketEvent::ListOrderUpdate(_) => EventKind::ListOrderUpdate,
        FuturesWebsocketEvent::OrderTradeUpdate(_) => EventKind::OrderTradeUpdate,
        FuturesWebsocketEvent::AccountUpdate(_) => EventKind::AccountUpdate,
    }
}

/// The fields hold a readable record of kind `k`.
pub open spec fn event_ok(k: EventKind, m: Seq<(String, JsonValue)>) -> bool {
    match k {
        EventKind::AggTrade => trades_event_ok(m),
        EventKind::Trade => trade_event_ok(m),
        EventKind::Kline => kline_event_ok(m),
        EventKind::DayTicker => day_ticker_event_ok(m),
        EventKind::DayMiniTicker => mini_day_ticker_event_ok(m),
        EventKind::DepthOrderBook => depth_order_book_event_ok(m),
        EventKind::AccountPositionUpdate => account_position_update_ok(m),
        EventKind::BalanceUpdate => balance_update_ok(m),
        EventKind::OrderUpdate => order_update_ok(m),
        EventKind::ListOrderUpdate => order_list_update_ok(m),
        EventKind::OrderTradeUpdate => order_trade_update_ok(m),
        EventKind::AccountUpdate => account_update_ok(m),
    }
}

/// `ev` holds what the fields say.
pub open spec fn event_matches(ev: FuturesWebsocketEvent, m: Seq<(String, JsonValue)>) -> bool {
    match ev {
        FuturesWebsocketEvent::AggTrade(x) => trades_event_matches(*x, m),
        FuturesWebsocketEvent::Trade(x) => trade_event_matches(*x, m),
        FuturesWebsocketEvent::Kline(x) => kline_event_matches(*x, m),
        FuturesWebsocketEvent::DayTicker(x) => day_ticker_event_matches(*x, m),
        FuturesWebsocketEvent::DayMiniTicker(x) => mini_day_ticker_event_matches(*x, m),
        FuturesWebsocketEvent::DepthOrderBook(x) => depth_order_book_event_matches(*x, m),
        FuturesWebsocketEvent::AccountPositionUpdate(x) => account_position_update_matches(*x, m),
        FuturesWebsocketEvent::BalanceUpdate(x) => balance_update_matches(*x, m),
        FuturesWebsocketEvent::OrderUpdate(x) => order_update_matches(*x, m),
        FuturesWebsocketEvent::ListOrderUpdate(x) => order_list_update_matches(*x, m),
        FuturesWebsocketEvent::OrderTradeUpdate(x) => order_trade_update_matches(*x, m),
        FuturesWebsocketEvent::AccountUpdate(x) => account_update_matches(*x, m),
    }
}

/// Reads the record of kind `k` from the fields.
pub fn decode_kind(k: EventKind, m: &Vec<(String, JsonValue)>) -> (r: Result<FuturesWebsocketEvent, DecodeError>)
    ensures
        r is Ok <==> event_ok(k, m@),
        r matches Ok(ev) ==> kind_of(ev) == k && event_matches(ev, m@),
        r matches Err(e) ==> e is FieldCoercion,
{
    match k {
        EventKind::AggTrade => match decode_trades_event(m) {
            Ok(x) => Ok(FuturesWebsocketEvent::AggTrade(Box::new(x))),
            Err(e) => Err(e),
        },
        EventKind::Trade => match decode_trade_event(m) {
            Ok(x) => Ok(FuturesWebsocketEvent::Trade(Box::new(x))),
            Err(e) => Err(e),
        },
        EventKind::Kline => match decode_kline_event(m) {
            Ok(x) => Ok(FuturesWebsocketEvent::Kline(Box::new(x))),
            Err(e) => Err(e),
        },
        EventKind::DayTicker => match decode_day_ticker_event(m) {
            Ok(x) => Ok(FuturesWebsocketEvent::DayTicker(Box::new(x))),
            Err(e) => Err(e),
        },
        EventKind::DayMiniTicker => match decode_mini_day_ticker_event(m) {
            Ok(x) => Ok(FuturesWebsocketEvent::DayMiniTicker(Box::new(x))),
            Err(e) => Err(e),
        },
        EventKind::DepthOrderBook => match decode_depth_order_book_event(m) {
            Ok(x) => Ok(FuturesWebsocketEvent::DepthOrderBook(Box::new(x))),
            Err(e) => Err(e),
        },
        EventKind::AccountPositionUpdate => match decode_account_position_update(m) {
            Ok(x) => Ok(FuturesWebsocketEvent::AccountPositionUpdate(Box::new(x))),
            Err(e) => Err(e),
        },
        EventKind::BalanceUpdate => match decode_balance_update(m) {
            Ok(x) => Ok(FuturesWebsocketEvent::BalanceUpdate(Box::new(x))),
            Err(e) => Err(e),
        },
        EventKind::OrderUpdate => match decode_order_update(m) {
            Ok(x) => Ok(FuturesWebsocketEvent::OrderUpdate(Box::new(x))),
            Err(e) => Err(e),
        },
        EventKind::ListOrderUpdate => match decode_order_list_update(m) {
            Ok(x) => Ok(FuturesWebsocketEvent::ListOrderUpdate(Box::new(x))),
            Err(e) => Err(e),
        },
        EventKind::OrderTradeUpdate => match decode_order_trade_update(m) {
            Ok(x) => Ok(FuturesWebsocketEvent::OrderTradeUpdate(Box::new(x))),
            Err(e) => Err(e),
        },
        EventKind::AccountUpdate => match decode_account_update(m) {
            Ok(x) => Ok(FuturesWebsocketEvent::AccountUpdate(Box::new(x))),
            Err(e) => Err(e),
        },
    }
}

/// What decoding makes of an object's fields.
#[derive(Clone, Copy, Debug, PartialEq, Eq, Structural)]
pub enum Outcome {
    /// An event of this kind.
    Tagged(EventKind),
    /// An order book snapshot.
    Snapshot,
    /// A best bid / best ask record.
    Ticker,
    /// A discriminator that names no known event.
    Unknown,
    /// A field that the selected shape needs is missing or unreadable.
    Invalid,
}

/// A payload with a discriminator is dispatched on it; one without is matched
/// against the event set, then the order book snapshot, then the book ticker.
pub open spec fn outcome_of(m: Seq<(String, JsonValue)>) -> Outcome {
    if lookup(m, "e"@) is Some {
        match field_text(m, "e"@) {
            Some(t) => match kind_of_name(t) {
                Some(k) => if event_ok(k, m) {
                    Outcome::Tagged(k)
                } else {
                    Outcome::Invalid
                },
                None => Outcome::Unknown,
            },
            None => Outcome::Invalid,
        }
    } else if order_book_ok(m) {
        Outcome::Snapshot
    } else if book_ticker_event_ok(m) {
        Outcome::Ticker
    } else {
        Outcome::Invalid
    }
}

/// Any payload of a feed: an event, or one of the two shapes that carry no discriminator.
#[derive(Clone, Debug)]
pub enum FuturesWebsocketEventUntag {
    FuturesWebsocketEvent(FuturesWebsocketEvent),
    Orderbook(Box<OrderBook>),
    BookTicker(Box<BookTickerEvent>),
}

/// `r` is what decoding the fields `m` must give.
pub open spec fn decoded_from(r: Result<FuturesWebsocketEventUntag, DecodeError>, m: Seq<(String, JsonValue)>) -> bool {
    match outcome_of(m) {
        Outcome::Tagged(k) => r matches Ok(FuturesWebsocketEventUntag::FuturesWebsocketEvent(ev))
            && kind_of(ev) == k && event_matches(ev, m),
        Outcome::Snapshot => r matches Ok(FuturesWebsocketEventUntag::Orderbook(b))
            && order_book_matches(*b, m),
        Outcome::Ticker => r matches Ok(FuturesWebsocketEventUntag::BookTicker(b))
            && book_ticker_event_matches(*b, m),
        Outcome::Unknown => r matches Err(DecodeError::UnknownEventType { name })
            && field_text(m, "e"@) == Some(name@),
        Outcome::Invalid => r matches Err(e) && e is FieldCoercion,
    }
}

/// Reads an event that names its kind in the `e` field.
pub fn decode_event(m: &Vec<(String, JsonValue)>) -> (r: Result<FuturesWebsocketEvent, DecodeError>)
    ensures
        match field_text(m@, "e"@) {
            None => r matches Err(e) && names_field(e, "e"@),
            Some(t) => match kind_of_name(t) {
                None => r matches Err(DecodeError::UnknownEventType { name }) && name@ == t,
                Some(k) => {
                    &&& r is Ok <==> event_ok(k, m@)
                    &&& r matches Ok(ev) ==> kind_of(ev) == k && event_matches(ev, m@)
                    &&& r matches Err(e) ==> e is FieldCoercion
                },
            },
        },
{
    let name = match get_text(m, "e") {
        Ok(t) => t,
        Err(e) => return Err(e),
    };
    match parse_event_kind(name.as_str()) {
        Some(k) => decode_kind(k, m),
        None => Err(DecodeError::UnknownEventType { name }),
    }
}

/// Classifies and reads a parsed payload. The shapes are tried in a fixed order,
/// and the first that reads wins: the event set, the order book snapshot, the
/// book ticker. A payload that carries a discriminator is held to the event set.
pub fn decode_value(v: &JsonValue) -> (r: Result<FuturesWebsocketEventUntag, DecodeError>)
    ensures
        !(v is Object) ==> r matches Err(DecodeError::Malformed),
        v matches JsonValue::Object(m) ==> decoded_from(r, m@),
{
    match v {
        JsonValue::Object(m) => {
            match decode_event(m) {
                Ok(ev) => return Ok(FuturesWebsocketEventUntag::FuturesWebsocketEvent(ev)),
                Err(e) => {
                    if get(m, "e").is_some() {
                        return Err(e);
                    }
                },
            }
            match decode_order_book(m) {
                Ok(b) => return Ok(FuturesWebsocketEventUntag::Orderbook(Box::new(b))),
                Err(_) => {},
            }
            match decode_book_ticker_event(m) {
                Ok(b) => Ok(FuturesWebsocketEventUntag::BookTicker(Box::new(b))),
                Err(e) => Err(e),
            }
        },
        _ => Err(DecodeError::Malformed),
    }
}

/// Decodes one frame's payload.
pub fn decode(raw: &[u8]) -> (r: Result<FuturesWebsocketEventUntag, DecodeError>)
    ensures
        match json_of(raw@) {
            None => r matches Err(DecodeError::Malformed),
            Some(JsonValue::Object(m)) => decoded_from(r, m@),
            Some(_) => r matches Err(DecodeError::Malformed),
        },
{
    match parse_json(raw) {
        Some(v) => decode_value(&v),
        None => Err(DecodeError::Malformed),
    }
}

/// A payload of a combined stream, with the stream it came from.
#[derive(Clone, Debug)]
pub struct CombinedStreamEvent<T> {
    pub stream: String,
    pub data: T,
}

/// The symbol that a stream name starts with: what precedes its first `@`, in upper case.
pub open spec fn stream_symbol(s: Seq<char>) -> Seq<char> {
    upper_text(s.take(at_index(s) as int))
}

/// Index of the first `@` in `s`, or `s.len()` when there is none.
pub open spec fn at_index(s: Seq<char>) -> nat
    decreases s.len(),
{
    if s.len() == 0 {
        0
    } else if s[0] == '@' {
        0
    } else {
        1 + at_index(s.skip(1))
    }
}

proof fn lemma_at_index(s: Seq<char>, i: int)
    requires
        0 <= i <= s.len(),
        forall|j: int| 0 <= j < i ==> s[j] != '@',
        i < s.len() ==> s[i] == '@',
    ensures
        at_index(s) == i,
    decreases i,
{
    if i > 0 {
        lemma_at_index(s.skip(1), i - 1);
    }
}

/// The symbol of a stream name, recovered from its prefix.
pub fn symbol_of_stream(s: &str) -> (r: String)
    ensures
        r@ == stream_symbol(s@),
{
    let n = s.unicode_len();
    let mut out = String::new();
    let mut i: usize = 0;
    while i < n && s.get_char(i) != '@'
        invariant
            0 <= i <= n == s@.len(),
            forall|j: int| 0 <= j < i ==> s@[j] != '@',
            out@ == upper_text(s@.take(i as int)),
        decreases n - i,
    {
        let c = s.get_char(i);
        crate::text::push_char(&mut out, upper_ascii(c));
        assert(upper_text(s@.take(i + 1)) =~= upper_text(s@.take(i as int)).push(upper_char(c)));
        i = i + 1;
    }
    proof {
        lemma_at_index(s@, i as int);
    }
    out
}

impl<T> CombinedStreamEvent<T> {
    /// The symbol of the stream this payload came from.
    pub fn symbol(&self) -> (r: String)
        ensures
            r@ == stream_symbol(self.stream@),
    {
        symbol_of_stream(self.stream.as_str())
    }
}

/// `r` is what reading the envelope `v` must give.
pub open spec fn envelope_decoded(
    r: Result<CombinedStreamEvent<FuturesWebsocketEventUntag>, DecodeError>,
    v: JsonValue,
) -> bool {
    match v {
        JsonValue::Object(m) => match field_text(m@, "stream"@) {
            None => r matches Err(e) && names_field(e, "stream"@),
            Some(s) => match lookup(m@, "data"@) {
                None => r matches Err(e) && names_field(e, "data"@),
                Some(JsonValue::Object(d)) => match r {
                    Ok(c) => c.stream@ == s && decoded_from(Ok(c.data), d@),
                    Err(e) => decoded_from(Err(e), d@),
                },
                Some(_) => r matches Err(DecodeError::Malformed),
            },
        },
        _ => r matches Err(DecodeError::Malformed),
    }
}

/// Reads a combined-stream envelope: `{"stream": <name>, "data": <payload>}`.
pub fn decode_envelope(v: &JsonValue) -> (r: Result<CombinedStreamEvent<FuturesWebsocketEventUntag>, DecodeError>)
    ensures
        envelope_decoded(r, *v),
{
    match v {
        JsonValue::Object(m) => {
            let stream = match get_text(m, "stream") {
                Ok(s) => s,
                Err(e) => return Err(e),
            };
            match get(m, "data") {
                Some(d) => match decode_value(d) {
                    Ok(data) => Ok(CombinedStreamEvent { stream, data }),
                    Err(e) => Err(e),
                },
                None => Err(crate::json::coercion_error("data")),
            }
        },
        _ => Err(DecodeError::Malformed),
    }
}

/// Decodes one frame of a combined stream.
pub fn decode_combined(raw: &[u8]) -> (r: Result<CombinedStreamEvent<FuturesWebsocketEventUntag>, DecodeError>)
    ensures
        match json_of(raw@) {
            None => r matches Err(DecodeError::Malformed),
            Some(v) => envelope_decoded(r, v),
        },
{
    match parse_json(raw) {
        Some(v) => decode_envelope(&v),
        None => Err(DecodeError::Malformed),
    }
}

/// The fields name a known kind in `e` and hold a readable record of it.
pub open spec fn tagged_ok(m: Seq<(String, JsonValue)>) -> bool {
    field_text(m, "e"@) matches Some(t) && kind_of_name(t) matches Some(k) && event_ok(k, m)
}

/// `ev` is the event of the kind that `e` names, holding what the fields say.
pub open spec fn tagged_from(ev: FuturesWebsocketEvent, m: Seq<(String, JsonValue)>) -> bool {
    field_text(m, "e"@) matches Some(t) && kind_of_name(t) == Some(kind_of(ev)) && event_matches(ev, m)
}

pub open spec fn item_tagged_ok(v: JsonValue) -> bool {
    v matches JsonValue::Object(m) && tagged_ok(m@)
}

pub open spec fn item_tagged_from(ev: FuturesWebsocketEvent, v: JsonValue) -> bool {
    v matches JsonValue::Object(m) && tagged_from(ev, m@)
}

/// Decodes a frame that carries an array of events, as the all-symbol streams push.
pub fn decode_events(raw: &[u8]) -> (r: Result<Vec<FuturesWebsocketEvent>, DecodeError>)
    ensures
        match json_of(raw@) {
            Some(JsonValue::Array(a)) => {
                &&& r is Ok <==> forall|i: int| 0 <= i < a@.len() ==> item_tagged_ok(#[trigger] a@[i])
                &&& r matches Ok(evs) ==> evs@.len() == a@.len()
                    && forall|i: int| 0 <= i < a@.len() ==> item_tagged_from(#[trigger] evs@[i], a@[i])
            },
            _ => r matches Err(DecodeError::Malformed),
        },
{
    let v = match parse_json(raw) {
        Some(v) => v,
        None => return Err(DecodeError::Malformed),
    };
    let a = match &v {
        JsonValue::Array(a) => a,
        _ => return Err(DecodeError::Malformed),
    };
    let mut out: Vec<FuturesWebsocketEvent> = Vec::new();
    let mut i: usize = 0;
    while i < a.len()
        invariant
            0 <= i <= a@.len(),
            out@.len() == i,
            json_of(raw@) == Some(v),
            v is Array && v->Array_0 == *a,
            forall|j: int| 0 <= j < i ==> item_tagged_ok(#[trigger] a@[j]),
            forall|j: int| 0 <= j < i ==> item_tagged_from(#[trigger] out@[j], a@[j]),
        decreases a@.len() - i,
    {
        match &a[i] {
            JsonValue::Object(m) => match decode_event(m) {
                Ok(ev) => out.push(ev),
                Err(e) => {
                    assert(!item_tagged_ok(a@[i as int]));
                    return Err(e);
                },
            },
            _ => {
                assert(!item_tagged_ok(a@[i as int]));
                return Err(DecodeError::Malformed);
            },
        }
        i = i + 1;
    }
    Ok(out)
}


/// Every kind is selected by its wire name and by its upper-case name.
pub proof fn lemma_names_select_kind(k: EventKind)
    ensures
        kind_of_name(wire_name(k)) == Some(k),
        kind_of_name(constant_name(k)) == Some(k),
{
    reveal_strlit("aggTrade");
    reveal_strlit("AGG_TRADE");
    reveal_strlit("trade");
    reveal_strlit("TRADE");
    reveal_strlit("kline");
    reveal_strlit("KLINE");
    reveal_strlit("24hrTicker");
    reveal_strlit("DAY_TICKER");
    reveal_strlit("24hrMiniTicker");
    reveal_strlit("DAY_MINI_TICKER");
    reveal_strlit("depthUpdate");
    reveal_strlit("DEPTH_ORDER_BOOK");
    reveal_strlit("outboundAccountPosition");
    reveal_strlit("ACCOUNT_POSITION_UPDATE");
    reveal_strlit("balanceUpdate");
    reveal_strlit("BALANCE_UPDATE");
    reveal_strlit("executionReport");
    reveal_strlit("ORDER_UPDATE");
    reveal_strlit("listStatus");
    reveal_strlit("LIST_ORDER_UPDATE");
    reveal_strlit("orderTradeUpdate");
    reveal_strlit("ORDER_TRADE_UPDATE");
    reveal_strlit("accountUpdate");
    reveal_strlit("ACCOUNT_UPDATE");
    match k {
        EventKind::AggTrade => {
        assert("AGG_TRADE"@.len() != "aggTrade"@.len());
        },
        EventKind::Trade => {
        assert("trade"@.len() != "aggTrade"@.len());
        assert("trade"@.len() != "AGG_TRADE"@.len());
        assert("TRADE"@.len() != "aggTrade"@.len());
        assert("TRADE"@.len() != "AGG_TRADE"@.len());
        assert("TRADE"@[0] != "trade"@[0]);
        },
        EventKind::Kline => {
        assert("kline"@.len() != "aggTrade"@.len());
        assert("kline"@.len() != "AGG_TRADE"@.len());
        assert("kline"@[0] != "trade"@[0]);
        assert("kline"@[0] != "TRADE"@[0]);
        assert("KLINE"@.len() != "aggTrade"@.len());
        assert("KLINE"@.len() != "AGG_TRADE"@.len());
        assert("KLINE"@[0] != "trade"@[0]);
        assert("KLINE"@[0] != "TRADE"@[0]);
        assert("KLINE"@[0] != "kline"@[0]);
        },
        EventKind::DayTicker => {
        assert("24hrTicker"@.len() != "aggTrade"@.len());
        assert("24hrTicker"@.len() != "AGG_TRADE"@.len());
        assert("24hrTicker"@.len() != "trade"@.len());
        assert("24hrTicker"@.len() != "TRADE"@.len());
        assert("24hrTicker"@.len() != "kline"@.len());
        assert("24hrTicker"@.len() != "KLINE"@.len());
        assert("DAY_TICKER"@.len() != "aggTrade"@.len());
        assert("DAY_TICKER"@.len() != "AGG_TRADE"@.len());
        assert("DAY_TICKER"@.len() != "trade"@.len());
        assert("DAY_TICKER"@.len() != "TRADE"@.len());
        assert("DAY_TICKER"@.len() != "kline"@.len());
        assert("DAY_TICKER"@.len() != "KLINE"@.len());
        assert("DAY_TICKER"@[0] != "24hrTicker"@[0]);
        },
        EventKind::DayMiniTicker => {
        assert("24hrMiniTicker"@.len() != "aggTrade"@.len());
        assert("24hrMiniTicker"@.len() != "AGG_TRADE"@.len());
        assert("24hrMiniTicker"@.len() != "trade"@.len());
        assert("24hrMiniTicker"@.len() != "TRADE"@.len());
        assert("24hrMiniTicker"@.len() != "kline"@.len());
        assert("24hrMiniTicker"@.len() != "KLINE"@.len());
        assert("24hrMiniTicker"@.len() != "24hrTicker"@.len());
        assert("24hrMiniTicker"@.len() != "DAY_TICKER"@.len());
        assert("DAY_MINI_TICKER"@.len() != "aggTrade"@.len());
        assert("DAY_MINI_TICKER"@.len() != "AGG_TRADE"@.len());
        assert("DAY_MINI_TICKER"@.len() != "trade"@.len());
        assert("DAY_MINI_TICKER"@.len() != "TRADE"@.len());
        assert("DAY_MINI_TICKER"@.len() != "kline"@.len());
        assert("DAY_MINI_TICKER"@.len() != "KLINE"@.len());
        assert("DAY_MINI_TICKER"@.len() != "24hrTicker"@.len());
        assert("DAY_MINI_TICKER"@.len() != "DAY_TICKER"@.len());
        assert("DAY_MINI_TICKER"@.len() != "24hrMiniTicker"@.len());
        },
        EventKind::DepthOrderBook => {
        assert("depthUpdate"@.len() != "aggTrade"@.len());
        assert("depthUpdate"@.len() != "AGG_TRADE"@.len());
        assert("depthUpdate"@.len() != "trade"@.len());
        assert("depthUpdate"@.len() != "TRADE"@.len());
        assert("depthUpdate"@.len() != "kline"@.len());
        assert("depthUpdate"@.len() != "KLINE"@.len());
        assert("depthUpdate"@.len() != "24hrTicker"@.len());
        assert("depthUpdate"@.len() != "DAY_TICKER"@.len());
        assert("depthUpdate"@.len() != "24hrMiniTicker"@.len());
        assert("depthUpdate"@.len() != "DAY_MINI_TICKER"@.len());
        assert("DEPTH_ORDER_BOOK"@.len() != "aggTrade"@.len());
        assert("DEPTH_ORDER_BOOK"@.len() != "AGG_TRADE"@.len());
        assert("DEPTH_ORDER_BOOK"@.len() != "trade"@.len());
        assert("DEPTH_ORDER_BOOK"@.len() != "TRADE"@.len());
        assert("DEPTH_ORDER_BOOK"@.len() != "kline"@.len());
        assert("DEPTH_ORDER_BOOK"@.len() != "KLINE"@.len());
        assert("DEPTH_ORDER_BOOK"@.len() != "24hrTicker"@.len());
        assert("DEPTH_ORDER_BOOK"@.len() != "DAY_TICKER"@.len());
        assert("DEPTH_ORDER_BOOK"@.len() != "24hrMiniTicker"@.len());
        assert("DEPTH_ORDER_BOOK"@.len() != "DAY_MINI_TICKER"@.len());
        assert("DEPTH_ORDER_BOOK"@.len() != "depthUpdate"@.len());
        },
        EventKind::AccountPositionUpdate => {
        assert("outboundAccountPosition"@.len() != "aggTrade"@.len());
        assert("outboundAccountPosition"@.len() != "AGG_TRADE"@.len());
        assert("outboundAccountPosition"@.len() != "trade"@.len());
        assert("outboundAccountPosition"@.len() != "TRADE"@.len());
        assert("outboundAccountPosition"@.len() != "kline"@.len());
        assert("outboundAccountPosition"@.len() != "KLINE"@.len());
        assert("outboundAccountPosition"@.len() != "24hrTicker"@.len());
        assert("outboundAccountPosition"@.len() != "DAY_TICKER"@.len());
        assert("outboundAccountPosition"@.len() != "24hrMiniTicker"@.len());
        assert("outboundAccountPosition"@.len() != "DAY_MINI_TICKER"@.len());
        assert("outboundAccountPosition"@.len() != "depthUpdate"@.len());
        assert("outboundAccountPosition"@.len() != "DEPTH_ORDER_BOOK"@.len());
        assert("ACCOUNT_POSITION_UPDATE"@.len() != "aggTrade"@.len());
        assert("ACCOUNT_POSITION_UPDATE"@.len() != "AGG_TRADE"@.len());
        assert("ACCOUNT_POSITION_UPDATE"@.len() != "trade"@.len());
        assert("ACCOUNT_POSITION_UPDATE"@.len() != "TRADE"@.len());
        assert("ACCOUNT_POSITION_UPDATE"@.len() != "kline"@.len());
        assert("ACCOUNT_POSITION_UPDATE"@.len() != "KLINE"@.len());
        assert("ACCOUNT_POSITION_UPDATE"@.len() != "24hrTicker"@.len());
        assert("ACCOUNT_POSITION_UPDATE"@.len() != "DAY_TICKER"@.len());
        assert("ACCOUNT_POSITION_UPDATE"@.len() != "24hrMiniTicker"@.len());
        assert("ACCOUNT_POSITION_UPDATE"@.len() != "DAY_MINI_TICKER"@.len());
        assert("ACCOUNT_POSITION_UPDATE"@.len() != "depthUpdate"@.len());
        assert("ACCOUNT_POSITION_UPDATE"@.len() != "DEPTH_ORDER_BOOK"@.len());
        assert("ACCOUNT_POSITION_UPDATE"@[0] != "outboundAccountPosition"@[0]);
        },
        EventKind::BalanceUpdate => {
        assert("balanceUpdate"@.len() != "aggTrade"@.len());
        assert("balanceUpdate"@.len() != "AGG_TRADE"@.len());
        assert("balanceUpdate"@.len() != "trade"@.len());
        assert("balanceUpdate"@.len() != "TRADE"@.len());
        assert("balanceUpdate"@.len() != "kline"@.len());
        assert("balanceUpdate"@.len() != "KLINE"@.len());
        assert("balanceUpdate"@.len() != "24hrTicker"@.len());
        assert("balanceUpdate"@.len() != "DAY_TICKER"@.len());
        assert("balanceUpdate"@.len() != "24hrMiniTicker"@.len());
        assert("balanceUpdate"@.len() != "DAY_MINI_TICKER"@.len());
        assert("balanceUpdate"@.len() != "depthUpdate"@.len());
        assert("balanceUpdate"@.len() != "DEPTH_ORDER_BOOK"@.len());
        assert("balanceUpdate"@.len() != "outboundAccountPosition"@.len());
        assert("balanceUpdate"@.len() != "ACCOUNT_POSITION_UPDATE"@.len());
        assert("BALANCE_UPDATE"@.len() != "aggTrade"@.len());
        assert("BALANCE_UPDATE"@.len() != "AGG_TRADE"@.len());
        assert("BALANCE_UPDATE"@.len() != "trade"@.len());
        assert("BALANCE_UPDATE"@.len() != "TRADE"@.len());
        assert("BALANCE_UPDATE"@.len() != "kline"@.len());
        assert("BALANCE_UPDATE"@.len() != "KLINE"@.len());
        assert("BALANCE_UPDATE"@.len() != "24hrTicker"@.len());
        assert("BALANCE_UPDATE"@.len() != "DAY_TICKER"@.len());
        assert("BALANCE_UPDATE"@[0] != "24hrMiniTicker"@[0]);
        assert("BALANCE_UPDATE"@.len() != "DAY_MINI_TICKER"@.len());
        assert("BALANCE_UPDATE"@.len() != "depthUpdate"@.len());
        assert("BALANCE_UPDATE"@.len() != "DEPTH_ORDER_BOOK"@.len());
        assert("BALANCE_UPDATE"@.len() != "outboundAccountPosition"@.len());
        assert("BALANCE_UPDATE"@.len() != "ACCOUNT_POSITION_UPDATE"@.len());
        assert("BALANCE_UPDATE"@.len() != "balanceUpdate"@.len());
        },
        EventKind::OrderUpdate => {
        assert("executionReport"@.len() != "aggTrade"@.len());
        assert("executionReport"@.len() != "AGG_TRADE"@.len());
        assert("executionReport"@.len() != "trade"@.len());
        assert("executionReport"@.len() != "TRADE"@.len());
        assert("executionReport"@.len() != "kline"@.len());
        assert("executionReport"@.len() != "KLINE"@.len());
        assert("executionReport"@.len() != "24hrTicker"@.len());
        assert("executionReport"@.len() != "DAY_TICKER"@.len());
        assert("executionReport"@.len() != "24hrMiniTicker"@.len());
        assert("executionReport"@[0] != "DAY_MINI_TICKER"@[0]);
        assert("executionReport"@.len() != "depthUpdate"@.len());
        assert("executionReport"@.len() != "DEPTH_ORDER_BOOK"@.len());
        assert("executionReport"@.len() != "outboundAccountPosition"@.len());
        assert("executionReport"@.len() != "ACCOUNT_POSITION_UPDATE"@.len());
        assert("executionReport"@.len() != "balanceUpdate"@.len());
        assert("executionReport"@.len() != "BALANCE_UPDATE"@.len());
        assert("ORDER_UPDATE"@.len() != "aggTrade"@.len());
        assert("ORDER_UPDATE"@.len() != "AGG_TRADE"@.len());
        assert("ORDER_UPDATE"@.len() != "trade"@.len());
        assert("ORDER_UPDATE"@.len() != "TRADE"@.len());
        assert("ORDER_UPDATE"@.len() != "kline"@.len());
        assert("ORDER_UPDATE"@.len() != "KLINE"@.len());
        assert("ORDER_UPDATE"@.len() != "24hrTicker"@.len());
        assert("ORDER_UPDATE"@.len() != "DAY_TICKER"@.len());
        assert("ORDER_UPDATE"@.len() != "24hrMiniTicker"@.len());
        assert("ORDER_UPDATE"@.len() != "DAY_MINI_TICKER"@.len());
        assert("ORDER_UPDATE"@.len() != "depthUpdate"@.len());
        assert("ORDER_UPDATE"@.len() != "DEPTH_ORDER_BOOK"@.len());
        assert("ORDER_UPDATE"@.len() != "outboundAccountPosition"@.len());
        assert("ORDER_UPDATE"@.len() != "ACCOUNT_POSITION_UPDATE"@.len());
        assert("ORDER_UPDATE"@.len() != "balanceUpdate"@.len());
        assert("ORDER_UPDATE"@.len() != "BALANCE_UPDATE"@.len());
        assert("ORDER_UPDATE"@.len() != "executionReport"@.len());
        },
        EventKind::ListOrderUpdate => {
        assert("listStatus"@.len() != "aggTrade"@.len());
        assert("listStatus"@.len() != "AGG_TRADE"@.len());
        assert("listStatus"@.len() != "trade"@.len());
        assert("listStatus"@.len() != "TRADE"@.len());
        assert("listStatus"@.len() != "kline"@.len());
        assert("listStatus"@.len() != "KLINE"@.len());
        assert("listStatus"@[0] != "24hrTicker"@[0]);
        assert("listStatus"@[0] != "DAY_TICKER"@[0]);
        assert("listStatus"@.len() != "24hrMiniTicker"@.len());
        assert("listStatus"@.len() != "DAY_MINI_TICKER"@.len());
        assert("listStatus"@.len() != "depthUpdate"@.len());
        assert("listStatus"@.len() != "DEPTH_ORDER_BOOK"@.len());
        assert("listStatus"@.len() != "outboundAccountPosition"@.len());
        assert("listStatus"@.len() != "ACCOUNT_POSITION_UPDATE"@.len());
        assert("listStatus"@.len() != "balanceUpdate"@.len());
        assert("listStatus"@.len() != "BALANCE_UPDATE"@.len());
        assert("listStatus"@.len() != "executionReport"@.len());
        assert("listStatus"@.len() != "ORDER_UPDATE"@.len());
        assert("LIST_ORDER_UPDATE"@.len() != "aggTrade"@.len());
        assert("LIST_ORDER_UPDATE"@.len() != "AGG_TRADE"@.len());
        assert("LIST_ORDER_UPDATE"@.len() != "trade"@.len());
        assert("LIST_ORDER_UPDATE"@.len() != "TRADE"@.len());
        assert("LIST_ORDER_UPDATE"@.len() != "kline"@.len());
        assert("LIST_ORDER_UPDATE"@.len() != "KLINE"@.len());
        assert("LIST_ORDER_UPDATE"@.len() != "24hrTicker"@.len());
        assert("LIST_ORDER_UPDATE"@.len() != "DAY_TICKER"@.len());
        assert("LIST_ORDER_UPDATE"@.len() != "24hrMiniTicker"@.len());
        assert("LIST_ORDER_UPDATE"@.len() != "DAY_MINI_TICKER"@.len());
        assert("LIST_ORDER_UPDATE"@.len() != "depthUpdate"@.len());
        assert("LIST_ORDER_UPDATE"@.len() != "DEPTH_ORDER_BOOK"@.len());
        assert("LIST_ORDER_UPDATE"@.len() != "outboundAccountPosition"@.len());
        assert("LIST_ORDER_UPDATE"@.len() != "ACCOUNT_POSITION_UPDATE"@.len());
        assert("LIST_ORDER_UPDATE"@.len() != "balanceUpdate"@.len());
        assert("LIST_ORDER_UPDATE"@.len() != "BALANCE_UPDATE"@.len());
        assert("LIST_ORDER_UPDATE"@.len() != "executionReport"@.len());
        assert("LIST_ORDER_UPDATE"@.len() != "ORDER_UPDATE"@.len());
        assert("LIST_ORDER_UPDATE"@.len() != "listStatus"@.len());
        },
        EventKind::OrderTradeUpdate => {
        assert("orderTradeUpdate"@.len() != "aggTrade"@.len());
        assert("orderTradeUpdate"@.len() != "AGG_TRADE"@.len());
        assert("orderTradeUpdate"@.len() != "trade"@.len());
        assert("orderTradeUpdate"@.len() != "TRADE"@.len());
        assert("orderTradeUpdate"@.len() != "kline"@.len());
        assert("orderTradeUpdate"@.len() != "KLINE"@.len());
        assert("orderTradeUpdate"@.len() != "24hrTicker"@.len());
        assert("orderTradeUpdate"@.len() != "DAY_TICKER"@.len());
        assert("orderTradeUpdate"@.len() != "24hrMiniTicker"@.len());
        assert("orderTradeUpdate"@.len() != "DAY_MINI_TICKER"@.len());
        assert("orderTradeUpdate"@.len() != "depthUpdate"@.len());
        assert("orderTradeUpdate"@[0] != "DEPTH_ORDER_BOOK"@[0]);
        assert("orderTradeUpdate"@.len() != "outboundAccountPosition"@.len());
        assert("orderTradeUpdate"@.len() != "ACCOUNT_POSITION_UPDATE"@.len());
        assert("orderTradeUpdate"@.len() != "balanceUpdate"@.len());
        assert("orderTradeUpdate"@.len() != "BALANCE_UPDATE"@.len());
        assert("orderTradeUpdate"@.len() != "executionReport"@.len());
        assert("orderTradeUpdate"@.len() != "ORDER_UPDATE"@.len());
        assert("orderTradeUpdate"@.len() != "listStatus"@.len());
        assert("orderTradeUpdate"@.len() != "LIST_ORDER_UPDATE"@.len());
        assert("ORDER_TRADE_UPDATE"@.len() != "aggTrade"@.len());
        assert("ORDER_TRADE_UPDATE"@.len() != "AGG_TRADE"@.len());
        assert("ORDER_TRADE_UPDATE"@.len() != "trade"@.len());
        assert("ORDER_TRADE_UPDATE"@.len() != "TRADE"@.len());
        assert("ORDER_TRADE_UPDATE"@.len() != "kline"@.len());
        assert("ORDER_TRADE_UPDATE"@.len() != "KLINE"@.len());
        assert("ORDER_TRADE_UPDATE"@.len() != "24hrTicker"@.len());
        assert("ORDER_TRADE_UPDATE"@.len() != "DAY_TICKER"@.len());
        assert("ORDER_TRADE_UPDATE"@.len() != "24hrMiniTicker"@.len());
        assert("ORDER_TRADE_UPDATE"@.len() != "DAY_MINI_TICKER"@.len());
        assert("ORDER_TRADE_UPDATE"@.len() != "depthUpdate"@.len());
        assert("ORDER_TRADE_UPDATE"@.len() != "DEPTH_ORDER_BOOK"@.len());
        assert("ORDER_TRADE_UPDATE"@.len() != "outboundAccountPosition"@.len());
        assert("ORDER_TRADE_UPDATE"@.len() != "ACCOUNT_POSITION_UPDATE"@.len());
        assert("ORDER_TRADE_UPDATE"@.len() != "balanceUpdate"@.len());
        assert("ORDER_TRADE_UPDATE"@.len() != "BALANCE_UPDATE"@.len());
        assert("ORDER_TRADE_UPDATE"@.len() != "executionReport"@.len());
        assert("ORDER_TRADE_UPDATE"@.len() != "ORDER_UPDATE"@.len());
        assert("ORDER_TRADE_UPDATE"@.len() != "listStatus"@.len());
        assert("ORDER_TRADE_UPDATE"@.len() != "LIST_ORDER_UPDATE"@.len());
        assert("ORDER_TRADE_UPDATE"@.len() != "orderTradeUpdate"@.len());
        },
        EventKind::AccountUpdate => {
        assert("accountUpdate"@.len() != "aggTrade"@.len());
        assert("accountUpdate"@.len() != "AGG_TRADE"@.len());
        assert("accountUpdate"@.len() != "trade"@.len());
        assert("accountUpdate"@.len() != "TRADE"@.len());
        assert("accountUpdate"@.len() != "kline"@.len());
        assert("accountUpdate"@.len() != "KLINE"@.len());
        assert("accountUpdate"@.len() != "24hrTicker"@.len());
        assert("accountUpdate"@.len() != "DAY_TICKER"@.len());
        assert("accountUpdate"@.len() != "24hrMiniTicker"@.len());
        assert("accountUpdate"@.len() != "DAY_MINI_TICKER"@.len());
        assert("accountUpdate"@.len() != "depthUpdate"@.len());
        assert("accountUpdate"@.len() != "DEPTH_ORDER_BOOK"@.len());
        assert("accountUpdate"@.len() != "outboundAccountPosition"@.len());
        assert("accountUpdate"@.len() != "ACCOUNT_POSITION_UPDATE"@.len());
        assert("accountUpdate"@[0] != "balanceUpdate"@[0]);
        assert("accountUpdate"@.len() != "BALANCE_UPDATE"@.len());
        assert("accountUpdate"@.len() != "executionReport"@.len());
        assert("accountUpdate"@.len() != "ORDER_UPDATE"@.len());
        assert("accountUpdate"@.len() != "listStatus"@.len());
        assert("accountUpdate"@.len() != "LIST_ORDER_UPDATE"@.len());
        assert("accountUpdate"@.len() != "orderTradeUpdate"@.len());
        assert("accountUpdate"@.len() != "ORDER_TRADE_UPDATE"@.len());
        assert("ACCOUNT_UPDATE"@.len() != "aggTrade"@.len());
        assert("ACCOUNT_UPDATE"@.len() != "AGG_TRADE"@.len());
        assert("ACCOUNT_UPDATE"@.len() != "trade"@.len());
        assert("ACCOUNT_UPDATE"@.len() != "TRADE"@.len());
        assert("ACCOUNT_UPDATE"@.len() != "kline"@.len());
        assert("ACCOUNT_UPDATE"@.len() != "KLINE"@.len());
        assert("ACCOUNT_UPDATE"@.len() != "24hrTicker"@.len());
        assert("ACCOUNT_UPDATE"@.len() != "DAY_TICKER"@.len());
        assert("ACCOUNT_UPDATE"@[0] != "24hrMiniTicker"@[0]);
        assert("ACCOUNT_UPDATE"@.len() != "DAY_MINI_TICKER"@.len());
        assert("ACCOUNT_UPDATE"@.len() != "depthUpdate"@.len());
        assert("ACCOUNT_UPDATE"@.len() != "DEPTH_ORDER_BOOK"@.len());
        assert("ACCOUNT_UPDATE"@.len() != "outboundAccountPosition"@.len());
        assert("ACCOUNT_UPDATE"@.len() != "ACCOUNT_POSITION_UPDATE"@.len());
        assert("ACCOUNT_UPDATE"@.len() != "balanceUpdate"@.len());
        assert("ACCOUNT_UPDATE"@[0] != "BALANCE_UPDATE"@[0]);
        assert("ACCOUNT_UPDATE"@.len() != "executionReport"@.len());
        assert("ACCOUNT_UPDATE"@.len() != "ORDER_UPDATE"@.len());
        assert("ACCOUNT_UPDATE"@.len() != "listStatus"@.len());
        assert("ACCOUNT_UPDATE"@.len() != "LIST_ORDER_UPDATE"@.len());
        assert("ACCOUNT_UPDATE"@.len() != "orderTradeUpdate"@.len());
        assert("ACCOUNT_UPDATE"@.len() != "ORDER_TRADE_UPDATE"@.len());
        assert("ACCOUNT_UPDATE"@.len() != "accountUpdate"@.len());
        },
    }
}

/// A payload whose discriminator names a known kind, and whose fields hold a
/// readable record of that kind, decodes to an event of exactly that kind.
pub proof fn lemma_known_discriminator(m: Seq<(String, JsonValue)>, k: EventKind, r: Result<FuturesWebsocketEventUntag, DecodeError>)
    requires
        field_text(m, "e"@) == Some(wire_name(k)) || field_text(m, "e"@) == Some(constant_name(k)),
        event_ok(k, m),
        decoded_from(r, m),
    ensures
        r matches Ok(FuturesWebsocketEventUntag::FuturesWebsocketEvent(ev)) && kind_of(ev) == k,
{
    lemma_names_select_kind(k);
}

/// A discriminator that names no known kind gives `UnknownEventType`, never an event.
pub proof fn lemma_unknown_discriminator(m: Seq<(String, JsonValue)>, t: Seq<char>, r: Result<FuturesWebsocketEventUntag, DecodeError>)
    requires
        field_text(m, "e"@) == Some(t),
        kind_of_name(t) is None,
        decoded_from(r, m),
    ensures
        r matches Err(DecodeError::UnknownEventType { name }) && name@ == t,
{
}

/// A payload without a discriminator that reads as a book ticker and not as an
/// order book snapshot decodes to a book ticker, never to an event.
pub proof fn lemma_book_ticker_fallback(m: Seq<(String, JsonValue)>, r: Result<FuturesWebsocketEventUntag, DecodeError>)
    requires
        lookup(m, "e"@) is None,
        !order_book_ok(m),
        book_ticker_event_ok(m),
        decoded_from(r, m),
    ensures
        r matches Ok(FuturesWebsocketEventUntag::BookTicker(b)) && book_ticker_event_matches(*b, m),
{
}

/// A key that no payload shape reads at the top level.
pub open spec fn is_unread_key(k: Seq<char>) -> bool {
    &&& k != "e"@
    &&& k != "E"@
    &&& k != "s"@
    &&& k != "t"@
    &&& k != "p"@
    &&& k != "q"@
    &&& k != "T"@
    &&& k != "m"@
    &&& k != "a"@
    &&& k != "f"@
    &&& k != "l"@
    &&& k != "k"@
    &&& k != "P"@
    &&& k != "w"@
    &&& k != "c"@
    &&& k != "Q"@
    &&& k != "o"@
    &&& k != "h"@
    &&& k != "v"@
    &&& k != "O"@
    &&& k != "C"@
    &&& k != "F"@
    &&& k != "L"@
    &&& k != "n"@
    &&& k != "U"@
    &&& k != "u"@
    &&& k != "b"@
    &&& k != "B"@
    &&& k != "d"@
    &&& k != "S"@
    &&& k != "x"@
    &&& k != "X"@
    &&& k != "i"@
    &&& k != "z"@
    &&& k != "N"@
    &&& k != "g"@
    &&& k != "r"@
    &&& k != "lastUpdateId"@
    &&& k != "bids"@
    &&& k != "asks"@
    &&& k != "A"@
}

proof fn lemma_lookup_insert(m: Seq<(String, JsonValue)>, i: int, key: String, v: JsonValue, k: Seq<char>)
    requires
        0 <= i <= m.len(),
        key@ != k,
    ensures
        lookup(m.insert(i, (key, v)), k) == lookup(m, k),
    decreases m.len(),
{
    if i > 0 {
        assert(m.insert(i, (key, v)).skip(1) =~= m.skip(1).insert(i - 1, (key, v)));
        lemma_lookup_insert(m.skip(1), i - 1, key, v, k);
    } else {
        assert(m.insert(0, (key, v)).skip(1) =~= m);
    }
}

/// `m2` reads as `m` under every key but `key`.
pub open spec fn same_reads(m: Seq<(String, JsonValue)>, m2: Seq<(String, JsonValue)>, key: Seq<char>) -> bool {
    forall|k: Seq<char>| k != key ==> #[trigger] lookup(m2, k) == lookup(m, k)
}

#[verifier::rlimit(40)]
proof fn lemma_kind_unchanged(m: Seq<(String, JsonValue)>, m2: Seq<(String, JsonValue)>, key: Seq<char>, k: EventKind)
    requires
        same_reads(m, m2, key),
        is_unread_key(key),
    ensures
        event_ok(k, m2) == event_ok(k, m),
        forall|ev: FuturesWebsocketEvent| kind_of(ev) == k ==> event_matches(ev, m2) == event_matches(ev, m),
{
    match k {
        EventKind::AggTrade => {
            assert(lookup(m2, "e"@) == lookup(m, "e"@));
        },
        EventKind::Trade => {
            assert(lookup(m2, "e"@) == lookup(m, "e"@));
        },
        EventKind::Kline => {
            assert(lookup(m2, "e"@) == lookup(m, "e"@));
        },
        EventKind::DayTicker => {
            assert(lookup(m2, "e"@) == lookup(m, "e"@));
        },
        EventKind::DayMiniTicker => {
            assert(lookup(m2, "e"@) == lookup(m, "e"@));
        },
        EventKind::DepthOrderBook => {
            assert(lookup(m2, "e"@) == lookup(m, "e"@));
        },
        EventKind::AccountPositionUpdate => {
            assert(lookup(m2, "e"@) == lookup(m, "e"@));
        },
        EventKind::BalanceUpdate => {
            assert(lookup(m2, "e"@) == lookup(m, "e"@));
        },
        EventKind::OrderUpdate => {
            assert(lookup(m2, "e"@) == lookup(m, "e"@));
        },
        EventKind::ListOrderUpdate => {
            assert(lookup(m2, "e"@) == lookup(m, "e"@));
        },
        EventKind::OrderTradeUpdate => {
            assert(lookup(m2, "e"@) == lookup(m, "e"@));
        },
        EventKind::AccountUpdate => {
            assert(lookup(m2, "e"@) == lookup(m, "e"@));
        },
    }
}

/// An added field that no shape reads changes nothing in what a payload decodes to.
pub proof fn lemma_extra_field_ignored(m: Seq<(String, JsonValue)>, i: int, key: String, v: JsonValue)
    requires
        0 <= i <= m.len(),
        is_unread_key(key@),
    ensures
        outcome_of(m.insert(i, (key, v))) == outcome_of(m),
        forall|r: Result<FuturesWebsocketEventUntag, DecodeError>|
            decoded_from(r, m.insert(i, (key, v))) == decoded_from(r, m),
{
    let m2 = m.insert(i, (key, v));
    assert forall|k: Seq<char>| k != key@ implies #[trigger] lookup(m2, k) == lookup(m, k) by {
        lemma_lookup_insert(m, i, key, v, k);
    }
    assert(lookup(m2, "e"@) == lookup(m, "e"@));
    assert(order_book_ok(m2) == order_book_ok(m));
    assert(book_ticker_event_ok(m2) == book_ticker_event_ok(m));
    assert forall|b: OrderBook| order_book_matches(b, m2) == order_book_matches(b, m) by {}
    assert forall|b: BookTickerEvent| book_ticker_event_matches(b, m2) == book_ticker_event_matches(b, m) by {}
    assert forall|k: EventKind| event_ok(k, m2) == event_ok(k, m)
        && (forall|ev: FuturesWebsocketEvent| kind_of(ev) == k ==> event_matches(ev, m2) == event_matches(ev, m)) by {
        lemma_kind_unchanged(m, m2, key@, k);
    }
    assert forall|ev: FuturesWebsocketEvent| event_matches(ev, m2) == event_matches(ev, m) by {
        lemma_kind_unchanged(m, m2, key@, kind_of(ev));
    }
}


} // verus!
