//! The records that events carry, and how each is read from an object's fields.
use vstd::prelude::*;
use crate::json::{
    coercion_error, field_array, field_decimal, field_flag, field_i64, field_object,
    field_opt_text, field_text, field_u64, get_array, get_decimal, get_flag, get_i64, get_object,
    get_opt_text, get_text, get_u64, numeric_text, decimal_of_text, parse_decimal, DecodeError,
    Decimal, JsonValue,
};
use crate::text::text_is;

verus! {

/// Side of an order.
#[derive(Clone, Copy, Debug, PartialEq, Eq, Structural)]
pub enum OrderSide {
    Buy,
    Sell,
}

/// The variant that a wire name denotes.
pub open spec fn order_side_of(t: Seq<char>) -> Option<OrderSide> {
    if t == "BUY"@ {
        Some(OrderSide::Buy)
    } else if t == "SELL"@ {
        Some(OrderSide::Sell)
    } else {
        None
    }
}

pub open spec fn field_order_side(m: Seq<(String, JsonValue)>, k: Seq<char>) -> Option<OrderSide> {
    match field_text(m, k) {
        Some(t) => order_side_of(t),
        None => None,
    }
}

pub fn parse_order_side(t: &str) -> (r: Option<OrderSide>)
    ensures
        r == order_side_of(t@),
{
    if text_is(t, "BUY") {
        Some(OrderSide::Buy)
    } else if text_is(t, "SELL") {
        Some(OrderSide::Sell)
    } else {
        None
    }
}

fn get_order_side(m: &Vec<(String, JsonValue)>, k: &str) -> (r: Result<OrderSide, DecodeError>)
    ensures
        r is Ok <==> field_order_side(m@, k@) is Some,
        r matches Ok(v) ==> field_order_side(m@, k@) == Some(v),
        r matches Err(e) ==> e is FieldCoercion,
{
    match get_text(m, k) {
        Ok(t) => match parse_order_side(t.as_str()) {
            Some(v) => Ok(v),
            None => Err(coercion_error(k)),
        },
        Err(e) => Err(e),
    }
}

/// Kind of an order.
#[derive(Clone, Copy, Debug, PartialEq, Eq, Structural)]
pub enum OrderType {
    Limit,
    Market,
    Stop,
    StopMarket,
    TakeProfit,
    TakeProfitMarket,
    TrailingStopMarket,
    Liquidation,
    LimitMaker,
    StopLoss,
    StopLossLimit,
    TakeProfitLimit,
}

/// The variant that a wire name denotes.
pub open spec fn order_type_of(t: Seq<char>) -> Option<OrderType> {
    if t == "LIMIT"@ {
        Some(OrderType::Limit)
    } else if t == "MARKET"@ {
        Some(OrderType::Market)
    } else if t == "STOP"@ {
        Some(OrderType::Stop)
    } else if t == "STOP_MARKET"@ {
        Some(OrderType::StopMarket)
    } else if t == "TAKE_PROFIT"@ {
        Some(OrderType::TakeProfit)
    } else if t == "TAKE_PROFIT_MARKET"@ {
        Some(OrderType::TakeProfitMarket)
    } else if t == "TRAILING_STOP_MARKET"@ {
        Some(OrderType::TrailingStopMarket)
    } else if t == "LIQUIDATION"@ {
        Some(OrderType::Liquidation)
    } else if t == "LIMIT_MAKER"@ {
        Some(OrderType::LimitMaker)
    } else if t == "STOP_LOSS"@ {
        Some(OrderType::StopLoss)
    } else if t == "STOP_LOSS_LIMIT"@ {
        Some(OrderType::StopLossLimit)
    } else if t == "TAKE_PROFIT_LIMIT"@ {
        Some(OrderType::TakeProfitLimit)
    } else {
        None
    }
}

pub open spec fn field_order_type(m: Seq<(String, JsonValue)>, k: Seq<char>) -> Option<OrderType> {
    match field_text(m, k) {
        Some(t) => order_type_of(t),
        None => None,
    }
}

pub fn parse_order_type(t: &str) -> (r: Option<OrderType>)
    ensures
        r == order_type_of(t@),
{
    if text_is(t, "LIMIT") {
        Some(OrderType::Limit)
    } else if text_is(t, "MARKET") {
        Some(OrderType::Market)
    } else if text_is(t, "STOP") {
        Some(OrderType::Stop)
    } else if text_is(t, "STOP_MARKET") {
        Some(OrderType::StopMarket)
    } else if text_is(t, "TAKE_PROFIT") {
        Some(OrderType::TakeProfit)
    } else if text_is(t, "TAKE_PROFIT_MARKET") {
        Some(OrderType::TakeProfitMarket)
    } else if text_is(t, "TRAILING_STOP_MARKET") {
        Some(OrderType::TrailingStopMarket)
    } else if text_is(t, "LIQUIDATION") {
        Some(OrderType::Liquidation)
    } else if text_is(t, "LIMIT_MAKER") {
        Some(OrderType::LimitMaker)
    } else if text_is(t, "STOP_LOSS") {
        Some(OrderType::StopLoss)
    } else if text_is(t, "STOP_LOSS_LIMIT") {
        Some(OrderType::StopLossLimit)
    } else if text_is(t, "TAKE_PROFIT_LIMIT") {
        Some(OrderType::TakeProfitLimit)
    } else {
        None
    }
}

fn get_order_type(m: &Vec<(String, JsonValue)>, k: &str) -> (r: Result<OrderType, DecodeError>)
    ensures
        r is Ok <==> field_order_type(m@, k@) is Some,
        r matches Ok(v) ==> field_order_type(m@, k@) == Some(v),
        r matches Err(e) ==> e is FieldCoercion,
{
    match get_text(m, k) {
        Ok(t) => match parse_order_type(t.as_str()) {
            Some(v) => Ok(v),
            None => Err(coercion_error(k)),
        },
        Err(e) => Err(e),
    }
}

/// How long an order stays working.
#[derive(Clone, Copy, Debug, PartialEq, Eq, Structural)]
pub enum TimeInForce {
    Gtc,
    Ioc,
    Fok,
    Gtx,
    Gtd,
}

/// The variant that a wire name denotes.
pub open spec fn time_in_force_of(t: Seq<char>) -> Option<TimeInForce> {
    if t == "GTC"@ {
        Some(TimeInForce::Gtc)
    } else if t == "IOC"@ {
        Some(TimeInForce::Ioc)
    } else if t == "FOK"@ {
        Some(TimeInForce::Fok)
    } else if t == "GTX"@ {
        Some(TimeInForce::Gtx)
    } else if t == "GTD"@ {
        Some(TimeInForce::Gtd)
    } else {
        None
    }
}

pub open spec fn field_time_in_force(m: Seq<(String, JsonValue)>, k: Seq<char>) -> Option<TimeInForce> {
    match field_text(m, k) {
        Some(t) => time_in_force_of(t),
        None => None,
    }
}

pub fn parse_time_in_force(t: &str) -> (r: Option<TimeInForce>)
    ensures
        r == time_in_force_of(t@),
{
    if text_is(t, "GTC") {
        Some(TimeInForce::Gtc)
    } else if text_is(t, "IOC") {
        Some(TimeInForce::Ioc)
    } else if text_is(t, "FOK") {
        Some(TimeInForce::Fok)
    } else if text_is(t, "GTX") {
        Some(TimeInForce::Gtx)
    } else if text_is(t, "GTD") {
        Some(TimeInForce::Gtd)
    } else {
        None
    }
}

fn get_time_in_force(m: &Vec<(String, JsonValue)>, k: &str) -> (r: Result<TimeInForce, DecodeError>)
    ensures
        r is Ok <==> field_time_in_force(m@, k@) is Some,
        r matches Ok(v) ==> field_time_in_force(m@, k@) == Some(v),
        r matches Err(e) ==> e is FieldCoercion,
{
    match get_text(m, k) {
        Ok(t) => match parse_time_in_force(t.as_str()) {
            Some(v) => Ok(v),
            None => Err(coercion_error(k)),
        },
        Err(e) => Err(e),
    }
}

/// State of an order, or what happened to it.
#[derive(Clone, Copy, Debug, PartialEq, Eq, Structural)]
pub enum OrderStatus {
    New,
    PartiallyFilled,
    Filled,
    Canceled,
    PendingCancel,
    Rejected,
    Expired,
    Trade,
    Calculated,
    ExpiredInMatch,
    Amendment,
}

/// The variant that a wire name denotes.
pub open spec fn order_status_of(t: Seq<char>) -> Option<OrderStatus> {
    if t == "NEW"@ {
        Some(OrderStatus::New)
    } else if t == "PARTIALLY_FILLED"@ {
        Some(OrderStatus::PartiallyFilled)
    } else if t == "FILLED"@ {
        Some(OrderStatus::Filled)
    } else if t == "CANCELED"@ {
        Some(OrderStatus::Canceled)
    } else if t == "PENDING_CANCEL"@ {
        Some(OrderStatus::PendingCancel)
    } else if t == "REJECTED"@ {
        Some(OrderStatus::Rejected)
    } else if t == "EXPIRED"@ {
        Some(OrderStatus::Expired)
    } else if t == "TRADE"@ {
        Some(OrderStatus::Trade)
    } else if t == "CALCULATED"@ {
        Some(OrderStatus::Calculated)
    } else if t == "EXPIRED_IN_MATCH"@ {
        Some(OrderStatus::ExpiredInMatch)
    } else if t == "AMENDMENT"@ {
        Some(OrderStatus::Amendment)
    } else {
        None
    }
}

pub open spec fn field_order_status(m: Seq<(String, JsonValue)>, k: Seq<char>) -> Option<OrderStatus> {
    match field_text(m, k) {
        Some(t) => order_status_of(t),
        None => None,
    }
}

pub fn parse_order_status(t: &str) -> (r: Option<OrderStatus>)
    ensures
        r == order_status_of(t@),
{
    if text_is(t, "NEW") {
        Some(OrderStatus::New)
    } else if text_is(t, "PARTIALLY_FILLED") {
        Some(OrderStatus::PartiallyFilled)
    } else if text_is(t, "FILLED") {
        Some(OrderStatus::Filled)
    } else if text_is(t, "CANCELED") {
        Some(OrderStatus::Canceled)
    } else if text_is(t, "PENDING_CANCEL") {
        Some(OrderStatus::PendingCancel)
    } else if text_is(t, "REJECTED") {
        Some(OrderStatus::Rejected)
    } else if text_is(t, "EXPIRED") {
        Some(OrderStatus::Expired)
    } else if text_is(t, "TRADE") {
        Some(OrderStatus::Trade)
    } else if text_is(t, "CALCULATED") {
        Some(OrderStatus::Calculated)
    } else if text_is(t, "EXPIRED_IN_MATCH") {
        Some(OrderStatus::ExpiredInMatch)
    } else if text_is(t, "AMENDMENT") {
        Some(OrderStatus::Amendment)
    } else {
        None
    }
}

fn get_order_status(m: &Vec<(String, JsonValue)>, k: &str) -> (r: Result<OrderStatus, DecodeError>)
    ensures
        r is Ok <==> field_order_status(m@, k@) is Some,
        r matches Ok(v) ==> field_order_status(m@, k@) == Some(v),
        r matches Err(e) ==> e is FieldCoercion,
{
    match get_text(m, k) {
        Ok(t) => match parse_order_status(t.as_str()) {
            Some(v) => Ok(v),
            None => Err(coercion_error(k)),
        },
        Err(e) => Err(e),
    }
}

/// Price that triggers a stop order.
#[derive(Clone, Copy, Debug, PartialEq, Eq, Structural)]
pub enum WorkingType {
    MarkPrice,
    ContractPrice,
}

/// The variant that a wire name denotes.
pub open spec fn working_type_of(t: Seq<char>) -> Option<WorkingType> {
    if t == "MARK_PRICE"@ {
        Some(WorkingType::MarkPrice)
    } else if t == "CONTRACT_PRICE"@ {
        Some(WorkingType::ContractPrice)
    } else {
        None
    }
}

pub open spec fn field_working_type(m: Seq<(String, JsonValue)>, k: Seq<char>) -> Option<WorkingType> {
    match field_text(m, k) {
        Some(t) => working_type_of(t),
        None => None,
    }
}

pub fn parse_working_type(t: &str) -> (r: Option<WorkingType>)
    ensures
        r == working_type_of(t@),
{
    if text_is(t, "MARK_PRICE") {
        Some(WorkingType::MarkPrice)
    } else if text_is(t, "CONTRACT_PRICE") {
        Some(WorkingType::ContractPrice)
    } else {
        None
    }
}

fn get_working_type(m: &Vec<(String, JsonValue)>, k: &str) -> (r: Result<WorkingType, DecodeError>)
    ensures
        r is Ok <==> field_working_type(m@, k@) is Some,
        r matches Ok(v) ==> field_working_type(m@, k@) == Some(v),
        r matches Err(e) ==> e is FieldCoercion,
{
    match get_text(m, k) {
        Ok(t) => match parse_working_type(t.as_str()) {
            Some(v) => Ok(v),
            None => Err(coercion_error(k)),
        },
        Err(e) => Err(e),
    }
}

/// Side of a position.
#[derive(Clone, Copy, Debug, PartialEq, Eq, Structural)]
pub enum PositionSide {
    Both,
    Long,
    Short,
}

/// The variant that a wire name denotes.
pub open spec fn position_side_of(t: Seq<char>) -> Option<PositionSide> {
    if t == "BOTH"@ {
        Some(PositionSide::Both)
    } else if t == "LONG"@ {
        Some(PositionSide::Long)
    } else if t == "SHORT"@ {
        Some(PositionSide::Short)
    } else {
        None
    }
}

pub open spec fn field_position_side(m: Seq<(String, JsonValue)>, k: Seq<char>) -> Option<PositionSide> {
    match field_text(m, k) {
        Some(t) => position_side_of(t),
        None => None,
    }
}

pub fn parse_position_side(t: &str) -> (r: Option<PositionSide>)
    ensures
        r == position_side_of(t@),
{
    if text_is(t, "BOTH") {
        Some(PositionSide::Both)
    } else if text_is(t, "LONG") {
        Some(PositionSide::Long)
    } else if text_is(t, "SHORT") {
        Some(PositionSide::Short)
    } else {
        None
    }
}

fn get_position_side(m: &Vec<(String, JsonValue)>, k: &str) -> (r: Result<PositionSide, DecodeError>)
    ensures
        r is Ok <==> field_position_side(m@, k@) is Some,
        r matches Ok(v) ==> field_position_side(m@, k@) == Some(v),
        r matches Err(e) ==> e is FieldCoercion,
{
    match get_text(m, k) {
        Ok(t) => match parse_position_side(t.as_str()) {
            Some(v) => Ok(v),
            None => Err(coercion_error(k)),
        },
        Err(e) => Err(e),
    }
}

/// Why an account update was pushed.
#[derive(Clone, Copy, Debug, PartialEq, Eq, Structural)]
pub enum EventReasonType {
    Order,
    AutoExchange,
}

/// The variant that a wire name denotes.
pub open spec fn event_reason_type_of(t: Seq<char>) -> Option<EventReasonType> {
    if t == "ORDER"@ {
        Some(EventReasonType::Order)
    } else if t == "AUTOEXCHANGE"@ {
        Some(EventReasonType::AutoExchange)
    } else {
        None
    }
}

pub open spec fn field_event_reason_type(m: Seq<(String, JsonValue)>, k: Seq<char>) -> Option<EventReasonType> {
    match field_text(m, k) {
        Some(t) => event_reason_type_of(t),
        None => None,
    }
}

pub fn parse_event_reason_type(t: &str) -> (r: Option<EventReasonType>)
    ensures
        r == event_reason_type_of(t@),
{
    if text_is(t, "ORDER") {
        Some(EventReasonType::Order)
    } else if text_is(t, "AUTOEXCHANGE") {
        Some(EventReasonType::AutoExchange)
    } else {
        None
    }
}

fn get_event_reason_type(m: &Vec<(String, JsonValue)>, k: &str) -> (r: Result<EventReasonType, DecodeError>)
    ensures
        r is Ok <==> field_event_reason_type(m@, k@) is Some,
        r matches Ok(v) ==> field_event_reason_type(m@, k@) == Some(v),
        r matches Err(e) ==> e is FieldCoercion,
{
    match get_text(m, k) {
        Ok(t) => match parse_event_reason_type(t.as_str()) {
            Some(v) => Ok(v),
            None => Err(coercion_error(k)),
        },
        Err(e) => Err(e),
    }
}

/// A single trade (`trade`).
#[derive(Clone, Debug)]
pub struct TradeEvent {
    pub event_time: u64,
    pub symbol: String,
    pub trade_id: u64,
    pub price: Decimal,
    pub qty: Decimal,
    pub trade_order_time: u64,
    pub is_buyer_maker: bool,
}

/// Every field that a `TradeEvent` needs is present and readable.
pub open spec fn trade_event_ok(m: Seq<(String, JsonValue)>) -> bool {
    &&& field_u64(m, "E"@) is Some
    &&& field_text(m, "s"@) is Some
    &&& field_u64(m, "t"@) is Some
    &&& field_decimal(m, "p"@) is Some
    &&& field_decimal(m, "q"@) is Some
    &&& field_u64(m, "T"@) is Some
    &&& field_flag(m, "m"@) is Some
}

/// `v` holds what the fields say.
pub open spec fn trade_event_matches(v: TradeEvent, m: Seq<(String, JsonValue)>) -> bool {
    &&& field_u64(m, "E"@) == Some(v.event_time)
    &&& field_text(m, "s"@) == Some(v.symbol@)
    &&& field_u64(m, "t"@) == Some(v.trade_id)
    &&& field_decimal(m, "p"@) == Some(v.price)
    &&& field_decimal(m, "q"@) == Some(v.qty)
    &&& field_u64(m, "T"@) == Some(v.trade_order_time)
    &&& field_flag(m, "m"@) == Some(v.is_buyer_maker)
}

pub fn decode_trade_event(m: &Vec<(String, JsonValue)>) -> (r: Result<TradeEvent, DecodeError>)
    ensures
        r is Ok <==> trade_event_ok(m@),
        r matches Ok(v) ==> trade_event_matches(v, m@),
        r matches Err(e) ==> e is FieldCoercion,
{
    let event_time = match get_u64(m, "E") {
        Ok(x) => x,
        Err(e) => return Err(e),
    };
    let symbol = match get_text(m, "s") {
        Ok(x) => x,
        Err(e) => return Err(e),
    };
    let trade_id = match get_u64(m, "t") {
        Ok(x) => x,
        Err(e) => return Err(e),
    };
    let price = match get_decimal(m, "p") {
        Ok(x) => x,
        Err(e) => return Err(e),
    };
    let qty = match get_decimal(m, "q") {
        Ok(x) => x,
        Err(e) => return Err(e),
    };
    let trade_order_time = match get_u64(m, "T") {
        Ok(x) => x,
        Err(e) => return Err(e),
    };
    let is_buyer_maker = match get_flag(m, "m") {
        Ok(x) => x,
        Err(e) => return Err(e),
    };
    Ok(TradeEvent { event_time, symbol, trade_id, price, qty, trade_order_time, is_buyer_maker })
}

/// An aggregated trade (`aggTrade`).
#[derive(Clone, Debug)]
pub struct TradesEvent {
    pub event_time: u64,
    pub symbol: String,
    pub aggregated_trade_id: u64,
    pub price: Decimal,
    pub qty: Decimal,
    pub first_break_trade_id: u64,
    pub last_break_trade_id: u64,
    pub trade_order_time: u64,
    pub is_buyer_maker: bool,
}

/// Every field that a `TradesEvent` needs is present and readable.
pub open spec fn trades_event_ok(m: Seq<(String, JsonValue)>) -> bool {
    &&& field_u64(m, "E"@) is Some
    &&& field_text(m, "s"@) is Some
    &&& field_u64(m, "a"@) is Some
    &&& field_decimal(m, "p"@) is Some
    &&& field_decimal(m, "q"@) is Some
    &&& field_u64(m, "f"@) is Some
    &&& field_u64(m, "l"@) is Some
    &&& field_u64(m, "T"@) is Some
    &&& field_flag(m, "m"@) is Some
}

/// `v` holds what the fields say.
pub open spec fn trades_event_matches(v: TradesEvent, m: Seq<(String, JsonValue)>) -> bool {
    &&& field_u64(m, "E"@) == Some(v.event_time)
    &&& field_text(m, "s"@) == Some(v.symbol@)
    &&& field_u64(m, "a"@) == Some(v.aggregated_trade_id)
    &&& field_decimal(m, "p"@) == Some(v.price)
    &&& field_decimal(m, "q"@) == Some(v.qty)
    &&& field_u64(m, "f"@) == Some(v.first_break_trade_id)
    &&& field_u64(m, "l"@) == Some(v.last_break_trade_id)
    &&& field_u64(m, "T"@) == Some(v.trade_order_time)
    &&& field_flag(m, "m"@) == Some(v.is_buyer_maker)
}

pub fn decode_trades_event(m: &Vec<(String, JsonValue)>) -> (r: Result<TradesEvent, DecodeError>)
    ensures
        r is Ok <==> trades_event_ok(m@),
        r matches Ok(v) ==> trades_event_matches(v, m@),
        r matches Err(e) ==> e is FieldCoercion,
{
    let event_time = match get_u64(m, "E") {
        Ok(x) => x,
        Err(e) => return Err(e),
    };
    let symbol = match get_text(m, "s") {
        Ok(x) => x,
        Err(e) => return Err(e),
    };
    let aggregated_trade_id = match get_u64(m, "a") {
        Ok(x) => x,
        Err(e) => return Err(e),
    };
    let price = match get_decimal(m, "p") {
        Ok(x) => x,
        Err(e) => return Err(e),
    };
    let qty = match get_decimal(m, "q") {
        Ok(x) => x,
        Err(e) => return Err(e),
    };
    let first_break_trade_id = match get_u64(m, "f") {
        Ok(x) => x,
        Err(e) => return Err(e),
    };
    let last_break_trade_id = match get_u64(m, "l") {
        Ok(x) => x,
        Err(e) => return Err(e),
    };
    let trade_order_time = match get_u64(m, "T") {
        Ok(x) => x,
        Err(e) => return Err(e),
    };
    let is_buyer_maker = match get_flag(m, "m") {
        Ok(x) => x,
        Err(e) => return Err(e),
    };
    Ok(TradesEvent { event_time, symbol, aggregated_trade_id, price, qty, first_break_trade_id, last_break_trade_id, trade_order_time, is_buyer_maker })
}

/// One candle.
#[derive(Clone, Debug)]
pub struct Kline {
    pub start_time: u64,
    pub end_time: u64,
    pub symbol: String,
    pub interval: String,
    pub open: Decimal,
    pub close: Decimal,
    pub high: Decimal,
    pub low: Decimal,
    pub volume: Decimal,
    pub number_of_trades: u64,
    pub is_final_bar: bool,
    pub quote_volume: Decimal,
}

/// Every field that a `Kline` needs is present and readable.
pub open spec fn kline_ok(m: Seq<(String, JsonValue)>) -> bool {
    &&& field_u64(m, "t"@) is Some
    &&& field_u64(m, "T"@) is Some
    &&& field_text(m, "s"@) is Some
    &&& field_text(m, "i"@) is Some
    &&& field_decimal(m, "o"@) is Some
    &&& field_decimal(m, "c"@) is Some
    &&& field_decimal(m, "h"@) is Some
    &&& field_decimal(m, "l"@) is Some
    &&& field_decimal(m, "v"@) is Some
    &&& field_u64(m, "n"@) is Some
    &&& field_flag(m, "x"@) is Some
    &&& field_decimal(m, "q"@) is Some
}

/// `v` holds what the fields say.
pub open spec fn kline_matches(v: Kline, m: Seq<(String, JsonValue)>) -> bool {
    &&& field_u64(m, "t"@) == Some(v.start_time)
    &&& field_u64(m, "T"@) == Some(v.end_time)
    &&& field_text(m, "s"@) == Some(v.symbol@)
    &&& field_text(m, "i"@) == Some(v.interval@)
    &&& field_decimal(m, "o"@) == Some(v.open)
    &&& field_decimal(m, "c"@) == Some(v.close)
    &&& field_decimal(m, "h"@) == Some(v.high)
    &&& field_decimal(m, "l"@) == Some(v.low)
    &&& field_decimal(m, "v"@) == Some(v.volume)
    &&& field_u64(m, "n"@) == Some(v.number_of_trades)
    &&& field_flag(m, "x"@) == Some(v.is_final_bar)
    &&& field_decimal(m, "q"@) == Some(v.quote_volume)
}

pub fn decode_kline(m: &Vec<(String, JsonValue)>) -> (r: Result<Kline, DecodeError>)
    ensures
        r is Ok <==> kline_ok(m@),
        r matches Ok(v) ==> kline_matches(v, m@),
        r matches Err(e) ==> e is FieldCoercion,
{
    let start_time = match get_u64(m, "t") {
        Ok(x) => x,
        Err(e) => return Err(e),
    };
    let end_time = match get_u64(m, "T") {
        Ok(x) => x,
        Err(e) => return Err(e),
    };
    let symbol = match get_text(m, "s") {
        Ok(x) => x,
        Err(e) => return Err(e),
    };
    let interval = match get_text(m, "i") {
        Ok(x) => x,
        Err(e) => return Err(e),
    };
    let open = match get_decimal(m, "o") {
        Ok(x) => x,
        Err(e) => return Err(e),
    };
    let close = match get_decimal(m, "c") {
        Ok(x) => x,
        Err(e) => return Err(e),
    };
    let high = match get_decimal(m, "h") {
        Ok(x) => x,
        Err(e) => return Err(e),
    };
    let low = match get_decimal(m, "l") {
        Ok(x) => x,
        Err(e) => return Err(e),
    };
    let volume = match get_decimal(m, "v") {
        Ok(x) => x,
        Err(e) => return Err(e),
    };
    let number_of_trades = match get_u64(m, "n") {
        Ok(x) => x,
        Err(e) => return Err(e),
    };
    let is_final_bar = match get_flag(m, "x") {
        Ok(x) => x,
        Err(e) => return Err(e),
    };
    let quote_volume = match get_decimal(m, "q") {
        Ok(x) => x,
        Err(e) => return Err(e),
    };
    Ok(Kline { start_time, end_time, symbol, interval, open, close, high, low, volume, number_of_trades, is_final_bar, quote_volume })
}

/// A candle update (`kline`).
#[derive(Clone, Debug)]
pub struct KlineEvent {
    pub event_time: u64,
    pub symbol: String,
    pub kline: Kline,
}

/// Every field that a `KlineEvent` needs is present and readable.
pub open spec fn kline_event_ok(m: Seq<(String, JsonValue)>) -> bool {
    &&& field_u64(m, "E"@) is Some
    &&& field_text(m, "s"@) is Some
    &&& (field_object(m, "k"@) matches Some(o) && kline_ok(o))
}

/// `v` holds what the fields say.
pub open spec fn kline_event_matches(v: KlineEvent, m: Seq<(String, JsonValue)>) -> bool {
    &&& field_u64(m, "E"@) == Some(v.event_time)
    &&& field_text(m, "s"@) == Some(v.symbol@)
    &&& (field_object(m, "k"@) matches Some(o) && kline_matches(v.kline, o))
}

pub fn decode_kline_event(m: &Vec<(String, JsonValue)>) -> (r: Result<KlineEvent, DecodeError>)
    ensures
        r is Ok <==> kline_event_ok(m@),
        r matches Ok(v) ==> kline_event_matches(v, m@),
        r matches Err(e) ==> e is FieldCoercion,
{
    let event_time = match get_u64(m, "E") {
        Ok(x) => x,
        Err(e) => return Err(e),
    };
    let symbol = match get_text(m, "s") {
        Ok(x) => x,
        Err(e) => return Err(e),
    };
    let kline = match get_object(m, "k") {
        Ok(o) => match decode_kline(o) {
            Ok(x) => x,
            Err(e) => return Err(e),
        },
        Err(e) => return Err(e),
    };
    Ok(KlineEvent { event_time, symbol, kline })
}

/// Rolling 24 hour statistics (`24hrTicker`).
#[derive(Clone, Debug)]
pub struct DayTickerEvent {
    pub event_time: u64,
    pub symbol: String,
    pub price_change: Decimal,
    pub price_change_percent: Decimal,
    pub average_price: Decimal,
    pub current_close: Decimal,
    pub current_close_qty: Decimal,
    pub open: Decimal,
    pub high: Decimal,
    pub low: Decimal,
    pub volume: Decimal,
    pub quote_volume: Decimal,
    pub open_time: u64,
    pub close_time: u64,
    pub first_trade_id: i64,
    pub last_trade_id: i64,
    pub num_trades: u64,
}

/// Every field that a `DayTickerEvent` needs is present and readable.
pub open spec fn day_ticker_event_ok(m: Seq<(String, JsonValue)>) -> bool {
    &&& field_u64(m, "E"@) is Some
    &&& field_text(m, "s"@) is Some
    &&& field_decimal(m, "p"@) is Some
    &&& field_decimal(m, "P"@) is Some
    &&& field_decimal(m, "w"@) is Some
    &&& field_decimal(m, "c"@) is Some
    &&& field_decimal(m, "Q"@) is Some
    &&& field_decimal(m, "o"@) is Some
    &&& field_decimal(m, "h"@) is Some
    &&& field_decimal(m, "l"@) is Some
    &&& field_decimal(m, "v"@) is Some
    &&& field_decimal(m, "q"@) is Some
    &&& field_u64(m, "O"@) is Some
    &&& field_u64(m, "C"@) is Some
    &&& field_i64(m, "F"@) is Some
    &&& field_i64(m, "L"@) is Some
    &&& field_u64(m, "n"@) is Some
}

/// `v` holds what the fields say.
pub open spec fn day_ticker_event_matches(v: DayTickerEvent, m: Seq<(String, JsonValue)>) -> bool {
    &&& field_u64(m, "E"@) == Some(v.event_time)
    &&& field_text(m, "s"@) == Some(v.symbol@)
    &&& field_decimal(m, "p"@) == Some(v.price_change)
    &&& field_decimal(m, "P"@) == Some(v.price_change_percent)
    &&& field_decimal(m, "w"@) == Some(v.average_price)
    &&& field_decimal(m, "c"@) == Some(v.current_close)
    &&& field_decimal(m, "Q"@) == Some(v.current_close_qty)
    &&& field_decimal(m, "o"@) == Some(v.open)
    &&& field_decimal(m, "h"@) == Some(v.high)
    &&& field_decimal(m, "l"@) == Some(v.low)
    &&& field_decimal(m, "v"@) == Some(v.volume)
    &&& field_decimal(m, "q"@) == Some(v.quote_volume)
    &&& field_u64(m, "O"@) == Some(v.open_time)
    &&& field_u64(m, "C"@) == Some(v.close_time)
    &&& field_i64(m, "F"@) == Some(v.first_trade_id)
    &&& field_i64(m, "L"@) == Some(v.last_trade_id)
    &&& field_u64(m, "n"@) == Some(v.num_trades)
}

pub fn decode_day_ticker_event(m: &Vec<(String, JsonValue)>) -> (r: Result<DayTickerEvent, DecodeError>)
    ensures
        r is Ok <==> day_ticker_event_ok(m@),
        r matches Ok(v) ==> day_ticker_event_matches(v, m@),
        r matches Err(e) ==> e is FieldCoercion,
{
    let event_time = match get_u64(m, "E") {
        Ok(x) => x,
        Err(e) => return Err(e),
    };
    let symbol = match get_text(m, "s") {
        Ok(x) => x,
        Err(e) => return Err(e),
    };
    let price_change = match get_decimal(m, "p") {
        Ok(x) => x,
        Err(e) => return Err(e),
    };
    let price_change_percent = match get_decimal(m, "P") {
        Ok(x) => x,
        Err(e) => return Err(e),
    };
    let average_price = match get_decimal(m, "w") {
        Ok(x) => x,
        Err(e) => return Err(e),
    };
    let current_close = match get_decimal(m, "c") {
        Ok(x) => x,
        Err(e) => return Err(e),
    };
    let current_close_qty = match get_decimal(m, "Q") {
        Ok(x) => x,
        Err(e) => return Err(e),
    };
    let open = match get_decimal(m, "o") {
        Ok(x) => x,
        Err(e) => return Err(e),
    };
    let high = match get_decimal(m, "h") {
        Ok(x) => x,
        Err(e) => return Err(e),
    };
    let low = match get_decimal(m, "l") {
        Ok(x) => x,
        Err(e) => return Err(e),
    };
    let volume = match get_decimal(m, "v") {
        Ok(x) => x,
        Err(e) => return Err(e),
    };
    let quote_volume = match get_decimal(m, "q") {
        Ok(x) => x,
        Err(e) => return Err(e),
    };
    let open_time = match get_u64(m, "O") {
        Ok(x) => x,
        Err(e) => return Err(e),
    };
    let close_time = match get_u64(m, "C") {
        Ok(x) => x,
        Err(e) => return Err(e),
    };
    let first_trade_id = match get_i64(m, "F") {
        Ok(x) => x,
        Err(e) => return Err(e),
    };
    let last_trade_id = match get_i64(m, "L") {
        Ok(x) => x,
        Err(e) => return Err(e),
    };
    let num_trades = match get_u64(m, "n") {
        Ok(x) => x,
        Err(e) => return Err(e),
    };
    Ok(DayTickerEvent { event_time, symbol, price_change, price_change_percent, average_price, current_close, current_close_qty, open, high, low, volume, quote_volume, open_time, close_time, first_trade_id, last_trade_id, num_trades })
}

/// Condensed rolling 24 hour statistics (`24hrMiniTicker`).
#[derive(Clone, Debug)]
pub struct MiniDayTickerEvent {
    pub event_time: u64,
    pub symbol: String,
    pub close: Decimal,
    pub open: Decimal,
    pub high: Decimal,
    pub low: Decimal,
    pub volume: Decimal,
    pub quote_volume: Decimal,
}

/// Every field that a `MiniDayTickerEvent` needs is present and readable.
pub open spec fn mini_day_ticker_event_ok(m: Seq<(String, JsonValue)>) -> bool {
    &&& field_u64(m, "E"@) is Some
    &&& field_text(m, "s"@) is Some
    &&& field_decimal(m, "c"@) is Some
    &&& field_decimal(m, "o"@) is Some
    &&& field_decimal(m, "h"@) is Some
    &&& field_decimal(m, "l"@) is Some
    &&& field_decimal(m, "v"@) is Some
    &&& field_decimal(m, "q"@) is Some
}

/// `v` holds what the fields say.
pub open spec fn mini_day_ticker_event_matches(v: MiniDayTickerEvent, m: Seq<(String, JsonValue)>) -> bool {
    &&& field_u64(m, "E"@) == Some(v.event_time)
    &&& field_text(m, "s"@) == Some(v.symbol@)
    &&& field_decimal(m, "c"@) == Some(v.close)
    &&& field_decimal(m, "o"@) == Some(v.open)
    &&& field_decimal(m, "h"@) == Some(v.high)
    &&& field_decimal(m, "l"@) == Some(v.low)
    &&& field_decimal(m, "v"@) == Some(v.volume)
    &&& field_decimal(m, "q"@) == Some(v.quote_volume)
}

pub fn decode_mini_day_ticker_event(m: &Vec<(String, JsonValue)>) -> (r: Result<MiniDayTickerEvent, DecodeError>)
    ensures
        r is Ok <==> mini_day_ticker_event_ok(m@),
        r matches Ok(v) ==> mini_day_ticker_event_matches(v, m@),
        r matches Err(e) ==> e is FieldCoercion,
{
    let event_time = match get_u64(m, "E") {
        Ok(x) => x,
        Err(e) => return Err(e),
    };
    let symbol = match get_text(m, "s") {
        Ok(x) => x,
        Err(e) => return Err(e),
    };
    let close = match get_decimal(m, "c") {
        Ok(x) => x,
        Err(e) => return Err(e),
    };
    let open = match get_decimal(m, "o") {
        Ok(x) => x,
        Err(e) => return Err(e),
    };
    let high = match get_decimal(m, "h") {
        Ok(x) => x,
        Err(e) => return Err(e),
    };
    let low = match get_decimal(m, "l") {
        Ok(x) => x,
        Err(e) => return Err(e),
    };
    let volume = match get_decimal(m, "v") {
        Ok(x) => x,
        Err(e) => return Err(e),
    };
    let quote_volume = match get_decimal(m, "q") {
        Ok(x) => x,
        Err(e) => return Err(e),
    };
    Ok(MiniDayTickerEvent { event_time, symbol, close, open, high, low, volume, quote_volume })
}

/// A change of the order book (`depthUpdate`).
#[derive(Clone, Debug)]
pub struct DepthOrderBookEvent {
    pub event_time: u64,
    pub symbol: String,
    pub first_update_id: u64,
    pub final_update_id: u64,
    pub bids: Vec<PriceLevel>,
    pub asks: Vec<PriceLevel>,
}

/// Every field that a `DepthOrderBookEvent` needs is present and readable.
pub open spec fn depth_order_book_event_ok(m: Seq<(String, JsonValue)>) -> bool {
    &&& field_u64(m, "E"@) is Some
    &&& field_text(m, "s"@) is Some
    &&& field_u64(m, "U"@) is Some
    &&& field_u64(m, "u"@) is Some
    &&& (field_array(m, "b"@) matches Some(a) && levels_ok(a))
    &&& (field_array(m, "a"@) matches Some(a) && levels_ok(a))
}

/// `v` holds what the fields say.
pub open spec fn depth_order_book_event_matches(v: DepthOrderBookEvent, m: Seq<(String, JsonValue)>) -> bool {
    &&& field_u64(m, "E"@) == Some(v.event_time)
    &&& field_text(m, "s"@) == Some(v.symbol@)
    &&& field_u64(m, "U"@) == Some(v.first_update_id)
    &&& field_u64(m, "u"@) == Some(v.final_update_id)
    &&& (field_array(m, "b"@) matches Some(a) && levels_match(v.bids@, a))
    &&& (field_array(m, "a"@) matches Some(a) && levels_match(v.asks@, a))
}

pub fn decode_depth_order_book_event(m: &Vec<(String, JsonValue)>) -> (r: Result<DepthOrderBookEvent, DecodeError>)
    ensures
        r is Ok <==> depth_order_book_event_ok(m@),
        r matches Ok(v) ==> depth_order_book_event_matches(v, m@),
        r matches Err(e) ==> e is FieldCoercion,
{
    let event_time = match get_u64(m, "E") {
        Ok(x) => x,
        Err(e) => return Err(e),
    };
    let symbol = match get_text(m, "s") {
        Ok(x) => x,
        Err(e) => return Err(e),
    };
    let first_update_id = match get_u64(m, "U") {
        Ok(x) => x,
        Err(e) => return Err(e),
    };
    let final_update_id = match get_u64(m, "u") {
        Ok(x) => x,
        Err(e) => return Err(e),
    };
    let bids = match get_array(m, "b") {
        Ok(a) => match decode_levels(a, "b") {
            Ok(x) => x,
            Err(e) => return Err(e),
        },
        Err(e) => return Err(e),
    };
    let asks = match get_array(m, "a") {
        Ok(a) => match decode_levels(a, "a") {
            Ok(x) => x,
            Err(e) => return Err(e),
        },
        Err(e) => return Err(e),
    };
    Ok(DepthOrderBookEvent { event_time, symbol, first_update_id, final_update_id, bids, asks })
}

/// One asset's balance in a position update.
#[derive(Clone, Debug)]
pub struct EventBalance {
    pub asset: String,
    pub free: Decimal,
    pub locked: Decimal,
}

/// Every field that a `EventBalance` needs is present and readable.
pub open spec fn event_balance_ok(m: Seq<(String, JsonValue)>) -> bool {
    &&& field_text(m, "a"@) is Some
    &&& field_decimal(m, "f"@) is Some
    &&& field_decimal(m, "l"@) is Some
}

/// `v` holds what the fields say.
pub open spec fn event_balance_matches(v: EventBalance, m: Seq<(String, JsonValue)>) -> bool {
    &&& field_text(m, "a"@) == Some(v.asset@)
    &&& field_decimal(m, "f"@) == Some(v.free)
    &&& field_decimal(m, "l"@) == Some(v.locked)
}

pub fn decode_event_balance(m: &Vec<(String, JsonValue)>) -> (r: Result<EventBalance, DecodeError>)
    ensures
        r is Ok <==> event_balance_ok(m@),
        r matches Ok(v) ==> event_balance_matches(v, m@),
        r matches Err(e) ==> e is FieldCoercion,
{
    let asset = match get_text(m, "a") {
        Ok(x) => x,
        Err(e) => return Err(e),
    };
    let free = match get_decimal(m, "f") {
        Ok(x) => x,
        Err(e) => return Err(e),
    };
    let locked = match get_decimal(m, "l") {
        Ok(x) => x,
        Err(e) => return Err(e),
    };
    Ok(EventBalance { asset, free, locked })
}

/// Balances that changed (`outboundAccountPosition`).
#[derive(Clone, Debug)]
pub struct AccountPositionUpdate {
    pub event_time: u64,
    pub last_update_time: u64,
    pub balances: Vec<EventBalance>,
}

/// Every field that a `AccountPositionUpdate` needs is present and readable.
pub open spec fn account_position_update_ok(m: Seq<(String, JsonValue)>) -> bool {
    &&& field_u64(m, "E"@) is Some
    &&& field_u64(m, "u"@) is Some
    &&& (field_array(m, "B"@) matches Some(a) && event_balance_list_ok(a))
}

/// `v` holds what the fields say.
pub open spec fn account_position_update_matches(v: AccountPositionUpdate, m: Seq<(String, JsonValue)>) -> bool {
    &&& field_u64(m, "E"@) == Some(v.event_time)
    &&& field_u64(m, "u"@) == Some(v.last_update_time)
    &&& (field_array(m, "B"@) matches Some(a) && event_balance_list_matches(v.balances@, a))
}

pub fn decode_account_position_update(m: &Vec<(String, JsonValue)>) -> (r: Result<AccountPositionUpdate, DecodeError>)
    ensures
        r is Ok <==> account_position_update_ok(m@),
        r matches Ok(v) ==> account_position_update_matches(v, m@),
        r matches Err(e) ==> e is FieldCoercion,
{
    let event_time = match get_u64(m, "E") {
        Ok(x) => x,
        Err(e) => return Err(e),
    };
    let last_update_time = match get_u64(m, "u") {
        Ok(x) => x,
        Err(e) => return Err(e),
    };
    let balances = match get_array(m, "B") {
        Ok(a) => match decode_event_balance_list(a, "B") {
            Ok(x) => x,
            Err(e) => return Err(e),
        },
        Err(e) => return Err(e),
    };
    Ok(AccountPositionUpdate { event_time, last_update_time, balances })
}

/// A deposit, withdrawal or transfer (`balanceUpdate`).
#[derive(Clone, Debug)]
pub struct BalanceUpdate {
    pub event_time: u64,
    pub asset: String,
    pub delta: Decimal,
    pub clear_time: u64,
}

/// Every field that a `BalanceUpdate` needs is present and readable.
pub open spec fn balance_update_ok(m: Seq<(String, JsonValue)>) -> bool {
    &&& field_u64(m, "E"@) is Some
    &&& field_text(m, "a"@) is Some
    &&& field_decimal(m, "d"@) is Some
    &&& field_u64(m, "T"@) is Some
}

/// `v` holds what the fields say.
pub open spec fn balance_update_matches(v: BalanceUpdate, m: Seq<(String, JsonValue)>) -> bool {
    &&& field_u64(m, "E"@) == Some(v.event_time)
    &&& field_text(m, "a"@) == Some(v.asset@)
    &&& field_decimal(m, "d"@) == Some(v.delta)
    &&& field_u64(m, "T"@) == Some(v.clear_time)
}

pub fn decode_balance_update(m: &Vec<(String, JsonValue)>) -> (r: Result<BalanceUpdate, DecodeError>)
    ensures
        r is Ok <==> balance_update_ok(m@),
        r matches Ok(v) ==> balance_update_matches(v, m@),
        r matches Err(e) ==> e is FieldCoercion,
{
    let event_time = match get_u64(m, "E") {
        Ok(x) => x,
        Err(e) => return Err(e),
    };
    let asset = match get_text(m, "a") {
        Ok(x) => x,
        Err(e) => return Err(e),
    };
    let delta = match get_decimal(m, "d") {
        Ok(x) => x,
        Err(e) => return Err(e),
    };
    let clear_time = match get_u64(m, "T") {
        Ok(x) => x,
        Err(e) => return Err(e),
    };
    Ok(BalanceUpdate { event_time, asset, delta, clear_time })
}

/// An order's execution report (`executionReport`).
#[derive(Clone, Debug)]
pub struct OrderUpdate {
    pub event_time: u64,
    pub symbol: String,
    pub client_order_id: Option<String>,
    pub side: OrderSide,
    pub order_type: OrderType,
    pub time_in_force: TimeInForce,
    pub qty: Decimal,
    pub price: Decimal,
    pub stop_price: Decimal,
    pub execution_type: OrderStatus,
    pub order_status: OrderStatus,
    pub order_id: u64,
    pub qty_last_executed: Decimal,
    pub cumulative_filled_qty: Decimal,
    pub last_executed_price: Decimal,
    pub commission: Decimal,
    pub commission_asset: Option<String>,
    pub trade_order_time: u64,
    pub trade_id: i64,
    pub is_maker: bool,
}

/// Every field that a `OrderUpdate` needs is present and readable.
pub open spec fn order_update_ok(m: Seq<(String, JsonValue)>) -> bool {
    &&& field_u64(m, "E"@) is Some
    &&& field_text(m, "s"@) is Some
    &&& field_opt_text(m, "c"@) is Some
    &&& field_order_side(m, "S"@) is Some
    &&& field_order_type(m, "o"@) is Some
    &&& field_time_in_force(m, "f"@) is Some
    &&& field_decimal(m, "q"@) is Some
    &&& field_decimal(m, "p"@) is Some
    &&& field_decimal(m, "P"@) is Some
    &&& field_order_status(m, "x"@) is Some
    &&& field_order_status(m, "X"@) is Some
    &&& field_u64(m, "i"@) is Some
    &&& field_decimal(m, "l"@) is Some
    &&& field_decimal(m, "z"@) is Some
    &&& field_decimal(m, "L"@) is Some
    &&& field_decimal(m, "n"@) is Some
    &&& field_opt_text(m, "N"@) is Some
    &&& field_u64(m, "T"@) is Some
    &&& field_i64(m, "t"@) is Some
    &&& field_flag(m, "m"@) is Some
}

/// `v` holds what the fields say.
pub open spec fn order_update_matches(v: OrderUpdate, m: Seq<(String, JsonValue)>) -> bool {
    &&& field_u64(m, "E"@) == Some(v.event_time)
    &&& field_text(m, "s"@) == Some(v.symbol@)
    &&& field_opt_text(m, "c"@) == Some(opt_view(v.client_order_id))
    &&& field_order_side(m, "S"@) == Some(v.side)
    &&& field_order_type(m, "o"@) == Some(v.order_type)
    &&& field_time_in_force(m, "f"@) == Some(v.time_in_force)
    &&& field_decimal(m, "q"@) == Some(v.qty)
    &&& field_decimal(m, "p"@) == Some(v.price)
    &&& field_decimal(m, "P"@) == Some(v.stop_price)
    &&& field_order_status(m, "x"@) == Some(v.execution_type)
    &&& field_order_status(m, "X"@) == Some(v.order_status)
    &&& field_u64(m, "i"@) == Some(v.order_id)
    &&& field_decimal(m, "l"@) == Some(v.qty_last_executed)
    &&& field_decimal(m, "z"@) == Some(v.cumulative_filled_qty)
    &&& field_decimal(m, "L"@) == Some(v.last_executed_price)
    &&& field_decimal(m, "n"@) == Some(v.commission)
    &&& field_opt_text(m, "N"@) == Some(opt_view(v.commission_asset))
    &&& field_u64(m, "T"@) == Some(v.trade_order_time)
    &&& field_i64(m, "t"@) == Some(v.trade_id)
    &&& field_flag(m, "m"@) == Some(v.is_maker)
}

pub fn decode_order_update(m: &Vec<(String, JsonValue)>) -> (r: Result<OrderUpdate, DecodeError>)
    ensures
        r is Ok <==> order_update_ok(m@),
        r matches Ok(v) ==> order_update_matches(v, m@),
        r matches Err(e) ==> e is FieldCoercion,
{
    let event_time = match get_u64(m, "E") {
        Ok(x) => x,
        Err(e) => return Err(e),
    };
    let symbol = match get_text(m, "s") {
        Ok(x) => x,
        Err(e) => return Err(e),
    };
    let client_order_id = match get_opt_text(m, "c") {
        Ok(x) => x,
        Err(e) => return Err(e),
    };
    let side = match get_order_side(m, "S") {
        Ok(x) => x,
        Err(e) => return Err(e),
    };
    let order_type = match get_order_type(m, "o") {
        Ok(x) => x,
        Err(e) => return Err(e),
    };
    let time_in_force = match get_time_in_force(m, "f") {
        Ok(x) => x,
        Err(e) => return Err(e),
    };
    let qty = match get_decimal(m, "q") {
        Ok(x) => x,
        Err(e) => return Err(e),
    };
    let price = match get_decimal(m, "p") {
        Ok(x) => x,
        Err(e) => return Err(e),
    };
    let stop_price = match get_decimal(m, "P") {
        Ok(x) => x,
        Err(e) => return Err(e),
    };
    let execution_type = match get_order_status(m, "x") {
        Ok(x) => x,
        Err(e) => return Err(e),
    };
    let order_status = match get_order_status(m, "X") {
        Ok(x) => x,
        Err(e) => return Err(e),
    };
    let order_id = match get_u64(m, "i") {
        Ok(x) => x,
        Err(e) => return Err(e),
    };
    let qty_last_executed = match get_decimal(m, "l") {
        Ok(x) => x,
        Err(e) => return Err(e),
    };
    let cumulative_filled_qty = match get_decimal(m, "z") {
        Ok(x) => x,
        Err(e) => return Err(e),
    };
    let last_executed_price = match get_decimal(m, "L") {
        Ok(x) => x,
        Err(e) => return Err(e),
    };
    let commission = match get_decimal(m, "n") {
        Ok(x) => x,
        Err(e) => return Err(e),
    };
    let commission_asset = match get_opt_text(m, "N") {
        Ok(x) => x,
        Err(e) => return Err(e),
    };
    let trade_order_time = match get_u64(m, "T") {
        Ok(x) => x,
        Err(e) => return Err(e),
    };
    let trade_id = match get_i64(m, "t") {
        Ok(x) => x,
        Err(e) => return Err(e),
    };
    let is_maker = match get_flag(m, "m") {
        Ok(x) => x,
        Err(e) => return Err(e),
    };
    Ok(OrderUpdate { event_time, symbol, client_order_id, side, order_type, time_in_force, qty, price, stop_price, execution_type, order_status, order_id, qty_last_executed, cumulative_filled_qty, last_executed_price, commission, commission_asset, trade_order_time, trade_id, is_maker })
}

/// One order of an order list.
#[derive(Clone, Debug)]
pub struct OrderListTransaction {
    pub symbol: String,
    pub order_id: u64,
    pub client_order_id: String,
}

/// Every field that a `OrderListTransaction` needs is present and readable.
pub open spec fn order_list_transaction_ok(m: Seq<(String, JsonValue)>) -> bool {
    &&& field_text(m, "s"@) is Some
    &&& field_u64(m, "i"@) is Some
    &&& field_text(m, "c"@) is Some
}

/// `v` holds what the fields say.
pub open spec fn order_list_transaction_matches(v: OrderListTransaction, m: Seq<(String, JsonValue)>) -> bool {
    &&& field_text(m, "s"@) == Some(v.symbol@)
    &&& field_u64(m, "i"@) == Some(v.order_id)
    &&& field_text(m, "c"@) == Some(v.client_order_id@)
}

pub fn decode_order_list_transaction(m: &Vec<(String, JsonValue)>) -> (r: Result<OrderListTransaction, DecodeError>)
    ensures
        r is Ok <==> order_list_transaction_ok(m@),
        r matches Ok(v) ==> order_list_transaction_matches(v, m@),
        r matches Err(e) ==> e is FieldCoercion,
{
    let symbol = match get_text(m, "s") {
        Ok(x) => x,
        Err(e) => return Err(e),
    };
    let order_id = match get_u64(m, "i") {
        Ok(x) => x,
        Err(e) => return Err(e),
    };
    let client_order_id = match get_text(m, "c") {
        Ok(x) => x,
        Err(e) => return Err(e),
    };
    Ok(OrderListTransaction { symbol, order_id, client_order_id })
}

/// An order list's status (`listStatus`).
#[derive(Clone, Debug)]
pub struct OrderListUpdate {
    pub event_time: u64,
    pub symbol: String,
    pub order_list_id: u64,
    pub contingency_type: String,
    pub list_status_type: String,
    pub list_order_status: String,
    pub list_reject_reason: String,
    pub list_client_order_id: String,
    pub transaction_time: u64,
    pub orders: Vec<OrderListTransaction>,
}

/// Every field that a `OrderListUpdate` needs is present and readable.
pub open spec fn order_list_update_ok(m: Seq<(String, JsonValue)>) -> bool {
    &&& field_u64(m, "E"@) is Some
    &&& field_text(m, "s"@) is Some
    &&& field_u64(m, "g"@) is Some
    &&& field_text(m, "c"@) is Some
    &&& field_text(m, "l"@) is Some
    &&& field_text(m, "L"@) is Some
    &&& field_text(m, "r"@) is Some
    &&& field_text(m, "C"@) is Some
    &&& field_u64(m, "T"@) is Some
    &&& (field_array(m, "O"@) matches Some(a) && order_list_transaction_list_ok(a))
}

/// `v` holds what the fields say.
pub open spec fn order_list_update_matches(v: OrderListUpdate, m: Seq<(String, JsonValue)>) -> bool {
    &&& field_u64(m, "E"@) == Some(v.event_time)
    &&& field_text(m, "s"@) == Some(v.symbol@)
    &&& field_u64(m, "g"@) == Some(v.order_list_id)
    &&& field_text(m, "c"@) == Some(v.contingency_type@)
    &&& field_text(m, "l"@) == Some(v.list_status_type@)
    &&& field_text(m, "L"@) == Some(v.list_order_status@)
    &&& field_text(m, "r"@) == Some(v.list_reject_reason@)
    &&& field_text(m, "C"@) == Some(v.list_client_order_id@)
    &&& field_u64(m, "T"@) == Some(v.transaction_time)
    &&& (field_array(m, "O"@) matches Some(a) && order_list_transaction_list_matches(v.orders@, a))
}

pub fn decode_order_list_update(m: &Vec<(String, JsonValue)>) -> (r: Result<OrderListUpdate, DecodeError>)
    ensures
        r is Ok <==> order_list_update_ok(m@),
        r matches Ok(v) ==> order_list_update_matches(v, m@),
        r matches Err(e) ==> e is FieldCoercion,
{
    let event_time = match get_u64(m, "E") {
        Ok(x) => x,
        Err(e) => return Err(e),
    };
    let symbol = match get_text(m, "s") {
        Ok(x) => x,
        Err(e) => return Err(e),
    };
    let order_list_id = match get_u64(m, "g") {
        Ok(x) => x,
        Err(e) => return Err(e),
    };
    let contingency_type = match get_text(m, "c") {
        Ok(x) => x,
        Err(e) => return Err(e),
    };
    let list_status_type = match get_text(m, "l") {
        Ok(x) => x,
        Err(e) => return Err(e),
    };
    let list_order_status = match get_text(m, "L") {
        Ok(x) => x,
        Err(e) => return Err(e),
    };
    let list_reject_reason = match get_text(m, "r") {
        Ok(x) => x,
        Err(e) => return Err(e),
    };
    let list_client_order_id = match get_text(m, "C") {
        Ok(x) => x,
        Err(e) => return Err(e),
    };
    let transaction_time = match get_u64(m, "T") {
        Ok(x) => x,
        Err(e) => return Err(e),
    };
    let orders = match get_array(m, "O") {
        Ok(a) => match decode_order_list_transaction_list(a, "O") {
            Ok(x) => x,
            Err(e) => return Err(e),
        },
        Err(e) => return Err(e),
    };
    Ok(OrderListUpdate { event_time, symbol, order_list_id, contingency_type, list_status_type, list_order_status, list_reject_reason, list_client_order_id, transaction_time, orders })
}

/// The order carried by a futures order update.
#[derive(Clone, Debug)]
pub struct OrderTradeUpdateInner {
    pub symbol: String,
    pub client_order_id: Option<String>,
    pub side: OrderSide,
    pub order_type: OrderType,
    pub time_in_force: TimeInForce,
    pub qty: Decimal,
    pub price: Decimal,
    pub avg_price: Decimal,
    pub stop_price: Decimal,
    pub execution_type: OrderStatus,
    pub order_status: OrderStatus,
    pub order_id: u64,
    pub qty_last_executed: Decimal,
    pub cumulative_filled_qty: Decimal,
    pub last_executed_price: Decimal,
    pub commission: Decimal,
    pub commission_asset: Option<String>,
    pub trade_order_time: u64,
    pub trade_id: i64,
    pub bids_notional: Decimal,
    pub asks_notional: Decimal,
    pub is_maker: bool,
    pub is_reduce: bool,
    pub sp_working_type: WorkingType,
    pub orig_type: OrderType,
    pub position_side: PositionSide,
    pub is_push_conditional: bool,
    pub realized_profit_ignore: Decimal,
    pub pp_ignore: bool,
    pub si_ignore: i64,
    pub ss_ignore: i64,
}

/// Every field that a `OrderTradeUpdateInner` needs is present and readable.
pub open spec fn order_trade_update_inner_ok(m: Seq<(String, JsonValue)>) -> bool {
    &&& field_text(m, "s"@) is Some
    &&& field_opt_text(m, "c"@) is Some
    &&& field_order_side(m, "S"@) is Some
    &&& field_order_type(m, "o"@) is Some
    &&& field_time_in_force(m, "f"@) is Some
    &&& field_decimal(m, "q"@) is Some
    &&& field_decimal(m, "p"@) is Some
    &&& field_decimal(m, "ap"@) is Some
    &&& field_decimal(m, "sp"@) is Some
    &&& field_order_status(m, "x"@) is Some
    &&& field_order_status(m, "X"@) is Some
    &&& field_u64(m, "i"@) is Some
    &&& field_decimal(m, "l"@) is Some
    &&& field_decimal(m, "z"@) is Some
    &&& field_decimal(m, "L"@) is Some
    &&& field_decimal(m, "n"@) is Some
    &&& field_opt_text(m, "N"@) is Some
    &&& field_u64(m, "T"@) is Some
    &&& field_i64(m, "t"@) is Some
    &&& field_decimal(m, "b"@) is Some
    &&& field_decimal(m, "a"@) is Some
    &&& field_flag(m, "m"@) is Some
    &&& field_flag(m, "R"@) is Some
    &&& field_working_type(m, "wt"@) is Some
    &&& field_order_type(m, "ot"@) is Some
    &&& field_position_side(m, "ps"@) is Some
    &&& field_flag(m, "cp"@) is Some
    &&& field_decimal(m, "rp"@) is Some
    &&& field_flag(m, "pP"@) is Some
    &&& field_i64(m, "si"@) is Some
    &&& field_i64(m, "ss"@) is Some
}

/// `v` holds what the fields say.
pub open spec fn order_trade_update_inner_matches(v: OrderTradeUpdateInner, m: Seq<(String, JsonValue)>) -> bool {
    &&& field_text(m, "s"@) == Some(v.symbol@)
    &&& field_opt_text(m, "c"@) == Some(opt_view(v.client_order_id))
    &&& field_order_side(m, "S"@) == Some(v.side)
    &&& field_order_type(m, "o"@) == Some(v.order_type)
    &&& field_time_in_force(m, "f"@) == Some(v.time_in_force)
    &&& field_decimal(m, "q"@) == Some(v.qty)
    &&& field_decimal(m, "p"@) == Some(v.price)
    &&& field_decimal(m, "ap"@) == Some(v.avg_price)
    &&& field_decimal(m, "sp"@) == Some(v.stop_price)
    &&& field_order_status(m, "x"@) == Some(v.execution_type)
    &&& field_order_status(m, "X"@) == Some(v.order_status)
    &&& field_u64(m, "i"@) == Some(v.order_id)
    &&& field_decimal(m, "l"@) == Some(v.qty_last_executed)
    &&& field_decimal(m, "z"@) == Some(v.cumulative_filled_qty)
    &&& field_decimal(m, "L"@) == Some(v.last_executed_price)
    &&& field_decimal(m, "n"@) == Some(v.commission)
    &&& field_opt_text(m, "N"@) == Some(opt_view(v.commission_asset))
    &&& field_u64(m, "T"@) == Some(v.trade_order_time)
    &&& field_i64(m, "t"@) == Some(v.trade_id)
    &&& field_decimal(m, "b"@) == Some(v.bids_notional)
    &&& field_decimal(m, "a"@) == Some(v.asks_notional)
    &&& field_flag(m, "m"@) == Some(v.is_maker)
    &&& field_flag(m, "R"@) == Some(v.is_reduce)
    &&& field_working_type(m, "wt"@) == Some(v.sp_working_type)
    &&& field_order_type(m, "ot"@) == Some(v.orig_type)
    &&& field_position_side(m, "ps"@) == Some(v.position_side)
    &&& field_flag(m, "cp"@) == Some(v.is_push_conditional)
    &&& field_decimal(m, "rp"@) == Some(v.realized_profit_ignore)
    &&& field_flag(m, "pP"@) == Some(v.pp_ignore)
    &&& field_i64(m, "si"@) == Some(v.si_ignore)
    &&& field_i64(m, "ss"@) == Some(v.ss_ignore)
}

pub fn decode_order_trade_update_inner(m: &Vec<(String, JsonValue)>) -> (r: Result<OrderTradeUpdateInner, DecodeError>)
    ensures
        r is Ok <==> order_trade_update_inner_ok(m@),
        r matches Ok(v) ==> order_trade_update_inner_matches(v, m@),
        r matches Err(e) ==> e is FieldCoercion,
{
    let symbol = match get_text(m, "s") {
        Ok(x) => x,
        Err(e) => return Err(e),
    };
    let client_order_id = match get_opt_text(m, "c") {
        Ok(x) => x,
        Err(e) => return Err(e),
    };
    let side = match get_order_side(m, "S") {
        Ok(x) => x,
        Err(e) => return Err(e),
    };
    let order_type = match get_order_type(m, "o") {
        Ok(x) => x,
        Err(e) => return Err(e),
    };
    let time_in_force = match get_time_in_force(m, "f") {
        Ok(x) => x,
        Err(e) => return Err(e),
    };
    let qty = match get_decimal(m, "q") {
        Ok(x) => x,
        Err(e) => return Err(e),
    };
    let price = match get_decimal(m, "p") {
        Ok(x) => x,
        Err(e) => return Err(e),
    };
    let avg_price = match get_decimal(m, "ap") {
        Ok(x) => x,
        Err(e) => return Err(e),
    };
    let stop_price = match get_decimal(m, "sp") {
        Ok(x) => x,
        Err(e) => return Err(e),
    };
    let execution_type = match get_order_status(m, "x") {
        Ok(x) => x,
        Err(e) => return Err(e),
    };
    let order_status = match get_order_status(m, "X") {
        Ok(x) => x,
        Err(e) => return Err(e),
    };
    let order_id = match get_u64(m, "i") {
        Ok(x) => x,
        Err(e) => return Err(e),
    };
    let qty_last_executed = match get_decimal(m, "l") {
        Ok(x) => x,
        Err(e) => return Err(e),
    };
    let cumulative_filled_qty = match get_decimal(m, "z") {
        Ok(x) => x,
        Err(e) => return Err(e),
    };
    let last_executed_price = match get_decimal(m, "L") {
        Ok(x) => x,
        Err(e) => return Err(e),
    };
    let commission = match get_decimal(m, "n") {
        Ok(x) => x,
        Err(e) => return Err(e),
    };
    let commission_asset = match get_opt_text(m, "N") {
        Ok(x) => x,
        Err(e) => return Err(e),
    };
    let trade_order_time = match get_u64(m, "T") {
        Ok(x) => x,
        Err(e) => return Err(e),
    };
    let trade_id = match get_i64(m, "t") {
        Ok(x) => x,
        Err(e) => return Err(e),
    };
    let bids_notional = match get_decimal(m, "b") {
        Ok(x) => x,
        Err(e) => return Err(e),
    };
    let asks_notional = match get_decimal(m, "a") {
        Ok(x) => x,
        Err(e) => return Err(e),
    };
    let is_maker = match get_flag(m, "m") {
        Ok(x) => x,
        Err(e) => return Err(e),
    };
    let is_reduce = match get_flag(m, "R") {
        Ok(x) => x,
        Err(e) => return Err(e),
    };
    let sp_working_type = match get_working_type(m, "wt") {
        Ok(x) => x,
        Err(e) => return Err(e),
    };
    let orig_type = match get_order_type(m, "ot") {
        Ok(x) => x,
        Err(e) => return Err(e),
    };
    let position_side = match get_position_side(m, "ps") {
        Ok(x) => x,
        Err(e) => return Err(e),
    };
    let is_push_conditional = match get_flag(m, "cp") {
        Ok(x) => x,
        Err(e) => return Err(e),
    };
    let realized_profit_ignore = match get_decimal(m, "rp") {
        Ok(x) => x,
        Err(e) => return Err(e),
    };
    let pp_ignore = match get_flag(m, "pP") {
        Ok(x) => x,
        Err(e) => return Err(e),
    };
    let si_ignore = match get_i64(m, "si") {
        Ok(x) => x,
        Err(e) => return Err(e),
    };
    let ss_ignore = match get_i64(m, "ss") {
        Ok(x) => x,
        Err(e) => return Err(e),
    };
    Ok(OrderTradeUpdateInner { symbol, client_order_id, side, order_type, time_in_force, qty, price, avg_price, stop_price, execution_type, order_status, order_id, qty_last_executed, cumulative_filled_qty, last_executed_price, commission, commission_asset, trade_order_time, trade_id, bids_notional, asks_notional, is_maker, is_reduce, sp_working_type, orig_type, position_side, is_push_conditional, realized_profit_ignore, pp_ignore, si_ignore, ss_ignore })
}

/// A futures order update (`ORDER_TRADE_UPDATE`).
#[derive(Clone, Debug)]
pub struct OrderTradeUpdate {
    pub transact_time: u64,
    pub event_time: u64,
    pub order_trade: OrderTradeUpdateInner,
}

/// Every field that a `OrderTradeUpdate` needs is present and readable.
pub open spec fn order_trade_update_ok(m: Seq<(String, JsonValue)>) -> bool {
    &&& field_u64(m, "T"@) is Some
    &&& field_u64(m, "E"@) is Some
    &&& (field_object(m, "o"@) matches Some(o) && order_trade_update_inner_ok(o))
}

/// `v` holds what the fields say.
pub open spec fn order_trade_update_matches(v: OrderTradeUpdate, m: Seq<(String, JsonValue)>) -> bool {
    &&& field_u64(m, "T"@) == Some(v.transact_time)
    &&& field_u64(m, "E"@) == Some(v.event_time)
    &&& (field_object(m, "o"@) matches Some(o) && order_trade_update_inner_matches(v.order_trade, o))
}

pub fn decode_order_trade_update(m: &Vec<(String, JsonValue)>) -> (r: Result<OrderTradeUpdate, DecodeError>)
    ensures
        r is Ok <==> order_trade_update_ok(m@),
        r matches Ok(v) ==> order_trade_update_matches(v, m@),
        r matches Err(e) ==> e is FieldCoercion,
{
    let transact_time = match get_u64(m, "T") {
        Ok(x) => x,
        Err(e) => return Err(e),
    };
    let event_time = match get_u64(m, "E") {
        Ok(x) => x,
        Err(e) => return Err(e),
    };
    let order_trade = match get_object(m, "o") {
        Ok(o) => match decode_order_trade_update_inner(o) {
            Ok(x) => x,
            Err(e) => return Err(e),
        },
        Err(e) => return Err(e),
    };
    Ok(OrderTradeUpdate { transact_time, event_time, order_trade })
}

/// One asset of a futures account update.
#[derive(Clone, Debug)]
pub struct AccountUpdateBalancesInner {
    pub asset: String,
    pub wallet_balance: Decimal,
    pub cross_wallet_balance: Decimal,
    pub balance_change_ex: Decimal,
}

/// Every field that a `AccountUpdateBalancesInner` needs is present and readable.
pub open spec fn account_update_balances_inner_ok(m: Seq<(String, JsonValue)>) -> bool {
    &&& field_text(m, "a"@) is Some
    &&& field_decimal(m, "wb"@) is Some
    &&& field_decimal(m, "cw"@) is Some
    &&& field_decimal(m, "bc"@) is Some
}

/// `v` holds what the fields say.
pub open spec fn account_update_balances_inner_matches(v: AccountUpdateBalancesInner, m: Seq<(String, JsonValue)>) -> bool {
    &&& field_text(m, "a"@) == Some(v.asset@)
    &&& field_decimal(m, "wb"@) == Some(v.wallet_balance)
    &&& field_decimal(m, "cw"@) == Some(v.cross_wallet_balance)
    &&& field_decimal(m, "bc"@) == Some(v.balance_change_ex)
}

pub fn decode_account_update_balances_inner(m: &Vec<(String, JsonValue)>) -> (r: Result<AccountUpdateBalancesInner, DecodeError>)
    ensures
        r is Ok <==> account_update_balances_inner_ok(m@),
        r matches Ok(v) ==> account_update_balances_inner_matches(v, m@),
        r matches Err(e) ==> e is FieldCoercion,
{
    let asset = match get_text(m, "a") {
        Ok(x) => x,
        Err(e) => return Err(e),
    };
    let wallet_balance = match get_decimal(m, "wb") {
        Ok(x) => x,
        Err(e) => return Err(e),
    };
    let cross_wallet_balance = match get_decimal(m, "cw") {
        Ok(x) => x,
        Err(e) => return Err(e),
    };
    let balance_change_ex = match get_decimal(m, "bc") {
        Ok(x) => x,
        Err(e) => return Err(e),
    };
    Ok(AccountUpdateBalancesInner { asset, wallet_balance, cross_wallet_balance, balance_change_ex })
}

/// One position of a futures account update.
#[derive(Clone, Debug)]
pub struct AccountUpdatePositionsInner {
    pub symbol: String,
    pub position_amount: Decimal,
    pub early_price: Decimal,
    pub accumulated_realized: Decimal,
    pub unrealized_pnl: Decimal,
    pub margin_type: String,
    pub isolated_wallet: Decimal,
    pub position_side: PositionSide,
}

/// Every field that a `AccountUpdatePositionsInner` needs is present and readable.
pub open spec fn account_update_positions_inner_ok(m: Seq<(String, JsonValue)>) -> bool {
    &&& field_text(m, "s"@) is Some
    &&& field_decimal(m, "pa"@) is Some
    &&& field_decimal(m, "ep"@) is Some
    &&& field_decimal(m, "cr"@) is Some
    &&& field_decimal(m, "up"@) is Some
    &&& field_text(m, "mt"@) is Some
    &&& field_decimal(m, "iw"@) is Some
    &&& field_position_side(m, "ps"@) is Some
}

/// `v` holds what the fields say.
pub open spec fn account_update_positions_inner_matches(v: AccountUpdatePositionsInner, m: Seq<(String, JsonValue)>) -> bool {
    &&& field_text(m, "s"@) == Some(v.symbol@)
    &&& field_decimal(m, "pa"@) == Some(v.position_amount)
    &&& field_decimal(m, "ep"@) == Some(v.early_price)
    &&& field_decimal(m, "cr"@) == Some(v.accumulated_realized)
    &&& field_decimal(m, "up"@) == Some(v.unrealized_pnl)
    &&& field_text(m, "mt"@) == Some(v.margin_type@)
    &&& field_decimal(m, "iw"@) == Some(v.isolated_wallet)
    &&& field_position_side(m, "ps"@) == Some(v.position_side)
}

pub fn decode_account_update_positions_inner(m: &Vec<(String, JsonValue)>) -> (r: Result<AccountUpdatePositionsInner, DecodeError>)
    ensures
        r is Ok <==> account_update_positions_inner_ok(m@),
        r matches Ok(v) ==> account_update_positions_inner_matches(v, m@),
        r matches Err(e) ==> e is FieldCoercion,
{
    let symbol = match get_text(m, "s") {
        Ok(x) => x,
        Err(e) => return Err(e),
    };
    let position_amount = match get_decimal(m, "pa") {
        Ok(x) => x,
        Err(e) => return Err(e),
    };
    let early_price = match get_decimal(m, "ep") {
        Ok(x) => x,
        Err(e) => return Err(e),
    };
    let accumulated_realized = match get_decimal(m, "cr") {
        Ok(x) => x,
        Err(e) => return Err(e),
    };
    let unrealized_pnl = match get_decimal(m, "up") {
        Ok(x) => x,
        Err(e) => return Err(e),
    };
    let margin_type = match get_text(m, "mt") {
        Ok(x) => x,
        Err(e) => return Err(e),
    };
    let isolated_wallet = match get_decimal(m, "iw") {
        Ok(x) => x,
        Err(e) => return Err(e),
    };
    let position_side = match get_position_side(m, "ps") {
        Ok(x) => x,
        Err(e) => return Err(e),
    };
    Ok(AccountUpdatePositionsInner { symbol, position_amount, early_price, accumulated_realized, unrealized_pnl, margin_type, isolated_wallet, position_side })
}

/// What a futures account update carries.
#[derive(Clone, Debug)]
pub struct AccountUpdateDataInner {
    pub event_reason_type: EventReasonType,
    pub balances: Vec<AccountUpdateBalancesInner>,
    pub positions: Vec<AccountUpdatePositionsInner>,
}

/// Every field that a `AccountUpdateDataInner` needs is present and readable.
pub open spec fn account_update_data_inner_ok(m: Seq<(String, JsonValue)>) -> bool {
    &&& field_event_reason_type(m, "m"@) is Some
    &&& (field_array(m, "B"@) matches Some(a) && account_update_balances_inner_list_ok(a))
    &&& (field_array(m, "P"@) matches Some(a) && account_update_positions_inner_list_ok(a))
}

/// `v` holds what the fields say.
pub open spec fn account_update_data_inner_matches(v: AccountUpdateDataInner, m: Seq<(String, JsonValue)>) -> bool {
    &&& field_event_reason_type(m, "m"@) == Some(v.event_reason_type)
    &&& (field_array(m, "B"@) matches Some(a) && account_update_balances_inner_list_matches(v.balances@, a))
    &&& (field_array(m, "P"@) matches Some(a) && account_update_positions_inner_list_matches(v.positions@, a))
}

pub fn decode_account_update_data_inner(m: &Vec<(String, JsonValue)>) -> (r: Result<AccountUpdateDataInner, DecodeError>)
    ensures
        r is Ok <==> account_update_data_inner_ok(m@),
        r matches Ok(v) ==> account_update_data_inner_matches(v, m@),
        r matches Err(e) ==> e is FieldCoercion,
{
    let event_reason_type = match get_event_reason_type(m, "m") {
        Ok(x) => x,
        Err(e) => return Err(e),
    };
    let balances = match get_array(m, "B") {
        Ok(a) => match decode_account_update_balances_inner_list(a, "B") {
            Ok(x) => x,
            Err(e) => return Err(e),
        },
        Err(e) => return Err(e),
    };
    let positions = match get_array(m, "P") {
        Ok(a) => match decode_account_update_positions_inner_list(a, "P") {
            Ok(x) => x,
            Err(e) => return Err(e),
        },
        Err(e) => return Err(e),
    };
    Ok(AccountUpdateDataInner { event_reason_type, balances, positions })
}

/// A futures account update (`ACCOUNT_UPDATE`).
#[derive(Clone, Debug)]
pub struct AccountUpdate {
    pub transact_time: u64,
    pub event_time: u64,
    pub update_data: AccountUpdateDataInner,
}

/// Every field that a `AccountUpdate` needs is present and readable.
pub open spec fn account_update_ok(m: Seq<(String, JsonValue)>) -> bool {
    &&& field_u64(m, "T"@) is Some
    &&& field_u64(m, "E"@) is Some
    &&& (field_object(m, "a"@) matches Some(o) && account_update_data_inner_ok(o))
}

/// `v` holds what the fields say.
pub open spec fn account_update_matches(v: AccountUpdate, m: Seq<(String, JsonValue)>) -> bool {
    &&& field_u64(m, "T"@) == Some(v.transact_time)
    &&& field_u64(m, "E"@) == Some(v.event_time)
    &&& (field_object(m, "a"@) matches Some(o) && account_update_data_inner_matches(v.update_data, o))
}

pub fn decode_account_update(m: &Vec<(String, JsonValue)>) -> (r: Result<AccountUpdate, DecodeError>)
    ensures
        r is Ok <==> account_update_ok(m@),
        r matches Ok(v) ==> account_update_matches(v, m@),
        r matches Err(e) ==> e is FieldCoercion,
{
    let transact_time = match get_u64(m, "T") {
        Ok(x) => x,
        Err(e) => return Err(e),
    };
    let event_time = match get_u64(m, "E") {
        Ok(x) => x,
        Err(e) => return Err(e),
    };
    let update_data = match get_object(m, "a") {
        Ok(o) => match decode_account_update_data_inner(o) {
            Ok(x) => x,
            Err(e) => return Err(e),
        },
        Err(e) => return Err(e),
    };
    Ok(AccountUpdate { transact_time, event_time, update_data })
}

/// A snapshot of the order book, which carries no discriminator.
#[derive(Clone, Debug)]
pub struct OrderBook {
    pub last_update_id: u64,
    pub bids: Vec<PriceLevel>,
    pub asks: Vec<PriceLevel>,
}

/// Every field that a `OrderBook` needs is present and readable.
pub open spec fn order_book_ok(m: Seq<(String, JsonValue)>) -> bool {
    &&& field_u64(m, "lastUpdateId"@) is Some
    &&& (field_array(m, "bids"@) matches Some(a) && levels_ok(a))
    &&& (field_array(m, "asks"@) matches Some(a) && levels_ok(a))
}

/// `v` holds what the fields say.
pub open spec fn order_book_matches(v: OrderBook, m: Seq<(String, JsonValue)>) -> bool {
    &&& field_u64(m, "lastUpdateId"@) == Some(v.last_update_id)
    &&& (field_array(m, "bids"@) matches Some(a) && levels_match(v.bids@, a))
    &&& (field_array(m, "asks"@) matches Some(a) && levels_match(v.asks@, a))
}

pub fn decode_order_book(m: &Vec<(String, JsonValue)>) -> (r: Result<OrderBook, DecodeError>)
    ensures
        r is Ok <==> order_book_ok(m@),
        r matches Ok(v) ==> order_book_matches(v, m@),
        r matches Err(e) ==> e is FieldCoercion,
{
    let last_update_id = match get_u64(m, "lastUpdateId") {
        Ok(x) => x,
        Err(e) => return Err(e),
    };
    let bids = match get_array(m, "bids") {
        Ok(a) => match decode_levels(a, "bids") {
            Ok(x) => x,
            Err(e) => return Err(e),
        },
        Err(e) => return Err(e),
    };
    let asks = match get_array(m, "asks") {
        Ok(a) => match decode_levels(a, "asks") {
            Ok(x) => x,
            Err(e) => return Err(e),
        },
        Err(e) => return Err(e),
    };
    Ok(OrderBook { last_update_id, bids, asks })
}

/// Best bid and ask of a symbol.
#[derive(Clone, Debug)]
pub struct BookTickerEvent {
    pub update_id: u64,
    pub symbol: String,
    pub best_bid: Decimal,
    pub best_bid_qty: Decimal,
    pub best_ask: Decimal,
    pub best_ask_qty: Decimal,
}

/// Every field that a `BookTickerEvent` needs is present and readable.
pub open spec fn book_ticker_event_ok(m: Seq<(String, JsonValue)>) -> bool {
    &&& field_u64(m, "u"@) is Some
    &&& field_text(m, "s"@) is Some
    &&& field_decimal(m, "b"@) is Some
    &&& field_decimal(m, "B"@) is Some
    &&& field_decimal(m, "a"@) is Some
    &&& field_decimal(m, "A"@) is Some
}

/// `v` holds what the fields say.
pub open spec fn book_ticker_event_matches(v: BookTickerEvent, m: Seq<(String, JsonValue)>) -> bool {
    &&& field_u64(m, "u"@) == Some(v.update_id)
    &&& field_text(m, "s"@) == Some(v.symbol@)
    &&& field_decimal(m, "b"@) == Some(v.best_bid)
    &&& field_decimal(m, "B"@) == Some(v.best_bid_qty)
    &&& field_decimal(m, "a"@) == Some(v.best_ask)
    &&& field_decimal(m, "A"@) == Some(v.best_ask_qty)
}

pub fn decode_book_ticker_event(m: &Vec<(String, JsonValue)>) -> (r: Result<BookTickerEvent, DecodeError>)
    ensures
        r is Ok <==> book_ticker_event_ok(m@),
        r matches Ok(v) ==> book_ticker_event_matches(v, m@),
        r matches Err(e) ==> e is FieldCoercion,
{
    let update_id = match get_u64(m, "u") {
        Ok(x) => x,
        Err(e) => return Err(e),
    };
    let symbol = match get_text(m, "s") {
        Ok(x) => x,
        Err(e) => return Err(e),
    };
    let best_bid = match get_decimal(m, "b") {
        Ok(x) => x,
        Err(e) => return Err(e),
    };
    let best_bid_qty = match get_decimal(m, "B") {
        Ok(x) => x,
        Err(e) => return Err(e),
    };
    let best_ask = match get_decimal(m, "a") {
        Ok(x) => x,
        Err(e) => return Err(e),
    };
    let best_ask_qty = match get_decimal(m, "A") {
        Ok(x) => x,
        Err(e) => return Err(e),
    };
    Ok(BookTickerEvent { update_id, symbol, best_bid, best_bid_qty, best_ask, best_ask_qty })
}

pub open spec fn account_update_balances_inner_item_ok(v: JsonValue) -> bool {
    v matches JsonValue::Object(o) && account_update_balances_inner_ok(o@)
}

pub open spec fn account_update_balances_inner_list_ok(a: Seq<JsonValue>) -> bool {
    forall|i: int| 0 <= i < a.len() ==> account_update_balances_inner_item_ok(#[trigger] a[i])
}

pub open spec fn account_update_balances_inner_item_matches(x: AccountUpdateBalancesInner, v: JsonValue) -> bool {
    v matches JsonValue::Object(o) && account_update_balances_inner_matches(x, o@)
}

pub open spec fn account_update_balances_inner_list_matches(xs: Seq<AccountUpdateBalancesInner>, a: Seq<JsonValue>) -> bool {
    &&& xs.len() == a.len()
    &&& forall|i: int| 0 <= i < a.len() ==> account_update_balances_inner_item_matches(#[trigger] xs[i], a[i])
}

fn decode_account_update_balances_inner_list(a: &Vec<JsonValue>, k: &str) -> (r: Result<Vec<AccountUpdateBalancesInner>, DecodeError>)
    ensures
        r is Ok <==> account_update_balances_inner_list_ok(a@),
        r matches Ok(xs) ==> account_update_balances_inner_list_matches(xs@, a@),
        r matches Err(e) ==> e is FieldCoercion,
{
    let mut out: Vec<AccountUpdateBalancesInner> = Vec::new();
    let mut i: usize = 0;
    while i < a.len()
        invariant
            0 <= i <= a@.len(),
            out@.len() == i,
            forall|j: int| 0 <= j < i ==> account_update_balances_inner_item_ok(#[trigger] a@[j]),
            forall|j: int| 0 <= j < i ==> account_update_balances_inner_item_matches(#[trigger] out@[j], a@[j]),
        decreases a@.len() - i,
    {
        match &a[i] {
            JsonValue::Object(o) => match decode_account_update_balances_inner(o) {
                Ok(x) => out.push(x),
                Err(e) => return Err(e),
            },
            _ => return Err(coercion_error(k)),
        }
        i = i + 1;
    }
    Ok(out)
}

pub open spec fn account_update_positions_inner_item_ok(v: JsonValue) -> bool {
    v matches JsonValue::Object(o) && account_update_positions_inner_ok(o@)
}

pub open spec fn account_update_positions_inner_list_ok(a: Seq<JsonValue>) -> bool {
    forall|i: int| 0 <= i < a.len() ==> account_update_positions_inner_item_ok(#[trigger] a[i])
}

pub open spec fn account_update_positions_inner_item_matches(x: AccountUpdatePositionsInner, v: JsonValue) -> bool {
    v matches JsonValue::Object(o) && account_update_positions_inner_matches(x, o@)
}

pub open spec fn account_update_positions_inner_list_matches(xs: Seq<AccountUpdatePositionsInner>, a: Seq<JsonValue>) -> bool {
    &&& xs.len() == a.len()
    &&& forall|i: int| 0 <= i < a.len() ==> account_update_positions_inner_item_matches(#[trigger] xs[i], a[i])
}

fn decode_account_update_positions_inner_list(a: &Vec<JsonValue>, k: &str) -> (r: Result<Vec<AccountUpdatePositionsInner>, DecodeError>)
    ensures
        r is Ok <==> account_update_positions_inner_list_ok(a@),
        r matches Ok(xs) ==> account_update_positions_inner_list_matches(xs@, a@),
        r matches Err(e) ==> e is FieldCoercion,
{
    let mut out: Vec<AccountUpdatePositionsInner> = Vec::new();
    let mut i: usize = 0;
    while i < a.len()
        invariant
            0 <= i <= a@.len(),
            out@.len() == i,
            forall|j: int| 0 <= j < i ==> account_update_positions_inner_item_ok(#[trigger] a@[j]),
            forall|j: int| 0 <= j < i ==> account_update_positions_inner_item_matches(#[trigger] out@[j], a@[j]),
        decreases a@.len() - i,
    {
        match &a[i] {
            JsonValue::Object(o) => match decode_account_update_positions_inner(o) {
                Ok(x) => out.push(x),
                Err(e) => return Err(e),
            },
            _ => return Err(coercion_error(k)),
        }
        i = i + 1;
    }
    Ok(out)
}

pub open spec fn event_balance_item_ok(v: JsonValue) -> bool {
    v matches JsonValue::Object(o) && event_balance_ok(o@)
}

pub open spec fn event_balance_list_ok(a: Seq<JsonValue>) -> bool {
    forall|i: int| 0 <= i < a.len() ==> event_balance_item_ok(#[trigger] a[i])
}

pub open spec fn event_balance_item_matches(x: EventBalance, v: JsonValue) -> bool {
    v matches JsonValue::Object(o) && event_balance_matches(x, o@)
}

pub open spec fn event_balance_list_matches(xs: Seq<EventBalance>, a: Seq<JsonValue>) -> bool {
    &&& xs.len() == a.len()
    &&& forall|i: int| 0 <= i < a.len() ==> event_balance_item_matches(#[trigger] xs[i], a[i])
}

fn decode_event_balance_list(a: &Vec<JsonValue>, k: &str) -> (r: Result<Vec<EventBalance>, DecodeError>)
    ensures
        r is Ok <==> event_balance_list_ok(a@),
        r matches Ok(xs) ==> event_balance_list_matches(xs@, a@),
        r matches Err(e) ==> e is FieldCoercion,
{
    let mut out: Vec<EventBalance> = Vec::new();
    let mut i: usize = 0;
    while i < a.len()
        invariant
            0 <= i <= a@.len(),
            out@.len() == i,
            forall|j: int| 0 <= j < i ==> event_balance_item_ok(#[trigger] a@[j]),
            forall|j: int| 0 <= j < i ==> event_balance_item_matches(#[trigger] out@[j], a@[j]),
        decreases a@.len() - i,
    {
        match &a[i] {
            JsonValue::Object(o) => match decode_event_balance(o) {
                Ok(x) => out.push(x),
                Err(e) => return Err(e),
            },
            _ => return Err(coercion_error(k)),
        }
        i = i + 1;
    }
    Ok(out)
}

pub open spec fn order_list_transaction_item_ok(v: JsonValue) -> bool {
    v matches JsonValue::Object(o) && order_list_transaction_ok(o@)
}

pub open spec fn order_list_transaction_list_ok(a: Seq<JsonValue>) -> bool {
    forall|i: int| 0 <= i < a.len() ==> order_list_transaction_item_ok(#[trigger] a[i])
}

pub open spec fn order_list_transaction_item_matches(x: OrderListTransaction, v: JsonValue) -> bool {
    v matches JsonValue::Object(o) && order_list_transaction_matches(x, o@)
}

pub open spec fn order_list_transaction_list_matches(xs: Seq<OrderListTransaction>, a: Seq<JsonValue>) -> bool {
    &&& xs.len() == a.len()
    &&& forall|i: int| 0 <= i < a.len() ==> order_list_transaction_item_matches(#[trigger] xs[i], a[i])
}

fn decode_order_list_transaction_list(a: &Vec<JsonValue>, k: &str) -> (r: Result<Vec<OrderListTransaction>, DecodeError>)
    ensures
        r is Ok <==> order_list_transaction_list_ok(a@),
        r matches Ok(xs) ==> order_list_transaction_list_matches(xs@, a@),
        r matches Err(e) ==> e is FieldCoercion,
{
    let mut out: Vec<OrderListTransaction> = Vec::new();
    let mut i: usize = 0;
    while i < a.len()
        invariant
            0 <= i <= a@.len(),
            out@.len() == i,
            forall|j: int| 0 <= j < i ==> order_list_transaction_item_ok(#[trigger] a@[j]),
            forall|j: int| 0 <= j < i ==> order_list_transaction_item_matches(#[trigger] out@[j], a@[j]),
        decreases a@.len() - i,
    {
        match &a[i] {
            JsonValue::Object(o) => match decode_order_list_transaction(o) {
                Ok(x) => out.push(x),
                Err(e) => return Err(e),
            },
            _ => return Err(coercion_error(k)),
        }
        i = i + 1;
    }
    Ok(out)
}

/// The view of an optional text.
pub open spec fn opt_view(t: Option<String>) -> Option<Seq<char>> {
    match t {
        Some(s) => Some(s@),
        None => None,
    }
}

/// One price level of a book: a price and the quantity resting at it.
#[derive(Clone, Copy, Debug, PartialEq, Eq, Structural)]
pub struct PriceLevel {
    pub price: Decimal,
    pub qty: Decimal,
}

/// A level is written as a two-element array `[price, qty]`.
pub open spec fn level_of(v: JsonValue) -> Option<PriceLevel> {
    match v {
        JsonValue::Array(p) => if p@.len() == 2 {
            match (numeric_text(p@[0]), numeric_text(p@[1])) {
                (Some(a), Some(b)) => match (decimal_of_text(a), decimal_of_text(b)) {
                    (Some(price), Some(qty)) => Some(PriceLevel { price, qty }),
                    _ => None,
                },
                _ => None,
            }
        } else {
            None
        },
        _ => None,
    }
}

pub open spec fn levels_ok(a: Seq<JsonValue>) -> bool {
    forall|i: int| 0 <= i < a.len() ==> (#[trigger] level_of(a[i])) is Some
}

pub open spec fn levels_match(xs: Seq<PriceLevel>, a: Seq<JsonValue>) -> bool {
    &&& xs.len() == a.len()
    &&& forall|i: int| 0 <= i < a.len() ==> level_of(a[i]) == Some(#[trigger] xs[i])
}

fn decimal_in(v: &JsonValue) -> (r: Option<Decimal>)
    ensures
        r == (match numeric_text(*v) {
            Some(t) => decimal_of_text(t),
            None => None,
        }),
{
    match v {
        JsonValue::Number(t) => parse_decimal(t.as_str()),
        JsonValue::Str(t) => parse_decimal(t.as_str()),
        _ => None,
    }
}

pub fn decode_level(v: &JsonValue) -> (r: Option<PriceLevel>)
    ensures
        r == level_of(*v),
{
    match v {
        JsonValue::Array(p) => {
            if p.len() != 2 {
                return None;
            }
            match (decimal_in(&p[0]), decimal_in(&p[1])) {
                (Some(price), Some(qty)) => Some(PriceLevel { price, qty }),
                _ => None,
            }
        },
        _ => None,
    }
}

fn decode_levels(a: &Vec<JsonValue>, k: &str) -> (r: Result<Vec<PriceLevel>, DecodeError>)
    ensures
        r is Ok <==> levels_ok(a@),
        r matches Ok(xs) ==> levels_match(xs@, a@),
        r matches Err(e) ==> e is FieldCoercion,
{
    let mut out: Vec<PriceLevel> = Vec::new();
    let mut i: usize = 0;
    while i < a.len()
        invariant
            0 <= i <= a@.len(),
            out@.len() == i,
            forall|j: int| 0 <= j < i ==> level_of(a@[j]) == Some(#[trigger] out@[j]),
            forall|j: int| 0 <= j < i ==> (#[trigger] level_of(a@[j])) is Some,
        decreases a@.len() - i,
    {
        match decode_level(&a[i]) {
            Some(x) => out.push(x),
            None => return Err(coercion_error(k)),
        }
        i = i + 1;
    }
    Ok(out)
}


} // verus!
