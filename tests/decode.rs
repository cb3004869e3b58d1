use binance_streams::event::{decode, decode_combined, decode_events, FuturesWebsocketEvent, FuturesWebsocketEventUntag};
use binance_streams::json::{parse_decimal, DecodeError, Decimal};
use binance_streams::model::{EventReasonType, OrderSide, OrderStatus, PositionSide};

fn event_of(raw: &str) -> FuturesWebsocketEvent {
    match decode(raw.as_bytes()) {
        Ok(FuturesWebsocketEventUntag::FuturesWebsocketEvent(ev)) => ev,
        other => panic!("expected an event, got {:?}", other),
    }
}

fn as_f64(d: Decimal) -> f64 {
    let v = d.mantissa as f64 / 10f64.powi(d.scale as i32);
    if d.negative { -v } else { v }
}

const TRADE: &str = r#"{"e":"trade","E":1672515782136,"s":"BTCUSDT","t":12345,"p":"50000.1","q":"0.01","T":1672515782134,"m":true}"#;

#[test]
fn trade_frame_scenario() {
    match event_of(TRADE) {
        FuturesWebsocketEvent::Trade(t) => {
            assert_eq!(t.symbol, "BTCUSDT");
            assert_eq!(t.price, Decimal { negative: false, mantissa: 500001, scale: 1 });
            assert_eq!(t.qty, Decimal { negative: false, mantissa: 1, scale: 2 });
            assert!((as_f64(t.price) - 50000.1).abs() < 1e-9);
            assert!((as_f64(t.qty) - 0.01).abs() < 1e-12);
            assert_eq!(t.event_time, 1672515782136);
            assert_eq!(t.trade_id, 12345);
            assert!(t.is_buyer_maker);
        }
        other => panic!("expected a trade, got {:?}", other),
    }
}

#[test]
fn agg_trade_minimal_payload() {
    let raw = r#"{"e":"aggTrade","E":1,"s":"ETHUSDT","a":7,"p":"1800.5","q":"2","f":10,"l":12,"T":2,"m":false}"#;
    match event_of(raw) {
        FuturesWebsocketEvent::AggTrade(t) => {
            assert_eq!(t.aggregated_trade_id, 7);
            assert_eq!(t.last_break_trade_id, 12);
        }
        other => panic!("{:?}", other),
    }
}

#[test]
fn kline_minimal_payload() {
    let raw = r#"{"e":"kline","E":1,"s":"ETHBTC","k":{"t":100,"T":159,"s":"ETHBTC","i":"1m","o":"0.1","c":"0.2","h":"0.3","l":"0.05","v":"10","n":4,"x":false,"q":"1.5"}}"#;
    match event_of(raw) {
        FuturesWebsocketEvent::Kline(k) => {
            assert_eq!(k.kline.interval, "1m");
            assert_eq!(k.kline.high, Decimal { negative: false, mantissa: 3, scale: 1 });
            assert!(!k.kline.is_final_bar);
        }
        other => panic!("{:?}", other),
    }
}

#[test]
fn day_ticker_minimal_payload() {
    let raw = r#"{"e":"24hrTicker","E":1,"s":"BTCUSDT","p":"-12.5","P":"-0.03","w":"50010.2","c":"50000","Q":"0.1","o":"50012.5","h":"50100","l":"49900","v":"1000","q":"50000000","O":0,"C":86400000,"F":-1,"L":99,"n":100}"#;
    match event_of(raw) {
        FuturesWebsocketEvent::DayTicker(t) => {
            assert_eq!(t.price_change, Decimal { negative: true, mantissa: 125, scale: 1 });
            assert_eq!(t.first_trade_id, -1);
            assert_eq!(t.num_trades, 100);
        }
        other => panic!("{:?}", other),
    }
}

#[test]
fn mini_ticker_minimal_payload() {
    let raw = r#"{"e":"24hrMiniTicker","E":1,"s":"BTCUSDT","c":"1","o":"2","h":"3","l":"0.5","v":"7","q":"8"}"#;
    assert!(matches!(event_of(raw), FuturesWebsocketEvent::DayMiniTicker(_)));
}

#[test]
fn depth_update_minimal_payload() {
    let raw = r#"{"e":"depthUpdate","E":1,"s":"BTCUSDT","U":10,"u":12,"b":[["50000.0","1.5"],["49999.9","2"]],"a":[["50000.1","0.3"]]}"#;
    match event_of(raw) {
        FuturesWebsocketEvent::DepthOrderBook(d) => {
            assert_eq!(d.bids.len(), 2);
            assert_eq!(d.bids[0].price, Decimal { negative: false, mantissa: 500000, scale: 1 });
            assert_eq!(d.asks[0].qty, Decimal { negative: false, mantissa: 3, scale: 1 });
        }
        other => panic!("{:?}", other),
    }
}

#[test]
fn account_position_minimal_payload() {
    let raw = r#"{"e":"outboundAccountPosition","E":1,"u":2,"B":[{"a":"BTC","f":"1.0","l":"0"}]}"#;
    match event_of(raw) {
        FuturesWebsocketEvent::AccountPositionUpdate(a) => assert_eq!(a.balances[0].asset, "BTC"),
        other => panic!("{:?}", other),
    }
}

#[test]
fn balance_update_minimal_payload() {
    let raw = r#"{"e":"balanceUpdate","E":1,"a":"USDT","d":"100.00","T":2}"#;
    match event_of(raw) {
        FuturesWebsocketEvent::BalanceUpdate(b) => {
            assert_eq!(b.delta, Decimal { negative: false, mantissa: 10000, scale: 2 })
        }
        other => panic!("{:?}", other),
    }
}

#[test]
fn execution_report_minimal_payload() {
    let raw = r#"{"e":"executionReport","E":1,"s":"BTCUSDT","c":"abc","S":"SELL","o":"LIMIT","f":"GTC","q":"1","p":"2","P":"0","x":"NEW","X":"NEW","i":9,"l":"0","z":"0","L":"0","n":"0","N":null,"T":3,"t":-1,"m":false}"#;
    match event_of(raw) {
        FuturesWebsocketEvent::OrderUpdate(o) => {
            assert_eq!(o.side, OrderSide::Sell);
            assert_eq!(o.client_order_id, Some("abc".to_string()));
            assert_eq!(o.commission_asset, None);
            assert_eq!(o.trade_id, -1);
        }
        other => panic!("{:?}", other),
    }
}

#[test]
fn list_status_minimal_payload() {
    let raw = r#"{"e":"listStatus","E":1,"s":"BTCUSDT","g":3,"c":"OCO","l":"EXEC_STARTED","L":"EXECUTING","r":"NONE","C":"x1","T":4,"O":[{"s":"BTCUSDT","i":1,"c":"a"},{"s":"BTCUSDT","i":2,"c":"b"}]}"#;
    match event_of(raw) {
        FuturesWebsocketEvent::ListOrderUpdate(l) => assert_eq!(l.orders.len(), 2),
        other => panic!("{:?}", other),
    }
}

const ORDER_TRADE: &str = r#"{"e":"ORDER_TRADE_UPDATE","E":1568879465651,"T":1568879465650,"o":{"s":"BTCUSDT","c":"TEST","S":"SELL","o":"TRAILING_STOP_MARKET","f":"GTC","q":"0.001","p":"0","ap":"0","sp":"7103.04","x":"NEW","X":"NEW","i":8886774,"l":"0","z":"0","L":"0","N":"USDT","n":"0","T":1568879465650,"t":0,"b":"0","a":"9.91","m":false,"R":false,"wt":"CONTRACT_PRICE","ot":"TRAILING_STOP_MARKET","ps":"LONG","cp":false,"rp":"0","pP":false,"si":0,"ss":0}}"#;

#[test]
fn order_trade_update_minimal_payload() {
    match event_of(ORDER_TRADE) {
        FuturesWebsocketEvent::OrderTradeUpdate(u) => {
            assert_eq!(u.order_trade.order_id, 8886774);
            assert_eq!(u.order_trade.position_side, PositionSide::Long);
            assert_eq!(u.order_trade.execution_type, OrderStatus::New);
            assert_eq!(u.order_trade.stop_price, Decimal { negative: false, mantissa: 710304, scale: 2 });
            assert_eq!(u.order_trade.commission_asset, Some("USDT".to_string()));
        }
        other => panic!("{:?}", other),
    }
}

#[test]
fn order_trade_update_by_wire_alias() {
    let raw = ORDER_TRADE.replace("ORDER_TRADE_UPDATE", "orderTradeUpdate");
    assert!(matches!(event_of(&raw), FuturesWebsocketEvent::OrderTradeUpdate(_)));
}

#[test]
fn account_update_minimal_payload() {
    let raw = r#"{"e":"ACCOUNT_UPDATE","E":1,"T":2,"a":{"m":"ORDER","B":[{"a":"USDT","wb":"122624.12","cw":"100.12","bc":"50.12"}],"P":[{"s":"BTCUSDT","pa":"0","ep":"0.00000","cr":"200","up":"0","mt":"isolated","iw":"0.00000000","ps":"BOTH"}]}}"#;
    match event_of(raw) {
        FuturesWebsocketEvent::AccountUpdate(a) => {
            assert_eq!(a.update_data.event_reason_type, EventReasonType::Order);
            assert_eq!(a.update_data.balances[0].wallet_balance, Decimal { negative: false, mantissa: 12262412, scale: 2 });
            assert_eq!(a.update_data.positions[0].margin_type, "isolated");
            assert_eq!(a.update_data.positions[0].position_side, PositionSide::Both);
        }
        other => panic!("{:?}", other),
    }
}

#[test]
fn unknown_discriminator_is_reported() {
    let raw = r#"{"e":"markPriceUpdate","E":1,"s":"BTCUSDT","p":"1"}"#;
    match decode(raw.as_bytes()) {
        Err(DecodeError::UnknownEventType { name }) => assert_eq!(name, "markPriceUpdate"),
        other => panic!("{:?}", other),
    }
    let raw = r#"{"e":"bookTicker","u":1,"s":"BTCUSDT","b":"1","B":"2","a":"3","A":"4"}"#;
    assert!(matches!(decode(raw.as_bytes()), Err(DecodeError::UnknownEventType { .. })));
}

#[test]
fn book_ticker_fallback_without_discriminator() {
    let raw = r#"{"u":400900217,"s":"BNBUSDT","b":"25.35190000","B":"31.21000000","a":"25.36520000","A":"40.66000000"}"#;
    match decode(raw.as_bytes()) {
        Ok(FuturesWebsocketEventUntag::BookTicker(t)) => {
            assert_eq!(t.symbol, "BNBUSDT");
            assert_eq!(t.best_bid, Decimal { negative: false, mantissa: 2535190000, scale: 8 });
        }
        other => panic!("{:?}", other),
    }
}

#[test]
fn order_book_fallback_comes_before_book_ticker() {
    let raw = r#"{"lastUpdateId":1027024,"bids":[["4.00000000","431.00000000"]],"asks":[],"u":1,"s":"X","b":"1","B":"1","a":"1","A":"1"}"#;
    match decode(raw.as_bytes()) {
        Ok(FuturesWebsocketEventUntag::Orderbook(b)) => {
            assert_eq!(b.last_update_id, 1027024);
            assert_eq!(b.bids.len(), 1);
            assert!(b.asks.is_empty());
        }
        other => panic!("{:?}", other),
    }
}

#[test]
fn no_shape_matches_gives_field_error() {
    assert!(matches!(decode(br#"{"x":1}"#), Err(DecodeError::FieldCoercion { .. })));
}

#[test]
fn extra_fields_are_ignored() {
    let raw = r#"{"zz":[1,2,{"q":null}],"e":"trade","E":1,"s":"BTCUSDT","t":1,"p":"1.5","q":"2","T":2,"m":true,"new_field":"x"}"#;
    assert!(matches!(event_of(raw), FuturesWebsocketEvent::Trade(_)));
}

#[test]
fn non_numeric_price_is_a_coercion_error() {
    let raw = TRADE.replace("\"50000.1\"", "\"abc\"");
    match decode(raw.as_bytes()) {
        Err(DecodeError::FieldCoercion { field }) => assert_eq!(field, "p"),
        other => panic!("{:?}", other),
    }
}

#[test]
fn missing_field_is_a_coercion_error() {
    let raw = TRADE.replace("\"t\":12345,", "");
    match decode(raw.as_bytes()) {
        Err(DecodeError::FieldCoercion { field }) => assert_eq!(field, "t"),
        other => panic!("{:?}", other),
    }
}

#[test]
fn flags_are_coerced_from_strings_and_numbers() {
    for (text, want) in [("\"true\"", true), ("1", true), ("\"0\"", false), ("false", false)] {
        let raw = TRADE.replace("\"m\":true", &format!("\"m\":{}", text));
        match event_of(&raw) {
            FuturesWebsocketEvent::Trade(t) => assert_eq!(t.is_buyer_maker, want),
            other => panic!("{:?}", other),
        }
    }
    let raw = TRADE.replace("\"m\":true", "\"m\":\"yes\"");
    assert!(matches!(decode(raw.as_bytes()), Err(DecodeError::FieldCoercion { .. })));
}

#[test]
fn numbers_may_come_unquoted() {
    let raw = TRADE.replace("\"50000.1\"", "50000.1");
    match event_of(&raw) {
        FuturesWebsocketEvent::Trade(t) => assert_eq!(t.price, Decimal { negative: false, mantissa: 500001, scale: 1 }),
        other => panic!("{:?}", other),
    }
}

#[test]
fn malformed_payloads() {
    assert!(matches!(decode(b"not json"), Err(DecodeError::Malformed)));
    assert!(matches!(decode(b"[1,2]"), Err(DecodeError::Malformed)));
    assert!(matches!(decode(b""), Err(DecodeError::Malformed)));
}

#[test]
fn decimal_text_round_trip() {
    for (text, value) in [("50000.1", 50000.1f64), ("0.01", 0.01), ("-3.250", -3.25), ("42", 42.0)] {
        let d = parse_decimal(text).unwrap();
        assert!((as_f64(d) - value).abs() < 1e-9);
        assert_eq!(d.to_text(), text);
    }
    assert_eq!(parse_decimal("abc"), None);
    assert_eq!(parse_decimal("1."), None);
    assert_eq!(parse_decimal(".5"), None);
    assert_eq!(parse_decimal("-"), None);
    assert_eq!(parse_decimal("99999999999999999999"), None);
}

#[test]
fn combined_stream_symbol_scenario() {
    let raw = r#"{"stream":"ethusdt@depth5@500ms","data":{"e":"depthUpdate","E":1,"s":"ETHUSDT","U":1,"u":2,"b":[],"a":[]}}"#;
    let env = decode_combined(raw.as_bytes()).unwrap();
    assert_eq!(env.stream, "ethusdt@depth5@500ms");
    assert_eq!(env.symbol(), "ETHUSDT");
    assert!(matches!(env.data, FuturesWebsocketEventUntag::FuturesWebsocketEvent(FuturesWebsocketEvent::DepthOrderBook(_))));
}

#[test]
fn combined_stream_without_data() {
    match decode_combined(br#"{"stream":"btcusdt@trade"}"#) {
        Err(DecodeError::FieldCoercion { field }) => assert_eq!(field, "data"),
        other => panic!("{:?}", other),
    }
}

#[test]
fn array_frames_decode_each_event() {
    let raw = r#"[{"e":"24hrMiniTicker","E":1,"s":"BTCUSDT","c":"1","o":"2","h":"3","l":"0.5","v":"7","q":"8"},{"e":"trade","E":1,"s":"ETHUSDT","t":1,"p":"1.5","q":"2","T":2,"m":true}]"#;
    let evs = decode_events(raw.as_bytes()).unwrap();
    assert_eq!(evs.len(), 2);
    assert!(matches!(evs[0], FuturesWebsocketEvent::DayMiniTicker(_)));
    assert!(matches!(evs[1], FuturesWebsocketEvent::Trade(_)));
    assert!(decode_events(b"[]").unwrap().is_empty());
    assert!(matches!(decode_events(b"[1]"), Err(DecodeError::Malformed)));
    assert!(matches!(decode_events(br#"{"e":"trade"}"#), Err(DecodeError::Malformed)));
}
