use binance_streams::stream::{
    agg_trade_stream, all_ticker_stream, book_ticker_stream, combined_stream_address, kline_stream,
    partial_book_depth_stream, stream_address, trade_stream, ConnectError,
};

#[test]
fn depth_stream_name() {
    assert_eq!(partial_book_depth_stream("BTCUSDT", 5, 100), "btcusdt@depth5@100ms");
    assert_eq!(partial_book_depth_stream("ethusdt", 20, 500), "ethusdt@depth20@500ms");
    assert_eq!(partial_book_depth_stream("x", 0, 1000), "x@depth0@1000ms");
}

#[test]
fn channel_stream_names() {
    assert_eq!(agg_trade_stream("DydxUsdt"), "dydxusdt@aggTrade");
    assert_eq!(trade_stream("BTCUSDT"), "btcusdt@trade");
    assert_eq!(book_ticker_stream("btcusdt"), "btcusdt@bookTicker");
    assert_eq!(kline_stream("ETHBTC", "1m"), "ethbtc@kline_1m");
    assert_eq!(all_ticker_stream(), "!ticker@arr");
}

#[test]
fn single_stream_address() {
    assert_eq!(
        stream_address("wss://fstream.binance.com/ws", "btcusdt@trade").unwrap(),
        "wss://fstream.binance.com/ws/btcusdt@trade"
    );
    assert_eq!(stream_address("wss://h/ws", ""), Err(ConnectError::InvalidTarget));
}

#[test]
fn combined_address_joins_names_in_order() {
    let names = vec!["btcusdt@depth5@500ms".to_string(), "ethusdt@depth5@500ms".to_string()];
    assert_eq!(
        combined_stream_address("wss://fstream.binance.com", &names).unwrap(),
        "wss://fstream.binance.com/stream?streams=btcusdt@depth5@500ms/ethusdt@depth5@500ms"
    );
    let one = vec!["a@trade".to_string()];
    assert_eq!(combined_stream_address("b", &one).unwrap(), "b/stream?streams=a@trade");
}

#[test]
fn combined_address_rejects_empty_targets() {
    assert_eq!(combined_stream_address("b", &vec![]), Err(ConnectError::InvalidTarget));
    let names = vec!["a@trade".to_string(), String::new()];
    assert_eq!(combined_stream_address("b", &names), Err(ConnectError::InvalidTarget));
}
