use market_stream::errors::StreamError;
use market_stream::model::{Category, EventKind, Public, WebsocketAPI};
use market_stream::text::{push_decimal, same_text, stream_kind_of};
use market_stream::topic::{
    format_kline, format_orderbook, format_scoped, format_ticker, format_trade,
};
use market_stream::ws::{Session, Stream};

fn stream() -> Stream {
    Stream { ping_timeout: 9 }
}

fn decimal(n: i32) -> String {
    let mut out = String::new();
    push_decimal(&mut out, n);
    out
}

/// Splits the text of a subscription into the part before the identifier,
/// the identifier and the part after it.
fn parts(request: &str) -> (String, String, String) {
    let marker = "\"req_id\":\"";
    let at = request.find(marker).expect("the request names its identifier");
    let start = at + marker.len();
    let head = request[..start].to_string();
    let id = request[start..start + 8].to_string();
    let tail = request[start + 8..].to_string();
    (head, id, tail)
}

fn assert_subscription(session: &Session, args: &str) {
    let (head, id, tail) = parts(&session.request);
    assert_eq!(head, format!("{{\"args\":[{}],\"op\":\"subscribe\",\"req_id\":\"", args));
    assert_eq!(id.len(), 8);
    assert!(id.chars().all(|c| c.is_ascii_alphanumeric()));
    assert_eq!(tail, "\"}");
}

#[test]
fn decimal_of_small_numbers() {
    assert_eq!(decimal(0), "0");
    assert_eq!(decimal(7), "7");
    assert_eq!(decimal(10), "10");
    assert_eq!(decimal(50), "50");
    assert_eq!(decimal(1000), "1000");
}

#[test]
fn decimal_of_negative_numbers() {
    assert_eq!(decimal(-1), "-1");
    assert_eq!(decimal(-250), "-250");
}

#[test]
fn decimal_of_the_extremes() {
    assert_eq!(decimal(i32::MAX), "2147483647");
    assert_eq!(decimal(i32::MIN), "-2147483648");
}

#[test]
fn decimal_appends_to_what_is_there() {
    let mut out = String::from("depth ");
    push_decimal(&mut out, 200);
    assert_eq!(out, "depth 200");
}

#[test]
fn same_text_compares_characters() {
    assert!(same_text("kline", "kline"));
    assert!(!same_text("kline", "klines"));
    assert!(!same_text("kline", "Kline"));
    assert!(same_text("", ""));
}

#[test]
fn stream_kind_is_the_part_before_the_first_dot() {
    assert_eq!(stream_kind_of("orderbook.50.BTCUSD"), "orderbook");
    assert_eq!(stream_kind_of("publicTrade.ETHUSD"), "publicTrade");
    assert_eq!(stream_kind_of("wallet"), "wallet");
    assert_eq!(stream_kind_of(""), "");
    assert_eq!(stream_kind_of(".hidden"), "");
    assert_eq!(stream_kind_of("order."), "order");
}

#[test]
fn stream_kind_of_text_beyond_ascii() {
    assert_eq!(stream_kind_of("tíckers.€UR"), "tíckers");
}

#[test]
fn orderbook_topic_has_depth_and_symbol() {
    assert_eq!(format_orderbook(50, "BTCUSD"), "orderbook.50.BTCUSD");
    assert_eq!(format_orderbook(1, "ethusdt"), "orderbook.1.ETHUSDT");
}

#[test]
fn orderbook_topic_keeps_a_negative_depth() {
    assert_eq!(format_orderbook(-5, "btc"), "orderbook.-5.BTC");
}

#[test]
fn trade_topic_puts_the_symbol_in_upper_case() {
    assert_eq!(format_trade("ETHUSD"), "publicTrade.ETHUSD");
    assert_eq!(format_trade("ethusd"), "publicTrade.ETHUSD");
    assert_eq!(format_trade("EthUsd"), "publicTrade.ETHUSD");
}

#[test]
fn ticker_topic_puts_the_symbol_in_upper_case() {
    assert_eq!(format_ticker("btcusd"), "tickers.BTCUSD");
    assert_eq!(format_ticker("BTCUSD"), "tickers.BTCUSD");
}

#[test]
fn kline_topic_keeps_the_interval() {
    assert_eq!(format_kline("5", "btcusd"), "kline.5.BTCUSD");
    assert_eq!(format_kline("d", "btcusd"), "kline.d.BTCUSD");
    assert_eq!(format_kline("D", "BTCUSD"), "kline.D.BTCUSD");
}

#[test]
fn topics_of_an_empty_symbol() {
    assert_eq!(format_trade(""), "publicTrade.");
    assert_eq!(format_orderbook(25, ""), "orderbook.25.");
}

#[test]
fn upper_case_follows_unicode() {
    assert_eq!(format_ticker("straße"), "tickers.STRASSE");
}

#[test]
fn scoped_topics_name_the_category() {
    assert_eq!(format_scoped("position", None), "position");
    assert_eq!(format_scoped("position", Some(Category::Linear)), "position.linear");
    assert_eq!(format_scoped("position", Some(Category::Inverse)), "position.inverse");
    assert_eq!(format_scoped("order", Some(Category::Spot)), "order.spot");
    assert_eq!(format_scoped("execution", Some(Category::Option)), "execution.option");
}

#[test]
fn orderbook_subscription_for_linear() {
    let session = stream()
        .ws_orderbook(vec![(50, "btcusd"), (200, "ETHUSD")], Category::Linear)
        .expect("linear order books exist");
    assert_eq!(session.endpoint, WebsocketAPI::Public(Public::Linear));
    assert!(!session.private);
    assert_eq!(session.timeout, None);
    assert_eq!(session.expects, Some(EventKind::OrderBook));
    assert_subscription(&session, "\"orderbook.50.BTCUSD\",\"orderbook.200.ETHUSD\"");
}

#[test]
fn trade_subscription_for_inverse() {
    let session = stream()
        .ws_trades(vec!["btcusd", "ethusd"], Category::Inverse)
        .expect("inverse trades exist");
    assert_eq!(session.endpoint, WebsocketAPI::Public(Public::Inverse));
    assert!(!session.private);
    assert_eq!(session.timeout, None);
    assert_eq!(session.expects, Some(EventKind::Trade));
    assert_subscription(&session, "\"publicTrade.BTCUSD\",\"publicTrade.ETHUSD\"");
}

#[test]
fn ticker_subscription_for_spot() {
    let session =
        stream().ws_tickers(vec!["btcusdt"], Category::Spot).expect("spot tickers exist");
    assert_eq!(session.endpoint, WebsocketAPI::Public(Public::Spot));
    assert!(!session.private);
    assert_eq!(session.expects, Some(EventKind::Ticker));
    assert_subscription(&session, "\"tickers.BTCUSDT\"");
}

#[test]
fn kline_subscription_for_linear() {
    let session = stream()
        .ws_klines(vec![("5", "btcusd"), ("60", "ethusd")], Category::Linear)
        .expect("linear candles exist");
    assert_eq!(session.endpoint, WebsocketAPI::Public(Public::Linear));
    assert_eq!(session.expects, Some(EventKind::Kline));
    assert_subscription(&session, "\"kline.5.BTCUSD\",\"kline.60.ETHUSD\"");
}

#[test]
fn subscription_without_symbols_has_no_topics() {
    let session = stream().ws_trades(vec![], Category::Linear).expect("linear trades exist");
    assert_subscription(&session, "");
}

#[test]
fn public_streams_refuse_options() {
    let expected = StreamError::Config("Option has not been implemented".to_string());
    assert_eq!(stream().ws_orderbook(vec![(50, "BTC")], Category::Option), Err(expected.clone()));
    assert_eq!(stream().ws_trades(vec!["BTC"], Category::Option), Err(expected.clone()));
    assert_eq!(stream().ws_tickers(vec!["BTC"], Category::Option), Err(expected.clone()));
    assert_eq!(stream().ws_klines(vec![("5", "BTC")], Category::Option), Err(expected));
}

#[test]
fn public_streams_refuse_options_without_symbols_too() {
    let expected = StreamError::Config("Option has not been implemented".to_string());
    assert_eq!(stream().ws_trades(vec![], Category::Option), Err(expected));
}

#[test]
fn position_subscription_by_category() {
    let all = stream().ws_position(None).expect("positions of every category exist");
    assert_eq!(all.endpoint, WebsocketAPI::Private);
    assert!(all.private);
    assert_eq!(all.timeout, None);
    assert_eq!(all.expects, Some(EventKind::Position));
    assert_subscription(&all, "\"position\"");
    let linear = stream().ws_position(Some(Category::Linear)).expect("linear positions exist");
    assert_subscription(&linear, "\"position.linear\"");
    let inverse = stream().ws_position(Some(Category::Inverse)).expect("inverse positions exist");
    assert_subscription(&inverse, "\"position.inverse\"");
}

#[test]
fn position_stream_refuses_spot_and_options() {
    let expected = StreamError::Config("Option and Spot has not been implemented".to_string());
    assert_eq!(stream().ws_position(Some(Category::Spot)), Err(expected.clone()));
    assert_eq!(stream().ws_position(Some(Category::Option)), Err(expected));
}

#[test]
fn execution_subscription_by_category() {
    let cases = [
        (None, "\"execution\""),
        (Some(Category::Linear), "\"execution.linear\""),
        (Some(Category::Inverse), "\"execution.inverse\""),
        (Some(Category::Spot), "\"execution.spot\""),
        (Some(Category::Option), "\"execution.option\""),
    ];
    for (category, args) in cases {
        let session = stream().ws_executions(category);
        assert_eq!(session.endpoint, WebsocketAPI::Private);
        assert!(session.private);
        assert_eq!(session.timeout, None);
        assert_eq!(session.expects, Some(EventKind::Execution));
        assert_subscription(&session, args);
    }
}

#[test]
fn order_subscription_by_category() {
    let cases = [
        (None, "\"order\""),
        (Some(Category::Linear), "\"order.linear\""),
        (Some(Category::Inverse), "\"order.inverse\""),
        (Some(Category::Spot), "\"order.spot\""),
        (Some(Category::Option), "\"order.option\""),
    ];
    for (category, args) in cases {
        let session = stream().ws_orders(category);
        assert_eq!(session.endpoint, WebsocketAPI::Private);
        assert!(session.private);
        assert_eq!(session.expects, Some(EventKind::Order));
        assert_subscription(&session, args);
    }
}

#[test]
fn wallet_subscription() {
    let session = stream().ws_wallet();
    assert_eq!(session.endpoint, WebsocketAPI::Private);
    assert!(session.private);
    assert_eq!(session.timeout, None);
    assert_eq!(session.expects, Some(EventKind::Wallet));
    assert_subscription(&session, "\"wallet\"");
}
