//! Topics: the strings that name the streams.
//!
//! A topic starts with the kind of its stream. What follows, after a dot,
//! narrows the stream down: a depth, an interval, a symbol in upper case, or
//! a category.

use crate::model::Category;
use crate::text::{decimal, lemma_stream_kind_is_prefix, push_decimal, stream_kind, uppercased};
use vstd::prelude::*;

verus! {

/// The topic of an order book of the given depth.
pub open spec fn orderbook_topic(depth: int, symbol: Seq<char>) -> Seq<char> {
    "orderbook."@ + decimal(depth) + seq!['.'] + uppercased(symbol)
}

/// The topic of the public trades of a symbol.
pub open spec fn trade_topic(symbol: Seq<char>) -> Seq<char> {
    "publicTrade."@ + uppercased(symbol)
}

/// The topic of the ticker of a symbol.
pub open spec fn ticker_topic(symbol: Seq<char>) -> Seq<char> {
    "tickers."@ + uppercased(symbol)
}

/// The topic of the candles of a symbol at the given interval. The interval
/// stands as it was given.
pub open spec fn kline_topic(interval: Seq<char>, symbol: Seq<char>) -> Seq<char> {
    "kline."@ + interval + seq!['.'] + uppercased(symbol)
}

/// The name of a category inside a topic.
pub open spec fn category_text(category: Category) -> Seq<char> {
    match category {
        Category::Linear => "linear"@,
        Category::Inverse => "inverse"@,
        Category::Spot => "spot"@,
        Category::Option => "option"@,
    }
}

/// The topic of a private stream: its kind alone for every category, or its
/// kind, a dot and the category's name for one of them.
pub open spec fn scoped_topic(kind: Seq<char>, category: Option<Category>) -> Seq<char> {
    match category {
        Some(c) => kind + seq!['.'] + category_text(c),
        None => kind,
    }
}

/// The topic of the position stream.
pub open spec fn position_topic(category: Option<Category>) -> Seq<char> {
    scoped_topic("position"@, category)
}

/// The topic of the execution stream.
pub open spec fn execution_topic(category: Option<Category>) -> Seq<char> {
    scoped_topic("execution"@, category)
}

/// The topic of the order stream.
pub open spec fn order_topic(category: Option<Category>) -> Seq<char> {
    scoped_topic("order"@, category)
}

/// The topic of the wallet stream.
pub open spec fn wallet_topic() -> Seq<char> {
    "wallet"@
}

/// Formats the topic of an order book. The symbol is put in upper case.
pub fn format_orderbook(depth: i32, symbol: &str) -> (topic: String)
    ensures
        topic@ == orderbook_topic(depth as int, symbol@),
{
    let mut topic = String::from_str("orderbook.");
    push_decimal(&mut topic, depth);
    topic.push('.');
    topic.append(symbol.to_uppercase().as_str());
    assert(topic@ =~= orderbook_topic(depth as int, symbol@));
    topic
}

/// Formats the topic of the public trades of a symbol. The symbol is put in
/// upper case.
pub fn format_trade(symbol: &str) -> (topic: String)
    ensures
        topic@ == trade_topic(symbol@),
{
    let mut topic = String::from_str("publicTrade.");
    topic.append(symbol.to_uppercase().as_str());
    topic
}

/// Formats the topic of the ticker of a symbol. The symbol is put in upper
/// case.
pub fn format_ticker(symbol: &str) -> (topic: String)
    ensures
        topic@ == ticker_topic(symbol@),
{
    let mut topic = String::from_str("tickers.");
    topic.append(symbol.to_uppercase().as_str());
    topic
}

/// Formats the topic of the candles of a symbol. The symbol is put in upper
/// case, the interval is not changed.
pub fn format_kline(interval: &str, symbol: &str) -> (topic: String)
    ensures
        topic@ == kline_topic(interval@, symbol@),
{
    let mut topic = String::from_str("kline.");
    topic.append(interval);
    topic.push('.');
    topic.append(symbol.to_uppercase().as_str());
    assert(topic@ =~= kline_topic(interval@, symbol@));
    topic
}

fn category_name(category: Category) -> (name: &'static str)
    ensures
        name@ == category_text(category),
{
    match category {
        Category::Linear => "linear",
        Category::Inverse => "inverse",
        Category::Spot => "spot",
        Category::Option => "option",
    }
}

/// Formats the topic of a private stream of the given kind.
pub fn format_scoped(kind: &str, category: Option<Category>) -> (topic: String)
    ensures
        topic@ == scoped_topic(kind@, category),
{
    let mut topic = String::from_str(kind);
    match category {
        Some(c) => {
            topic.push('.');
            topic.append(category_name(c));
        },
        None => {},
    }
    topic
}

/// A topic that starts with a kind without a dot, followed by a dot, has that
/// kind, whatever comes after the dot.
pub proof fn lemma_kind_of_dotted(kind: Seq<char>, rest: Seq<char>)
    requires
        forall|i: int| 0 <= i < kind.len() ==> kind[i] != '.',
    ensures
        stream_kind(kind + seq!['.'] + rest) == kind,
{
    let topic = kind + seq!['.'] + rest;
    lemma_stream_kind_is_prefix(topic, kind.len() as int);
    assert(topic.take(kind.len() as int) =~= kind);
}

/// A topic without a dot is its own kind.
pub proof fn lemma_kind_of_plain(kind: Seq<char>)
    requires
        forall|i: int| 0 <= i < kind.len() ==> kind[i] != '.',
    ensures
        stream_kind(kind) == kind,
{
    lemma_stream_kind_is_prefix(kind, kind.len() as int);
    assert(kind.take(kind.len() as int) =~= kind);
}

/// A topic depends on the spelling of its symbol only through the symbol's
/// upper-case form: two spellings that agree in upper case give the same
/// topic.
pub proof fn lemma_topics_ignore_case(
    depth: int,
    interval: Seq<char>,
    first: Seq<char>,
    second: Seq<char>,
)
    requires
        uppercased(first) == uppercased(second),
    ensures
        orderbook_topic(depth, first) == orderbook_topic(depth, second),
        trade_topic(first) == trade_topic(second),
        ticker_topic(first) == ticker_topic(second),
        kline_topic(interval, first) == kline_topic(interval, second),
{
}

} // verus!
