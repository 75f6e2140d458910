//! Which event a decoded frame is.
//!
//! A frame with a topic is an update of the stream that the topic names. A
//! frame without one is the answer to a ping if it has the shape of one.
//! Every other frame is no event.

use crate::json::{Payload, PayloadView};
use crate::model::{
    event_view, EventView, PongData, PongDataView, PongResponse, PongResponseView, StreamUpdate,
    StreamUpdateView, WebsocketEvents,
};
use crate::model::Category;
use crate::text::{same_text, stream_kind, stream_kind_of};
use crate::topic::{
    execution_topic, kline_topic, lemma_kind_of_dotted, lemma_kind_of_plain, order_topic,
    orderbook_topic, position_topic, scoped_topic, ticker_topic, trade_topic, wallet_topic,
};
use vstd::prelude::*;

verus! {

/// The event that an update is, by the kind of its stream. A kind that names
/// no known stream gives no event.
pub open spec fn stream_event(kind: Seq<char>, update: StreamUpdateView) -> Option<EventView> {
    if kind == "orderbook"@ {
        Some(EventView::OrderBookEvent(update))
    } else if kind == "publicTrade"@ {
        Some(EventView::TradeEvent(update))
    } else if kind == "tickers"@ {
        Some(EventView::TickerEvent(update))
    } else if kind == "kline"@ {
        Some(EventView::KlineEvent(update))
    } else if kind == "position"@ {
        Some(EventView::PositionEvent(update))
    } else if kind == "execution"@ {
        Some(EventView::ExecutionEvent(update))
    } else if kind == "order"@ {
        Some(EventView::OrderEvent(update))
    } else if kind == "wallet"@ {
        Some(EventView::Wallet(update))
    } else {
        None
    }
}

/// The answer to a ping that a frame without a topic is. It must name the
/// connection. A public connection echoes the operation `ping` and remarks
/// `pong`; a private one answers with the operation `pong`.
pub open spec fn pong_event(payload: PayloadView) -> Option<EventView> {
    match (payload.op, payload.conn_id) {
        (Some(op), Some(conn_id)) => {
            let data = PongDataView {
                conn_id,
                req_id: payload.req_id,
                ret_msg: payload.ret_msg,
                op,
            };
            if op == "ping"@ && payload.ret_msg == Some("pong"@) {
                Some(EventView::Pong(PongResponseView::PublicPong(data)))
            } else if op == "pong"@ {
                Some(EventView::Pong(PongResponseView::PrivatePong(data)))
            } else {
                None
            }
        },
        _ => None,
    }
}

/// The event that a decoded frame is, if it is one.
pub open spec fn classified(payload: PayloadView) -> Option<EventView> {
    match payload.topic {
        Some(topic) => stream_event(
            stream_kind(topic),
            StreamUpdateView { topic, text: payload.text },
        ),
        None => pong_event(payload),
    }
}

fn classify_update(kind: &str, update: StreamUpdate) -> (event: Option<WebsocketEvents>)
    ensures
        event_view(event) == stream_event(kind@, update@),
{
    if same_text(kind, "orderbook") {
        Some(WebsocketEvents::OrderBookEvent(update))
    } else if same_text(kind, "publicTrade") {
        Some(WebsocketEvents::TradeEvent(update))
    } else if same_text(kind, "tickers") {
        Some(WebsocketEvents::TickerEvent(update))
    } else if same_text(kind, "kline") {
        Some(WebsocketEvents::KlineEvent(update))
    } else if same_text(kind, "position") {
        Some(WebsocketEvents::PositionEvent(update))
    } else if same_text(kind, "execution") {
        Some(WebsocketEvents::ExecutionEvent(update))
    } else if same_text(kind, "order") {
        Some(WebsocketEvents::OrderEvent(update))
    } else if same_text(kind, "wallet") {
        Some(WebsocketEvents::Wallet(update))
    } else {
        None
    }
}

fn classify_pong(payload: &Payload) -> (event: Option<WebsocketEvents>)
    ensures
        event_view(event) == pong_event(payload@),
{
    match (&payload.op, &payload.conn_id) {
        (Some(op), Some(conn_id)) => {
            let remarks_pong = match &payload.ret_msg {
                Some(remark) => same_text(remark.as_str(), "pong"),
                None => false,
            };
            let data = PongData {
                conn_id: conn_id.clone(),
                req_id: payload.req_id.clone(),
                ret_msg: payload.ret_msg.clone(),
                op: op.clone(),
            };
            if same_text(op.as_str(), "ping") && remarks_pong {
                Some(WebsocketEvents::Pong(PongResponse::PublicPong(data)))
            } else if same_text(op.as_str(), "pong") {
                Some(WebsocketEvents::Pong(PongResponse::PrivatePong(data)))
            } else {
                None
            }
        },
        _ => None,
    }
}

/// Classifies a decoded frame. The answer depends on the payload alone: the
/// same payload is always the same event, or always none.
pub fn classify(payload: &Payload) -> (event: Option<WebsocketEvents>)
    ensures
        event_view(event) == classified(payload@),
{
    match &payload.topic {
        Some(topic) => {
            let kind = stream_kind_of(topic.as_str());
            let update = StreamUpdate { topic: topic.clone(), text: payload.text.clone() };
            classify_update(kind.as_str(), update)
        },
        None => classify_pong(payload),
    }
}

/// The update that a frame with a topic carries.
pub open spec fn update_in(payload: PayloadView) -> StreamUpdateView {
    StreamUpdateView { topic: payload.topic->0, text: payload.text }
}

proof fn lemma_kinds_differ()
    ensures
        "orderbook"@ != "publicTrade"@,
        "orderbook"@ != "tickers"@,
        "orderbook"@ != "kline"@,
        "orderbook"@ != "position"@,
        "orderbook"@ != "execution"@,
        "orderbook"@ != "order"@,
        "orderbook"@ != "wallet"@,
        "publicTrade"@ != "tickers"@,
        "publicTrade"@ != "kline"@,
        "publicTrade"@ != "position"@,
        "publicTrade"@ != "execution"@,
        "publicTrade"@ != "order"@,
        "publicTrade"@ != "wallet"@,
        "tickers"@ != "kline"@,
        "tickers"@ != "position"@,
        "tickers"@ != "execution"@,
        "tickers"@ != "order"@,
        "tickers"@ != "wallet"@,
        "kline"@ != "position"@,
        "kline"@ != "execution"@,
        "kline"@ != "order"@,
        "kline"@ != "wallet"@,
        "position"@ != "execution"@,
        "position"@ != "order"@,
        "position"@ != "wallet"@,
        "execution"@ != "order"@,
        "execution"@ != "wallet"@,
        "order"@ != "wallet"@,
{
    reveal_strlit("orderbook");
    reveal_strlit("publicTrade");
    reveal_strlit("tickers");
    reveal_strlit("kline");
    reveal_strlit("position");
    reveal_strlit("execution");
    reveal_strlit("order");
    reveal_strlit("wallet");
    assert("orderbook"@.len() == 9);
    assert("publicTrade"@.len() == 11);
    assert("tickers"@.len() == 7);
    assert("kline"@.len() == 5);
    assert("position"@.len() == 8);
    assert("execution"@.len() == 9);
    assert("order"@.len() == 5);
    assert("wallet"@.len() == 6);
    assert("orderbook"@[0] != "execution"@[0]);
    assert("kline"@[0] != "order"@[0]);
}

proof fn lemma_kinds_have_no_dot()
    ensures
        forall|i: int| 0 <= i < "orderbook"@.len() ==> "orderbook"@[i] != '.',
        forall|i: int| 0 <= i < "publicTrade"@.len() ==> "publicTrade"@[i] != '.',
        forall|i: int| 0 <= i < "tickers"@.len() ==> "tickers"@[i] != '.',
        forall|i: int| 0 <= i < "kline"@.len() ==> "kline"@[i] != '.',
        forall|i: int| 0 <= i < "position"@.len() ==> "position"@[i] != '.',
        forall|i: int| 0 <= i < "execution"@.len() ==> "execution"@[i] != '.',
        forall|i: int| 0 <= i < "order"@.len() ==> "order"@[i] != '.',
        forall|i: int| 0 <= i < "wallet"@.len() ==> "wallet"@[i] != '.',
        "orderbook."@ == "orderbook"@ + seq!['.'],
        "publicTrade."@ == "publicTrade"@ + seq!['.'],
        "tickers."@ == "tickers"@ + seq!['.'],
        "kline."@ == "kline"@ + seq!['.'],
{
    reveal_strlit("orderbook");
    reveal_strlit("publicTrade");
    reveal_strlit("tickers");
    reveal_strlit("kline");
    reveal_strlit("position");
    reveal_strlit("execution");
    reveal_strlit("order");
    reveal_strlit("wallet");
    reveal_strlit("orderbook.");
    reveal_strlit("publicTrade.");
    reveal_strlit("tickers.");
    reveal_strlit("kline.");
    assert("orderbook."@ =~= "orderbook"@ + seq!['.']);
    assert("publicTrade."@ =~= "publicTrade"@ + seq!['.']);
    assert("tickers."@ =~= "tickers"@ + seq!['.']);
    assert("kline."@ =~= "kline"@ + seq!['.']);
}

proof fn lemma_kind_of_scoped(kind: Seq<char>, category: Option<Category>)
    requires
        forall|i: int| 0 <= i < kind.len() ==> kind[i] != '.',
    ensures
        stream_kind(scoped_topic(kind, category)) == kind,
{
    match category {
        Some(c) => {
            lemma_kind_of_dotted(kind, crate::topic::category_text(c));
        },
        None => {
            lemma_kind_of_plain(kind);
        },
    }
}

/// Every topic that the facade formats is classified as an update of its own
/// stream, whatever depth, interval, symbol or category it was formatted
/// for: no topic of one stream is taken for another's.
pub proof fn lemma_topics_name_their_streams(
    payload: PayloadView,
    depth: int,
    interval: Seq<char>,
    symbol: Seq<char>,
    category: Option<Category>,
)
    ensures
        payload.topic == Some(orderbook_topic(depth, symbol)) ==> classified(payload) == Some(
            EventView::OrderBookEvent(update_in(payload)),
        ),
        payload.topic == Some(trade_topic(symbol)) ==> classified(payload) == Some(
            EventView::TradeEvent(update_in(payload)),
        ),
        payload.topic == Some(ticker_topic(symbol)) ==> classified(payload) == Some(
            EventView::TickerEvent(update_in(payload)),
        ),
        payload.topic == Some(kline_topic(interval, symbol)) ==> classified(payload) == Some(
            EventView::KlineEvent(update_in(payload)),
        ),
        payload.topic == Some(position_topic(category)) ==> classified(payload) == Some(
            EventView::PositionEvent(update_in(payload)),
        ),
        payload.topic == Some(execution_topic(category)) ==> classified(payload) == Some(
            EventView::ExecutionEvent(update_in(payload)),
        ),
        payload.topic == Some(order_topic(category)) ==> classified(payload) == Some(
            EventView::OrderEvent(update_in(payload)),
        ),
        payload.topic == Some(wallet_topic()) ==> classified(payload) == Some(
            EventView::Wallet(update_in(payload)),
        ),
{
    lemma_kinds_differ();
    lemma_kinds_have_no_dot();
    let upper = crate::text::uppercased(symbol);
    lemma_kind_of_dotted("orderbook"@, crate::text::decimal(depth) + seq!['.'] + upper);
    assert(orderbook_topic(depth, symbol) =~= "orderbook"@ + seq!['.'] + (crate::text::decimal(
        depth,
    ) + seq!['.'] + upper));
    lemma_kind_of_dotted("publicTrade"@, upper);
    lemma_kind_of_dotted("tickers"@, upper);
    lemma_kind_of_dotted("kline"@, interval + seq!['.'] + upper);
    assert(kline_topic(interval, symbol) =~= "kline"@ + seq!['.'] + (interval + seq!['.']
        + upper));
    lemma_kind_of_scoped("position"@, category);
    lemma_kind_of_scoped("execution"@, category);
    lemma_kind_of_scoped("order"@, category);
    lemma_kind_of_plain("wallet"@);
}

/// Classification reads nothing but the payload: two payloads with the same
/// value are the same event, or both none.
pub proof fn lemma_same_payload_same_event(first: Payload, second: Payload)
    requires
        first@ == second@,
    ensures
        classified(first@) == classified(second@),
{
}

} // verus!
