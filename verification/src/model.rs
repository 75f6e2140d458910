//! The data that the library works on: categories, endpoints, subscriptions
//! and the events that inbound frames are classified into.

use vstd::prelude::*;

verus! {

/// The market segment that a stream belongs to.
#[derive(Debug, Clone, Copy, PartialEq, Eq, Structural)]
pub enum Category {
    Linear,
    Inverse,
    Spot,
    Option,
}

/// The categories that have a public endpoint.
#[derive(Debug, Clone, Copy, PartialEq, Eq, Structural)]
pub enum Public {
    Linear,
    Inverse,
    Spot,
}

/// Where a connection is opened.
#[derive(Debug, Clone, Copy, PartialEq, Eq, Structural)]
pub enum WebsocketAPI {
    Public(Public),
    Private,
}

/// A request to be sent the updates of some streams.
#[derive(Debug, Clone, PartialEq, Eq)]
pub struct Subscription {
    /// The operation, `subscribe`.
    pub op: String,
    /// The topics, in the order in which they are sent.
    pub args: Vec<String>,
}

/// The mathematical value of a [`Subscription`].
pub struct SubscriptionView {
    pub op: Seq<char>,
    pub args: Seq<Seq<char>>,
}

impl View for Subscription {
    type V = SubscriptionView;

    open spec fn view(&self) -> SubscriptionView {
        SubscriptionView { op: self.op@, args: self.args.deep_view() }
    }
}

impl Subscription {
    /// A subscription with the given operation and topics.
    pub fn new(op: &str, args: Vec<String>) -> (subscription: Subscription)
        ensures
            subscription@ == (SubscriptionView { op: op@, args: args.deep_view() }),
    {
        Subscription { op: op.to_owned(), args }
    }
}

/// The kinds of event that a frame can be classified as.
#[derive(Debug, Clone, Copy, PartialEq, Eq, Structural)]
pub enum EventKind {
    OrderBook,
    Trade,
    Ticker,
    Kline,
    Position,
    Execution,
    Order,
    Wallet,
    PublicPong,
    PrivatePong,
}

/// An update of one stream.
#[derive(Debug, Clone, PartialEq, Eq)]
pub struct StreamUpdate {
    /// The topic that the update was published under.
    pub topic: String,
    /// The whole frame, for the handler to read the data from.
    pub text: String,
}

/// The mathematical value of a [`StreamUpdate`].
pub struct StreamUpdateView {
    pub topic: Seq<char>,
    pub text: Seq<char>,
}

impl View for StreamUpdate {
    type V = StreamUpdateView;

    open spec fn view(&self) -> StreamUpdateView {
        StreamUpdateView { topic: self.topic@, text: self.text@ }
    }
}

/// What the server's answer to a ping carries.
#[derive(Debug, Clone, PartialEq, Eq)]
pub struct PongData {
    /// The server's name for the connection.
    pub conn_id: String,
    /// The identifier of the ping, where the server echoes it.
    pub req_id: Option<String>,
    /// The server's remark, `pong` on a public connection.
    pub ret_msg: Option<String>,
    /// The operation that the answer names.
    pub op: String,
}

/// The mathematical value of a [`PongData`].
pub struct PongDataView {
    pub conn_id: Seq<char>,
    pub req_id: Option<Seq<char>>,
    pub ret_msg: Option<Seq<char>>,
    pub op: Seq<char>,
}

impl View for PongData {
    type V = PongDataView;

    open spec fn view(&self) -> PongDataView {
        PongDataView {
            conn_id: self.conn_id@,
            req_id: self.req_id.deep_view(),
            ret_msg: self.ret_msg.deep_view(),
            op: self.op@,
        }
    }
}

/// The answer to a ping, by the kind of connection that gives it.
#[derive(Debug, Clone, PartialEq, Eq)]
pub enum PongResponse {
    PublicPong(PongData),
    PrivatePong(PongData),
}

/// The mathematical value of a [`PongResponse`].
pub enum PongResponseView {
    PublicPong(PongDataView),
    PrivatePong(PongDataView),
}

impl View for PongResponse {
    type V = PongResponseView;

    open spec fn view(&self) -> PongResponseView {
        match self {
            PongResponse::PublicPong(data) => PongResponseView::PublicPong(data@),
            PongResponse::PrivatePong(data) => PongResponseView::PrivatePong(data@),
        }
    }
}

/// A classified inbound frame.
#[derive(Debug, Clone, PartialEq, Eq)]
pub enum WebsocketEvents {
    OrderBookEvent(StreamUpdate),
    TradeEvent(StreamUpdate),
    TickerEvent(StreamUpdate),
    KlineEvent(StreamUpdate),
    PositionEvent(StreamUpdate),
    ExecutionEvent(StreamUpdate),
    OrderEvent(StreamUpdate),
    Wallet(StreamUpdate),
    Pong(PongResponse),
}

/// The mathematical value of a [`WebsocketEvents`].
pub enum EventView {
    OrderBookEvent(StreamUpdateView),
    TradeEvent(StreamUpdateView),
    TickerEvent(StreamUpdateView),
    KlineEvent(StreamUpdateView),
    PositionEvent(StreamUpdateView),
    ExecutionEvent(StreamUpdateView),
    OrderEvent(StreamUpdateView),
    Wallet(StreamUpdateView),
    Pong(PongResponseView),
}

impl EventView {
    /// The kind of the event.
    pub open spec fn kind(self) -> EventKind {
        match self {
            EventView::OrderBookEvent(_) => EventKind::OrderBook,
            EventView::TradeEvent(_) => EventKind::Trade,
            EventView::TickerEvent(_) => EventKind::Ticker,
            EventView::KlineEvent(_) => EventKind::Kline,
            EventView::PositionEvent(_) => EventKind::Position,
            EventView::ExecutionEvent(_) => EventKind::Execution,
            EventView::OrderEvent(_) => EventKind::Order,
            EventView::Wallet(_) => EventKind::Wallet,
            EventView::Pong(PongResponseView::PublicPong(_)) => EventKind::PublicPong,
            EventView::Pong(PongResponseView::PrivatePong(_)) => EventKind::PrivatePong,
        }
    }
}

impl View for WebsocketEvents {
    type V = EventView;

    open spec fn view(&self) -> EventView {
        match self {
            WebsocketEvents::OrderBookEvent(update) => EventView::OrderBookEvent(update@),
            WebsocketEvents::TradeEvent(update) => EventView::TradeEvent(update@),
            WebsocketEvents::TickerEvent(update) => EventView::TickerEvent(update@),
            WebsocketEvents::KlineEvent(update) => EventView::KlineEvent(update@),
            WebsocketEvents::PositionEvent(update) => EventView::PositionEvent(update@),
            WebsocketEvents::ExecutionEvent(update) => EventView::ExecutionEvent(update@),
            WebsocketEvents::OrderEvent(update) => EventView::OrderEvent(update@),
            WebsocketEvents::Wallet(update) => EventView::Wallet(update@),
            WebsocketEvents::Pong(pong) => EventView::Pong(pong@),
        }
    }
}

impl WebsocketEvents {
    /// The kind of the event.
    pub fn kind(&self) -> (kind: EventKind)
        ensures
            kind == self@.kind(),
    {
        match self {
            WebsocketEvents::OrderBookEvent(_) => EventKind::OrderBook,
            WebsocketEvents::TradeEvent(_) => EventKind::Trade,
            WebsocketEvents::TickerEvent(_) => EventKind::Ticker,
            WebsocketEvents::KlineEvent(_) => EventKind::Kline,
            WebsocketEvents::PositionEvent(_) => EventKind::Position,
            WebsocketEvents::ExecutionEvent(_) => EventKind::Execution,
            WebsocketEvents::OrderEvent(_) => EventKind::Order,
            WebsocketEvents::Wallet(_) => EventKind::Wallet,
            WebsocketEvents::Pong(PongResponse::PublicPong(_)) => EventKind::PublicPong,
            WebsocketEvents::Pong(PongResponse::PrivatePong(_)) => EventKind::PrivatePong,
        }
    }
}

/// The value of an event that may be absent.
pub open spec fn event_view(event: Option<WebsocketEvents>) -> Option<EventView> {
    match event {
        Some(e) => Some(e@),
        None => None,
    }
}

} // verus!
