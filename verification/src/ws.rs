//! The subscription facade: for each stream, where to connect and what to
//! send first.
//!
//! Nothing here touches the network. Each operation checks the category,
//! formats the topics and returns a [`Session`], which the caller hands to its
//! connection provider. An operation that fails has asked for no connection.

use crate::errors::{StreamError, StreamErrorView};
use crate::event_loop::{handled, FrameView, InboundFrame};
use crate::model::{
    Category, EventKind, EventView, PongData, PongDataView, PongResponse, PongResponseView, Public,
    Subscription, WebsocketAPI, WebsocketEvents,
};
use crate::topic::{
    execution_topic, format_kline, format_orderbook, format_scoped, format_ticker, format_trade,
    kline_topic, order_topic, orderbook_topic, position_topic, ticker_topic, trade_topic,
    wallet_topic,
};
use crate::util::{
    build_json_request, build_request, is_request_id, request_text, OutboundRequestView,
};
use vstd::prelude::*;

verus! {

/// What the connection provider is asked for, and which events the caller
/// wants to see.
#[derive(Debug, Clone, PartialEq, Eq)]
pub struct Session {
    /// Where to connect.
    pub endpoint: WebsocketAPI,
    /// The frame to send as soon as the connection stands.
    pub request: String,
    /// Whether the provider has to authenticate first.
    pub private: bool,
    /// For how many seconds one read may block. `None` is for ever.
    pub timeout: Option<u64>,
    /// The one kind of event that the session is about. `None` is every kind.
    pub expects: Option<EventKind>,
}

/// The mathematical value of a [`Session`].
pub struct SessionView {
    pub endpoint: WebsocketAPI,
    pub request: Seq<char>,
    pub private: bool,
    pub timeout: Option<u64>,
    pub expects: Option<EventKind>,
}

impl View for Session {
    type V = SessionView;

    open spec fn view(&self) -> SessionView {
        SessionView {
            endpoint: self.endpoint,
            request: self.request@,
            private: self.private,
            timeout: self.timeout,
            expects: self.expects,
        }
    }
}

impl Session {
    /// Whether the session is about this event: whether a handler that is
    /// bound to the session should be shown it.
    pub fn wants(&self, event: &WebsocketEvents) -> (wanted: bool)
        ensures
            wanted == (self.expects is None || self.expects == Some(event@.kind())),
    {
        match self.expects {
            Some(kind) => kind == event.kind(),
            None => true,
        }
    }
}

/// Whether `text` is the wire form of a request with the given operation and
/// topics, under some well-formed request identifier.
pub open spec fn is_request_for(
    text: Seq<char>,
    op: Seq<char>,
    args: Option<Seq<Seq<char>>>,
) -> bool {
    exists|id: Seq<char>|
        is_request_id(id) && text == #[trigger] request_text(
            OutboundRequestView { req_id: id, op, args },
        )
}

/// The public endpoint of a category. Options have none.
pub open spec fn public_endpoint(category: Category) -> Option<WebsocketAPI> {
    match category {
        Category::Linear => Some(WebsocketAPI::Public(Public::Linear)),
        Category::Inverse => Some(WebsocketAPI::Public(Public::Inverse)),
        Category::Spot => Some(WebsocketAPI::Public(Public::Spot)),
        Category::Option => None,
    }
}

/// Whether `session` opens a long-running subscription: it goes to
/// `endpoint`, authenticates exactly if that is the private endpoint, never
/// times out, and sends `op` with `topics`.
pub open spec fn subscribes(
    session: SessionView,
    endpoint: WebsocketAPI,
    op: Seq<char>,
    topics: Seq<Seq<char>>,
    expects: Option<EventKind>,
) -> bool {
    &&& session.endpoint == endpoint
    &&& session.private == (endpoint == WebsocketAPI::Private)
    &&& session.timeout is None
    &&& session.expects == expects
    &&& is_request_for(session.request, op, Some(topics))
}

/// What a subscription to public streams gives: the session on the
/// category's public endpoint, or the configuration error for options.
pub open spec fn subscribes_publicly(
    r: Result<Session, StreamError>,
    category: Category,
    op: Seq<char>,
    topics: Seq<Seq<char>>,
    expects: Option<EventKind>,
) -> bool {
    match r {
        Ok(session) => public_endpoint(category) matches Some(endpoint) && subscribes(
            session@,
            endpoint,
            op,
            topics,
            expects,
        ),
        Err(error) => category == Category::Option && error@ == StreamErrorView::Config(
            "Option has not been implemented"@,
        ),
    }
}

/// The topics of the order books `subs`, given as depth and symbol.
pub open spec fn orderbook_topics(subs: Seq<(i32, &str)>) -> Seq<Seq<char>> {
    Seq::new(subs.len(), |i: int| orderbook_topic(subs[i].0 as int, subs[i].1@))
}

/// The topics of the public trades of the symbols `subs`.
pub open spec fn trade_topics(subs: Seq<&str>) -> Seq<Seq<char>> {
    Seq::new(subs.len(), |i: int| trade_topic(subs[i]@))
}

/// The topics of the tickers of the symbols `subs`.
pub open spec fn ticker_topics(subs: Seq<&str>) -> Seq<Seq<char>> {
    Seq::new(subs.len(), |i: int| ticker_topic(subs[i]@))
}

/// The topics of the candles `subs`, given as interval and symbol.
pub open spec fn kline_topics(subs: Seq<(&str, &str)>) -> Seq<Seq<char>> {
    Seq::new(subs.len(), |i: int| kline_topic(subs[i].0@, subs[i].1@))
}

/// Whether the position stream exists for the category.
pub open spec fn position_supports(category: Option<Category>) -> bool {
    category is None || category == Some(Category::Linear) || category == Some(Category::Inverse)
}

/// The kind of pong that a connection answers a ping with.
pub open spec fn pong_kind(private: bool) -> EventKind {
    if private {
        EventKind::PrivatePong
    } else {
        EventKind::PublicPong
    }
}

/// Whether `session` is a liveness check: it goes to the private endpoint or
/// to the public endpoint of linear contracts, waits at most `timeout`
/// seconds for a frame, and sends a ping without topics.
pub open spec fn pings(session: SessionView, private: bool, timeout: u64) -> bool {
    &&& session.endpoint == if private {
        WebsocketAPI::Private
    } else {
        WebsocketAPI::Public(Public::Linear)
    }
    &&& session.private == private
    &&& session.timeout == Some(timeout)
    &&& session.expects == Some(pong_kind(private))
    &&& is_request_for(session.request, "ping"@, None)
}

/// What the one frame that answers a ping tells. A text frame that is the
/// pong of this kind of connection tells what the pong carries. Any other
/// frame that can be decoded, and a frame without text, tells nothing, which
/// is no error. A text frame that cannot be decoded is the decode error.
pub open spec fn pong_in(frame: FrameView, private: bool) -> Result<
    Option<PongDataView>,
    StreamErrorView,
> {
    match frame {
        FrameView::Text(text) => match handled(text) {
            Ok(Some(EventView::Pong(PongResponseView::PublicPong(data)))) => if private {
                Ok(None)
            } else {
                Ok(Some(data))
            },
            Ok(Some(EventView::Pong(PongResponseView::PrivatePong(data)))) => if private {
                Ok(Some(data))
            } else {
                Ok(None)
            },
            Ok(_) => Ok(None),
            Err(error) => Err(error),
        },
        _ => Ok(None),
    }
}

/// The value of what [`Stream::read_pong`] returns.
pub open spec fn pong_view(r: Result<Option<PongData>, StreamError>) -> Result<
    Option<PongDataView>,
    StreamErrorView,
> {
    match r {
        Ok(Some(data)) => Ok(Some(data@)),
        Ok(None) => Ok(None),
        Err(error) => Err(error@),
    }
}

/// The settings of the streaming client.
#[derive(Debug, Clone, PartialEq, Eq)]
pub struct Stream {
    /// For how many seconds a liveness check waits for its answer.
    pub ping_timeout: u64,
}

fn public_api(category: Category) -> (r: Result<WebsocketAPI, StreamError>)
    ensures
        match r {
            Ok(endpoint) => public_endpoint(category) == Some(endpoint),
            Err(error) => category == Category::Option && error@ == StreamErrorView::Config(
                "Option has not been implemented"@,
            ),
        },
{
    match category {
        Category::Linear => Ok(WebsocketAPI::Public(Public::Linear)),
        Category::Inverse => Ok(WebsocketAPI::Public(Public::Inverse)),
        Category::Spot => Ok(WebsocketAPI::Public(Public::Spot)),
        Category::Option => Err(
            StreamError::Config(String::from_str("Option has not been implemented")),
        ),
    }
}

fn subscribe_to(endpoint: WebsocketAPI, topics: Vec<String>, expects: EventKind) -> (session:
    Session)
    ensures
        subscribes(session@, endpoint, "subscribe"@, topics.deep_view(), Some(expects)),
{
    let private = match endpoint {
        WebsocketAPI::Private => true,
        WebsocketAPI::Public(_) => false,
    };
    let request = Stream::build_subscription(Subscription::new("subscribe", topics));
    Session { endpoint, request, private, timeout: None, expects: Some(expects) }
}

fn subscribe_privately(topic: String, expects: EventKind) -> (session: Session)
    ensures
        subscribes(session@, WebsocketAPI::Private, "subscribe"@, seq![topic@], Some(expects)),
{
    let mut topics: Vec<String> = Vec::new();
    topics.push(topic);
    assert(topics.deep_view() =~= seq![topic@]);
    subscribe_to(WebsocketAPI::Private, topics, expects)
}

impl Stream {
    /// Plans a liveness check: one ping, one frame read within the time
    /// limit.
    pub fn ws_ping(&self, private: bool) -> (session: Session)
        ensures
            pings(session@, private, self.ping_timeout),
    {
        let request = build_request("ping", None);
        let text = build_json_request(&request);
        assert(request@ == (OutboundRequestView {
            req_id: request.req_id@,
            op: "ping"@,
            args: None,
        }));
        if private {
            Session {
                endpoint: WebsocketAPI::Private,
                request: text,
                private,
                timeout: Some(self.ping_timeout),
                expects: Some(EventKind::PrivatePong),
            }
        } else {
            Session {
                endpoint: WebsocketAPI::Public(Public::Linear),
                request: text,
                private,
                timeout: Some(self.ping_timeout),
                expects: Some(EventKind::PublicPong),
            }
        }
    }

    /// Reads the answer to a ping out of the one frame that the liveness
    /// check received. `Ok(None)` means that the frame was no pong of this
    /// kind of connection; that is not reported as an error.
    pub fn read_pong(frame: &InboundFrame, private: bool) -> (r: Result<
        Option<PongData>,
        StreamError,
    >)
        ensures
            pong_view(r) == pong_in(frame@, private),
    {
        match frame {
            InboundFrame::Text(text) => match Self::handle_msg(text.as_str()) {
                Ok(Some(WebsocketEvents::Pong(PongResponse::PublicPong(data)))) => if private {
                    Ok(None)
                } else {
                    Ok(Some(data))
                },
                Ok(Some(WebsocketEvents::Pong(PongResponse::PrivatePong(data)))) => if private {
                    Ok(Some(data))
                } else {
                    Ok(None)
                },
                Ok(_) => Ok(None),
                Err(error) => Err(error),
            },
            _ => Ok(None),
        }
    }

    /// Writes a subscription out as the frame that asks for it, under a fresh
    /// random request identifier.
    pub fn build_subscription(action: Subscription) -> (text: String)
        ensures
            is_request_for(text@, action@.op, Some(action@.args)),
    {
        let request = build_request(action.op.as_str(), Some(action.args));
        let text = build_json_request(&request);
        assert(request@ == (OutboundRequestView {
            req_id: request.req_id@,
            op: action@.op,
            args: Some(action@.args),
        }));
        text
    }

    /// Plans a subscription to public streams of a category. Options have no
    /// public endpoint: for them the configuration error is returned.
    pub fn ws_subscribe(&self, req: Subscription, category: Category) -> (r: Result<
        Session,
        StreamError,
    >)
        ensures
            subscribes_publicly(r, category, req@.op, req@.args, None),
    {
        let endpoint = match public_api(category) {
            Ok(endpoint) => endpoint,
            Err(error) => {
                return Err(error);
            },
        };
        let request = Self::build_subscription(req);
        Ok(Session { endpoint, request, private: false, timeout: None, expects: None })
    }

    /// Plans a subscription to private streams. It goes to the private
    /// endpoint whatever the topics are.
    pub fn ws_priv_subscribe(&self, req: Subscription) -> (session: Session)
        ensures
            subscribes(session@, WebsocketAPI::Private, req@.op, req@.args, None),
    {
        let request = Self::build_subscription(req);
        Session {
            endpoint: WebsocketAPI::Private,
            request,
            private: true,
            timeout: None,
            expects: None,
        }
    }

    /// Plans a subscription to order books, each given as depth and symbol.
    pub fn ws_orderbook(&self, subs: Vec<(i32, &str)>, category: Category) -> (r: Result<
        Session,
        StreamError,
    >)
        ensures
            subscribes_publicly(
                r,
                category,
                "subscribe"@,
                orderbook_topics(subs@),
                Some(EventKind::OrderBook),
            ),
    {
        let endpoint = match public_api(category) {
            Ok(endpoint) => endpoint,
            Err(error) => {
                return Err(error);
            },
        };
        let mut topics: Vec<String> = Vec::new();
        let mut i: usize = 0;
        while i < subs.len()
            invariant
                i <= subs.len(),
                topics.deep_view() == orderbook_topics(subs@.take(i as int)),
            decreases subs.len() - i,
        {
            let (depth, symbol) = subs[i];
            let ghost before = topics.deep_view();
            let topic = format_orderbook(depth, symbol);
            topics.push(topic);
            assert(topics.deep_view() =~= before.push(topic@));
            assert(orderbook_topics(subs@.take(i + 1)) =~= orderbook_topics(
                subs@.take(i as int),
            ).push(topic@));
            i += 1;
        }
        assert(subs@.take(subs.len() as int) =~= subs@);
        Ok(subscribe_to(endpoint, topics, EventKind::OrderBook))
    }

    /// Plans a subscription to the public trades of some symbols.
    pub fn ws_trades(&self, subs: Vec<&str>, category: Category) -> (r: Result<
        Session,
        StreamError,
    >)
        ensures
            subscribes_publicly(
                r,
                category,
                "subscribe"@,
                trade_topics(subs@),
                Some(EventKind::Trade),
            ),
    {
        let endpoint = match public_api(category) {
            Ok(endpoint) => endpoint,
            Err(error) => {
                return Err(error);
            },
        };
        let mut topics: Vec<String> = Vec::new();
        let mut i: usize = 0;
        while i < subs.len()
            invariant
                i <= subs.len(),
                topics.deep_view() == trade_topics(subs@.take(i as int)),
            decreases subs.len() - i,
        {
            let ghost before = topics.deep_view();
            let topic = format_trade(subs[i]);
            topics.push(topic);
            assert(topics.deep_view() =~= before.push(topic@));
            assert(trade_topics(subs@.take(i + 1)) =~= trade_topics(subs@.take(i as int)).push(
                topic@,
            ));
            i += 1;
        }
        assert(subs@.take(subs.len() as int) =~= subs@);
        Ok(subscribe_to(endpoint, topics, EventKind::Trade))
    }

    /// Plans a subscription to the tickers of some symbols.
    pub fn ws_tickers(&self, subs: Vec<&str>, category: Category) -> (r: Result<
        Session,
        StreamError,
    >)
        ensures
            subscribes_publicly(
                r,
                category,
                "subscribe"@,
                ticker_topics(subs@),
                Some(EventKind::Ticker),
            ),
    {
        let endpoint = match public_api(category) {
            Ok(endpoint) => endpoint,
            Err(error) => {
                return Err(error);
            },
        };
        let mut topics: Vec<String> = Vec::new();
        let mut i: usize = 0;
        while i < subs.len()
            invariant
                i <= subs.len(),
                topics.deep_view() == ticker_topics(subs@.take(i as int)),
            decreases subs.len() - i,
        {
            let ghost before = topics.deep_view();
            let topic = format_ticker(subs[i]);
            topics.push(topic);
            assert(topics.deep_view() =~= before.push(topic@));
            assert(ticker_topics(subs@.take(i + 1)) =~= ticker_topics(subs@.take(i as int)).push(
                topic@,
            ));
            i += 1;
        }
        assert(subs@.take(subs.len() as int) =~= subs@);
        Ok(subscribe_to(endpoint, topics, EventKind::Ticker))
    }

    /// Plans a subscription to candles, each given as interval and symbol.
    pub fn ws_klines(&self, subs: Vec<(&str, &str)>, category: Category) -> (r: Result<
        Session,
        StreamError,
    >)
        ensures
            subscribes_publicly(
                r,
                category,
                "subscribe"@,
                kline_topics(subs@),
                Some(EventKind::Kline),
            ),
    {
        let endpoint = match public_api(category) {
            Ok(endpoint) => endpoint,
            Err(error) => {
                return Err(error);
            },
        };
        let mut topics: Vec<String> = Vec::new();
        let mut i: usize = 0;
        while i < subs.len()
            invariant
                i <= subs.len(),
                topics.deep_view() == kline_topics(subs@.take(i as int)),
            decreases subs.len() - i,
        {
            let (interval, symbol) = subs[i];
            let ghost before = topics.deep_view();
            let topic = format_kline(interval, symbol);
            topics.push(topic);
            assert(topics.deep_view() =~= before.push(topic@));
            assert(kline_topics(subs@.take(i + 1)) =~= kline_topics(subs@.take(i as int)).push(
                topic@,
            ));
            i += 1;
        }
        assert(subs@.take(subs.len() as int) =~= subs@);
        Ok(subscribe_to(endpoint, topics, EventKind::Kline))
    }

    /// Plans a subscription to the position stream: of every category, of
    /// linear or of inverse contracts. The stream does not exist for spot
    /// and options: for them the configuration error is returned.
    pub fn ws_position(&self, cat: Option<Category>) -> (r: Result<Session, StreamError>)
        ensures
            match r {
                Ok(session) => position_supports(cat) && subscribes(
                    session@,
                    WebsocketAPI::Private,
                    "subscribe"@,
                    seq![position_topic(cat)],
                    Some(EventKind::Position),
                ),
                Err(error) => !position_supports(cat) && error@ == StreamErrorView::Config(
                    "Option and Spot has not been implemented"@,
                ),
            },
    {
        match cat {
            Some(Category::Spot) | Some(Category::Option) => Err(
                StreamError::Config(String::from_str("Option and Spot has not been implemented")),
            ),
            _ => Ok(subscribe_privately(format_scoped("position", cat), EventKind::Position)),
        }
    }

    /// Plans a subscription to the execution stream, of every category or of
    /// one.
    pub fn ws_executions(&self, cat: Option<Category>) -> (session: Session)
        ensures
            subscribes(
                session@,
                WebsocketAPI::Private,
                "subscribe"@,
                seq![execution_topic(cat)],
                Some(EventKind::Execution),
            ),
    {
        subscribe_privately(format_scoped("execution", cat), EventKind::Execution)
    }

    /// Plans a subscription to the order stream, of every category or of one.
    pub fn ws_orders(&self, cat: Option<Category>) -> (session: Session)
        ensures
            subscribes(
                session@,
                WebsocketAPI::Private,
                "subscribe"@,
                seq![order_topic(cat)],
                Some(EventKind::Order),
            ),
    {
        subscribe_privately(format_scoped("order", cat), EventKind::Order)
    }

    /// Plans a subscription to the wallet stream.
    pub fn ws_wallet(&self) -> (session: Session)
        ensures
            subscribes(
                session@,
                WebsocketAPI::Private,
                "subscribe"@,
                seq![wallet_topic()],
                Some(EventKind::Wallet),
            ),
    {
        subscribe_privately(String::from_str("wallet"), EventKind::Wallet)
    }
}

/// Options have no public stream. Whatever the stream and the topics, the
/// plan of a public subscription for options is the configuration error, so
/// no connection is asked for; for every other category it is a session.
pub proof fn lemma_only_options_are_refused(
    r: Result<Session, StreamError>,
    category: Category,
    op: Seq<char>,
    topics: Seq<Seq<char>>,
    expects: Option<EventKind>,
)
    requires
        subscribes_publicly(r, category, op, topics, expects),
    ensures
        category == Category::Option <==> r is Err,
        r is Err ==> r->Err_0@ is Config,
{
}

} // verus!
