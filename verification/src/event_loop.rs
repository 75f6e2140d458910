//! The event loop, as the decisions it takes.
//!
//! The loop itself blocks on a socket and calls the caller's handler, so it
//! runs outside this library. What it does next is decided here: the program
//! starts in [`LoopState::Running`] with the action [`Action::Read`], carries
//! out each action, hands what came of it to [`Stream::event_loop`], and goes
//! on with the state and action it gets back.

use crate::classify::{classified, classify};
use crate::errors::{StreamError, StreamErrorView};
use crate::json::{decode, decoded};
use crate::model::{event_view, EventView, WebsocketEvents};
use crate::ws::Stream;
use vstd::prelude::*;

verus! {

/// One frame read from the connection.
#[derive(Debug, Clone, PartialEq, Eq)]
pub enum InboundFrame {
    /// A text frame, to be decoded.
    Text(String),
    /// A frame without text: a ping, a pong, binary data.
    Control,
    /// The peer's notice that it closes the connection.
    Closing,
}

/// The mathematical value of an [`InboundFrame`].
pub enum FrameView {
    Text(Seq<char>),
    Control,
    Closing,
}

impl View for InboundFrame {
    type V = FrameView;

    open spec fn view(&self) -> FrameView {
        match self {
            InboundFrame::Text(text) => FrameView::Text(text@),
            InboundFrame::Control => FrameView::Control,
            InboundFrame::Closing => FrameView::Closing,
        }
    }
}

/// What came of the action that the loop was told to carry out.
#[derive(Debug, PartialEq, Eq)]
pub enum LoopInput {
    /// A read delivered this frame.
    Frame(InboundFrame),
    /// A read failed, with the transport's message.
    ReadFailed(String),
    /// The handler returned.
    Handled(Result<(), StreamError>),
}

/// The mathematical value of a [`LoopInput`].
pub enum LoopInputView {
    Frame(FrameView),
    ReadFailed(Seq<char>),
    Handled(Result<(), StreamErrorView>),
}

impl View for LoopInput {
    type V = LoopInputView;

    open spec fn view(&self) -> LoopInputView {
        match self {
            LoopInput::Frame(frame) => LoopInputView::Frame(frame@),
            LoopInput::ReadFailed(message) => LoopInputView::ReadFailed(message@),
            LoopInput::Handled(Ok(_)) => LoopInputView::Handled(Ok(())),
            LoopInput::Handled(Err(error)) => LoopInputView::Handled(Err(error@)),
        }
    }
}

/// Where the loop stands. It runs until something fails, and then stays
/// stopped with the error that it returns.
#[derive(Debug, Clone, PartialEq, Eq)]
pub enum LoopState {
    Running,
    Stopped(StreamError),
}

/// The mathematical value of a [`LoopState`].
pub enum LoopStateView {
    Running,
    Stopped(StreamErrorView),
}

impl View for LoopState {
    type V = LoopStateView;

    open spec fn view(&self) -> LoopStateView {
        match self {
            LoopState::Running => LoopStateView::Running,
            LoopState::Stopped(error) => LoopStateView::Stopped(error@),
        }
    }
}

/// What the loop is to do next.
#[derive(Debug, Clone, PartialEq, Eq)]
pub enum Action {
    /// Read the next frame.
    Read,
    /// Call the handler with this event.
    Dispatch(WebsocketEvents),
    /// Return the error that the state holds.
    Stop,
}

/// The mathematical value of an [`Action`].
pub enum ActionView {
    Read,
    Dispatch(EventView),
    Stop,
}

impl View for Action {
    type V = ActionView;

    open spec fn view(&self) -> ActionView {
        match self {
            Action::Read => ActionView::Read,
            Action::Dispatch(event) => ActionView::Dispatch(event@),
            Action::Stop => ActionView::Stop,
        }
    }
}

/// What a text frame is: an event, no event, or undecodable.
pub open spec fn handled(text: Seq<char>) -> Result<Option<EventView>, StreamErrorView> {
    match decoded(text) {
        Ok(payload) => Ok(classified(payload)),
        Err(error) => Err(error),
    }
}

/// The message of the error for a connection that the peer closed.
pub open spec fn closed_message() -> Seq<char> {
    "connection closed"@
}

/// The message of the error for a handler that failed with `message`.
pub open spec fn handler_message(message: Seq<char>) -> Seq<char> {
    "Error on handling stream message: "@ + message
}

/// The loop's transition: the state and the action that follow `input` in
/// `state`.
///
/// A stopped loop stays stopped. A running loop stops when the connection
/// closes or a read fails, when a text frame cannot be decoded, and when the
/// handler fails; it dispatches a text frame that is an event, and reads on
/// after every other frame and after a handler that succeeded.
pub open spec fn next(state: LoopStateView, input: LoopInputView) -> (LoopStateView, ActionView) {
    match state {
        LoopStateView::Stopped(_) => (state, ActionView::Stop),
        LoopStateView::Running => match input {
            LoopInputView::Frame(FrameView::Text(text)) => match handled(text) {
                Ok(Some(event)) => (LoopStateView::Running, ActionView::Dispatch(event)),
                Ok(None) => (LoopStateView::Running, ActionView::Read),
                Err(error) => (LoopStateView::Stopped(error), ActionView::Stop),
            },
            LoopInputView::Frame(FrameView::Control) => (LoopStateView::Running, ActionView::Read),
            LoopInputView::Frame(FrameView::Closing) => (
                LoopStateView::Stopped(StreamErrorView::TransportClosed(closed_message())),
                ActionView::Stop,
            ),
            LoopInputView::ReadFailed(message) => (
                LoopStateView::Stopped(StreamErrorView::TransportClosed(message)),
                ActionView::Stop,
            ),
            LoopInputView::Handled(Ok(_)) => (LoopStateView::Running, ActionView::Read),
            LoopInputView::Handled(Err(error)) => (
                LoopStateView::Stopped(StreamErrorView::Handler(handler_message(error.message()))),
                ActionView::Stop,
            ),
        },
    }
}

/// The value of what [`Stream::handle_msg`] returns.
pub open spec fn handled_view(r: Result<Option<WebsocketEvents>, StreamError>) -> Result<
    Option<EventView>,
    StreamErrorView,
> {
    match r {
        Ok(event) => Ok(event_view(event)),
        Err(error) => Err(error@),
    }
}

impl Stream {
    /// Decodes a text frame and classifies it. A frame that is not valid JSON
    /// is an error; a frame that is valid JSON but no known event is `None`.
    pub fn handle_msg(msg: &str) -> (r: Result<Option<WebsocketEvents>, StreamError>)
        ensures
            handled_view(r) == handled(msg@),
    {
        match decode(msg) {
            Ok(payload) => Ok(classify(&payload)),
            Err(error) => Err(error),
        }
    }

    /// One turn of the event loop: takes what came of the last action and
    /// says what to do next.
    pub fn event_loop(state: LoopState, input: LoopInput) -> (r: (LoopState, Action))
        ensures
            (r.0@, r.1@) == next(state@, input@),
    {
        match state {
            LoopState::Stopped(error) => (LoopState::Stopped(error), Action::Stop),
            LoopState::Running => match input {
                LoopInput::Frame(InboundFrame::Text(text)) => match Self::handle_msg(
                    text.as_str(),
                ) {
                    Ok(Some(event)) => (LoopState::Running, Action::Dispatch(event)),
                    Ok(None) => (LoopState::Running, Action::Read),
                    Err(error) => (LoopState::Stopped(error), Action::Stop),
                },
                LoopInput::Frame(InboundFrame::Control) => (LoopState::Running, Action::Read),
                LoopInput::Frame(InboundFrame::Closing) => (
                    LoopState::Stopped(
                        StreamError::TransportClosed(String::from_str("connection closed")),
                    ),
                    Action::Stop,
                ),
                LoopInput::ReadFailed(message) => (
                    LoopState::Stopped(StreamError::TransportClosed(message)),
                    Action::Stop,
                ),
                LoopInput::Handled(Ok(_)) => (LoopState::Running, Action::Read),
                LoopInput::Handled(Err(error)) => {
                    let mut message = String::from_str("Error on handling stream message: ");
                    message.append(error.message().as_str());
                    (LoopState::Stopped(StreamError::Handler(message)), Action::Stop)
                },
            },
        }
    }
}

} // verus!
