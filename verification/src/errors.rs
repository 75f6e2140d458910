//! The errors that the library reports.

use vstd::prelude::*;

verus! {

/// Why an operation ended without its result. Each variant carries a message
/// for the person who reads the log.
#[derive(Debug, Clone, PartialEq, Eq)]
pub enum StreamError {
    /// The stream does not exist for the category that was asked for.
    Config(String),
    /// A text frame was not valid JSON.
    Decode(String),
    /// The caller's handler reported a failure.
    Handler(String),
    /// The connection ended, or reading from it failed.
    TransportClosed(String),
}

/// The mathematical value of a [`StreamError`].
pub enum StreamErrorView {
    Config(Seq<char>),
    Decode(Seq<char>),
    Handler(Seq<char>),
    TransportClosed(Seq<char>),
}

impl StreamErrorView {
    /// The message that the error carries.
    pub open spec fn message(self) -> Seq<char> {
        match self {
            StreamErrorView::Config(m) => m,
            StreamErrorView::Decode(m) => m,
            StreamErrorView::Handler(m) => m,
            StreamErrorView::TransportClosed(m) => m,
        }
    }
}

impl View for StreamError {
    type V = StreamErrorView;

    open spec fn view(&self) -> StreamErrorView {
        match self {
            StreamError::Config(m) => StreamErrorView::Config(m@),
            StreamError::Decode(m) => StreamErrorView::Decode(m@),
            StreamError::Handler(m) => StreamErrorView::Handler(m@),
            StreamError::TransportClosed(m) => StreamErrorView::TransportClosed(m@),
        }
    }
}

impl StreamError {
    /// The message that the error carries, without the name of its kind.
    pub fn message(&self) -> (text: String)
        ensures
            text@ == self@.message(),
    {
        match self {
            StreamError::Config(m) => m.clone(),
            StreamError::Decode(m) => m.clone(),
            StreamError::Handler(m) => m.clone(),
            StreamError::TransportClosed(m) => m.clone(),
        }
    }
}

} // verus!
