//! Subscription and event dispatch for a streaming market-data connection.
//!
//! The library builds the control messages a client sends, decodes and
//! classifies the frames it receives, and decides, frame by frame, what the
//! event loop does next. Opening the socket and reading from it is left to the
//! program that uses the library.

pub mod classify;
pub mod errors;
pub mod event_loop;
pub mod json;
pub mod model;
pub mod run;
pub mod text;
pub mod topic;
pub mod unique;
pub mod util;
pub mod ws;
