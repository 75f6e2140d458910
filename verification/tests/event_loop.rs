use market_stream::errors::StreamError;
use market_stream::event_loop::{Action, InboundFrame, LoopInput, LoopState};
use market_stream::model::{StreamUpdate, WebsocketEvents};
use market_stream::ws::Stream;

/// What a run came to: the frames that were read, the events that the
/// handler was called with, and the state at the end.
struct Outcome {
    frames_read: usize,
    dispatched: Vec<WebsocketEvents>,
    state: LoopState,
}

/// Runs the loop over a connection that delivers `reads` and then nothing
/// more, carrying out each action as the library asks for it.
fn drive<F>(reads: Vec<LoopInput>, mut handler: F) -> Outcome
where
    F: FnMut(&WebsocketEvents) -> Result<(), StreamError>,
{
    let mut reads = reads.into_iter();
    let mut frames_read = 0;
    let mut dispatched = Vec::new();
    let mut state = LoopState::Running;
    let mut action = Action::Read;
    loop {
        let input = match action {
            Action::Read => match reads.next() {
                Some(read) => {
                    frames_read += 1;
                    read
                }
                None => break,
            },
            Action::Dispatch(event) => {
                let verdict = handler(&event);
                dispatched.push(event);
                LoopInput::Handled(verdict)
            }
            Action::Stop => break,
        };
        let (next_state, next_action) = Stream::event_loop(state, input);
        state = next_state;
        action = next_action;
    }
    Outcome { frames_read, dispatched, state }
}

fn text(frame: &str) -> LoopInput {
    LoopInput::Frame(InboundFrame::Text(frame.to_string()))
}

fn ticker(symbol: &str) -> String {
    format!("{{\"topic\":\"tickers.{}\",\"data\":{{}}}}", symbol)
}

fn ticker_event(symbol: &str) -> WebsocketEvents {
    WebsocketEvents::TickerEvent(StreamUpdate {
        topic: format!("tickers.{}", symbol),
        text: ticker(symbol),
    })
}

#[test]
fn text_frame_that_is_an_event_is_dispatched() {
    let (state, action) = Stream::event_loop(LoopState::Running, text(&ticker("BTCUSD")));
    assert_eq!(state, LoopState::Running);
    assert_eq!(action, Action::Dispatch(ticker_event("BTCUSD")));
}

#[test]
fn text_frame_that_is_no_event_is_passed_over() {
    let (state, action) =
        Stream::event_loop(LoopState::Running, text("{\"success\":true,\"op\":\"subscribe\"}"));
    assert_eq!(state, LoopState::Running);
    assert_eq!(action, Action::Read);
}

#[test]
fn text_frame_that_is_not_json_stops_the_loop() {
    let (state, action) = Stream::event_loop(LoopState::Running, text("garbled"));
    assert_eq!(
        state,
        LoopState::Stopped(StreamError::Decode("expected value at line 1 column 1".to_string()))
    );
    assert_eq!(action, Action::Stop);
}

#[test]
fn frame_without_text_is_passed_over() {
    let (state, action) =
        Stream::event_loop(LoopState::Running, LoopInput::Frame(InboundFrame::Control));
    assert_eq!(state, LoopState::Running);
    assert_eq!(action, Action::Read);
}

#[test]
fn closing_frame_stops_the_loop() {
    let (state, action) =
        Stream::event_loop(LoopState::Running, LoopInput::Frame(InboundFrame::Closing));
    assert_eq!(
        state,
        LoopState::Stopped(StreamError::TransportClosed("connection closed".to_string()))
    );
    assert_eq!(action, Action::Stop);
}

#[test]
fn failed_read_stops_the_loop_with_the_transport_message() {
    let (state, action) = Stream::event_loop(
        LoopState::Running,
        LoopInput::ReadFailed("Connection reset without closing handshake".to_string()),
    );
    assert_eq!(
        state,
        LoopState::Stopped(StreamError::TransportClosed(
            "Connection reset without closing handshake".to_string()
        ))
    );
    assert_eq!(action, Action::Stop);
}

#[test]
fn handler_that_succeeded_lets_the_loop_read_on() {
    let (state, action) = Stream::event_loop(LoopState::Running, LoopInput::Handled(Ok(())));
    assert_eq!(state, LoopState::Running);
    assert_eq!(action, Action::Read);
}

#[test]
fn handler_that_failed_stops_the_loop_under_the_loop_heading() {
    let failures = vec![
        StreamError::Handler("disk full".to_string()),
        StreamError::Config("disk full".to_string()),
        StreamError::Decode("disk full".to_string()),
        StreamError::TransportClosed("disk full".to_string()),
    ];
    for failure in failures {
        let (state, action) =
            Stream::event_loop(LoopState::Running, LoopInput::Handled(Err(failure)));
        assert_eq!(
            state,
            LoopState::Stopped(StreamError::Handler(
                "Error on handling stream message: disk full".to_string()
            ))
        );
        assert_eq!(action, Action::Stop);
    }
}

#[test]
fn stopped_loop_stays_stopped() {
    let error = StreamError::Decode("expected value at line 1 column 1".to_string());
    let inputs = vec![
        text(&ticker("BTCUSD")),
        text("garbled"),
        LoopInput::Frame(InboundFrame::Control),
        LoopInput::Frame(InboundFrame::Closing),
        LoopInput::ReadFailed("reset".to_string()),
        LoopInput::Handled(Ok(())),
        LoopInput::Handled(Err(StreamError::Handler("late".to_string()))),
    ];
    for input in inputs {
        let (state, action) = Stream::event_loop(LoopState::Stopped(error.clone()), input);
        assert_eq!(state, LoopState::Stopped(error.clone()));
        assert_eq!(action, Action::Stop);
    }
}

#[test]
fn malformed_frame_after_well_formed_frames() {
    for n in [0usize, 1, 2, 5, 20] {
        let mut reads: Vec<LoopInput> = (0..n).map(|i| text(&ticker(&format!("S{}", i)))).collect();
        reads.push(text("{\"topic\":"));
        reads.push(text(&ticker("LATE")));
        let mut calls = 0;
        let outcome = drive(reads, |_| {
            calls += 1;
            Ok(())
        });
        assert_eq!(calls, n);
        assert_eq!(outcome.frames_read, n + 1);
        let expected: Vec<WebsocketEvents> =
            (0..n).map(|i| ticker_event(&format!("S{}", i))).collect();
        assert_eq!(outcome.dispatched, expected);
        assert_eq!(
            outcome.state,
            LoopState::Stopped(StreamError::Decode(
                "EOF while parsing a value at line 1 column 9".to_string()
            ))
        );
    }
}

#[test]
fn malformed_frame_after_frames_that_are_passed_over() {
    let reads = vec![
        text(&ticker("A")),
        LoopInput::Frame(InboundFrame::Control),
        text("{\"op\":\"subscribe\",\"success\":true}"),
        text(&ticker("B")),
        text("]"),
    ];
    let outcome = drive(reads, |_| Ok(()));
    assert_eq!(outcome.frames_read, 5);
    assert_eq!(outcome.dispatched, vec![ticker_event("A"), ticker_event("B")]);
    assert_eq!(
        outcome.state,
        LoopState::Stopped(StreamError::Decode("expected value at line 1 column 1".to_string()))
    );
}

#[test]
fn handler_that_fails_on_its_third_call() {
    let reads: Vec<LoopInput> =
        ["A", "B", "C", "D", "E"].iter().map(|symbol| text(&ticker(symbol))).collect();
    let mut calls = 0;
    let outcome = drive(reads, |_| {
        calls += 1;
        if calls == 3 {
            Err(StreamError::Handler("third time unlucky".to_string()))
        } else {
            Ok(())
        }
    });
    assert_eq!(calls, 3);
    assert_eq!(outcome.frames_read, 3);
    assert_eq!(outcome.dispatched, vec![ticker_event("A"), ticker_event("B"), ticker_event("C")]);
    assert_eq!(
        outcome.state,
        LoopState::Stopped(StreamError::Handler(
            "Error on handling stream message: third time unlucky".to_string()
        ))
    );
}

#[test]
fn handler_that_fails_on_its_first_call() {
    let reads = vec![LoopInput::Frame(InboundFrame::Control), text(&ticker("A")), text("garbled")];
    let outcome = drive(reads, |_| Err(StreamError::Handler("no".to_string())));
    assert_eq!(outcome.frames_read, 2);
    assert_eq!(outcome.dispatched, vec![ticker_event("A")]);
    assert_eq!(
        outcome.state,
        LoopState::Stopped(StreamError::Handler("Error on handling stream message: no".to_string()))
    );
}

#[test]
fn closed_connection_ends_the_run() {
    let reads = vec![
        text(&ticker("A")),
        LoopInput::Frame(InboundFrame::Closing),
        text(&ticker("B")),
    ];
    let outcome = drive(reads, |_| Ok(()));
    assert_eq!(outcome.frames_read, 2);
    assert_eq!(outcome.dispatched, vec![ticker_event("A")]);
    assert_eq!(
        outcome.state,
        LoopState::Stopped(StreamError::TransportClosed("connection closed".to_string()))
    );
}

#[test]
fn failed_read_ends_the_run() {
    let reads = vec![text(&ticker("A")), LoopInput::ReadFailed("timed out".to_string())];
    let outcome = drive(reads, |_| Ok(()));
    assert_eq!(outcome.frames_read, 2);
    assert_eq!(outcome.dispatched, vec![ticker_event("A")]);
    assert_eq!(
        outcome.state,
        LoopState::Stopped(StreamError::TransportClosed("timed out".to_string()))
    );
}

#[test]
fn clean_run_is_still_running_when_the_frames_run_out() {
    let reads = vec![text(&ticker("A")), text("{}"), text(&ticker("B"))];
    let outcome = drive(reads, |_| Ok(()));
    assert_eq!(outcome.frames_read, 3);
    assert_eq!(outcome.dispatched, vec![ticker_event("A"), ticker_event("B")]);
    assert_eq!(outcome.state, LoopState::Running);
}

#[test]
fn events_reach_the_handler_in_the_order_of_their_frames() {
    let reads = vec![
        text("{\"topic\":\"orderbook.50.BTCUSD\"}"),
        text("{\"topic\":\"publicTrade.BTCUSD\"}"),
        text("{\"topic\":\"wallet\"}"),
    ];
    let mut seen = Vec::new();
    let outcome = drive(reads, |event| {
        seen.push(event.kind());
        Ok(())
    });
    assert_eq!(
        seen,
        vec![
            market_stream::model::EventKind::OrderBook,
            market_stream::model::EventKind::Trade,
            market_stream::model::EventKind::Wallet,
        ]
    );
    assert_eq!(outcome.state, LoopState::Running);
}
