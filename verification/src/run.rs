//! Whole runs of the event loop.
//!
//! A run starts in the running state, reads the frames of a connection one
//! after the other and calls the handler for each frame that is an event,
//! always as [`next`] says. This file states what such a run comes to.

use crate::errors::StreamErrorView;
use crate::event_loop::{
    handled, handler_message, next, ActionView, FrameView, LoopInputView, LoopStateView,
};
use crate::model::EventView;
use vstd::prelude::*;

verus! {

/// A handler, as what its `n`-th call returns for the event it is given. The
/// first call is call 0.
pub type HandlerModel = spec_fn(nat, EventView) -> Result<(), StreamErrorView>;

/// What a run has come to.
pub struct RunView {
    /// How many frames were read.
    pub frames_read: nat,
    /// The events that the handler was called with, in order.
    pub dispatched: Seq<EventView>,
    /// The state of the loop: still running if the frames ran out before
    /// anything failed.
    pub state: LoopStateView,
}

/// The rest of a run that has read `at` frames and dispatched `dispatched`
/// without stopping.
pub open spec fn run_from(
    frames: Seq<FrameView>,
    handler: HandlerModel,
    at: nat,
    dispatched: Seq<EventView>,
) -> RunView
    decreases frames.len() - at,
{
    if at >= frames.len() {
        RunView { frames_read: at, dispatched, state: LoopStateView::Running }
    } else {
        let (after_read, action) = next(
            LoopStateView::Running,
            LoopInputView::Frame(frames[at as int]),
        );
        match action {
            ActionView::Read => run_from(frames, handler, at + 1, dispatched),
            ActionView::Stop => RunView { frames_read: at + 1, dispatched, state: after_read },
            ActionView::Dispatch(event) => {
                let verdict = handler(dispatched.len(), event);
                let (after_call, _) = next(after_read, LoopInputView::Handled(verdict));
                if after_call is Running {
                    run_from(frames, handler, at + 1, dispatched.push(event))
                } else {
                    RunView {
                        frames_read: at + 1,
                        dispatched: dispatched.push(event),
                        state: after_call,
                    }
                }
            },
        }
    }
}

/// The run of the loop over `frames` with `handler`.
pub open spec fn run(frames: Seq<FrameView>, handler: HandlerModel) -> RunView {
    run_from(frames, handler, 0, Seq::empty())
}

/// The event that a frame is dispatched as, if it is.
pub open spec fn frame_event(frame: FrameView) -> Option<EventView> {
    match frame {
        FrameView::Text(text) => match handled(text) {
            Ok(Some(event)) => Some(event),
            _ => None,
        },
        _ => None,
    }
}

/// Whether a frame lets the loop go on: it has no text, or its text can be
/// decoded.
pub open spec fn well_formed(frame: FrameView) -> bool {
    match frame {
        FrameView::Text(text) => handled(text) is Ok,
        FrameView::Control => true,
        FrameView::Closing => false,
    }
}

/// Whether every frame lets the loop go on.
pub open spec fn all_well_formed(frames: Seq<FrameView>) -> bool {
    forall|i: int| 0 <= i < frames.len() ==> well_formed(#[trigger] frames[i])
}

/// The events among `frames`, in order.
pub open spec fn events_in(frames: Seq<FrameView>) -> Seq<EventView>
    decreases frames.len(),
{
    if frames.len() == 0 {
        Seq::empty()
    } else {
        match frame_event(frames.last()) {
            Some(event) => events_in(frames.drop_last()).push(event),
            None => events_in(frames.drop_last()),
        }
    }
}

/// Whether the handler accepts each of `events` when they are dispatched in
/// order, starting with call 0.
pub open spec fn accepts_all(handler: HandlerModel, events: Seq<EventView>) -> bool {
    forall|n: int| 0 <= n < events.len() ==> (#[trigger] handler(n as nat, events[n])) is Ok
}

proof fn lemma_events_in_prefix(frames: Seq<FrameView>, m: int)
    requires
        0 <= m < frames.len(),
    ensures
        events_in(frames.take(m + 1)) == match frame_event(frames[m]) {
            Some(event) => events_in(frames.take(m)).push(event),
            None => events_in(frames.take(m)),
        },
{
    let longer = frames.take(m + 1);
    assert(longer.drop_last() =~= frames.take(m));
    assert(longer.last() == frames[m]);
}

/// While the frames are well formed and the handler accepts their events,
/// the loop keeps running: after `m` such frames it has read `m` frames and
/// dispatched their events, and goes on from there.
pub proof fn lemma_run_goes_on(frames: Seq<FrameView>, handler: HandlerModel, m: nat)
    requires
        m <= frames.len(),
        all_well_formed(frames.take(m as int)),
        accepts_all(handler, events_in(frames.take(m as int))),
    ensures
        run(frames, handler) == run_from(frames, handler, m, events_in(frames.take(m as int))),
    decreases m,
{
    if m == 0 {
        assert(frames.take(0) =~= Seq::<FrameView>::empty());
    } else {
        let k = (m - 1) as nat;
        let shorter = frames.take(k as int);
        let prefix = frames.take(m as int);
        lemma_events_in_prefix(frames, k as int);
        assert forall|i: int| 0 <= i < shorter.len() implies well_formed(
            #[trigger] shorter[i],
        ) by {
            assert(shorter[i] == prefix[i]);
        }
        let before = events_in(shorter);
        let all = events_in(prefix);
        assert forall|n: int| 0 <= n < before.len() implies (#[trigger] handler(
            n as nat,
            before[n],
        )) is Ok by {
            assert(before[n] == all[n]);
        }
        lemma_run_goes_on(frames, handler, k);
        assert(well_formed(prefix[k as int]));
        assert(prefix[k as int] == frames[k as int]);
        match frame_event(frames[k as int]) {
            Some(event) => {
                let n = before.len() as int;
                assert(all[n] == event);
                assert(handler(n as nat, all[n]) is Ok);
            },
            None => {},
        }
    }
}

/// A frame that cannot be decoded ends the run. If `quiet` is any number of
/// well-formed frames whose events the handler accepts, and the frame after
/// them is a text that is not valid JSON, then the loop reads that frame and
/// no further one, has called the handler for exactly the events among
/// `quiet`, in order, and stops with the decode error; the handler is not
/// called for the malformed frame. Where every frame of `quiet` is an event,
/// the handler has been called as many times as `quiet` has frames.
pub proof fn lemma_malformed_frame_ends_run(
    quiet: Seq<FrameView>,
    bad: Seq<char>,
    rest: Seq<FrameView>,
    handler: HandlerModel,
)
    requires
        all_well_formed(quiet),
        accepts_all(handler, events_in(quiet)),
        handled(bad) is Err,
    ensures
        run(quiet.push(FrameView::Text(bad)) + rest, handler) == (RunView {
            frames_read: quiet.len() + 1,
            dispatched: events_in(quiet),
            state: LoopStateView::Stopped(handled(bad)->Err_0),
        }),
        handled(bad)->Err_0 is Decode,
        (forall|i: int| 0 <= i < quiet.len() ==> frame_event(#[trigger] quiet[i]) is Some)
            ==> events_in(quiet).len() == quiet.len(),
{
    if forall|i: int| 0 <= i < quiet.len() ==> frame_event(#[trigger] quiet[i]) is Some {
        lemma_events_of_event_frames(quiet);
    }
    let frames = quiet.push(FrameView::Text(bad)) + rest;
    assert(frames.take(quiet.len() as int) =~= quiet);
    lemma_run_goes_on(frames, handler, quiet.len());
    assert(frames[quiet.len() as int] == FrameView::Text(bad));
}

/// If every frame is an event, there are as many events as frames, and the
/// `i`-th event is the one that the `i`-th frame was classified as.
pub proof fn lemma_events_of_event_frames(frames: Seq<FrameView>)
    requires
        forall|i: int| 0 <= i < frames.len() ==> frame_event(#[trigger] frames[i]) is Some,
    ensures
        events_in(frames).len() == frames.len(),
        forall|i: int|
            0 <= i < frames.len() ==> Some(#[trigger] events_in(frames)[i]) == frame_event(
                frames[i],
            ),
    decreases frames.len(),
{
    if frames.len() > 0 {
        let shorter = frames.drop_last();
        assert forall|i: int| 0 <= i < shorter.len() implies frame_event(
            #[trigger] shorter[i],
        ) is Some by {
            assert(shorter[i] == frames[i]);
        }
        lemma_events_of_event_frames(shorter);
        assert(frame_event(frames[frames.len() - 1]) is Some);
        assert forall|i: int| 0 <= i < frames.len() implies Some(
            #[trigger] events_in(frames)[i],
        ) == frame_event(frames[i]) by {
            if i < shorter.len() {
                assert(shorter[i] == frames[i]);
                assert(events_in(frames)[i] == events_in(shorter)[i]);
            }
        }
    }
}

/// A handler that fails ends the run. If `quiet` is any number of
/// well-formed frames whose events the handler accepts, the frame after them
/// is the event `event`, and the handler fails on it, then the loop reads
/// that frame and no further one, whatever follows, has called the handler
/// once more than there are events among `quiet`, and stops with the
/// handler's error under the loop's heading.
pub proof fn lemma_failing_handler_ends_run(
    quiet: Seq<FrameView>,
    last: FrameView,
    rest: Seq<FrameView>,
    handler: HandlerModel,
)
    requires
        all_well_formed(quiet),
        accepts_all(handler, events_in(quiet)),
        frame_event(last) is Some,
        handler(events_in(quiet).len(), frame_event(last)->0) is Err,
    ensures
        run(quiet.push(last) + rest, handler) == (RunView {
            frames_read: quiet.len() + 1,
            dispatched: events_in(quiet).push(frame_event(last)->0),
            state: LoopStateView::Stopped(
                StreamErrorView::Handler(
                    handler_message(
                        handler(events_in(quiet).len(), frame_event(last)->0)->Err_0.message(),
                    ),
                ),
            ),
        }),
{
    let frames = quiet.push(last) + rest;
    assert(frames.take(quiet.len() as int) =~= quiet);
    lemma_run_goes_on(frames, handler, quiet.len());
    assert(frames[quiet.len() as int] == last);
}

/// A run over well-formed frames whose events the handler accepts does not
/// stop: it reads every frame and dispatches every event among them.
pub proof fn lemma_clean_run(frames: Seq<FrameView>, handler: HandlerModel)
    requires
        all_well_formed(frames),
        accepts_all(handler, events_in(frames)),
    ensures
        run(frames, handler) == (RunView {
            frames_read: frames.len(),
            dispatched: events_in(frames),
            state: LoopStateView::Running,
        }),
{
    assert(frames.take(frames.len() as int) =~= frames);
    lemma_run_goes_on(frames, handler, frames.len());
}

} // verus!
