//! The life of a capture, from the first frame to the end of the session.

use vstd::prelude::*;

use crate::error::FrameError;
use crate::wlroots::{Delivery, StartupStep, WlrootsReady, WlrootsState};

verus! {

/// Where a capture stands.
#[derive(Debug, Clone, Copy, PartialEq, Eq, Structural)]
pub enum RunStage {
    /// Waiting for the first frame: events of the compositor come next.
    Startup,
    /// Waiting for the first frame: input of the client comes next.
    StartupInput,
    /// Streaming: input of the client comes next.
    Streaming,
    /// Streaming: events of the compositor come next.
    StreamDispatch,
    /// Streaming: the next frame comes next.
    StreamCapture,
    /// Over.
    Ended,
}

/// What to do next.
#[derive(Debug)]
pub enum RunAction {
    /// Handle the events of the compositor.
    Dispatch,
    /// Pass the input of the client on.
    ProcessInput,
    /// Ask for the next frame, if it is time.
    StartCapture,
    /// Announce that the capture runs.
    Announce(WlrootsReady),
    /// End with an error.
    Fail(FrameError),
    /// End.
    Stop,
}

impl RunStage {
    /// How far the capture has come: waiting, streaming, over.
    pub open spec fn progress(self) -> int {
        match self {
            RunStage::Startup => 0,
            RunStage::StartupInput => 0,
            RunStage::Streaming => 1,
            RunStage::StreamDispatch => 1,
            RunStage::StreamCapture => 1,
            RunStage::Ended => 2,
        }
    }

    /// What is announced when the first frame has arrived: the size of the
    /// buffers, at least one pixel on each side, without high dynamic range.
    pub open spec fn announcement(state: WlrootsState, refresh_rate: u32) -> WlrootsReady {
        WlrootsReady {
            hdr: false,
            width: crate::geometry::at_least_one(state.buffer_width as nat) as u32,
            height: crate::geometry::at_least_one(state.buffer_height as nat) as u32,
            refresh_rate,
        }
    }

    /// The next action and stage. While the first frame is out, the capture
    /// serves the compositor and the client in turn, until the frame arrives or
    /// fails, or the session stops. Then it streams until the session stops.
    pub open spec fn step(self, state: WlrootsState, stopped: bool, refresh_rate: u32) -> (RunStage, RunAction) {
        match self {
            RunStage::Startup => match state.startup_result {
                Some(Ok(_)) => {
                    (RunStage::Streaming, RunAction::Announce(RunStage::announcement(state, refresh_rate)))
                },
                Some(Err(error)) => (RunStage::Ended, RunAction::Fail(error)),
                None => {
                    if stopped {
                        (RunStage::Ended, RunAction::Stop)
                    } else {
                        (RunStage::StartupInput, RunAction::Dispatch)
                    }
                },
            },
            RunStage::StartupInput => (RunStage::Startup, RunAction::ProcessInput),
            RunStage::Streaming => {
                if stopped {
                    (RunStage::Ended, RunAction::Stop)
                } else {
                    (RunStage::StreamDispatch, RunAction::ProcessInput)
                }
            },
            RunStage::StreamDispatch => (RunStage::StreamCapture, RunAction::Dispatch),
            RunStage::StreamCapture => (RunStage::Streaming, RunAction::StartCapture),
            RunStage::Ended => (RunStage::Ended, RunAction::Stop),
        }
    }

    /// The state after deciding what to do next: the outcome of the start is taken.
    pub open spec fn state_after(self, state: WlrootsState) -> WlrootsState {
        if self == RunStage::Startup {
            WlrootsState { startup_result: None, ..state }
        } else {
            state
        }
    }

    /// Decides what to do next. `stopped` tells that the session ends.
    pub fn next(&mut self, state: &mut WlrootsState, stopped: bool, refresh_rate: u32) -> (action: RunAction)
        requires
            old(state).wf(),
        ensures
            final(state).wf(),
            (*final(self), action) == old(self).step(*old(state), stopped, refresh_rate),
            *final(state) == old(self).state_after(*old(state)),
    {
        match *self {
            RunStage::Startup => match state.startup_step(stopped, refresh_rate) {
                StartupStep::Wait => {
                    *self = RunStage::StartupInput;
                    RunAction::Dispatch
                },
                StartupStep::Ready(ready) => {
                    *self = RunStage::Streaming;
                    RunAction::Announce(ready)
                },
                StartupStep::Failed(error) => {
                    *self = RunStage::Ended;
                    RunAction::Fail(error)
                },
                StartupStep::Stopped => {
                    *self = RunStage::Ended;
                    RunAction::Stop
                },
            },
            RunStage::StartupInput => {
                *self = RunStage::Startup;
                RunAction::ProcessInput
            },
            RunStage::Streaming => {
                if stopped {
                    *self = RunStage::Ended;
                    RunAction::Stop
                } else {
                    *self = RunStage::StreamDispatch;
                    RunAction::ProcessInput
                }
            },
            RunStage::StreamDispatch => {
                *self = RunStage::StreamCapture;
                RunAction::Dispatch
            },
            RunStage::StreamCapture => {
                *self = RunStage::Streaming;
                RunAction::StartCapture
            },
            RunStage::Ended => RunAction::Stop,
        }
    }
}

/// A capture goes from waiting to streaming to its end, never back. It is
/// announced exactly when streaming begins, asks for further frames only while
/// it streams, and fails only before.
pub proof fn law_capture_moves_forward(stage: RunStage, state: WlrootsState, stopped: bool, refresh_rate: u32)
    ensures
        ({
            let (next, action) = stage.step(state, stopped, refresh_rate);
            &&& stage.progress() <= next.progress()
            &&& action is Announce <==> stage.progress() == 0 && next.progress() == 1
            &&& action is StartCapture ==> stage.progress() == 1
            &&& action is Fail ==> stage.progress() == 0 && next == RunStage::Ended
            &&& action is Stop || action is Fail <==> next == RunStage::Ended
        }),
{
}

/// A session that stops ends the capture within three steps, wherever it stands.
pub proof fn law_stopped_capture_ends(
    stage: RunStage,
    first: WlrootsState,
    second: WlrootsState,
    third: WlrootsState,
    refresh_rate: u32,
)
    ensures
        ({
            let one = stage.step(first, true, refresh_rate).0;
            let two = one.step(second, true, refresh_rate).0;
            let three = two.step(third, true, refresh_rate).0;
            three == RunStage::Ended
        }),
{
}

/// The first frame that the encoder gets starts the stream, and the announced
/// size is that of the buffer that it came in.
pub proof fn law_announced_size_is_that_of_the_first_frame(
    state: WlrootsState,
    format: u32,
    width: u32,
    height: u32,
    now: u128,
    stopped: bool,
    refresh_rate: u32,
)
    requires
        state.pool_matches(format, width, height),
        !state.startup_complete,
    ensures
        ({
            let sent = state.delivered(Delivery::Sent).finished().restarted(now, false);
            RunStage::Startup.step(sent, stopped, refresh_rate) == (
                RunStage::Streaming,
                RunAction::Announce(
                    WlrootsReady {
                        hdr: false,
                        width: crate::geometry::at_least_one(width as nat) as u32,
                        height: crate::geometry::at_least_one(height as nat) as u32,
                        refresh_rate,
                    },
                ),
            )
        }),
{
}

/// What is announced is an image with pixels, without high dynamic range.
pub proof fn law_announced_size_is_positive(state: WlrootsState, refresh_rate: u32)
    ensures
        ({
            let ready = RunStage::announcement(state, refresh_rate);
            &&& !ready.hdr
            &&& ready.width > 0
            &&& ready.height > 0
            &&& ready.refresh_rate == refresh_rate
        }),
{
}

/// While nothing is settled and nobody stops it, a capture that waits for its
/// first frame serves the compositor and then the client, round after round; one
/// that streams serves the client and the compositor and then asks for a frame.
pub proof fn law_every_round_serves_all(
    first: WlrootsState,
    second: WlrootsState,
    third: WlrootsState,
    stopped: bool,
    refresh_rate: u32,
)
    ensures
        first.startup_result is None ==> ({
            let (a, one) = RunStage::Startup.step(first, false, refresh_rate);
            let (b, two) = a.step(second, stopped, refresh_rate);
            one is Dispatch && two is ProcessInput && b is Startup
        }),
        ({
            let (a, one) = RunStage::Streaming.step(first, false, refresh_rate);
            let (b, two) = a.step(second, stopped, refresh_rate);
            let (c, three) = b.step(third, stopped, refresh_rate);
            one is ProcessInput && two is Dispatch && three is StartCapture && c is Streaming
        }),
{
}

/// The outcome of the first frame decides the start, even if the session stops at
/// the same time: an arrived frame is announced in the size of its buffer, of at
/// least a pixel, and a failed one ends the capture with its error. Only where
/// there is no outcome a stop ends it quietly.
pub proof fn law_the_first_frame_decides(state: WlrootsState, stopped: bool, refresh_rate: u32)
    ensures
        ({
            let (next, action) = RunStage::Startup.step(state, stopped, refresh_rate);
            match state.startup_result {
                Some(Ok(_)) => {
                    &&& next is Streaming
                    &&& action matches RunAction::Announce(ready)
                    &&& !ready.hdr
                    &&& state.buffer_width > 0 ==> ready.width == state.buffer_width
                    &&& state.buffer_width == 0 ==> ready.width == 1
                    &&& state.buffer_height > 0 ==> ready.height == state.buffer_height
                    &&& state.buffer_height == 0 ==> ready.height == 1
                    &&& ready.refresh_rate == refresh_rate
                },
                Some(Err(error)) => next is Ended && action == RunAction::Fail(error),
                None => stopped ==> next is Ended && action is Stop,
            }
        }),
        stopped ==> RunStage::Streaming.step(state, stopped, refresh_rate).1 is Stop,
{
}

/// Deciding what to do next takes the outcome of the start while the capture waits
/// for it, so that it is told once, and touches nothing else.
pub proof fn law_deciding_takes_only_the_outcome(stage: RunStage, state: WlrootsState)
    ensures
        ({
            let after = stage.state_after(state);
            &&& stage is Startup ==> after.startup_result is None
            &&& !(stage is Startup) || state.startup_result is None ==> after == state
            &&& after.startup_complete == state.startup_complete
            &&& after.pending_frame == state.pending_frame && after.capture_in_progress == state.capture_in_progress
            &&& after.last_capture_at == state.last_capture_at
            &&& state.same_setup(after) && state.same_ring(after) && state.same_warnings(after)
        }),
{
}

} // verus!
