//! The per-frame protocol: acquire a frame, record one render pass into it,
//! present it, and recover where acquisition fails.
//!
//! The frame loop never touches the device. It is told what happened and
//! answers with what to do next.

use vstd::prelude::*;

verus! {

/// Why a surface handed out no frame.
#[derive(Clone, Copy, Debug, PartialEq, Eq, Structural)]
pub enum SurfaceError {
    /// No frame became available in time.
    Timeout,
    /// The surface no longer matches the window.
    Outdated,
    /// The swap chain is gone.
    Lost,
    /// No memory is left for another frame.
    OutOfMemory,
}

impl SurfaceError {
    /// The surface has to be configured again before it hands out frames.
    pub open spec fn needs_reconfigure(self) -> bool {
        self == SurfaceError::Lost || self == SurfaceError::Outdated
    }

    /// Rendering cannot go on.
    pub open spec fn is_fatal(self) -> bool {
        self == SurfaceError::OutOfMemory
    }
}

/// Where the frame loop stands.
#[derive(Clone, Copy, Debug, PartialEq, Eq, Structural)]
pub enum FrameState {
    /// Between frames.
    Idle,
    /// A frame was requested from the surface.
    Acquiring,
    /// A frame is held and the render pass is being recorded.
    Recording,
    /// The recorded commands are being submitted and the frame presented.
    Presenting,
    /// The surface failed to hand out a frame and is being configured
    /// again.
    ErrorRecovery,
    /// Rendering ended for good.
    Stopped,
}

/// What the caller reports to the frame loop.
#[derive(Clone, Copy, Debug, PartialEq, Eq, Structural)]
pub enum FrameEvent {
    /// A redraw is due.
    Tick,
    /// The surface handed out a frame.
    Acquired,
    /// The surface handed out none.
    AcquireFailed(SurfaceError),
    /// The render pass is recorded.
    Recorded,
    /// The commands are submitted and the frame is presented.
    Presented,
    /// The surface is configured again and the depth buffer recreated.
    Recovered,
}

/// What the frame loop asks of the caller.
#[derive(Clone, Copy, Debug, PartialEq, Eq, Structural)]
pub enum FrameAction {
    /// Request the next frame from the surface.
    Acquire,
    /// Record the render pass into the frame and into the depth buffer.
    Record,
    /// Submit the recorded commands, then present the frame.
    Present,
    /// Resize to the current size, which configures the surface and
    /// recreates the depth buffer; this tick draws nothing.
    Reconfigure,
    /// Drop this tick; nothing changed.
    Skip,
    /// End the render loop and shut the application down.
    Shutdown,
    /// The frame is on screen; wait for the next tick.
    Finish,
    /// The surface is usable again; try again at the next tick.
    Retry,
    /// The event does not belong to the current state and was ignored.
    Ignore,
}

/// The state and the action that follow `event` in `state`.
pub open spec fn transition(state: FrameState, event: FrameEvent) -> (FrameState, FrameAction) {
    match (state, event) {
        (FrameState::Idle, FrameEvent::Tick) => (FrameState::Acquiring, FrameAction::Acquire),
        (FrameState::Acquiring, FrameEvent::Acquired) => (
            FrameState::Recording,
            FrameAction::Record,
        ),
        (FrameState::Acquiring, FrameEvent::AcquireFailed(error)) => match error {
            SurfaceError::Lost => (FrameState::ErrorRecovery, FrameAction::Reconfigure),
            SurfaceError::Outdated => (FrameState::ErrorRecovery, FrameAction::Reconfigure),
            SurfaceError::OutOfMemory => (FrameState::Stopped, FrameAction::Shutdown),
            SurfaceError::Timeout => (FrameState::Idle, FrameAction::Skip),
        },
        (FrameState::Recording, FrameEvent::Recorded) => (
            FrameState::Presenting,
            FrameAction::Present,
        ),
        (FrameState::Presenting, FrameEvent::Presented) => (
            FrameState::Idle,
            FrameAction::Finish,
        ),
        (FrameState::ErrorRecovery, FrameEvent::Recovered) => (
            FrameState::Idle,
            FrameAction::Retry,
        ),
        _ => (state, FrameAction::Ignore),
    }
}

/// The state reached from `state` by `events`, taken in order.
pub open spec fn run(state: FrameState, events: Seq<FrameEvent>) -> FrameState
    decreases events.len(),
{
    if events.len() == 0 {
        state
    } else {
        transition(run(state, events.drop_last()), events.last()).0
    }
}

/// What the frame loop asks for, in order, when it is told `events` in
/// `state`.
pub open spec fn trace(state: FrameState, events: Seq<FrameEvent>) -> Seq<FrameAction>
    decreases events.len(),
{
    if events.len() == 0 {
        Seq::empty()
    } else {
        trace(state, events.drop_last()).push(
            transition(run(state, events.drop_last()), events.last()).1,
        )
    }
}

/// How often `action` occurs in `actions`.
pub open spec fn count(actions: Seq<FrameAction>, action: FrameAction) -> nat
    decreases actions.len(),
{
    if actions.len() == 0 {
        0
    } else {
        count(actions.drop_last(), action) + if actions.last() == action {
            1nat
        } else {
            0nat
        }
    }
}

/// The frame-presentation state machine.
#[derive(Clone, Copy, Debug)]
pub struct FrameLoop {
    state: FrameState,
}

impl View for FrameLoop {
    type V = FrameState;

    closed spec fn view(&self) -> FrameState {
        self.state
    }
}

impl FrameLoop {
    /// A frame loop between frames.
    pub fn new() -> (frame_loop: FrameLoop)
        ensures
            frame_loop@ == FrameState::Idle,
    {
        FrameLoop { state: FrameState::Idle }
    }

    pub fn state(&self) -> (state: FrameState)
        ensures
            state == self@,
    {
        self.state
    }

    /// Whether rendering ended for good.
    pub fn is_stopped(&self) -> (stopped: bool)
        ensures
            stopped == (self@ == FrameState::Stopped),
    {
        self.state == FrameState::Stopped
    }

    /// Takes `event` and says what to do next.
    pub fn step(&mut self, event: FrameEvent) -> (action: FrameAction)
        ensures
            (final(self)@, action) == transition(old(self)@, event),
    {
        let (next, action) = match (self.state, event) {
            (FrameState::Idle, FrameEvent::Tick) => (FrameState::Acquiring, FrameAction::Acquire),
            (FrameState::Acquiring, FrameEvent::Acquired) => (
                FrameState::Recording,
                FrameAction::Record,
            ),
            (FrameState::Acquiring, FrameEvent::AcquireFailed(error)) => match error {
                SurfaceError::Lost | SurfaceError::Outdated => (
                    FrameState::ErrorRecovery,
                    FrameAction::Reconfigure,
                ),
                SurfaceError::OutOfMemory => (FrameState::Stopped, FrameAction::Shutdown),
                SurfaceError::Timeout => (FrameState::Idle, FrameAction::Skip),
            },
            (FrameState::Recording, FrameEvent::Recorded) => (
                FrameState::Presenting,
                FrameAction::Present,
            ),
            (FrameState::Presenting, FrameEvent::Presented) => (
                FrameState::Idle,
                FrameAction::Finish,
            ),
            (FrameState::ErrorRecovery, FrameEvent::Recovered) => (
                FrameState::Idle,
                FrameAction::Retry,
            ),
            (state, _) => (state, FrameAction::Ignore),
        };
        self.state = next;
        action
    }
}

/// A render pass is recorded only into a frame that was just acquired, and
/// a frame is presented only once its pass is recorded: no other state and
/// no other event leads to either.
pub proof fn lemma_record_only_after_acquire(state: FrameState, event: FrameEvent)
    ensures
        transition(state, event).1 == FrameAction::Record <==> state == FrameState::Acquiring
            && event == FrameEvent::Acquired,
        transition(state, event).1 == FrameAction::Present <==> state == FrameState::Recording
            && event == FrameEvent::Recorded,
{
}

/// A failed acquisition is answered by exactly one action, fixed by its
/// kind, and never by recording or presenting.
pub proof fn lemma_acquire_failure_is_classified(error: SurfaceError)
    ensures
        error.needs_reconfigure() ==> transition(
            FrameState::Acquiring,
            FrameEvent::AcquireFailed(error),
        ) == (FrameState::ErrorRecovery, FrameAction::Reconfigure),
        error == SurfaceError::Timeout ==> transition(
            FrameState::Acquiring,
            FrameEvent::AcquireFailed(error),
        ) == (FrameState::Idle, FrameAction::Skip),
        error.is_fatal() ==> transition(FrameState::Acquiring, FrameEvent::AcquireFailed(error))
            == (FrameState::Stopped, FrameAction::Shutdown),
        error.needs_reconfigure() || error == SurfaceError::Timeout || error.is_fatal(),
{
}

/// After a failure that is not fatal the next tick acquires again; where
/// the surface had to be configured again, once that is reported done.
pub proof fn lemma_recovery_resumes(error: SurfaceError)
    requires
        !error.is_fatal(),
    ensures
        error.needs_reconfigure() ==> transition(
            transition(FrameState::Acquiring, FrameEvent::AcquireFailed(error)).0,
            FrameEvent::Recovered,
        ) == (FrameState::Idle, FrameAction::Retry),
        !error.needs_reconfigure() ==> transition(
            FrameState::Acquiring,
            FrameEvent::AcquireFailed(error),
        ).0 == FrameState::Idle,
        transition(FrameState::Idle, FrameEvent::Tick) == (
            FrameState::Acquiring,
            FrameAction::Acquire,
        ),
{
}

/// While the surface is being configured again, no frame is begun: a tick
/// is ignored until the recovery is reported.
pub proof fn lemma_no_frame_during_recovery(event: FrameEvent)
    ensures
        event != FrameEvent::Recovered ==> transition(FrameState::ErrorRecovery, event) == (
            FrameState::ErrorRecovery,
            FrameAction::Ignore,
        ),
        transition(FrameState::ErrorRecovery, FrameEvent::Recovered) == (
            FrameState::Idle,
            FrameAction::Retry,
        ),
{
}

/// Only running out of memory while acquiring shuts the loop down.
pub proof fn lemma_shutdown_only_when_out_of_memory(state: FrameState, event: FrameEvent)
    ensures
        transition(state, event).1 == FrameAction::Shutdown <==> state == FrameState::Acquiring
            && event == FrameEvent::AcquireFailed(SurfaceError::OutOfMemory),
        transition(state, event).0 == FrameState::Stopped <==> state == FrameState::Stopped || (
        state == FrameState::Acquiring && event == FrameEvent::AcquireFailed(
            SurfaceError::OutOfMemory,
        )),
{
}

/// Once stopped, the loop stays stopped and asks for nothing, whatever it
/// is told and however often.
pub proof fn lemma_stopped_is_final(events: Seq<FrameEvent>)
    ensures
        run(FrameState::Stopped, events) == FrameState::Stopped,
        forall|event: FrameEvent| #[trigger]
            transition(FrameState::Stopped, event) == (FrameState::Stopped, FrameAction::Ignore),
    decreases events.len(),
{
    if events.len() > 0 {
        lemma_stopped_is_final(events.drop_last());
    }
}

/// Counting in a trace that grew by one action.
proof fn lemma_count_push(actions: Seq<FrameAction>, last: FrameAction, action: FrameAction)
    ensures
        count(actions.push(last), action) == count(actions, action) + if last == action {
            1nat
        } else {
            0nat
        },
{
    assert(actions.push(last).drop_last() =~= actions);
}

/// Whatever a frame loop that starts between frames is told, it asks for
/// shutdown at most once: exactly once if it ends up stopped, and never
/// otherwise.
pub proof fn lemma_at_most_one_shutdown(events: Seq<FrameEvent>)
    ensures
        count(trace(FrameState::Idle, events), FrameAction::Shutdown) == if run(
            FrameState::Idle,
            events,
        ) == FrameState::Stopped {
            1nat
        } else {
            0nat
        },
    decreases events.len(),
{
    if events.len() > 0 {
        let earlier = events.drop_last();
        lemma_at_most_one_shutdown(earlier);
        lemma_count_push(
            trace(FrameState::Idle, earlier),
            transition(run(FrameState::Idle, earlier), events.last()).1,
            FrameAction::Shutdown,
        );
    }
}

/// Frames go through the loop in order. Whatever a frame loop that starts
/// between frames is told, it never asks for more passes to be recorded
/// than frames were asked for, nor for more presents than passes were
/// recorded. Each frame asked for either goes on to be recorded or ends in
/// exactly one reconfiguration, skip or shutdown, and each reconfiguration
/// is waited for.
pub proof fn lemma_frames_in_order(events: Seq<FrameEvent>)
    ensures
        count(trace(FrameState::Idle, events), FrameAction::Present) <= count(
            trace(FrameState::Idle, events),
            FrameAction::Record,
        ) <= count(trace(FrameState::Idle, events), FrameAction::Acquire),
        count(trace(FrameState::Idle, events), FrameAction::Record) == count(
            trace(FrameState::Idle, events),
            FrameAction::Present,
        ) + if run(FrameState::Idle, events) == FrameState::Recording {
            1nat
        } else {
            0nat
        },
        count(trace(FrameState::Idle, events), FrameAction::Finish) + if run(
            FrameState::Idle,
            events,
        ) == FrameState::Presenting {
            1nat
        } else {
            0nat
        } == count(trace(FrameState::Idle, events), FrameAction::Present),
        count(trace(FrameState::Idle, events), FrameAction::Acquire) == count(
            trace(FrameState::Idle, events),
            FrameAction::Record,
        ) + count(trace(FrameState::Idle, events), FrameAction::Reconfigure) + count(
            trace(FrameState::Idle, events),
            FrameAction::Skip,
        ) + count(trace(FrameState::Idle, events), FrameAction::Shutdown) + if run(
            FrameState::Idle,
            events,
        ) == FrameState::Acquiring {
            1nat
        } else {
            0nat
        },
        count(trace(FrameState::Idle, events), FrameAction::Reconfigure) == count(
            trace(FrameState::Idle, events),
            FrameAction::Retry,
        ) + if run(FrameState::Idle, events) == FrameState::ErrorRecovery {
            1nat
        } else {
            0nat
        },
    decreases events.len(),
{
    if events.len() > 0 {
        let earlier = events.drop_last();
        let before = trace(FrameState::Idle, earlier);
        let last = transition(run(FrameState::Idle, earlier), events.last()).1;
        lemma_frames_in_order(earlier);
        lemma_count_push(before, last, FrameAction::Acquire);
        lemma_count_push(before, last, FrameAction::Record);
        lemma_count_push(before, last, FrameAction::Present);
        lemma_count_push(before, last, FrameAction::Finish);
        lemma_count_push(before, last, FrameAction::Reconfigure);
        lemma_count_push(before, last, FrameAction::Skip);
        lemma_count_push(before, last, FrameAction::Shutdown);
        lemma_count_push(before, last, FrameAction::Retry);
    }
}

} // verus!
