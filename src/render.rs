//! The decisions of the render loop, as a state machine: what to do next,
//! given its state and what has just happened.
use vstd::prelude::*;

verus! {

/// The time between two frames, in milliseconds: about sixty per second.
pub const FRAME_PERIOD_MS: u64 = 16;

/// Where the render loop stands.
#[derive(Debug, Clone, Copy, PartialEq, Eq, Structural)]
pub enum LoopState {
    /// Producing frames.
    Running,
    /// Asked to stop; the device is being shut down.
    Stopping,
    /// Done for good.
    Stopped,
}

/// What has just happened to the loop.
#[derive(Debug, Clone, Copy, PartialEq, Eq, Structural)]
pub enum LoopEvent {
    /// The period has passed: a frame is due.
    FrameDue,
    /// A frame was produced and handed to the device.
    FrameShown,
    /// A frame was produced but the device refused it.
    DisplayFailed,
    /// The shutdown signal arrived.
    ShutdownSignal,
    /// The device has been shut down.
    DeviceDown,
}

/// What the loop should do next.
#[derive(Debug, Clone, Copy, PartialEq, Eq, Structural)]
pub enum LoopAction {
    /// Tick the manager into the frame, then push the frame to the device.
    RenderFrame,
    /// Sleep until the next frame is due, waking early on the shutdown signal.
    Wait,
    /// Shut the device down.
    ShutDownDevice,
    /// Leave the loop.
    Exit,
}

/// The transition table of the render loop.
pub open spec fn transition(state: LoopState, event: LoopEvent) -> (LoopState, LoopAction) {
    match state {
        LoopState::Running => match event {
            LoopEvent::FrameDue => (LoopState::Running, LoopAction::RenderFrame),
            LoopEvent::FrameShown => (LoopState::Running, LoopAction::Wait),
            LoopEvent::DisplayFailed => (LoopState::Running, LoopAction::Wait),
            LoopEvent::ShutdownSignal => (LoopState::Stopping, LoopAction::ShutDownDevice),
            LoopEvent::DeviceDown => (LoopState::Running, LoopAction::Wait),
        },
        LoopState::Stopping => match event {
            LoopEvent::DeviceDown => (LoopState::Stopped, LoopAction::Exit),
            _ => (LoopState::Stopping, LoopAction::ShutDownDevice),
        },
        LoopState::Stopped => (LoopState::Stopped, LoopAction::Exit),
    }
}

/// The state reached from `state` after the events, in order.
pub open spec fn run(state: LoopState, events: Seq<LoopEvent>) -> LoopState
    decreases events.len(),
{
    if events.len() == 0 {
        state
    } else {
        run(transition(state, events[0]).0, events.drop_first())
    }
}

/// The next state and action of the loop. A failed display is no reason to
/// stop: the loop goes on to the next frame.
pub fn next_step(state: LoopState, event: LoopEvent) -> (r: (LoopState, LoopAction))
    ensures
        r == transition(state, event),
{
    match state {
        LoopState::Running => match event {
            LoopEvent::FrameDue => (LoopState::Running, LoopAction::RenderFrame),
            LoopEvent::FrameShown => (LoopState::Running, LoopAction::Wait),
            LoopEvent::DisplayFailed => (LoopState::Running, LoopAction::Wait),
            LoopEvent::ShutdownSignal => (LoopState::Stopping, LoopAction::ShutDownDevice),
            LoopEvent::DeviceDown => (LoopState::Running, LoopAction::Wait),
        },
        LoopState::Stopping => match event {
            LoopEvent::DeviceDown => (LoopState::Stopped, LoopAction::Exit),
            _ => (LoopState::Stopping, LoopAction::ShutDownDevice),
        },
        LoopState::Stopped => (LoopState::Stopped, LoopAction::Exit),
    }
}

/// Once stopped, the loop stays stopped, whatever happens after.
pub proof fn lemma_stopped_is_final(events: Seq<LoopEvent>)
    ensures
        run(LoopState::Stopped, events) == LoopState::Stopped,
    decreases events.len(),
{
    if events.len() > 0 {
        lemma_stopped_is_final(events.drop_first());
    }
}

/// The loop only stops after the shutdown signal: from `Running`, events
/// without that signal keep it running.
pub proof fn lemma_runs_until_signal(events: Seq<LoopEvent>)
    requires
        forall|i: int| 0 <= i < events.len() ==> events[i] != LoopEvent::ShutdownSignal,
    ensures
        run(LoopState::Running, events) == LoopState::Running,
    decreases events.len(),
{
    if events.len() > 0 {
        assert(events[0] != LoopEvent::ShutdownSignal);
        assert forall|i: int| 0 <= i < events.drop_first().len() implies events.drop_first()[i]
            != LoopEvent::ShutdownSignal by {
            assert(events.drop_first()[i] == events[i + 1]);
        }
        lemma_runs_until_signal(events.drop_first());
    }
}

} // verus!
