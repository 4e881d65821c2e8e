use vstd::prelude::*;

verus! {

/// Where the analysis context stands in one recording session.
#[derive(Debug, Clone, Copy, PartialEq, Eq, Structural)]
pub enum SessionState {
    /// Capturing and analyzing.
    Running,
    /// Stop was requested: the frames still queued are analyzed.
    Draining,
    /// The sink was finalized; the session is over.
    Finished,
}

/// What the analysis context observed between two frames.
#[derive(Debug, Clone, Copy, PartialEq, Eq, Structural)]
pub enum SessionEvent {
    /// A frame was popped from the queue.
    FrameReady,
    /// The queue was empty.
    QueueEmpty,
    /// The control context asked to stop.
    StopRequested,
    /// The capture stream reported a fault.
    StreamFault,
    /// Writing to the recording sink failed.
    SinkFault,
}

/// What the analysis context does next.
#[derive(Debug, Clone, Copy, PartialEq, Eq, Structural)]
pub enum SessionAction {
    /// Analyze the popped frame and append it to the sink.
    Analyze,
    /// Poll the queue again.
    Wait,
    /// Finalize the sink and leave the loop.
    Finalize,
    /// Nothing: the session is over.
    Idle,
}

/// The next state and action of the analysis context after `event` in
/// `state`. A stop drains the queue before finalizing; a stream or sink fault
/// finalizes at once with what was captured; a finished session stays
/// finished and does nothing.
pub open spec fn transition(state: SessionState, event: SessionEvent) -> (SessionState, SessionAction) {
    if state == SessionState::Finished {
        (SessionState::Finished, SessionAction::Idle)
    } else {
        match event {
            SessionEvent::FrameReady => (state, SessionAction::Analyze),
            SessionEvent::QueueEmpty => if state == SessionState::Running {
                (SessionState::Running, SessionAction::Wait)
            } else {
                (SessionState::Finished, SessionAction::Finalize)
            },
            SessionEvent::StopRequested => (SessionState::Draining, SessionAction::Wait),
            SessionEvent::StreamFault => (SessionState::Finished, SessionAction::Finalize),
            SessionEvent::SinkFault => (SessionState::Finished, SessionAction::Finalize),
        }
    }
}

/// Decides the analysis context's next state and action.
pub fn step(state: SessionState, event: SessionEvent) -> (r: (SessionState, SessionAction))
    ensures
        r == transition(state, event),
{
    match state {
        SessionState::Finished => (SessionState::Finished, SessionAction::Idle),
        _ => match event {
            SessionEvent::FrameReady => (state, SessionAction::Analyze),
            SessionEvent::QueueEmpty => match state {
                SessionState::Running => (SessionState::Running, SessionAction::Wait),
                _ => (SessionState::Finished, SessionAction::Finalize),
            },
            SessionEvent::StopRequested => (SessionState::Draining, SessionAction::Wait),
            _ => (SessionState::Finished, SessionAction::Finalize),
        },
    }
}

/// The sink is finalized exactly once per session: a step finalizes if and
/// only if it takes an unfinished session to `Finished`.
pub proof fn lemma_finalize_exactly_on_finish(
    state: SessionState,
    event: SessionEvent,
    next: SessionState,
    action: SessionAction,
)
    requires
        (next, action) == transition(state, event),
    ensures
        (action == SessionAction::Finalize) <==> (state != SessionState::Finished
            && next == SessionState::Finished),
{
}

} // verus!
