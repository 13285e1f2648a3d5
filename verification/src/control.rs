use vstd::prelude::*;

verus! {

/// The two states of the frame loop.
#[derive(Clone, Copy, PartialEq, Eq, Structural, Debug)]
pub enum LoopState {
    Running,
    Exiting,
}

/// What the window system hands the loop on one wakeup, reduced to the
/// three things the control rule reads.
#[derive(Clone, Copy, PartialEq, Eq, Structural, Debug)]
pub enum LoopEvent {
    /// The window was asked to close.
    CloseRequested,
    /// The frame timer came due, or the loop just started.
    TickDue,
    /// Any other wakeup.
    Ignored,
}

/// What the loop does in response to one wakeup.
#[derive(Clone, Copy, PartialEq, Eq, Structural, Debug)]
pub enum LoopAction {
    /// Stop the event loop.
    Exit,
    /// Advance the world one tick, redraw, and re-arm the frame timer.
    RunFrame,
    /// Do nothing and keep waiting.
    Idle,
}

/// The frame loop's whole control rule: a close request ends the loop, a
/// due timer runs exactly one frame, every other wakeup is ignored, and
/// once the loop is exiting nothing runs any more.
pub fn loop_step(state: LoopState, ev: LoopEvent) -> (r: (LoopState, LoopAction))
    ensures
        state is Exiting ==> r == ((LoopState::Exiting, LoopAction::Idle)),
        state is Running && ev is CloseRequested ==> r == ((
            LoopState::Exiting,
            LoopAction::Exit,
        )),
        state is Running && ev is TickDue ==> r == ((LoopState::Running, LoopAction::RunFrame)),
        state is Running && ev is Ignored ==> r == ((LoopState::Running, LoopAction::Idle)),
{
    match state {
        LoopState::Exiting => (LoopState::Exiting, LoopAction::Idle),
        LoopState::Running => match ev {
            LoopEvent::CloseRequested => (LoopState::Exiting, LoopAction::Exit),
            LoopEvent::TickDue => (LoopState::Running, LoopAction::RunFrame),
            LoopEvent::Ignored => (LoopState::Running, LoopAction::Idle),
        },
    }
}

} // verus!
