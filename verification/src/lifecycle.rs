//! Owning the backend for the length of a session.
//!
//! A session starts without a backend, learns once how the launch went, and
//! on the destruction of the window says whether a process is to be killed.

use vstd::prelude::*;
use crate::launcher::{BackendHandle, SpawnOutcome, launch_handle};

verus! {

/// The backend as the session knows it.
#[derive(Clone, Copy, Debug, PartialEq, Eq, Structural)]
pub enum BackendState {
    /// No launch has been recorded yet.
    Unstarted,
    /// The launch started the process behind `handle`.
    Running { handle: BackendHandle },
    /// The launch started nothing.
    Absent,
    /// The process that ran was told to end.
    Terminated,
}

/// What the owner of the window has to do when it is destroyed.
#[derive(Clone, Copy, Debug, PartialEq, Eq, Structural)]
pub enum ShutdownAction {
    Kill { handle: BackendHandle },
    Nothing,
}

/// The state that records the result of a launch.
pub open spec fn recorded(result: Option<BackendHandle>) -> BackendState {
    match result {
        Some(handle) => BackendState::Running { handle },
        None => BackendState::Absent,
    }
}

/// The state after a launch result arrives: it is taken in only where none
/// was recorded before.
pub open spec fn after_launch(state: BackendState, result: Option<BackendHandle>) -> BackendState {
    if state is Unstarted {
        recorded(result)
    } else {
        state
    }
}

/// The state after the window is destroyed: a running backend is
/// terminated, every other state stays.
pub open spec fn after_destroyed(state: BackendState) -> BackendState {
    match state {
        BackendState::Running { handle } => BackendState::Terminated,
        _ => state,
    }
}

/// What is to be done when the window is destroyed in `state`.
pub open spec fn shutdown_action(state: BackendState) -> ShutdownAction {
    match state {
        BackendState::Running { handle } => ShutdownAction::Kill { handle },
        _ => ShutdownAction::Nothing,
    }
}

/// The session's hold on the backend.
pub struct Session {
    state: BackendState,
}

impl Session {
    /// The backend as the session knows it.
    pub closed spec fn view(&self) -> BackendState {
        self.state
    }

    /// A session that has not launched anything.
    pub fn new() -> (r: Session)
        ensures
            r@ == BackendState::Unstarted,
    {
        Session { state: BackendState::Unstarted }
    }

    /// The backend as the session knows it.
    pub fn state(&self) -> (r: BackendState)
        ensures
            r == self@,
    {
        self.state
    }

    /// Whether a backend is running, which is when its readiness is worth
    /// polling.
    pub fn has_backend(&self) -> (r: bool)
        ensures
            r == (self@ is Running),
    {
        match self.state {
            BackendState::Running { .. } => true,
            _ => false,
        }
    }

    /// Records how the launch went. Only the first result counts; the
    /// answer says whether this one was taken in.
    pub fn record_launch(&mut self, result: Option<BackendHandle>) -> (accepted: bool)
        ensures
            accepted == (old(self)@ is Unstarted),
            final(self)@ == after_launch(old(self)@, result),
    {
        match self.state {
            BackendState::Unstarted => {
                self.state = match result {
                    Some(handle) => BackendState::Running { handle },
                    None => BackendState::Absent,
                };
                true
            },
            _ => false,
        }
    }

    /// Takes in that the window was destroyed and says what to do about the
    /// backend: kill it where one is running, nothing otherwise.
    pub fn on_window_destroyed(&mut self) -> (action: ShutdownAction)
        ensures
            action == shutdown_action(old(self)@),
            final(self)@ == after_destroyed(old(self)@),
    {
        match self.state {
            BackendState::Running { handle } => {
                self.state = BackendState::Terminated;
                ShutdownAction::Kill { handle }
            },
            _ => ShutdownAction::Nothing,
        }
    }
}

/// A launch in which every candidate fails leaves the session without a
/// backend, and the destruction of the window then asks for nothing.
pub proof fn lemma_failed_launch_shuts_down_quietly(outcomes: Seq<SpawnOutcome>)
    requires
        forall|i: int| 0 <= i < outcomes.len() ==> #[trigger] outcomes[i] is Failed,
    ensures
        after_launch(BackendState::Unstarted, launch_handle(outcomes)) == BackendState::Absent,
        shutdown_action(BackendState::Absent) == ShutdownAction::Nothing,
        after_destroyed(BackendState::Absent) == BackendState::Absent,
{
    crate::launcher::lemma_all_fail_is_absent(outcomes);
}

/// A backend is killed at most once: after the window was destroyed, a
/// second destruction asks for nothing.
pub proof fn lemma_kill_at_most_once(state: BackendState)
    ensures
        shutdown_action(after_destroyed(state)) == ShutdownAction::Nothing,
        after_destroyed(after_destroyed(state)) == after_destroyed(state),
{
}

/// A session without a backend, and one whose backend was terminated, stay
/// as they are whatever arrives.
pub proof fn lemma_final_states_stay(state: BackendState, result: Option<BackendHandle>)
    requires
        state is Absent || state is Terminated,
    ensures
        after_launch(state, result) == state,
        after_destroyed(state) == state,
        shutdown_action(state) == ShutdownAction::Nothing,
{
}

/// A session holds at most the handle of its first recorded launch: a
/// later result changes nothing.
pub proof fn lemma_single_handle(
    first: Option<BackendHandle>,
    second: Option<BackendHandle>,
)
    ensures
        after_launch(after_launch(BackendState::Unstarted, first), second) == recorded(first),
{
}

} // verus!
