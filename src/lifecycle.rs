//! The server's lifecycle: Unbound, then bound and listening, then running,
//! then stopped. The embedding process performs each action and reports the
//! event back.
use vstd::prelude::*;

verus! {

#[derive(Clone, Copy, Debug, PartialEq, Eq, Structural)]
pub enum ServerState {
    Unbound,
    Listening,
    Running,
    Stopped,
}

#[derive(Clone, Copy, Debug, PartialEq, Eq, Structural)]
pub enum LifecycleEvent {
    /// The listener was bound to its address.
    BindSucceeded,
    /// The address could not be bound.
    BindFailed,
    /// The serving task was spawned and its handle recorded.
    TaskSpawned,
    /// The embedding process cancelled or dropped the recorded tasks.
    Cancelled,
}

#[derive(Clone, Copy, Debug, PartialEq, Eq, Structural)]
pub enum LifecycleAction {
    /// Spawn the serving task and record its handle.
    SpawnServer,
    /// Hand the bind failure to the embedding process; no retry.
    ReportBindFailure,
    /// Nothing to do.
    Idle,
}

/// The next state and the action to take, for an event in a state.
pub open spec fn transition(s: ServerState, e: LifecycleEvent) -> (ServerState, LifecycleAction) {
    match (s, e) {
        (ServerState::Unbound, LifecycleEvent::BindSucceeded) => (
            ServerState::Listening,
            LifecycleAction::SpawnServer,
        ),
        (ServerState::Unbound, LifecycleEvent::BindFailed) => (
            ServerState::Stopped,
            LifecycleAction::ReportBindFailure,
        ),
        (ServerState::Listening, LifecycleEvent::TaskSpawned) => (
            ServerState::Running,
            LifecycleAction::Idle,
        ),
        (ServerState::Listening, LifecycleEvent::Cancelled) => (
            ServerState::Stopped,
            LifecycleAction::Idle,
        ),
        (ServerState::Running, LifecycleEvent::Cancelled) => (
            ServerState::Stopped,
            LifecycleAction::Idle,
        ),
        _ => (s, LifecycleAction::Idle),
    }
}

/// Takes one step of the lifecycle.
pub fn step(s: ServerState, e: LifecycleEvent) -> (r: (ServerState, LifecycleAction))
    ensures
        r == transition(s, e),
{
    match (s, e) {
        (ServerState::Unbound, LifecycleEvent::BindSucceeded) => (
            ServerState::Listening,
            LifecycleAction::SpawnServer,
        ),
        (ServerState::Unbound, LifecycleEvent::BindFailed) => (
            ServerState::Stopped,
            LifecycleAction::ReportBindFailure,
        ),
        (ServerState::Listening, LifecycleEvent::TaskSpawned) => (
            ServerState::Running,
            LifecycleAction::Idle,
        ),
        (ServerState::Listening, LifecycleEvent::Cancelled) => (
            ServerState::Stopped,
            LifecycleAction::Idle,
        ),
        (ServerState::Running, LifecycleEvent::Cancelled) => (
            ServerState::Stopped,
            LifecycleAction::Idle,
        ),
        _ => (s, LifecycleAction::Idle),
    }
}

/// Once stopped, the server stays stopped and does nothing more; a bind
/// failure is never retried.
pub proof fn lemma_stopped_is_final(e: LifecycleEvent)
    ensures
        transition(ServerState::Stopped, e) == (ServerState::Stopped, LifecycleAction::Idle),
        transition(ServerState::Unbound, LifecycleEvent::BindFailed).0 == ServerState::Stopped,
{
}

/// The server runs only after it was bound: no event takes an unbound server
/// straight to running.
pub proof fn lemma_running_only_after_bind(e: LifecycleEvent)
    ensures
        transition(ServerState::Unbound, e).0 != ServerState::Running,
{
}

} // verus!
