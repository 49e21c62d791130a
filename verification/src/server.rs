//! The supervised server slot: at most one local inference server exists,
//! and the slot's state says where it is in its lifetime.
//!
//! The slot holds only what the decisions read: an opaque task identifier
//! by which the surrounding process finds the real process handle, and
//! the endpoint the server listens on once running. Every stop request
//! goes through [`ServerState::stop_transition`], so stopping is provably
//! idempotent and a teardown duty is handed out at most once.

use vstd::prelude::*;

verus! {

/// The handle of a running server: the endpoint it serves, and the task
/// identifier under which the surrounding process holds the exclusive
/// owner of the underlying process.
pub struct ServerHandle {
    pub task: u64,
    pub api_base: String,
}

/// Where the single supervised server is in its lifetime.
pub enum ServerState {
    /// No server process exists.
    Stopped,
    /// A launch was registered; the process is being spawned and probed.
    Starting(u64),
    /// The server answered its readiness probe and serves at the handle's
    /// endpoint.
    Running(ServerHandle),
    /// A shutdown was requested and its teardown is still running.
    Stopping(u64),
}

impl ServerState {
    /// A server process may exist: anything but `Stopped`.
    pub open spec fn is_active(self) -> bool {
        !(self is Stopped)
    }

    /// The state a stop request leaves the slot in: an existing launch or
    /// server moves to `Stopping`; a stopped or already stopping slot is
    /// left as it is.
    pub open spec fn stop_transition(self) -> ServerState {
        match self {
            ServerState::Stopped => ServerState::Stopped,
            ServerState::Starting(t) => ServerState::Stopping(t),
            ServerState::Running(h) => ServerState::Stopping(h.task),
            ServerState::Stopping(t) => ServerState::Stopping(t),
        }
    }

    /// The teardown duty a stop request hands out: the task to shut down,
    /// if one is not already being shut down.
    pub open spec fn stop_handout(self) -> Option<u64> {
        match self {
            ServerState::Stopped => None,
            ServerState::Starting(t) => Some(t),
            ServerState::Running(h) => Some(h.task),
            ServerState::Stopping(_) => None,
        }
    }
}

/// Stopping is idempotent: a second stop request changes nothing, hands
/// out no second teardown duty, and a stopped-or-stopping slot never
/// reads as running.
pub proof fn lemma_stop_idempotent(s: ServerState)
    ensures
        s.stop_transition().stop_transition() == s.stop_transition(),
        s.stop_transition().stop_handout() is None,
        !(s.stop_transition() is Running),
{
}

} // verus!
