//! Errors a launch can abort with. Every phase error is returned to the
//! launch caller; nothing is retried internally, and partial side effects
//! (for instance one already-bound listener) are not unwound.

use vstd::prelude::*;

verus! {

/// The two extension points around the server binds.
#[derive(Clone, Copy, Debug, PartialEq, Eq, Structural)]
pub enum HookPoint {
    /// The "extend modules" hook, run before either server binds.
    PreLaunch,
    /// The "on started" hook, run after both servers have bound.
    PostLaunch,
}

/// The two independently bound listeners.
#[derive(Clone, Copy, Debug, PartialEq, Eq, Structural)]
pub enum ServerKind {
    /// The general-purpose transport server (http/ws/ipc).
    Transport,
    /// The authenticated engine server.
    Auth,
}

/// Why a launch aborted. The variant identifies the failing phase.
#[derive(Clone, Copy, Debug, PartialEq, Eq, Structural)]
pub enum LaunchError {
    /// A builder failed: bad configuration or an unavailable dependency.
    /// No server has been started.
    Construction(u64),
    /// A hook failed. A pre-launch failure means no server was started; a
    /// post-launch failure leaves both servers bound and running.
    Hook(HookPoint, u64),
    /// One of the two concurrent binds failed. The other bind is not
    /// cancelled and may still complete on its own.
    Bind(ServerKind, u64),
}

} // verus!
