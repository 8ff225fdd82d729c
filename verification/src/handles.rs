//! Handles to the launched servers and the read-only facade returned by a
//! successful launch.

use vstd::prelude::*;
use crate::registry::ApiRegistry;

verus! {

/// Handle to the bound general-purpose transport server.
#[derive(Clone, Copy, Debug, PartialEq, Eq, Structural)]
pub struct RpcServerHandle {
    /// Address of the http listener, when http is enabled.
    pub http_local_addr: Option<u64>,
    /// Address of the ws listener, when ws is enabled.
    pub ws_local_addr: Option<u64>,
    /// Endpoint of the ipc listener, when ipc is enabled.
    pub ipc_endpoint: Option<u64>,
}

/// Handle to the bound authenticated engine server.
#[derive(Clone, Copy, Debug, PartialEq, Eq, Structural)]
pub struct AuthServerHandle {
    /// Address of the authenticated listener.
    pub local_addr: u64,
    /// Endpoint of its ipc listener, when one is configured.
    pub ipc_endpoint: Option<u64>,
}

/// The handles to both independently bound listeners. Immutable once
/// created, clonable.
#[derive(Clone, Copy, Debug, PartialEq, Eq, Structural)]
pub struct ServerHandles {
    /// The general-purpose transport server.
    pub rpc: RpcServerHandle,
    /// The authenticated engine server.
    pub auth: AuthServerHandle,
}

/// The terminal artifact of a successful launch: a read-only, clonable view
/// over the server handles, the registry, the engine-event sender and the
/// beacon engine handle. A new launch is required to change the exposed
/// surface.
#[derive(Clone, Copy, Debug, PartialEq, Eq, Structural)]
pub struct HandleFacade {
    /// Handles to both launched servers.
    pub server_handles: ServerHandles,
    /// The registry of constructed handlers, the same instance used during
    /// build.
    pub registry: ApiRegistry,
    /// The engine-event broadcast sender.
    pub engine_events: u64,
    /// Handle to the beacon consensus engine.
    pub beacon_engine_handle: u64,
}

impl HandleFacade {
    /// The registry of constructed handlers.
    pub fn registry(&self) -> (r: &ApiRegistry)
        ensures
            *r == self.registry,
    {
        &self.registry
    }

    /// Handles to both launched servers.
    pub fn server_handles(&self) -> (h: &ServerHandles)
        ensures
            *h == self.server_handles,
    {
        &self.server_handles
    }
}

} // verus!
