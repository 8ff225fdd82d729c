//! The capability context handed to one launch: opaque handles to the node's
//! subsystems, static configuration, and per-launch metadata. Subsystem
//! handles are opaque to this crate and are carried as plain identifiers;
//! the embedding process resolves them to the live objects.

use vstd::prelude::*;

verus! {

/// Static configuration for one launch.
#[derive(Clone, Debug)]
pub struct LaunchConfig {
    /// Developer mode: assembly seeds deterministic signer accounts.
    pub dev: bool,
    /// Configuration blob handed to the Eth API builder.
    pub eth_config: u64,
    /// Configuration blob for the state cache.
    pub cache_config: u64,
    /// Port the authenticated engine listener binds to.
    pub auth_port: u64,
    /// Whether the engine handler accepts execution-requests hashes.
    pub accept_execution_requests_hash: bool,
    /// Namespaces enabled on the http transport.
    pub http_modules: Vec<u64>,
    /// Namespaces enabled on the ws transport.
    pub ws_modules: Vec<u64>,
    /// Namespaces enabled on the ipc transport.
    pub ipc_modules: Vec<u64>,
}

/// Read-only view over the node's subsystems plus static configuration and
/// per-launch metadata. Immutable for one launch.
#[derive(Clone, Debug)]
pub struct CapabilityContext {
    /// Chain provider handle.
    pub provider: u64,
    /// Transaction pool handle.
    pub pool: u64,
    /// Network handle.
    pub network: u64,
    /// Executor handle.
    pub executor: u64,
    /// Consensus engine handle.
    pub consensus: u64,
    /// Task spawner handle, used for the critical cache feed.
    pub task_spawner: u64,
    /// Payload builder handle.
    pub payload_builder: u64,
    /// Chain configuration handle.
    pub chain_spec: u64,
    /// Static launch configuration.
    pub config: LaunchConfig,
    /// Secret authenticating the engine listener.
    pub jwt_secret: u64,
    /// Handle to the beacon consensus engine, exposed again in the facade.
    pub beacon_engine_handle: u64,
    /// Engine-event broadcast sender, exposed again in the facade.
    pub engine_events: u64,
}

/// Handle to the state cache created during launch. The cache must exist
/// before the Eth API builder runs.
#[derive(Clone, Copy, Debug, PartialEq, Eq, Structural)]
pub struct CacheHandle {
    /// Opaque identifier of the cache instance.
    pub id: u64,
}

/// Narrowed context consumed by the Eth API builder: the subsystem subset it
/// needs, its configuration, and the already-constructed cache handle.
#[derive(Clone, Copy, Debug, PartialEq, Eq, Structural)]
pub struct EthApiBuildContext {
    /// Chain provider handle.
    pub provider: u64,
    /// Transaction pool handle.
    pub pool: u64,
    /// Network handle.
    pub network: u64,
    /// Executor handle.
    pub executor: u64,
    /// Eth API configuration blob.
    pub eth_config: u64,
    /// Handle to the state cache the Eth API reads.
    pub cache: CacheHandle,
}

/// Configuration of the authenticated engine listener.
#[derive(Clone, Copy, Debug, PartialEq, Eq, Structural)]
pub struct AuthConfig {
    /// Secret the listener authenticates requests with.
    pub jwt_secret: u64,
    /// Port to bind.
    pub port: u64,
}

} // verus!
