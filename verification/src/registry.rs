//! The registry of constructed handler instances, and the module assembler
//! that produces the method-sets, the authenticated module and the registry
//! from the two built handlers. Assembly is infallible under normal
//! configuration.

use vstd::prelude::*;
use crate::config::{CacheHandle, LaunchConfig};
use crate::modules::{AuthModule, TransportModuleSet, NAMESPACE_ENGINE, NAMESPACE_ETH};

verus! {

/// How many deterministic development-only signer accounts developer mode
/// seeds into the Eth handler.
pub const DEV_SIGNER_COUNT: u64 = 20;

/// Static client-identity descriptor the engine handler reports to the
/// consensus-layer client.
#[derive(Clone, Copy, Debug, PartialEq, Eq, Structural)]
pub struct ClientIdentity {
    /// Client code.
    pub code: u64,
    /// Client name.
    pub name: u64,
    /// Client version.
    pub version: u64,
    /// Source commit the client was built from.
    pub commit: u64,
}

/// The constructed Eth API handler.
#[derive(Clone, Copy, Debug, PartialEq, Eq, Structural)]
pub struct EthHandler {
    /// Opaque identifier of the handler instance.
    pub id: u64,
    /// Handle to the state cache the handler reads.
    pub cache: CacheHandle,
}

/// The constructed engine API handler.
#[derive(Clone, Copy, Debug, PartialEq, Eq, Structural)]
pub struct EngineHandler {
    /// Chain provider the handler reads.
    pub provider: u64,
    /// Chain configuration.
    pub chain_spec: u64,
    /// Handle to the beacon consensus engine.
    pub beacon_engine_handle: u64,
    /// Payload store fed by the payload builder.
    pub payload_store: u64,
    /// Transaction pool handle.
    pub pool: u64,
    /// Task spawner handle.
    pub task_spawner: u64,
    /// Client identity reported to the consensus-layer client.
    pub client: ClientIdentity,
    /// The validator the handler checks payloads with.
    pub validator: u64,
    /// Whether execution-requests hashes are accepted.
    pub accept_execution_requests_hash: bool,
}

/// Mapping from logical namespace to constructed handler instance. Holds
/// exactly one Eth handler and at most one engine handler per launch, by
/// construction.
#[derive(Clone, Copy, Debug, PartialEq, Eq, Structural)]
pub struct ApiRegistry {
    /// The one Eth API instance of this launch.
    pub eth: EthHandler,
    /// Count of pre-seeded development signer accounts on the Eth handler.
    pub eth_dev_accounts: u64,
    /// The engine API instance, if this launch built one.
    pub engine: Option<EngineHandler>,
}

impl ApiRegistry {
    /// Seeds the deterministic development signer accounts into the Eth
    /// handler.
    pub fn with_dev_accounts(&mut self)
        ensures
            *final(self) == (ApiRegistry { eth_dev_accounts: DEV_SIGNER_COUNT, ..*old(self) }),
    {
        self.eth_dev_accounts = DEV_SIGNER_COUNT;
    }

    /// The signer-account count developer mode decides: seeded when on,
    /// none when off.
    pub open spec fn spec_dev_accounts_for(dev: bool) -> u64 {
        if dev {
            DEV_SIGNER_COUNT
        } else {
            0
        }
    }
}

/// Everything assembly produces for one launch.
#[derive(Debug)]
pub struct AssembledModules {
    /// Per-transport method-sets.
    pub modules: TransportModuleSet,
    /// The authenticated method-set.
    pub auth_module: AuthModule,
    /// The registry of constructed handlers.
    pub registry: ApiRegistry,
}

/// Combines the context and the two built handlers into the transport
/// method-sets, the authenticated module and the registry. When developer
/// mode is on, the deterministic signer accounts are seeded immediately
/// after assembly — strictly after the Eth handler exists and strictly
/// before any hook runs.
pub fn assemble(config: &LaunchConfig, engine: EngineHandler, eth: EthHandler) -> (out:
    AssembledModules)
    ensures
        out.modules.http@ == config.http_modules@,
        out.modules.ws@ == config.ws_modules@,
        out.modules.ipc@ == config.ipc_modules@,
        out.auth_module.methods@ == seq![NAMESPACE_ENGINE, NAMESPACE_ETH],
        out.registry == (ApiRegistry {
            eth,
            eth_dev_accounts: ApiRegistry::spec_dev_accounts_for(config.dev),
            engine: Some(engine),
        }),
{
    let modules = TransportModuleSet::from_config(config);
    let auth_module = AuthModule::new_engine();
    let mut registry = ApiRegistry { eth, eth_dev_accounts: 0, engine: Some(engine) };
    if config.dev {
        registry.with_dev_accounts();
    }
    AssembledModules { modules, auth_module, registry }
}

} // verus!
