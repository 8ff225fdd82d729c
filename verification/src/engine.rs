//! The basic engine API builder: composes an engine validator with the
//! capability context into the engine handler, filling in the static
//! client-identity descriptor. Building the validator itself is outside
//! work; its outcome is handed in.

use vstd::prelude::*;
use crate::config::CapabilityContext;
use crate::errors::LaunchError;
use crate::registry::{ClientIdentity, EngineHandler};

verus! {

/// Client code this node reports.
pub const CLIENT_CODE: u64 = 1;

/// Client name this node reports.
pub const CLIENT_NAME: u64 = 2;

/// Client version this node reports.
pub const CLIENT_VERSION: u64 = 3;

/// Source commit this node reports.
pub const CLIENT_COMMIT: u64 = 4;

/// The static client-identity descriptor of this node.
pub open spec fn spec_client_identity() -> ClientIdentity {
    ClientIdentity {
        code: CLIENT_CODE,
        name: CLIENT_NAME,
        version: CLIENT_VERSION,
        commit: CLIENT_COMMIT,
    }
}

/// Returns the static client-identity descriptor.
pub fn client_identity() -> (c: ClientIdentity)
    ensures
        c == spec_client_identity(),
{
    ClientIdentity {
        code: CLIENT_CODE,
        name: CLIENT_NAME,
        version: CLIENT_VERSION,
        commit: CLIENT_COMMIT,
    }
}

/// Builder for the basic engine API handler. It wraps an engine validator
/// builder; the validator build is outside work whose outcome the caller
/// hands in.
#[derive(Clone, Copy, Debug, PartialEq, Eq, Structural)]
pub struct BasicEngineApiBuilder {
    /// Opaque identifier of the wrapped validator builder.
    pub engine_validator_builder: u64,
}

impl BasicEngineApiBuilder {
    /// The engine handler this builder produces from the context and a
    /// successfully built validator.
    pub open spec fn spec_engine_handler(ctx: CapabilityContext, validator: u64) -> EngineHandler {
        EngineHandler {
            provider: ctx.provider,
            chain_spec: ctx.chain_spec,
            beacon_engine_handle: ctx.beacon_engine_handle,
            payload_store: ctx.payload_builder,
            pool: ctx.pool,
            task_spawner: ctx.task_spawner,
            client: spec_client_identity(),
            validator,
            accept_execution_requests_hash: ctx.config.accept_execution_requests_hash,
        }
    }

    /// Wraps the given validator builder.
    pub fn new(engine_validator_builder: u64) -> (b: Self)
        ensures
            b.engine_validator_builder == engine_validator_builder,
    {
        BasicEngineApiBuilder { engine_validator_builder }
    }

    /// Instantiates the engine handler from the validator build outcome,
    /// the chain configuration, the beacon engine handle, the payload store
    /// and the task spawner drawn from the context. Fails exactly when the
    /// validator build failed, as a construction error.
    pub fn build_engine_api(&self, ctx: &CapabilityContext, validator: Result<u64, u64>) -> (r:
        Result<EngineHandler, LaunchError>)
        ensures
            validator matches Ok(v) ==> (r matches Ok(e) && e == Self::spec_engine_handler(
                *ctx,
                v,
            )),
            validator matches Err(code) ==> (r matches Err(err) && err == LaunchError::Construction(
                code,
            )),
    {
        match validator {
            Err(code) => Err(LaunchError::Construction(code)),
            Ok(v) => Ok(
                EngineHandler {
                    provider: ctx.provider,
                    chain_spec: ctx.chain_spec,
                    beacon_engine_handle: ctx.beacon_engine_handle,
                    payload_store: ctx.payload_builder,
                    pool: ctx.pool,
                    task_spawner: ctx.task_spawner,
                    client: client_identity(),
                    validator: v,
                    accept_execution_requests_hash: ctx.config.accept_execution_requests_hash,
                },
            ),
        }
    }
}

} // verus!
