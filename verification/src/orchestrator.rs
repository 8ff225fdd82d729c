//! The launch orchestrator: a state machine driving the multi-phase
//! bring-up of the two control-plane servers. The phases are strictly
//! sequential except the dual server bind, which is two concurrent
//! operations. Outside work — building handlers, spawning the cache feed,
//! binding listeners — is requested through [`LaunchAction`] values and its
//! outcomes are handed back as [`LaunchEvent`] values; every decision
//! between those points is made here.
//!
//! On the first bind failure the launch aborts immediately without waiting
//! for or cancelling the other bind; the slower bind may still complete and
//! leave a listener that is never returned to any caller. Whether this
//! non-cancellation is deliberate or an oversight is an open question; it is
//! an observable contract and is preserved, not fixed.

use vstd::prelude::*;
use crate::config::{AuthConfig, CacheHandle, CapabilityContext, EthApiBuildContext};
use crate::errors::{HookPoint, LaunchError, ServerKind};
use crate::handles::{AuthServerHandle, HandleFacade, RpcServerHandle, ServerHandles};
use crate::hooks::{HookRegistry, HookScript};
use crate::modules::{AuthModule, TransportModuleSet, NAMESPACE_ENGINE, NAMESPACE_ETH};
use crate::registry::{ApiRegistry, EngineHandler, EthHandler};
use crate::registry::{assemble, AssembledModules};

verus! {

/// The phases of one launch, in order. `Aborted` can be entered from every
/// fallible phase and carries the originating error.
#[derive(Clone, Copy, Debug, PartialEq, Eq, Structural)]
pub enum LaunchPhase {
    /// Holding configuration, context and hooks; nothing built yet.
    Init,
    /// The engine API handler exists.
    EngineApiBuilt,
    /// The cache exists and its critical feed task has been spawned.
    CacheSpawned,
    /// The Eth API handler exists.
    EthApiBuilt,
    /// Method-sets, authenticated module and registry exist; developer-mode
    /// accounts are seeded.
    ModulesAssembled,
    /// The pre-launch hooks ran successfully.
    PreHookApplied,
    /// Both servers are being bound concurrently.
    ServersLaunching,
    /// Both servers bound; the handles exist.
    HandlesAssembled,
    /// The post-launch hook ran successfully.
    PostHookApplied,
    /// The facade has been produced.
    Done,
    /// The launch failed; `error` carries the cause.
    Aborted,
}

/// The outcome of the two concurrent bind operations, as observed by the
/// driver: either both completed successfully, or one failed first. In the
/// latter case the other operation keeps running on its own and its result,
/// if any, is discarded.
#[derive(Clone, Copy, Debug, PartialEq, Eq, Structural)]
pub enum BindOutcome {
    /// Both listeners bound.
    BothBound(RpcServerHandle, AuthServerHandle),
    /// The named bind failed first with the given code.
    FirstFailure(ServerKind, u64),
}

/// An outcome of outside work, handed back to the orchestrator.
#[derive(Debug)]
pub enum LaunchEvent {
    /// The engine API builder finished.
    EngineBuilt(Result<EngineHandler, u64>),
    /// The cache exists and its critical feed task is running.
    CacheSpawned(CacheHandle),
    /// The Eth API builder finished.
    EthBuilt(Result<EthHandler, u64>),
    /// The two concurrent binds were observed.
    ServersBound(BindOutcome),
}

/// What the driver must do to spawn the critical cache feed task.
#[derive(Clone, Copy, Debug, PartialEq, Eq, Structural)]
pub struct SpawnFeedRequest {
    /// Provider whose canonical-chain-update stream feeds the cache.
    pub provider: u64,
    /// Task spawner to spawn the critical task on.
    pub task_spawner: u64,
    /// Cache configuration.
    pub cache_config: u64,
}

/// The immutable value snapshots and configuration the two server binds are
/// given. Later mutation of the live method-sets does not reach them.
#[derive(Debug)]
pub struct BindRequest {
    /// Snapshot served by the general-purpose transport server.
    pub modules: TransportModuleSet,
    /// Snapshot served by the authenticated engine server.
    pub auth_module: AuthModule,
    /// Configuration of the authenticated listener.
    pub auth_config: AuthConfig,
}

/// Outside work the orchestrator requests next, or the terminal outcome.
#[derive(Debug)]
pub enum LaunchAction {
    /// Run the engine API builder.
    BuildEngineApi,
    /// Create the cache and spawn the critical feed task.
    SpawnCacheFeed(SpawnFeedRequest),
    /// Run the Eth API builder over the given context.
    BuildEthApi(EthApiBuildContext),
    /// Bind both servers concurrently over the given snapshots.
    BindServers(BindRequest),
    /// The launch succeeded; this facade is its result.
    Finished(HandleFacade),
    /// The launch aborted with this error.
    Fail(LaunchError),
}

/// Every outcome the environment contributes to one launch, for driving the
/// whole state machine in one call.
#[derive(Debug)]
pub struct LaunchEnvironment {
    /// Outcome of the engine API builder.
    pub engine: Result<EngineHandler, u64>,
    /// The created cache.
    pub cache: CacheHandle,
    /// Outcome of the Eth API builder.
    pub eth: Result<EthHandler, u64>,
    /// Observed outcome of the two concurrent binds.
    pub binds: BindOutcome,
}

/// The launch state machine.
pub struct LaunchOrchestrator {
    /// Current phase.
    pub phase: LaunchPhase,
    /// The capability context of this launch.
    pub ctx: CapabilityContext,
    /// The registered hooks.
    pub hooks: HookRegistry,
    /// The caller-supplied extension, run before the registered pre-launch
    /// hook.
    pub ext: HookScript,
    /// The engine handler, from phase `EngineApiBuilt` on.
    pub engine: Option<EngineHandler>,
    /// The cache handle, from phase `CacheSpawned` on.
    pub cache: Option<CacheHandle>,
    /// The Eth handler, once built.
    pub eth: Option<EthHandler>,
    /// The registry, once assembled.
    pub registry: Option<ApiRegistry>,
    /// The live transport method-sets, once assembled.
    pub modules: Option<TransportModuleSet>,
    /// The live authenticated method-set, once assembled.
    pub auth_module: Option<AuthModule>,
    /// The value snapshot handed to the transport bind.
    pub snapshot_modules: Option<TransportModuleSet>,
    /// The value snapshot handed to the auth bind.
    pub snapshot_auth: Option<AuthModule>,
    /// The registry as the pre-launch hooks observed it.
    pub observed_registry: Option<ApiRegistry>,
    /// Handles to both servers, once both bound.
    pub handles: Option<ServerHandles>,
    /// The error an aborted launch carries.
    pub error: Option<LaunchError>,
    /// How often the registered pre-launch hook was invoked.
    pub pre_hook_runs: u64,
    /// How often the registered post-launch hook was invoked.
    pub post_hook_runs: u64,
}

impl LaunchOrchestrator {
    /// What each rest phase implies about the accumulated state.
    pub open spec fn wf(self) -> bool {
        match self.phase {
            LaunchPhase::Init => {
                &&& self.engine is None
                &&& self.cache is None
                &&& self.eth is None
                &&& self.registry is None
                &&& self.modules is None
                &&& self.auth_module is None
                &&& self.snapshot_modules is None
                &&& self.snapshot_auth is None
                &&& self.observed_registry is None
                &&& self.handles is None
                &&& self.error is None
                &&& self.pre_hook_runs == 0
                &&& self.post_hook_runs == 0
            },
            LaunchPhase::EngineApiBuilt => {
                &&& self.engine is Some
                &&& self.cache is None
                &&& self.eth is None
                &&& self.registry is None
                &&& self.modules is None
                &&& self.auth_module is None
                &&& self.snapshot_modules is None
                &&& self.snapshot_auth is None
                &&& self.observed_registry is None
                &&& self.handles is None
                &&& self.error is None
                &&& self.pre_hook_runs == 0
                &&& self.post_hook_runs == 0
            },
            LaunchPhase::CacheSpawned => {
                &&& self.engine is Some
                &&& self.cache is Some
                &&& self.eth is None
                &&& self.registry is None
                &&& self.modules is None
                &&& self.auth_module is None
                &&& self.snapshot_modules is None
                &&& self.snapshot_auth is None
                &&& self.observed_registry is None
                &&& self.handles is None
                &&& self.error is None
                &&& self.pre_hook_runs == 0
                &&& self.post_hook_runs == 0
            },
            LaunchPhase::ServersLaunching => {
                &&& self.engine is Some
                &&& self.cache is Some
                &&& self.eth is Some
                &&& self.registry is Some
                &&& self.modules is Some
                &&& self.auth_module is Some
                &&& self.snapshot_modules is Some
                &&& self.snapshot_auth is Some
                &&& self.observed_registry is Some
                &&& self.handles is None
                &&& self.error is None
                &&& self.pre_hook_runs == 1
                &&& self.post_hook_runs == 0
            },
            LaunchPhase::Done => {
                &&& self.engine is Some
                &&& self.cache is Some
                &&& self.eth is Some
                &&& self.registry is Some
                &&& self.modules is Some
                &&& self.auth_module is Some
                &&& self.snapshot_modules is Some
                &&& self.snapshot_auth is Some
                &&& self.observed_registry is Some
                &&& self.handles is Some
                &&& self.error is None
                &&& self.pre_hook_runs == 1
                &&& self.post_hook_runs == 1
            },
            LaunchPhase::Aborted => self.error is Some,
            _ => false,
        }
    }

    /// The event each rest phase waits for.
    pub open spec fn expects(self, event: LaunchEvent) -> bool {
        match self.phase {
            LaunchPhase::Init => event is EngineBuilt,
            LaunchPhase::EngineApiBuilt => event is CacheSpawned,
            LaunchPhase::CacheSpawned => event is EthBuilt,
            LaunchPhase::ServersLaunching => event is ServersBound,
            _ => false,
        }
    }

    /// What the transport server serves over http once the pre-launch hooks
    /// ran: the configured namespaces, the caller extension, then the
    /// registered hook's additions.
    pub open spec fn served_http(self) -> Seq<u64> {
        self.ctx.config.http_modules@ + self.ext.additions.http@
            + self.hooks.extend_modules.additions.http@
    }

    /// As [`Self::served_http`], over ws.
    pub open spec fn served_ws(self) -> Seq<u64> {
        self.ctx.config.ws_modules@ + self.ext.additions.ws@
            + self.hooks.extend_modules.additions.ws@
    }

    /// As [`Self::served_http`], over ipc.
    pub open spec fn served_ipc(self) -> Seq<u64> {
        self.ctx.config.ipc_modules@ + self.ext.additions.ipc@
            + self.hooks.extend_modules.additions.ipc@
    }

    /// What the authenticated server serves once the pre-launch hooks ran.
    pub open spec fn served_auth(self) -> Seq<u64> {
        seq![NAMESPACE_ENGINE, NAMESPACE_ETH] + self.ext.additions.auth@
            + self.hooks.extend_modules.additions.auth@
    }

    /// The registry assembly produces from the two handlers, developer-mode
    /// seeding included.
    pub open spec fn spec_registry(self, engine: EngineHandler, eth: EthHandler) -> ApiRegistry {
        ApiRegistry {
            eth,
            eth_dev_accounts: ApiRegistry::spec_dev_accounts_for(self.ctx.config.dev),
            engine: Some(engine),
        }
    }

    /// Whether every stage up to and including the pre-launch hooks succeeds
    /// under the given environment.
    pub open spec fn pre_path_ok(self, env: LaunchEnvironment) -> bool {
        &&& env.engine is Ok
        &&& env.eth is Ok
        &&& self.ext.fail_code is None
        &&& self.hooks.extend_modules.fail_code is None
    }

    /// A fresh orchestrator holding configuration, context, hooks and the
    /// caller extension.
    pub fn new(ctx: CapabilityContext, hooks: HookRegistry, ext: HookScript) -> (m: Self)
        ensures
            m.wf(),
            m.phase is Init,
            m.ctx == ctx,
            m.hooks == hooks,
            m.ext == ext,
    {
        LaunchOrchestrator {
            phase: LaunchPhase::Init,
            ctx,
            hooks,
            ext,
            engine: None,
            cache: None,
            eth: None,
            registry: None,
            modules: None,
            auth_module: None,
            snapshot_modules: None,
            snapshot_auth: None,
            observed_registry: None,
            handles: None,
            error: None,
            pre_hook_runs: 0,
            post_hook_runs: 0,
        }
    }

    /// The first action of every launch: build the engine API.
    pub fn start(&self) -> (action: LaunchAction)
        requires
            self.phase is Init,
        ensures
            action is BuildEngineApi,
    {
        LaunchAction::BuildEngineApi
    }

    /// Aborts the launch with the given error.
    fn abort(&mut self, err: LaunchError) -> (action: LaunchAction)
        ensures
            *final(self) == (LaunchOrchestrator {
                phase: LaunchPhase::Aborted,
                error: Some(err),
                ..*old(self)
            }),
            action == LaunchAction::Fail(err),
    {
        self.phase = LaunchPhase::Aborted;
        self.error = Some(err);
        LaunchAction::Fail(err)
    }

    /// Advances the launch by one observed outcome and decides the next
    /// action. The contract pins, phase by phase, exactly what is stored,
    /// what each hook may change, which error aborts, and what the binds
    /// and the facade are given.
    pub fn step(&mut self, event: LaunchEvent) -> (action: LaunchAction)
        requires
            old(self).wf(),
            old(self).expects(event),
        ensures
            final(self).wf(),
            final(self).ctx == old(self).ctx,
            final(self).hooks == old(self).hooks,
            final(self).ext == old(self).ext,
            // Engine build succeeded: record it, then have the cache feed
            // spawned from the context's provider and task spawner.
            (event matches LaunchEvent::EngineBuilt(Ok(e)) ==> {
                &&& *final(self) == (LaunchOrchestrator {
                    phase: LaunchPhase::EngineApiBuilt,
                    engine: Some(e),
                    ..*old(self)
                })
                &&& action == LaunchAction::SpawnCacheFeed(SpawnFeedRequest {
                    provider: old(self).ctx.provider,
                    task_spawner: old(self).ctx.task_spawner,
                    cache_config: old(self).ctx.config.cache_config,
                })
            }),
            // Engine build failed: abort; nothing was bound, no hook ran.
            (event matches LaunchEvent::EngineBuilt(Err(code)) ==> {
                &&& *final(self) == (LaunchOrchestrator {
                    phase: LaunchPhase::Aborted,
                    error: Some(LaunchError::Construction(code)),
                    ..*old(self)
                })
                &&& action == LaunchAction::Fail(LaunchError::Construction(code))
            }),
            // The cache exists: the Eth API builder runs next, over a context
            // that embeds the cache handle.
            (event matches LaunchEvent::CacheSpawned(c) ==> {
                &&& *final(self) == (LaunchOrchestrator {
                    phase: LaunchPhase::CacheSpawned,
                    cache: Some(c),
                    ..*old(self)
                })
                &&& action == LaunchAction::BuildEthApi(EthApiBuildContext {
                    provider: old(self).ctx.provider,
                    pool: old(self).ctx.pool,
                    network: old(self).ctx.network,
                    executor: old(self).ctx.executor,
                    eth_config: old(self).ctx.config.eth_config,
                    cache: c,
                })
            }),
            // Eth build failed: abort as with the engine build.
            (event matches LaunchEvent::EthBuilt(Err(code)) ==> {
                &&& *final(self) == (LaunchOrchestrator {
                    phase: LaunchPhase::Aborted,
                    error: Some(LaunchError::Construction(code)),
                    ..*old(self)
                })
                &&& action == LaunchAction::Fail(LaunchError::Construction(code))
            }),
            // Eth build succeeded: assembly, developer-mode seeding, then
            // the caller extension and the registered pre-launch hook, in
            // that order. The hooks observe the registry as it will stand in
            // the facade.
            (event matches LaunchEvent::EthBuilt(Ok(e)) ==> {
                &&& final(self).eth == Some(e)
                &&& (old(self).engine matches Some(en) ==> final(self).registry == Some(
                    old(self).spec_registry(en, e),
                ))
                &&& final(self).observed_registry == final(self).registry
                &&& final(self).engine == old(self).engine
                &&& final(self).cache == old(self).cache
                &&& final(self).handles is None
                &&& final(self).post_hook_runs == 0
                &&& (old(self).ext.fail_code matches Some(code) ==> {
                    &&& final(self).phase is Aborted
                    &&& final(self).error == Some(LaunchError::Hook(HookPoint::PreLaunch, code))
                    &&& final(self).pre_hook_runs == 0
                    &&& final(self).snapshot_modules is None
                    &&& final(self).snapshot_auth is None
                    &&& action == LaunchAction::Fail(LaunchError::Hook(HookPoint::PreLaunch, code))
                })
                &&& (old(self).ext.fail_code is None
                    ==> (old(self).hooks.extend_modules.fail_code matches Some(code) ==> {
                    &&& final(self).phase is Aborted
                    &&& final(self).error == Some(LaunchError::Hook(HookPoint::PreLaunch, code))
                    &&& final(self).pre_hook_runs == 1
                    &&& final(self).snapshot_modules is None
                    &&& final(self).snapshot_auth is None
                    &&& action == LaunchAction::Fail(LaunchError::Hook(HookPoint::PreLaunch, code))
                }))
                &&& ((old(self).ext.fail_code is None
                    && old(self).hooks.extend_modules.fail_code is None) ==> {
                    &&& final(self).phase is ServersLaunching
                    &&& final(self).pre_hook_runs == 1
                    &&& final(self).error is None
                    &&& (final(self).modules matches Some(m) && m.http@ == old(self).served_http()
                        && m.ws@ == old(self).served_ws() && m.ipc@ == old(self).served_ipc())
                    &&& (final(self).auth_module matches Some(a) && a.methods@ == old(self).served_auth())
                    &&& (final(self).snapshot_modules matches Some(s) && s.http@ == old(self).served_http() && s.ws@ == old(self).served_ws() && s.ipc@ == old(self).served_ipc())
                    &&& (final(self).snapshot_auth matches Some(sa) && sa.methods@ == old(self).served_auth())
                    &&& (action matches LaunchAction::BindServers(req) && req.modules.http@ == old(self).served_http() && req.modules.ws@ == old(self).served_ws()
                        && req.modules.ipc@ == old(self).served_ipc() && req.auth_module.methods@
                        == old(self).served_auth() && req.auth_config == (AuthConfig {
                        jwt_secret: old(self).ctx.jwt_secret,
                        port: old(self).ctx.config.auth_port,
                    }))
                })
            }),
            // One bind failed first: abort with its error; the other bind is
            // not cancelled, and whatever it binds is never returned.
            (event matches LaunchEvent::ServersBound(BindOutcome::FirstFailure(kind, code)) ==> {
                &&& *final(self) == (LaunchOrchestrator {
                    phase: LaunchPhase::Aborted,
                    error: Some(LaunchError::Bind(kind, code)),
                    ..*old(self)
                })
                &&& action == LaunchAction::Fail(LaunchError::Bind(kind, code))
            }),
            // Both binds succeeded: the handles exist, and the post-launch
            // hook runs exactly once with both of them populated. Its
            // failure still aborts the call, but the bound servers stay, and
            // the snapshots the servers serve are beyond its reach.
            (event matches LaunchEvent::ServersBound(BindOutcome::BothBound(rh, ah)) ==> {
                &&& final(self).handles == Some(ServerHandles { rpc: rh, auth: ah })
                &&& final(self).post_hook_runs == 1
                &&& final(self).pre_hook_runs == old(self).pre_hook_runs
                &&& final(self).engine == old(self).engine
                &&& final(self).cache == old(self).cache
                &&& final(self).eth == old(self).eth
                &&& final(self).registry == old(self).registry
                &&& final(self).observed_registry == old(self).observed_registry
                &&& final(self).snapshot_modules == old(self).snapshot_modules
                &&& final(self).snapshot_auth == old(self).snapshot_auth
                &&& (old(self).hooks.on_started.fail_code matches Some(code) ==> {
                    &&& final(self).phase is Aborted
                    &&& final(self).error == Some(LaunchError::Hook(HookPoint::PostLaunch, code))
                    &&& final(self).modules == old(self).modules
                    &&& final(self).auth_module == old(self).auth_module
                    &&& action == LaunchAction::Fail(LaunchError::Hook(HookPoint::PostLaunch, code))
                })
                &&& (old(self).hooks.on_started.fail_code is None ==> {
                    &&& final(self).phase is Done
                    &&& final(self).error is None
                    &&& (old(self).modules matches Some(m) ==> (final(self).modules matches Some(m2)
                        && m2.http@ == m.http@ + old(self).hooks.on_started.additions.http@
                        && m2.ws@ == m.ws@ + old(self).hooks.on_started.additions.ws@
                        && m2.ipc@ == m.ipc@ + old(self).hooks.on_started.additions.ipc@))
                    &&& (old(self).auth_module matches Some(a) ==> (final(self).auth_module matches Some(a2) && a2.methods@ == a.methods@ + old(self).hooks.on_started.additions.auth@))
                    &&& (old(self).registry matches Some(reg) ==> action
                        == LaunchAction::Finished(HandleFacade {
                        server_handles: ServerHandles { rpc: rh, auth: ah },
                        registry: reg,
                        engine_events: old(self).ctx.engine_events,
                        beacon_engine_handle: old(self).ctx.beacon_engine_handle,
                    }))
                })
            }),
    {
        match event {
            LaunchEvent::EngineBuilt(outcome) => match outcome {
                Ok(e) => {
                    self.engine = Some(e);
                    self.phase = LaunchPhase::EngineApiBuilt;
                    LaunchAction::SpawnCacheFeed(SpawnFeedRequest {
                        provider: self.ctx.provider,
                        task_spawner: self.ctx.task_spawner,
                        cache_config: self.ctx.config.cache_config,
                    })
                },
                Err(code) => self.abort(LaunchError::Construction(code)),
            },
            LaunchEvent::CacheSpawned(c) => {
                self.cache = Some(c);
                self.phase = LaunchPhase::CacheSpawned;
                LaunchAction::BuildEthApi(EthApiBuildContext {
                    provider: self.ctx.provider,
                    pool: self.ctx.pool,
                    network: self.ctx.network,
                    executor: self.ctx.executor,
                    eth_config: self.ctx.config.eth_config,
                    cache: c,
                })
            },
            LaunchEvent::EthBuilt(outcome) => match outcome {
                Err(code) => self.abort(LaunchError::Construction(code)),
                Ok(e) => {
                    self.eth = Some(e);
                    self.phase = LaunchPhase::EthApiBuilt;
                    let engine = self.engine.unwrap();
                    let AssembledModules { modules, auth_module, registry } = assemble(
                        &self.ctx.config,
                        engine,
                        e,
                    );
                    let mut modules = modules;
                    let mut auth_module = auth_module;
                    self.registry = Some(registry);
                    self.observed_registry = Some(registry);
                    self.phase = LaunchPhase::ModulesAssembled;
                    // The caller-supplied extension runs first.
                    let ext_result = self.ext.apply(&mut modules, &mut auth_module);
                    if let Err(code) = ext_result {
                        self.modules = Some(modules);
                        self.auth_module = Some(auth_module);
                        return self.abort(LaunchError::Hook(HookPoint::PreLaunch, code));
                    }
                    // Then the registered pre-launch hook.
                    self.pre_hook_runs = 1;
                    let hook_result = self.hooks.extend_modules.apply(&mut modules, &mut auth_module);
                    if let Err(code) = hook_result {
                        self.modules = Some(modules);
                        self.auth_module = Some(auth_module);
                        return self.abort(LaunchError::Hook(HookPoint::PreLaunch, code));
                    }
                    self.phase = LaunchPhase::PreHookApplied;
                    // Freeze value snapshots: one pair for the binds, one
                    // kept to witness what the servers were given.
                    let bind_modules = modules.snapshot();
                    let bind_auth = auth_module.snapshot();
                    self.snapshot_modules = Some(modules.snapshot());
                    self.snapshot_auth = Some(auth_module.snapshot());
                    self.modules = Some(modules);
                    self.auth_module = Some(auth_module);
                    self.phase = LaunchPhase::ServersLaunching;
                    LaunchAction::BindServers(BindRequest {
                        modules: bind_modules,
                        auth_module: bind_auth,
                        auth_config: AuthConfig {
                            jwt_secret: self.ctx.jwt_secret,
                            port: self.ctx.config.auth_port,
                        },
                    })
                },
            },
            LaunchEvent::ServersBound(outcome) => match outcome {
                BindOutcome::FirstFailure(kind, code) => self.abort(
                    LaunchError::Bind(kind, code),
                ),
                BindOutcome::BothBound(rh, ah) => {
                    self.handles = Some(ServerHandles { rpc: rh, auth: ah });
                    self.phase = LaunchPhase::HandlesAssembled;
                    let mut modules = self.modules.take().unwrap();
                    let mut auth_module = self.auth_module.take().unwrap();
                    self.post_hook_runs = 1;
                    let hook_result = self.hooks.on_started.apply(&mut modules, &mut auth_module);
                    self.modules = Some(modules);
                    self.auth_module = Some(auth_module);
                    if let Err(code) = hook_result {
                        return self.abort(LaunchError::Hook(HookPoint::PostLaunch, code));
                    }
                    self.phase = LaunchPhase::PostHookApplied;
                    let registry = self.registry.unwrap();
                    self.phase = LaunchPhase::Done;
                    LaunchAction::Finished(HandleFacade {
                        server_handles: ServerHandles { rpc: rh, auth: ah },
                        registry,
                        engine_events: self.ctx.engine_events,
                        beacon_engine_handle: self.ctx.beacon_engine_handle,
                    })
                },
            },
        }
    }

    /// Drives one whole launch over the given environment outcomes and
    /// returns the facade or the first phase error. The contract carries
    /// the launch-wide guarantees: a failing engine build starts no server
    /// and runs no hook; the pre-launch hook observes the registry exactly
    /// as the facade exposes it, already reflecting developer-mode seeding;
    /// when both binds succeed the post-launch hook runs exactly once with
    /// both handles populated, and its failure is reported although both
    /// servers stay live; and the snapshots the servers were given are
    /// beyond the reach of every later mutation.
    pub fn run(&mut self, env: LaunchEnvironment) -> (r: Result<HandleFacade, LaunchError>)
        requires
            old(self).wf(),
            old(self).phase is Init,
        ensures
            final(self).wf(),
            final(self).ctx == old(self).ctx,
            final(self).hooks == old(self).hooks,
            final(self).ext == old(self).ext,
            // The launch ends in exactly one of the two terminal phases,
            // and a reported error is the stored one.
            r is Ok ==> final(self).phase is Done && final(self).error is None,
            (r matches Err(err) ==> final(self).phase is Aborted && final(self).error == Some(
                err,
            )),
            // A failing engine build aborts the launch: no server is bound
            // and no hook runs.
            (env.engine matches Err(code) ==> {
                &&& r matches Err(err) && err == LaunchError::Construction(code)
                &&& final(self).pre_hook_runs == 0
                &&& final(self).post_hook_runs == 0
                &&& final(self).handles is None
                &&& final(self).snapshot_modules is None
                &&& final(self).snapshot_auth is None
            }),
            // A failing Eth build aborts the same way.
            (env.engine is Ok ==> (env.eth matches Err(code) ==> {
                &&& r matches Err(err) && err == LaunchError::Construction(code)
                &&& final(self).pre_hook_runs == 0
                &&& final(self).post_hook_runs == 0
                &&& final(self).handles is None
                &&& final(self).snapshot_modules is None
                &&& final(self).snapshot_auth is None
            })),
            // A failing caller extension aborts before the registered hook
            // is invoked; no server is bound.
            (env.engine is Ok && env.eth is Ok ==> (old(self).ext.fail_code matches Some(code)
                ==> {
                &&& r matches Err(err) && err == LaunchError::Hook(HookPoint::PreLaunch, code)
                &&& final(self).pre_hook_runs == 0
                &&& final(self).post_hook_runs == 0
                &&& final(self).handles is None
                &&& final(self).snapshot_modules is None
            })),
            // A failing pre-launch hook aborts after its one invocation; no
            // server is bound.
            (env.engine is Ok && env.eth is Ok && old(self).ext.fail_code is None ==> (old(
                self,
            ).hooks.extend_modules.fail_code matches Some(code) ==> {
                &&& r matches Err(err) && err == LaunchError::Hook(HookPoint::PreLaunch, code)
                &&& final(self).pre_hook_runs == 1
                &&& final(self).post_hook_runs == 0
                &&& final(self).handles is None
                &&& final(self).snapshot_modules is None
            })),
            // The pre-launch path succeeded: the registry the hooks observed
            // is the one the facade exposes, already carrying exactly the
            // developer-mode account count, and the bind snapshots hold
            // exactly the configured, extended method-sets.
            (old(self).pre_path_ok(env) ==> {
                &&& final(self).pre_hook_runs == 1
                &&& final(self).observed_registry == final(self).registry
                &&& (env.engine matches Ok(en) ==> (env.eth matches Ok(eh) ==> final(self).registry
                    == Some(old(self).spec_registry(en, eh))))
                &&& (final(self).snapshot_modules matches Some(s) && s.http@ == old(
                    self,
                ).served_http() && s.ws@ == old(self).served_ws() && s.ipc@ == old(
                    self,
                ).served_ipc())
                &&& (final(self).snapshot_auth matches Some(sa) && sa.methods@ == old(
                    self,
                ).served_auth())
            }),
            // One bind failed first: its error is the overall result, the
            // post-launch hook never runs, and no handle is returned. The
            // other bind is not cancelled; whatever it bound stays up,
            // unreturned.
            (old(self).pre_path_ok(env) ==> (env.binds matches BindOutcome::FirstFailure(
                kind,
                code,
            ) ==> {
                &&& r matches Err(err) && err == LaunchError::Bind(kind, code)
                &&& final(self).post_hook_runs == 0
                &&& final(self).handles is None
            })),
            // Both binds succeeded: the post-launch hook runs exactly once
            // with both handles populated; its failure is still reported to
            // the caller although both servers remain live; its mutations
            // reach only the live method-sets, never the served snapshots.
            (old(self).pre_path_ok(env) ==> (env.binds matches BindOutcome::BothBound(rh, ah)
                ==> {
                &&& final(self).post_hook_runs == 1
                &&& final(self).handles == Some(ServerHandles { rpc: rh, auth: ah })
                &&& (old(self).hooks.on_started.fail_code matches Some(code) ==> (r matches Err(
                    err,
                ) && err == LaunchError::Hook(HookPoint::PostLaunch, code)))
                &&& (old(self).hooks.on_started.fail_code is None ==> {
                    &&& (r matches Ok(f) && f.server_handles == (ServerHandles {
                        rpc: rh,
                        auth: ah,
                    }) && f.engine_events == old(self).ctx.engine_events
                        && f.beacon_engine_handle == old(self).ctx.beacon_engine_handle && Some(
                        f.registry,
                    ) == final(self).registry)
                    &&& (final(self).modules matches Some(m) && m.http@ == old(self).served_http()
                        + old(self).hooks.on_started.additions.http@ && m.ws@ == old(
                        self,
                    ).served_ws() + old(self).hooks.on_started.additions.ws@ && m.ipc@ == old(
                        self,
                    ).served_ipc() + old(self).hooks.on_started.additions.ipc@)
                    &&& (final(self).auth_module matches Some(a) && a.methods@ == old(
                        self,
                    ).served_auth() + old(self).hooks.on_started.additions.auth@)
                    &&& (final(self).snapshot_modules matches Some(s) && s.http@ == old(
                        self,
                    ).served_http() && s.ws@ == old(self).served_ws() && s.ipc@ == old(
                        self,
                    ).served_ipc())
                    &&& (final(self).snapshot_auth matches Some(sa) && sa.methods@ == old(
                        self,
                    ).served_auth())
                })
            })),
    {
        let LaunchEnvironment { engine, cache, eth, binds } = env;
        let engine_action = self.step(LaunchEvent::EngineBuilt(engine));
        if let LaunchAction::Fail(err) = engine_action {
            return Err(err);
        }
        let _ = self.step(LaunchEvent::CacheSpawned(cache));
        let bind_action = self.step(LaunchEvent::EthBuilt(eth));
        if let LaunchAction::Fail(err) = bind_action {
            return Err(err);
        }
        let outcome = self.step(LaunchEvent::ServersBound(binds));
        match outcome {
            LaunchAction::Finished(facade) => Ok(facade),
            LaunchAction::Fail(err) => Err(err),
            _ => vstd::pervasive::unreached(),
        }
    }
}

} // verus!
