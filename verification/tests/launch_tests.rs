use rpc_addons::config::{CacheHandle, CapabilityContext, LaunchConfig};
use rpc_addons::engine::{client_identity, BasicEngineApiBuilder};
use rpc_addons::errors::{HookPoint, LaunchError, ServerKind};
use rpc_addons::handles::{AuthServerHandle, RpcServerHandle};
use rpc_addons::hooks::{HookRegistry, HookScript};
use rpc_addons::modules::{
    ModuleExtension, TransportModuleSet, NAMESPACE_ENGINE, NAMESPACE_ETH,
};
use rpc_addons::orchestrator::{
    BindOutcome, LaunchAction, LaunchEnvironment, LaunchEvent, LaunchOrchestrator, LaunchPhase,
};
use rpc_addons::registry::{assemble, ApiRegistry, EthHandler, DEV_SIGNER_COUNT};

fn test_config(dev: bool) -> LaunchConfig {
    LaunchConfig {
        dev,
        eth_config: 40,
        cache_config: 41,
        auth_port: 8551,
        accept_execution_requests_hash: true,
        http_modules: vec![10, 11],
        ws_modules: vec![12],
        ipc_modules: vec![],
    }
}

fn test_ctx(dev: bool) -> CapabilityContext {
    CapabilityContext {
        provider: 1,
        pool: 2,
        network: 3,
        executor: 4,
        consensus: 5,
        task_spawner: 6,
        payload_builder: 7,
        chain_spec: 8,
        config: test_config(dev),
        jwt_secret: 9,
        beacon_engine_handle: 20,
        engine_events: 21,
    }
}

fn eth_handler() -> EthHandler {
    EthHandler { id: 100, cache: CacheHandle { id: 50 } }
}

fn rpc_handle() -> RpcServerHandle {
    RpcServerHandle { http_local_addr: Some(8545), ws_local_addr: Some(8546), ipc_endpoint: None }
}

fn auth_handle() -> AuthServerHandle {
    AuthServerHandle { local_addr: 8551, ipc_endpoint: None }
}

fn happy_env(ctx: &CapabilityContext) -> LaunchEnvironment {
    let builder = BasicEngineApiBuilder::new(60);
    LaunchEnvironment {
        engine: builder.build_engine_api(ctx, Ok(61)).map_err(|_| 0),
        cache: CacheHandle { id: 50 },
        eth: Ok(eth_handler()),
        binds: BindOutcome::BothBound(rpc_handle(), auth_handle()),
    }
}

#[test]
fn successful_launch_populates_facade() {
    let ctx = test_ctx(false);
    let mut orchestrator = LaunchOrchestrator::new(ctx, HookRegistry::no_op(), HookScript::no_op());
    let env = happy_env(&test_ctx(false));
    let facade = orchestrator.run(env).unwrap();
    assert_eq!(facade.server_handles.rpc, rpc_handle());
    assert_eq!(facade.server_handles.auth, auth_handle());
    assert_eq!(facade.engine_events, 21);
    assert_eq!(facade.beacon_engine_handle, 20);
    assert_eq!(facade.registry.eth, eth_handler());
    assert!(facade.registry.engine.is_some());
    assert_eq!(orchestrator.phase, LaunchPhase::Done);
}

#[test]
fn registry_holds_exactly_one_eth_and_no_dev_accounts_by_default() {
    let ctx = test_ctx(false);
    let mut orchestrator = LaunchOrchestrator::new(ctx, HookRegistry::no_op(), HookScript::no_op());
    let facade = orchestrator.run(happy_env(&test_ctx(false))).unwrap();
    // One Eth handler by construction, and dev mode off seeds nothing.
    assert_eq!(facade.registry.eth.id, 100);
    assert_eq!(facade.registry.eth_dev_accounts, 0);
}

#[test]
fn dev_mode_seeds_deterministic_signer_accounts() {
    let ctx = test_ctx(true);
    let mut orchestrator = LaunchOrchestrator::new(ctx, HookRegistry::no_op(), HookScript::no_op());
    let facade = orchestrator.run(happy_env(&test_ctx(true))).unwrap();
    assert_eq!(DEV_SIGNER_COUNT, 20);
    assert_eq!(facade.registry.eth_dev_accounts, DEV_SIGNER_COUNT);
}

#[test]
fn engine_failure_binds_nothing_and_runs_no_hook() {
    let ctx = test_ctx(false);
    let mut orchestrator = LaunchOrchestrator::new(ctx, HookRegistry::no_op(), HookScript::no_op());
    let mut env = happy_env(&test_ctx(false));
    env.engine = Err(7);
    let result = orchestrator.run(env);
    assert_eq!(result.unwrap_err(), LaunchError::Construction(7));
    assert!(orchestrator.handles.is_none());
    assert!(orchestrator.snapshot_modules.is_none());
    assert_eq!(orchestrator.pre_hook_runs, 0);
    assert_eq!(orchestrator.post_hook_runs, 0);
    assert_eq!(orchestrator.phase, LaunchPhase::Aborted);
}

#[test]
fn eth_failure_aborts_before_hooks_and_binds() {
    let ctx = test_ctx(false);
    let mut orchestrator = LaunchOrchestrator::new(ctx, HookRegistry::no_op(), HookScript::no_op());
    let mut env = happy_env(&test_ctx(false));
    env.eth = Err(8);
    let result = orchestrator.run(env);
    assert_eq!(result.unwrap_err(), LaunchError::Construction(8));
    assert!(orchestrator.handles.is_none());
    assert_eq!(orchestrator.pre_hook_runs, 0);
    assert_eq!(orchestrator.post_hook_runs, 0);
}

#[test]
fn failing_caller_extension_skips_registered_hook() {
    let ctx = test_ctx(false);
    let mut orchestrator =
        LaunchOrchestrator::new(ctx, HookRegistry::no_op(), HookScript::failing(3));
    let result = orchestrator.run(happy_env(&test_ctx(false)));
    assert_eq!(result.unwrap_err(), LaunchError::Hook(HookPoint::PreLaunch, 3));
    assert_eq!(orchestrator.pre_hook_runs, 0);
    assert!(orchestrator.handles.is_none());
    assert!(orchestrator.snapshot_modules.is_none());
}

#[test]
fn failing_pre_hook_aborts_after_one_invocation() {
    let ctx = test_ctx(false);
    let mut hooks = HookRegistry::no_op();
    hooks.set_extend_modules(HookScript::failing(4));
    let mut orchestrator = LaunchOrchestrator::new(ctx, hooks, HookScript::no_op());
    let result = orchestrator.run(happy_env(&test_ctx(false)));
    assert_eq!(result.unwrap_err(), LaunchError::Hook(HookPoint::PreLaunch, 4));
    assert_eq!(orchestrator.pre_hook_runs, 1);
    assert!(orchestrator.handles.is_none());
    assert!(orchestrator.snapshot_modules.is_none());
}

#[test]
fn post_hook_failure_reported_while_servers_stay_live() {
    let ctx = test_ctx(false);
    let mut hooks = HookRegistry::no_op();
    hooks.set_on_started(HookScript::failing(9));
    let mut orchestrator = LaunchOrchestrator::new(ctx, hooks, HookScript::no_op());
    let result = orchestrator.run(happy_env(&test_ctx(false)));
    assert_eq!(result.unwrap_err(), LaunchError::Hook(HookPoint::PostLaunch, 9));
    // The call reports failure, yet both handles are populated: the bound
    // servers are not torn down.
    assert!(orchestrator.handles.is_some());
    assert_eq!(orchestrator.post_hook_runs, 1);
}

#[test]
fn post_hook_runs_exactly_once_with_both_handles() {
    let ctx = test_ctx(false);
    let mut orchestrator = LaunchOrchestrator::new(ctx, HookRegistry::no_op(), HookScript::no_op());
    let facade = orchestrator.run(happy_env(&test_ctx(false))).unwrap();
    assert_eq!(orchestrator.post_hook_runs, 1);
    assert_eq!(orchestrator.pre_hook_runs, 1);
    let handles = orchestrator.handles.unwrap();
    assert_eq!(handles.rpc, facade.server_handles.rpc);
    assert_eq!(handles.auth, facade.server_handles.auth);
}

#[test]
fn pre_hook_observes_registry_as_facade_exposes_it() {
    let ctx = test_ctx(true);
    let mut hooks = HookRegistry::no_op();
    hooks.set_extend_modules(HookScript::extending(ModuleExtension {
        http: vec![30],
        ws: vec![],
        ipc: vec![],
        auth: vec![],
    }));
    let mut orchestrator = LaunchOrchestrator::new(ctx, hooks, HookScript::no_op());
    let facade = orchestrator.run(happy_env(&test_ctx(true))).unwrap();
    // The hook saw the dev-mode seeding already applied, and exactly the
    // handlers the facade exposes.
    let observed = orchestrator.observed_registry.unwrap();
    assert_eq!(observed.eth_dev_accounts, DEV_SIGNER_COUNT);
    assert_eq!(observed, facade.registry);
}

#[test]
fn hook_extensions_reach_the_bind_snapshots() {
    let ctx = test_ctx(false);
    let mut hooks = HookRegistry::no_op();
    hooks.set_extend_modules(HookScript::extending(ModuleExtension {
        http: vec![31],
        ws: vec![32],
        ipc: vec![33],
        auth: vec![34],
    }));
    let ext = HookScript::extending(ModuleExtension {
        http: vec![25],
        ws: vec![],
        ipc: vec![],
        auth: vec![],
    });
    let mut orchestrator = LaunchOrchestrator::new(ctx, hooks, ext);
    orchestrator.run(happy_env(&test_ctx(false))).unwrap();
    let snapshot = orchestrator.snapshot_modules.unwrap();
    // Configured namespaces, then the caller extension, then the hook.
    assert_eq!(snapshot.http, vec![10, 11, 25, 31]);
    assert_eq!(snapshot.ws, vec![12, 32]);
    assert_eq!(snapshot.ipc, vec![33]);
    let auth_snapshot = orchestrator.snapshot_auth.unwrap();
    assert_eq!(auth_snapshot.methods, vec![NAMESPACE_ENGINE, NAMESPACE_ETH, 34]);
}

#[test]
fn post_hook_mutation_never_reaches_launched_snapshot() {
    let ctx = test_ctx(false);
    let mut hooks = HookRegistry::no_op();
    hooks.set_on_started(HookScript::extending(ModuleExtension {
        http: vec![77],
        ws: vec![],
        ipc: vec![],
        auth: vec![78],
    }));
    let mut orchestrator = LaunchOrchestrator::new(ctx, hooks, HookScript::no_op());
    orchestrator.run(happy_env(&test_ctx(false))).unwrap();
    // The live sets did change...
    assert_eq!(orchestrator.modules.as_ref().unwrap().http, vec![10, 11, 77]);
    assert_eq!(
        orchestrator.auth_module.as_ref().unwrap().methods,
        vec![NAMESPACE_ENGINE, NAMESPACE_ETH, 78]
    );
    // ...but the snapshots the servers serve did not.
    assert_eq!(orchestrator.snapshot_modules.unwrap().http, vec![10, 11]);
    assert_eq!(
        orchestrator.snapshot_auth.unwrap().methods,
        vec![NAMESPACE_ENGINE, NAMESPACE_ETH]
    );
}

#[test]
fn transport_module_set_snapshot_is_isolated() {
    let config = test_config(false);
    let mut live = TransportModuleSet::from_config(&config);
    let snapshot = live.snapshot();
    live.merge(&ModuleExtension { http: vec![99], ws: vec![98], ipc: vec![97], auth: vec![] });
    assert_eq!(live.http, vec![10, 11, 99]);
    assert_eq!(snapshot.http, vec![10, 11]);
    assert_eq!(snapshot.ws, vec![12]);
    assert_eq!(snapshot.ipc, Vec::<u64>::new());
}

struct MockBinds {
    auth_bound: bool,
}

#[test]
fn first_bind_failure_does_not_cancel_the_other() {
    // The auth bind succeeds immediately; the transport bind fails after a
    // delay. The overall result is the transport error, yet a probe of the
    // auth endpoint still succeeds: the auth listener was never cancelled.
    let ctx = test_ctx(false);
    let mut orchestrator = LaunchOrchestrator::new(ctx, HookRegistry::no_op(), HookScript::no_op());
    let mut binds = MockBinds { auth_bound: false };

    let action = orchestrator.start();
    assert!(matches!(action, LaunchAction::BuildEngineApi));
    let builder = BasicEngineApiBuilder::new(60);
    let engine = builder.build_engine_api(&test_ctx(false), Ok(61)).map_err(|_| 0u64);
    let action = orchestrator.step(LaunchEvent::EngineBuilt(engine));
    assert!(matches!(action, LaunchAction::SpawnCacheFeed(_)));
    let action = orchestrator.step(LaunchEvent::CacheSpawned(CacheHandle { id: 50 }));
    let build_ctx = match action {
        LaunchAction::BuildEthApi(build_ctx) => build_ctx,
        _ => panic!("expected the Eth API build to be requested"),
    };
    // The build context embeds the cache created beforehand.
    assert_eq!(build_ctx.cache, CacheHandle { id: 50 });
    let action = orchestrator.step(LaunchEvent::EthBuilt(Ok(eth_handler())));
    assert!(matches!(action, LaunchAction::BindServers(_)));

    // The auth bind completes first and successfully...
    binds.auth_bound = true;
    // ...then the transport bind fails; the driver reports the first failure.
    let action = orchestrator.step(LaunchEvent::ServersBound(BindOutcome::FirstFailure(
        ServerKind::Transport,
        5,
    )));
    assert!(matches!(
        action,
        LaunchAction::Fail(LaunchError::Bind(ServerKind::Transport, 5))
    ));
    assert_eq!(orchestrator.error, Some(LaunchError::Bind(ServerKind::Transport, 5)));
    // A direct probe of the auth endpoint still succeeds.
    assert!(binds.auth_bound);
    // But the launch returns no handle to it.
    assert!(orchestrator.handles.is_none());
    assert_eq!(orchestrator.post_hook_runs, 0);
}

#[test]
fn bind_request_carries_auth_config_and_snapshots() {
    let ctx = test_ctx(false);
    let mut orchestrator = LaunchOrchestrator::new(ctx, HookRegistry::no_op(), HookScript::no_op());
    let _ = orchestrator.start();
    let builder = BasicEngineApiBuilder::new(60);
    let engine = builder.build_engine_api(&test_ctx(false), Ok(61)).map_err(|_| 0u64);
    let _ = orchestrator.step(LaunchEvent::EngineBuilt(engine));
    let _ = orchestrator.step(LaunchEvent::CacheSpawned(CacheHandle { id: 50 }));
    let action = orchestrator.step(LaunchEvent::EthBuilt(Ok(eth_handler())));
    let request = match action {
        LaunchAction::BindServers(request) => request,
        _ => panic!("expected the binds to be requested"),
    };
    assert_eq!(request.auth_config.jwt_secret, 9);
    assert_eq!(request.auth_config.port, 8551);
    assert_eq!(request.modules.http, vec![10, 11]);
    assert_eq!(request.auth_module.methods, vec![NAMESPACE_ENGINE, NAMESPACE_ETH]);
}

#[test]
fn basic_engine_api_builder_fills_client_identity() {
    let ctx = test_ctx(false);
    let builder = BasicEngineApiBuilder::new(60);
    let engine = builder.build_engine_api(&ctx, Ok(61)).unwrap();
    assert_eq!(engine.provider, 1);
    assert_eq!(engine.chain_spec, 8);
    assert_eq!(engine.beacon_engine_handle, 20);
    assert_eq!(engine.payload_store, 7);
    assert_eq!(engine.pool, 2);
    assert_eq!(engine.task_spawner, 6);
    assert_eq!(engine.validator, 61);
    assert!(engine.accept_execution_requests_hash);
    assert_eq!(engine.client, client_identity());
}

#[test]
fn basic_engine_api_builder_propagates_validator_failure() {
    let ctx = test_ctx(false);
    let builder = BasicEngineApiBuilder::new(60);
    let result = builder.build_engine_api(&ctx, Err(13));
    assert_eq!(result.unwrap_err(), LaunchError::Construction(13));
}

#[test]
fn assemble_produces_modules_auth_and_registry() {
    let config = test_config(true);
    let builder = BasicEngineApiBuilder::new(60);
    let engine = builder.build_engine_api(&test_ctx(true), Ok(61)).unwrap();
    let assembled = assemble(&config, engine, eth_handler());
    assert_eq!(assembled.modules.http, vec![10, 11]);
    assert_eq!(assembled.modules.ws, vec![12]);
    assert_eq!(assembled.modules.ipc, Vec::<u64>::new());
    assert_eq!(assembled.auth_module.methods, vec![NAMESPACE_ENGINE, NAMESPACE_ETH]);
    let expected = ApiRegistry {
        eth: eth_handler(),
        eth_dev_accounts: DEV_SIGNER_COUNT,
        engine: Some(engine),
    };
    assert_eq!(assembled.registry, expected);
}

#[test]
fn auth_bind_failure_reports_the_auth_server() {
    let ctx = test_ctx(false);
    let mut orchestrator = LaunchOrchestrator::new(ctx, HookRegistry::no_op(), HookScript::no_op());
    let mut env = happy_env(&test_ctx(false));
    env.binds = BindOutcome::FirstFailure(ServerKind::Auth, 14);
    let result = orchestrator.run(env);
    assert_eq!(result.unwrap_err(), LaunchError::Bind(ServerKind::Auth, 14));
    assert!(orchestrator.handles.is_none());
    assert_eq!(orchestrator.post_hook_runs, 0);
}
