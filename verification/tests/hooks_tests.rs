use rpc_addons::config::LaunchConfig;
use rpc_addons::errors::{LaunchError, ServerKind};
use rpc_addons::hooks::{HookRegistry, HookScript};
use rpc_addons::modules::{AuthModule, ModuleExtension, TransportModuleSet};

fn config() -> LaunchConfig {
    LaunchConfig {
        dev: false,
        eth_config: 0,
        cache_config: 0,
        auth_port: 0,
        accept_execution_requests_hash: false,
        http_modules: vec![1, 2],
        ws_modules: vec![3],
        ipc_modules: vec![],
    }
}

#[test]
fn no_op_hook_extends_nothing_and_succeeds() {
    let hook = HookScript::no_op();
    let mut modules = TransportModuleSet::from_config(&config());
    let mut auth = AuthModule::new_engine();
    let auth_before = auth.methods.clone();
    assert!(hook.apply(&mut modules, &mut auth).is_ok());
    assert_eq!(modules.http, vec![1, 2]);
    assert_eq!(modules.ws, vec![3]);
    assert_eq!(auth.methods, auth_before);
}

#[test]
fn extending_hook_merges_every_transport() {
    let hook = HookScript::extending(ModuleExtension {
        http: vec![7],
        ws: vec![8],
        ipc: vec![9],
        auth: vec![5],
    });
    let mut modules = TransportModuleSet::from_config(&config());
    let mut auth = AuthModule::new_engine();
    assert!(hook.apply(&mut modules, &mut auth).is_ok());
    assert_eq!(modules.http, vec![1, 2, 7]);
    assert_eq!(modules.ws, vec![3, 8]);
    assert_eq!(modules.ipc, vec![9]);
    assert_eq!(auth.methods.last(), Some(&5));
}

#[test]
fn failing_hook_reports_its_code_and_changes_nothing() {
    let hook = HookScript::failing(17);
    let mut modules = TransportModuleSet::from_config(&config());
    let mut auth = AuthModule::new_engine();
    let auth_before = auth.methods.clone();
    assert_eq!(hook.apply(&mut modules, &mut auth), Err(17));
    assert_eq!(modules.http, vec![1, 2]);
    assert_eq!(modules.ws, vec![3]);
    assert_eq!(auth.methods, auth_before);
}

#[test]
fn hook_registry_setters_replace_each_point() {
    let mut hooks = HookRegistry::no_op();
    hooks.set_extend_modules(HookScript::failing(1));
    hooks.set_on_started(HookScript::failing(2));
    assert_eq!(hooks.extend_modules.fail_code, Some(1));
    assert_eq!(hooks.on_started.fail_code, Some(2));
}

#[test]
fn auth_module_snapshot_is_isolated() {
    let mut auth = AuthModule::new_engine();
    let snapshot = auth.snapshot();
    auth.merge(&vec![44]);
    assert!(auth.methods.contains(&44));
    assert!(!snapshot.methods.contains(&44));
}

#[test]
fn bind_error_variants_identify_the_failing_server() {
    let transport = LaunchError::Bind(ServerKind::Transport, 1);
    let auth = LaunchError::Bind(ServerKind::Auth, 1);
    assert_ne!(transport, auth);
}
