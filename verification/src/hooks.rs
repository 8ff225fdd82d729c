//! The two ordered extension points of a launch. Each hook is a
//! deterministic script: the namespaces it merges into the method-sets and
//! whether it reports success. The default hook is a no-op that succeeds.
//! A failing hook performs no extension.

use vstd::prelude::*;
use crate::modules::{AuthModule, ModuleExtension, TransportModuleSet};

verus! {

/// What one hook invocation does: merge an extension into the method-sets,
/// then report success or a failure code.
#[derive(Debug)]
pub struct HookScript {
    /// Namespaces and methods the hook merges.
    pub additions: ModuleExtension,
    /// `Some(code)` makes the hook fail with that code, without extending.
    pub fail_code: Option<u64>,
}

impl HookScript {
    /// The no-op hook: extends nothing and succeeds.
    pub fn no_op() -> (h: Self)
        ensures
            h.fail_code is None,
            h.additions.http@ == Seq::<u64>::empty(),
            h.additions.ws@ == Seq::<u64>::empty(),
            h.additions.ipc@ == Seq::<u64>::empty(),
            h.additions.auth@ == Seq::<u64>::empty(),
    {
        HookScript { additions: ModuleExtension::empty(), fail_code: None }
    }

    /// A hook that merges the given extension and succeeds.
    pub fn extending(additions: ModuleExtension) -> (h: Self)
        ensures
            h.additions == additions,
            h.fail_code is None,
    {
        HookScript { additions, fail_code: None }
    }

    /// A hook that fails with the given code.
    pub fn failing(code: u64) -> (h: Self)
        ensures
            h.fail_code == Some(code),
    {
        HookScript { additions: ModuleExtension::empty(), fail_code: Some(code) }
    }

    /// Runs the hook over the mutable method-sets. On success the extension
    /// is merged; on failure nothing changes.
    pub fn apply(&self, modules: &mut TransportModuleSet, auth_module: &mut AuthModule) -> (r:
        Result<(), u64>)
        ensures
            self.fail_code is None ==> {
                &&& r is Ok
                &&& final(modules).http@ == old(modules).http@ + self.additions.http@
                &&& final(modules).ws@ == old(modules).ws@ + self.additions.ws@
                &&& final(modules).ipc@ == old(modules).ipc@ + self.additions.ipc@
                &&& final(auth_module).methods@ == old(auth_module).methods@
                    + self.additions.auth@
            },
            self.fail_code matches Some(code) ==> {
                &&& r matches Err(c) && c == code
                &&& *final(modules) == *old(modules)
                &&& *final(auth_module) == *old(auth_module)
            },
    {
        match self.fail_code {
            Some(code) => Err(code),
            None => {
                modules.merge(&self.additions);
                auth_module.merge(&self.additions.auth);
                Ok(())
            },
        }
    }
}

/// The ordered pair of extension points: the pre-launch "extend modules"
/// hook and the post-launch "on started" hook, each invoked exactly once
/// per launch, each defaulting to a no-op.
#[derive(Debug)]
pub struct HookRegistry {
    /// Runs once after assembly and developer-mode seeding, before either
    /// server binds.
    pub extend_modules: HookScript,
    /// Runs once after both servers have bound.
    pub on_started: HookScript,
}

impl HookRegistry {
    /// Both hooks default to no-ops.
    pub fn no_op() -> (h: Self)
        ensures
            h.extend_modules.fail_code is None,
            h.extend_modules.additions.http@ == Seq::<u64>::empty(),
            h.extend_modules.additions.ws@ == Seq::<u64>::empty(),
            h.extend_modules.additions.ipc@ == Seq::<u64>::empty(),
            h.extend_modules.additions.auth@ == Seq::<u64>::empty(),
            h.on_started.fail_code is None,
            h.on_started.additions.http@ == Seq::<u64>::empty(),
            h.on_started.additions.ws@ == Seq::<u64>::empty(),
            h.on_started.additions.ipc@ == Seq::<u64>::empty(),
            h.on_started.additions.auth@ == Seq::<u64>::empty(),
    {
        HookRegistry { extend_modules: HookScript::no_op(), on_started: HookScript::no_op() }
    }

    /// Replaces the pre-launch hook.
    pub fn set_extend_modules(&mut self, hook: HookScript)
        ensures
            *final(self) == (HookRegistry { extend_modules: hook, ..*old(self) }),
    {
        self.extend_modules = hook;
    }

    /// Replaces the post-launch hook.
    pub fn set_on_started(&mut self, hook: HookScript)
        ensures
            *final(self) == (HookRegistry { on_started: hook, ..*old(self) }),
    {
        self.on_started = hook;
    }
}

} // verus!
