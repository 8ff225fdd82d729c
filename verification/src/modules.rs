//! Transport method-sets: the per-transport sets of enabled namespaces and
//! the single method-set of the authenticated listener. Both are mutable
//! until the servers start and are frozen as value snapshots at launch;
//! mutating the live set after the snapshot is taken never affects an
//! already-launched server.

use vstd::prelude::*;

verus! {

/// Namespace identifier of the general-purpose Eth API.
pub const NAMESPACE_ETH: u64 = 1;

/// Namespace identifier of the privileged engine API.
pub const NAMESPACE_ENGINE: u64 = 2;

/// Copies a list of identifiers.
pub fn copy_ids(src: &Vec<u64>) -> (out: Vec<u64>)
    ensures
        out@ == src@,
{
    let mut out: Vec<u64> = Vec::new();
    let mut i: usize = 0;
    while i < src.len()
        invariant
            i <= src.len(),
            out@ == src@.take(i as int),
        decreases src.len() - i,
    {
        out.push(src[i]);
        proof {
            assert(src@.take(i as int + 1) =~= src@.take(i as int).push(src@[i as int]));
        }
        i += 1;
    }
    proof {
        assert(src@.take(src@.len() as int) =~= src@);
    }
    out
}

/// Appends every identifier of `src` to `dst`.
pub fn append_ids(dst: &mut Vec<u64>, src: &Vec<u64>)
    ensures
        final(dst)@ == old(dst)@ + src@,
{
    let mut i: usize = 0;
    while i < src.len()
        invariant
            i <= src.len(),
            dst@ == old(dst)@ + src@.take(i as int),
        decreases src.len() - i,
    {
        dst.push(src[i]);
        proof {
            assert(src@.take(i as int + 1) =~= src@.take(i as int).push(src@[i as int]));
        }
        i += 1;
    }
    proof {
        assert(src@.take(src@.len() as int) =~= src@);
        assert(dst@ =~= old(dst)@ + src@);
    }
}

/// Additional namespaces a hook merges into the method-sets.
#[derive(Debug)]
pub struct ModuleExtension {
    /// Namespaces added to the http transport.
    pub http: Vec<u64>,
    /// Namespaces added to the ws transport.
    pub ws: Vec<u64>,
    /// Namespaces added to the ipc transport.
    pub ipc: Vec<u64>,
    /// Methods added to the authenticated module.
    pub auth: Vec<u64>,
}

impl ModuleExtension {
    /// The empty extension.
    pub fn empty() -> (e: Self)
        ensures
            e.http@ == Seq::<u64>::empty(),
            e.ws@ == Seq::<u64>::empty(),
            e.ipc@ == Seq::<u64>::empty(),
            e.auth@ == Seq::<u64>::empty(),
    {
        ModuleExtension { http: Vec::new(), ws: Vec::new(), ipc: Vec::new(), auth: Vec::new() }
    }
}

/// Per-transport sets of enabled namespaces.
#[derive(Debug)]
pub struct TransportModuleSet {
    /// Namespaces served over http.
    pub http: Vec<u64>,
    /// Namespaces served over ws.
    pub ws: Vec<u64>,
    /// Namespaces served over ipc.
    pub ipc: Vec<u64>,
}

impl TransportModuleSet {
    /// Equal contents on every transport.
    pub open spec fn same_contents(self, other: Self) -> bool {
        self.http@ == other.http@ && self.ws@ == other.ws@ && self.ipc@ == other.ipc@
    }

    /// The module set a configuration enables.
    pub fn from_config(config: &crate::config::LaunchConfig) -> (m: Self)
        ensures
            m.http@ == config.http_modules@,
            m.ws@ == config.ws_modules@,
            m.ipc@ == config.ipc_modules@,
    {
        TransportModuleSet {
            http: copy_ids(&config.http_modules),
            ws: copy_ids(&config.ws_modules),
            ipc: copy_ids(&config.ipc_modules),
        }
    }

    /// Merges additional namespaces into each transport.
    pub fn merge(&mut self, ext: &ModuleExtension)
        ensures
            final(self).http@ == old(self).http@ + ext.http@,
            final(self).ws@ == old(self).ws@ + ext.ws@,
            final(self).ipc@ == old(self).ipc@ + ext.ipc@,
    {
        append_ids(&mut self.http, &ext.http);
        append_ids(&mut self.ws, &ext.ws);
        append_ids(&mut self.ipc, &ext.ipc);
    }

    /// The value snapshot a server launch is given. Later mutation of the
    /// live set leaves the snapshot untouched.
    pub fn snapshot(&self) -> (s: Self)
        ensures
            s.same_contents(*self),
    {
        TransportModuleSet {
            http: copy_ids(&self.http),
            ws: copy_ids(&self.ws),
            ipc: copy_ids(&self.ipc),
        }
    }
}

/// The single method-set on the authenticated listener.
#[derive(Debug)]
pub struct AuthModule {
    /// Methods served to the consensus-layer client.
    pub methods: Vec<u64>,
}

impl AuthModule {
    /// Equal contents.
    pub open spec fn same_contents(self, other: Self) -> bool {
        self.methods@ == other.methods@
    }

    /// The method-set assembly produces: the engine API plus the Eth API.
    pub fn new_engine() -> (a: Self)
        ensures
            a.methods@ == seq![NAMESPACE_ENGINE, NAMESPACE_ETH],
    {
        let methods = vec![NAMESPACE_ENGINE, NAMESPACE_ETH];
        proof {
            assert(methods@ =~= seq![NAMESPACE_ENGINE, NAMESPACE_ETH]);
        }
        AuthModule { methods }
    }

    /// Merges additional methods into the set.
    pub fn merge(&mut self, added: &Vec<u64>)
        ensures
            final(self).methods@ == old(self).methods@ + added@,
    {
        append_ids(&mut self.methods, added);
    }

    /// The value snapshot the authenticated server launch is given.
    pub fn snapshot(&self) -> (s: Self)
        ensures
            s.same_contents(*self),
    {
        AuthModule { methods: copy_ids(&self.methods) }
    }
}

} // verus!
