//! Capability announcements exchanged during the peer-to-peer handshake:
//! a named sub-protocol together with its version, and the aggregate view
//! over everything a peer announced.

use vstd::prelude::*;

verus! {

/// Supported versions of the `eth` sub-protocol.
#[derive(Clone, Copy, Debug, PartialEq, Eq, Structural)]
pub enum EthVersion {
    Eth66,
    Eth67,
    Eth68,
}

impl EthVersion {
    /// The version number carried on the wire for this protocol version.
    pub open spec fn spec_as_usize(self) -> usize {
        match self {
            EthVersion::Eth66 => 66usize,
            EthVersion::Eth67 => 67usize,
            EthVersion::Eth68 => 68usize,
        }
    }

    /// Returns the numeric protocol version.
    #[verifier::when_used_as_spec(spec_as_usize)]
    pub fn as_usize(self) -> (v: usize)
        ensures
            v == self.spec_as_usize(),
    {
        match self {
            EthVersion::Eth66 => 66,
            EthVersion::Eth67 => 67,
            EthVersion::Eth68 => 68,
        }
    }
}

/// A message indicating a supported capability and capability version.
#[derive(Debug)]
pub struct Capability {
    /// The name of the subprotocol.
    pub name: String,
    /// The version of the subprotocol.
    pub version: usize,
}

impl Capability {
    /// Whether this names the `eth` sub-protocol at the given version.
    pub open spec fn spec_is_eth_at(self, version: usize) -> bool {
        self.name@ == "eth"@ && self.version == version
    }

    /// Create a new `Capability` with the given name and version.
    pub fn new(name: String, version: usize) -> (c: Self)
        ensures
            c.name == name,
            c.version == version,
    {
        Self { name, version }
    }

    /// Create a new `Capability` with the given static name and version.
    pub fn new_static(name: &'static str, version: usize) -> (c: Self)
        ensures
            c.name@ == name@,
            c.version == version,
    {
        Self { name: name.to_owned(), version }
    }

    /// Returns the corresponding eth capability for the given version.
    pub fn eth(version: EthVersion) -> (c: Self)
        ensures
            c.spec_is_eth_at(version.spec_as_usize()),
    {
        Self::new_static("eth", version.as_usize())
    }

    /// Returns the eth capability at version 66.
    pub fn eth_66() -> (c: Self)
        ensures
            c.spec_is_eth_at(66),
    {
        Self::eth(EthVersion::Eth66)
    }

    /// Returns the eth capability at version 67.
    pub fn eth_67() -> (c: Self)
        ensures
            c.spec_is_eth_at(67),
    {
        Self::eth(EthVersion::Eth67)
    }

    /// Returns the eth capability at version 68.
    pub fn eth_68() -> (c: Self)
        ensures
            c.spec_is_eth_at(68),
    {
        Self::eth(EthVersion::Eth68)
    }

    /// Whether this is eth v66 protocol.
    pub fn is_eth_v66(&self) -> (b: bool)
        ensures
            b == self.spec_is_eth_at(66),
    {
        self.name == "eth".to_owned() && self.version == 66
    }

    /// Whether this is eth v67.
    pub fn is_eth_v67(&self) -> (b: bool)
        ensures
            b == self.spec_is_eth_at(67),
    {
        self.name == "eth".to_owned() && self.version == 67
    }

    /// Whether this is eth v68.
    pub fn is_eth_v68(&self) -> (b: bool)
        ensures
            b == self.spec_is_eth_at(68),
    {
        self.name == "eth".to_owned() && self.version == 68
    }

    /// Whether this is any eth version.
    pub fn is_eth(&self) -> (b: bool)
        ensures
            b == (self.spec_is_eth_at(66) || self.spec_is_eth_at(67) || self.spec_is_eth_at(68)),
    {
        self.is_eth_v66() || self.is_eth_v67() || self.is_eth_v68()
    }
}

impl Clone for Capability {
    fn clone(&self) -> (c: Self)
        ensures
            c == *self,
    {
        Capability { name: self.name.clone(), version: self.version }
    }
}

/// Whether some element of `caps` announces `eth` at `version`.
pub open spec fn spec_announces_eth_at(caps: Seq<Capability>, version: usize) -> bool {
    exists|i: int| 0 <= i < caps.len() && #[trigger] caps[i].spec_is_eth_at(version)
}

/// Represents all capabilities of a node.
#[derive(Debug)]
pub struct Capabilities {
    inner: Vec<Capability>,
    eth_66: bool,
    eth_67: bool,
    eth_68: bool,
}

impl View for Capabilities {
    type V = Seq<Capability>;

    closed spec fn view(&self) -> Seq<Capability> {
        self.inner@
    }
}

impl Capabilities {
    /// The cached per-version flags agree with the announced list.
    #[verifier::type_invariant]
    spec fn wf(self) -> bool {
        &&& self.eth_66 == spec_announces_eth_at(self.inner@, 66)
        &&& self.eth_67 == spec_announces_eth_at(self.inner@, 67)
        &&& self.eth_68 == spec_announces_eth_at(self.inner@, 68)
    }

    /// Returns all capabilities.
    pub fn capabilities(&self) -> (caps: &[Capability])
        ensures
            caps@ == self@,
    {
        self.inner.as_slice()
    }

    /// Consumes the type and returns all capabilities.
    pub fn into_inner(self) -> (caps: Vec<Capability>)
        ensures
            caps@ == self@,
    {
        self.inner
    }

    /// Whether the peer supports the `eth` sub-protocol at any version.
    pub fn supports_eth(&self) -> (b: bool)
        ensures
            b == (spec_announces_eth_at(self@, 66) || spec_announces_eth_at(self@, 67)
                || spec_announces_eth_at(self@, 68)),
    {
        proof {
            use_type_invariant(self);
        }
        self.eth_68 || self.eth_67 || self.eth_66
    }

    /// Whether this peer supports eth v66 protocol.
    pub fn supports_eth_v66(&self) -> (b: bool)
        ensures
            b == spec_announces_eth_at(self@, 66),
    {
        proof {
            use_type_invariant(self);
        }
        self.eth_66
    }

    /// Whether this peer supports eth v67 protocol.
    pub fn supports_eth_v67(&self) -> (b: bool)
        ensures
            b == spec_announces_eth_at(self@, 67),
    {
        proof {
            use_type_invariant(self);
        }
        self.eth_67
    }

    /// Whether this peer supports eth v68 protocol.
    pub fn supports_eth_v68(&self) -> (b: bool)
        ensures
            b == spec_announces_eth_at(self@, 68),
    {
        proof {
            use_type_invariant(self);
        }
        self.eth_68
    }
}

/// Scans the list for an announcement of `eth` at `version`.
fn announces_eth_at(caps: &Vec<Capability>, version: usize) -> (b: bool)
    ensures
        b == spec_announces_eth_at(caps@, version),
{
    let mut i: usize = 0;
    let mut found = false;
    while i < caps.len()
        invariant
            i <= caps.len(),
            found == (exists|j: int| 0 <= j < i && #[trigger] caps@[j].spec_is_eth_at(version)),
        decreases caps.len() - i,
    {
        let cap = &caps[i];
        let hit = cap.name == "eth".to_owned() && cap.version == version;
        proof {
            assert(hit == caps@[i as int].spec_is_eth_at(version));
        }
        if hit {
            found = true;
        }
        i += 1;
    }
    found
}

impl From<Vec<Capability>> for Capabilities {
    fn from(value: Vec<Capability>) -> (caps: Self)
    {
        let eth_66 = announces_eth_at(&value, 66);
        let eth_67 = announces_eth_at(&value, 67);
        let eth_68 = announces_eth_at(&value, 68);
        Self { inner: value, eth_66, eth_67, eth_68 }
    }
}

impl vstd::std_specs::convert::FromSpecImpl<Vec<Capability>> for Capabilities {
    open spec fn obeys_from_spec() -> bool {
        true
    }

    closed spec fn from_spec(value: Vec<Capability>) -> Self {
        Capabilities {
            inner: value,
            eth_66: spec_announces_eth_at(value@, 66),
            eth_67: spec_announces_eth_at(value@, 67),
            eth_68: spec_announces_eth_at(value@, 68),
        }
    }
}

/// A `Capabilities` value built from a list announces exactly that list.
pub broadcast proof fn lemma_capabilities_from_view(value: Vec<Capability>)
    ensures
        (#[trigger] <Capabilities as vstd::std_specs::convert::FromSpec<
            Vec<Capability>,
        >>::from_spec(value))@ == value@,
{
}

} // verus!
