//! The configuration of a tunnel: one interface record and its peers.

use vstd::prelude::*;

verus! {

/// The local side of a tunnel. Every field may be absent in a file; a working
/// tunnel needs all of them.
#[derive(Debug, Clone, PartialEq, Eq, PartialOrd, Ord)]
pub struct Interface {
    pub name: Option<String>,
    pub address: Option<String>,
    pub listen_port: Option<String>,
    pub public_key: Option<String>,
    pub private_key: Option<String>,
}

/// One remote side of a tunnel.
#[derive(Debug, Clone, PartialEq, Eq, PartialOrd, Ord)]
pub struct Peer {
    pub allowed_ips: Option<String>,
    pub endpoint: Option<String>,
    pub public_key: Option<String>,
}

/// An interface together with its peers, in the order in which they are listed.
#[derive(Debug, Clone, PartialEq, Eq, PartialOrd, Ord)]
pub struct WireguardConfig {
    pub interface: Interface,
    pub peers: Vec<Peer>,
}

/// The characters of an optional string.
pub open spec fn text_of(value: Option<String>) -> Option<Seq<char>> {
    match value {
        Some(s) => Some(s@),
        None => None,
    }
}

impl Default for Interface {
    /// An interface record with every field absent.
    fn default() -> (r: Interface)
        ensures
            r.name.is_none(),
            r.address.is_none(),
            r.listen_port.is_none(),
            r.public_key.is_none(),
            r.private_key.is_none(),
    {
        Interface { name: None, address: None, listen_port: None, public_key: None, private_key: None }
    }
}

impl Default for Peer {
    /// A peer record with every field absent.
    fn default() -> (r: Peer)
        ensures
            r.allowed_ips.is_none(),
            r.endpoint.is_none(),
            r.public_key.is_none(),
    {
        Peer { allowed_ips: None, endpoint: None, public_key: None }
    }
}

impl Default for WireguardConfig {
    /// An interface with every field absent, and no peers.
    fn default() -> (r: WireguardConfig)
        ensures
            r.interface.name.is_none(),
            r.interface.address.is_none(),
            r.interface.listen_port.is_none(),
            r.interface.public_key.is_none(),
            r.interface.private_key.is_none(),
            r.peers@.len() == 0,
    {
        WireguardConfig { interface: Interface::default(), peers: Vec::new() }
    }
}

} // verus!
