//! The records the swarm's consensus log carries between nodes.
use vstd::prelude::*;

verus! {

/// A cluster member as the consensus layer addresses it.
#[derive(Debug, Clone, PartialEq, Eq)]
pub struct SwarmNode {
    pub addr: String,
    pub public_key: String,
}

impl Default for SwarmNode {
    fn default() -> (n: Self)
        ensures
            n.addr@.len() == 0,
            n.public_key@.len() == 0,
    {
        SwarmNode { addr: String::new(), public_key: String::new() }
    }
}

/// A change to the cluster submitted to the log.
#[derive(Debug, Clone)]
pub enum SwarmRequest {
    AddNode {
        node_id: u64,
        addr: String,
        public_key: String,
        wireguard_key: Option<String>,
        wireguard_port: Option<u16>,
    },
    RemoveNode { node_id: u64 },
    UpdateNodeEndpoint {
        node_id: u64,
        addr: Option<String>,
        wireguard_key: Option<String>,
        wireguard_port: Option<u16>,
    },
    RegisterNode { node_id: u64, addr: String, public_key: String },
    DeregisterNode { node_id: u64 },
    UpdateVmPlacement { vm_id: String, node_id: u64 },
    RemoveVmPlacement { vm_id: String },
}

/// Where and how to reach a node.
#[derive(Debug, Clone)]
pub struct NodeEndpoint {
    pub node_id: u64,
    pub addr: String,
    pub public_key: String,
    pub wireguard_key: Option<String>,
    pub wireguard_port: Option<u16>,
    pub subnet_id: u8,
}

/// Whether a log entry was applied.
#[derive(Debug, Clone, Copy, PartialEq, Eq, Structural)]
pub struct SwarmResponse {
    pub success: bool,
}

} // verus!
