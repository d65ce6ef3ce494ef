//! The swarm endpoints' work on the local replicated state: `POST
//! /swarm/init` bootstraps this node, `POST /swarm/join` records a node that
//! the leader accepted. Consensus and the request to the leader are made by
//! the caller.
use vstd::prelude::*;

use super::handlers::{
    lists_node, parse_node_id, swarm_node_infos, InitResponse, JoinRequest, JoinResponse, LegacyNodeInfo,
    RegisterResponse,
};
use crate::swarm::model::listing_of;
use crate::swarm::raft::{spec_add_node, spec_bootstrap, NodeInfo, SwarmRaft};
use crate::text::{clone_opt_string, dec, digits_value, parses_unsigned, push_str, push_u64, to_owned_string, unsigned_body};

verus! {

fn copy_node(n: &NodeInfo) -> (r: NodeInfo)
    ensures
        r == *n,
{
    NodeInfo {
        id: n.id,
        addr: n.addr.clone(),
        public_key: n.public_key.clone(),
        wireguard_key: clone_opt_string(&n.wireguard_key),
        wireguard_port: n.wireguard_port,
        subnet_id: n.subnet_id,
        is_leader: n.is_leader,
    }
}

/// The swarm's nodes, copied out in id order.
pub fn node_listing(raft: &SwarmRaft) -> (r: Vec<NodeInfo>)
    requires
        raft.wf(),
    ensures
        r@ == listing_of(raft@.nodes),
{
    let all = raft.get_nodes();
    let mut r: Vec<NodeInfo> = Vec::new();
    let mut i: usize = 0;
    while i < all.len()
        invariant
            i <= all@.len(),
            all@.len() == listing_of(raft@.nodes).len(),
            forall|k: int| 0 <= k < all@.len() ==> *all@[k] == #[trigger] listing_of(raft@.nodes)[k],
            r@ == listing_of(raft@.nodes).take(i as int),
        decreases all@.len() - i,
    {
        r.push(copy_node(all[i]));
        assert(listing_of(raft@.nodes).take(i + 1) =~= listing_of(raft@.nodes).take(i as int).push(
            listing_of(raft@.nodes)[i as int],
        ));
        i = i + 1;
    }
    assert(listing_of(raft@.nodes).take(all@.len() as int) =~= listing_of(raft@.nodes));
    r
}

/// The public key a bootstrapping node is given: `init_key_<id>`.
pub open spec fn init_key(node_id: u64) -> Seq<char> {
    "init_key_"@ + dec(node_id as nat)
}

fn init_key_for(node_id: u64) -> (k: String)
    ensures
        k@ == init_key(node_id),
{
    let mut k = to_owned_string("init_key_");
    push_u64(&mut k, node_id);
    k
}

/// `POST /swarm/init`, once consensus holds this node alone: this node,
/// known as node 1 with subnet 2, is bootstrapped at `addr` with key
/// `init_key_1`.
pub fn swarm_init_local(raft: &mut SwarmRaft, addr: String) -> (r: Result<InitResponse, (u16, String)>)
    requires
        old(raft).wf(),
    ensures
        final(raft).wf(),
        exists|key: String|
            key@ == init_key(1) && {
                let (s, res) = #[trigger] spec_bootstrap(old(raft)@, addr, key, None, None);
                &&& final(raft)@ == s
                &&& (res is Ok <==> r is Ok)
                &&& (r matches Err(e) ==> e.0 == 500 && e.1@ == "SwarmRaft Error: "@ + res->Err_0)
            },
        r matches Ok(i) ==> i.node_id == 1 && i.subnet_id == 2 && i.wireguard_port is None && i.wireguard_key is None,
{
    let node_id: u64 = 1;
    let key = init_key_for(node_id);
    let ghost k = key;
    match raft.bootstrap(addr, key, None, None) {
        Ok(()) => {
            let subnet_id: u8 = ((node_id % 254) + 1) as u8;
            Ok(InitResponse { node_id, subnet_id, wireguard_port: None, wireguard_key: None })
        },
        Err(e) => {
            let mut m = to_owned_string("SwarmRaft Error: ");
            push_str(&mut m, e.as_str());
            Err((500, m))
        },
    }
}

/// How the leader answered the request to let a node join.
#[derive(Debug, Clone)]
pub enum LeaderReply {
    Unreachable { error: String },
    Rejected { body: String },
    Accepted,
}

/// Where the leader at `leader_addr` is asked to let a node join.
pub fn join_propose_url(leader_addr: &str) -> (u: String)
    ensures
        u@ == "http://"@ + leader_addr@ + "/swarm/join-propose"@,
{
    let mut u = to_owned_string("http://");
    push_str(&mut u, leader_addr);
    push_str(&mut u, "/swarm/join-propose");
    u
}

/// The state after this node learns of the join of `req` while it runs at
/// `local_addr`: bootstrapped first if it was not, then the node added.
pub open spec fn spec_join_local(s: crate::swarm::model::SwarmState, req: JoinRequest, key: String, local_addr: String) -> (crate::swarm::model::SwarmState, Result<u8, Seq<char>>) {
    let s1 = if s.initialized { s } else { spec_bootstrap(s, local_addr, key, None, None).0 };
    spec_add_node(s1, req.node_id, req.addr, req.public_key, req.wireguard_key, req.wireguard_port)
}

/// `POST /swarm/join` on the joining node: once the leader accepted, this
/// node, bootstrapped at `local_addr` if it was not yet, records the new
/// node and answers with its subnet and every node it knows.
pub fn swarm_join_local(raft: &mut SwarmRaft, req: JoinRequest, leader: LeaderReply, local_addr: String) -> (r: Result<JoinResponse, (u16, String)>)
    requires
        old(raft).wf(),
    ensures
        final(raft).wf(),
        leader matches LeaderReply::Unreachable { error } ==> final(raft)@ == old(raft)@ && (r matches Err(e)
            && e.0 == 500 && e.1@ == "Failed to contact leader: "@ + error@),
        leader matches LeaderReply::Rejected { body } ==> final(raft)@ == old(raft)@ && (r matches Err(e)
            && e.0 == 400 && e.1@ == "Join rejected: "@ + body@),
        leader is Accepted ==> exists|key: String|
            key@ == init_key(req.node_id) && {
                let (s, res) = #[trigger] spec_join_local(old(raft)@, req, key, local_addr);
                &&& final(raft)@ == s
                &&& (res is Ok <==> r is Ok)
                &&& (r matches Err(e) ==> e.0 == 500 && e.1@ == "Failed to add node locally: "@ + res->Err_0)
                &&& (r matches Ok(j) ==> j.node_id == req.node_id && j.subnet_id == ((req.node_id % 254) + 1) as u8
                    && j.peers@ == listing_of(s.nodes))
            },
{
    match leader {
        LeaderReply::Unreachable { error } => {
            let mut m = to_owned_string("Failed to contact leader: ");
            push_str(&mut m, error.as_str());
            return Err((500, m));
        },
        LeaderReply::Rejected { body } => {
            let mut m = to_owned_string("Join rejected: ");
            push_str(&mut m, body.as_str());
            return Err((400, m));
        },
        LeaderReply::Accepted => {},
    }
    let ghost s0 = raft@;
    let ghost req0 = req;
    let ghost addr0 = local_addr;
    let key = init_key_for(req.node_id);
    let ghost k = key;
    if !raft.is_initialized() {
        match raft.bootstrap(local_addr, key, None, None) {
            Ok(()) => {},
            Err(e) => {
                proof {
                    assert(false);
                }
                return Err((500, e));
            },
        }
    }
    let node_id = req.node_id;
    match raft.add_node(req.node_id, req.addr, req.public_key, req.wireguard_key, req.wireguard_port) {
        Ok(_) => {
            let subnet_id: u8 = ((node_id % 254) + 1) as u8;
            let peers = node_listing(raft);
            proof {
                let (s, res) = spec_join_local(s0, req0, k, addr0);
                assert(raft@ == s && res is Ok);
            }
            Ok(JoinResponse { node_id, subnet_id, peers })
        },
        Err(e) => {
            let mut m = to_owned_string("Failed to add node locally: ");
            push_str(&mut m, e.as_str());
            proof {
                let (s, res) = spec_join_local(s0, req0, k, addr0);
                assert(raft@ == s && res is Err && e@ == res->Err_0);
            }
            Err((500, m))
        },
    }
}

/// The state after a registration of node `id` (given in `node`), this node
/// running at `local_addr`: bootstrapped first if it was not, with the
/// registering node's WireGuard endpoint, then the node added with its id
/// text as public key.
pub open spec fn spec_register_local(s: crate::swarm::model::SwarmState, id: u64, node: LegacyNodeInfo, key: String, local_addr: String) -> (crate::swarm::model::SwarmState, Result<u8, Seq<char>>) {
    let (s1, b) = if s.initialized {
        (s, Ok(()))
    } else {
        spec_bootstrap(s, local_addr, key, node.wireguard_public_key, node.wireguard_port)
    };
    match b {
        Ok(()) => spec_add_node(s1, id, node.ip, node.id, node.wireguard_public_key, node.wireguard_port),
        Err(e) => (s1, Err(e)),
    }
}

/// `POST /swarm/register`, the older registration: the node's id must be
/// the decimal text of a number; it is then recorded like a join, and the
/// answer lists every node.
pub fn swarm_register_local(raft: &mut SwarmRaft, node: LegacyNodeInfo, local_addr: String) -> (r: Result<RegisterResponse, (u16, String)>)
    requires
        old(raft).wf(),
    ensures
        final(raft).wf(),
        !parses_unsigned(node.id@, u64::MAX as nat) ==> final(raft)@ == old(raft)@ && (r matches Err(e)
            && e.0 == 400 && e.1@ == "Invalid node ID format"@),
        parses_unsigned(node.id@, u64::MAX as nat) ==> {
            let id = digits_value(unsigned_body(node.id@)) as u64;
            exists|key: String|
                key@ == init_key(id) && {
                    let (s, res) = #[trigger] spec_register_local(old(raft)@, id, node, key, local_addr);
                    &&& final(raft)@ == s
                    &&& (res is Ok <==> r is Ok)
                    &&& (r matches Err(e) ==> e.0 == 500 && e.1@ == res->Err_0)
                    &&& (r matches Ok(g) ==> {
                        &&& g.node_id == id
                        &&& g.subnet_id == ((id % 254) + 1) as u8
                        &&& g.peers@.len() == listing_of(s.nodes).len()
                        &&& forall|i: int| 0 <= i < g.peers@.len() ==> lists_node(#[trigger] g.peers@[i], listing_of(s.nodes)[i])
                    })
                }
        },
{
    let node_id = match parse_node_id(node.id.as_str()) {
        Ok(n) => n,
        Err(e) => {
            return Err((400, e));
        },
    };
    assert(node_id == digits_value(unsigned_body(node.id@)) as u64);
    let ghost s0 = raft@;
    let ghost node0 = node;
    let ghost addr0 = local_addr;
    let key = init_key_for(node_id);
    let ghost k = key;
    if !raft.is_initialized() {
        match raft.bootstrap(local_addr, key, clone_opt_string(&node.wireguard_public_key), node.wireguard_port) {
            Ok(()) => {},
            Err(e) => {
                proof {
                    assert(false);
                }
                return Err((500, e));
            },
        }
    }
    let public_key = node.id.clone();
    match raft.add_node(node_id, node.ip, public_key, node.wireguard_public_key, node.wireguard_port) {
        Ok(_) => {
            let listing = node_listing(raft);
            let peers = swarm_node_infos(&listing);
            let subnet_id: u8 = ((node_id % 254) + 1) as u8;
            proof {
                let (s, res) = spec_register_local(s0, node_id, node0, k, addr0);
                assert(raft@ == s && res is Ok);
                assert(listing@ == listing_of(s.nodes));
            }
            Ok(RegisterResponse { node_id, subnet_id, peers })
        },
        Err(e) => {
            proof {
                let (s, res) = spec_register_local(s0, node_id, node0, k, addr0);
                assert(raft@ == s && res is Err && e@ == res->Err_0);
            }
            Err((500, e))
        },
    }
}

} // verus!
