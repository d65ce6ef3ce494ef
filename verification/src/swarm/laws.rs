//! Properties of the membership machine that span several operations.
use vstd::prelude::*;

use super::model::{
    is_listing, lemma_listing_exists, listing_of, peers_of, spec_subnet_id, state_inv, subnet_leased, SwarmState,
};
use super::raft::{
    placements_off, spec_add_node, spec_apply, spec_bootstrap, spec_remove_node,
    spec_submit_command, spec_update_node_endpoint, SwarmCommand,
};

verus! {

/// Replaying a command whose index was already applied succeeds and changes
/// nothing, whatever the command says.
pub proof fn law_replay_is_noop(s: SwarmState, cmd: SwarmCommand, idx: u64)
    requires
        s.initialized,
        s.applied.contains(idx),
    ensures
        spec_submit_command(s, cmd, idx) == (s, Ok::<(), Seq<char>>(())),
{
}

/// A node that joins gets the subnet that its id alone determines.
pub proof fn law_join_subnet_is_deterministic(
    s: SwarmState,
    node_id: u64,
    addr: String,
    public_key: String,
    wireguard_key: Option<String>,
    wireguard_port: Option<u16>,
)
    requires
        spec_add_node(s, node_id, addr, public_key, wireguard_key, wireguard_port).1 is Ok,
    ensures
        ({
            let (s1, r) = spec_add_node(s, node_id, addr, public_key, wireguard_key, wireguard_port);
            &&& r == Ok::<u8, Seq<char>>(spec_subnet_id(node_id))
            &&& s1.nodes[node_id].subnet_id == Some(spec_subnet_id(node_id))
            &&& s1.subnets[node_id] == spec_subnet_id(node_id)
        }),
{
}

/// Subnet leases are unique: in every state that the machine reaches, two
/// different members hold different subnets.
pub proof fn law_leases_unique(s: SwarmState, a: u64, b: u64)
    requires
        state_inv(s),
        s.nodes.contains_key(a),
        s.nodes.contains_key(b),
        a != b,
    ensures
        s.subnets[a] != s.subnets[b],
        s.nodes[a].subnet_id != s.nodes[b].subnet_id,
{
}

/// A join is granted only a lease that no other member holds, and a join
/// whose lease is taken is refused with the state unchanged.
pub proof fn law_join_lease_is_fresh(
    s: SwarmState,
    node_id: u64,
    addr: String,
    public_key: String,
    wireguard_key: Option<String>,
    wireguard_port: Option<u16>,
)
    requires
        state_inv(s),
    ensures
        ({
            let (s1, r) = spec_add_node(s, node_id, addr, public_key, wireguard_key, wireguard_port);
            &&& r is Ok ==> forall|k: u64| #[trigger] s1.nodes.contains_key(k) && k != node_id
                ==> s1.nodes[k].subnet_id != Some(r->Ok_0)
            &&& (s.initialized && !s.nodes.contains_key(node_id) && subnet_leased(s, spec_subnet_id(node_id)))
                ==> (r is Err && s1 == s)
        }),
{
}

/// Adding a node and then removing it gives back the membership and subnet
/// tables, and drops the placements that named that node.
pub proof fn law_add_then_remove(
    s: SwarmState,
    node_id: u64,
    addr: String,
    public_key: String,
    wireguard_key: Option<String>,
    wireguard_port: Option<u16>,
)
    requires
        state_inv(s),
        spec_add_node(s, node_id, addr, public_key, wireguard_key, wireguard_port).1 is Ok,
    ensures
        ({
            let s1 = spec_add_node(s, node_id, addr, public_key, wireguard_key, wireguard_port).0;
            let (s2, r) = spec_remove_node(s1, node_id);
            &&& r is Ok
            &&& s2.nodes == s.nodes
            &&& s2.subnets == s.subnets
            &&& s2.placements == placements_off(s.placements, node_id)
            &&& s2.services == s.services
        }),
{
    let s1 = spec_add_node(s, node_id, addr, public_key, wireguard_key, wireguard_port).0;
    let s2 = spec_remove_node(s1, node_id).0;
    assert(s2.nodes =~= s.nodes);
    assert(s2.subnets =~= s.subnets);
}

proof fn lemma_add_keeps_inv(
    s: SwarmState,
    node_id: u64,
    addr: String,
    public_key: String,
    wireguard_key: Option<String>,
    wireguard_port: Option<u16>,
)
    requires
        state_inv(s),
    ensures
        state_inv(spec_add_node(s, node_id, addr, public_key, wireguard_key, wireguard_port).0),
{
    let s1 = spec_add_node(s, node_id, addr, public_key, wireguard_key, wireguard_port).0;
    if s.initialized && !s.nodes.contains_key(node_id) && !subnet_leased(s, spec_subnet_id(node_id)) {
        assert(s1.nodes.dom() =~= s.nodes.dom().insert(node_id));
        assert(s1.subnets.dom() =~= s1.nodes.dom());
    }
}

proof fn lemma_remove_keeps_inv(s: SwarmState, node_id: u64)
    requires
        state_inv(s),
    ensures
        state_inv(spec_remove_node(s, node_id).0),
{
    let s1 = spec_remove_node(s, node_id).0;
    if node_id != s.node_id && s.nodes.contains_key(node_id) {
        assert(s1.nodes.dom() =~= s.nodes.dom().remove(node_id));
        assert(s1.subnets.dom() =~= s1.nodes.dom());
    }
}

/// Every command keeps the state invariant: each node's record carries its
/// own id and its derived subnet, the subnet table covers exactly the
/// members, no two members share a lease, and only the local node is leader.
pub proof fn law_submit_keeps_inv(s: SwarmState, cmd: SwarmCommand, idx: u64)
    requires
        state_inv(s),
    ensures
        state_inv(spec_submit_command(s, cmd, idx).0),
{
    if s.initialized && !s.applied.contains(idx) {
        match cmd {
            SwarmCommand::AddNode { node_id, addr, public_key, wireguard_key, wireguard_port } => {
                lemma_add_keeps_inv(s, node_id, addr, public_key, wireguard_key, wireguard_port);
            },
            SwarmCommand::RegisterNode { node_id, addr, public_key } => {
                lemma_add_keeps_inv(s, node_id, addr, public_key, None, None);
            },
            SwarmCommand::RemoveNode { node_id } => {
                lemma_remove_keeps_inv(s, node_id);
            },
            SwarmCommand::DeregisterNode { node_id } => {
                lemma_remove_keeps_inv(s, node_id);
            },
            SwarmCommand::UpdateNodeEndpoint { node_id, addr, wireguard_key, wireguard_port } => {
                let s1 = spec_update_node_endpoint(s, node_id, addr, wireguard_key, wireguard_port).0;
                if s.nodes.contains_key(node_id) {
                    assert(s1.nodes.dom() =~= s.nodes.dom());
                }
            },
            _ => {},
        }
        let (s1, r) = spec_apply(s, cmd);
        if r is Ok {
            let a = s1.applied.push(idx);
            assert(a.len() <= 1001);
        }
    }
}

/// Bootstrapping makes the local node the one member and the leader.
pub proof fn law_bootstrap_makes_leader(
    s: SwarmState,
    addr: String,
    public_key: String,
    wireguard_key: Option<String>,
    wireguard_port: Option<u16>,
)
    requires
        state_inv(s),
        !s.initialized,
    ensures
        ({
            let (s1, r) = spec_bootstrap(s, addr, public_key, wireguard_key, wireguard_port);
            &&& r is Ok
            &&& s1.initialized
            &&& s1.nodes.dom() == set![s.node_id]
            &&& s1.nodes[s.node_id].is_leader
            &&& state_inv(s1)
        }),
{
    let s1 = spec_bootstrap(s, addr, public_key, wireguard_key, wireguard_port).0;
    assert(s1.nodes.dom() =~= set![s.node_id]);
    assert(s1.subnets.dom() =~= s1.nodes.dom());
}

/// In every reachable state the node table has its listing: every member
/// once, in increasing id order; so has the peer list, which leaves out the
/// local node.
pub proof fn law_members_are_listed(s: SwarmState)
    requires
        state_inv(s),
    ensures
        is_listing(listing_of(s.nodes), s.nodes),
        is_listing(peers_of(s), s.nodes.remove(s.node_id)),
{
    lemma_listing_exists(s.nodes);
    assert(s.nodes.remove(s.node_id).dom() =~= s.nodes.dom().remove(s.node_id));
    lemma_listing_exists(s.nodes.remove(s.node_id));
}

/// Updating a member's endpoint changes only what is given: an address,
/// WireGuard key or WireGuard port that is not given keeps its value, one
/// that is given replaces it, and the member keeps its id, key, subnet and
/// role. Updating a node that is not a member is refused and changes nothing.
pub proof fn law_update_keeps_what_is_not_given(
    s: SwarmState,
    node_id: u64,
    addr: Option<String>,
    wireguard_key: Option<String>,
    wireguard_port: Option<u16>,
)
    ensures
        ({
            let (s1, r) = spec_update_node_endpoint(s, node_id, addr, wireguard_key, wireguard_port);
            &&& s.nodes.contains_key(node_id) ==> {
                let (a, b) = (s.nodes[node_id], s1.nodes[node_id]);
                &&& r is Ok
                &&& s1.nodes.contains_key(node_id)
                &&& b.addr == (match addr {
                    Some(x) => x,
                    None => a.addr,
                })
                &&& b.wireguard_key == (match wireguard_key {
                    Some(k) => Some(k),
                    None => a.wireguard_key,
                })
                &&& b.wireguard_port == (match wireguard_port {
                    Some(p) => Some(p),
                    None => a.wireguard_port,
                })
                &&& b.id == a.id && b.public_key == a.public_key && b.subnet_id == a.subnet_id
                &&& b.is_leader == a.is_leader
                &&& s1.subnets == s.subnets
                &&& forall|k: u64| k != node_id ==> #[trigger] s1.nodes.get(k) == s.nodes.get(k)
            }
            &&& !s.nodes.contains_key(node_id) ==> r is Err && s1 == s
        }),
{
}

} // verus!
