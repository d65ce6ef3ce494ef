//! The membership of the gossip-era cluster: the seed hands out one subnet
//! per registering node, and every member is reached over WireGuard when it
//! runs, else over VXLAN. The tunnels and routes themselves are set up by
//! the caller from the plans made here.
use vstd::prelude::*;

use crate::str_map::StrMap;
use crate::text::{dec, join_path, path_join, push_str, push_u64, to_owned_string};

verus! {

/// A cluster member as the earlier registration protocol describes it.
#[derive(Debug, Clone)]
pub struct NodeInfo {
    pub id: String,
    pub ip: String,
    pub role: String,
    pub subnet_id: u8,
    pub wireguard_public_key: Option<String>,
    pub wireguard_port: Option<u16>,
}

impl NodeInfo {
    pub fn new(id: String, ip: String, role: String, subnet_id: u8) -> (n: Self)
        ensures
            n.id == id,
            n.ip == ip,
            n.role == role,
            n.subnet_id == subnet_id,
            n.wireguard_public_key is None,
            n.wireguard_port is None,
    {
        NodeInfo { id, ip, role, subnet_id, wireguard_public_key: None, wireguard_port: None }
    }

    pub fn with_wireguard(self, public_key: String, port: u16) -> (n: Self)
        ensures
            n.wireguard_public_key == Some(public_key),
            n.wireguard_port == Some(port),
            n.id == self.id,
            n.ip == self.ip,
            n.role == self.role,
            n.subnet_id == self.subnet_id,
    {
        let mut n = self;
        n.wireguard_public_key = Some(public_key);
        n.wireguard_port = Some(port);
        n
    }
}

fn copy_member(n: &NodeInfo) -> (r: NodeInfo)
    ensures
        r == *n,
{
    let key = match &n.wireguard_public_key {
        Some(k) => Some(k.clone()),
        None => None,
    };
    NodeInfo {
        id: n.id.clone(),
        ip: n.ip.clone(),
        role: n.role.clone(),
        subnet_id: n.subnet_id,
        wireguard_public_key: key,
        wireguard_port: n.wireguard_port,
    }
}

/// `10.42.<id>.0/24`.
pub open spec fn member_subnet(id: u8) -> Seq<char> {
    "10.42."@ + dec(id as nat) + ".0/24"@
}

fn member_subnet_text(id: u8) -> (s: String)
    ensures
        s@ == member_subnet(id),
{
    let mut s = to_owned_string("10.42.");
    push_u64(&mut s, id as u64);
    push_str(&mut s, ".0/24");
    s
}

/// A WireGuard peer to configure: its key, its endpoint `ip:port`, and the
/// subnet routed to it.
#[derive(Debug, Clone)]
pub struct WgPeer {
    pub public_key: String,
    pub endpoint: String,
    pub allowed_ip: String,
}

pub open spec fn endpoint_of(ip: Seq<char>, port: u16) -> Seq<char> {
    ip + ":"@ + dec(port as nat)
}

fn wg_peer(key: &String, ip: &str, port: u16, subnet_id: u8) -> (p: WgPeer)
    ensures
        p.public_key == *key,
        p.endpoint@ == endpoint_of(ip@, port),
        p.allowed_ip@ == member_subnet(subnet_id),
{
    let mut endpoint = to_owned_string(ip);
    push_str(&mut endpoint, ":");
    push_u64(&mut endpoint, port as u64);
    WgPeer { public_key: key.clone(), endpoint, allowed_ip: member_subnet_text(subnet_id) }
}

/// The peer configured for a member when this node learns of it: only a
/// member that gave both its key and its port.
pub fn wireguard_peer(peer: &NodeInfo) -> (r: Option<WgPeer>)
    ensures
        (peer.wireguard_public_key is Some && peer.wireguard_port is Some) <==> r is Some,
        r matches Some(p) ==> p.public_key == peer.wireguard_public_key->0 && p.endpoint@ == endpoint_of(
            peer.ip@,
            peer.wireguard_port->0,
        ) && p.allowed_ip@ == member_subnet(peer.subnet_id),
{
    match (&peer.wireguard_public_key, peer.wireguard_port) {
        (Some(key), Some(port)) => Some(wg_peer(key, peer.ip.as_str(), port, peer.subnet_id)),
        _ => None,
    }
}

/// The peer configured for a node that registers with the seed, or for the
/// seed on the joining node: any member with a key, on its port or 51820.
pub fn registration_peer(node: &NodeInfo) -> (r: Option<WgPeer>)
    ensures
        node.wireguard_public_key is Some <==> r is Some,
        r matches Some(p) ==> p.public_key == node.wireguard_public_key->0 && p.endpoint@ == endpoint_of(
            node.ip@,
            match node.wireguard_port {
                Some(port) => port,
                None => 51820u16,
            },
        ) && p.allowed_ip@ == member_subnet(node.subnet_id),
{
    match &node.wireguard_public_key {
        Some(key) => {
            let port = match node.wireguard_port {
                Some(p) => p,
                None => 51820,
            };
            Some(wg_peer(key, node.ip.as_str(), port, node.subnet_id))
        },
        None => None,
    }
}

/// How a member's subnet is reached.
#[derive(Debug, Clone)]
pub enum RoutePlan {
    /// WireGuard runs: route the member's address over `iface`, and its
    /// subnet via that address.
    WireGuard { peer_ip: String, subnet: String, iface: String },
    /// Otherwise the arguments of `ip` that add a VXLAN route.
    Vxlan { args: Vec<String> },
}

pub fn route_plan(peer: &NodeInfo, wireguard_running: bool) -> (r: RoutePlan)
    ensures
        wireguard_running ==> (r matches RoutePlan::WireGuard { peer_ip, subnet, iface } && peer_ip == peer.ip
            && subnet@ == member_subnet(peer.subnet_id) && iface@ == "vyoma-wg0"@),
        !wireguard_running ==> (r matches RoutePlan::Vxlan { args } && args@.len() == 11 && args@[0]@ == "route"@
            && args@[1]@ == "add"@ && args@[2]@ == member_subnet(peer.subnet_id) && args@[3]@ == "encap"@
            && args@[4]@ == "vxlan"@ && args@[5]@ == "id"@ && args@[6]@ == "42"@ && args@[7]@ == "dst"@
            && args@[8] == peer.ip && args@[9]@ == "dev"@ && args@[10]@ == "ign-vxlan"@),
{
    let subnet = member_subnet_text(peer.subnet_id);
    if wireguard_running {
        return RoutePlan::WireGuard { peer_ip: peer.ip.clone(), subnet, iface: to_owned_string("vyoma-wg0") };
    }
    let mut args: Vec<String> = Vec::new();
    args.push(to_owned_string("route"));
    args.push(to_owned_string("add"));
    args.push(subnet);
    args.push(to_owned_string("encap"));
    args.push(to_owned_string("vxlan"));
    args.push(to_owned_string("id"));
    args.push(to_owned_string("42"));
    args.push(to_owned_string("dst"));
    args.push(peer.ip.clone());
    args.push(to_owned_string("dev"));
    args.push(to_owned_string("ign-vxlan"));
    RoutePlan::Vxlan { args }
}

/// The membership as the seed or a member keeps it.
pub struct ClusterManager {
    self_node: Option<NodeInfo>,
    peers: StrMap<NodeInfo>,
    subnet_allocator: u8,
    data_dir: String,
}

/// What the membership holds: this node's record, the members by id, and
/// the next subnet to hand out, and where its files are kept.
pub struct ClusterView {
    pub self_node: Option<NodeInfo>,
    pub peers: Map<Seq<char>, NodeInfo>,
    pub next_subnet: u8,
    pub data_dir: String,
}

impl View for ClusterManager {
    type V = ClusterView;

    closed spec fn view(&self) -> ClusterView {
        ClusterView { self_node: self.self_node, peers: self.peers@, next_subnet: self.subnet_allocator, data_dir: self.data_dir }
    }
}

/// The seed's registration of `node`: a known member is answered with its
/// record and nothing changes; a new one gets the next subnet and is filed.
pub open spec fn spec_register(v: ClusterView, node: NodeInfo) -> (ClusterView, NodeInfo) {
    if v.peers.contains_key(node.id@) {
        (v, v.peers[node.id@])
    } else {
        let n = NodeInfo { subnet_id: v.next_subnet, ..node };
        (ClusterView { peers: v.peers.insert(node.id@, n), next_subnet: (v.next_subnet + 1) as u8, ..v }, n)
    }
}

/// Registering again is answered with the record of the first
/// registration, and changes nothing.
pub proof fn law_registration_is_idempotent(v: ClusterView, node: NodeInfo, again: NodeInfo)
    requires
        !v.peers.contains_key(node.id@),
        v.next_subnet < 255,
        again.id@ == node.id@,
    ensures
        ({
            let (v1, first) = spec_register(v, node);
            let (v2, second) = spec_register(v1, again);
            v2 == v1 && second == first
        }),
{
}

/// Two nodes that register one after the other get different subnets.
pub proof fn law_registrations_get_distinct_subnets(v: ClusterView, a: NodeInfo, b: NodeInfo)
    requires
        !v.peers.contains_key(a.id@),
        !v.peers.contains_key(b.id@),
        a.id@ != b.id@,
        v.next_subnet < 254,
    ensures
        ({
            let (v1, ra) = spec_register(v, a);
            let (v2, rb) = spec_register(v1, b);
            ra.subnet_id != rb.subnet_id
        }),
{
}

impl ClusterManager {
    /// Well-formedness: each member is filed under its own id.
    pub closed spec fn wf(&self) -> bool {
        &&& self.peers.wf()
        &&& forall|k: Seq<char>| #[trigger] self.peers@.contains_key(k) ==> self.peers@[k].id@ == k
    }

    /// The member ids in the order listings give them.
    pub closed spec fn member_order(&self) -> Seq<Seq<char>> {
        self.peers.key_seq()
    }

    pub fn new(data_dir: String) -> (c: Self)
        ensures
            c.wf(),
            c@.self_node is None,
            c@.peers == Map::<Seq<char>, NodeInfo>::empty(),
            c@.next_subnet == 1,
            c@.data_dir == data_dir,
    {
        ClusterManager { self_node: None, peers: StrMap::new(), subnet_allocator: 1, data_dir }
    }

    /// `<data_dir>/wireguard/private.key`.
    pub fn get_wireguard_key_path(&self) -> (p: String)
        ensures
            p@ == join_path(join_path(self@.data_dir@, "wireguard"@), "private.key"@),
    {
        let d = path_join(self.data_dir.as_str(), "wireguard");
        path_join(d.as_str(), "private.key")
    }

    /// Makes this node the seed: member `id` at `ip`, with subnet 1 and its
    /// WireGuard endpoint when the tunnel came up; subnets are handed out
    /// from 2 on.
    pub fn init(&mut self, id: String, ip: String, wireguard: Option<(String, u16)>) -> (r: String)
        requires
            old(self).wf(),
        ensures
            final(self).wf(),
            r == id,
            final(self)@.self_node matches Some(n) && n.id == id && n.ip == ip && n.role@ == "seed"@
                && n.subnet_id == 1 && n.wireguard_public_key == (match wireguard {
                Some(w) => Some(w.0),
                None => None,
            }) && n.wireguard_port == (match wireguard {
                Some(w) => Some(w.1),
                None => None,
            }),
            final(self)@.peers == old(self)@.peers.insert(id@, final(self)@.self_node->0),
            final(self)@.next_subnet == 2,
            final(self)@.data_dir == old(self)@.data_dir,
    {
        let (key, port) = match wireguard {
            Some((k, p)) => (Some(k), Some(p)),
            None => (None, None),
        };
        let node = NodeInfo {
            id: id.clone(),
            ip,
            role: to_owned_string("seed"),
            subnet_id: 1,
            wireguard_public_key: key,
            wireguard_port: port,
        };
        let stored = copy_member(&node);
        self.peers.insert(id.as_str(), stored);
        self.self_node = Some(node);
        self.subnet_allocator = 2;
        id
    }

    /// The member ids and records, in listing order.
    pub fn list_nodes(&self) -> (r: Vec<NodeInfo>)
        requires
            self.wf(),
        ensures
            r@.len() == self.member_order().len(),
            forall|i: int| 0 <= i < r@.len() ==> self@.peers.contains_key(#[trigger] self.member_order()[i])
                && r@[i] == self@.peers[self.member_order()[i]],
    {
        let vals = self.peers.values();
        let mut r: Vec<NodeInfo> = Vec::new();
        let mut i: usize = 0;
        while i < vals.len()
            invariant
                i <= vals@.len(),
                vals@.len() == self.peers.key_seq().len(),
                forall|j: int| 0 <= j < vals@.len() ==> self.peers@.contains_key(#[trigger] self.peers.key_seq()[j])
                    && *vals@[j] == self.peers@[self.peers.key_seq()[j]],
                r@.len() == i,
                forall|j: int| 0 <= j < i ==> #[trigger] r@[j] == *vals@[j],
            decreases vals@.len() - i,
        {
            r.push(copy_member(vals[i]));
            i = i + 1;
        }
        r
    }

    /// The seed's answer to a registration: a member already known is
    /// answered with its record as it stands; a new one is given the next
    /// subnet and filed. Either way the answer lists every member.
    pub fn handle_registration(&mut self, node: NodeInfo) -> (r: (NodeInfo, Vec<NodeInfo>))
        requires
            old(self).wf(),
            !old(self)@.peers.contains_key(node.id@) ==> old(self)@.next_subnet < 255,
        ensures
            final(self).wf(),
            (final(self)@, r.0) == spec_register(old(self)@, node),
            r.1@.len() == final(self).member_order().len(),
            forall|i: int| 0 <= i < r.1@.len() ==> final(self)@.peers.contains_key(#[trigger] final(self).member_order()[i])
                && r.1@[i] == final(self)@.peers[final(self).member_order()[i]],
    {
        match self.peers.get(node.id.as_str()) {
            Some(existing) => {
                let e = copy_member(existing);
                let all = self.list_nodes();
                return (e, all);
            },
            None => {},
        }
        let mut node = node;
        node.subnet_id = self.subnet_allocator;
        self.subnet_allocator = self.subnet_allocator + 1;
        let stored = copy_member(&node);
        self.peers.insert(node.id.as_str(), stored);
        let all = self.list_nodes();
        (node, all)
    }

    /// Files a member that this node learned of, unless it is known;
    /// whether it was new.
    pub fn add_node_notify(&mut self, node: NodeInfo) -> (added: bool)
        requires
            old(self).wf(),
        ensures
            final(self).wf(),
            final(self)@.data_dir == old(self)@.data_dir,
            added <==> !old(self)@.peers.contains_key(node.id@),
            added ==> final(self)@ == (ClusterView { peers: old(self)@.peers.insert(node.id@, node), ..old(self)@ }),
            !added ==> final(self)@ == old(self)@,
    {
        if self.peers.contains_key(node.id.as_str()) {
            return false;
        }
        let id = node.id.clone();
        self.peers.insert(id.as_str(), node);
        true
    }

    /// Records the record the seed assigned to this node.
    pub fn set_self_node(&mut self, node: NodeInfo)
        ensures
            final(self)@ == (ClusterView { self_node: Some(node), ..old(self)@ }),
            final(self).wf() == old(self).wf(),
            final(self)@.data_dir == old(self)@.data_dir,
    {
        self.self_node = Some(node);
    }

    pub fn self_node(&self) -> (r: Option<&NodeInfo>)
        ensures
            match r {
                Some(n) => self@.self_node == Some(*n),
                None => self@.self_node is None,
            },
    {
        match &self.self_node {
            Some(n) => Some(n),
            None => None,
        }
    }
}

/// The record a node sends to join: a `worker` with no subnet yet.
pub fn join_request_node(id: String, ip: String, public_key: String, port: u16) -> (n: NodeInfo)
    ensures
        n.id == id && n.ip == ip && n.role@ == "worker"@ && n.subnet_id == 0,
        n.wireguard_public_key == Some(public_key) && n.wireguard_port == Some(port),
{
    NodeInfo { id, ip, role: to_owned_string("worker"), subnet_id: 0, wireguard_public_key: Some(public_key), wireguard_port: Some(port) }
}

/// Where the seed takes registrations.
pub fn register_url(seed_ip: &str, port: &str) -> (u: String)
    ensures
        u@ == "http://"@ + seed_ip@ + ":"@ + port@ + "/swarm/register"@,
{
    let mut u = to_owned_string("http://");
    push_str(&mut u, seed_ip);
    push_str(&mut u, ":");
    push_str(&mut u, port);
    push_str(&mut u, "/swarm/register");
    u
}

/// The members a joining node connects to: every one but itself, in order.
pub fn join_targets(assigned: &NodeInfo, peers: &Vec<NodeInfo>) -> (r: Vec<NodeInfo>)
    ensures
        r@ == peers@.filter(|p: NodeInfo| p.id@ != assigned.id@),
{
    let mut r: Vec<NodeInfo> = Vec::new();
    let mut i: usize = 0;
    while i < peers.len()
        invariant
            i <= peers@.len(),
            r@ == peers@.take(i as int).filter(|p: NodeInfo| p.id@ != assigned.id@),
        decreases peers@.len() - i,
    {
        let ghost t = peers@.take(i + 1);
        assert(t.drop_last() =~= peers@.take(i as int));
        if !crate::text::str_eq(peers[i].id.as_str(), assigned.id.as_str()) {
            r.push(copy_member(&peers[i]));
        }
        reveal_with_fuel(Seq::filter, 1);
        i = i + 1;
    }
    assert(peers@.take(peers@.len() as int) =~= peers@);
    r
}

/// Where a member writes its bridge's CNI configuration:
/// `~/.ignite/cni/net.d/10-ignite-bridge.conf`; the bridge `ign0` then
/// hands out addresses of the member's subnet.
pub fn member_bridge_conf_path(home: &str) -> (p: String)
    ensures
        p@ == join_path(join_path(join_path(join_path(home@, ".ignite"@), "cni"@), "net.d"@), "10-ignite-bridge.conf"@),
{
    let a = path_join(home, ".ignite");
    let b = path_join(a.as_str(), "cni");
    let c = path_join(b.as_str(), "net.d");
    path_join(c.as_str(), "10-ignite-bridge.conf")
}

/// The subnet a member's bridge hands out addresses from.
pub fn member_bridge_subnet(subnet_id: u8) -> (s: String)
    ensures
        s@ == member_subnet(subnet_id),
{
    member_subnet_text(subnet_id)
}

/// The arguments of `ip` that create the members' VXLAN device when it is
/// missing: `link add ign-vxlan type vxlan id 42 dstport 4789 external`.
pub fn member_vxlan_add_args() -> (a: Vec<String>)
    ensures
        a@.len() == 10,
        a@[0]@ == "link"@ && a@[1]@ == "add"@ && a@[2]@ == "ign-vxlan"@ && a@[3]@ == "type"@,
        a@[4]@ == "vxlan"@ && a@[5]@ == "id"@ && a@[6]@ == "42"@ && a@[7]@ == "dstport"@,
        a@[8]@ == "4789"@ && a@[9]@ == "external"@,
{
    let mut a: Vec<String> = Vec::new();
    a.push(to_owned_string("link"));
    a.push(to_owned_string("add"));
    a.push(to_owned_string("ign-vxlan"));
    a.push(to_owned_string("type"));
    a.push(to_owned_string("vxlan"));
    a.push(to_owned_string("id"));
    a.push(to_owned_string("42"));
    a.push(to_owned_string("dstport"));
    a.push(to_owned_string("4789"));
    a.push(to_owned_string("external"));
    a
}

} // verus!
