//! Replicated cluster state: node membership, subnet assignment, VM placement
//! and services, driven by commands that a consensus log delivers in order.
use vstd::prelude::*;

use super::model::{
    is_listing, lemma_listing_is, listing_of, not_id, lemma_listing_without, peers_of, spec_subnet_id, state_inv, SideEffectView,
    SwarmState, subnet_leased,
};
use crate::ordered_map::U64Map;
use crate::str_map::StrMap;
use crate::text::{clone_opt_string, dec, push_str, push_u64, to_owned_string};

verus! {

#[derive(Debug, Clone, PartialEq)]
pub struct PortMapping {
    pub host: u16,
    pub vm: u16,
}

#[derive(Debug, Clone, PartialEq)]
pub struct ServiceSpec {
    pub image: String,
    pub replicas: u32,
    pub ports: Vec<PortMapping>,
}

#[derive(Debug, Clone, PartialEq)]
pub enum SwarmCommand {
    AddNode {
        node_id: u64,
        addr: String,
        public_key: String,
        wireguard_key: Option<String>,
        wireguard_port: Option<u16>,
    },
    RemoveNode { node_id: u64 },
    UpdateNodeEndpoint {
        node_id: u64,
        addr: Option<String>,
        wireguard_key: Option<String>,
        wireguard_port: Option<u16>,
    },
    RegisterNode { node_id: u64, addr: String, public_key: String },
    DeregisterNode { node_id: u64 },
    UpdateVmPlacement { vm_id: String, node_id: u64 },
    RemoveVmPlacement { vm_id: String },
    CreateService { name: String, spec: ServiceSpec },
    UpdateService { name: String, spec: ServiceSpec },
    DeleteService { name: String },
}

#[derive(Debug, Clone)]
pub struct NodeInfo {
    pub id: u64,
    pub addr: String,
    pub public_key: String,
    pub wireguard_key: Option<String>,
    pub wireguard_port: Option<u16>,
    pub subnet_id: Option<u8>,
    pub is_leader: bool,
}

/// The `/24` a subnet octet names.
pub open spec fn subnet_cidr(id: u8) -> Seq<char> {
    "10.42."@ + dec(id as nat) + ".0/24"@
}

impl NodeInfo {
    pub fn new(id: u64, addr: String, public_key: String) -> (n: Self)
        ensures
            n == (NodeInfo {
                id,
                addr,
                public_key,
                wireguard_key: None,
                wireguard_port: None,
                subnet_id: None,
                is_leader: false,
            }),
    {
        NodeInfo {
            id,
            addr,
            public_key,
            wireguard_key: None,
            wireguard_port: None,
            subnet_id: None,
            is_leader: false,
        }
    }

    pub fn with_wireguard(self, key: String, port: u16) -> (n: Self)
        ensures
            n == (NodeInfo { wireguard_key: Some(key), wireguard_port: Some(port), ..self }),
    {
        let mut n = self;
        n.wireguard_key = Some(key);
        n.wireguard_port = Some(port);
        n
    }

    /// The node's subnet in CIDR form, once it has one.
    pub fn subnet(&self) -> (r: Option<String>)
        ensures
            match self.subnet_id {
                Some(id) => r is Some && r->0@ == subnet_cidr(id),
                None => r is None,
            },
    {
        match self.subnet_id {
            Some(id) => {
                let mut s = to_owned_string("10.42.");
                push_u64(&mut s, id as u64);
                push_str(&mut s, ".0/24");
                Some(s)
            },
            None => None,
        }
    }
}

#[derive(Debug, Clone)]
pub struct VmPlacement {
    pub vm_id: String,
    pub node_id: u64,
}

#[derive(Debug, Clone)]
pub enum SwarmSideEffect {
    NodeAdded {
        node_id: u64,
        addr: String,
        wireguard_key: Option<String>,
        wireguard_port: Option<u16>,
        subnet_id: u8,
    },
    NodeRemoved { node_id: u64, subnet_id: u8 },
    NodeUpdated {
        node_id: u64,
        old_subnet_id: u8,
        new_addr: Option<String>,
        new_wireguard_key: Option<String>,
        new_wireguard_port: Option<u16>,
    },
    LocalNodeConfigured { node_id: u64, subnet_id: u8, peers: Vec<NodeInfo> },
}

impl View for SwarmSideEffect {
    type V = SideEffectView;

    open spec fn view(&self) -> SideEffectView {
        match self {
            SwarmSideEffect::NodeAdded { node_id, addr, wireguard_key, wireguard_port, subnet_id } =>
                SideEffectView::NodeAdded {
                node_id: *node_id,
                addr: *addr,
                wireguard_key: *wireguard_key,
                wireguard_port: *wireguard_port,
                subnet_id: *subnet_id,
            },
            SwarmSideEffect::NodeRemoved { node_id, subnet_id } => SideEffectView::NodeRemoved {
                node_id: *node_id,
                subnet_id: *subnet_id,
            },
            SwarmSideEffect::NodeUpdated {
                node_id,
                old_subnet_id,
                new_addr,
                new_wireguard_key,
                new_wireguard_port,
            } => SideEffectView::NodeUpdated {
                node_id: *node_id,
                old_subnet_id: *old_subnet_id,
                new_addr: *new_addr,
                new_wireguard_key: *new_wireguard_key,
                new_wireguard_port: *new_wireguard_port,
            },
            SwarmSideEffect::LocalNodeConfigured { node_id, subnet_id, peers } =>
                SideEffectView::LocalNodeConfigured {
                node_id: *node_id,
                subnet_id: *subnet_id,
                peers: peers@,
            },
        }
    }
}

// ---------------------------------------------------------------- transitions

/// The node record that joining with these arguments creates; the WireGuard
/// endpoint is kept only when both its key and its port are given.
pub open spec fn joined_node(
    id: u64,
    addr: String,
    public_key: String,
    wireguard_key: Option<String>,
    wireguard_port: Option<u16>,
    is_leader: bool,
) -> NodeInfo {
    let both = wireguard_key is Some && wireguard_port is Some;
    NodeInfo {
        id,
        addr,
        public_key,
        wireguard_key: if both { wireguard_key } else { None },
        wireguard_port: if both { wireguard_port } else { None },
        subnet_id: Some(spec_subnet_id(id)),
        is_leader,
    }
}

/// The announcement of the local node's configuration after a membership change.
pub open spec fn local_configured(s: SwarmState) -> SideEffectView {
    SideEffectView::LocalNodeConfigured {
        node_id: s.node_id,
        subnet_id: if s.subnets.contains_key(s.node_id) { s.subnets[s.node_id] } else { 1 },
        peers: peers_of(s),
    }
}

pub open spec fn spec_bootstrap(
    s: SwarmState,
    addr: String,
    public_key: String,
    wireguard_key: Option<String>,
    wireguard_port: Option<u16>,
) -> (SwarmState, Result<(), Seq<char>>) {
    if s.initialized {
        (s, Err("Already initialized"@))
    } else {
        let sub = spec_subnet_id(s.node_id);
        let node = joined_node(s.node_id, addr, public_key, wireguard_key, wireguard_port, true);
        (
            SwarmState {
                initialized: true,
                nodes: s.nodes.insert(s.node_id, node),
                subnets: s.subnets.insert(s.node_id, sub),
                effects: s.effects.push(
                    SideEffectView::LocalNodeConfigured {
                        node_id: s.node_id,
                        subnet_id: sub,
                        peers: Seq::empty(),
                    },
                ),
                ..s
            },
            Ok(()),
        )
    }
}

pub open spec fn spec_add_node(
    s: SwarmState,
    node_id: u64,
    addr: String,
    public_key: String,
    wireguard_key: Option<String>,
    wireguard_port: Option<u16>,
) -> (SwarmState, Result<u8, Seq<char>>) {
    if !s.initialized {
        (s, Err("Cluster not initialized"@))
    } else if s.nodes.contains_key(node_id) {
        (s, Err("Node "@ + dec(node_id as nat) + " already exists"@))
    } else if subnet_leased(s, spec_subnet_id(node_id)) {
        (s, Err(lease_taken_message(spec_subnet_id(node_id))))
    } else {
        let sub = spec_subnet_id(node_id);
        let node = joined_node(node_id, addr, public_key, wireguard_key, wireguard_port, false);
        let s1 = SwarmState {
            nodes: s.nodes.insert(node_id, node),
            subnets: s.subnets.insert(node_id, sub),
            ..s
        };
        let added = SideEffectView::NodeAdded {
            node_id,
            addr,
            wireguard_key,
            wireguard_port,
            subnet_id: sub,
        };
        (SwarmState { effects: s.effects.push(added).push(local_configured(s1)), ..s1 }, Ok(sub))
    }
}

/// The refusal of a join whose subnet is already leased to another node.
pub open spec fn lease_taken_message(sub: u8) -> Seq<char> {
    "Subnet 10.42."@ + dec(sub as nat) + ".0/24 is already leased to another node"@
}

pub open spec fn spec_remove_node(s: SwarmState, node_id: u64) -> (SwarmState, Result<(), Seq<char>>) {
    if node_id == s.node_id {
        (s, Err("Cannot remove self"@))
    } else if !s.nodes.contains_key(node_id) {
        (s, Err("Node "@ + dec(node_id as nat) + " not found"@))
    } else {
        let sub = if s.subnets.contains_key(node_id) { s.subnets[node_id] } else { 0 };
        let s1 = SwarmState {
            nodes: s.nodes.remove(node_id),
            subnets: s.subnets.remove(node_id),
            placements: placements_off(s.placements, node_id),
            ..s
        };
        let removed = SideEffectView::NodeRemoved { node_id, subnet_id: sub };
        (SwarmState { effects: s.effects.push(removed).push(local_configured(s1)), ..s1 }, Ok(()))
    }
}

/// The placements that do not name `node_id`.
pub open spec fn placements_off(m: Map<Seq<char>, VmPlacement>, node_id: u64) -> Map<Seq<char>, VmPlacement> {
    m.filter_keys(|k: Seq<char>| m[k].node_id != node_id)
}

pub open spec fn spec_update_node_endpoint(
    s: SwarmState,
    node_id: u64,
    addr: Option<String>,
    wireguard_key: Option<String>,
    wireguard_port: Option<u16>,
) -> (SwarmState, Result<(), Seq<char>>) {
    if !s.nodes.contains_key(node_id) {
        (s, Err("Node not found"@))
    } else {
        let n = s.nodes[node_id];
        let old_sub = match n.subnet_id {
            Some(x) => x,
            None => 0,
        };
        let n1 = NodeInfo {
            addr: match addr {
                Some(a) => a,
                None => n.addr,
            },
            wireguard_key: if wireguard_key is Some { wireguard_key } else { n.wireguard_key },
            wireguard_port: if wireguard_port is Some { wireguard_port } else { n.wireguard_port },
            ..n
        };
        let updated = SideEffectView::NodeUpdated {
            node_id,
            old_subnet_id: old_sub,
            new_addr: addr,
            new_wireguard_key: wireguard_key,
            new_wireguard_port: wireguard_port,
        };
        (
            SwarmState { nodes: s.nodes.insert(node_id, n1), effects: s.effects.push(updated), ..s },
            Ok(()),
        )
    }
}

/// Without its result: the state change a command makes.
pub open spec fn spec_apply(s: SwarmState, cmd: SwarmCommand) -> (SwarmState, Result<(), Seq<char>>) {
    match cmd {
        SwarmCommand::AddNode { node_id, addr, public_key, wireguard_key, wireguard_port } => {
            let (s1, r) = spec_add_node(s, node_id, addr, public_key, wireguard_key, wireguard_port);
            (s1, match r {
                Ok(_) => Ok(()),
                Err(e) => Err(e),
            })
        },
        SwarmCommand::RemoveNode { node_id } => spec_remove_node(s, node_id),
        SwarmCommand::UpdateNodeEndpoint { node_id, addr, wireguard_key, wireguard_port } =>
            spec_update_node_endpoint(s, node_id, addr, wireguard_key, wireguard_port),
        SwarmCommand::RegisterNode { node_id, addr, public_key } => {
            let (s1, r) = spec_add_node(s, node_id, addr, public_key, None, None);
            (s1, match r {
                Ok(_) => Ok(()),
                Err(e) => Err(e),
            })
        },
        SwarmCommand::DeregisterNode { node_id } => spec_remove_node(s, node_id),
        SwarmCommand::UpdateVmPlacement { vm_id, node_id } => (
            SwarmState {
                placements: s.placements.insert(vm_id@, VmPlacement { vm_id, node_id }),
                ..s
            },
            Ok(()),
        ),
        SwarmCommand::RemoveVmPlacement { vm_id } => (
            SwarmState { placements: s.placements.remove(vm_id@), ..s },
            Ok(()),
        ),
        SwarmCommand::CreateService { name, spec } => (
            SwarmState { services: s.services.insert(name@, spec), ..s },
            Ok(()),
        ),
        SwarmCommand::UpdateService { name, spec } => (
            SwarmState { services: s.services.insert(name@, spec), ..s },
            Ok(()),
        ),
        SwarmCommand::DeleteService { name } => (
            SwarmState { services: s.services.remove(name@), ..s },
            Ok(()),
        ),
    }
}

/// The window of remembered command indices after `idx` is recorded: the
/// oldest 500 are dropped once more than 1000 are held.
pub open spec fn record_applied(applied: Seq<u64>, idx: u64) -> Seq<u64> {
    let a = applied.push(idx);
    if a.len() > 1000 {
        a.skip(500)
    } else {
        a
    }
}

pub open spec fn spec_submit_command(s: SwarmState, cmd: SwarmCommand, idx: u64) -> (SwarmState, Result<(), Seq<char>>) {
    if !s.initialized {
        (s, Err("Cluster not initialized"@))
    } else if s.applied.contains(idx) {
        (s, Ok(()))
    } else {
        let (s1, r) = spec_apply(s, cmd);
        match r {
            Err(e) => (s1, Err(e)),
            Ok(_) => (SwarmState { applied: record_applied(s1.applied, idx), ..s1 }, Ok(())),
        }
    }
}

// ---------------------------------------------------------------- the machine

/// Cluster membership and placement state, replicated by applying the
/// committed commands in log order.
pub struct SwarmRaft {
    node_id: u64,
    nodes: U64Map<NodeInfo>,
    vm_placements: StrMap<VmPlacement>,
    services: StrMap<ServiceSpec>,
    subnet_map: U64Map<u8>,
    is_initialized: bool,
    last_applied_index: u64,
    applied_commands: Vec<u64>,
    pending_effects: Vec<SwarmSideEffect>,
}

impl View for SwarmRaft {
    type V = SwarmState;

    closed spec fn view(&self) -> SwarmState {
        SwarmState {
            node_id: self.node_id,
            initialized: self.is_initialized,
            nodes: self.nodes@,
            subnets: self.subnet_map@,
            placements: self.vm_placements@,
            services: self.services@,
            last_applied: self.last_applied_index,
            applied: self.applied_commands@,
            effects: self.pending_effects@.map_values(|e: SwarmSideEffect| e@),
        }
    }
}


fn clone_node(n: &NodeInfo) -> (r: NodeInfo)
    ensures
        r == *n,
{
    NodeInfo {
        id: n.id,
        addr: n.addr.clone(),
        public_key: n.public_key.clone(),
        wireguard_key: clone_opt_string(&n.wireguard_key),
        wireguard_port: n.wireguard_port,
        subnet_id: n.subnet_id,
        is_leader: n.is_leader,
    }
}


/// Drops every placement on `node_id`.
fn drop_placements_on(m: &mut StrMap<VmPlacement>, node_id: u64)
    requires
        old(m).wf(),
    ensures
        final(m).wf(),
        final(m)@ == placements_off(old(m)@, node_id),
{
    let ghost m0 = m@;
    let mut doomed: Vec<String> = Vec::new();
    {
        let pairs = m.iter_pairs();
        let mut i: usize = 0;
        while i < pairs.len()
            invariant
                m.wf(),
                m@ == m0,
                pairs@.len() == m.key_seq().len(),
                forall|j: int| 0 <= j < pairs@.len() ==> pairs@[j].0@ == #[trigger] m.key_seq()[j] && m@.contains_key(m.key_seq()[j]) && *pairs@[j].1 == m@[m.key_seq()[j]],
                i <= pairs@.len(),
                forall|j: int| 0 <= j < doomed@.len() ==> m0.contains_key(#[trigger] doomed@[j]@) && m0[doomed@[j]@].node_id == node_id,
                forall|j: int| 0 <= j < i && #[trigger] pairs@[j].1.node_id == node_id ==> exists|t: int| 0 <= t < doomed@.len() && doomed@[t]@ == pairs@[j].0@,
            decreases pairs@.len() - i,
        {
            let (k, p) = pairs[i];
            let ghost d0 = doomed@;
            assert(pairs@[i as int].0@ == m.key_seq()[i as int]);
            if p.node_id == node_id {
                doomed.push(k.clone());
                assert(doomed@[doomed@.len() - 1]@ == pairs@[i as int].0@);
            }
            assert forall|t: int| 0 <= t < d0.len() implies doomed@[t] == d0[t] by {}
            assert forall|j: int| 0 <= j < i + 1 && #[trigger] pairs@[j].1.node_id == node_id implies exists|t: int| 0 <= t < doomed@.len() && doomed@[t]@ == pairs@[j].0@ by {
                if j < i {
                    let t = choose|t: int| 0 <= t < d0.len() && d0[t]@ == pairs@[j].0@;
                    assert(doomed@[t]@ == pairs@[j].0@);
                } else {
                    assert(doomed@[doomed@.len() - 1]@ == pairs@[j].0@);
                }
            }
            i = i + 1;
        }
        proof {
            m.lemma_key_seq();
            assert forall|k: Seq<char>| m0.contains_key(k) && m0[k].node_id == node_id implies exists|t: int| 0 <= t < doomed@.len() && doomed@[t]@ == k by {
                assert(m.key_seq().contains(k));
                let j = choose|j: int| 0 <= j < m.key_seq().len() && m.key_seq()[j] == k;
                assert(pairs@[j].1.node_id == node_id);
            }
        }
    }
    let mut t: usize = 0;
    while t < doomed.len()
        invariant
            m.wf(),
            t <= doomed@.len(),
            forall|j: int| 0 <= j < doomed@.len() ==> m0.contains_key(#[trigger] doomed@[j]@) && m0[doomed@[j]@].node_id == node_id,
            forall|k: Seq<char>| m0.contains_key(k) && m0[k].node_id == node_id ==> exists|j: int| 0 <= j < doomed@.len() && doomed@[j]@ == k,
            forall|k: Seq<char>| #[trigger] m@.contains_key(k) <==> (m0.contains_key(k) && !(exists|j: int| 0 <= j < t && doomed@[j]@ == k)),
            forall|k: Seq<char>| #[trigger] m@.contains_key(k) ==> m@[k] == m0[k],
        decreases doomed@.len() - t,
    {
        let ghost before = m@;
        m.remove(doomed[t].as_str());
        proof {
            assert forall|k: Seq<char>| #[trigger] m@.contains_key(k) <==> (m0.contains_key(k) && !(exists|j: int| 0 <= j < t + 1 && doomed@[j]@ == k)) by {
                if m0.contains_key(k) && !(exists|j: int| 0 <= j < t + 1 && doomed@[j]@ == k) {
                    assert(!(exists|j: int| 0 <= j < t && doomed@[j]@ == k));
                    assert(before.contains_key(k));
                    assert(doomed@[t as int]@ != k);
                }
                if m@.contains_key(k) {
                    assert(k != doomed@[t as int]@);
                    assert(before.contains_key(k));
                    assert forall|j: int| 0 <= j < t + 1 implies doomed@[j]@ != k by {
                        if j < t {
                            assert(!(exists|jj: int| 0 <= jj < t && doomed@[jj]@ == k));
                        }
                    }
                }
            }
        }
        t = t + 1;
    }
    proof {
        let target = placements_off(m0, node_id);
        assert forall|k: Seq<char>| m@.contains_key(k) <==> target.contains_key(k) by {
            if m0.contains_key(k) && m0[k].node_id == node_id {
                let j = choose|j: int| 0 <= j < doomed@.len() && doomed@[j]@ == k;
                assert(!m@.contains_key(k));
            }
            if m@.contains_key(k) {
                if m0[k].node_id == node_id {
                    let j = choose|j: int| 0 <= j < doomed@.len() && doomed@[j]@ == k;
                    assert(false);
                }
            }
            if m0.contains_key(k) && m0[k].node_id != node_id {
                assert forall|j: int| 0 <= j < doomed@.len() implies doomed@[j]@ != k by {
                    assert(m0[doomed@[j]@].node_id == node_id);
                }
            }
        }
        assert(m@ =~= target);
    }
}

impl SwarmRaft {
    closed spec fn maps_wf(&self) -> bool {
        &&& self.nodes.wf()
        &&& self.subnet_map.wf()
        &&& self.vm_placements.wf()
        &&& self.services.wf()
    }

    /// Well-formedness: the containers are well formed and the state
    /// satisfies `state_inv`.
    pub closed spec fn wf(&self) -> bool {
        &&& self.maps_wf()
        &&& state_inv(self@)
    }

    /// A well-formed swarm satisfies the state invariant.
    pub proof fn lemma_inv(&self)
        requires
            self.wf(),
        ensures
            state_inv(self@),
    {
    }

    pub fn new(node_id: u64) -> (r: Self)
        ensures
            r.wf(),
            r@ == (SwarmState {
                node_id,
                initialized: false,
                nodes: Map::empty(),
                subnets: Map::empty(),
                placements: Map::empty(),
                services: Map::empty(),
                last_applied: 0,
                applied: Seq::empty(),
                effects: Seq::empty(),
            }),
    {
        let r = SwarmRaft {
            node_id,
            nodes: U64Map::new(),
            vm_placements: StrMap::new(),
            services: StrMap::new(),
            subnet_map: U64Map::new(),
            is_initialized: false,
            last_applied_index: 0,
            applied_commands: Vec::new(),
            pending_effects: Vec::new(),
        };
        assert(r@.effects =~= Seq::<SideEffectView>::empty());
        assert(r@.nodes.dom() =~= Set::<u64>::empty());
        assert(r@.subnets.dom() =~= r@.nodes.dom());
        r
    }

    pub fn node_id(&self) -> (r: u64)
        ensures
            r == self@.node_id,
    {
        self.node_id
    }

    pub fn is_initialized(&self) -> (r: bool)
        ensures
            r == self@.initialized,
    {
        self.is_initialized
    }

    pub fn last_applied_index(&self) -> (r: u64)
        ensures
            r == self@.last_applied,
    {
        self.last_applied_index
    }

    pub fn set_last_applied_index(&mut self, index: u64)
        requires
            old(self).wf(),
        ensures
            final(self).wf(),
            final(self)@ == (SwarmState { last_applied: index, ..old(self)@ }),
    {
        self.last_applied_index = index;
    }

    pub fn compute_subnet_id(node_id: u64) -> (r: u8)
        ensures
            r == spec_subnet_id(node_id),
    {
        if node_id == 0 {
            return 1;
        }
        ((node_id % 254) + 1) as u8
    }

    fn allocate_subnet(&mut self, node_id: u64) -> (r: u8)
        requires
            old(self).maps_wf(),
            forall|k: u64| #[trigger] old(self)@.subnets.contains_key(k) ==> old(self)@.subnets[k] == spec_subnet_id(k),
        ensures
            final(self).maps_wf(),
            r == spec_subnet_id(node_id),
            final(self)@ == (SwarmState { subnets: old(self)@.subnets.insert(node_id, r), ..old(self)@ }),
    {
        if let Some(existing) = self.subnet_map.get(node_id) {
            let e = *existing;
            assert(self@.subnets.insert(node_id, e) =~= self@.subnets);
            return e;
        }
        let subnet_id = Self::compute_subnet_id(node_id);
        self.subnet_map.insert(node_id, subnet_id);
        subnet_id
    }

    /// Whether some node already holds the lease on `sub`.
    fn subnet_in_use(&self, sub: u8) -> (b: bool)
        requires
            self.maps_wf(),
        ensures
            b == subnet_leased(self@, sub),
    {
        let vals = self.subnet_map.values();
        proof {
            self.subnet_map.lemma_key_seq();
        }
        let ghost keys = self.subnet_map.key_seq();
        let mut i: usize = 0;
        while i < vals.len()
            invariant
                self.maps_wf(),
                keys == self.subnet_map.key_seq(),
                vals@.len() == keys.len(),
                forall|j: int| 0 <= j < vals@.len() ==> self@.subnets.contains_key(#[trigger] keys[j]) && *vals@[j] == self@.subnets[keys[j]],
                forall|j: int| 0 <= j < i ==> *vals@[j] != sub,
                i <= vals@.len(),
            decreases vals@.len() - i,
        {
            if *vals[i] == sub {
                proof {
                    let k = keys[i as int];
                    assert(self@.subnets.contains_key(k) && self@.subnets[k] == sub);
                }
                return true;
            }
            i = i + 1;
        }
        proof {
            assert forall|k: u64| #[trigger] self@.subnets.contains_key(k) implies self@.subnets[k] != sub by {
                assert(keys.contains(k));
                let j = choose|j: int| 0 <= j < keys.len() && keys[j] == k;
                assert(*vals@[j] != sub);
            }
        }
        false
    }

    fn trigger_side_effect(&mut self, effect: SwarmSideEffect)
        ensures
            final(self)@ == (SwarmState { effects: old(self)@.effects.push(effect@), ..old(self)@ }),
            final(self).maps_wf() == old(self).maps_wf(),
            final(self).nodes == old(self).nodes,
            final(self).subnet_map == old(self).subnet_map,
            final(self).node_id == old(self).node_id,
    {
        self.pending_effects.push(effect);
        assert(self.pending_effects@.map_values(|e: SwarmSideEffect| e@) =~= old(self).pending_effects@.map_values(
            |e: SwarmSideEffect| e@,
        ).push(effect@));
    }

    /// Hands out the side effects emitted so far, oldest first, and forgets them.
    pub fn take_side_effects(&mut self) -> (r: Vec<SwarmSideEffect>)
        requires
            old(self).wf(),
        ensures
            final(self).wf(),
            r@.map_values(|e: SwarmSideEffect| e@) == old(self)@.effects,
            final(self)@ == (SwarmState { effects: Seq::empty(), ..old(self)@ }),
    {
        let mut r: Vec<SwarmSideEffect> = Vec::new();
        std::mem::swap(&mut r, &mut self.pending_effects);
        assert(self@.effects =~= Seq::<SideEffectView>::empty());
        r
    }

    /// The nodes other than this one, in increasing id order.
    fn peer_list(&self) -> (r: Vec<NodeInfo>)
        requires
            self.nodes.wf(),
            forall|k: u64| #[trigger] self@.nodes.contains_key(k) ==> self@.nodes[k].id == k,
        ensures
            r@ == peers_of(self@),
    {
        let all = self.nodes.values();
        proof {
            self.nodes.lemma_key_seq();
        }
        let ghost p = all@.map_values(|x: &NodeInfo| *x);
        assert(is_listing(p, self@.nodes)) by {
            assert forall|i: int| 0 <= i < p.len() implies p[i].id == self.nodes.key_seq()[i] && self@.nodes.contains_key(#[trigger] p[i].id) && self@.nodes[p[i].id] == p[i] by {
                assert(p[i] == *all@[i]);
                assert(self@.nodes.contains_key(self.nodes.key_seq()[i]));
            }
            assert forall|i: int, j: int| 0 <= i < j < p.len() implies #[trigger] p[i].id < #[trigger] p[j].id by {
                assert(p[i].id == self.nodes.key_seq()[i]);
                assert(p[j].id == self.nodes.key_seq()[j]);
            }
            assert forall|k: u64| #[trigger] self@.nodes.contains_key(k) implies exists|i: int| 0 <= i < p.len() && p[i].id == k by {
                assert(self.nodes.key_seq().contains(k));
                let i = choose|i: int| 0 <= i < self.nodes.key_seq().len() && self.nodes.key_seq()[i] == k;
                assert(p[i] == *all@[i]);
                assert(p[i].id == self.nodes.key_seq()[i]);
            }
        }
        let ghost pred = not_id(self.node_id);
        let mut r: Vec<NodeInfo> = Vec::new();
        let mut i: usize = 0;
        while i < all.len()
            invariant
                p == all@.map_values(|x: &NodeInfo| *x),
                i <= all@.len(),
                pred == not_id(self.node_id),
                r@ == p.take(i as int).filter(pred),
            decreases all@.len() - i,
        {
            let n = all[i];
            assert(p.take(i + 1).drop_last() =~= p.take(i as int));
            assert(p.take(i + 1).last() == *n);
            reveal_with_fuel(Seq::filter, 1);
            if n.id != self.node_id {
                r.push(clone_node(n));
            }
            i = i + 1;
        }
        proof {
            assert(p.take(all@.len() as int) =~= p);
            lemma_listing_without(p, self@.nodes, self.node_id);
            lemma_listing_is(r@, self@.nodes.remove(self.node_id));
        }
        r
    }

    pub fn bootstrap(
        &mut self,
        addr: String,
        public_key: String,
        wireguard_key: Option<String>,
        wireguard_port: Option<u16>,
    ) -> (r: Result<(), String>)
        requires
            old(self).wf(),
        ensures
            final(self).wf(),
            ({
                let (s, res) = spec_bootstrap(old(self)@, addr, public_key, wireguard_key, wireguard_port);
                &&& final(self)@ == s
                &&& match r {
                    Ok(()) => res is Ok,
                    Err(e) => res is Err && e@ == res->Err_0,
                }
            }),
    {
        if self.is_initialized {
            return Err(to_owned_string("Already initialized"));
        }
        let ghost s0 = self@;
        let subnet_id = self.allocate_subnet(self.node_id);
        let mut node = NodeInfo::new(self.node_id, addr, public_key);
        node.is_leader = true;
        node.subnet_id = Some(subnet_id);
        match (wireguard_key, wireguard_port) {
            (Some(key), Some(port)) => {
                node = node.with_wireguard(key, port);
            },
            _ => {},
        }
        self.nodes.insert(self.node_id, node);
        self.is_initialized = true;
        self.trigger_side_effect(
            SwarmSideEffect::LocalNodeConfigured { node_id: self.node_id, subnet_id, peers: Vec::new() },
        );
        proof {
            let (s, res) = spec_bootstrap(s0, addr, public_key, wireguard_key, wireguard_port);
            assert(self@.nodes =~= s.nodes);
            assert(self@.effects =~= s.effects);
            assert(self@.nodes.dom() =~= s0.nodes.dom().insert(s0.node_id));
            assert(self@.subnets.dom() =~= self@.nodes.dom());
        }
        Ok(())
    }

    /// Admits a node with the subnet its id determines. Subnet leases are
    /// unique across the swarm: a node whose subnet another member already
    /// holds (ids that agree modulo 254) is refused, where a plain
    /// derivation from the id would hand out the same lease twice.
    pub fn add_node(
        &mut self,
        node_id: u64,
        addr: String,
        public_key: String,
        wireguard_key: Option<String>,
        wireguard_port: Option<u16>,
    ) -> (r: Result<u8, String>)
        requires
            old(self).wf(),
        ensures
            final(self).wf(),
            ({
                let (s, res) = spec_add_node(old(self)@, node_id, addr, public_key, wireguard_key, wireguard_port);
                &&& final(self)@ == s
                &&& match r {
                    Ok(v) => res == Ok::<u8, Seq<char>>(v),
                    Err(e) => res is Err && e@ == res->Err_0,
                }
            }),
    {
        if !self.is_initialized {
            return Err(to_owned_string("Cluster not initialized"));
        }
        if self.nodes.contains_key(node_id) {
            let mut e = to_owned_string("Node ");
            push_u64(&mut e, node_id);
            push_str(&mut e, " already exists");
            return Err(e);
        }
        let wanted = Self::compute_subnet_id(node_id);
        if self.subnet_in_use(wanted) {
            let mut e = to_owned_string("Subnet 10.42.");
            push_u64(&mut e, wanted as u64);
            push_str(&mut e, ".0/24 is already leased to another node");
            return Err(e);
        }
        let ghost s0 = self@;
        let subnet_id = self.allocate_subnet(node_id);
        let wg_key = clone_opt_string(&wireguard_key);
        let wg_port = wireguard_port;
        let addr_clone = addr.clone();
        let mut node = NodeInfo::new(node_id, addr, public_key);
        node.subnet_id = Some(subnet_id);
        match (wg_key, wg_port) {
            (Some(key), Some(port)) => {
                node = node.with_wireguard(key, port);
            },
            _ => {},
        }
        self.nodes.insert(node_id, node);
        let ghost s1 = self@;
        self.trigger_side_effect(
            SwarmSideEffect::NodeAdded {
                node_id,
                addr: addr_clone,
                wireguard_key,
                wireguard_port,
                subnet_id,
            },
        );
        proof {
            assert(self@.nodes.dom() =~= s0.nodes.dom().insert(node_id));
            assert(self@.subnets.dom() =~= self@.nodes.dom());
        }
        let self_subnet = match self.subnet_map.get(self.node_id) {
            Some(v) => *v,
            None => 1,
        };
        let peers = self.peer_list();
        self.trigger_side_effect(
            SwarmSideEffect::LocalNodeConfigured { node_id: self.node_id, subnet_id: self_subnet, peers },
        );
        proof {
            let (s, res) = spec_add_node(s0, node_id, addr, public_key, wireguard_key, wireguard_port);
            assert(self@.nodes =~= s.nodes);
            assert(local_configured(s1) == local_configured(SwarmState { effects: s1.effects, ..s1 }));
            assert(self@.effects =~= s.effects);
        }
        Ok(subnet_id)
    }

    pub fn remove_node(&mut self, node_id: u64) -> (r: Result<(), String>)
        requires
            old(self).wf(),
        ensures
            final(self).wf(),
            ({
                let (s, res) = spec_remove_node(old(self)@, node_id);
                &&& final(self)@ == s
                &&& match r {
                    Ok(()) => res is Ok,
                    Err(e) => res is Err && e@ == res->Err_0,
                }
            }),
    {
        if node_id == self.node_id {
            return Err(to_owned_string("Cannot remove self"));
        }
        if !self.nodes.contains_key(node_id) {
            let mut e = to_owned_string("Node ");
            push_u64(&mut e, node_id);
            push_str(&mut e, " not found");
            return Err(e);
        }
        let ghost s0 = self@;
        let subnet_id = match self.subnet_map.get(node_id) {
            Some(v) => *v,
            None => 0,
        };
        self.nodes.remove(node_id);
        self.subnet_map.remove(node_id);
        drop_placements_on(&mut self.vm_placements, node_id);
        let ghost s1 = self@;
        self.trigger_side_effect(SwarmSideEffect::NodeRemoved { node_id, subnet_id });
        proof {
            assert(self@.nodes.dom() =~= s0.nodes.dom().remove(node_id));
            assert(self@.subnets.dom() =~= self@.nodes.dom());
        }
        let self_subnet = match self.subnet_map.get(self.node_id) {
            Some(v) => *v,
            None => 1,
        };
        let peers = self.peer_list();
        self.trigger_side_effect(
            SwarmSideEffect::LocalNodeConfigured { node_id: self.node_id, subnet_id: self_subnet, peers },
        );
        proof {
            let (s, res) = spec_remove_node(s0, node_id);
            assert(local_configured(s1) == local_configured(SwarmState { effects: s1.effects, ..s1 }));
            assert(self@.effects =~= s.effects);
            assert(forall|k: Seq<char>| #[trigger] self@.placements.contains_key(k) ==> s0.placements.contains_key(k));
        }
        Ok(())
    }

    pub fn update_node_endpoint(
        &mut self,
        node_id: u64,
        addr: Option<String>,
        wireguard_key: Option<String>,
        wireguard_port: Option<u16>,
    ) -> (r: Result<(), String>)
        requires
            old(self).wf(),
        ensures
            final(self).wf(),
            ({
                let (s, res) = spec_update_node_endpoint(old(self)@, node_id, addr, wireguard_key, wireguard_port);
                &&& final(self)@ == s
                &&& match r {
                    Ok(()) => res is Ok,
                    Err(e) => res is Err && e@ == res->Err_0,
                }
            }),
            old(self)@.nodes.contains_key(node_id) ==> {
                let (a, b) = (old(self)@.nodes[node_id], final(self)@.nodes[node_id]);
                &&& r is Ok
                &&& final(self)@.nodes.contains_key(node_id)
                &&& b.addr == (match addr {
                    Some(x) => x,
                    None => a.addr,
                })
                &&& b.wireguard_key == (match wireguard_key {
                    Some(k) => Some(k),
                    None => a.wireguard_key,
                })
                &&& b.wireguard_port == (match wireguard_port {
                    Some(p) => Some(p),
                    None => a.wireguard_port,
                })
                &&& b.id == a.id && b.public_key == a.public_key && b.subnet_id == a.subnet_id
                &&& b.is_leader == a.is_leader
                &&& final(self)@.subnets == old(self)@.subnets
            },
            !old(self)@.nodes.contains_key(node_id) ==> r is Err && final(self)@ == old(self)@,
    {
        proof {
            crate::swarm::laws::law_update_keeps_what_is_not_given(old(self)@, node_id, addr, wireguard_key, wireguard_port);
        }
        let mut node = match self.nodes.get(node_id) {
            Some(n) => clone_node(n),
            None => {
                return Err(to_owned_string("Node not found"));
            },
        };
        let ghost s0 = self@;
        let old_subnet_id = match node.subnet_id {
            Some(x) => x,
            None => 0,
        };
        let mut new_addr_to_set: Option<String> = None;
        let mut new_wg_key_to_set: Option<String> = None;
        let mut new_wg_port_to_set: Option<u16> = None;
        if let Some(new_addr) = &addr {
            new_addr_to_set = Some(new_addr.clone());
            node.addr = new_addr.clone();
        }
        if let Some(key) = &wireguard_key {
            new_wg_key_to_set = Some(key.clone());
            node.wireguard_key = Some(key.clone());
        }
        if let Some(port) = wireguard_port {
            new_wg_port_to_set = Some(port);
            node.wireguard_port = Some(port);
        }
        self.nodes.insert(node_id, node);
        self.trigger_side_effect(
            SwarmSideEffect::NodeUpdated {
                node_id,
                old_subnet_id,
                new_addr: new_addr_to_set,
                new_wireguard_key: new_wg_key_to_set,
                new_wireguard_port: new_wg_port_to_set,
            },
        );
        proof {
            assert(self@.nodes.dom() =~= s0.nodes.dom());
            let (s, res) = spec_update_node_endpoint(s0, node_id, addr, wireguard_key, wireguard_port);
            assert(self@.nodes =~= s.nodes);
        }
        Ok(())
    }

    fn apply_command(&mut self, cmd: SwarmCommand) -> (r: Result<(), String>)
        requires
            old(self).wf(),
        ensures
            final(self).wf(),
            ({
                let (s, res) = spec_apply(old(self)@, cmd);
                &&& final(self)@ == s
                &&& match r {
                    Ok(()) => res is Ok,
                    Err(e) => res is Err && e@ == res->Err_0,
                }
            }),
    {
        match cmd {
            SwarmCommand::AddNode { node_id, addr, public_key, wireguard_key, wireguard_port } => {
                match self.add_node(node_id, addr, public_key, wireguard_key, wireguard_port) {
                    Ok(_) => Ok(()),
                    Err(e) => Err(e),
                }
            },
            SwarmCommand::RemoveNode { node_id } => self.remove_node(node_id),
            SwarmCommand::UpdateNodeEndpoint { node_id, addr, wireguard_key, wireguard_port } => {
                self.update_node_endpoint(node_id, addr, wireguard_key, wireguard_port)
            },
            SwarmCommand::RegisterNode { node_id, addr, public_key } => {
                match self.add_node(node_id, addr, public_key, None, None) {
                    Ok(_) => Ok(()),
                    Err(e) => Err(e),
                }
            },
            SwarmCommand::DeregisterNode { node_id } => self.remove_node(node_id),
            SwarmCommand::UpdateVmPlacement { vm_id, node_id } => {
                let key = vm_id.clone();
                let placement = VmPlacement { vm_id, node_id };
                self.vm_placements.insert(key.as_str(), placement);
                Ok(())
            },
            SwarmCommand::RemoveVmPlacement { vm_id } => {
                self.vm_placements.remove(vm_id.as_str());
                Ok(())
            },
            SwarmCommand::CreateService { name, spec } => {
                self.services.insert(name.as_str(), spec);
                Ok(())
            },
            SwarmCommand::UpdateService { name, spec } => {
                self.services.insert(name.as_str(), spec);
                Ok(())
            },
            SwarmCommand::DeleteService { name } => {
                self.services.remove(name.as_str());
                Ok(())
            },
        }
    }

    fn applied_contains(&self, idx: u64) -> (b: bool)
        ensures
            b == self@.applied.contains(idx),
    {
        let mut i: usize = 0;
        while i < self.applied_commands.len()
            invariant
                i <= self.applied_commands@.len(),
                forall|j: int| 0 <= j < i ==> self.applied_commands@[j] != idx,
            decreases self.applied_commands@.len() - i,
        {
            if self.applied_commands[i] == idx {
                return true;
            }
            i = i + 1;
        }
        false
    }

    /// Applies a committed command. A command index seen before is
    /// acknowledged without being applied again.
    pub fn submit_command(&mut self, cmd: SwarmCommand, command_index: u64) -> (r: Result<(), String>)
        requires
            old(self).wf(),
        ensures
            final(self).wf(),
            ({
                let (s, res) = spec_submit_command(old(self)@, cmd, command_index);
                &&& final(self)@ == s
                &&& match r {
                    Ok(()) => res is Ok,
                    Err(e) => res is Err && e@ == res->Err_0,
                }
            }),
    {
        if !self.is_initialized {
            return Err(to_owned_string("Cluster not initialized"));
        }
        if self.applied_contains(command_index) {
            return Ok(());
        }
        match self.apply_command(cmd) {
            Ok(()) => {},
            Err(e) => {
                return Err(e);
            },
        }
        let ghost s1 = self@;
        self.applied_commands.push(command_index);
        if self.applied_commands.len() > 1000 {
            let mut kept: Vec<u64> = Vec::new();
            let mut i: usize = 500;
            while i < self.applied_commands.len()
                invariant
                    500 <= i <= self.applied_commands@.len(),
                    kept@ == self.applied_commands@.subrange(500, i as int),
                decreases self.applied_commands@.len() - i,
            {
                kept.push(self.applied_commands[i]);
                assert(self.applied_commands@.subrange(500, i + 1) =~= self.applied_commands@.subrange(500, i as int).push(self.applied_commands@[i as int]));
                i = i + 1;
            }
            assert(kept@ =~= s1.applied.push(command_index).skip(500));
            self.applied_commands = kept;
        }
        assert(self@.applied =~= record_applied(s1.applied, command_index));
        Ok(())
    }

    pub fn get_nodes(&self) -> (r: Vec<&NodeInfo>)
        requires
            self.wf(),
        ensures
            is_listing(listing_of(self@.nodes), self@.nodes),
            r@.len() == listing_of(self@.nodes).len(),
            forall|i: int| 0 <= i < r@.len() ==> *r@[i] == #[trigger] listing_of(self@.nodes)[i],
    {
        let all = self.nodes.values();
        proof {
            self.nodes.lemma_key_seq();
            let p = all@.map_values(|x: &NodeInfo| *x);
            assert forall|i: int| 0 <= i < p.len() implies p[i].id == self.nodes.key_seq()[i] && self@.nodes.contains_key(#[trigger] p[i].id) && self@.nodes[p[i].id] == p[i] by {
                assert(p[i] == *all@[i]);
                assert(self@.nodes.contains_key(self.nodes.key_seq()[i]));
            }
            assert forall|i: int, j: int| 0 <= i < j < p.len() implies #[trigger] p[i].id < #[trigger] p[j].id by {
                assert(p[i].id == self.nodes.key_seq()[i]);
                assert(p[j].id == self.nodes.key_seq()[j]);
            }
            assert forall|k: u64| #[trigger] self@.nodes.contains_key(k) implies exists|i: int| 0 <= i < p.len() && p[i].id == k by {
                assert(self.nodes.key_seq().contains(k));
                let i = choose|i: int| 0 <= i < self.nodes.key_seq().len() && self.nodes.key_seq()[i] == k;
                assert(p[i].id == self.nodes.key_seq()[i]);
            }
            lemma_listing_is(p, self@.nodes);
        }
        all
    }

    pub fn get_node(&self, node_id: u64) -> (r: Option<&NodeInfo>)
        requires
            self.wf(),
        ensures
            match r {
                Some(n) => self@.nodes.contains_key(node_id) && *n == self@.nodes[node_id],
                None => !self@.nodes.contains_key(node_id),
            },
    {
        self.nodes.get(node_id)
    }

    /// The first node, in id order, marked as leader: the bootstrapping node.
    pub fn get_leader(&self) -> (r: Option<&NodeInfo>)
        requires
            self.wf(),
        ensures
            match r {
                Some(n) => self@.initialized && *n == self@.nodes[self@.node_id] && n.is_leader,
                None => !self@.initialized,
            },
    {
        let all = self.nodes.values();
        proof {
            self.nodes.lemma_key_seq();
        }
        let mut i: usize = 0;
        while i < all.len()
            invariant
                self.wf(),
                i <= all@.len(),
                all@.len() == self.nodes.key_seq().len(),
                forall|j: int| 0 <= j < all@.len() ==> self@.nodes.contains_key(#[trigger] self.nodes.key_seq()[j]) && *all@[j] == self@.nodes[self.nodes.key_seq()[j]],
                forall|j: int| 0 <= j < i ==> !all@[j].is_leader,
            decreases all@.len() - i,
        {
            if all[i].is_leader {
                assert(self.nodes.key_seq()[i as int] == self@.node_id);
                return Some(all[i]);
            }
            i = i + 1;
        }
        proof {
            if self@.initialized {
                assert(self.nodes.key_seq().contains(self@.node_id));
                let j = choose|j: int| 0 <= j < self.nodes.key_seq().len() && self.nodes.key_seq()[j] == self@.node_id;
                assert(all@[j].is_leader);
            }
        }
        None
    }

    pub fn get_vm_placements(&self) -> (r: Vec<&VmPlacement>)
        requires
            self.wf(),
        ensures
            r@.len() == self@.placements.dom().len(),
            forall|i: int, j: int| #![trigger r@[i], r@[j]] 0 <= i < j < r@.len() ==> crate::text::seq_lt(r@[i].vm_id@, r@[j].vm_id@),
            forall|i: int| #![trigger r@[i]] 0 <= i < r@.len() ==> self@.placements.contains_key(r@[i].vm_id@) && self@.placements[r@[i].vm_id@] == *r@[i],
    {
        let r = self.vm_placements.values();
        proof {
            self.vm_placements.lemma_key_seq();
            assert forall|i: int| #![trigger r@[i]] 0 <= i < r@.len() implies r@[i].vm_id@ == self.vm_placements.key_seq()[i] && self@.placements.contains_key(r@[i].vm_id@) && self@.placements[r@[i].vm_id@] == *r@[i] by {
                assert(self@.placements.contains_key(self.vm_placements.key_seq()[i]));
            }
            assert forall|i: int, j: int| #![trigger r@[i], r@[j]] 0 <= i < j < r@.len() implies crate::text::seq_lt(r@[i].vm_id@, r@[j].vm_id@) by {
                assert(r@[i].vm_id@ == self.vm_placements.key_seq()[i]);
                assert(r@[j].vm_id@ == self.vm_placements.key_seq()[j]);
            }
        }
        r
    }

    pub fn get_services(&self) -> (r: Vec<(&String, &ServiceSpec)>)
        requires
            self.wf(),
        ensures
            r@.len() == self@.services.dom().len(),
            forall|i: int, j: int| #![trigger r@[i], r@[j]] 0 <= i < j < r@.len() ==> crate::text::seq_lt(r@[i].0@, r@[j].0@),
            forall|i: int| #![trigger r@[i]] 0 <= i < r@.len() ==> self@.services.contains_key(r@[i].0@) && self@.services[r@[i].0@] == *r@[i].1,
    {
        let r = self.services.iter_pairs();
        proof {
            self.services.lemma_key_seq();
            assert forall|i: int| #![trigger r@[i]] 0 <= i < r@.len() implies r@[i].0@ == self.services.key_seq()[i] && self@.services.contains_key(r@[i].0@) && self@.services[r@[i].0@] == *r@[i].1 by {
                assert(r@[i].0@ == self.services.key_seq()[i]);
            }
            assert forall|i: int, j: int| #![trigger r@[i], r@[j]] 0 <= i < j < r@.len() implies crate::text::seq_lt(r@[i].0@, r@[j].0@) by {
                assert(r@[i].0@ == self.services.key_seq()[i]);
                assert(r@[j].0@ == self.services.key_seq()[j]);
            }
        }
        r
    }

    pub fn get_service(&self, name: &str) -> (r: Option<&ServiceSpec>)
        requires
            self.wf(),
        ensures
            match r {
                Some(v) => self@.services.contains_key(name@) && *v == self@.services[name@],
                None => !self@.services.contains_key(name@),
            },
    {
        self.services.get(name)
    }
}

} // verus!
