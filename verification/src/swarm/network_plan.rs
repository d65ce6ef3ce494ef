//! How the host network follows the swarm: each side effect of the
//! replicated state becomes a list of network actions (WireGuard peers,
//! routes to peer subnets, the local bridge and VXLAN device).
use vstd::prelude::*;

use super::model::SideEffectView;
use super::raft::{subnet_cidr, NodeInfo, SwarmSideEffect};
use crate::text::{contains_str, dec, has_infix, join_path, path_join, push_str, push_u64, to_owned_string};

verus! {

/// One change to the host network.
#[derive(Debug, Clone)]
pub enum NetworkAction {
    /// Start WireGuard as `10.42.<subnet>.1` unless it runs.
    EnsureWireguard { subnet_id: u8 },
    /// Point the local bridge's address pool at the node's subnet.
    ConfigureBridge { subnet: String },
    /// Create the VXLAN device unless it exists.
    EnsureVxlanDevice,
    /// Add a WireGuard peer.
    AddWireguardPeer { public_key: String, endpoint: String, allowed_ips: String },
    /// Route a peer's subnet to it (over WireGuard when it runs, else VXLAN).
    AddRoute { peer_ip: String, subnet: String },
    /// Drop the route to a subnet.
    RemoveSubnetRoute { subnet: String },
}

/// A network action with its texts as sequences.
pub enum ActionView {
    EnsureWireguard { subnet_id: u8 },
    ConfigureBridge { subnet: Seq<char> },
    EnsureVxlanDevice,
    AddWireguardPeer { public_key: Seq<char>, endpoint: Seq<char>, allowed_ips: Seq<char> },
    AddRoute { peer_ip: Seq<char>, subnet: Seq<char> },
    RemoveSubnetRoute { subnet: Seq<char> },
}

impl View for NetworkAction {
    type V = ActionView;

    open spec fn view(&self) -> ActionView {
        match self {
            NetworkAction::EnsureWireguard { subnet_id } => ActionView::EnsureWireguard { subnet_id: *subnet_id },
            NetworkAction::ConfigureBridge { subnet } => ActionView::ConfigureBridge { subnet: subnet@ },
            NetworkAction::EnsureVxlanDevice => ActionView::EnsureVxlanDevice,
            NetworkAction::AddWireguardPeer { public_key, endpoint, allowed_ips } => ActionView::AddWireguardPeer {
                public_key: public_key@,
                endpoint: endpoint@,
                allowed_ips: allowed_ips@,
            },
            NetworkAction::AddRoute { peer_ip, subnet } => ActionView::AddRoute { peer_ip: peer_ip@, subnet: subnet@ },
            NetworkAction::RemoveSubnetRoute { subnet } => ActionView::RemoveSubnetRoute { subnet: subnet@ },
        }
    }
}

pub open spec fn action_views(v: Seq<NetworkAction>) -> Seq<ActionView> {
    v.map_values(|a: NetworkAction| a@)
}

/// Position of the first `:` in `s`, or its length.
pub open spec fn colon_pos(s: Seq<char>) -> nat
    decreases s.len(),
{
    if s.len() == 0 {
        0
    } else if s[0] == ':' {
        0
    } else {
        1 + colon_pos(s.drop_first())
    }
}

/// The host part of `host:port`.
pub open spec fn host_of(addr: Seq<char>) -> Seq<char> {
    addr.take(colon_pos(addr) as int)
}

pub open spec fn endpoint_of(host: Seq<char>, port: u16) -> Seq<char> {
    host + ":"@ + dec(port as nat)
}

pub open spec fn subnet_or_zero(p: NodeInfo) -> u8 {
    match p.subnet_id {
        Some(s) => s,
        None => 0,
    }
}

/// The actions that reach one peer: its WireGuard endpoint when it has a
/// key and port, then the route to its subnet.
pub open spec fn peer_actions(p: NodeInfo) -> Seq<ActionView> {
    let host = host_of(p.addr@);
    let subnet = subnet_cidr(subnet_or_zero(p));
    (match (p.wireguard_key, p.wireguard_port) {
        (Some(k), Some(port)) => seq![
            ActionView::AddWireguardPeer { public_key: k@, endpoint: endpoint_of(host, port), allowed_ips: subnet },
        ],
        _ => seq![],
    }) + seq![ActionView::AddRoute { peer_ip: host, subnet }]
}

pub open spec fn peers_actions(ps: Seq<NodeInfo>) -> Seq<ActionView>
    decreases ps.len(),
{
    if ps.len() == 0 {
        seq![]
    } else {
        peers_actions(ps.drop_last()) + peer_actions(ps.last())
    }
}

/// What the host network does for a side effect.
pub open spec fn planned_actions(e: SideEffectView) -> Seq<ActionView> {
    match e {
        SideEffectView::LocalNodeConfigured { subnet_id, peers, .. } => seq![
            ActionView::EnsureWireguard { subnet_id },
            ActionView::ConfigureBridge { subnet: subnet_cidr(subnet_id) },
            ActionView::EnsureVxlanDevice,
        ] + peers_actions(peers),
        SideEffectView::NodeAdded { addr, wireguard_key, wireguard_port, subnet_id, .. } => (match (
            wireguard_key,
            wireguard_port,
        ) {
            (Some(k), Some(port)) => seq![
                ActionView::AddWireguardPeer {
                    public_key: k@,
                    endpoint: endpoint_of(addr@, port),
                    allowed_ips: subnet_cidr(subnet_id),
                },
            ],
            _ => seq![],
        }) + seq![ActionView::AddRoute { peer_ip: addr@, subnet: subnet_cidr(subnet_id) }],
        SideEffectView::NodeRemoved { subnet_id, .. } => seq![
            ActionView::RemoveSubnetRoute { subnet: subnet_cidr(subnet_id) },
        ],
        SideEffectView::NodeUpdated { old_subnet_id, new_addr, new_wireguard_key, new_wireguard_port, .. } => match (
            new_addr,
            new_wireguard_key,
            new_wireguard_port,
        ) {
            (Some(a), Some(k), Some(port)) => seq![
                ActionView::AddWireguardPeer {
                    public_key: k@,
                    endpoint: endpoint_of(a@, port),
                    allowed_ips: subnet_cidr(old_subnet_id),
                },
            ],
            _ => seq![],
        },
    }
}

fn cidr(id: u8) -> (r: String)
    ensures
        r@ == subnet_cidr(id),
{
    let mut r = to_owned_string("10.42.");
    push_u64(&mut r, id as u64);
    push_str(&mut r, ".0/24");
    r
}

fn endpoint(host: &str, port: u16) -> (r: String)
    ensures
        r@ == endpoint_of(host@, port),
{
    let mut r = to_owned_string(host);
    push_str(&mut r, ":");
    push_u64(&mut r, port as u64);
    r
}

proof fn lemma_colon_pos(s: Seq<char>, i: int)
    requires
        0 <= i <= s.len(),
        forall|j: int| 0 <= j < i ==> #[trigger] s[j] != ':',
        i == s.len() || s[i] == ':',
    ensures
        colon_pos(s) == i,
    decreases i,
{
    if i > 0 {
        let t = s.drop_first();
        assert forall|j: int| 0 <= j < i - 1 implies #[trigger] t[j] != ':' by {
            assert(t[j] == s[j + 1]);
        }
        lemma_colon_pos(t, i - 1);
    }
}

pub(crate) fn host_part(addr: &str) -> (r: String)
    ensures
        r@ == host_of(addr@),
{
    let n = addr.unicode_len();
    let mut p: usize = 0;
    while p < n && addr.get_char(p) != ':'
        invariant
            p <= n,
            n == addr@.len(),
            forall|j: int| 0 <= j < p ==> #[trigger] addr@[j] != ':',
        decreases n - p,
    {
        p = p + 1;
    }
    proof {
        lemma_colon_pos(addr@, p as int);
    }
    let head = addr.substring_char(0, p);
    assert(head@ =~= addr@.take(p as int));
    to_owned_string(head)
}

/// Appends the actions that reach one peer.
fn push_peer_actions(out: &mut Vec<NetworkAction>, p: &NodeInfo)
    ensures
        action_views(final(out)@) == action_views(old(out)@) + peer_actions(*p),
{
    let host = host_part(p.addr.as_str());
    let sid = match p.subnet_id {
        Some(s) => s,
        None => 0,
    };
    let ghost before = action_views(out@);
    match (&p.wireguard_key, p.wireguard_port) {
        (Some(k), Some(port)) => {
            out.push(
                NetworkAction::AddWireguardPeer {
                    public_key: k.clone(),
                    endpoint: endpoint(host.as_str(), port),
                    allowed_ips: cidr(sid),
                },
            );
        },
        _ => {},
    }
    out.push(NetworkAction::AddRoute { peer_ip: host, subnet: cidr(sid) });
    assert(action_views(out@) =~= before + peer_actions(*p));
}

/// The network actions for one side effect of the swarm.
pub fn plan_network_actions(effect: &SwarmSideEffect) -> (r: Vec<NetworkAction>)
    ensures
        action_views(r@) == planned_actions(effect@),
{
    let mut r: Vec<NetworkAction> = Vec::new();
    match effect {
        SwarmSideEffect::LocalNodeConfigured { subnet_id, peers, .. } => {
            r.push(NetworkAction::EnsureWireguard { subnet_id: *subnet_id });
            r.push(NetworkAction::ConfigureBridge { subnet: cidr(*subnet_id) });
            r.push(NetworkAction::EnsureVxlanDevice);
            let ghost head = action_views(r@);
            let mut i: usize = 0;
            while i < peers.len()
                invariant
                    i <= peers@.len(),
                    action_views(r@) == head + peers_actions(peers@.take(i as int)),
                decreases peers.len() - i,
            {
                push_peer_actions(&mut r, &peers[i]);
                assert(peers@.take(i + 1).drop_last() =~= peers@.take(i as int));
                assert(action_views(r@) =~= head + peers_actions(peers@.take(i + 1)));
                i = i + 1;
            }
            assert(peers@.take(peers@.len() as int) =~= peers@);
            assert(action_views(r@) =~= planned_actions(effect@));
        },
        SwarmSideEffect::NodeAdded { addr, wireguard_key, wireguard_port, subnet_id, .. } => {
            match (wireguard_key, wireguard_port) {
                (Some(k), Some(port)) => {
                    r.push(
                        NetworkAction::AddWireguardPeer {
                            public_key: k.clone(),
                            endpoint: endpoint(addr.as_str(), *port),
                            allowed_ips: cidr(*subnet_id),
                        },
                    );
                },
                _ => {},
            }
            r.push(NetworkAction::AddRoute { peer_ip: addr.clone(), subnet: cidr(*subnet_id) });
            assert(action_views(r@) =~= planned_actions(effect@));
        },
        SwarmSideEffect::NodeRemoved { subnet_id, .. } => {
            r.push(NetworkAction::RemoveSubnetRoute { subnet: cidr(*subnet_id) });
            assert(action_views(r@) =~= planned_actions(effect@));
        },
        SwarmSideEffect::NodeUpdated { old_subnet_id, new_addr, new_wireguard_key, new_wireguard_port, .. } => {
            match (new_addr, new_wireguard_key, new_wireguard_port) {
                (Some(a), Some(k), Some(port)) => {
                    r.push(
                        NetworkAction::AddWireguardPeer {
                            public_key: k.clone(),
                            endpoint: endpoint(a.as_str(), *port),
                            allowed_ips: cidr(*old_subnet_id),
                        },
                    );
                },
                _ => {},
            }
            assert(action_views(r@) =~= planned_actions(effect@));
        },
    }
    r
}

// ---------------------------------------------------------------- host commands

fn strings_of(parts: &Vec<&str>) -> (r: Vec<String>)
    ensures
        r@.len() == parts@.len(),
        forall|i: int| 0 <= i < r@.len() ==> #[trigger] r@[i]@ == parts@[i]@,
{
    let mut r: Vec<String> = Vec::new();
    let mut i: usize = 0;
    while i < parts.len()
        invariant
            i <= parts@.len(),
            r@.len() == i,
            forall|j: int| 0 <= j < i ==> #[trigger] r@[j]@ == parts@[j]@,
        decreases parts@.len() - i,
    {
        r.push(to_owned_string(parts[i]));
        i = i + 1;
    }
    r
}

/// The arguments of `ip` that route `subnet` to `peer_ip` over VXLAN
/// (used when WireGuard does not run):
/// `route add <subnet> encap vxlan id 42 dst <peer_ip> dev vyoma-vxlan`.
pub fn vxlan_route_args(peer_ip: &str, subnet: &str) -> (a: Vec<String>)
    ensures
        a@.len() == 11,
        a@[0]@ == "route"@ && a@[1]@ == "add"@ && a@[2]@ == subnet@,
        a@[3]@ == "encap"@ && a@[4]@ == "vxlan"@ && a@[5]@ == "id"@ && a@[6]@ == "42"@,
        a@[7]@ == "dst"@ && a@[8]@ == peer_ip@ && a@[9]@ == "dev"@ && a@[10]@ == "vyoma-vxlan"@,
{
    let parts: Vec<&str> = vec!["route", "add", subnet, "encap", "vxlan", "id", "42", "dst", peer_ip, "dev", "vyoma-vxlan"];
    strings_of(&parts)
}

/// The arguments of `ip` that tell whether the VXLAN device exists:
/// `link show vyoma-vxlan`.
pub fn vxlan_device_show_args() -> (a: Vec<String>)
    ensures
        a@.len() == 3,
        a@[0]@ == "link"@ && a@[1]@ == "show"@ && a@[2]@ == "vyoma-vxlan"@,
{
    let parts: Vec<&str> = vec!["link", "show", "vyoma-vxlan"];
    strings_of(&parts)
}

/// The arguments of `ip` that create the VXLAN device:
/// `link add vyoma-vxlan type vxlan id 42 dstport 4789 external`.
pub fn vxlan_device_add_args() -> (a: Vec<String>)
    ensures
        a@.len() == 10,
        a@[0]@ == "link"@ && a@[1]@ == "add"@ && a@[2]@ == "vyoma-vxlan"@ && a@[3]@ == "type"@,
        a@[4]@ == "vxlan"@ && a@[5]@ == "id"@ && a@[6]@ == "42"@ && a@[7]@ == "dstport"@,
        a@[8]@ == "4789"@ && a@[9]@ == "external"@,
{
    let parts: Vec<&str> = vec!["link", "add", "vyoma-vxlan", "type", "vxlan", "id", "42", "dstport", "4789", "external"];
    strings_of(&parts)
}

/// The arguments of `ip` that bring the VXLAN device up:
/// `link set vyoma-vxlan up`.
pub fn vxlan_device_up_args() -> (a: Vec<String>)
    ensures
        a@.len() == 4,
        a@[0]@ == "link"@ && a@[1]@ == "set"@ && a@[2]@ == "vyoma-vxlan"@ && a@[3]@ == "up"@,
{
    let parts: Vec<&str> = vec!["link", "set", "vyoma-vxlan", "up"];
    strings_of(&parts)
}

/// A failed route addition is worth a warning unless the route was there
/// already, as `ip` says on its error output.
pub fn route_failure_reported(stderr: &str) -> (b: bool)
    ensures
        b <==> !has_infix(stderr@, "exists"@),
{
    !contains_str(stderr, "exists")
}

/// Where the local bridge's CNI configuration is written:
/// `~/.vyoma/cni/net.d/10-vyoma-bridge.conf`.
pub fn bridge_conf_path(home: &str) -> (p: String)
    ensures
        p@ == join_path(join_path(join_path(join_path(home@, ".vyoma"@), "cni"@), "net.d"@), "10-vyoma-bridge.conf"@),
{
    let a = path_join(home, ".vyoma");
    let b = path_join(a.as_str(), "cni");
    let c = path_join(b.as_str(), "net.d");
    path_join(c.as_str(), "10-vyoma-bridge.conf")
}

} // verus!
