//! The abstract state of the cluster membership machine, and the listings
//! of its node table in key order.
use vstd::prelude::*;

use super::raft::{NodeInfo, ServiceSpec, VmPlacement};

verus! {

/// Subnet octet a node receives: a function of its id alone.
pub open spec fn spec_subnet_id(node_id: u64) -> u8 {
    if node_id == 0 {
        1
    } else {
        ((node_id % 254) + 1) as u8
    }
}

/// What a side effect reports, with its peer list taken as a sequence.
pub enum SideEffectView {
    NodeAdded {
        node_id: u64,
        addr: String,
        wireguard_key: Option<String>,
        wireguard_port: Option<u16>,
        subnet_id: u8,
    },
    NodeRemoved { node_id: u64, subnet_id: u8 },
    NodeUpdated {
        node_id: u64,
        old_subnet_id: u8,
        new_addr: Option<String>,
        new_wireguard_key: Option<String>,
        new_wireguard_port: Option<u16>,
    },
    LocalNodeConfigured { node_id: u64, subnet_id: u8, peers: Seq<NodeInfo> },
}

/// Abstract state of a `SwarmRaft`.
pub struct SwarmState {
    pub node_id: u64,
    pub initialized: bool,
    pub nodes: Map<u64, NodeInfo>,
    pub subnets: Map<u64, u8>,
    pub placements: Map<Seq<char>, VmPlacement>,
    pub services: Map<Seq<char>, ServiceSpec>,
    pub last_applied: u64,
    /// Indices of the commands applied recently, oldest first.
    pub applied: Seq<u64>,
    /// Side effects emitted and not yet taken, oldest first.
    pub effects: Seq<SideEffectView>,
}

/// What every reachable state satisfies.
pub open spec fn state_inv(s: SwarmState) -> bool {
    &&& s.nodes.dom().finite()
    &&& s.subnets.dom() == s.nodes.dom()
    &&& (s.initialized <==> s.nodes.contains_key(s.node_id))
    &&& (!s.initialized ==> s.nodes.dom().is_empty())
    &&& forall|k: u64| #[trigger] s.nodes.contains_key(k) ==> {
        &&& s.nodes[k].id == k
        &&& s.nodes[k].subnet_id == Some(spec_subnet_id(k))
        &&& s.nodes[k].is_leader == (k == s.node_id)
        &&& s.subnets[k] == spec_subnet_id(k)
    }
    &&& leases_distinct(s.subnets)
    &&& forall|k: Seq<char>| #[trigger] s.placements.contains_key(k) ==> s.placements[k].vm_id@ == k
    &&& s.applied.len() <= 1000
}

/// No two nodes hold the same subnet lease.
pub open spec fn leases_distinct(subnets: Map<u64, u8>) -> bool {
    forall|a: u64, b: u64|
        #![trigger subnets[a], subnets[b]]
        subnets.contains_key(a) && subnets.contains_key(b) && a != b ==> subnets[a] != subnets[b]
}

/// Some node already holds the lease on subnet `sub`.
pub open spec fn subnet_leased(s: SwarmState, sub: u8) -> bool {
    exists|k: u64| #[trigger] s.subnets.contains_key(k) && s.subnets[k] == sub
}

/// `p` lists the nodes of `m` in strictly increasing id order.
pub open spec fn is_listing(p: Seq<NodeInfo>, m: Map<u64, NodeInfo>) -> bool {
    &&& forall|i: int, j: int| 0 <= i < j < p.len() ==> #[trigger] p[i].id < #[trigger] p[j].id
    &&& forall|i: int| 0 <= i < p.len() ==> m.contains_key(#[trigger] p[i].id) && m[p[i].id] == p[i]
    &&& forall|k: u64| #[trigger] m.contains_key(k) ==> exists|i: int| 0 <= i < p.len() && p[i].id == k
}

/// The nodes of `m` in increasing id order.
pub open spec fn listing_of(m: Map<u64, NodeInfo>) -> Seq<NodeInfo> {
    choose|p: Seq<NodeInfo>| is_listing(p, m)
}

/// The nodes other than `self_id`, in increasing id order.
pub open spec fn peers_of(s: SwarmState) -> Seq<NodeInfo> {
    listing_of(s.nodes.remove(s.node_id))
}

proof fn lemma_listing_prefix(p: Seq<NodeInfo>, q: Seq<NodeInfo>, m: Map<u64, NodeInfo>, n: int)
    requires
        is_listing(p, m),
        is_listing(q, m),
        0 <= n <= p.len(),
        n <= q.len(),
    ensures
        forall|i: int| 0 <= i < n ==> p[i].id == q[i].id,
    decreases n,
{
    if n > 0 {
        lemma_listing_prefix(p, q, m, n - 1);
        let a = p[n - 1].id;
        let b = q[n - 1].id;
        if a < b {
            assert(m.contains_key(a));
            let j = choose|j: int| 0 <= j < q.len() && q[j].id == a;
            if j >= n - 1 {
                if j > n - 1 {
                    assert(q[n - 1].id < q[j].id);
                }
            } else {
                assert(p[j].id == q[j].id);
                assert(p[j].id < p[n - 1].id);
            }
        } else if b < a {
            assert(m.contains_key(b));
            let j = choose|j: int| 0 <= j < p.len() && p[j].id == b;
            if j >= n - 1 {
                if j > n - 1 {
                    assert(p[n - 1].id < p[j].id);
                }
            } else {
                assert(p[j].id == q[j].id);
                assert(q[j].id < q[n - 1].id);
            }
        }
    }
}

/// A map has at most one listing.
pub proof fn lemma_listing_unique(p: Seq<NodeInfo>, q: Seq<NodeInfo>, m: Map<u64, NodeInfo>)
    requires
        is_listing(p, m),
        is_listing(q, m),
    ensures
        p == q,
{
    let n = if p.len() < q.len() { p.len() as int } else { q.len() as int };
    lemma_listing_prefix(p, q, m, n);
    if p.len() > q.len() {
        let x = p[n].id;
        assert(m.contains_key(x));
        let j = choose|j: int| 0 <= j < q.len() && q[j].id == x;
        assert(p[j].id == q[j].id);
        assert(p[j].id < p[n].id);
    } else if q.len() > p.len() {
        let x = q[n].id;
        assert(m.contains_key(x));
        let j = choose|j: int| 0 <= j < p.len() && p[j].id == x;
        assert(p[j].id == q[j].id);
        assert(q[j].id < q[n].id);
    }
    assert forall|i: int| 0 <= i < p.len() implies p[i] == q[i] by {
        assert(p[i].id == q[i].id);
    }
    assert(p =~= q);
}

/// A listing is what `listing_of` denotes.
pub proof fn lemma_listing_is(p: Seq<NodeInfo>, m: Map<u64, NodeInfo>)
    requires
        is_listing(p, m),
    ensures
        listing_of(m) == p,
{
    let q = listing_of(m);
    assert(is_listing(q, m));
    lemma_listing_unique(p, q, m);
}

/// Keeps the nodes whose id is not `x`.
pub open spec fn not_id(x: u64) -> spec_fn(NodeInfo) -> bool {
    |n: NodeInfo| n.id != x
}

/// The peer list is the full listing with `self_id` left out.
pub proof fn lemma_listing_without(p: Seq<NodeInfo>, m: Map<u64, NodeInfo>, x: u64)
    requires
        is_listing(p, m),
    ensures
        is_listing(p.filter(not_id(x)), m.remove(x)),
{
    let f = p.filter(not_id(x));
    p.filter_lemma(not_id(x));
    lemma_filter_sorted(p, x);
    assert forall|i: int| 0 <= i < f.len() implies m.remove(x).contains_key(#[trigger] f[i].id) && m.remove(x)[f[i].id] == f[i] by {
        assert(f.contains(f[i]));
        p.lemma_filter_contains_rev(not_id(x), f[i]);
        assert(p.contains(f[i]));
        let j = choose|j: int| 0 <= j < p.len() && p[j] == f[i];
        assert(m.contains_key(p[j].id));
    }
    assert forall|k: u64| #[trigger] m.remove(x).contains_key(k) implies exists|i: int| 0 <= i < f.len() && f[i].id == k by {
        assert(m.contains_key(k));
        let j = choose|j: int| 0 <= j < p.len() && p[j].id == k;
        assert(f.contains(p[j]));
    }
}

proof fn lemma_filter_sorted(p: Seq<NodeInfo>, x: u64)
    requires
        forall|i: int, j: int| 0 <= i < j < p.len() ==> #[trigger] p[i].id < #[trigger] p[j].id,
    ensures
        ({
            let f = p.filter(not_id(x));
            forall|i: int, j: int| 0 <= i < j < f.len() ==> #[trigger] f[i].id < #[trigger] f[j].id
        }),
    decreases p.len(),
{
    reveal_with_fuel(Seq::filter, 1);
    if p.len() > 0 {
        let q = p.drop_last();
        lemma_filter_sorted(q, x);
        let fq = q.filter(not_id(x));
        let f = p.filter(not_id(x));
        q.filter_lemma(not_id(x));
        if p.last().id != x {
            assert(f == fq.push(p.last()));
            assert forall|i: int, j: int| 0 <= i < j < f.len() implies #[trigger] f[i].id < #[trigger] f[j].id by {
                if j == f.len() - 1 {
                    assert(fq.contains(f[i]));
                    q.lemma_filter_contains_rev(not_id(x), f[i]);
                    assert(q.contains(f[i]));
                    let k = choose|k: int| 0 <= k < q.len() && q[k] == f[i];
                    assert(p[k].id < p[p.len() - 1].id);
                } else {
                    assert(fq[i].id < fq[j].id);
                }
            }
        } else {
            assert(f == fq);
        }
    }
}

/// Adding node `n`, whose id the map lacks, to a map that has a listing
/// gives a map that has one.
proof fn lemma_listing_insert(q: Seq<NodeInfo>, m: Map<u64, NodeInfo>, n: NodeInfo)
    requires
        is_listing(q, m),
        !m.contains_key(n.id),
    ensures
        exists|p: Seq<NodeInfo>| is_listing(p, m.insert(n.id, n)),
    decreases q.len(),
{
    let mi = m.insert(n.id, n);
    if q.len() == 0 {
        let p = seq![n];
        assert forall|k: u64| #[trigger] mi.contains_key(k) implies exists|i: int| 0 <= i < p.len() && p[i].id == k by {
            if k != n.id {
                assert(m.contains_key(k));
                let j = choose|j: int| 0 <= j < q.len() && q[j].id == k;
            }
            assert(p[0].id == n.id);
        }
        assert(is_listing(p, mi));
    } else if q.last().id < n.id {
        let p = q.push(n);
        assert forall|i: int, j: int| 0 <= i < j < p.len() implies #[trigger] p[i].id < #[trigger] p[j].id by {
            if j == p.len() - 1 && i < q.len() - 1 {
                assert(q[i].id < q[q.len() - 1].id);
            }
        }
        assert forall|i: int| 0 <= i < p.len() implies mi.contains_key(#[trigger] p[i].id) && mi[p[i].id] == p[i] by {
            if i < q.len() {
                assert(q[i] == p[i]);
                assert(m.contains_key(q[i].id));
            }
        }
        assert forall|k: u64| #[trigger] mi.contains_key(k) implies exists|i: int| 0 <= i < p.len() && p[i].id == k by {
            if k != n.id {
                assert(m.contains_key(k));
                let j = choose|j: int| 0 <= j < q.len() && q[j].id == k;
                assert(p[j].id == k);
            } else {
                assert(p[p.len() - 1].id == k);
            }
        }
        assert(is_listing(p, mi));
    } else {
        let l = q.last();
        let q1 = q.drop_last();
        let m1 = m.remove(l.id);
        assert(m.contains_key(l.id) && m[l.id] == l);
        assert forall|i: int| 0 <= i < q1.len() implies m1.contains_key(#[trigger] q1[i].id) && m1[q1[i].id] == q1[i] by {
            assert(q1[i] == q[i]);
            assert(q[i].id < q[q.len() - 1].id);
            assert(m.contains_key(q[i].id));
        }
        assert forall|k: u64| #[trigger] m1.contains_key(k) implies exists|i: int| 0 <= i < q1.len() && q1[i].id == k by {
            assert(m.contains_key(k));
            let j = choose|j: int| 0 <= j < q.len() && q[j].id == k;
            assert(j != q.len() - 1);
            assert(q1[j].id == k);
        }
        assert forall|i: int, j: int| 0 <= i < j < q1.len() implies #[trigger] q1[i].id < #[trigger] q1[j].id by {
            assert(q[i].id < q[j].id);
        }
        assert(is_listing(q1, m1));
        assert(l.id != n.id);
        lemma_listing_insert(q1, m1, n);
        let p1 = choose|p1: Seq<NodeInfo>| is_listing(p1, m1.insert(n.id, n));
        let m2 = m1.insert(n.id, n);
        let p = p1.push(l);
        assert(mi =~= m2.insert(l.id, l));
        assert forall|i: int| 0 <= i < p1.len() implies #[trigger] p1[i].id < l.id by {
            let k = p1[i].id;
            assert(m2.contains_key(k));
            if k != n.id {
                assert(m1.contains_key(k));
                let j = choose|j: int| 0 <= j < q1.len() && q1[j].id == k;
                assert(q[j].id < q[q.len() - 1].id);
            }
        }
        assert forall|i: int, j: int| 0 <= i < j < p.len() implies #[trigger] p[i].id < #[trigger] p[j].id by {
            if j == p.len() - 1 {
                assert(p[i] == p1[i]);
            } else {
                assert(p1[i].id < p1[j].id);
            }
        }
        assert forall|i: int| 0 <= i < p.len() implies mi.contains_key(#[trigger] p[i].id) && mi[p[i].id] == p[i] by {
            if i < p1.len() {
                assert(p[i] == p1[i]);
                assert(m2.contains_key(p1[i].id));
                assert(p1[i].id < l.id);
            }
        }
        assert forall|k: u64| #[trigger] mi.contains_key(k) implies exists|i: int| 0 <= i < p.len() && p[i].id == k by {
            if k == l.id {
                assert(p[p.len() - 1].id == k);
            } else {
                assert(m2.contains_key(k));
                let j = choose|j: int| 0 <= j < p1.len() && p1[j].id == k;
                assert(p[j].id == k);
            }
        }
        assert(is_listing(p, mi));
    }
}

/// Every finite node table whose records carry their own ids has a listing,
/// so `listing_of` lists it.
pub proof fn lemma_listing_exists(m: Map<u64, NodeInfo>)
    requires
        m.dom().finite(),
        forall|k: u64| #[trigger] m.contains_key(k) ==> m[k].id == k,
    ensures
        is_listing(listing_of(m), m),
    decreases m.dom().len(),
{
    if m.dom().len() == 0 {
        let p = Seq::<NodeInfo>::empty();
        assert forall|k: u64| #[trigger] m.contains_key(k) implies exists|i: int| 0 <= i < p.len() && p[i].id == k by {
            assert(m.dom().contains(k));
        }
        assert(is_listing(p, m));
    } else {
        let k = m.dom().choose();
        let m1 = m.remove(k);
        assert(m1.dom() =~= m.dom().remove(k));
        lemma_listing_exists(m1);
        lemma_listing_insert(listing_of(m1), m1, m[k]);
        assert(m1.insert(m[k].id, m[k]) =~= m);
        let p = choose|p: Seq<NodeInfo>| is_listing(p, m1.insert(m[k].id, m[k]));
        assert(is_listing(p, m));
    }
}

} // verus!
