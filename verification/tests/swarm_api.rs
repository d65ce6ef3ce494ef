use vyomad::api::handlers::{JoinRequest, LegacyNodeInfo};
use vyomad::api::swarm::{
    join_propose_url, node_listing, swarm_init_local, swarm_join_local, swarm_register_local, LeaderReply,
};
use vyomad::swarm::raft::SwarmRaft;

fn join(id: u64) -> JoinRequest {
    JoinRequest {
        node_id: id,
        addr: format!("10.0.0.{}:7946", id),
        public_key: format!("pk{}", id),
        wireguard_key: Some(format!("wg{}", id)),
        wireguard_port: Some(51820),
    }
}

#[test]
fn init_bootstraps_node_one() {
    let mut raft = SwarmRaft::new(1);
    let r = swarm_init_local(&mut raft, "192.168.1.5:7946".to_string()).unwrap();
    assert_eq!((r.node_id, r.subnet_id), (1, 2));
    assert!(r.wireguard_key.is_none() && r.wireguard_port.is_none());
    assert!(raft.is_initialized());
    let nodes = node_listing(&raft);
    assert_eq!(nodes.len(), 1);
    assert_eq!(nodes[0].addr, "192.168.1.5:7946");
    assert_eq!(nodes[0].public_key, "init_key_1");
    assert!(nodes[0].is_leader);
}

#[test]
fn a_second_init_is_refused() {
    let mut raft = SwarmRaft::new(1);
    swarm_init_local(&mut raft, "a:7946".to_string()).unwrap();
    let e = swarm_init_local(&mut raft, "a:7946".to_string()).unwrap_err();
    assert_eq!(e, (500, "SwarmRaft Error: Already initialized".to_string()));
}

#[test]
fn joining_bootstraps_then_adds_the_node() {
    let mut raft = SwarmRaft::new(7);
    let r = swarm_join_local(&mut raft, join(3), LeaderReply::Accepted, "10.0.0.7:7946".to_string()).unwrap();
    assert_eq!(r.node_id, 3);
    assert_eq!(r.subnet_id, 4);
    assert_eq!(r.peers.len(), 2);
    assert_eq!(r.peers[0].id, 3);
    assert_eq!(r.peers[0].wireguard_key, Some("wg3".to_string()));
    assert_eq!(r.peers[1].id, 7);
    assert_eq!(r.peers[1].public_key, "init_key_3");
    assert!(r.peers[1].is_leader);
}

#[test]
fn joining_twice_is_refused_locally() {
    let mut raft = SwarmRaft::new(7);
    swarm_join_local(&mut raft, join(3), LeaderReply::Accepted, "x".to_string()).unwrap();
    let e = swarm_join_local(&mut raft, join(3), LeaderReply::Accepted, "x".to_string()).unwrap_err();
    assert_eq!(e, (500, "Failed to add node locally: Node 3 already exists".to_string()));
}

#[test]
fn the_leader_decides_first() {
    let mut raft = SwarmRaft::new(7);
    let e = swarm_join_local(&mut raft, join(3), LeaderReply::Unreachable { error: "timeout".to_string() }, "x".to_string())
        .unwrap_err();
    assert_eq!(e, (500, "Failed to contact leader: timeout".to_string()));
    let e = swarm_join_local(&mut raft, join(3), LeaderReply::Rejected { body: "no".to_string() }, "x".to_string())
        .unwrap_err();
    assert_eq!(e, (400, "Join rejected: no".to_string()));
    assert!(!raft.is_initialized());
    assert_eq!(join_propose_url("10.0.0.1:3000"), "http://10.0.0.1:3000/swarm/join-propose");
}

fn legacy(id: &str) -> LegacyNodeInfo {
    LegacyNodeInfo {
        id: id.to_string(),
        ip: "10.1.0.5".to_string(),
        role: "worker".to_string(),
        subnet_id: 0,
        wireguard_public_key: Some("wgk".to_string()),
        wireguard_port: Some(51820),
    }
}

#[test]
fn registration_needs_a_numeric_id() {
    let mut raft = SwarmRaft::new(1);
    let e = swarm_register_local(&mut raft, legacy("node-a"), "x".to_string()).unwrap_err();
    assert_eq!(e, (400, "Invalid node ID format".to_string()));
    assert!(!raft.is_initialized());
}

#[test]
fn registration_records_the_node_and_lists_all() {
    let mut raft = SwarmRaft::new(1);
    let r = swarm_register_local(&mut raft, legacy("5"), "10.0.0.1:7946".to_string()).unwrap();
    assert_eq!(r.node_id, 5);
    assert_eq!(r.subnet_id, 6);
    assert_eq!(r.peers.len(), 2);
    assert_eq!(r.peers[0].id, 1);
    assert!(r.peers[0].is_leader);
    assert_eq!(r.peers[0].wireguard_key, Some("wgk".to_string()));
    assert_eq!(r.peers[1].id, 5);
    assert_eq!(r.peers[1].addr, "10.1.0.5");
    assert_eq!(r.peers[1].public_key, "5");
    let e = swarm_register_local(&mut raft, legacy("5"), "x".to_string()).unwrap_err();
    assert_eq!(e, (500, "Node 5 already exists".to_string()));
}
