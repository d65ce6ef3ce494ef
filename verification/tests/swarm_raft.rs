use vyomad::swarm::raft::{NodeInfo, PortMapping, ServiceSpec, SwarmCommand, SwarmRaft, SwarmSideEffect};

fn describe(effect: &SwarmSideEffect) -> String {
    match effect {
        SwarmSideEffect::LocalNodeConfigured { node_id, subnet_id, peers } => format!(
            "local_configured: node={}, subnet=10.42.{}.0/24, peers={}",
            node_id,
            subnet_id,
            peers.len()
        ),
        SwarmSideEffect::NodeAdded { node_id, addr, wireguard_key, wireguard_port, subnet_id } => {
            let wg_info = match (wireguard_key, wireguard_port) {
                (Some(k), Some(p)) => format!(", wg_key={}, wg_port={}", k, p),
                _ => String::new(),
            };
            format!("node_added: id={}, addr={}, subnet=10.42.{}.0/24{}", node_id, addr, subnet_id, wg_info)
        }
        SwarmSideEffect::NodeRemoved { node_id, subnet_id } => {
            format!("node_removed: id={}, subnet=10.42.{}.0/24", node_id, subnet_id)
        }
        SwarmSideEffect::NodeUpdated { node_id, old_subnet_id, new_addr, .. } => {
            let addr_info = new_addr.as_ref().map(|a| format!(", new_addr={}", a)).unwrap_or_default();
            format!("node_updated: id={}, old_subnet=10.42.{}.0/24{}", node_id, old_subnet_id, addr_info)
        }
    }
}

fn events(raft: &mut SwarmRaft, log: &mut Vec<String>) -> Vec<String> {
    for e in raft.take_side_effects() {
        log.push(describe(&e));
    }
    log.clone()
}

#[test]
fn test_bootstrap_cluster() {
    let mut raft = SwarmRaft::new(1);
    assert!(!raft.is_initialized());
    raft.bootstrap("10.0.0.1:7946".to_string(), "test_key".to_string(), None, None).unwrap();
    assert!(raft.is_initialized());
    assert_eq!(raft.get_nodes().len(), 1);
    assert!(raft.get_leader().is_some());
}

#[test]
fn test_add_remove_node() {
    let mut raft = SwarmRaft::new(1);
    raft.bootstrap("10.0.0.1:7946".to_string(), "leader_key".to_string(), None, None).unwrap();
    let subnet = raft.add_node(2, "10.0.0.2:7946".to_string(), "node2_key".to_string(), None, None).unwrap();
    assert_eq!(subnet, 3);
    assert_eq!(raft.get_nodes().len(), 2);
    raft.remove_node(2).unwrap();
    assert_eq!(raft.get_nodes().len(), 1);
}

#[test]
fn test_deterministic_subnet_allocation() {
    let mut raft = SwarmRaft::new(1);
    raft.bootstrap("10.0.0.1:7946".to_string(), "leader_key".to_string(), None, None).unwrap();
    let subnet1 = raft.add_node(100, "10.0.0.100:7946".to_string(), "key100".to_string(), None, None).unwrap();
    assert_eq!(subnet1, 100 % 254 + 1);
    let subnet2 = raft.add_node(200, "10.0.0.200:7946".to_string(), "key200".to_string(), None, None).unwrap();
    assert_eq!(subnet2, 200 % 254 + 1);
    assert_ne!(subnet1, subnet2, "Different nodes should have different subnets");
}

#[test]
fn test_vm_placement() {
    let mut raft = SwarmRaft::new(1);
    raft.bootstrap("10.0.0.1:7946".to_string(), "key".to_string(), None, None).unwrap();
    let cmd = SwarmCommand::UpdateVmPlacement { vm_id: "vm-123".to_string(), node_id: 1 };
    raft.submit_command(cmd, 1).unwrap();
    assert_eq!(raft.get_vm_placements().len(), 1);
}

#[test]
fn test_service_management() {
    let mut raft = SwarmRaft::new(1);
    raft.bootstrap("10.0.0.1:7946".to_string(), "key".to_string(), None, None).unwrap();
    let spec = ServiceSpec {
        image: "nginx:latest".to_string(),
        replicas: 2,
        ports: vec![PortMapping { host: 80, vm: 80 }],
    };
    let cmd = SwarmCommand::CreateService { name: "web".to_string(), spec: spec.clone() };
    raft.submit_command(cmd, 1).unwrap();
    assert_eq!(raft.get_services().len(), 1);
    assert!(raft.get_service("web").is_some());
    let delete_cmd = SwarmCommand::DeleteService { name: "web".to_string() };
    raft.submit_command(delete_cmd, 2).unwrap();
    assert_eq!(raft.get_services().len(), 0);
}

#[test]
fn test_add_node_with_wireguard() {
    let mut raft = SwarmRaft::new(1);
    raft.bootstrap("10.0.0.1:7946".to_string(), "leader_key".to_string(), Some("wg_key_1".to_string()), Some(51820)).unwrap();
    let subnet = raft
        .add_node(2, "10.0.0.2:7946".to_string(), "node2_key".to_string(), Some("wg_key_2".to_string()), Some(51821))
        .unwrap();
    let node2 = raft.get_node(2).unwrap();
    assert_eq!(node2.wireguard_key.as_deref(), Some("wg_key_2"));
    assert_eq!(node2.wireguard_port, Some(51821));
    assert_eq!(node2.subnet_id, Some(subnet));
}

#[test]
fn test_update_node_endpoint() {
    let mut raft = SwarmRaft::new(1);
    raft.bootstrap("10.0.0.1:7946".to_string(), "leader_key".to_string(), None, None).unwrap();
    raft.add_node(2, "10.0.0.2:7946".to_string(), "node2_key".to_string(), None, None).unwrap();
    raft.update_node_endpoint(2, Some("10.0.0.22:7946".to_string()), Some("new_wg_key".to_string()), Some(51830)).unwrap();
    let node = raft.get_node(2).unwrap();
    assert_eq!(node.addr, "10.0.0.22:7946");
    assert_eq!(node.wireguard_key.as_deref(), Some("new_wg_key"));
    assert_eq!(node.wireguard_port, Some(51830));
}

#[test]
fn test_remove_nonexistent_node() {
    let mut raft = SwarmRaft::new(1);
    raft.bootstrap("10.0.0.1:7946".to_string(), "leader_key".to_string(), None, None).unwrap();
    let result = raft.remove_node(999);
    assert!(result.is_err());
}

#[test]
fn test_add_duplicate_node() {
    let mut raft = SwarmRaft::new(1);
    raft.bootstrap("10.0.0.1:7946".to_string(), "leader_key".to_string(), None, None).unwrap();
    raft.add_node(2, "10.0.0.2:7946".to_string(), "node2_key".to_string(), None, None).unwrap();
    let result = raft.add_node(2, "10.0.0.2:7946".to_string(), "node2_key".to_string(), None, None);
    assert!(result.is_err());
}

#[test]
fn test_idempotent_command_replay() {
    let mut raft = SwarmRaft::new(1);
    raft.bootstrap("10.0.0.1:7946".to_string(), "leader_key".to_string(), None, None).unwrap();
    let cmd = SwarmCommand::UpdateVmPlacement { vm_id: "vm-replay".to_string(), node_id: 1 };
    raft.submit_command(cmd.clone(), 1).unwrap();
    assert_eq!(raft.get_vm_placements().len(), 1);
    let result = raft.submit_command(cmd.clone(), 1);
    assert!(result.is_ok(), "Idempotent replay should not fail");
    assert_eq!(raft.get_vm_placements().len(), 1, "Should still have only one placement");
    let result2 = raft.submit_command(cmd, 2);
    assert!(result2.is_ok(), "Different command index should work");
    assert_eq!(raft.get_vm_placements().len(), 1, "Still should have only one placement (key exists)");
}

#[test]
fn test_swarm_raft_basic_lifecycle() {
    let mut log = Vec::new();
    let mut raft = SwarmRaft::new(1);
    raft.bootstrap("10.0.0.1:7946".to_string(), "key1".to_string(), Some("wg_key1".to_string()), Some(51820)).unwrap();
    let events = events(&mut raft, &mut log);
    assert!(events.iter().any(|e| e.contains("local_configured: node=1")), "Should trigger local config on bootstrap");
    assert!(raft.is_initialized());
    assert_eq!(raft.get_nodes().len(), 1);
    assert!(raft.get_leader().is_some());
    let node = raft.get_node(1).unwrap();
    assert_eq!(node.wireguard_key.as_deref(), Some("wg_key1"));
    assert_eq!(node.wireguard_port, Some(51820));
    assert_eq!(node.subnet_id, Some(2));
}

#[test]
fn test_swarm_raft_add_remove_nodes() {
    let mut log = Vec::new();
    let mut raft = SwarmRaft::new(1);
    raft.bootstrap("10.0.0.1:7946".to_string(), "key1".to_string(), None, None).unwrap();
    raft.add_node(2, "10.0.0.2:7946".to_string(), "key2".to_string(), Some("wg_key2".to_string()), Some(51821)).unwrap();
    let evs = events(&mut raft, &mut log);
    assert!(evs.iter().any(|e| e.contains("node_added: id=2")), "Should trigger node added event");
    assert_eq!(raft.get_nodes().len(), 2);
    let node2 = raft.get_node(2).unwrap();
    assert_eq!(node2.subnet_id, Some(3));
    assert_eq!(node2.wireguard_key.as_deref(), Some("wg_key2"));
    raft.remove_node(2).unwrap();
    let evs = events(&mut raft, &mut log);
    assert!(evs.iter().any(|e| e.contains("node_removed: id=2")), "Should trigger node removed event");
    assert_eq!(raft.get_nodes().len(), 1);
}

#[test]
fn test_swarm_raft_update_node_endpoint() {
    let mut log = Vec::new();
    let mut raft = SwarmRaft::new(1);
    raft.bootstrap("10.0.0.1:7946".to_string(), "key1".to_string(), None, None).unwrap();
    raft.add_node(2, "10.0.0.2:7946".to_string(), "key2".to_string(), Some("wg_key2".to_string()), Some(51821)).unwrap();
    let events_before = events(&mut raft, &mut log).len();
    raft.update_node_endpoint(2, Some("10.0.0.22:7946".to_string()), Some("new_wg_key".to_string()), Some(51830)).unwrap();
    let evs = events(&mut raft, &mut log);
    assert!(evs.len() > events_before, "Should trigger update event");
    assert!(evs.iter().any(|e| e.contains("node_updated: id=2")), "Should contain node_updated event");
    let node = raft.get_node(2).unwrap();
    assert_eq!(node.addr, "10.0.0.22:7946");
    assert_eq!(node.wireguard_key.as_deref(), Some("new_wg_key"));
    assert_eq!(node.wireguard_port, Some(51830));
}

#[test]
fn test_swarm_raft_deterministic_subnet_allocation() {
    let mut raft = SwarmRaft::new(1);
    raft.bootstrap("10.0.0.1:7946".to_string(), "key1".to_string(), None, None).unwrap();
    let subnets: Vec<u8> = (2..=10)
        .map(|id| raft.add_node(id, format!("10.0.0.{}:7946", id), format!("key{}", id), None, None).unwrap())
        .collect();
    for (i, &subnet) in subnets.iter().enumerate() {
        let expected = ((i + 2) % 254 + 1) as u8;
        assert_eq!(subnet, expected, "Node {} should have subnet {}, got {}", i + 2, expected, subnet);
    }
}

#[test]
fn test_swarm_raft_idempotent_command_processing() {
    let mut raft = SwarmRaft::new(1);
    raft.bootstrap("10.0.0.1:7946".to_string(), "key1".to_string(), None, None).unwrap();
    let cmd = SwarmCommand::UpdateVmPlacement { vm_id: "vm-123".to_string(), node_id: 1 };
    raft.submit_command(cmd.clone(), 1).unwrap();
    assert_eq!(raft.get_vm_placements().len(), 1);
    let result = raft.submit_command(cmd.clone(), 1);
    assert!(result.is_ok(), "Duplicate command should succeed (idempotent)");
    assert_eq!(raft.get_vm_placements().len(), 1, "Should not create duplicate");
    let cmd2 = SwarmCommand::UpdateVmPlacement { vm_id: "vm-456".to_string(), node_id: 1 };
    raft.submit_command(cmd2, 2).unwrap();
    assert_eq!(raft.get_vm_placements().len(), 2);
}

#[test]
fn test_swarm_raft_duplicate_node_rejected() {
    let mut raft = SwarmRaft::new(1);
    raft.bootstrap("10.0.0.1:7946".to_string(), "key1".to_string(), None, None).unwrap();
    raft.add_node(2, "10.0.0.2:7946".to_string(), "key2".to_string(), None, None).unwrap();
    let result = raft.add_node(2, "10.0.0.2:7946".to_string(), "key2".to_string(), None, None);
    assert!(result.is_err(), "Should reject duplicate node ID");
}

#[test]
fn test_swarm_raft_cannot_remove_self() {
    let mut raft = SwarmRaft::new(1);
    raft.bootstrap("10.0.0.1:7946".to_string(), "key1".to_string(), None, None).unwrap();
    let result = raft.remove_node(1);
    assert!(result.is_err(), "Should not allow removing self");
}

#[test]
fn test_swarm_raft_service_management() {
    let mut raft = SwarmRaft::new(1);
    raft.bootstrap("10.0.0.1:7946".to_string(), "key1".to_string(), None, None).unwrap();
    let spec = ServiceSpec {
        image: "nginx:latest".to_string(),
        replicas: 3,
        ports: vec![PortMapping { host: 80, vm: 80 }, PortMapping { host: 443, vm: 443 }],
    };
    let create_cmd = SwarmCommand::CreateService { name: "web".to_string(), spec: spec.clone() };
    raft.submit_command(create_cmd, 1).unwrap();
    assert_eq!(raft.get_services().len(), 1);
    let services = raft.get_services();
    let (name, retrieved_spec) = services.first().unwrap();
    assert_eq!(name.as_str(), "web");
    assert_eq!(retrieved_spec.replicas, 3);
    let update_cmd = SwarmCommand::UpdateService {
        name: "web".to_string(),
        spec: ServiceSpec { image: "nginx:1.21".to_string(), replicas: 5, ports: vec![] },
    };
    raft.submit_command(update_cmd, 2).unwrap();
    let updated = raft.get_service("web").unwrap();
    assert_eq!(updated.replicas, 5);
    let delete_cmd = SwarmCommand::DeleteService { name: "web".to_string() };
    raft.submit_command(delete_cmd, 3).unwrap();
    assert!(raft.get_service("web").is_none());
}

#[test]
fn test_swarm_raft_vm_placement() {
    let mut raft = SwarmRaft::new(1);
    raft.bootstrap("10.0.0.1:7946".to_string(), "key1".to_string(), None, None).unwrap();
    for i in 0..4 {
        let cmd = SwarmCommand::UpdateVmPlacement { vm_id: format!("vm-{}", i), node_id: 1 };
        raft.submit_command(cmd, (i + 1) as u64).unwrap();
    }
    assert_eq!(raft.get_vm_placements().len(), 4);
    raft.submit_command(SwarmCommand::RemoveVmPlacement { vm_id: "vm-1".to_string() }, 5).unwrap();
    assert_eq!(raft.get_vm_placements().len(), 3);
    assert!(raft.get_vm_placements().iter().all(|p| p.vm_id != "vm-1"));
}

#[test]
fn test_swarm_raft_not_initialized_error() {
    let mut raft = SwarmRaft::new(1);
    let result = raft.add_node(2, "10.0.0.2:7946".to_string(), "key2".to_string(), None, None);
    assert!(result.is_err());
    assert!(result.unwrap_err().contains("not initialized"));
    let cmd = SwarmCommand::UpdateVmPlacement { vm_id: "vm".to_string(), node_id: 1 };
    let result = raft.submit_command(cmd, 1);
    assert!(result.is_err());
}

#[test]
fn test_swarm_raft_remove_nonexistent_node() {
    let mut raft = SwarmRaft::new(1);
    raft.bootstrap("10.0.0.1:7946".to_string(), "key1".to_string(), None, None).unwrap();
    let result = raft.remove_node(999);
    assert!(result.is_err());
}

// ---- further cases

#[test]
fn removing_a_node_drops_its_placements_and_reports_peers() {
    let mut raft = SwarmRaft::new(1);
    raft.bootstrap("10.0.0.1:7946".to_string(), "k".to_string(), None, None).unwrap();
    raft.add_node(5, "10.0.0.5:7946".to_string(), "k5".to_string(), None, None).unwrap();
    raft.add_node(3, "10.0.0.3:7946".to_string(), "k3".to_string(), None, None).unwrap();
    raft.submit_command(SwarmCommand::UpdateVmPlacement { vm_id: "b".to_string(), node_id: 5 }, 1).unwrap();
    raft.submit_command(SwarmCommand::UpdateVmPlacement { vm_id: "a".to_string(), node_id: 3 }, 2).unwrap();
    let ids: Vec<u64> = raft.get_nodes().iter().map(|n| n.id).collect();
    assert_eq!(ids, vec![1, 3, 5]);
    let vms: Vec<String> = raft.get_vm_placements().iter().map(|p| p.vm_id.clone()).collect();
    assert_eq!(vms, vec!["a".to_string(), "b".to_string()]);
    raft.take_side_effects();
    raft.remove_node(5).unwrap();
    let vms: Vec<String> = raft.get_vm_placements().iter().map(|p| p.vm_id.clone()).collect();
    assert_eq!(vms, vec!["a".to_string()]);
    let effects = raft.take_side_effects();
    assert_eq!(effects.len(), 2);
    match &effects[0] {
        SwarmSideEffect::NodeRemoved { node_id, subnet_id } => {
            assert_eq!(*node_id, 5);
            assert_eq!(*subnet_id, 6);
        }
        _ => panic!("expected NodeRemoved"),
    }
    match &effects[1] {
        SwarmSideEffect::LocalNodeConfigured { node_id, subnet_id, peers } => {
            assert_eq!(*node_id, 1);
            assert_eq!(*subnet_id, 2);
            let peer_ids: Vec<u64> = peers.iter().map(|n| n.id).collect();
            assert_eq!(peer_ids, vec![3]);
        }
        _ => panic!("expected LocalNodeConfigured"),
    }
}

#[test]
fn error_messages_name_the_node() {
    let mut raft = SwarmRaft::new(7);
    assert_eq!(raft.bootstrap("a".to_string(), "k".to_string(), None, None), Ok(()));
    assert_eq!(raft.bootstrap("a".to_string(), "k".to_string(), None, None), Err("Already initialized".to_string()));
    raft.add_node(9, "b".to_string(), "k9".to_string(), None, None).unwrap();
    assert_eq!(raft.add_node(9, "b".to_string(), "k9".to_string(), None, None), Err("Node 9 already exists".to_string()));
    assert_eq!(raft.remove_node(42), Err("Node 42 not found".to_string()));
    assert_eq!(raft.remove_node(7), Err("Cannot remove self".to_string()));
    assert_eq!(raft.update_node_endpoint(42, None, None, None), Err("Node not found".to_string()));
}

#[test]
fn subnet_zero_and_wraparound() {
    assert_eq!(SwarmRaft::compute_subnet_id(0), 1);
    assert_eq!(SwarmRaft::compute_subnet_id(253), 254);
    assert_eq!(SwarmRaft::compute_subnet_id(254), 1);
    assert_eq!(SwarmRaft::compute_subnet_id(255), 2);
    let mut n = NodeInfo::new(4, "x".to_string(), "k".to_string());
    assert_eq!(n.subnet(), None);
    n.subnet_id = Some(5);
    assert_eq!(n.subnet(), Some("10.42.5.0/24".to_string()));
}

#[test]
fn wireguard_kept_only_when_key_and_port_given() {
    let mut raft = SwarmRaft::new(1);
    raft.bootstrap("a".to_string(), "k".to_string(), Some("wg".to_string()), None).unwrap();
    let me = raft.get_node(1).unwrap();
    assert_eq!(me.wireguard_key, None);
    assert_eq!(me.wireguard_port, None);
    assert!(me.is_leader);
}

#[test]
fn replay_window_forgets_old_indices() {
    let mut raft = SwarmRaft::new(1);
    raft.bootstrap("a".to_string(), "k".to_string(), None, None).unwrap();
    for i in 0..1001u64 {
        raft.submit_command(SwarmCommand::UpdateVmPlacement { vm_id: format!("vm-{}", i), node_id: 1 }, i).unwrap();
    }
    // index 0 was dropped from the window: submitting it again applies it
    raft.submit_command(SwarmCommand::RemoveVmPlacement { vm_id: "vm-0".to_string() }, 0).unwrap();
    assert!(raft.get_vm_placements().iter().all(|p| p.vm_id != "vm-0"));
    // index 900 is still remembered: the command is acknowledged and ignored
    raft.submit_command(SwarmCommand::RemoveVmPlacement { vm_id: "vm-1".to_string() }, 900).unwrap();
    assert!(raft.get_vm_placements().iter().any(|p| p.vm_id == "vm-1"));
}

#[test]
fn last_applied_index_is_stored() {
    let mut raft = SwarmRaft::new(3);
    assert_eq!(raft.node_id(), 3);
    assert_eq!(raft.last_applied_index(), 0);
    raft.set_last_applied_index(17);
    assert_eq!(raft.last_applied_index(), 17);
}

#[test]
fn test_add_node_refuses_leased_subnet() {
    let mut raft = SwarmRaft::new(1);
    raft.bootstrap("10.0.0.1:7946".to_string(), "key1".to_string(), None, None).unwrap();
    // 255 % 254 + 1 == 2, the lease node 1 already holds.
    let result = raft.add_node(255, "10.0.0.255:7946".to_string(), "key255".to_string(), None, None);
    assert_eq!(result, Err("Subnet 10.42.2.0/24 is already leased to another node".to_string()));
    assert!(raft.get_node(255).is_none());
    assert_eq!(raft.get_nodes().len(), 1);
    // A free lease is still granted.
    assert_eq!(raft.add_node(3, "10.0.0.3:7946".to_string(), "key3".to_string(), None, None), Ok(4));
}
