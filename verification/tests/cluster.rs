use vyomad::cluster::{
    join_request_node, join_targets, member_bridge_conf_path, member_bridge_subnet, member_vxlan_add_args, register_url,
    registration_peer, route_plan, wireguard_peer, ClusterManager,
    NodeInfo, RoutePlan,
};

fn worker(id: &str, ip: &str) -> NodeInfo {
    join_request_node(id.to_string(), ip.to_string(), format!("key-{}", id), 51999)
}

#[test]
fn the_seed_takes_subnet_one() {
    let mut c = ClusterManager::new("/var/lib/vyoma".to_string());
    assert_eq!(c.get_wireguard_key_path(), "/var/lib/vyoma/wireguard/private.key");
    let id = c.init("seed-1".to_string(), "10.0.0.1".to_string(), Some(("seedkey".to_string(), 51820)));
    assert_eq!(id, "seed-1");
    let me = c.self_node().unwrap();
    assert_eq!(me.role, "seed");
    assert_eq!(me.subnet_id, 1);
    assert_eq!(me.wireguard_port, Some(51820));
    assert_eq!(c.list_nodes().len(), 1);
}

#[test]
fn registrations_get_consecutive_subnets_once() {
    let mut c = ClusterManager::new("/d".to_string());
    c.init("seed".to_string(), "10.0.0.1".to_string(), None);
    let (a, peers) = c.handle_registration(worker("a", "10.0.0.2"));
    assert_eq!(a.subnet_id, 2);
    assert_eq!(peers.len(), 2);
    let (b, _) = c.handle_registration(worker("b", "10.0.0.3"));
    assert_eq!(b.subnet_id, 3);
    let (again, peers) = c.handle_registration(worker("a", "10.9.9.9"));
    assert_eq!(again.subnet_id, 2);
    assert_eq!(again.ip, "10.0.0.2");
    assert_eq!(peers.len(), 3);
    assert_eq!(peers.iter().map(|p| p.id.as_str()).collect::<Vec<_>>(), vec!["a", "b", "seed"]);
}

#[test]
fn notifications_file_unknown_members_only() {
    let mut c = ClusterManager::new("/d".to_string());
    let mut n = worker("x", "10.0.0.5");
    n.subnet_id = 9;
    assert!(c.add_node_notify(n.clone()));
    n.subnet_id = 10;
    assert!(!c.add_node_notify(n));
    assert_eq!(c.list_nodes()[0].subnet_id, 9);
}

#[test]
fn wireguard_peers_of_members() {
    let n = worker("a", "10.0.0.2");
    let p = wireguard_peer(&n).unwrap();
    assert_eq!(p.public_key, "key-a");
    assert_eq!(p.endpoint, "10.0.0.2:51999");
    assert_eq!(p.allowed_ip, "10.42.0.0/24");
    let mut no_port = n.clone();
    no_port.wireguard_port = None;
    assert!(wireguard_peer(&no_port).is_none());
    assert_eq!(registration_peer(&no_port).unwrap().endpoint, "10.0.0.2:51820");
    let mut no_key = n;
    no_key.wireguard_public_key = None;
    assert!(registration_peer(&no_key).is_none());
}

#[test]
fn routes_go_over_wireguard_when_it_runs() {
    let mut n = worker("a", "10.0.0.2");
    n.subnet_id = 4;
    match route_plan(&n, true) {
        RoutePlan::WireGuard { peer_ip, subnet, iface } => {
            assert_eq!(peer_ip, "10.0.0.2");
            assert_eq!(subnet, "10.42.4.0/24");
            assert_eq!(iface, "vyoma-wg0");
        },
        _ => panic!("expected a WireGuard route"),
    }
    match route_plan(&n, false) {
        RoutePlan::Vxlan { args } => assert_eq!(
            args,
            vec!["route", "add", "10.42.4.0/24", "encap", "vxlan", "id", "42", "dst", "10.0.0.2", "dev", "ign-vxlan"]
        ),
        _ => panic!("expected a VXLAN route"),
    }
}

#[test]
fn joining_reaches_every_other_member() {
    assert_eq!(register_url("10.0.0.1", "3000"), "http://10.0.0.1:3000/swarm/register");
    let me = worker("b", "10.0.0.3");
    let peers = vec![worker("a", "10.0.0.2"), worker("b", "10.0.0.3"), worker("c", "10.0.0.4")];
    let t = join_targets(&me, &peers);
    assert_eq!(t.iter().map(|p| p.id.as_str()).collect::<Vec<_>>(), vec!["a", "c"]);
}

#[test]
fn member_networking_files_and_devices() {
    assert_eq!(member_bridge_conf_path("/root"), "/root/.ignite/cni/net.d/10-ignite-bridge.conf");
    assert_eq!(member_bridge_subnet(7), "10.42.7.0/24");
    assert_eq!(
        member_vxlan_add_args(),
        vec!["link", "add", "ign-vxlan", "type", "vxlan", "id", "42", "dstport", "4789", "external"]
    );
}
