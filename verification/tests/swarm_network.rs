use vyomad::swarm::network_plan::{
    bridge_conf_path, plan_network_actions, route_failure_reported, vxlan_device_add_args, vxlan_device_show_args,
    vxlan_device_up_args, vxlan_route_args, NetworkAction,
};
use vyomad::swarm::raft::{NodeInfo, SwarmSideEffect};

fn describe(actions: &[NetworkAction]) -> Vec<String> {
    actions
        .iter()
        .map(|a| match a {
            NetworkAction::EnsureWireguard { subnet_id } => format!("wg {}", subnet_id),
            NetworkAction::ConfigureBridge { subnet } => format!("bridge {}", subnet),
            NetworkAction::EnsureVxlanDevice => "vxlan".to_string(),
            NetworkAction::AddWireguardPeer { public_key, endpoint, allowed_ips } => {
                format!("peer {} {} {}", public_key, endpoint, allowed_ips)
            }
            NetworkAction::AddRoute { peer_ip, subnet } => format!("route {} {}", subnet, peer_ip),
            NetworkAction::RemoveSubnetRoute { subnet } => format!("unroute {}", subnet),
        })
        .collect()
}

#[test]
fn local_node_configuration_reaches_every_peer() {
    let mut with_wg = NodeInfo::new(2, "10.0.0.2:7946".to_string(), "pk2".to_string());
    with_wg.wireguard_key = Some("wg2".to_string());
    with_wg.wireguard_port = Some(51820);
    with_wg.subnet_id = Some(3);
    let plain = NodeInfo::new(3, "10.0.0.3".to_string(), "pk3".to_string());
    let effect = SwarmSideEffect::LocalNodeConfigured { node_id: 1, subnet_id: 2, peers: vec![with_wg, plain] };
    assert_eq!(
        describe(&plan_network_actions(&effect)),
        vec![
            "wg 2",
            "bridge 10.42.2.0/24",
            "vxlan",
            "peer wg2 10.0.0.2:51820 10.42.3.0/24",
            "route 10.42.3.0/24 10.0.0.2",
            "route 10.42.0.0/24 10.0.0.3",
        ]
    );
}

#[test]
fn node_added_removed_updated() {
    let added = SwarmSideEffect::NodeAdded {
        node_id: 5,
        addr: "10.0.0.5".to_string(),
        wireguard_key: Some("k".to_string()),
        wireguard_port: Some(51820),
        subnet_id: 6,
    };
    assert_eq!(
        describe(&plan_network_actions(&added)),
        vec!["peer k 10.0.0.5:51820 10.42.6.0/24", "route 10.42.6.0/24 10.0.0.5"]
    );
    let no_wg = SwarmSideEffect::NodeAdded {
        node_id: 5,
        addr: "10.0.0.5".to_string(),
        wireguard_key: Some("k".to_string()),
        wireguard_port: None,
        subnet_id: 6,
    };
    assert_eq!(describe(&plan_network_actions(&no_wg)), vec!["route 10.42.6.0/24 10.0.0.5"]);
    let removed = SwarmSideEffect::NodeRemoved { node_id: 5, subnet_id: 6 };
    assert_eq!(describe(&plan_network_actions(&removed)), vec!["unroute 10.42.6.0/24"]);
    let updated = SwarmSideEffect::NodeUpdated {
        node_id: 5,
        old_subnet_id: 6,
        new_addr: Some("10.0.0.50".to_string()),
        new_wireguard_key: Some("k2".to_string()),
        new_wireguard_port: Some(1),
    };
    assert_eq!(describe(&plan_network_actions(&updated)), vec!["peer k2 10.0.0.50:1 10.42.6.0/24"]);
    let partial = SwarmSideEffect::NodeUpdated {
        node_id: 5,
        old_subnet_id: 6,
        new_addr: Some("10.0.0.50".to_string()),
        new_wireguard_key: None,
        new_wireguard_port: None,
    };
    assert!(plan_network_actions(&partial).is_empty());
}

#[test]
fn host_commands_for_the_vxlan_overlay() {
    assert_eq!(
        vxlan_route_args("10.0.0.2", "10.42.3.0/24"),
        vec!["route", "add", "10.42.3.0/24", "encap", "vxlan", "id", "42", "dst", "10.0.0.2", "dev", "vyoma-vxlan"]
    );
    assert_eq!(vxlan_device_show_args(), vec!["link", "show", "vyoma-vxlan"]);
    assert_eq!(
        vxlan_device_add_args(),
        vec!["link", "add", "vyoma-vxlan", "type", "vxlan", "id", "42", "dstport", "4789", "external"]
    );
    assert_eq!(vxlan_device_up_args(), vec!["link", "set", "vyoma-vxlan", "up"]);
    assert_eq!(bridge_conf_path("/home/u"), "/home/u/.vyoma/cni/net.d/10-vyoma-bridge.conf");
}

#[test]
fn an_existing_route_is_not_reported() {
    assert!(!route_failure_reported("RTNETLINK answers: File exists"));
    assert!(!route_failure_reported("route exists"));
    assert!(route_failure_reported("RTNETLINK answers: Network is unreachable"));
    assert!(route_failure_reported(""));
}
