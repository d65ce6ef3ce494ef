use vyomad::api::handlers::{
    default_driver, default_mem, default_vcpu, network_created_message, network_deleted_message, network_driver,
    parse_node_id, policy_status_message, policy_update, register_subnet_id, restore_request_for, swarm_node_infos,
    NetworkDriver, PolicyRequest, RunRequest, TimeTravelRequest,
};
use vyomad::auth::is_authorized;
use vyomad::auto_snapshot::{auto_label_at, auto_snapshot_label, auto_snapshot_tick, SnapshotTaskRegistry};
use vyomad::clock::{utc_from_nanos, utc_now, UtcTimestamp};
use vyomad::chaos::{any_crash_marker, ChaosState};
use vyomad::cluster::NodeInfo as LegacyNode;
use vyomad::swarm::raft::NodeInfo;
use vyomad::swarm::raft_types::{SwarmNode, SwarmResponse};
use vyomad::timemachine::SnapshotEntry;
use vyomad::ui::{inject_meta, ui_asset_path, ui_route, UiRoute};
use vyomad::vm_service::types::VmRunRequest;

#[test]
fn request_defaults() {
    assert_eq!(default_vcpu(), 1);
    assert_eq!(default_mem(), 512);
    assert_eq!(default_driver(), "bridge");
}

#[test]
fn run_request_converts_field_for_field() {
    let req = RunRequest {
        image: "nginx:latest".to_string(),
        vcpu: 4,
        mem_size_mib: 2048,
        ports: vec![],
        volumes: vec![],
        hostname: Some("nginx-server".to_string()),
        networks: vec!["bridge0".to_string(), "bridge1".to_string()],
        labels: vec![("service".to_string(), "nginx".to_string())],
        base_image_path: String::new(),
    };
    let vm_req: VmRunRequest = req.into();
    assert_eq!(vm_req.networks.len(), 2);
    assert_eq!(vm_req.vcpu, 4);
    assert_eq!(vm_req.labels[0].1, "nginx");
}

#[test]
fn network_drivers() {
    assert_eq!(network_driver("bridge"), Ok(NetworkDriver::Bridge));
    assert_eq!(network_driver("overlay"), Ok(NetworkDriver::Overlay));
    assert_eq!(network_driver("macvlan"), Err("Unknown driver: macvlan".to_string()));
    assert_eq!(network_created_message(NetworkDriver::Bridge, "n1"), "Network n1 created");
    assert_eq!(network_created_message(NetworkDriver::Overlay, "n1"), "Overlay Network n1 created");
    assert_eq!(network_deleted_message("n1"), "Network n1 deleted");
}

#[test]
fn registration_ids_and_subnets() {
    assert_eq!(parse_node_id("42"), Ok(42));
    assert_eq!(parse_node_id("+7"), Ok(7));
    assert_eq!(parse_node_id("18446744073709551615"), Ok(u64::MAX));
    assert_eq!(parse_node_id("18446744073709551616"), Err("Invalid node ID format".to_string()));
    assert_eq!(parse_node_id("node-1"), Err("Invalid node ID format".to_string()));
    assert_eq!(register_subnet_id(1), 2);
    assert_eq!(register_subnet_id(253), 254);
    assert_eq!(register_subnet_id(254), 1);
}

#[test]
fn swarm_node_listing() {
    let nodes = vec![NodeInfo::new(3, "10.0.0.3:7946".to_string(), "k3".to_string())];
    let listed = swarm_node_infos(&nodes);
    assert_eq!(listed.len(), 1);
    assert_eq!(listed[0].id, 3);
    assert_eq!(listed[0].addr, "10.0.0.3:7946");
    assert!(!listed[0].is_leader);
}

#[test]
fn policy_requests() {
    let on = policy_update(PolicyRequest { policy: "require-measured-boot".to_string(), enabled: true }).unwrap();
    assert!(on.enabled);
    assert_eq!(on.message, "Measured boot policy enabled. VMs will require TPM attestation.");
    let off = policy_update(PolicyRequest { policy: "require-measured-boot".to_string(), enabled: false }).unwrap();
    assert_eq!(off.message, "Measured boot policy disabled.");
    let bad = policy_update(PolicyRequest { policy: "other".to_string(), enabled: true });
    assert_eq!(bad.unwrap_err(), "Unknown policy: other");
    assert_eq!(policy_status_message(true), "enforced");
    assert_eq!(policy_status_message(false), "optional");
}

#[test]
fn api_token_checks() {
    assert!(is_authorized(None, None, None));
    assert!(is_authorized(Some("s3cret"), Some("Bearer s3cret"), None));
    assert!(!is_authorized(Some("s3cret"), Some("Bearer wrong"), None));
    assert!(!is_authorized(Some("s3cret"), Some("bearer s3cret"), None));
    assert!(is_authorized(Some("s3cret"), None, Some("a=1; vyoma_token=s3cret; b=2")));
    assert!(is_authorized(Some("s3cret"), Some("Bearer no"), Some("vyoma_token=s3cret")));
    assert!(is_authorized(Some("s3cret"), None, Some("x=1;\t vyoma_token=s3cret \t")));
    assert!(!is_authorized(Some("s3cret"), None, Some("vyoma_token=s3cre")));
    assert!(!is_authorized(Some("s3cret"), None, Some("my_vyoma_token=s3cret")));
    assert!(!is_authorized(Some("s3cret"), None, None));
}

#[test]
fn chaos_crash_points() {
    let mut chaos = ChaosState::new();
    let names = vec!["enable_crash_after_wal".to_string(), "vyoma.db".to_string(), "enable_crash_boot".to_string()];
    assert!(chaos.scan_crash_points(&names));
    assert!(chaos.check_crash_point("after_wal"));
    assert!(chaos.check_crash_point("boot"));
    assert!(!chaos.check_crash_point("vyoma.db"));
    assert!(chaos.should_crash(true, "boot"));
    assert!(!chaos.should_crash(false, "boot"));
    assert!(!chaos.scan_crash_points(&vec!["x".to_string()]));
    assert!(!chaos.check_crash_point("boot"));
    assert!(any_crash_marker(&names));
    assert!(!any_crash_marker(&vec!["enable_crash".to_string()]));
}

#[test]
fn ui_meta_injection() {
    let html = "<html><head><title>x</title></head><body></body></html>".to_string();
    let out = inject_meta(html, "tok", "0.3.0");
    assert_eq!(
        out,
        "<html><head><title>x</title><meta name=\"vyoma-api-token\" content=\"tok\"><meta name=\"vyoma-daemon-version\" content=\"0.3.0\"></head><body></body></html>"
    );
    assert_eq!(inject_meta("no head".to_string(), "t", "v"), "no head");
}

#[test]
fn snapshot_task_registry() {
    let mut reg: SnapshotTaskRegistry<u32> = SnapshotTaskRegistry::new();
    assert_eq!(reg.start_task("vm-b", 1), Ok(()));
    assert_eq!(reg.start_task("vm-a", 2), Ok(()));
    assert_eq!(reg.start_task("vm-b", 3), Err("Auto-snapshot task already running for VM vm-b".to_string()));
    assert!(reg.is_running("vm-a"));
    assert_eq!(reg.list_running(), vec!["vm-a".to_string(), "vm-b".to_string()]);
    assert_eq!(reg.stop_task("vm-b"), Ok(1));
    assert_eq!(reg.stop_task("vm-b"), Err("No auto-snapshot task found for VM vm-b".to_string()));
    assert!(!reg.is_running("vm-b"));
}

#[test]
fn auto_snapshot_ticks_prune_to_retention() {
    let mut history: Vec<SnapshotEntry> = Vec::new();
    let first = auto_snapshot_tick(&mut history, "vm-1".to_string(), "a".to_string(), 2);
    let second = auto_snapshot_tick(&mut history, "vm-1".to_string(), "b".to_string(), 2);
    assert_eq!(history.len(), 2);
    assert_eq!(second.parent_id, Some(first.id.clone()));
    let third = auto_snapshot_tick(&mut history, "vm-1".to_string(), "c".to_string(), 2);
    assert_eq!(history.len(), 2);
    // Pruning the oldest of three relinks the freed slot with a copy of the
    // newest entry, whose parent becomes the middle one.
    assert_eq!(history[0].id, third.id);
    assert_eq!(history[0].parent_id, Some(second.id.clone()));
    assert_eq!(history[1].id, third.id);
    let label = auto_snapshot_label(None);
    assert!(label.starts_with("auto-"));
    assert_eq!(auto_snapshot_label(Some("hourly".to_string())), "hourly");
}

#[test]
fn legacy_cluster_node() {
    let n = LegacyNode::new("n1".to_string(), "10.0.0.1".to_string(), "manager".to_string(), 3)
        .with_wireguard("pk".to_string(), 51820);
    assert_eq!(n.subnet_id, 3);
    assert_eq!(n.wireguard_public_key, Some("pk".to_string()));
    assert_eq!(n.wireguard_port, Some(51820));
}

#[test]
fn consensus_records() {
    let n = SwarmNode::default();
    assert!(n.addr.is_empty() && n.public_key.is_empty());
    assert!(SwarmResponse { success: true }.success);
}

#[test]
fn time_travel_restores_from_the_snapshot_directory() {
    let req = TimeTravelRequest { vm_id: "vm-1".to_string(), snapshot_id: "s1".to_string() };
    let r = restore_request_for("/home/u", &req);
    assert_eq!(r.snapshot_path, "/home/u/.vyoma/vms/vm-1/snapshots/s1/snapshot.snap");
    assert_eq!(r.mem_path, "/home/u/.vyoma/vms/vm-1/snapshots/s1/memory.mem");
    assert_eq!(r.cow_path, "/home/u/.vyoma/vms/vm-1/snapshots/s1/diff.cow");
    assert_eq!(r.original_vm_id, "vm-1");
}

#[test]
fn ui_asset_paths() {
    assert_eq!(ui_asset_path("/"), "index.html");
    assert_eq!(ui_asset_path(""), "index.html");
    assert_eq!(ui_asset_path("//assets/app.js"), "assets/app.js");
    assert_eq!(ui_asset_path("/vms/123"), "vms/123");
}

#[test]
fn ui_routes() {
    match ui_route("index.html".to_string(), true, true) {
        UiRoute::Serve { path, content_type, inject } => {
            assert_eq!(path, "index.html");
            assert_eq!(content_type, "text/html");
            assert!(inject);
        },
        _ => panic!("expected the asset"),
    }
    match ui_route("assets/app.js".to_string(), true, true) {
        UiRoute::Serve { content_type, inject, .. } => {
            assert!(!inject);
            assert_eq!(content_type, "text/javascript");
        },
        _ => panic!("expected the asset"),
    }
    match ui_route("about.html".to_string(), true, false) {
        UiRoute::Serve { inject, .. } => assert!(!inject),
        _ => panic!("expected the asset"),
    }
    match ui_route("blob.unknownext".to_string(), true, false) {
        UiRoute::Serve { content_type, .. } => assert_eq!(content_type, "application/octet-stream"),
        _ => panic!("expected the asset"),
    }
    assert!(matches!(ui_route("missing.css".to_string(), false, true), UiRoute::NotFound));
    assert!(matches!(ui_route("vms/123".to_string(), false, true), UiRoute::AppPage { inject: true }));
    assert!(matches!(ui_route("vms/123".to_string(), false, false), UiRoute::AppPage { inject: false }));
}

#[test]
fn automatic_labels_render_the_utc_time() {
    assert_eq!(auto_label_at(UtcTimestamp { secs: 0, nanos: 0 }), "auto-19700101-000000");
    assert_eq!(auto_label_at(UtcTimestamp { secs: 1_700_000_000, nanos: 999 }), "auto-20231114-221320");
}

#[test]
fn utc_instants_from_nanoseconds() {
    assert_eq!(utc_from_nanos(1_500_000_000), Some(UtcTimestamp { secs: 1, nanos: 500_000_000 }));
    assert_eq!(utc_from_nanos(0), Some(UtcTimestamp { secs: 0, nanos: 0 }));
    assert_eq!(utc_from_nanos(253_402_300_800 * 1_000_000_000), None);
    let t = utc_now();
    assert!(t.secs > 1_600_000_000);
    assert!(t.nanos < 1_000_000_000);
}
