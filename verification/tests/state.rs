use vyomad::api::{PortMapping, VolumeMount};
use vyomad::state::adoption::adoption_at_start;
use vyomad::state::monitor::{fs_restart_source, inspect_status, monitor_exit_message};
use vyomad::state::teardown::{teardown_plan, CniRelease};
use vyomad::state::recovery::{Recovery, SavedState, VmFacts, VmRecoveryStatus};
use vyomad::state::wal::{get_vm_entries, now, verify_wal_integrity, wal_key, WalEntry};
use vyomad::state::{VmState, VmStatus};

fn saved_state(id: &str) -> VmState {
    VmState {
        id: id.to_string(),
        tap_name: "tap1".to_string(),
        dm_name: String::new(),
        loop_devices: vec!["/dev/loop3".to_string()],
        cow_file_path: "/tmp/cow".to_string(),
        ip_address: "172.16.0.9".to_string(),
        cgroup_path: Some("/sys/fs/cgroup/vyoma/x".to_string()),
        netns_path: None,
        ports: vec![],
        volumes: vec![],
        hostname: None,
        labels: vec![],
        base_image_path: String::new(),
        vcpu: 2,
        mem_size_mib: 512,
        networks: vec![],
        status: VmStatus::Running,
    }
}

#[test]
fn vm_status_defaults_to_pending_attestation() {
    assert_eq!(VmStatus::default(), VmStatus::PendingAttestation);
}

#[test]
fn probe_classification() {
    assert_eq!(Recovery::check_vm_status(false, Some(true)), VmRecoveryStatus::Crashed);
    assert_eq!(Recovery::check_vm_status(true, Some(true)), VmRecoveryStatus::Running);
    assert_eq!(Recovery::check_vm_status(true, Some(false)), VmRecoveryStatus::Crashed);
    assert_eq!(Recovery::check_vm_status(true, None), VmRecoveryStatus::Unknown);
}

#[test]
fn reconstruction_needs_a_live_socket() {
    assert_eq!(
        Recovery::reconstruct_vm_state("v", false, VmRecoveryStatus::Running).unwrap_err(),
        "CH socket not found, cannot reconstruct state"
    );
    assert_eq!(
        Recovery::reconstruct_vm_state("v", true, VmRecoveryStatus::Unknown).unwrap_err(),
        "VM is not running, cannot reconstruct state"
    );
    let s = Recovery::reconstruct_vm_state("v", true, VmRecoveryStatus::Running).unwrap();
    assert_eq!(s.id, "v");
    assert_eq!(s.ip_address, "10.0.0.2");
    assert_eq!(s.status, VmStatus::Running);
    assert!(s.loop_devices.is_empty());
}

#[test]
fn cleanup_plan_lists_named_resources() {
    let p = Recovery::cleanup_plan(&saved_state("x"));
    assert_eq!(p.tap_name, Some("tap1".to_string()));
    assert_eq!(p.dm_name, None);
    assert_eq!(p.loop_devices, vec!["/dev/loop3".to_string()]);
    assert_eq!(p.cgroup_vm_id, Some("x".to_string()));
}

fn facts(id: &str, dir: bool, saved: SavedState, socket: bool, probe: Option<bool>) -> VmFacts {
    VmFacts { vm_id: id.to_string(), dir_exists: dir, saved, socket_exists: socket, probe }
}

#[test]
fn recovery_plan_adopts_live_and_cleans_dead() {
    let plan = Recovery::plan_recovery(vec![
        facts("alive", true, SavedState::Loaded(saved_state("alive")), true, Some(true)),
        facts("dead", true, SavedState::Loaded(saved_state("dead")), true, Some(false)),
        facts("gone-dir", false, SavedState::Loaded(saved_state("gone-dir")), true, Some(true)),
        facts("rebuilt", true, SavedState::Missing, true, Some(true)),
        facts("lost", true, SavedState::Missing, false, None),
        facts("broken", true, SavedState::Unreadable, true, Some(true)),
        facts("slow", true, SavedState::Loaded(saved_state("slow")), true, None),
        facts("nosock", true, SavedState::Loaded(saved_state("nosock")), false, None),
    ]);
    let adopted: Vec<&str> = plan.adopted.iter().map(|a| a.vm_id.as_str()).collect();
    assert_eq!(adopted, vec!["alive", "rebuilt"]);
    assert!(plan.adopted.iter().all(|a| a.status == VmRecoveryStatus::Running));
    assert_eq!(plan.adopted[0].state.ip_address, "172.16.0.9");
    assert_eq!(plan.adopted[1].state.ip_address, "10.0.0.2");
    assert_eq!(plan.cleanup, vec!["dead".to_string(), "nosock".to_string()]);
}

#[test]
fn wal_entries_carry_their_vm() {
    let e = WalEntry::vm_checkpoint("vm-abc".to_string(), "/snap".to_string());
    assert_eq!(e.vm_id(), Some("vm-abc"));
    assert_eq!(wal_key(42, &e), "42:vm-abc");
    assert!(now() > 0);
}

#[test]
fn wal_entries_of_one_vm() {
    let log = vec![
        WalEntry::vm_create("a".to_string()),
        WalEntry::vm_create("b".to_string()),
        WalEntry::vm_start("a".to_string()),
    ];
    let mine = get_vm_entries(&log, "a");
    assert_eq!(mine.len(), 2);
    assert!(mine.iter().all(|e| e.vm_id() == Some("a")));
}

#[test]
fn wal_integrity_report() {
    let log = vec![
        WalEntry::vm_create("a".to_string()),
        WalEntry::vm_create("b".to_string()),
        WalEntry::vm_start("a".to_string()),
        WalEntry::vm_start("b".to_string()),
        WalEntry::vm_stop("b".to_string()),
        WalEntry::vm_destroy("b".to_string()),
        WalEntry::vm_create("a".to_string()),
    ];
    let r = verify_wal_integrity(&log);
    assert_eq!(r.total_entries, 7);
    assert_eq!(r.orphaned_vms, vec!["a".to_string()]);
    assert_eq!(r.running_vms, vec!["a".to_string()]);
}

#[test]
fn a_live_vm_is_adopted_with_its_forwards_and_folders() {
    let mut st = saved_state("vm-a");
    st.ports = vec![PortMapping { host_port: 8080, vm_port: 80 }, PortMapping { host_port: 2222, vm_port: 22 }];
    st.volumes = vec![
        VolumeMount { host_path: "/data".to_string(), vm_path: "/mnt/data".to_string(), read_only: false },
        VolumeMount { host_path: "/logs".to_string(), vm_path: "/mnt/logs".to_string(), read_only: true },
    ];
    let a = adoption_at_start(&st, "/home/u/.vyoma/vms/vm-a", true);
    assert_eq!(a.status, VmStatus::Running);
    assert_eq!(a.socket_path, "/home/u/.vyoma/vms/vm-a/ch.sock");
    assert!(a.keeps_config && !a.discard);
    assert_eq!(a.proxies.len(), 2);
    assert_eq!((a.proxies[0].host_port, a.proxies[0].vm_port), (8080, 80));
    assert_eq!((a.proxies[1].host_port, a.proxies[1].vm_port), (2222, 22));
    assert_eq!(a.proxies[1].vm_ip, "172.16.0.9");
    assert_eq!(a.fs_daemons.len(), 2);
    assert_eq!(a.fs_daemons[0].tag, "vol0");
    assert_eq!(a.fs_daemons[1].tag, "vol1");
    assert_eq!(a.fs_daemons[1].socket_path, "/home/u/.vyoma/vms/vm-a/fs_1.sock");
}

#[test]
fn a_dead_vm_found_at_start_is_discarded() {
    let mut st = saved_state("vm-b");
    st.ports = vec![PortMapping { host_port: 8080, vm_port: 80 }];
    let a = adoption_at_start(&st, "/vms/vm-b", false);
    assert_eq!(a.status, VmStatus::Error { reason: "VM was dead during recovery".to_string() });
    assert_eq!(a.socket_path, "/vms/vm-b/ch.sock");
    assert!(a.proxies.is_empty() && a.fs_daemons.is_empty());
    assert!(!a.keeps_config && a.discard);
}

#[test]
fn teardown_of_a_vm_in_a_namespace_with_networks() {
    let mut st = saved_state("vm-c");
    st.netns_path = Some("/var/run/netns/vm-vm-c".to_string());
    st.networks = vec!["frontend".to_string(), "backend".to_string()];
    let p = teardown_plan(&st);
    match p.cni {
        Some(CniRelease::Networks { networks, netns }) => {
            assert_eq!(networks, vec!["frontend".to_string(), "backend".to_string()]);
            assert_eq!(netns, "/var/run/netns/vm-vm-c");
        },
        _ => panic!("expected a release of each network"),
    }
    assert_eq!(p.netns_name, Some("vm-vm-c".to_string()));
    assert_eq!(p.tap_name, Some("tap1".to_string()));
    assert_eq!(p.dm_name, "");
    assert_eq!(p.loop_devices, vec!["/dev/loop3".to_string()]);
    assert_eq!(p.cow_file, "/tmp/cow");
    assert_eq!(p.cgroup_vm_id, Some("vm-c".to_string()));
}

#[test]
fn teardown_of_a_single_interface_vm() {
    let mut st = saved_state("vm-d");
    st.netns_path = Some("/ns".to_string());
    st.tap_name = String::new();
    st.cgroup_path = None;
    let p = teardown_plan(&st);
    match p.cni {
        Some(CniRelease::Single { netns, if_name }) => {
            assert_eq!(netns, "/ns");
            assert_eq!(if_name, "eth0");
        },
        _ => panic!("expected a single-interface release"),
    }
    assert!(p.tap_name.is_none());
    assert!(p.cgroup_vm_id.is_none());
    let p = teardown_plan(&saved_state("vm-e"));
    assert!(p.cni.is_none() && p.netns_name.is_none());
}

#[test]
fn an_exited_hypervisor_is_reported_with_its_oom_kills() {
    assert_eq!(
        monitor_exit_message("vm1", "exit status: 1", None),
        "Monitor: VM vm1 Cloud Hypervisor process EXITED (Reaped): exit status: 1"
    );
    assert_eq!(
        monitor_exit_message("vm1", "exit status: 1", Some(0)),
        "Monitor: VM vm1 Cloud Hypervisor process EXITED (Reaped): exit status: 1"
    );
    assert_eq!(
        monitor_exit_message("vm1", "signal: 9", Some(3)),
        "Monitor: VM vm1 Cloud Hypervisor process EXITED (Reaped): signal: 9 [WARNING: OOM Kill Detected: 3]"
    );
}

#[test]
fn an_exited_folder_daemon_restarts_on_its_volume() {
    let vols = vec![VolumeMount { host_path: "/data".to_string(), vm_path: "/mnt".to_string(), read_only: false }];
    assert_eq!(fs_restart_source(&vols, 0), Some("/data".to_string()));
    assert_eq!(fs_restart_source(&vols, 1), None);
}

#[test]
fn inspected_statuses() {
    assert_eq!(inspect_status(&VmStatus::PendingAttestation), ("pending_attestation".to_string(), None));
    assert_eq!(inspect_status(&VmStatus::Running), ("running".to_string(), None));
    assert_eq!(
        inspect_status(&VmStatus::Error { reason: "oom".to_string() }),
        ("error".to_string(), Some("oom".to_string()))
    );
}

#[test]
fn wal_entries_carry_the_given_timestamp() {
    let e = WalEntry::vm_create_at("vm-1".to_string(), 42);
    assert!(matches!(&e, WalEntry::VmCreate { id, timestamp: 42 } if id == "vm-1"));
    let c = WalEntry::vm_checkpoint_at("vm-1".to_string(), "/snap/1".to_string(), 7);
    assert!(matches!(&c, WalEntry::VmCheckpoint { id, snapshot_path, timestamp: 7 } if id == "vm-1" && snapshot_path == "/snap/1"));
    assert!(matches!(WalEntry::vm_start_at("a".to_string(), 1), WalEntry::VmStart { timestamp: 1, .. }));
    assert!(matches!(WalEntry::vm_stop_at("a".to_string(), 2), WalEntry::VmStop { timestamp: 2, .. }));
    assert!(matches!(WalEntry::vm_destroy_at("a".to_string(), 3), WalEntry::VmDestroy { timestamp: 3, .. }));
}
