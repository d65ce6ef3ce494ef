use vyomad::api::{PortMapping, VolumeMount};
use vyomad::state::VmStatus;
use vyomad::vm_service::boot::{boot_devices, last_path_part, vtpm_needed, vtpm_vm_id};
use vyomad::vm_service::lifecycle::{
    cgroup_limits, instance_tap_name, new_vm_identity, run_response, run_vm_step, status_string, uuid_first_field,
    vm_cid, RunStage, RunStep, VmCreationContext,
};
use vyomad::vm_service::storage::{cow_size_mib, privileged_layout, rootless_storage, storage_cleanup};
use vyomad::vm_service::types::{NetworkInfo, PreparedStorage, VmNetworkConfig, VmRunRequest};

fn info(name: &str) -> NetworkInfo {
    NetworkInfo {
        ip: "10.0.0.2".to_string(),
        tap_name: "tap0".to_string(),
        gateway: None,
        interface_name: "eth0".to_string(),
        network_name: name.to_string(),
    }
}

#[test]
fn rootless_storage_uses_a_private_disk_copy() {
    let s = rootless_storage("/home/u/.vyoma/vms/abc");
    assert_eq!(s.dm_device_path, "/home/u/.vyoma/vms/abc/disk.ext4");
    assert_eq!(s.cow_file_path, "/home/u/.vyoma/vms/abc/disk.ext4");
    assert!(s.loop_devices.is_empty());
    assert_eq!(s.dm_name, "rootless");
}

#[test]
fn privileged_layout_names_the_mapper_device_after_the_vm() {
    let (cow, dm) = privileged_layout("/vms/abc/", "abc");
    assert_eq!(cow, "/vms/abc/diff.cow");
    assert_eq!(dm, "vyoma-abc");
    assert_eq!(cow_size_mib(), 2048);
}

#[test]
fn cleanup_of_rootless_storage_removes_no_mapper_device() {
    let s = rootless_storage("/vms/x");
    let c = storage_cleanup(&s);
    assert!(c.dm_name.is_none());
    assert!(c.loop_devices.is_empty());
    assert_eq!(c.cow_file, "/vms/x/disk.ext4");
}

#[test]
fn cleanup_of_privileged_storage_detaches_every_loop_device() {
    let s = PreparedStorage {
        dm_device_path: "/dev/mapper/vyoma-x".to_string(),
        loop_devices: vec!["/dev/loop0".to_string(), "/dev/loop1".to_string()],
        cow_file_path: "/vms/x/diff.cow".to_string(),
        dm_name: "vyoma-x".to_string(),
    };
    let c = storage_cleanup(&s);
    assert_eq!(c.loop_devices, vec!["/dev/loop0".to_string(), "/dev/loop1".to_string()]);
    assert_eq!(c.dm_name, Some("vyoma-x".to_string()));
    assert_eq!(c.cow_file, "/vms/x/diff.cow");
}

#[test]
fn status_strings_of_each_status() {
    assert_eq!(status_string(&VmStatus::PendingAttestation), "PendingAttestation");
    assert_eq!(status_string(&VmStatus::Running), "Running");
    assert_eq!(
        status_string(&VmStatus::Error { reason: "boot failed".to_string() }),
        "Error: boot failed"
    );
}

#[test]
fn cgroup_limits_scale_with_the_vm() {
    assert_eq!(cgroup_limits(2, 512), (200, 512 * 1024 * 1024));
    assert_eq!(cgroup_limits(1, 4096), (100, 4096u64 * 1024 * 1024));
}

#[test]
fn rollback_of_a_fresh_context_releases_nothing() {
    let ctx = VmCreationContext::new("vm1".to_string());
    assert_eq!(ctx.vm_id, "vm1");
    let r = ctx.cleanup_on_failure();
    assert!(r.networks.is_none());
    assert!(r.storage.is_none());
    assert!(r.vm_dir.is_none());
}

#[test]
fn rollback_lists_every_network_joined() {
    let mut ctx = VmCreationContext::new("vm2".to_string());
    ctx.vm_dir = Some("/vms/vm2".to_string());
    ctx.storage = Some(rootless_storage("/vms/vm2"));
    ctx.network_config = Some(VmNetworkConfig {
        ip_address: "10.0.0.2".to_string(),
        primary_tap: "tap0".to_string(),
        gateway: "10.0.0.1".to_string(),
        network_infos: vec![info("frontend"), info("backend")],
        netns_path: Some("/var/run/netns/vm2".to_string()),
    });
    let r = ctx.cleanup_on_failure();
    let (names, netns) = r.networks.unwrap();
    assert_eq!(names, vec!["frontend".to_string(), "backend".to_string()]);
    assert_eq!(netns, Some("/var/run/netns/vm2".to_string()));
    assert_eq!(r.storage.unwrap().dm_name, "rootless");
    assert_eq!(r.vm_dir, Some("/vms/vm2".to_string()));
}

#[test]
fn the_vsock_id_comes_from_the_first_uuid_field() {
    let id = "d1f2a3b4-0c1d-4e2f-8a3b-4c5d6e7f8091";
    assert_eq!(uuid_first_field(id), 0xd1f2a3b4);
    assert_eq!(vm_cid(id), 339767);
    assert_eq!(vm_cid("00000000-0000-4000-8000-000000000000"), 3);
    assert_eq!(vm_cid("ffffffff-ffff-4fff-bfff-ffffffffffff"), 967298);
}

fn net() -> VmNetworkConfig {
    VmNetworkConfig {
        ip_address: "172.16.0.7".to_string(),
        primary_tap: "tapd1f2a3b4".to_string(),
        gateway: "172.16.0.1".to_string(),
        network_infos: vec![],
        netns_path: None,
    }
}

#[test]
fn rootless_vms_record_no_tap() {
    assert_eq!(instance_tap_name(true, &net()), "");
    assert_eq!(instance_tap_name(false, &net()), "tapd1f2a3b4");
}

#[test]
fn the_run_response_reports_status_and_address() {
    let r = run_response("vm-9".to_string(), &VmStatus::PendingAttestation, &net());
    assert_eq!(r.vm_id, "vm-9");
    assert_eq!(r.status, "PendingAttestation");
    assert_eq!(r.ip_address, "172.16.0.7");
    let r = run_response("vm-9".to_string(), &VmStatus::Error { reason: "x".to_string() }, &net());
    assert_eq!(r.status, "Error: x");
}

#[test]
fn boot_devices_of_a_multi_network_vm() {
    let mut network = net();
    network.network_infos = vec![info("default"), info("backend"), info("frontend")];
    network.network_infos[1].tap_name = "tapb".to_string();
    network.network_infos[2].tap_name = "tapf".to_string();
    let req = VmRunRequest {
        image: "nginx:latest".to_string(),
        vcpu: 1,
        mem_size_mib: 512,
        ports: vec![PortMapping { host_port: 8080, vm_port: 80 }],
        volumes: vec![VolumeMount { host_path: "/srv".to_string(), vm_path: "/srv".to_string(), read_only: false }],
        hostname: None,
        networks: vec![],
        labels: vec![],
        base_image_path: String::new(),
    };
    let d = boot_devices(&network, &req, "/vms/x");
    assert_eq!(d.extra_interfaces.len(), 2);
    assert_eq!(d.extra_interfaces[0].if_name, "eth1");
    assert_eq!(d.extra_interfaces[0].tap_name, "tapb");
    assert_eq!(d.extra_interfaces[1].if_name, "eth2");
    assert_eq!(d.extra_interfaces[1].tap_name, "tapf");
    assert_eq!(d.fs_devices.len(), 1);
    assert_eq!(d.fs_devices[0].tag, "vol0");
    assert_eq!(d.fs_devices[0].socket_path, "/vms/x/fs_0.sock");
    assert_eq!(d.proxies.len(), 1);
    assert_eq!((d.proxies[0].host_port, d.proxies[0].vm_port), (8080, 80));
    assert_eq!(d.proxies[0].vm_ip, "172.16.0.7");

    let d = boot_devices(&net(), &req, "/vms/x");
    assert!(d.extra_interfaces.is_empty());
}

#[test]
fn a_new_vm_identity_pairs_its_id_and_vsock_id() {
    let (id, cid) = new_vm_identity();
    assert_eq!(id.len(), 36);
    assert_eq!(cid, vm_cid(&id));
    assert!(cid >= 3 && cid <= 1_000_002);
}

#[test]
fn a_vtpm_is_started_only_when_boot_is_verified() {
    assert!(vtpm_needed(true));
    assert!(!vtpm_needed(false));
}

#[test]
fn the_vtpm_is_named_by_label_or_socket() {
    let labels = vec![("app".to_string(), "web".to_string()), ("vm_id".to_string(), "vm-7".to_string())];
    assert_eq!(vtpm_vm_id(&labels, "/run/vyoma/abc/ch.sock"), "vm-7");
    assert_eq!(vtpm_vm_id(&Vec::new(), "/run/vyoma/abc/ch.sock"), "ch.sock");
    assert_eq!(last_path_part("plain"), "plain");
    assert_eq!(last_path_part("dir/"), "");
}

#[test]
fn a_run_goes_through_the_stages_in_order() {
    let mut ctx = VmCreationContext::new("vm3".to_string());
    let order = [
        RunStage::PrepareImage,
        RunStage::PrepareStorage,
        RunStage::SetupNetwork,
        RunStage::PrepareAgent,
        RunStage::StartVm,
    ];
    for w in order.windows(2) {
        match run_vm_step(&mut ctx, w[0], Ok(()), true) {
            RunStep::Continue(next) => assert_eq!(next, w[1]),
            other => panic!("unexpected step {:?}", other),
        }
    }
    match run_vm_step(&mut ctx, RunStage::StartVm, Ok(()), true) {
        RunStep::Booted { next, start_attestation, stop_vtpm } => {
            assert_eq!(next, RunStage::SaveState);
            assert!(start_attestation);
            assert!(!stop_vtpm);
        },
        other => panic!("unexpected step {:?}", other),
    }
    match run_vm_step(&mut ctx, RunStage::StartVm, Ok(()), false) {
        RunStep::Booted { next, start_attestation, stop_vtpm } => {
            assert_eq!(next, RunStage::MarkRunning);
            assert!(!start_attestation);
            assert!(stop_vtpm);
        },
        other => panic!("unexpected step {:?}", other),
    }
    match run_vm_step(&mut ctx, RunStage::MarkRunning, Ok(()), false) {
        RunStep::Continue(next) => assert_eq!(next, RunStage::SaveState),
        other => panic!("unexpected step {:?}", other),
    }
    for needs in [true, false] {
        match run_vm_step(&mut ctx, RunStage::SaveState, Ok(()), needs) {
            RunStep::Finish { status } => assert_eq!(status, VmStatus::PendingAttestation),
            other => panic!("unexpected step {:?}", other),
        }
    }
}

#[test]
fn late_failures_release_nothing() {
    let mut ctx = VmCreationContext::new("vm5".to_string());
    ctx.vm_dir = Some("/vms/vm5".to_string());
    match run_vm_step(&mut ctx, RunStage::PrepareAgent, Err("agent failed".to_string()), true) {
        RunStep::Abort { error } => assert_eq!(error, "agent failed"),
        other => panic!("unexpected step {:?}", other),
    }
    match run_vm_step(&mut ctx, RunStage::MarkRunning, Err("VM vm5 not found in state".to_string()), false) {
        RunStep::Abort { error } => assert_eq!(error, "Failed to update VM status: VM vm5 not found in state"),
        other => panic!("unexpected step {:?}", other),
    }
    match run_vm_step(&mut ctx, RunStage::SaveState, Err("disk full".to_string()), true) {
        RunStep::Abort { error } => assert_eq!(error, "Failed to save state"),
        other => panic!("unexpected step {:?}", other),
    }
    assert_eq!(ctx.vm_dir, Some("/vms/vm5".to_string()));
}

#[test]
fn a_failed_stage_rolls_back_what_was_acquired() {
    let mut ctx = VmCreationContext::new("vm4".to_string());
    ctx.vm_dir = Some("/vms/vm4".to_string());
    ctx.storage = Some(rootless_storage("/vms/vm4"));
    ctx.network_config = Some(VmNetworkConfig {
        ip_address: "10.0.0.2".to_string(),
        primary_tap: "tap0".to_string(),
        gateway: "10.0.0.1".to_string(),
        network_infos: vec![info("frontend")],
        netns_path: None,
    });
    match run_vm_step(&mut ctx, RunStage::StartVm, Err("boot failed".to_string()), true) {
        RunStep::RollBack { rollback, error } => {
            assert_eq!(error, "boot failed");
            assert_eq!(rollback.vm_dir, Some("/vms/vm4".to_string()));
            assert!(rollback.storage.is_some());
            assert_eq!(rollback.networks, Some((vec!["frontend".to_string()], None)));
        },
        other => panic!("unexpected step {:?}", other),
    }
    assert!(ctx.vm_dir.is_none() && ctx.storage.is_none() && ctx.network_config.is_none());
    assert_eq!(ctx.vm_id, "vm4");
}
