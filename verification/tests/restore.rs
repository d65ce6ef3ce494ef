use vyomad::api::restore::{
    new_restore_plan, restore_failure, restore_log, restore_log_at, restore_plan, restore_response, restored_record, RestoreStep,
};
use vyomad::state::wal::WalEntry;
use vyomad::state::VmStatus;

const ID: &str = "d1f2a3b4-0c1d-4e2f-8a3b-4c5d6e7f8091";

#[test]
fn a_restored_vm_is_laid_out_under_home() {
    let p = restore_plan("/home/u", ID, 100);
    assert_eq!(p.vm_id, ID);
    assert_eq!(p.vm_dir, format!("/home/u/.vyoma/vms/{}", ID));
    assert_eq!(p.base_image_file, "/home/u/.vyoma/images/alpine_latest/base.ext4");
    assert_eq!(p.cow_file, format!("/home/u/.vyoma/vms/{}/diff.cow", ID));
    assert_eq!(p.socket_path, format!("/home/u/.vyoma/vms/{}/ch.sock", ID));
    assert_eq!(p.dm_name, format!("ign-{}", ID));
    assert_eq!(p.size_sectors, 4194304);
    assert_eq!(p.tap_name, "tapd1f2a3b4");
    assert_eq!(p.bridge_name, "ign0");
    assert_eq!(p.vm_ip, "172.16.0.100");
}

#[test]
fn the_address_octet_is_clamped() {
    assert_eq!(restore_plan("/h", ID, 0).vm_ip, "172.16.0.2");
    assert_eq!(restore_plan("/h", ID, 1).vm_ip, "172.16.0.2");
    assert_eq!(restore_plan("/h", ID, 2).vm_ip, "172.16.0.2");
    assert_eq!(restore_plan("/h", ID, 254).vm_ip, "172.16.0.254");
    assert_eq!(restore_plan("/h", ID, 255).vm_ip, "172.16.0.254");
}

#[test]
fn each_failed_step_has_its_message() {
    let ((code, msg), kill) = restore_failure(RestoreStep::CopyCow, "no such file");
    assert_eq!(code, 500);
    assert_eq!(msg, "Failed to copy COW file: no such file");
    assert!(!kill);
    assert_eq!(restore_failure(RestoreStep::CreateDm, "busy").0 .1, "DM create: busy");
    assert_eq!(restore_failure(RestoreStep::SetupTap, "e").0 .1, "TAP setup: e");
    let ((_, msg), kill) = restore_failure(RestoreStep::LoadSnapshot, "bad");
    assert_eq!(msg, "Load snapshot: bad");
    assert!(kill);
    assert!(restore_failure(RestoreStep::Resume, "x").1);
    assert!(!restore_failure(RestoreStep::StartHypervisor, "x").1);
    assert_eq!(restore_failure(RestoreStep::AddNetwork, "x").0 .1, "Add net: x");
}

#[test]
fn a_restored_vm_reports_restored() {
    let p = restore_plan("/h", ID, 9);
    let r = restore_response(&p);
    assert_eq!(r.vm_id, ID);
    assert_eq!(r.status, "Restored");
    assert_eq!(r.ip_address, "172.16.0.9");
}

#[test]
fn a_new_restore_gets_a_fresh_id_and_a_host_address() {
    let p = new_restore_plan("/home/u");
    assert_eq!(p.vm_id.len(), 36);
    assert_eq!(&p.vm_id[14..15], "4");
    assert_eq!(p.vm_dir, format!("/home/u/.vyoma/vms/{}", p.vm_id));
    assert_eq!(p.tap_name, format!("tap{}", &p.vm_id[..8]));
    let octet: u32 = p.vm_ip.strip_prefix("172.16.0.").unwrap().parse().unwrap();
    assert!((2..=254).contains(&octet));
    assert_ne!(new_restore_plan("/home/u").vm_id, p.vm_id);
}

#[test]
fn a_restored_vm_is_registered_running() {
    let p = restore_plan("/home/u", ID, 100);
    let r = restored_record(&p, "/dev/loop3".to_string(), "/dev/loop4".to_string());
    assert_eq!(r.id, ID);
    assert_eq!(r.status, VmStatus::Running);
    assert_eq!(r.loop_devices, vec!["/dev/loop3".to_string(), "/dev/loop4".to_string()]);
    assert_eq!(r.tap_name, p.tap_name);
    assert_eq!(r.dm_name, format!("ign-{}", ID));
    assert_eq!(r.cow_file_path, p.cow_file);
    assert_eq!(r.ip_address, "172.16.0.100");
    assert_eq!((r.vcpu, r.mem_size_mib), (1, 512));
    assert!(r.cgroup_path.is_none() && r.netns_path.is_none() && r.hostname.is_none());
    assert!(r.ports.is_empty() && r.volumes.is_empty() && r.labels.is_empty() && r.networks.is_empty());
    assert_eq!(r.base_image_path, "");
}

#[test]
fn a_restore_logs_creation_then_start() {
    let log = restore_log_at(&ID.to_string(), 10, 11);
    assert_eq!(log.len(), 2);
    assert!(matches!(&log[0], WalEntry::VmCreate { id, timestamp: 10 } if id == ID));
    assert!(matches!(&log[1], WalEntry::VmStart { id, timestamp: 11 } if id == ID));
    let now = restore_log(&ID.to_string());
    assert!(matches!(&now[0], WalEntry::VmCreate { id, .. } if id == ID));
    assert!(matches!(&now[1], WalEntry::VmStart { id, .. } if id == ID));
}
