use vyomad::str_map::StrMap;
use vyomad::api::handlers::{AdoptTeleportRequest, ReceiveTeleportRequest, TeleportRequest};
use vyomad::api::migration::{
    adopt_teleported_url, adopted_response, adopted_vm_needs_resume, check_adoptable, receive_teleport_reply,
    receive_teleport_url, transfer_follow_up, MigrationSessions, ReceiveOutcome, TargetReply, TransferFollowUp,
};

#[derive(Debug, Clone, PartialEq)]
struct Pages {
    transferred: u64,
    total: u64,
}

fn request() -> TeleportRequest {
    TeleportRequest { vm_id: "vm-1".to_string(), target_node_ip: "10.0.0.9".to_string(), bandwidth_mbps: Some(100) }
}

#[test]
fn target_endpoints() {
    assert_eq!(receive_teleport_url("10.0.0.9"), "http://10.0.0.9:3000/receive-teleport");
    assert_eq!(adopt_teleported_url("10.0.0.9"), "http://10.0.0.9:3000/adopt-teleported-vm");
}

#[test]
fn a_new_session_is_initiating() {
    let mut s: MigrationSessions<Pages> = MigrationSessions::new();
    assert!(s.begin_teleport("s1", &request(), 1700, true).is_ok());
    let st = s.teleport_status_handler("s1").unwrap();
    assert_eq!(st.session_id, "s1");
    assert_eq!(st.vm_id, "vm-1");
    assert_eq!(st.source_node, "local");
    assert_eq!(st.target_node, "10.0.0.9");
    assert_eq!(st.status, "initiating");
    assert_eq!(st.started_at, 1700);
    assert!(st.progress.is_none());
    assert!(st.completed_at.is_none());
}

#[test]
fn an_unknown_vm_fails_the_session() {
    let mut s: MigrationSessions<Pages> = MigrationSessions::new();
    let e = s.begin_teleport("s1", &request(), 5, false).unwrap_err();
    assert_eq!(e, (404, "VM not found".to_string()));
    assert_eq!(s.teleport_status_handler("s1").unwrap().status, "failed");
}

#[test]
fn an_unknown_session_is_not_found() {
    let s: MigrationSessions<Pages> = MigrationSessions::new();
    let e = s.teleport_status_handler("nope").unwrap_err();
    assert_eq!(e, (404, "Session not found".to_string()));
}

#[test]
fn an_unreachable_target_fails_the_migration() {
    let mut s: MigrationSessions<Pages> = MigrationSessions::new();
    s.begin_teleport("s1", &request(), 5, true).unwrap();
    let e = s.on_target_reply("s1", TargetReply::Unreachable { error: "connection refused".to_string() }).unwrap_err();
    assert_eq!(e, (500, "Target node unreachable: connection refused".to_string()));
    assert_eq!(s.teleport_status_handler("s1").unwrap().status, "failed");
}

#[test]
fn a_refusing_target_fails_the_migration() {
    let mut s: MigrationSessions<Pages> = MigrationSessions::new();
    s.begin_teleport("s1", &request(), 5, true).unwrap();
    let e = s.on_target_reply("s1", TargetReply::Refused { detail: "Ok(\"busy\")".to_string() }).unwrap_err();
    assert_eq!(e, (500, "Target node refused: Ok(\"busy\")".to_string()));
    assert_eq!(s.teleport_status_handler("s1").unwrap().status, "failed");
}

#[test]
fn a_successful_migration_runs_to_completion() {
    let mut s: MigrationSessions<Pages> = MigrationSessions::new();
    s.begin_teleport("s1", &request(), 5, true).unwrap();
    assert!(s.on_target_reply("s1", TargetReply::Ready).is_ok());
    let r = s.migration_launched("s1");
    assert_eq!(r.session_id, "s1");
    assert_eq!(r.status, "in_progress");
    assert_eq!(r.message, "Live migration initiated");
    assert_eq!(s.teleport_status_handler("s1").unwrap().status, "in_progress");

    s.record_progress("s1", "transferring".to_string(), Pages { transferred: 10, total: 100 });
    let st = s.teleport_status_handler("s1").unwrap();
    assert_eq!(st.status, "transferring");
    assert_eq!(st.progress, Some(Pages { transferred: 10, total: 100 }));

    assert_eq!(transfer_follow_up(true), TransferFollowUp::HandOver);
    s.on_transfer_finished("s1", true, 99);
    let st = s.teleport_status_handler("s1").unwrap();
    assert_eq!(st.status, "completed");
    assert_eq!(st.completed_at, Some(99));
    assert_eq!(st.started_at, 5);
}

#[test]
fn a_failed_transfer_resumes_the_source() {
    let mut s: MigrationSessions<Pages> = MigrationSessions::new();
    s.begin_teleport("s1", &request(), 5, true).unwrap();
    s.migration_launched("s1");
    assert_eq!(transfer_follow_up(false), TransferFollowUp::ResumeSource);
    s.on_transfer_finished("s1", false, 99);
    let st = s.teleport_status_handler("s1").unwrap();
    assert_eq!(st.status, "failed");
    assert!(st.completed_at.is_none());
}

#[test]
fn sessions_are_independent() {
    let mut s: MigrationSessions<Pages> = MigrationSessions::new();
    s.begin_teleport("a", &request(), 1, true).unwrap();
    s.begin_teleport("b", &request(), 2, true).unwrap();
    s.on_transfer_finished("a", false, 3);
    assert_eq!(s.teleport_status_handler("a").unwrap().status, "failed");
    assert_eq!(s.teleport_status_handler("b").unwrap().status, "initiating");
    s.set_status("missing", "failed");
    assert!(s.get("missing").is_none());
}

#[test]
fn adoption_on_the_target() {
    let req = AdoptTeleportRequest { vm_id: "vm-1".to_string() };
    assert_eq!(check_adoptable(&req, false).unwrap_err(), (404, "VM directory not found for vm-1".to_string()));
    assert!(check_adoptable(&req, true).is_ok());
    assert!(!adopted_vm_needs_resume("Running"));
    assert!(adopted_vm_needs_resume("Paused"));
    let r = adopted_response(&req);
    assert_eq!(r.session_id, "vm-1");
    assert_eq!(r.status, "adopted");
    assert_eq!(r.message, "VM vm-1 adopted successfully");
}

#[test]
fn reception_on_the_target() {
    let req = ReceiveTeleportRequest { vm_id: "vm-1".to_string() };
    assert_eq!(
        receive_teleport_reply(&req, ReceiveOutcome::Listening).unwrap(),
        "Cloud Hypervisor ready to receive VM vm-1 on TCP port 9000"
    );
    assert_eq!(
        receive_teleport_reply(&req, ReceiveOutcome::HypervisorFailed { error: "no binary".to_string() }).unwrap_err(),
        (500, "Failed to start Cloud Hypervisor: no binary".to_string())
    );
    assert_eq!(
        receive_teleport_reply(&req, ReceiveOutcome::ReceiveModeFailed { error: "socket".to_string() }).unwrap_err(),
        (500, "Failed to set receive-migration mode: socket".to_string())
    );
}

#[test]
fn an_opened_migration_has_a_fresh_session() {
    let mut s: MigrationSessions<Pages> = MigrationSessions::new();
    let (id, r) = s.open_teleport(&request(), true);
    assert!(r.is_ok());
    assert_eq!(id.len(), 36);
    let st = s.teleport_status_handler(&id).unwrap();
    assert_eq!(st.status, "initiating");
    assert!(st.started_at > 1_600_000_000);
    let (id2, r2) = s.open_teleport(&request(), false);
    assert_ne!(id, id2);
    assert!(r2.is_err());
    assert_eq!(s.teleport_status_handler(&id2).unwrap().status, "failed");
}

#[test]
fn a_finished_transfer_is_stamped_with_the_clock() {
    let mut s: MigrationSessions<Pages> = MigrationSessions::new();
    s.begin_teleport("s1", &request(), 5, true).unwrap();
    s.finish_transfer("s1", true);
    let st = s.teleport_status_handler("s1").unwrap();
    assert_eq!(st.status, "completed");
    assert!(st.completed_at.unwrap() > 1_600_000_000);
}

#[test]
fn a_finished_transfer_hands_the_vm_over_or_keeps_it() {
    let mut s: MigrationSessions<Pages> = MigrationSessions::new();
    s.begin_teleport("s1", &request(), 1700, true).unwrap();
    s.begin_teleport("s2", &request(), 1700, true).unwrap();
    let mut vms: StrMap<u32> = StrMap::new();
    vms.insert("vm-1", 7);
    vms.insert("vm-2", 8);

    assert_eq!(s.conclude_transfer(&mut vms, "s1", "vm-1", true, 1800), TransferFollowUp::HandOver);
    assert!(!vms.contains_key("vm-1"));
    assert!(vms.contains_key("vm-2"));
    let st = s.teleport_status_handler("s1").unwrap();
    assert_eq!(st.status, "completed");
    assert_eq!(st.completed_at, Some(1800));

    assert_eq!(s.conclude_transfer(&mut vms, "s2", "vm-2", false, 1900), TransferFollowUp::ResumeSource);
    assert!(vms.contains_key("vm-2"));
    let st = s.teleport_status_handler("s2").unwrap();
    assert_eq!(st.status, "failed");
    assert!(st.completed_at.is_none());
}
