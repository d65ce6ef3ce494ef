use vyomad::timemachine::{
    find_snapshot, latest_snapshot, parse_snapshot_ref, position_of, record_snapshot, remove_snapshot,
    snapshot_history, SnapshotEntry,
};

fn is_uuid_v4(s: &str) -> bool {
    let b = s.as_bytes();
    b.len() == 36
        && b.iter().enumerate().all(|(i, c)| {
            if i == 8 || i == 13 || i == 18 || i == 23 {
                *c == b'-'
            } else {
                c.is_ascii_digit() || (b'a'..=b'f').contains(c)
            }
        })
        && b[14] == b'4'
        && matches!(b[19], b'8' | b'9' | b'a' | b'b')
}

#[test]
fn test_create_snapshot() {
    let mut history: Vec<SnapshotEntry> = Vec::new();
    let entry = record_snapshot(&mut history, "vm-1".to_string(), Some("initial".to_string()));

    assert_eq!(entry.vm_id, "vm-1");
    assert_eq!(entry.label, Some("initial".to_string()));
    assert!(entry.parent_id.is_none());
    assert!(is_uuid_v4(&entry.id));
    assert_eq!(history.len(), 1);
}

#[test]
fn test_snapshot_chain() {
    let mut history: Vec<SnapshotEntry> = Vec::new();
    let snap1 = record_snapshot(&mut history, "vm-1".to_string(), Some("snap1".to_string()));
    let snap2 = record_snapshot(&mut history, "vm-1".to_string(), Some("snap2".to_string()));
    let snap3 = record_snapshot(&mut history, "vm-1".to_string(), Some("snap3".to_string()));

    assert_eq!(snap2.parent_id, Some(snap1.id));
    assert_eq!(snap3.parent_id, Some(snap2.id));
}

#[test]
fn test_get_snapshot_history() {
    let mut history: Vec<SnapshotEntry> = Vec::new();
    record_snapshot(&mut history, "vm-1".to_string(), Some("first".to_string()));
    record_snapshot(&mut history, "vm-1".to_string(), Some("second".to_string()));

    let listed = snapshot_history(history).unwrap();
    assert_eq!(listed.len(), 2);
}

#[test]
fn snapshot_history_of_unknown_vm_is_none() {
    assert!(snapshot_history(Vec::new()).is_none());
}

#[test]
fn test_get_latest_snapshot() {
    let mut history: Vec<SnapshotEntry> = Vec::new();
    record_snapshot(&mut history, "vm-1".to_string(), Some("first".to_string()));
    record_snapshot(&mut history, "vm-1".to_string(), Some("second".to_string()));

    let latest = latest_snapshot(&history).unwrap();
    assert_eq!(latest.label, Some("second".to_string()));
}

#[test]
fn test_delete_snapshot() {
    let mut history: Vec<SnapshotEntry> = Vec::new();
    let snap1 = record_snapshot(&mut history, "vm-1".to_string(), Some("first".to_string()));
    record_snapshot(&mut history, "vm-1".to_string(), Some("second".to_string()));

    remove_snapshot(&mut history, &snap1.id).unwrap();

    let listed = snapshot_history(history).unwrap();
    assert_eq!(listed.len(), 1);
}

#[test]
fn delete_errors_name_what_is_missing() {
    let mut empty: Vec<SnapshotEntry> = Vec::new();
    assert_eq!(remove_snapshot(&mut empty, "x"), Err("VM not found".to_string()));

    let mut history: Vec<SnapshotEntry> = Vec::new();
    record_snapshot(&mut history, "vm-1".to_string(), None);
    assert_eq!(remove_snapshot(&mut history, "nope"), Err("Snapshot not found".to_string()));
    assert_eq!(history.len(), 1);
}

#[test]
fn deleting_the_first_of_three_relinks_the_slot() {
    let mut history: Vec<SnapshotEntry> = Vec::new();
    let a = record_snapshot(&mut history, "vm-1".to_string(), Some("a".to_string()));
    let b = record_snapshot(&mut history, "vm-1".to_string(), Some("b".to_string()));
    let c = record_snapshot(&mut history, "vm-1".to_string(), Some("c".to_string()));

    remove_snapshot(&mut history, &a.id).unwrap();

    // The freed slot is overwritten by a copy of the newest entry, whose
    // parent becomes the middle one.
    assert_eq!(history.len(), 2);
    assert_eq!(history[0].id, c.id);
    assert_eq!(history[0].parent_id, Some(b.id.clone()));
    assert_eq!(history[1].id, c.id);
    assert_eq!(history[1].parent_id, Some(b.id));
}

#[test]
fn deleting_the_second_to_last_is_a_plain_removal() {
    let mut history: Vec<SnapshotEntry> = Vec::new();
    let a = record_snapshot(&mut history, "vm-1".to_string(), None);
    let b = record_snapshot(&mut history, "vm-1".to_string(), None);
    let c = record_snapshot(&mut history, "vm-1".to_string(), None);

    remove_snapshot(&mut history, &b.id).unwrap();

    assert_eq!(history.len(), 2);
    assert_eq!(history[0].id, a.id);
    assert_eq!(history[1].id, c.id);
    assert_eq!(history[1].parent_id, Some(b.id));
}

#[test]
fn deleting_the_latest_keeps_the_chain() {
    let mut history: Vec<SnapshotEntry> = Vec::new();
    let a = record_snapshot(&mut history, "vm-1".to_string(), None);
    let b = record_snapshot(&mut history, "vm-1".to_string(), None);
    let c = record_snapshot(&mut history, "vm-1".to_string(), None);

    remove_snapshot(&mut history, &c.id).unwrap();

    assert_eq!(history.len(), 2);
    assert_eq!(history[0].id, a.id);
    assert_eq!(history[1].id, b.id);
    assert_eq!(history[1].parent_id, Some(a.id));
    let latest = latest_snapshot(&history).unwrap();
    assert_eq!(latest.id, b.id);
}

#[test]
fn find_snapshot_by_id() {
    let mut history: Vec<SnapshotEntry> = Vec::new();
    record_snapshot(&mut history, "vm-1".to_string(), Some("a".to_string()));
    let b = record_snapshot(&mut history, "vm-1".to_string(), Some("b".to_string()));

    let found = find_snapshot(&history, &b.id).unwrap();
    assert_eq!(found.label, Some("b".to_string()));
    assert_eq!(position_of(&history, &b.id), Some(1));
    assert!(find_snapshot(&history, "missing").is_none());
}

#[test]
fn test_parse_snapshot_ref() {
    assert_eq!(parse_snapshot_ref("snap:0").unwrap(), 0);
    assert_eq!(parse_snapshot_ref("snap:5").unwrap(), 5);
}

#[test]
fn test_parse_invalid_ref() {
    assert!(parse_snapshot_ref("invalid").is_err());
    assert!(parse_snapshot_ref("snap:abc").is_err());
}

#[test]
fn parse_snapshot_ref_messages() {
    assert_eq!(parse_snapshot_ref("invalid"), Err("Invalid snapshot ref. Use snap:N".to_string()));
    assert_eq!(parse_snapshot_ref("snap:abc"), Err("Invalid snapshot index".to_string()));
    assert_eq!(parse_snapshot_ref("snap:"), Err("Invalid snapshot index".to_string()));
    assert_eq!(parse_snapshot_ref("snap:+12"), Ok(12));
    assert_eq!(parse_snapshot_ref("snap:-1"), Err("Invalid snapshot index".to_string()));
}

#[test]
fn test_snapshot_with_size() {
    let entry = SnapshotEntry::new("vm-1".to_string(), None, None).with_size(1024000);

    assert_eq!(entry.cow_delta_size, 1024000);
}

#[test]
fn snapshot_entries_get_distinct_ids() {
    let a = SnapshotEntry::new("vm-1".to_string(), None, None);
    let b = SnapshotEntry::new("vm-1".to_string(), None, None);
    assert!(is_uuid_v4(&a.id));
    assert_ne!(a.id, b.id);
}

#[test]
fn snapshot_refs_read_back() {
    for n in [0usize, 5, 42, 1000, usize::MAX] {
        assert_eq!(parse_snapshot_ref(&format!("snap:{}", n)), Ok(n));
    }
    assert_eq!(parse_snapshot_ref("snap:"), Err("Invalid snapshot index".to_string()));
    assert_eq!(parse_snapshot_ref("snap:-1"), Err("Invalid snapshot index".to_string()));
    assert_eq!(parse_snapshot_ref("invalid"), Err("Invalid snapshot ref. Use snap:N".to_string()));
}
