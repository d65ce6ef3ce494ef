//! The outcomes of the VM life-cycle operations: where a snapshot is kept
//! and what each operation reports.
use vstd::prelude::*;

use crate::text::{join_path, path_join, push_str, str_eq, to_owned_string};

verus! {

/// A snapshot that was taken: its id and the file its memory image goes to.
#[derive(Debug, Clone)]
pub struct SnapshotResult {
    pub id: String,
    pub path: String,
}

/// `~/.ignite/vms/<vm>/snapshots/<snapshot>`.
pub open spec fn snapshot_dir_of(home: Seq<char>, vm_id: Seq<char>, snapshot_id: Seq<char>) -> Seq<char> {
    join_path(
        join_path(join_path(join_path(join_path(home, ".ignite"@), "vms"@), vm_id), "snapshots"@),
        snapshot_id,
    )
}

/// Where snapshot `snapshot_id` of VM `vm_id` is kept: its directory, and
/// the `snapshot.bin` file in it.
pub fn snapshot_location(home: &str, vm_id: &str, snapshot_id: &str) -> (r: (String, SnapshotResult))
    ensures
        r.0@ == snapshot_dir_of(home@, vm_id@, snapshot_id@),
        r.1.id@ == snapshot_id@,
        r.1.path@ == join_path(r.0@, "snapshot.bin"@),
{
    let a = path_join(home, ".ignite");
    let b = path_join(a.as_str(), "vms");
    let c = path_join(b.as_str(), vm_id);
    let d = path_join(c.as_str(), "snapshots");
    let dir = path_join(d.as_str(), snapshot_id);
    let path = path_join(dir.as_str(), "snapshot.bin");
    (dir, SnapshotResult { id: to_owned_string(snapshot_id), path })
}

/// The label of a manual snapshot: the one given, else
/// `Manual snapshot for <vm>`.
pub fn snapshot_label(vm_id: &str, label: Option<String>) -> (r: Option<String>)
    ensures
        label is Some ==> r == label,
        label is None ==> r is Some && r->0@ == "Manual snapshot for "@ + vm_id@,
{
    match label {
        Some(l) => Some(l),
        None => {
            let mut m = to_owned_string("Manual snapshot for ");
            push_str(&mut m, vm_id);
            Some(m)
        },
    }
}

fn vm_message(vm_id: &str, tail: &str) -> (r: String)
    ensures
        r@ == "VM "@ + vm_id@ + tail@,
{
    let mut m = to_owned_string("VM ");
    push_str(&mut m, vm_id);
    push_str(&mut m, tail);
    m
}

pub fn stop_message(vm_id: &str) -> (r: String)
    ensures
        r@ == "VM "@ + vm_id@ + " stopped and cleaned up"@,
{
    vm_message(vm_id, " stopped and cleaned up")
}

pub fn pause_message(vm_id: &str) -> (r: String)
    ensures
        r@ == "VM "@ + vm_id@ + " paused"@,
{
    vm_message(vm_id, " paused")
}

pub fn resume_message(vm_id: &str) -> (r: String)
    ensures
        r@ == "VM "@ + vm_id@ + " resumed"@,
{
    vm_message(vm_id, " resumed")
}

pub fn not_found_message(vm_id: &str) -> (r: String)
    ensures
        r@ == "VM "@ + vm_id@ + " not found"@,
{
    vm_message(vm_id, " not found")
}

/// What committing VM `vm_id` to image `image` reports.
pub fn commit_message(vm_id: &str, image: &str) -> (r: String)
    ensures
        r@ == "VM "@ + vm_id@ + " committed to image "@ + image@,
{
    let mut m = vm_message(vm_id, " committed to image ");
    push_str(&mut m, image);
    m
}

/// The device a VM's root filesystem is committed from: `/dev/mapper/<dm>`.
pub fn commit_source_device(dm_name: &str) -> (r: String)
    ensures
        r@ == "/dev/mapper/"@ + dm_name@,
{
    let mut m = to_owned_string("/dev/mapper/");
    push_str(&mut m, dm_name);
    m
}

/// The value of the first label named `key`.
pub open spec fn label_value(labels: Seq<(String, String)>, key: Seq<char>) -> Option<String>
    decreases labels.len(),
{
    if labels.len() == 0 {
        None
    } else if labels[0].0@ == key {
        Some(labels[0].1)
    } else {
        label_value(labels.drop_first(), key)
    }
}

/// The name a `vm_start` event gives a VM: its `vyoma.service` label, or
/// its id.
pub fn vm_event_name(labels: &Vec<(String, String)>, vm_id: &String) -> (n: String)
    ensures
        n == match label_value(labels@, "vyoma.service"@) {
            Some(v) => v,
            None => *vm_id,
        },
{
    let mut i: usize = 0;
    assert(labels@.skip(0) =~= labels@);
    while i < labels.len()
        invariant
            i <= labels@.len(),
            label_value(labels@.skip(i as int), "vyoma.service"@) == label_value(labels@, "vyoma.service"@),
        decreases labels@.len() - i,
    {
        assert(labels@.skip(i as int).drop_first() =~= labels@.skip(i + 1));
        if str_eq(labels[i].0.as_str(), "vyoma.service") {
            assert(labels@.skip(i as int)[0] == labels@[i as int]);
            return labels[i].1.clone();
        }
        i = i + 1;
    }
    assert(labels@.skip(i as int).len() == 0);
    vm_id.clone()
}

} // verus!
