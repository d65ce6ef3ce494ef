//! The periodic watch over running VMs: how an exited hypervisor is
//! reported, and which exited shared-folder daemons are restarted; and how a
//! VM's status reads when it is inspected.
use vstd::prelude::*;

use super::VmStatus;
use crate::api::VolumeMount;
use crate::text::{dec, push_str, push_u64, to_owned_string};

verus! {

/// The report for VM `vm_id` whose hypervisor exited with `exit_status`,
/// with the count of OOM kills in its cgroup when that could be read.
pub open spec fn exit_report(vm_id: Seq<char>, exit_status: Seq<char>, oom_kills: Option<u64>) -> Seq<char> {
    let base = "Monitor: VM "@ + vm_id + " Cloud Hypervisor process EXITED (Reaped): "@ + exit_status;
    match oom_kills {
        Some(n) => if n > 0 {
            base + " [WARNING: OOM Kill Detected: "@ + dec(n as nat) + "]"@
        } else {
            base
        },
        None => base,
    }
}

pub fn monitor_exit_message(vm_id: &str, exit_status: &str, oom_kills: Option<u64>) -> (m: String)
    ensures
        m@ == exit_report(vm_id@, exit_status@, oom_kills),
{
    let mut m = to_owned_string("Monitor: VM ");
    push_str(&mut m, vm_id);
    push_str(&mut m, " Cloud Hypervisor process EXITED (Reaped): ");
    push_str(&mut m, exit_status);
    match oom_kills {
        Some(n) => {
            if n > 0 {
                push_str(&mut m, " [WARNING: OOM Kill Detected: ");
                push_u64(&mut m, n);
                push_str(&mut m, "]");
            }
        },
        None => {},
    }
    m
}

/// The host directory that the exited shared-folder daemon `idx` is
/// restarted on: that of the VM's volume at `idx`; none when the VM has no
/// such volume, and the daemon stays down.
pub fn fs_restart_source(volumes: &Vec<VolumeMount>, idx: usize) -> (r: Option<String>)
    ensures
        idx < volumes@.len() ==> r == Some(volumes@[idx as int].host_path),
        idx >= volumes@.len() ==> r is None,
{
    if idx < volumes.len() {
        Some(volumes[idx].host_path.clone())
    } else {
        None
    }
}

/// How `GET /vms/<id>/inspect` reports a status: its name, and the reason
/// of an error.
pub fn inspect_status(status: &VmStatus) -> (r: (String, Option<String>))
    ensures
        *status == VmStatus::PendingAttestation ==> r.0@ == "pending_attestation"@ && r.1 is None,
        *status == VmStatus::Running ==> r.0@ == "running"@ && r.1 is None,
        status matches VmStatus::Error { reason } ==> r.0@ == "error"@ && r.1 == Some(*reason),
{
    match status {
        VmStatus::PendingAttestation => (to_owned_string("pending_attestation"), None),
        VmStatus::Running => (to_owned_string("running"), None),
        VmStatus::Error { reason } => (to_owned_string("error"), Some(reason.clone())),
    }
}

} // verus!
