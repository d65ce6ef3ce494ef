//! What tearing a VM down releases, in order, read off its record: after
//! the hypervisor is killed, its network attachments and namespace, its TAP
//! device, its mapper device, its loop devices, its disk delta and its
//! cgroup; then its forwards, shared-folder daemons and vTPM are stopped.
use vstd::prelude::*;

use super::VmState;
use crate::text::{clone_strings, push_str, to_owned_string};

verus! {

/// How the VM's network attachments are released inside its namespace.
#[derive(Debug, Clone)]
pub enum CniRelease {
    /// Detach it from each of these networks.
    Networks { networks: Vec<String>, netns: String },
    /// Detach its single `eth0` interface.
    Single { netns: String, if_name: String },
}

#[derive(Debug)]
pub struct TeardownPlan {
    pub cni: Option<CniRelease>,
    /// The namespace to delete.
    pub netns_name: Option<String>,
    pub tap_name: Option<String>,
    /// The mapper device to remove (asked for even when the name is empty).
    pub dm_name: String,
    pub loop_devices: Vec<String>,
    /// The disk delta to delete when it exists.
    pub cow_file: String,
    /// The VM whose cgroup is removed, when it has one.
    pub cgroup_vm_id: Option<String>,
}

pub fn teardown_plan(state: &VmState) -> (p: TeardownPlan)
    ensures
        state.netns_path is None ==> p.cni is None && p.netns_name is None,
        state.netns_path matches Some(ns) ==> {
            &&& p.netns_name matches Some(n) && n@ == "vm-"@ + state.id@
            &&& state.networks@.len() > 0 ==> (p.cni matches Some(CniRelease::Networks { networks, netns })
                && networks@ == state.networks@ && netns == ns)
            &&& state.networks@.len() == 0 ==> (p.cni matches Some(CniRelease::Single { netns, if_name })
                && netns == ns && if_name@ == "eth0"@)
        },
        p.tap_name is Some <==> state.tap_name@.len() > 0,
        p.tap_name is Some ==> p.tap_name->0 == state.tap_name,
        p.dm_name == state.dm_name,
        p.loop_devices@ == state.loop_devices@,
        p.cow_file == state.cow_file_path,
        p.cgroup_vm_id is Some <==> state.cgroup_path is Some,
        p.cgroup_vm_id is Some ==> p.cgroup_vm_id->0 == state.id,
{
    let (cni, netns_name) = match &state.netns_path {
        Some(ns) => {
            let release = if state.networks.len() > 0 {
                CniRelease::Networks { networks: clone_strings(&state.networks), netns: ns.clone() }
            } else {
                CniRelease::Single { netns: ns.clone(), if_name: to_owned_string("eth0") }
            };
            let mut name = to_owned_string("vm-");
            push_str(&mut name, state.id.as_str());
            (Some(release), Some(name))
        },
        None => (None, None),
    };
    let tap_name = if state.tap_name.as_str().unicode_len() > 0 {
        Some(state.tap_name.clone())
    } else {
        None
    };
    let cgroup_vm_id = match &state.cgroup_path {
        Some(_) => Some(state.id.clone()),
        None => None,
    };
    TeardownPlan {
        cni,
        netns_name,
        tap_name,
        dm_name: state.dm_name.clone(),
        loop_devices: clone_strings(&state.loop_devices),
        cow_file: state.cow_file_path.clone(),
        cgroup_vm_id,
    }
}

} // verus!
