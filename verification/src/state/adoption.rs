//! What the daemon does at start with each VM directory that holds a saved
//! state: a VM whose hypervisor still answers is taken back with its port
//! forwards and shared folders served again; a dead one is marked failed,
//! cleaned up, and its directory removed.
use vstd::prelude::*;

use super::{VmState, VmStatus};
use crate::text::{dec, join_path, path_join, push_str, push_u64, to_owned_string};

verus! {

/// A host port forwarded to the VM again.
#[derive(Debug, Clone)]
pub struct PortProxy {
    pub host_port: u16,
    pub vm_ip: String,
    pub vm_port: u16,
}

/// A shared-folder daemon of the VM, addressed again.
#[derive(Debug, Clone)]
pub struct FsDaemon {
    pub tag: String,
    pub socket_path: String,
}

/// The decision for one VM found at start.
#[derive(Debug)]
pub struct StartupAdoption {
    pub status: VmStatus,
    /// The hypervisor's control socket in the VM's directory.
    pub socket_path: String,
    pub proxies: Vec<PortProxy>,
    pub fs_daemons: Vec<FsDaemon>,
    /// Whether the VM keeps its configured ports and volumes.
    pub keeps_config: bool,
    /// Whether its resources are released and its directory removed.
    pub discard: bool,
}

/// The tag of the `i`-th shared folder.
pub open spec fn fs_tag(i: nat) -> Seq<char> {
    "vol"@ + dec(i)
}

/// The socket of the `i`-th shared-folder daemon of the VM in `dir`.
pub open spec fn fs_socket(dir: Seq<char>, i: nat) -> Seq<char> {
    join_path(dir, "fs_"@ + dec(i) + ".sock"@)
}

/// What to do with the VM whose saved state is `state`, kept in `vm_dir`,
/// given whether its hypervisor answered.
pub fn adoption_at_start(state: &VmState, vm_dir: &str, alive: bool) -> (a: StartupAdoption)
    requires
        state.volumes@.len() <= u64::MAX,
    ensures
        a.socket_path@ == join_path(vm_dir@, "ch.sock"@),
        alive ==> {
            &&& a.status == VmStatus::Running
            &&& a.keeps_config && !a.discard
            &&& a.proxies@.len() == state.ports@.len()
            &&& forall|k: int| 0 <= k < a.proxies@.len() ==> {
                let p = #[trigger] a.proxies@[k];
                &&& p.host_port == state.ports@[k].host_port
                &&& p.vm_port == state.ports@[k].vm_port
                &&& p.vm_ip == state.ip_address
            }
            &&& a.fs_daemons@.len() == state.volumes@.len()
            &&& forall|k: int| 0 <= k < a.fs_daemons@.len() ==> {
                let f = #[trigger] a.fs_daemons@[k];
                &&& f.tag@ == fs_tag(k as nat)
                &&& f.socket_path@ == fs_socket(vm_dir@, k as nat)
            }
        },
        !alive ==> {
            &&& a.status matches VmStatus::Error { reason } && reason@ == "VM was dead during recovery"@
            &&& !a.keeps_config && a.discard
            &&& a.proxies@.len() == 0
            &&& a.fs_daemons@.len() == 0
        },
{
    let socket_path = path_join(vm_dir, "ch.sock");
    if !alive {
        return StartupAdoption {
            status: VmStatus::Error { reason: to_owned_string("VM was dead during recovery") },
            socket_path,
            proxies: Vec::new(),
            fs_daemons: Vec::new(),
            keeps_config: false,
            discard: true,
        };
    }
    let mut proxies: Vec<PortProxy> = Vec::new();
    let mut i: usize = 0;
    while i < state.ports.len()
        invariant
            i <= state.ports@.len(),
            proxies@.len() == i,
            forall|k: int| 0 <= k < i ==> {
                let p = #[trigger] proxies@[k];
                &&& p.host_port == state.ports@[k].host_port
                &&& p.vm_port == state.ports@[k].vm_port
                &&& p.vm_ip == state.ip_address
            },
        decreases state.ports@.len() - i,
    {
        let m = state.ports[i];
        proxies.push(PortProxy { host_port: m.host_port, vm_ip: state.ip_address.clone(), vm_port: m.vm_port });
        i = i + 1;
    }
    let mut fs_daemons: Vec<FsDaemon> = Vec::new();
    let mut j: usize = 0;
    while j < state.volumes.len()
        invariant
            j <= state.volumes@.len(),
            state.volumes@.len() <= u64::MAX,
            fs_daemons@.len() == j,
            forall|k: int| 0 <= k < j ==> {
                let f = #[trigger] fs_daemons@[k];
                &&& f.tag@ == fs_tag(k as nat)
                &&& f.socket_path@ == fs_socket(vm_dir@, k as nat)
            },
        decreases state.volumes@.len() - j,
    {
        let mut tag = to_owned_string("vol");
        push_u64(&mut tag, j as u64);
        let mut name = to_owned_string("fs_");
        push_u64(&mut name, j as u64);
        push_str(&mut name, ".sock");
        let socket = path_join(vm_dir, name.as_str());
        fs_daemons.push(FsDaemon { tag, socket_path: socket });
        j = j + 1;
    }
    StartupAdoption { status: VmStatus::Running, socket_path, proxies, fs_daemons, keeps_config: true, discard: false }
}

} // verus!
