//! What the daemon does with each VM that the write-ahead log still lists as
//! active when it starts: adopt the live ones, clean up after the dead ones.
use vstd::prelude::*;

use super::{VmState, VmStatus};
use crate::text::{clone_strings, to_owned_string};

verus! {

/// What a liveness probe concluded about a VM.
#[derive(Debug, Clone, Copy, PartialEq, Eq, Structural)]
pub enum VmRecoveryStatus {
    Running,
    Stopped,
    Crashed,
    Unknown,
}

/// A VM that survived the restart and is taken back under management.
#[derive(Debug)]
pub struct RecoveredVm {
    pub vm_id: String,
    pub state: VmState,
    pub status: VmRecoveryStatus,
}

/// How the saved state of a VM could be had.
#[derive(Debug)]
pub enum SavedState {
    /// `state.json` was read and parsed.
    Loaded(VmState),
    /// There is no `state.json`.
    Missing,
    /// `state.json` exists but could not be read or parsed.
    Unreadable,
}

/// What the daemon found on disk and over the control socket for one VM.
#[derive(Debug)]
pub struct VmFacts {
    pub vm_id: String,
    pub dir_exists: bool,
    pub saved: SavedState,
    pub socket_exists: bool,
    /// `Some(alive)` when the probe answered, `None` when it timed out.
    pub probe: Option<bool>,
}

/// The host resources to release for a VM that is gone.
#[derive(Debug)]
pub struct CleanupPlan {
    pub tap_name: Option<String>,
    pub dm_name: Option<String>,
    pub loop_devices: Vec<String>,
    pub cgroup_vm_id: Option<String>,
}

/// The outcome of recovery: the VMs adopted, and the VMs whose directories
/// must be cleaned up, both in the order they were examined.
#[derive(Debug)]
pub struct RecoveryPlan {
    pub adopted: Vec<RecoveredVm>,
    pub cleanup: Vec<String>,
}

pub struct Recovery;

pub open spec fn probe_status(socket_exists: bool, probe: Option<bool>) -> VmRecoveryStatus {
    if !socket_exists {
        VmRecoveryStatus::Crashed
    } else {
        match probe {
            Some(true) => VmRecoveryStatus::Running,
            Some(false) => VmRecoveryStatus::Crashed,
            None => VmRecoveryStatus::Unknown,
        }
    }
}

/// The state rebuilt for a live VM whose `state.json` is gone.
pub open spec fn is_reconstructed(s: VmState, vm_id: Seq<char>) -> bool {
    &&& s.id@ == vm_id
    &&& s.tap_name@.len() == 0
    &&& s.dm_name@.len() == 0
    &&& s.loop_devices@.len() == 0
    &&& s.cow_file_path@.len() == 0
    &&& s.ip_address@ == "10.0.0.2"@
    &&& s.cgroup_path is None
    &&& s.netns_path is None
    &&& s.ports@.len() == 0
    &&& s.volumes@.len() == 0
    &&& s.hostname is None
    &&& s.labels@.len() == 0
    &&& s.base_image_path@.len() == 0
    &&& s.vcpu == 0
    &&& s.mem_size_mib == 0
    &&& s.networks@.len() == 0
    &&& s.status == VmStatus::Running
}

/// A VM whose state is known (saved, or rebuilt because it is alive).
pub open spec fn state_known(f: VmFacts) -> bool {
    match f.saved {
        SavedState::Loaded(_) => true,
        SavedState::Missing => probe_status(f.socket_exists, f.probe) == VmRecoveryStatus::Running,
        SavedState::Unreadable => false,
    }
}

pub open spec fn adopts(f: VmFacts) -> bool {
    f.dir_exists && state_known(f) && probe_status(f.socket_exists, f.probe) == VmRecoveryStatus::Running
}

pub open spec fn cleans(f: VmFacts) -> bool {
    f.dir_exists && state_known(f) && probe_status(f.socket_exists, f.probe) == VmRecoveryStatus::Crashed
}

/// For each adopted VM in order: its id, and its saved state (`None` when
/// the state was rebuilt).
pub open spec fn adopted_of(f: Seq<VmFacts>) -> Seq<(Seq<char>, Option<VmState>)>
    decreases f.len(),
{
    if f.len() == 0 {
        seq![]
    } else {
        let x = f.last();
        let entry = (x.vm_id@, match x.saved {
            SavedState::Loaded(s) => Some(s),
            _ => None,
        });
        adopted_of(f.drop_last()) + if adopts(x) {
            seq![entry]
        } else {
            seq![]
        }
    }
}

/// The ids of the VMs to clean up, in order.
pub open spec fn cleaned_of(f: Seq<VmFacts>) -> Seq<Seq<char>>
    decreases f.len(),
{
    if f.len() == 0 {
        seq![]
    } else {
        cleaned_of(f.drop_last()) + if cleans(f.last()) {
            seq![f.last().vm_id@]
        } else {
            seq![]
        }
    }
}

pub open spec fn id_views(v: Seq<String>) -> Seq<Seq<char>> {
    v.map_values(|s: String| s@)
}

impl Recovery {
    /// Classifies a VM from whether its control socket exists and what the
    /// liveness probe answered.
    pub fn check_vm_status(socket_exists: bool, probe: Option<bool>) -> (r: VmRecoveryStatus)
        ensures
            r == probe_status(socket_exists, probe),
    {
        if !socket_exists {
            return VmRecoveryStatus::Crashed;
        }
        match probe {
            Some(true) => VmRecoveryStatus::Running,
            Some(false) => VmRecoveryStatus::Crashed,
            None => VmRecoveryStatus::Unknown,
        }
    }

    /// Rebuilds a minimal state for a VM that lost its `state.json`; only a
    /// VM whose socket exists and that answers as alive qualifies.
    pub fn reconstruct_vm_state(vm_id: &str, socket_exists: bool, status: VmRecoveryStatus) -> (r: Result<VmState, String>)
        ensures
            !socket_exists ==> r is Err && r->Err_0@ == "CH socket not found, cannot reconstruct state"@,
            socket_exists && status != VmRecoveryStatus::Running ==> r is Err && r->Err_0@
                == "VM is not running, cannot reconstruct state"@,
            socket_exists && status == VmRecoveryStatus::Running ==> r is Ok && is_reconstructed(r->Ok_0, vm_id@),
    {
        if !socket_exists {
            return Err(to_owned_string("CH socket not found, cannot reconstruct state"));
        }
        if status != VmRecoveryStatus::Running {
            return Err(to_owned_string("VM is not running, cannot reconstruct state"));
        }
        Ok(VmState {
            id: to_owned_string(vm_id),
            tap_name: String::new(),
            dm_name: String::new(),
            loop_devices: Vec::new(),
            cow_file_path: String::new(),
            ip_address: to_owned_string("10.0.0.2"),
            cgroup_path: None,
            netns_path: None,
            ports: Vec::new(),
            volumes: Vec::new(),
            hostname: None,
            labels: Vec::new(),
            base_image_path: String::new(),
            vcpu: 0,
            mem_size_mib: 0,
            networks: Vec::new(),
            status: VmStatus::Running,
        })
    }

    /// The resources that a dead VM's saved state says must be released:
    /// its TAP device and device-mapper target when named, all its loop
    /// devices, and its cgroup when it had one.
    pub fn cleanup_plan(state: &VmState) -> (p: CleanupPlan)
        ensures
            p.tap_name is Some <==> state.tap_name@.len() > 0,
            p.tap_name is Some ==> p.tap_name->0@ == state.tap_name@,
            p.dm_name is Some <==> state.dm_name@.len() > 0,
            p.dm_name is Some ==> p.dm_name->0@ == state.dm_name@,
            p.loop_devices@ == state.loop_devices@,
            p.cgroup_vm_id is Some <==> state.cgroup_path is Some,
            p.cgroup_vm_id is Some ==> p.cgroup_vm_id->0@ == state.id@,
    {
        let tap_name = if state.tap_name.as_str().unicode_len() > 0 {
            Some(state.tap_name.clone())
        } else {
            None
        };
        let dm_name = if state.dm_name.as_str().unicode_len() > 0 {
            Some(state.dm_name.clone())
        } else {
            None
        };
        let cgroup_vm_id = match &state.cgroup_path {
            Some(_) => Some(state.id.clone()),
            None => None,
        };
        CleanupPlan { tap_name, dm_name, loop_devices: clone_strings(&state.loop_devices), cgroup_vm_id }
    }

    /// Decides, VM by VM, which to adopt and which to clean up. A VM whose
    /// directory is gone, whose state cannot be had, or whose probe timed
    /// out is left alone.
    pub fn plan_recovery(facts: Vec<VmFacts>) -> (p: RecoveryPlan)
        ensures
            p.adopted@.len() == adopted_of(facts@).len(),
            forall|k: int|
                0 <= k < p.adopted@.len() ==> {
                    let e = adopted_of(facts@)[k];
                    let a = #[trigger] p.adopted@[k];
                    &&& a.vm_id@ == e.0
                    &&& a.status == VmRecoveryStatus::Running
                    &&& (e.1 matches Some(s) ==> a.state == s)
                    &&& (e.1 is None ==> is_reconstructed(a.state, e.0))
                },
            id_views(p.cleanup@) == cleaned_of(facts@),
    {
        let ghost orig = facts@;
        let mut facts = facts;
        let mut adopted: Vec<RecoveredVm> = Vec::new();
        let mut cleanup: Vec<String> = Vec::new();
        let n = facts.len();
        let mut i: usize = 0;
        while i < n
            invariant
                n == orig.len(),
                i <= n,
                facts@ == orig.skip(i as int),
                adopted@.len() == adopted_of(orig.take(i as int)).len(),
                forall|k: int|
                    0 <= k < adopted@.len() ==> {
                        let e = adopted_of(orig.take(i as int))[k];
                        let a = #[trigger] adopted@[k];
                        &&& a.vm_id@ == e.0
                        &&& a.status == VmRecoveryStatus::Running
                        &&& (e.1 matches Some(s) ==> a.state == s)
                        &&& (e.1 is None ==> is_reconstructed(a.state, e.0))
                    },
                id_views(cleanup@) == cleaned_of(orig.take(i as int)),
            decreases n - i,
        {
            let ghost f0 = facts@;
            let f = facts.remove(0);
            assert(f == orig[i as int]);
            assert(facts@ =~= orig.skip(i + 1));
            assert(orig.take(i + 1).drop_last() =~= orig.take(i as int));
            assert(orig.take(i + 1).last() == f);
            let ghost a0 = adopted@;
            let ghost c0 = cleanup@;
            let status = Recovery::check_vm_status(f.socket_exists, f.probe);
            if f.dir_exists {
                let known: Option<VmState> = match f.saved {
                    SavedState::Loaded(s) => Some(s),
                    SavedState::Missing => match Recovery::reconstruct_vm_state(
                        f.vm_id.as_str(),
                        f.socket_exists,
                        status,
                    ) {
                        Ok(s) => Some(s),
                        Err(_) => None,
                    },
                    SavedState::Unreadable => None,
                };
                match known {
                    Some(state) => {
                        if status == VmRecoveryStatus::Running {
                            adopted.push(RecoveredVm { vm_id: f.vm_id, state, status: VmRecoveryStatus::Running });
                        } else if status == VmRecoveryStatus::Crashed {
                            cleanup.push(f.vm_id);
                        }
                    },
                    None => {},
                }
            }
            assert(id_views(cleanup@) =~= cleaned_of(orig.take(i + 1)));
            i = i + 1;
        }
        assert(orig.take(n as int) =~= orig);
        RecoveryPlan { adopted, cleanup }
    }
}

} // verus!
