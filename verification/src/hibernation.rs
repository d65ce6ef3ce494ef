//! Hibernating VMs to disk and resuming them: the per-VM state machine and
//! the registry of hibernation images.
use vstd::prelude::*;

use crate::clock::{utc_now, UtcTimestamp};
use crate::str_map::StrMap;
use crate::text::{clone_opt_string, join_path, path_join, to_owned_string};

verus! {

/// An IP address, v4 as four octets or v6 as eight 16-bit groups.
#[derive(Debug, Clone, Copy, PartialEq, Eq, Structural)]
pub enum IpAddress {
    V4(u8, u8, u8, u8),
    V6(u16, u16, u16, u16, u16, u16, u16, u16),
}

/// Where a VM's hibernation image lives and what network identity it keeps.
#[derive(Debug, Clone)]
pub struct HibernationInfo {
    pub vm_id: String,
    pub hib_dir: String,
    pub snap_path: String,
    pub mem_path: String,
    pub preserved_ip: Option<IpAddress>,
    pub tap_device: Option<String>,
    pub created_at: UtcTimestamp,
}

impl HibernationInfo {
    /// A record stamped with the current time, keeping no address or device.
    pub fn new(vm_id: String, hib_dir: String, snap_path: String, mem_path: String) -> (h: Self)
        ensures
            h.vm_id == vm_id,
            h.hib_dir == hib_dir,
            h.snap_path == snap_path,
            h.mem_path == mem_path,
            h.preserved_ip is None,
            h.tap_device is None,
            h.created_at.secs >= 0 && h.created_at.nanos < 1_000_000_000,
    {
        HibernationInfo {
            vm_id,
            hib_dir,
            snap_path,
            mem_path,
            preserved_ip: None,
            tap_device: None,
            created_at: utc_now(),
        }
    }

    pub fn with_ip(self, ip: IpAddress) -> (h: Self)
        ensures
            h.preserved_ip == Some(ip),
            h.vm_id == self.vm_id,
            h.hib_dir == self.hib_dir,
            h.snap_path == self.snap_path,
            h.mem_path == self.mem_path,
            h.tap_device == self.tap_device,
            h.created_at == self.created_at,
    {
        let mut h = self;
        h.preserved_ip = Some(ip);
        h
    }

    pub fn with_tap_device(self, device: String) -> (h: Self)
        ensures
            h.tap_device == Some(device),
            h.vm_id == self.vm_id,
            h.hib_dir == self.hib_dir,
            h.snap_path == self.snap_path,
            h.mem_path == self.mem_path,
            h.preserved_ip == self.preserved_ip,
            h.created_at == self.created_at,
    {
        let mut h = self;
        h.tap_device = Some(device);
        h
    }

    pub fn hib_dir(&self) -> (d: &String)
        ensures
            *d == self.hib_dir,
    {
        &self.hib_dir
    }

    /// Whether the image can be resumed from, given whether its directory,
    /// snapshot file and memory file exist: all three must.
    pub fn is_valid(&self, dir_exists: bool, snap_exists: bool, mem_exists: bool) -> (b: bool)
        ensures
            b == (dir_exists && snap_exists && mem_exists),
    {
        dir_exists && snap_exists && mem_exists
    }

    /// A field-for-field copy.
    pub fn duplicate(&self) -> (h: Self)
        ensures
            h == *self,
    {
        HibernationInfo {
            vm_id: self.vm_id.clone(),
            hib_dir: self.hib_dir.clone(),
            snap_path: self.snap_path.clone(),
            mem_path: self.mem_path.clone(),
            preserved_ip: self.preserved_ip,
            tap_device: clone_opt_string(&self.tap_device),
            created_at: self.created_at,
        }
    }
}

/// The life-cycle status of a VM that can hibernate.
#[derive(Debug, Clone, PartialEq, Eq)]
pub enum VmStatus {
    Running { pid: u32, fc_socket: String },
    Stopped,
    Hibernated { hib_dir: String, snap_path: String, mem_path: String },
    Paused,
}

/// A VM as the hibernation logic sees it.
#[derive(Debug)]
pub struct VmState {
    pub vm_id: String,
    pub status: VmStatus,
    pub ip: Option<IpAddress>,
    pub tap_device: Option<String>,
    pub vcpus: u32,
    pub memory_mb: u64,
}

/// `s` with its status replaced by `status`.
pub open spec fn with_status(s: VmState, status: VmStatus) -> VmState {
    VmState { status, ..s }
}

/// The state after hibernating a running VM to the image `info`.
pub open spec fn hibernated(s: VmState, info: HibernationInfo) -> VmState {
    with_status(s, VmStatus::Hibernated { hib_dir: info.hib_dir, snap_path: info.snap_path, mem_path: info.mem_path })
}

/// The state after resuming a hibernated VM as process `pid` on `fc_socket`.
pub open spec fn resumed(s: VmState, fc_socket: String, pid: u32) -> VmState {
    with_status(s, VmStatus::Running { pid, fc_socket })
}

impl VmState {
    /// A stopped VM with no address, device or resources.
    pub fn new(vm_id: String) -> (s: Self)
        ensures
            s.vm_id == vm_id,
            s.status == VmStatus::Stopped,
            s.ip is None,
            s.tap_device is None,
            s.vcpus == 0,
            s.memory_mb == 0,
    {
        VmState { vm_id, status: VmStatus::Stopped, ip: None, tap_device: None, vcpus: 0, memory_mb: 0 }
    }

    pub fn is_hibernated(&self) -> (b: bool)
        ensures
            b == self.status is Hibernated,
    {
        match self.status {
            VmStatus::Hibernated { .. } => true,
            _ => false,
        }
    }

    pub fn is_running(&self) -> (b: bool)
        ensures
            b == self.status is Running,
    {
        match self.status {
            VmStatus::Running { .. } => true,
            _ => false,
        }
    }

    /// Records that a running VM was hibernated to `hib_info`; any other VM
    /// is refused and left as it was.
    pub fn hibernate(&mut self, hib_info: HibernationInfo) -> (r: Result<(), String>)
        ensures
            old(self).status is Running ==> r is Ok && *final(self) == hibernated(*old(self), hib_info),
            !(old(self).status is Running) ==> r is Err && r->Err_0@ == "VM is not running"@ && *final(self)
                == *old(self),
    {
        if !self.is_running() {
            return Err(to_owned_string("VM is not running"));
        }
        self.status = VmStatus::Hibernated {
            hib_dir: hib_info.hib_dir,
            snap_path: hib_info.snap_path,
            mem_path: hib_info.mem_path,
        };
        Ok(())
    }

    /// Records that a hibernated VM runs again as process `pid` on
    /// `fc_socket`; any other VM is refused and left as it was.
    pub fn resume(&mut self, fc_socket: String, pid: u32) -> (r: Result<(), String>)
        ensures
            old(self).status is Hibernated ==> r is Ok && *final(self) == resumed(*old(self), fc_socket, pid),
            !(old(self).status is Hibernated) ==> r is Err && r->Err_0@ == "VM is not hibernated"@
                && *final(self) == *old(self),
    {
        if !self.is_hibernated() {
            return Err(to_owned_string("VM is not hibernated"));
        }
        self.status = VmStatus::Running { pid, fc_socket };
        Ok(())
    }
}

/// Hibernating a running VM and resuming it gives back a running VM that
/// differs from the VM before hibernation only in its process and socket.
pub proof fn law_hibernate_then_resume(s: VmState, info: HibernationInfo, fc_socket: String, pid: u32)
    requires
        s.status is Running,
    ensures
        hibernated(s, info).status is Hibernated,
        resumed(hibernated(s, info), fc_socket, pid) == resumed(s, fc_socket, pid),
        resumed(hibernated(s, info), fc_socket, pid).status is Running,
{
}

/// A VM can only be resumed from hibernation: resuming a running, stopped
/// or paused VM is refused, and so is hibernating one that is not running.
pub proof fn law_transitions_need_the_right_status(s: VmState)
    ensures
        s.status is Hibernated ==> !(s.status is Running),
        s.status is Stopped ==> !(s.status is Running) && !(s.status is Hibernated),
        s.status is Paused ==> !(s.status is Running) && !(s.status is Hibernated),
{
}

/// The registry of hibernation images, keyed by VM id.
pub struct HibernationManager {
    hibernating_vms: StrMap<HibernationInfo>,
    hibernation_dir: String,
}

impl View for HibernationManager {
    type V = Map<Seq<char>, HibernationInfo>;

    closed spec fn view(&self) -> Map<Seq<char>, HibernationInfo> {
        self.hibernating_vms@
    }
}

impl HibernationManager {
    pub closed spec fn wf(&self) -> bool {
        self.hibernating_vms.wf()
    }

    pub closed spec fn dir(&self) -> Seq<char> {
        self.hibernation_dir@
    }

    /// An empty registry whose images go under `hibernation_dir`.
    pub fn new(hibernation_dir: String) -> (m: Self)
        ensures
            m.wf(),
            m@ == Map::<Seq<char>, HibernationInfo>::empty(),
            m.dir() == hibernation_dir@,
    {
        HibernationManager { hibernating_vms: StrMap::new(), hibernation_dir }
    }

    pub fn hibernation_dir(&self) -> (d: &String)
        ensures
            d@ == self.dir(),
    {
        &self.hibernation_dir
    }

    /// The image record for VM `vm_id`: its own directory under the
    /// hibernation directory, holding `vm.snap` and `vm.mem`.
    pub fn prepare_hibernation(&self, vm_id: &str) -> (h: HibernationInfo)
        ensures
            h.vm_id@ == vm_id@,
            h.hib_dir@ == join_path(self.dir(), vm_id@),
            h.snap_path@ == join_path(h.hib_dir@, "vm.snap"@),
            h.mem_path@ == join_path(h.hib_dir@, "vm.mem"@),
            h.preserved_ip is None,
            h.tap_device is None,
    {
        let hib_dir = path_join(self.hibernation_dir.as_str(), vm_id);
        let snap_path = path_join(hib_dir.as_str(), "vm.snap");
        let mem_path = path_join(hib_dir.as_str(), "vm.mem");
        HibernationInfo::new(to_owned_string(vm_id), hib_dir, snap_path, mem_path)
    }

    pub fn store_hibernation_info(&mut self, info: HibernationInfo)
        requires
            old(self).wf(),
        ensures
            final(self).wf(),
            final(self).dir() == old(self).dir(),
            final(self)@ == old(self)@.insert(info.vm_id@, info),
    {
        let key = info.vm_id.clone();
        self.hibernating_vms.insert(key.as_str(), info);
    }

    pub fn get_hibernation_info(&self, vm_id: &str) -> (r: Option<&HibernationInfo>)
        requires
            self.wf(),
        ensures
            match r {
                Some(h) => self@.contains_key(vm_id@) && self@[vm_id@] == *h,
                None => !self@.contains_key(vm_id@),
            },
    {
        self.hibernating_vms.get(vm_id)
    }

    pub fn remove_hibernation_info(&mut self, vm_id: &str) -> (r: Option<HibernationInfo>)
        requires
            old(self).wf(),
        ensures
            final(self).wf(),
            final(self).dir() == old(self).dir(),
            final(self)@ == old(self)@.remove(vm_id@),
            match r {
                Some(h) => old(self)@.contains_key(vm_id@) && old(self)@[vm_id@] == h,
                None => !old(self)@.contains_key(vm_id@),
            },
    {
        self.hibernating_vms.remove(vm_id)
    }

    /// The ids of the hibernating VMs, each once.
    pub fn list_hibernating_vms(&self) -> (r: Vec<String>)
        requires
            self.wf(),
        ensures
            r@.len() == self@.dom().len(),
            forall|i: int| 0 <= i < r@.len() ==> self@.contains_key(#[trigger] r@[i]@),
            forall|k: Seq<char>| #[trigger] self@.contains_key(k) ==> exists|i: int| 0 <= i < r@.len() && r@[i]@ == k,
    {
        let pairs = self.hibernating_vms.iter_pairs();
        proof {
            self.hibernating_vms.lemma_key_seq();
        }
        let mut r: Vec<String> = Vec::new();
        let mut i: usize = 0;
        while i < pairs.len()
            invariant
                i <= pairs@.len(),
                r@.len() == i,
                pairs@.len() == self.hibernating_vms.key_seq().len(),
                forall|j: int| 0 <= j < pairs@.len() ==> pairs@[j].0@ == #[trigger] self.hibernating_vms.key_seq()[j],
                forall|j: int| 0 <= j < i ==> r@[j]@ == #[trigger] self.hibernating_vms.key_seq()[j],
            decreases pairs.len() - i,
        {
            r.push(pairs[i].0.clone());
            i = i + 1;
        }
        proof {
            let ks = self.hibernating_vms.key_seq();
            assert forall|j: int| 0 <= j < r@.len() implies self@.contains_key(#[trigger] r@[j]@) by {
                assert(r@[j]@ == ks[j]);
                assert(ks.contains(ks[j]));
            }
            assert forall|k: Seq<char>| #[trigger] self@.contains_key(k) implies exists|i: int| 0 <= i < r@.len() && r@[i]@ == k by {
                assert(ks.contains(k));
                let t = choose|t: int| 0 <= t < ks.len() && ks[t] == k;
                assert(r@[t]@ == k);
            }
        }
        r
    }

    /// The image record of VM `vm_id`, or the error given when there is
    /// none; the directory removal and the file checks go through it.
    pub fn hibernation_info_or_err(&self, vm_id: &str) -> (r: Result<&HibernationInfo, String>)
        requires
            self.wf(),
        ensures
            match r {
                Ok(h) => self@.contains_key(vm_id@) && self@[vm_id@] == *h,
                Err(e) => !self@.contains_key(vm_id@) && e@ == "No hibernation info found"@,
            },
    {
        match self.hibernating_vms.get(vm_id) {
            Some(h) => Ok(h),
            None => Err(to_owned_string("No hibernation info found")),
        }
    }
}

impl Default for HibernationManager {
    fn default() -> (m: Self)
        ensures
            m.wf(),
            m@ == Map::<Seq<char>, HibernationInfo>::empty(),
            m.dir() == "/var/lib/vyoma/hibernation"@,
    {
        HibernationManager::new(to_owned_string("/var/lib/vyoma/hibernation"))
    }
}

/// A stored image record is found again under its VM's id.
pub proof fn law_store_then_get(m: Map<Seq<char>, HibernationInfo>, info: HibernationInfo)
    ensures
        m.insert(info.vm_id@, info).contains_key(info.vm_id@),
        m.insert(info.vm_id@, info)[info.vm_id@] == info,
{
}

/// A removed image record is gone, and the others are untouched.
pub proof fn law_remove_then_get(m: Map<Seq<char>, HibernationInfo>, vm_id: Seq<char>, other: Seq<char>)
    requires
        other != vm_id,
    ensures
        !m.remove(vm_id).contains_key(vm_id),
        m.remove(vm_id).contains_key(other) == m.contains_key(other),
        m.contains_key(other) ==> m.remove(vm_id)[other] == m[other],
{
}

} // verus!
