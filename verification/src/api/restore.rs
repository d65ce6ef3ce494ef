//! `POST /restore`: a new VM cloned from a snapshot. What it is made of, and
//! how each failed step is answered; the caller sets the pieces up.
use vstd::prelude::*;

use super::handlers::RunResponse;
use crate::state::wal::WalEntry;
use crate::state::{VmState, VmStatus};
use crate::text::{dec, join_path, path_join, push_str, push_u64, to_owned_string};
use crate::timemachine::{is_uuid_v4_text, new_uuid_v4};
use crate::vm_service::network::{random_byte, tap_name_for, tap_name_of};

verus! {

/// The address octet a restored VM gets for a random byte: the byte,
/// clamped to 2..=254.
pub open spec fn clamped_octet(r: u8) -> nat {
    if r < 2 {
        2
    } else if r > 254 {
        254
    } else {
        r as nat
    }
}

/// A restored VM's address is a host of 172.16.0.0/24 other than the
/// gateway `.1`: never the network, the gateway or the broadcast address.
pub proof fn law_restored_address_is_a_host(r: u8)
    ensures
        2 <= clamped_octet(r) <= 254,
{
}

/// `~/.vyoma/vms/<vm>`.
pub open spec fn vm_dir_of(home: Seq<char>, vm_id: Seq<char>) -> Seq<char> {
    join_path(join_path(join_path(home, ".vyoma"@), "vms"@), vm_id)
}

/// `p` lays out VM `vm_id` restored under `home` for the random byte `r`.
pub open spec fn is_restore_plan(p: RestorePlan, home: Seq<char>, vm_id: Seq<char>, r: u8) -> bool {
    &&& p.vm_id@ == vm_id
    &&& p.vm_dir@ == vm_dir_of(home, vm_id)
    &&& p.base_image_file@ == join_path(
        join_path(join_path(join_path(home, ".vyoma"@), "images"@), "alpine_latest"@),
        "base.ext4"@,
    )
    &&& p.cow_file@ == join_path(vm_dir_of(home, vm_id), "diff.cow"@)
    &&& p.dm_name@ == "ign-"@ + vm_id
    &&& p.size_sectors == 2048 * 1024 * 1024 / 512
    &&& p.tap_name@ == tap_name_of(vm_id)
    &&& p.bridge_name@ == "ign0"@
    &&& p.vm_ip@ == "172.16.0."@ + dec(clamped_octet(r))
    &&& p.socket_path@ == join_path(vm_dir_of(home, vm_id), "ch.sock"@)
}

/// The pieces of a restored VM.
#[derive(Debug, Clone)]
pub struct RestorePlan {
    pub vm_id: String,
    pub vm_dir: String,
    /// The image every restored VM is based on.
    pub base_image_file: String,
    /// Where the snapshot's disk delta is copied.
    pub cow_file: String,
    pub dm_name: String,
    /// Size of the mapper device in 512-byte sectors (2048 MiB).
    pub size_sectors: u64,
    pub tap_name: String,
    /// The bridge the TAP device joins.
    pub bridge_name: String,
    pub vm_ip: String,
    pub socket_path: String,
}

/// Lays out VM `vm_id`, restored under `home`, for a random byte `r`.
pub fn restore_plan(home: &str, vm_id: &str, r: u8) -> (p: RestorePlan)
    requires
        vm_id@.len() >= 8,
        forall|i: int| 0 <= i < 8 ==> (#[trigger] vm_id@[i] as u32) < 128,
    ensures
        is_restore_plan(p, home@, vm_id@, r),
{
    let root = path_join(home, ".vyoma");
    let images = path_join(root.as_str(), "images");
    let image_dir = path_join(images.as_str(), "alpine_latest");
    let vms = path_join(root.as_str(), "vms");
    let vm_dir = path_join(vms.as_str(), vm_id);
    let mut dm_name = to_owned_string("ign-");
    push_str(&mut dm_name, vm_id);
    let octet: u64 = if r < 2 {
        2
    } else if r > 254 {
        254
    } else {
        r as u64
    };
    let mut vm_ip = to_owned_string("172.16.0.");
    push_u64(&mut vm_ip, octet);
    let size_mb: u64 = 2048;
    RestorePlan {
        vm_id: to_owned_string(vm_id),
        base_image_file: path_join(image_dir.as_str(), "base.ext4"),
        cow_file: path_join(vm_dir.as_str(), "diff.cow"),
        socket_path: path_join(vm_dir.as_str(), "ch.sock"),
        vm_dir,
        dm_name,
        size_sectors: size_mb * 1024 * 1024 / 512,
        tap_name: tap_name_for(vm_id),
        bridge_name: to_owned_string("ign0"),
        vm_ip,
    }
}

/// Lays out a new restored VM under `home`: a fresh UUID as its id, and a
/// random address.
pub fn new_restore_plan(home: &str) -> (p: RestorePlan)
    ensures
        is_uuid_v4_text(p.vm_id@),
        exists|r: u8| #[trigger] is_restore_plan(p, home@, p.vm_id@, r),
{
    let vm_id = new_uuid_v4();
    assert forall|i: int| 0 <= i < 8 implies (#[trigger] vm_id@[i] as u32) < 128 by {
        assert(crate::timemachine::is_lower_hex(vm_id@[i]));
    }
    let r = random_byte();
    let p = restore_plan(home, vm_id.as_str(), r);
    assert(is_restore_plan(p, home@, p.vm_id@, r));
    p
}

/// The steps of a restore, in order.
#[derive(Debug, Clone, Copy, PartialEq, Eq, Structural)]
pub enum RestoreStep {
    CopyCow,
    LoopBase,
    LoopCow,
    CreateDm,
    SetupTap,
    StartHypervisor,
    LoadSnapshot,
    AddDrive,
    AddNetwork,
    Resume,
}

/// What an error of each step is prefixed with.
pub open spec fn restore_error_prefix(step: RestoreStep) -> Seq<char> {
    match step {
        RestoreStep::CopyCow => "Failed to copy COW file: "@,
        RestoreStep::LoopBase => "Loop base: "@,
        RestoreStep::LoopCow => "Loop cow: "@,
        RestoreStep::CreateDm => "DM create: "@,
        RestoreStep::SetupTap => "TAP setup: "@,
        RestoreStep::StartHypervisor => "Failed to start Cloud Hypervisor: "@,
        RestoreStep::LoadSnapshot => "Load snapshot: "@,
        RestoreStep::AddDrive => "Add drive: "@,
        RestoreStep::AddNetwork => "Add net: "@,
        RestoreStep::Resume => "Resume instance: "@,
    }
}

/// Whether a failure at `step` leaves a hypervisor running that must be
/// killed: every step after the hypervisor started.
pub open spec fn kills_hypervisor(step: RestoreStep) -> bool {
    step is LoadSnapshot || step is AddDrive || step is AddNetwork || step is Resume
}

/// A failed restore: the answer (500 and the step's message), and whether
/// the hypervisor must be killed first.
pub fn restore_failure(step: RestoreStep, error: &str) -> (r: ((u16, String), bool))
    ensures
        r.0.0 == 500,
        r.0.1@ == restore_error_prefix(step) + error@,
        r.1 == kills_hypervisor(step),
{
    let (prefix, kill) = match step {
        RestoreStep::CopyCow => ("Failed to copy COW file: ", false),
        RestoreStep::LoopBase => ("Loop base: ", false),
        RestoreStep::LoopCow => ("Loop cow: ", false),
        RestoreStep::CreateDm => ("DM create: ", false),
        RestoreStep::SetupTap => ("TAP setup: ", false),
        RestoreStep::StartHypervisor => ("Failed to start Cloud Hypervisor: ", false),
        RestoreStep::LoadSnapshot => ("Load snapshot: ", true),
        RestoreStep::AddDrive => ("Add drive: ", true),
        RestoreStep::AddNetwork => ("Add net: ", true),
        RestoreStep::Resume => ("Resume instance: ", true),
    };
    let mut m = to_owned_string(prefix);
    push_str(&mut m, error);
    ((500, m), kill)
}

/// The answer once the VM runs: its id, `Restored`, and its address.
pub fn restore_response(plan: &RestorePlan) -> (r: RunResponse)
    ensures
        r.vm_id == plan.vm_id,
        r.status@ == "Restored"@,
        r.ip_address == plan.vm_ip,
{
    RunResponse { vm_id: plan.vm_id.clone(), status: to_owned_string("Restored"), ip_address: plan.vm_ip.clone() }
}

/// What the registry keeps of a restored VM once it runs: the plan's
/// devices and address, the two loop devices (base image first), one vCPU
/// and 512 MiB, nothing else configured, and the status `Running`.
pub open spec fn is_restored_record(r: VmState, plan: RestorePlan, base_loop: String, cow_loop: String) -> bool {
    &&& r.id == plan.vm_id
    &&& r.tap_name == plan.tap_name
    &&& r.dm_name == plan.dm_name
    &&& r.loop_devices@ == seq![base_loop, cow_loop]
    &&& r.cow_file_path == plan.cow_file
    &&& r.ip_address == plan.vm_ip
    &&& r.cgroup_path is None
    &&& r.netns_path is None
    &&& r.ports@.len() == 0
    &&& r.volumes@.len() == 0
    &&& r.hostname is None
    &&& r.labels@.len() == 0
    &&& r.base_image_path@ == Seq::<char>::empty()
    &&& r.vcpu == 1
    &&& r.mem_size_mib == 512
    &&& r.networks@.len() == 0
    &&& r.status == VmStatus::Running
}

/// The registry entry of a VM restored by `plan` on the loop devices
/// `base_loop` and `cow_loop`.
pub fn restored_record(plan: &RestorePlan, base_loop: String, cow_loop: String) -> (r: VmState)
    ensures
        is_restored_record(r, *plan, base_loop, cow_loop),
{
    let mut loop_devices: Vec<String> = Vec::new();
    loop_devices.push(base_loop);
    loop_devices.push(cow_loop);
    let r = VmState {
        id: plan.vm_id.clone(),
        tap_name: plan.tap_name.clone(),
        dm_name: plan.dm_name.clone(),
        loop_devices,
        cow_file_path: plan.cow_file.clone(),
        ip_address: plan.vm_ip.clone(),
        cgroup_path: None,
        netns_path: None,
        ports: Vec::new(),
        volumes: Vec::new(),
        hostname: None,
        labels: Vec::new(),
        base_image_path: String::new(),
        vcpu: 1,
        mem_size_mib: 512,
        networks: Vec::new(),
        status: VmStatus::Running,
    };
    assert(r.loop_devices@ =~= seq![base_loop, cow_loop]);
    r
}

/// The write-ahead log records of a restore, in the order they are
/// appended: the VM's creation at `created_at`, then its start at
/// `started_at`.
pub fn restore_log_at(vm_id: &String, created_at: u64, started_at: u64) -> (r: Vec<WalEntry>)
    ensures
        r@ == seq![
            WalEntry::VmCreate { id: *vm_id, timestamp: created_at },
            WalEntry::VmStart { id: *vm_id, timestamp: started_at },
        ],
{
    let mut r: Vec<WalEntry> = Vec::new();
    r.push(WalEntry::vm_create_at(vm_id.clone(), created_at));
    r.push(WalEntry::vm_start_at(vm_id.clone(), started_at));
    assert(r@ =~= seq![
        WalEntry::VmCreate { id: *vm_id, timestamp: created_at },
        WalEntry::VmStart { id: *vm_id, timestamp: started_at },
    ]);
    r
}

/// The write-ahead log records of a restore, each stamped when it is made:
/// the creation of `vm_id`, then its start.
pub fn restore_log(vm_id: &String) -> (r: Vec<WalEntry>)
    ensures
        r@.len() == 2,
        r@[0] matches WalEntry::VmCreate { id, .. } && id == *vm_id,
        r@[1] matches WalEntry::VmStart { id, .. } && id == *vm_id,
{
    let mut r: Vec<WalEntry> = Vec::new();
    r.push(WalEntry::vm_create(vm_id.clone()));
    r.push(WalEntry::vm_start(vm_id.clone()));
    r
}

} // verus!
