//! Bookkeeping of a VM being created: the status text it reports, its
//! cgroup limits, and what to undo when a stage fails.
use vstd::prelude::*;

use super::types::{PreparedStorage, VmNetworkConfig, VmRunResponse};
use crate::state::VmStatus;
use crate::text::{push_str, to_owned_string};
use crate::timemachine::{is_lower_hex, is_uuid_v4_text, new_uuid_v4};

verus! {

/// The status text of a run response.
pub open spec fn status_text(status: VmStatus) -> Seq<char> {
    match status {
        VmStatus::PendingAttestation => "PendingAttestation"@,
        VmStatus::Running => "Running"@,
        VmStatus::Error { reason } => "Error: "@ + reason@,
    }
}

pub fn status_string(status: &VmStatus) -> (s: String)
    ensures
        s@ == status_text(*status),
{
    match status {
        VmStatus::PendingAttestation => to_owned_string("PendingAttestation"),
        VmStatus::Running => to_owned_string("Running"),
        VmStatus::Error { reason } => {
            let mut s = to_owned_string("Error: ");
            push_str(&mut s, reason.as_str());
            s
        },
    }
}

/// The cgroup limits of a VM: a CPU quota of 100 per virtual CPU, and its
/// memory in bytes.
pub fn cgroup_limits(vcpu: u32, mem_size_mib: u32) -> (r: (u32, u64))
    requires
        vcpu * 100 <= u32::MAX,
    ensures
        r.0 == vcpu * 100,
        r.1 == mem_size_mib * 1024 * 1024,
{
    (vcpu * 100, (mem_size_mib as u64) * 1024 * 1024)
}

/// The value of a lower-case hex digit.
pub open spec fn hex_digit_value(c: char) -> int {
    if '0' <= c && c <= '9' {
        c as int - 48
    } else {
        c as int - 87
    }
}

/// The value of the first `n` characters of `s` read as hex digits.
pub open spec fn hex_value(s: Seq<char>, n: int) -> int
    decreases n,
{
    if n <= 0 {
        0
    } else {
        hex_value(s, n - 1) * 16 + hex_digit_value(s[n - 1])
    }
}

pub open spec fn pow16(n: nat) -> int
    decreases n,
{
    if n == 0 {
        1
    } else {
        16 * pow16((n - 1) as nat)
    }
}

proof fn lemma_pow16_small(n: nat)
    requires
        n <= 8,
    ensures
        n <= 7 ==> pow16(n) <= 268435456,
        n == 8 ==> pow16(n) == 4294967296,
{
    reveal_with_fuel(pow16, 9);
}

/// The first field of a UUID (its first four bytes, big-endian): the value
/// of the first eight hex digits of its text.
pub fn uuid_first_field(id: &str) -> (v: u32)
    requires
        is_uuid_v4_text(id@),
    ensures
        v == hex_value(id@, 8),
{
    let mut v: u64 = 0;
    let mut i: usize = 0;
    while i < 8
        invariant
            i <= 8,
            is_uuid_v4_text(id@),
            v == hex_value(id@, i as int),
            0 <= v < pow16(i as nat),
        decreases 8 - i,
    {
        let c = id.get_char(i);
        assert(is_lower_hex(id@[i as int]));
        let d: u64 = if c <= '9' {
            (c as u32 - 48) as u64
        } else {
            (c as u32 - 87) as u64
        };
        assert(d == hex_digit_value(c));
        assert(pow16((i + 1) as nat) == 16 * pow16(i as nat));
        assert(pow16(i as nat) <= 268435456) by {
            lemma_pow16_small(i as nat);
        }
        v = v * 16 + d;
        i = i + 1;
    }
    assert(pow16(8) == 4294967296) by {
        lemma_pow16_small(8);
    }
    v as u32
}

/// The vsock context id of a new VM: the first field of its id modulo a
/// million, plus 3 (ids 0 to 2 are reserved).
pub fn vm_cid(vm_id: &str) -> (cid: u32)
    requires
        is_uuid_v4_text(vm_id@),
    ensures
        cid == hex_value(vm_id@, 8) % 1000000 + 3,
        3 <= cid <= 1000002,
{
    uuid_first_field(vm_id) % 1000000 + 3
}

/// A new VM's identity: a fresh UUID as its id, and the vsock context id
/// derived from it.
pub fn new_vm_identity() -> (r: (String, u32))
    ensures
        is_uuid_v4_text(r.0@),
        r.1 == hex_value(r.0@, 8) % 1000000 + 3,
{
    let id = new_uuid_v4();
    let cid = vm_cid(id.as_str());
    (id, cid)
}

/// The TAP device recorded for a VM: none when the daemon runs without
/// privileges, else the primary TAP of its network.
pub fn instance_tap_name(rootless: bool, network: &VmNetworkConfig) -> (t: String)
    ensures
        rootless ==> t@.len() == 0,
        !rootless ==> t == network.primary_tap,
{
    if rootless {
        String::new()
    } else {
        network.primary_tap.clone()
    }
}

/// The answer to a run request: the VM's id, its status text and address.
pub fn run_response(vm_id: String, status: &VmStatus, network: &VmNetworkConfig) -> (r: VmRunResponse)
    ensures
        r.vm_id == vm_id,
        r.status@ == status_text(*status),
        r.ip_address == network.ip_address,
{
    VmRunResponse { vm_id, status: status_string(status), ip_address: network.ip_address.clone() }
}

/// What a VM under creation has acquired so far.
#[derive(Debug)]
pub struct VmCreationContext {
    pub vm_id: String,
    pub vm_dir: Option<String>,
    pub storage: Option<PreparedStorage>,
    pub network_config: Option<VmNetworkConfig>,
    pub vm_created: bool,
}

/// What to release after a failed creation, in this order: the networks
/// the VM joined (with its namespace), its storage, its directory.
#[derive(Debug)]
pub struct CreationRollback {
    pub networks: Option<(Vec<String>, Option<String>)>,
    pub storage: Option<PreparedStorage>,
    pub vm_dir: Option<String>,
}

pub open spec fn network_names(n: VmNetworkConfig) -> Seq<Seq<char>> {
    n.network_infos@.map_values(|i: super::types::NetworkInfo| i.network_name@)
}

/// `r` releases what `c` acquired: its storage and directory, and the
/// networks it joined, by name in order, with its namespace.
pub open spec fn is_rollback_of(r: CreationRollback, c: VmCreationContext) -> bool {
    &&& r.storage == c.storage
    &&& r.vm_dir == c.vm_dir
    &&& c.network_config is None ==> r.networks is None
    &&& c.network_config matches Some(n) ==> (r.networks matches Some(p) && p.0@.map_values(|s: String| s@)
        == network_names(n) && p.1 == n.netns_path)
}

impl VmCreationContext {
    pub fn new(vm_id: String) -> (c: Self)
        ensures
            c.vm_id == vm_id,
            c.vm_dir is None,
            c.storage is None,
            c.network_config is None,
            !c.vm_created,
    {
        VmCreationContext { vm_id, vm_dir: None, storage: None, network_config: None, vm_created: false }
    }

    /// Hands over what was acquired, for release.
    pub fn cleanup_on_failure(self) -> (r: CreationRollback)
        ensures
            is_rollback_of(r, self),
    {
        let networks = match self.network_config {
            Some(n) => {
                let mut names: Vec<String> = Vec::new();
                let mut i: usize = 0;
                while i < n.network_infos.len()
                    invariant
                        i <= n.network_infos@.len(),
                        names@.len() == i,
                        forall|j: int|
                            0 <= j < i ==> #[trigger] names@[j]@ == n.network_infos@[j].network_name@,
                    decreases n.network_infos.len() - i,
                {
                    names.push(n.network_infos[i].network_name.clone());
                    i = i + 1;
                }
                assert(names@.map_values(|s: String| s@) =~= network_names(n));
                Some((names, n.netns_path))
            },
            None => None,
        };
        CreationRollback { networks, storage: self.storage, vm_dir: self.vm_dir }
    }
}


// ---------------------------------------------------------------- running a VM

/// The stages of creating and starting a VM, in the order they run.
#[derive(Debug, Clone, Copy, PartialEq, Eq, Structural)]
pub enum RunStage {
    PrepareImage,
    PrepareStorage,
    SetupNetwork,
    PrepareAgent,
    StartVm,
    /// Recording the VM as running, when the boot policy asks for no
    /// attestation.
    MarkRunning,
    SaveState,
}

/// The position of a stage in the run.
pub open spec fn stage_index(s: RunStage) -> nat {
    match s {
        RunStage::PrepareImage => 0,
        RunStage::PrepareStorage => 1,
        RunStage::SetupNetwork => 2,
        RunStage::PrepareAgent => 3,
        RunStage::StartVm => 4,
        RunStage::MarkRunning => 5,
        RunStage::SaveState => 6,
    }
}

/// The stage that follows a successful `s`: the VM is marked running right
/// after it boots only when no attestation is required. The last stage has
/// none and maps to itself.
pub open spec fn stage_after(s: RunStage, needs_attestation: bool) -> RunStage {
    match s {
        RunStage::PrepareImage => RunStage::PrepareStorage,
        RunStage::PrepareStorage => RunStage::SetupNetwork,
        RunStage::SetupNetwork => RunStage::PrepareAgent,
        RunStage::PrepareAgent => RunStage::StartVm,
        RunStage::StartVm => if needs_attestation {
            RunStage::SaveState
        } else {
            RunStage::MarkRunning
        },
        RunStage::MarkRunning => RunStage::SaveState,
        RunStage::SaveState => RunStage::SaveState,
    }
}

/// The stages whose failure releases what the VM acquired: preparing its
/// image, storage and network, and booting it. A failure while preparing the
/// agent, marking the VM running or saving its state releases nothing.
pub open spec fn rolls_back(s: RunStage) -> bool {
    s is PrepareImage || s is PrepareStorage || s is SetupNetwork || s is StartVm
}

/// The error a failed stage is answered with: the stage's own, except that a
/// failed status update is prefixed, and a failed save is reported only as
/// such.
pub open spec fn stage_error(s: RunStage, e: Seq<char>) -> Seq<char> {
    match s {
        RunStage::MarkRunning => "Failed to update VM status: "@ + e,
        RunStage::SaveState => "Failed to save state"@,
        _ => e,
    }
}

/// The stages run forward, each at most once, from `PrepareImage` to
/// `SaveState`, and every run passes through the boot.
pub proof fn law_stages_in_order(s: RunStage, needs_attestation: bool)
    ensures
        s != RunStage::SaveState ==> stage_index(stage_after(s, needs_attestation)) > stage_index(s),
        stage_index(s) <= 6,
        stage_index(s) == 6 <==> s == RunStage::SaveState,
        stage_index(s) == 0 <==> s == RunStage::PrepareImage,
        needs_attestation ==> stage_after(s, needs_attestation) != RunStage::MarkRunning,
{
}

/// Which failures release what a VM acquired: a failure while preparing its
/// image, storage or network, or while booting it, releases everything; a
/// failure while preparing the agent, marking the VM running or saving its
/// state releases nothing.
pub proof fn law_which_failures_roll_back()
    ensures
        rolls_back(RunStage::PrepareImage),
        rolls_back(RunStage::PrepareStorage),
        rolls_back(RunStage::SetupNetwork),
        rolls_back(RunStage::StartVm),
        !rolls_back(RunStage::PrepareAgent),
        !rolls_back(RunStage::MarkRunning),
        !rolls_back(RunStage::SaveState),
{
}

/// A rollback releases exactly what the context held: its storage, its
/// directory, and the networks it joined, if it joined any.
pub proof fn law_rollback_releases_what_was_held(r: CreationRollback, c: VmCreationContext)
    requires
        is_rollback_of(r, c),
    ensures
        r.storage == c.storage,
        r.vm_dir == c.vm_dir,
        r.networks is None <==> c.network_config is None,
        c.network_config matches Some(n) ==> r.networks matches Some(p) && p.0@.len() == n.network_infos@.len()
            && p.1 == n.netns_path,
{
    if c.network_config is Some {
        let n = c.network_config->0;
        let p = r.networks->0;
        assert(p.0@.map_values(|s: String| s@).len() == network_names(n).len());
    }
}

/// What the run does after a stage.
#[derive(Debug)]
pub enum RunStep {
    /// Go on with the given stage.
    Continue(RunStage),
    /// The VM booted: start the attestation check when it is required, stop
    /// the vTPM when it is not, and go on with `next`.
    Booted { next: RunStage, start_attestation: bool, stop_vtpm: bool },
    /// The stage failed: release what was acquired and answer with the error.
    RollBack { rollback: CreationRollback, error: String },
    /// The stage failed: answer with the error, releasing nothing.
    Abort { error: String },
    /// The VM runs: record it, and report it, with `status`.
    Finish { status: VmStatus },
}

/// One step of a run, as the daemon takes it: the outcome of `stage` decides
/// what comes next. A failure while preparing the image, storage or network,
/// or while booting, rolls back everything `ctx` holds and leaves it holding
/// nothing; a failure at any other stage is answered without releasing
/// anything. After the last stage the VM is recorded and reported as
/// `PendingAttestation`, whether or not it was marked running on the way.
pub fn run_vm_step(
    ctx: &mut VmCreationContext,
    stage: RunStage,
    outcome: Result<(), String>,
    needs_attestation: bool,
) -> (s: RunStep)
    ensures
        rolls_back(stage) ==> (outcome matches Err(e) ==> {
            &&& s matches RunStep::RollBack { rollback, error } && error@ == e@ && is_rollback_of(rollback, *old(ctx))
            &&& final(ctx).vm_id == old(ctx).vm_id
            &&& final(ctx).vm_dir is None
            &&& final(ctx).storage is None
            &&& final(ctx).network_config is None
            &&& final(ctx).vm_created == old(ctx).vm_created
        }),
        !rolls_back(stage) ==> (outcome matches Err(e) ==> {
            &&& s matches RunStep::Abort { error } && error@ == stage_error(stage, e@)
            &&& *final(ctx) == *old(ctx)
        }),
        (stage is PrepareImage || stage is PrepareStorage || stage is SetupNetwork || stage is StartVm) ==> (
        outcome matches Err(e) ==> {
            &&& s matches RunStep::RollBack { rollback, error } && error@ == e@ && rollback.storage == old(
                ctx,
            ).storage && rollback.vm_dir == old(ctx).vm_dir && (rollback.networks is None <==> old(
                ctx,
            ).network_config is None)
            &&& final(ctx).vm_dir is None
            &&& final(ctx).storage is None
            &&& final(ctx).network_config is None
        }),
        (stage is PrepareAgent || stage is MarkRunning || stage is SaveState) ==> (outcome is Err ==> (
        s is Abort && *final(ctx) == *old(ctx))),
        outcome is Ok ==> *final(ctx) == *old(ctx),
        outcome is Ok && stage == RunStage::StartVm ==> s == (RunStep::Booted {
            next: stage_after(stage, needs_attestation),
            start_attestation: needs_attestation,
            stop_vtpm: !needs_attestation,
        }),
        outcome is Ok && stage != RunStage::StartVm && stage != RunStage::SaveState ==> s == RunStep::Continue(
            stage_after(stage, needs_attestation),
        ),
        outcome is Ok && stage == RunStage::SaveState ==> s == (RunStep::Finish {
            status: VmStatus::PendingAttestation,
        }),
{
    match outcome {
        Err(error) => match stage {
            RunStage::PrepareImage | RunStage::PrepareStorage | RunStage::SetupNetwork | RunStage::StartVm => {
                let held = VmCreationContext {
                    vm_id: ctx.vm_id.clone(),
                    vm_dir: ctx.vm_dir.take(),
                    storage: ctx.storage.take(),
                    network_config: ctx.network_config.take(),
                    vm_created: ctx.vm_created,
                };
                RunStep::RollBack { rollback: held.cleanup_on_failure(), error }
            },
            RunStage::PrepareAgent => RunStep::Abort { error },
            RunStage::MarkRunning => {
                let mut m = to_owned_string("Failed to update VM status: ");
                push_str(&mut m, error.as_str());
                RunStep::Abort { error: m }
            },
            RunStage::SaveState => RunStep::Abort { error: to_owned_string("Failed to save state") },
        },
        Ok(()) => match stage {
            RunStage::PrepareImage => RunStep::Continue(RunStage::PrepareStorage),
            RunStage::PrepareStorage => RunStep::Continue(RunStage::SetupNetwork),
            RunStage::SetupNetwork => RunStep::Continue(RunStage::PrepareAgent),
            RunStage::PrepareAgent => RunStep::Continue(RunStage::StartVm),
            RunStage::StartVm => {
                let next = if needs_attestation {
                    RunStage::SaveState
                } else {
                    RunStage::MarkRunning
                };
                RunStep::Booted { next, start_attestation: needs_attestation, stop_vtpm: !needs_attestation }
            },
            RunStage::MarkRunning => RunStep::Continue(RunStage::SaveState),
            RunStage::SaveState => RunStep::Finish { status: VmStatus::PendingAttestation },
        },
    }
}

} // verus!
