//! The request and response bodies of the daemon's HTTP API, and the
//! decisions its handlers take that depend on nothing but their inputs.
use vstd::prelude::*;

use super::{PortMapping, VolumeMount};
use crate::swarm::raft::NodeInfo;
use crate::text::{clone_opt_string, join_path, path_join, parse_u64, parses_unsigned, digits_value, unsigned_body, push_str, str_eq, to_owned_string};
use crate::timemachine::SnapshotEntry;
use crate::vm_service::types::VmRunRequest;

verus! {

/// A node as the earlier registration endpoint receives it.
#[derive(Debug, Clone)]
pub struct LegacyNodeInfo {
    pub id: String,
    pub ip: String,
    pub role: String,
    pub subnet_id: u8,
    pub wireguard_public_key: Option<String>,
    pub wireguard_port: Option<u16>,
}

/// The body of a run request.
#[derive(Debug, Clone)]
pub struct RunRequest {
    pub image: String,
    pub vcpu: u32,
    pub mem_size_mib: u32,
    pub ports: Vec<PortMapping>,
    pub volumes: Vec<VolumeMount>,
    pub hostname: Option<String>,
    pub networks: Vec<String>,
    /// Label pairs, each key once.
    pub labels: Vec<(String, String)>,
    pub base_image_path: String,
}

impl From<RunRequest> for VmRunRequest {
    fn from(req: RunRequest) -> (r: VmRunRequest) {
        VmRunRequest {
            image: req.image,
            vcpu: req.vcpu,
            mem_size_mib: req.mem_size_mib,
            ports: req.ports,
            volumes: req.volumes,
            hostname: req.hostname,
            networks: req.networks,
            labels: req.labels,
            base_image_path: req.base_image_path,
        }
    }
}

impl vstd::std_specs::convert::FromSpecImpl<RunRequest> for VmRunRequest {
    open spec fn obeys_from_spec() -> bool {
        true
    }

    open spec fn from_spec(req: RunRequest) -> VmRunRequest {
        VmRunRequest {
            image: req.image,
            vcpu: req.vcpu,
            mem_size_mib: req.mem_size_mib,
            ports: req.ports,
            volumes: req.volumes,
            hostname: req.hostname,
            networks: req.networks,
            labels: req.labels,
            base_image_path: req.base_image_path,
        }
    }
}

/// The virtual CPUs of a VM whose request names none.
pub fn default_vcpu() -> (n: u32)
    ensures
        n == 1,
{
    1
}

/// The memory in MiB of a VM whose request names none.
pub fn default_mem() -> (n: u32)
    ensures
        n == 512,
{
    512
}

/// The driver of a network whose request names none.
pub fn default_driver() -> (d: String)
    ensures
        d@ == "bridge"@,
{
    to_owned_string("bridge")
}

#[derive(Debug, Clone)]
pub struct RunResponse {
    pub vm_id: String,
    pub status: String,
    pub ip_address: String,
}

#[derive(Debug, Clone)]
pub struct CommitRequest {
    pub new_image_name: String,
}

#[derive(Debug, Clone)]
pub struct RestoreRequest {
    pub snapshot_path: String,
    pub mem_path: String,
    pub cow_path: String,
    pub original_vm_id: String,
}

#[derive(Debug, Clone)]
pub struct TimeTravelRequest {
    pub vm_id: String,
    pub snapshot_id: String,
}

/// `~/.vyoma/vms/<vm>/snapshots/<snapshot>`.
pub open spec fn time_travel_dir(home: Seq<char>, vm_id: Seq<char>, snapshot_id: Seq<char>) -> Seq<char> {
    join_path(join_path(join_path(join_path(join_path(home, ".vyoma"@), "vms"@), vm_id), "snapshots"@), snapshot_id)
}

/// The restore that travelling VM `vm_id` back to `snapshot_id` performs:
/// the snapshot's state, memory and disk files in its directory.
pub fn restore_request_for(home: &str, req: &TimeTravelRequest) -> (r: RestoreRequest)
    ensures
        r.snapshot_path@ == join_path(time_travel_dir(home@, req.vm_id@, req.snapshot_id@), "snapshot.snap"@),
        r.mem_path@ == join_path(time_travel_dir(home@, req.vm_id@, req.snapshot_id@), "memory.mem"@),
        r.cow_path@ == join_path(time_travel_dir(home@, req.vm_id@, req.snapshot_id@), "diff.cow"@),
        r.original_vm_id == req.vm_id,
{
    let a = path_join(home, ".vyoma");
    let b = path_join(a.as_str(), "vms");
    let c = path_join(b.as_str(), req.vm_id.as_str());
    let d = path_join(c.as_str(), "snapshots");
    let dir = path_join(d.as_str(), req.snapshot_id.as_str());
    RestoreRequest {
        snapshot_path: path_join(dir.as_str(), "snapshot.snap"),
        mem_path: path_join(dir.as_str(), "memory.mem"),
        cow_path: path_join(dir.as_str(), "diff.cow"),
        original_vm_id: req.vm_id.clone(),
    }
}

#[derive(Debug, Clone)]
pub struct HistoryResponse {
    pub snapshots: Vec<SnapshotEntry>,
}

/// A VM as the listing endpoint shows it.
#[derive(Debug, Clone)]
pub struct VmSummary {
    pub id: String,
    pub ip_address: String,
    pub hostname: Option<String>,
    pub labels: Vec<(String, String)>,
    pub base_image_path: String,
    pub vcpu: u32,
    pub mem_size_mib: u32,
}

#[derive(Debug, Clone)]
pub struct ListResponse {
    pub vms: Vec<VmSummary>,
}

#[derive(Debug, Clone)]
pub struct PullResponse {
    pub status: String,
    pub path: String,
}

#[derive(Debug, Clone)]
pub struct PullRequest {
    pub image: String,
}

#[derive(Debug, Clone)]
pub struct CreateNetworkRequest {
    pub name: String,
    pub subnet: String,
    pub driver: String,
}

/// The network drivers the daemon can create.
#[derive(Debug, Clone, Copy, PartialEq, Eq, Structural)]
pub enum NetworkDriver {
    Bridge,
    Overlay,
}

/// The driver a network request asks for: `bridge` or `overlay`; any other
/// name is refused.
pub fn network_driver(driver: &str) -> (r: Result<NetworkDriver, String>)
    ensures
        driver@ == "bridge"@ ==> r == Ok::<NetworkDriver, String>(NetworkDriver::Bridge),
        driver@ == "overlay"@ ==> r == Ok::<NetworkDriver, String>(NetworkDriver::Overlay),
        driver@ != "bridge"@ && driver@ != "overlay"@ ==> r is Err && r->Err_0@ == "Unknown driver: "@ + driver@,
{
    proof {
        reveal_strlit("bridge");
        reveal_strlit("overlay");
        assert("bridge"@[0] != "overlay"@[0]);
    }
    if str_eq(driver, "bridge") {
        Ok(NetworkDriver::Bridge)
    } else if str_eq(driver, "overlay") {
        Ok(NetworkDriver::Overlay)
    } else {
        let mut m = to_owned_string("Unknown driver: ");
        push_str(&mut m, driver);
        Err(m)
    }
}

/// What creating network `name` with `driver` reports.
pub fn network_created_message(driver: NetworkDriver, name: &str) -> (r: String)
    ensures
        driver == NetworkDriver::Bridge ==> r@ == "Network "@ + name@ + " created"@,
        driver == NetworkDriver::Overlay ==> r@ == "Overlay Network "@ + name@ + " created"@,
{
    let mut m = match driver {
        NetworkDriver::Bridge => to_owned_string("Network "),
        NetworkDriver::Overlay => to_owned_string("Overlay Network "),
    };
    push_str(&mut m, name);
    push_str(&mut m, " created");
    m
}

/// What deleting network `name` reports.
pub fn network_deleted_message(name: &str) -> (r: String)
    ensures
        r@ == "Network "@ + name@ + " deleted"@,
{
    let mut m = to_owned_string("Network ");
    push_str(&mut m, name);
    push_str(&mut m, " deleted");
    m
}

#[derive(Debug, Clone)]
pub struct JoinRequest {
    pub node_id: u64,
    pub addr: String,
    pub public_key: String,
    pub wireguard_key: Option<String>,
    pub wireguard_port: Option<u16>,
}

#[derive(Debug, Clone)]
pub struct InitResponse {
    pub node_id: u64,
    pub subnet_id: u8,
    pub wireguard_port: Option<u16>,
    pub wireguard_key: Option<String>,
}

#[derive(Debug, Clone)]
pub struct JoinResponse {
    pub node_id: u64,
    pub subnet_id: u8,
    pub peers: Vec<NodeInfo>,
}

/// A swarm node as the API lists it.
#[derive(Debug, Clone)]
pub struct SwarmNodeInfo {
    pub id: u64,
    pub addr: String,
    pub public_key: String,
    pub wireguard_key: Option<String>,
    pub wireguard_port: Option<u16>,
    pub subnet_id: Option<u8>,
    pub is_leader: bool,
}

pub open spec fn lists_node(s: SwarmNodeInfo, n: NodeInfo) -> bool {
    &&& s.id == n.id
    &&& s.addr == n.addr
    &&& s.public_key == n.public_key
    &&& s.wireguard_key == n.wireguard_key
    &&& s.wireguard_port == n.wireguard_port
    &&& s.subnet_id == n.subnet_id
    &&& s.is_leader == n.is_leader
}

pub fn swarm_node_info(n: &NodeInfo) -> (s: SwarmNodeInfo)
    ensures
        lists_node(s, *n),
{
    SwarmNodeInfo {
        id: n.id,
        addr: n.addr.clone(),
        public_key: n.public_key.clone(),
        wireguard_key: clone_opt_string(&n.wireguard_key),
        wireguard_port: n.wireguard_port,
        subnet_id: n.subnet_id,
        is_leader: n.is_leader,
    }
}

/// The listing of a node table, one entry per node in order.
pub fn swarm_node_infos(nodes: &Vec<NodeInfo>) -> (r: Vec<SwarmNodeInfo>)
    ensures
        r@.len() == nodes@.len(),
        forall|i: int| 0 <= i < r@.len() ==> lists_node(#[trigger] r@[i], nodes@[i]),
{
    let mut r: Vec<SwarmNodeInfo> = Vec::new();
    let mut i: usize = 0;
    while i < nodes.len()
        invariant
            i <= nodes@.len(),
            r@.len() == i,
            forall|k: int| 0 <= k < i ==> lists_node(#[trigger] r@[k], nodes@[k]),
        decreases nodes.len() - i,
    {
        r.push(swarm_node_info(&nodes[i]));
        i = i + 1;
    }
    r
}

#[derive(Debug, Clone)]
pub struct RegisterResponse {
    pub node_id: u64,
    pub subnet_id: u8,
    pub peers: Vec<SwarmNodeInfo>,
}

/// The subnet the registration endpoint reports for a node: `id % 254 + 1`.
pub fn register_subnet_id(node_id: u64) -> (s: u8)
    ensures
        s as int == node_id % 254 + 1,
{
    ((node_id % 254) + 1) as u8
}

/// The numeric id in a registration, which must be the decimal text of a
/// `u64`.
pub fn parse_node_id(id: &str) -> (r: Result<u64, String>)
    ensures
        parses_unsigned(id@, u64::MAX as nat) ==> r is Ok && r->Ok_0 as nat == digits_value(unsigned_body(id@)),
        !parses_unsigned(id@, u64::MAX as nat) ==> r is Err && r->Err_0@ == "Invalid node ID format"@,
{
    match parse_u64(id) {
        Some(n) => Ok(n),
        None => Err(to_owned_string("Invalid node ID format")),
    }
}

#[derive(Debug, Clone)]
pub struct VolumeInfo {
    pub name: String,
    pub path: String,
}

#[derive(Debug, Clone)]
pub struct TeleportRequest {
    pub vm_id: String,
    pub target_node_ip: String,
    pub bandwidth_mbps: Option<u32>,
}

#[derive(Debug, Clone)]
pub struct TeleportResponse {
    pub session_id: String,
    pub status: String,
    pub message: String,
}

#[derive(Debug, Clone)]
pub struct AdoptTeleportRequest {
    pub vm_id: String,
}

#[derive(Debug, Clone)]
pub struct ReceiveTeleportRequest {
    pub vm_id: String,
}

#[derive(Debug, Clone)]
pub struct PolicyRequest {
    pub policy: String,
    pub enabled: bool,
}

#[derive(Debug, Clone)]
pub struct PolicyResponse {
    pub policy: String,
    pub enabled: bool,
    pub message: String,
}

/// Applies a policy request: only `require-measured-boot` is known, and the
/// answer says whether attestation is now required.
pub fn policy_update(req: PolicyRequest) -> (r: Result<PolicyResponse, String>)
    ensures
        req.policy@ == "require-measured-boot"@ ==> (r matches Ok(p) && p.policy == req.policy && p.enabled
            == req.enabled && p.message@ == if req.enabled {
            "Measured boot policy enabled. VMs will require TPM attestation."@
        } else {
            "Measured boot policy disabled."@
        }),
        req.policy@ != "require-measured-boot"@ ==> r is Err && r->Err_0@ == "Unknown policy: "@
            + req.policy@,
{
    if str_eq(req.policy.as_str(), "require-measured-boot") {
        let message = if req.enabled {
            to_owned_string("Measured boot policy enabled. VMs will require TPM attestation.")
        } else {
            to_owned_string("Measured boot policy disabled.")
        };
        Ok(PolicyResponse { policy: req.policy, enabled: req.enabled, message })
    } else {
        let mut m = to_owned_string("Unknown policy: ");
        push_str(&mut m, req.policy.as_str());
        Err(m)
    }
}

/// How a policy's state is described when listed.
pub fn policy_status_message(enforced: bool) -> (m: String)
    ensures
        enforced ==> m@ == "enforced"@,
        !enforced ==> m@ == "optional"@,
{
    if enforced {
        to_owned_string("enforced")
    } else {
        to_owned_string("optional")
    }
}

/// The per-PCR row of an attestation answer.
#[derive(Debug, Clone)]
pub struct PcrResult {
    pub pcr_index: u32,
    pub expected: String,
    pub actual: String,
    pub verified: bool,
}

#[derive(Debug, Clone)]
pub struct AttestResponse {
    pub vm_id: String,
    pub verified: bool,
    pub pcr_results: Vec<PcrResult>,
    pub error: Option<String>,
}

} // verus!
