//! The gRPC VM service's conversions between its messages and the daemon's
//! records, and its answers. The transport is the caller's.
use vstd::prelude::*;

use super::{PortMapping, VolumeMount};
use crate::text::{push_str, to_owned_string};
use crate::vm_service::types::VmRunRequest;

verus! {

/// A port mapping as the gRPC message carries it.
#[derive(Debug, Clone, Copy)]
pub struct ProtoPort {
    pub host: u32,
    pub vm: u32,
}

/// A volume as the gRPC message carries it.
#[derive(Debug, Clone)]
pub struct ProtoVolume {
    pub host_path: String,
    pub vm_path: String,
}

/// The fields of a `CreateVm` request.
#[derive(Debug, Clone)]
pub struct CreateVmParams {
    pub name: String,
    pub image: String,
    pub vcpus: u32,
    pub memory_mb: u64,
    pub ports: Vec<ProtoPort>,
    pub volumes: Vec<ProtoVolume>,
    pub networks: Vec<String>,
}

/// The run request a `CreateVm` call makes: ports narrowed to 16 bits and
/// memory to 32 as the message is read, volumes writable, and a non-empty
/// name used as host name and as the `name` and `vyoma.service` labels.
pub fn vm_run_request_from_create(req: CreateVmParams) -> (r: VmRunRequest)
    ensures
        r.image == req.image,
        r.vcpu == req.vcpus,
        r.mem_size_mib == req.memory_mb as u32,
        r.ports@.len() == req.ports@.len(),
        forall|i: int| 0 <= i < r.ports@.len() ==> {
            &&& #[trigger] r.ports@[i].host_port == req.ports@[i].host as u16
            &&& r.ports@[i].vm_port == req.ports@[i].vm as u16
        },
        r.volumes@.len() == req.volumes@.len(),
        forall|i: int| 0 <= i < r.volumes@.len() ==> {
            &&& #[trigger] r.volumes@[i].host_path == req.volumes@[i].host_path
            &&& r.volumes@[i].vm_path == req.volumes@[i].vm_path
            &&& !r.volumes@[i].read_only
        },
        r.networks == req.networks,
        r.base_image_path@.len() == 0,
        req.name@.len() == 0 ==> r.hostname is None && r.labels@.len() == 0,
        req.name@.len() > 0 ==> {
            &&& r.hostname == Some(req.name)
            &&& r.labels@.len() == 2
            &&& r.labels@[0].0@ == "name"@ && r.labels@[0].1 == req.name
            &&& r.labels@[1].0@ == "vyoma.service"@ && r.labels@[1].1 == req.name
        },
{
    let mut ports: Vec<PortMapping> = Vec::new();
    let mut i: usize = 0;
    while i < req.ports.len()
        invariant
            i <= req.ports@.len(),
            ports@.len() == i,
            forall|k: int| 0 <= k < i ==> {
                &&& #[trigger] ports@[k].host_port == req.ports@[k].host as u16
                &&& ports@[k].vm_port == req.ports@[k].vm as u16
            },
        decreases req.ports@.len() - i,
    {
        let p = req.ports[i];
        ports.push(PortMapping { host_port: p.host as u16, vm_port: p.vm as u16 });
        i = i + 1;
    }
    let mut volumes: Vec<VolumeMount> = Vec::new();
    let mut j: usize = 0;
    while j < req.volumes.len()
        invariant
            j <= req.volumes@.len(),
            volumes@.len() == j,
            forall|k: int| 0 <= k < j ==> {
                &&& #[trigger] volumes@[k].host_path == req.volumes@[k].host_path
                &&& volumes@[k].vm_path == req.volumes@[k].vm_path
                &&& !volumes@[k].read_only
            },
        decreases req.volumes@.len() - j,
    {
        let v = &req.volumes[j];
        volumes.push(VolumeMount { host_path: v.host_path.clone(), vm_path: v.vm_path.clone(), read_only: false });
        j = j + 1;
    }
    let mut labels: Vec<(String, String)> = Vec::new();
    let hostname = if req.name.as_str().unicode_len() > 0 {
        labels.push((to_owned_string("name"), req.name.clone()));
        labels.push((to_owned_string("vyoma.service"), req.name.clone()));
        Some(req.name.clone())
    } else {
        None
    };
    VmRunRequest {
        image: req.image,
        vcpu: req.vcpus,
        mem_size_mib: req.memory_mb as u32,
        ports,
        volumes,
        hostname,
        networks: req.networks,
        labels,
        base_image_path: String::new(),
    }
}

/// A VM as the gRPC service describes it.
#[derive(Debug, Clone)]
pub struct ProtoVmInfo {
    pub id: String,
    pub image: String,
    pub status: String,
    pub ip: String,
    pub vcpus: u32,
    pub memory_mb: u64,
    pub ports: Vec<ProtoPort>,
    pub created_at: u64,
}

/// The description of a running VM: its base image as image, `running`,
/// no ports, and no creation time.
pub fn proto_vm_info(id: &String, base_image_path: &String, ip: &String, vcpu: u32, mem_size_mib: u32) -> (r: ProtoVmInfo)
    ensures
        r.id == *id && r.image == *base_image_path && r.ip == *ip,
        r.status@ == "running"@,
        r.vcpus == vcpu && r.memory_mb == mem_size_mib as u64,
        r.ports@.len() == 0 && r.created_at == 0,
{
    ProtoVmInfo {
        id: id.clone(),
        image: base_image_path.clone(),
        status: to_owned_string("running"),
        ip: ip.clone(),
        vcpus: vcpu,
        memory_mb: mem_size_mib as u64,
        ports: Vec::new(),
        created_at: 0,
    }
}

/// The gRPC status codes the service answers with.
#[derive(Debug, Clone, Copy, PartialEq, Eq, Structural)]
pub enum GrpcCode {
    NotFound,
    Internal,
    Unimplemented,
}

/// The answer to `StartVm`: a VM that exists is reported `Running` (it was
/// booted when created).
pub fn start_vm_reply(vm_id: String, exists: bool) -> (r: Result<(String, String), (GrpcCode, String)>)
    ensures
        exists ==> (r matches Ok(s) && s.0 == vm_id && s.1@ == "Running"@),
        !exists ==> (r matches Err(e) && e.0 == GrpcCode::NotFound && e.1@ == "VM not found"@),
{
    if exists {
        Ok((vm_id, to_owned_string("Running")))
    } else {
        Err((GrpcCode::NotFound, to_owned_string("VM not found")))
    }
}

/// The answer to `StopVm`: a VM that was registered is torn down and
/// reported `stopped`.
pub fn stop_vm_reply(vm_id: String, was_registered: bool) -> (r: Result<(String, String), (GrpcCode, String)>)
    ensures
        was_registered ==> (r matches Ok(s) && s.0 == vm_id && s.1@ == "stopped"@),
        !was_registered ==> (r matches Err(e) && e.0 == GrpcCode::NotFound && e.1@ == "VM not found"@),
{
    if was_registered {
        Ok((vm_id, to_owned_string("stopped")))
    } else {
        Err((GrpcCode::NotFound, to_owned_string("VM not found")))
    }
}

/// A failure of `CreateVm` or `DeleteVm`, reported as internal.
pub fn operation_failed(operation: &str, error: &str) -> (e: (GrpcCode, String))
    ensures
        e.0 == GrpcCode::Internal,
        e.1@ == "Failed to "@ + operation@ + " VM: "@ + error@,
{
    let mut m = to_owned_string("Failed to ");
    push_str(&mut m, operation);
    push_str(&mut m, " VM: ");
    push_str(&mut m, error);
    (GrpcCode::Internal, m)
}

/// The answer of the calls the service does not offer: exec, logs,
/// snapshots, restore and migration.
pub fn not_implemented() -> (e: (GrpcCode, String))
    ensures
        e.0 == GrpcCode::Unimplemented,
        e.1@ == "Not implemented"@,
{
    (GrpcCode::Unimplemented, to_owned_string("Not implemented"))
}

} // verus!
