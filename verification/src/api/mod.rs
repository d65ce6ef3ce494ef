//! Port and volume descriptions shared by the API and the VM records.
use vstd::prelude::*;

pub mod attest;
pub mod image_build;
pub mod grpc;
pub mod handlers;
pub mod migration;
pub mod restore;
pub mod swarm;

verus! {

/// A host port forwarded to a port inside the VM.
#[derive(Debug, Clone, Copy, PartialEq, Eq, Structural)]
pub struct PortMapping {
    pub host_port: u16,
    pub vm_port: u16,
}

/// A host directory shared into the VM.
#[derive(Debug, Clone)]
pub struct VolumeMount {
    pub host_path: String,
    pub vm_path: String,
    pub read_only: bool,
}

} // verus!
