//! The daemon's record of a VM as it is kept on disk, its attestation
//! status, the write-ahead log and the decisions taken when the daemon
//! restarts.
use vstd::prelude::*;

use crate::api::{PortMapping, VolumeMount};

pub mod adoption;
pub mod monitor;
pub mod recovery;
pub mod teardown;
pub mod wal;

verus! {

/// Whether a VM has passed attestation.
#[derive(Debug, Clone, PartialEq, Eq)]
pub enum VmStatus {
    PendingAttestation,
    Running,
    Error { reason: String },
}

impl Default for VmStatus {
    fn default() -> (s: Self)
        ensures
            s == VmStatus::PendingAttestation,
    {
        VmStatus::PendingAttestation
    }
}

/// What the daemon persists about a VM so that it can adopt or clean it up
/// after a restart.
#[derive(Debug, Clone)]
pub struct VmState {
    pub id: String,
    pub tap_name: String,
    pub dm_name: String,
    pub loop_devices: Vec<String>,
    pub cow_file_path: String,
    pub ip_address: String,
    pub cgroup_path: Option<String>,
    pub netns_path: Option<String>,
    pub ports: Vec<PortMapping>,
    pub volumes: Vec<VolumeMount>,
    pub hostname: Option<String>,
    /// Label pairs, each key once.
    pub labels: Vec<(String, String)>,
    pub base_image_path: String,
    pub vcpu: u32,
    pub mem_size_mib: u32,
    pub networks: Vec<String>,
    pub status: VmStatus,
}

} // verus!
