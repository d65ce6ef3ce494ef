//! The records passed between the stages of starting a VM.
use vstd::prelude::*;

use crate::api::{PortMapping, VolumeMount};

verus! {

/// A request to run a VM from an image.
#[derive(Debug, Clone)]
pub struct VmRunRequest {
    pub image: String,
    pub vcpu: u32,
    pub mem_size_mib: u32,
    pub ports: Vec<PortMapping>,
    pub volumes: Vec<VolumeMount>,
    pub hostname: Option<String>,
    pub networks: Vec<String>,
    /// Label pairs, each key once.
    pub labels: Vec<(String, String)>,
    pub base_image_path: String,
}

#[derive(Debug, Clone)]
pub struct VmRunResponse {
    pub vm_id: String,
    pub status: String,
    pub ip_address: String,
}

/// The block devices set up for a VM's root filesystem.
#[derive(Debug, Clone)]
pub struct PreparedStorage {
    pub dm_device_path: String,
    pub loop_devices: Vec<String>,
    pub cow_file_path: String,
    pub dm_name: String,
}

/// The network a VM was attached to.
#[derive(Debug, Clone)]
pub struct VmNetworkConfig {
    pub ip_address: String,
    pub primary_tap: String,
    pub gateway: String,
    pub network_infos: Vec<NetworkInfo>,
    pub netns_path: Option<String>,
}

/// One interface of a VM.
#[derive(Debug, Clone)]
pub struct NetworkInfo {
    pub ip: String,
    pub tap_name: String,
    pub gateway: Option<String>,
    pub interface_name: String,
    pub network_name: String,
}

/// How the guest agent is started.
#[derive(Debug, Clone)]
pub struct AgentConfig {
    pub initramfs_path: Option<String>,
    pub init_script_path: String,
    pub cmd: Vec<String>,
    pub workdir: String,
    pub envs: Vec<String>,
}

/// The Cloud Hypervisor launch configuration.
#[derive(Debug, Clone)]
pub struct ChConfig {
    pub kernel_path: String,
    pub ch_path: String,
    pub socket_path: String,
    pub boot_args: String,
    pub rootfs_path: String,
    pub vsock_cid: u32,
    pub vsock_path: String,
    pub initramfs_path: Option<String>,
}

/// Whether the policy let a VM start and whether attestation is pending.
#[derive(Debug, Clone, Copy, PartialEq, Eq, Structural)]
pub struct PolicyResult {
    pub passed: bool,
    pub attestation_pending: bool,
}

/// Everything the daemon keeps about a running VM besides its handles.
#[derive(Debug, Clone)]
pub struct VmInstanceSnapshot {
    pub vm_id: String,
    pub ch_socket_path: String,
    pub tap_name: String,
    pub dm_name: String,
    pub loop_devices: Vec<String>,
    pub cow_file_path: String,
    pub ip_address: String,
    pub cgroup_path: Option<String>,
    pub netns_path: Option<String>,
    pub config_ports: Vec<PortMapping>,
    pub config_volumes: Vec<VolumeMount>,
    pub hostname: Option<String>,
    pub labels: Vec<(String, String)>,
    pub base_image_path: String,
    pub vcpu: u32,
    pub mem_size_mib: u32,
    pub networks: Vec<String>,
}

} // verus!
