//! The Cloud Hypervisor launch configuration of a VM and its checks.
use vstd::prelude::*;

use super::types::{AgentConfig, ChConfig, VmNetworkConfig};
use crate::text::{clone_opt_string, join_path, path_join, push_str, to_owned_string};

verus! {

/// The kernel command line: serial console, no reboot on panic, root on the
/// first virtio disk, a static address on `eth0`, and the image's init.
pub open spec fn boot_args_text(ip: Seq<char>, gateway: Seq<char>, vm_id: Seq<char>) -> Seq<char> {
    "console=ttyS0 reboot=k panic=1 pci=off root=/dev/vda rw ip="@ + ip + "::"@ + gateway
        + ":255.255.255.0:"@ + vm_id + ":eth0:off:"@ + gateway + " init=/sbin/vyoma-init"@
}

pub fn build_boot_args(ip: &str, gateway: &str, vm_id: &str) -> (r: String)
    ensures
        r@ == boot_args_text(ip@, gateway@, vm_id@),
{
    let mut r = to_owned_string("console=ttyS0 reboot=k panic=1 pci=off root=/dev/vda rw ip=");
    push_str(&mut r, ip);
    push_str(&mut r, "::");
    push_str(&mut r, gateway);
    push_str(&mut r, ":255.255.255.0:");
    push_str(&mut r, vm_id);
    push_str(&mut r, ":eth0:off:");
    push_str(&mut r, gateway);
    push_str(&mut r, " init=/sbin/vyoma-init");
    r
}

/// The launch configuration of VM `vm_id` whose files live in `vm_dir`.
pub fn build_ch_config(
    data_dir: &str,
    vm_id: &str,
    cid: u32,
    vm_dir: &str,
    rootfs_path: &str,
    network_config: &VmNetworkConfig,
    agent_config: &AgentConfig,
    kernel_path: &str,
) -> (c: ChConfig)
    ensures
        c.kernel_path@ == kernel_path@,
        c.ch_path@ == data_dir@ + "/bin/cloud-hypervisor"@,
        c.socket_path@ == join_path(vm_dir@, "ch.sock"@),
        c.boot_args@ == boot_args_text(network_config.ip_address@, network_config.gateway@, vm_id@),
        c.rootfs_path@ == rootfs_path@,
        c.vsock_cid == cid,
        c.vsock_path@ == join_path(vm_dir@, "vsock.sock"@),
        c.initramfs_path == agent_config.initramfs_path,
{
    let socket_path = path_join(vm_dir, "ch.sock");
    let mut ch_path = to_owned_string(data_dir);
    push_str(&mut ch_path, "/bin/cloud-hypervisor");
    let vsock_path = path_join(vm_dir, "vsock.sock");
    let boot_args = build_boot_args(
        network_config.ip_address.as_str(),
        network_config.gateway.as_str(),
        vm_id,
    );
    ChConfig {
        kernel_path: to_owned_string(kernel_path),
        ch_path,
        socket_path,
        boot_args,
        rootfs_path: to_owned_string(rootfs_path),
        vsock_cid: cid,
        vsock_path,
        initramfs_path: clone_opt_string(&agent_config.initramfs_path),
    }
}

/// Checks that the files a launch needs exist, given whether the kernel,
/// the hypervisor binary and the initramfs (when one is configured) were
/// found; the first missing one is reported.
pub fn validate_ch_config(
    config: &ChConfig,
    kernel_exists: bool,
    ch_exists: bool,
    initramfs_exists: bool,
) -> (r: Result<(), String>)
    ensures
        !kernel_exists ==> r is Err && r->Err_0@ == "Kernel binary not found at "@ + config.kernel_path@,
        kernel_exists && !ch_exists ==> r is Err && r->Err_0@ == "Cloud Hypervisor binary not found at "@
            + config.ch_path@,
        kernel_exists && ch_exists && config.initramfs_path is Some && !initramfs_exists ==> r is Err
            && r->Err_0@ == "Initramfs not found at "@ + config.initramfs_path->0@,
        kernel_exists && ch_exists && (config.initramfs_path is None || initramfs_exists) ==> r is Ok,
{
    if !kernel_exists {
        let mut m = to_owned_string("Kernel binary not found at ");
        push_str(&mut m, config.kernel_path.as_str());
        return Err(m);
    }
    if !ch_exists {
        let mut m = to_owned_string("Cloud Hypervisor binary not found at ");
        push_str(&mut m, config.ch_path.as_str());
        return Err(m);
    }
    match &config.initramfs_path {
        Some(p) => {
            if !initramfs_exists {
                let mut m = to_owned_string("Initramfs not found at ");
                push_str(&mut m, p.as_str());
                return Err(m);
            }
        },
        None => {},
    }
    Ok(())
}

} // verus!
