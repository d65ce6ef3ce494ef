//! The devices a VM is booted with, beyond its root disk and first network
//! interface: an interface per further network, a shared-folder device per
//! volume, and a forward per published port.
use vstd::prelude::*;

use super::types::{VmNetworkConfig, VmRunRequest};
use crate::state::adoption::{fs_socket, fs_tag, FsDaemon, PortProxy};
use super::state::label_value;
use crate::text::{dec, path_join, push_str, push_u64, str_eq, to_owned_string};

verus! {

/// A further network interface: its name in the guest and its TAP device.
#[derive(Debug, Clone)]
pub struct ExtraInterface {
    pub if_name: String,
    pub tap_name: String,
}

#[derive(Debug)]
pub struct BootDevices {
    pub extra_interfaces: Vec<ExtraInterface>,
    pub fs_devices: Vec<FsDaemon>,
    pub proxies: Vec<PortProxy>,
}

/// The devices of a VM whose files live in `vm_dir`: `eth<i>` on the TAP of
/// its `i`-th network from the second on (the first is `eth0` on the
/// primary TAP), `vol<i>` served from `<vm_dir>/fs_<i>.sock` for its `i`-th
/// volume, and each published port forwarded to its address.
pub fn boot_devices(network: &VmNetworkConfig, request: &VmRunRequest, vm_dir: &str) -> (d: BootDevices)
    requires
        network.network_infos@.len() <= u64::MAX,
        request.volumes@.len() <= u64::MAX,
    ensures
        network.network_infos@.len() == 0 ==> d.extra_interfaces@.len() == 0,
        network.network_infos@.len() > 0 ==> d.extra_interfaces@.len() == network.network_infos@.len() - 1,
        forall|k: int| 0 <= k < d.extra_interfaces@.len() ==> {
            let e = #[trigger] d.extra_interfaces@[k];
            &&& e.if_name@ == "eth"@ + dec((k + 1) as nat)
            &&& e.tap_name == network.network_infos@[k + 1].tap_name
        },
        d.fs_devices@.len() == request.volumes@.len(),
        forall|k: int| 0 <= k < d.fs_devices@.len() ==> {
            let f = #[trigger] d.fs_devices@[k];
            &&& f.tag@ == fs_tag(k as nat)
            &&& f.socket_path@ == fs_socket(vm_dir@, k as nat)
        },
        d.proxies@.len() == request.ports@.len(),
        forall|k: int| 0 <= k < d.proxies@.len() ==> {
            let p = #[trigger] d.proxies@[k];
            &&& p.host_port == request.ports@[k].host_port
            &&& p.vm_port == request.ports@[k].vm_port
            &&& p.vm_ip == network.ip_address
        },
{
    let mut extra_interfaces: Vec<ExtraInterface> = Vec::new();
    let mut i: usize = 1;
    while i < network.network_infos.len()
        invariant
            1 <= i,
            network.network_infos@.len() <= u64::MAX,
            network.network_infos@.len() > 0 ==> i <= network.network_infos@.len(),
            network.network_infos@.len() == 0 ==> i == 1,
            extra_interfaces@.len() == i - 1,
            forall|k: int| 0 <= k < extra_interfaces@.len() ==> {
                let e = #[trigger] extra_interfaces@[k];
                &&& e.if_name@ == "eth"@ + dec((k + 1) as nat)
                &&& e.tap_name == network.network_infos@[k + 1].tap_name
            },
        decreases network.network_infos@.len() - i,
    {
        let mut if_name = to_owned_string("eth");
        push_u64(&mut if_name, i as u64);
        extra_interfaces.push(ExtraInterface { if_name, tap_name: network.network_infos[i].tap_name.clone() });
        i = i + 1;
    }
    let mut fs_devices: Vec<FsDaemon> = Vec::new();
    let mut j: usize = 0;
    while j < request.volumes.len()
        invariant
            j <= request.volumes@.len(),
            request.volumes@.len() <= u64::MAX,
            fs_devices@.len() == j,
            forall|k: int| 0 <= k < j ==> {
                let f = #[trigger] fs_devices@[k];
                &&& f.tag@ == fs_tag(k as nat)
                &&& f.socket_path@ == fs_socket(vm_dir@, k as nat)
            },
        decreases request.volumes@.len() - j,
    {
        let mut tag = to_owned_string("vol");
        push_u64(&mut tag, j as u64);
        let mut name = to_owned_string("fs_");
        push_u64(&mut name, j as u64);
        push_str(&mut name, ".sock");
        fs_devices.push(FsDaemon { tag, socket_path: path_join(vm_dir, name.as_str()) });
        j = j + 1;
    }
    let mut proxies: Vec<PortProxy> = Vec::new();
    let mut p: usize = 0;
    while p < request.ports.len()
        invariant
            p <= request.ports@.len(),
            proxies@.len() == p,
            forall|k: int| 0 <= k < p ==> {
                let x = #[trigger] proxies@[k];
                &&& x.host_port == request.ports@[k].host_port
                &&& x.vm_port == request.ports@[k].vm_port
                &&& x.vm_ip == network.ip_address
            },
        decreases request.ports@.len() - p,
    {
        let m = request.ports[p];
        proxies.push(PortProxy { host_port: m.host_port, vm_ip: network.ip_address.clone(), vm_port: m.vm_port });
        p = p + 1;
    }
    BootDevices { extra_interfaces, fs_devices, proxies }
}

/// Whether a vTPM is started for a VM: exactly when the boot policy
/// requires verification at boot.
pub fn vtpm_needed(must_verify_on_boot: bool) -> (r: bool)
    ensures
        r == must_verify_on_boot,
{
    must_verify_on_boot
}

/// What follows the last `/` of `s`; all of `s` when it has none.
pub open spec fn after_last_slash(s: Seq<char>) -> Seq<char>
    decreases s.len(),
{
    if s.len() == 0 {
        s
    } else if s.last() == '/' {
        Seq::empty()
    } else {
        after_last_slash(s.drop_last()).push(s.last())
    }
}

/// The last `/`-separated part of a path.
pub fn last_path_part(s: &str) -> (r: String)
    ensures
        r@ == after_last_slash(s@),
{
    let n = s.unicode_len();
    let mut start: usize = 0;
    let mut i: usize = 0;
    while i < n
        invariant
            n == s@.len(),
            start <= i <= n,
            after_last_slash(s@.take(i as int)) == s@.subrange(start as int, i as int),
        decreases n - i,
    {
        let c = s.get_char(i);
        assert(s@.take(i + 1).drop_last() =~= s@.take(i as int));
        assert(s@.take(i + 1).last() == c);
        if c == '/' {
            start = i + 1;
            assert(s@.subrange(start as int, start as int) =~= Seq::<char>::empty());
        } else {
            assert(s@.subrange(start as int, i + 1) =~= s@.subrange(start as int, i as int).push(c));
        }
        i = i + 1;
    }
    assert(s@.take(n as int) =~= s@);
    to_owned_string(s.substring_char(start, n))
}

/// The name a VM's vTPM is created under: its `vm_id` label, else the last
/// part of its API socket path.
pub fn vtpm_vm_id(labels: &Vec<(String, String)>, socket_path: &str) -> (r: String)
    ensures
        r@ == match label_value(labels@, "vm_id"@) {
            Some(v) => v@,
            None => after_last_slash(socket_path@),
        },
{
    let mut i: usize = 0;
    assert(labels@.skip(0) =~= labels@);
    while i < labels.len()
        invariant
            i <= labels@.len(),
            label_value(labels@.skip(i as int), "vm_id"@) == label_value(labels@, "vm_id"@),
        decreases labels@.len() - i,
    {
        assert(labels@.skip(i as int).drop_first() =~= labels@.skip(i + 1));
        if str_eq(labels[i].0.as_str(), "vm_id") {
            assert(labels@.skip(i as int)[0] == labels@[i as int]);
            return labels[i].1.clone();
        }
        i = i + 1;
    }
    assert(labels@.skip(i as int).len() == 0);
    last_path_part(socket_path)
}

} // verus!
