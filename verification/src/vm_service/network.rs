//! The default network of a VM: a TAP device on the `vyoma0` bridge and an
//! address in 172.16.0.0/24.
use vstd::prelude::*;

use super::types::{NetworkInfo, VmNetworkConfig};
use crate::text::{dec, push_char, push_str, push_u64, to_owned_string};

verus! {

/// A random byte from `rand::random::<u8>`; nothing is promised of it.
#[verifier::external_body]
pub(crate) fn random_byte() -> (b: u8) {
    rand::random::<u8>()
}

/// `tap` followed by the first eight characters of the VM id (VM ids
/// begin with ASCII, so these are its first eight bytes).
pub open spec fn tap_name_of(vm_id: Seq<char>) -> Seq<char> {
    "tap"@ + vm_id.take(8)
}

/// The host octet for a random byte: 2 to 253.
pub open spec fn host_octet(r: u8) -> nat {
    (2 + (r as nat) % 252) as nat
}

pub fn tap_name_for(vm_id: &str) -> (r: String)
    requires
        vm_id@.len() >= 8,
        forall|i: int| 0 <= i < 8 ==> (#[trigger] vm_id@[i] as u32) < 128,
    ensures
        r@ == tap_name_of(vm_id@),
{
    let mut r = to_owned_string("tap");
    let head = vm_id.substring_char(0, 8);
    push_str(&mut r, head);
    assert(head@ =~= vm_id@.take(8));
    r
}

/// The network of VM `vm_id` for a given random byte: its TAP device, the
/// address `172.16.0.<2 + r % 252>`, the gateway `172.16.0.1`, one `eth0`
/// interface on the `default` network, and no namespace.
pub fn network_config_for(vm_id: &str, r: u8) -> (c: VmNetworkConfig)
    requires
        vm_id@.len() >= 8,
        forall|i: int| 0 <= i < 8 ==> (#[trigger] vm_id@[i] as u32) < 128,
    ensures
        c.ip_address@ == "172.16.0."@ + dec(host_octet(r)),
        c.primary_tap@ == tap_name_of(vm_id@),
        c.gateway@ == "172.16.0.1"@,
        c.netns_path is None,
        c.network_infos@.len() == 1,
        c.network_infos@[0].ip@ == c.ip_address@,
        c.network_infos@[0].tap_name@ == c.primary_tap@,
        c.network_infos@[0].gateway is Some,
        c.network_infos@[0].gateway->0@ == "172.16.0.1"@,
        c.network_infos@[0].interface_name@ == "eth0"@,
        c.network_infos@[0].network_name@ == "default"@,
{
    let tap = tap_name_for(vm_id);
    let octet: u64 = 2 + (r as u64) % 252;
    let mut ip = to_owned_string("172.16.0.");
    push_u64(&mut ip, octet);
    let gateway = to_owned_string("172.16.0.1");
    let mut infos: Vec<NetworkInfo> = Vec::new();
    infos.push(NetworkInfo {
        ip: ip.clone(),
        tap_name: tap.clone(),
        gateway: Some(gateway.clone()),
        interface_name: to_owned_string("eth0"),
        network_name: to_owned_string("default"),
    });
    VmNetworkConfig { ip_address: ip, primary_tap: tap, gateway, network_infos: infos, netns_path: None }
}

/// The default network of VM `vm_id` with a randomly chosen address.
pub fn default_network_config(vm_id: &str) -> (c: VmNetworkConfig)
    requires
        vm_id@.len() >= 8,
        forall|i: int| 0 <= i < 8 ==> (#[trigger] vm_id@[i] as u32) < 128,
    ensures
        exists|r: u8| c.ip_address@ == "172.16.0."@ + dec(#[trigger] host_octet(r)),
        c.primary_tap@ == tap_name_of(vm_id@),
        c.gateway@ == "172.16.0.1"@,
        c.network_infos@.len() == 1,
{
    let r = random_byte();
    let c = network_config_for(vm_id, r);
    assert(c.ip_address@ == "172.16.0."@ + dec(host_octet(r)));
    c
}

/// The namespace a VM's interfaces live in: `vm-<id>`.
pub fn netns_name(vm_id: &str) -> (r: String)
    ensures
        r@ == "vm-"@ + vm_id@,
{
    let mut r = to_owned_string("vm-");
    push_str(&mut r, vm_id);
    r
}

/// One host command: the arguments of `ip`, and the name its failure is
/// reported under.
#[derive(Debug, Clone)]
pub struct IpCommand {
    pub args: Vec<String>,
    pub name: String,
}

fn ip_command(parts: Vec<&str>, name: &str) -> (c: IpCommand)
    ensures
        c.args@.len() == parts@.len(),
        forall|i: int| 0 <= i < parts@.len() ==> #[trigger] c.args@[i]@ == parts@[i]@,
        c.name@ == name@,
{
    let mut args: Vec<String> = Vec::new();
    let mut i: usize = 0;
    while i < parts.len()
        invariant
            i <= parts@.len(),
            args@.len() == i,
            forall|j: int| 0 <= j < i ==> #[trigger] args@[j]@ == parts@[j]@,
        decreases parts@.len() - i,
    {
        args.push(to_owned_string(parts[i]));
        i = i + 1;
    }
    IpCommand { args, name: to_owned_string(name) }
}

/// The commands that give a VM its TAP device `tap`, in order: create it
/// for the `vyoma` user, bring it up, attach it to the `vyoma0` bridge.
/// The first that fails stops the setup.
pub fn tap_setup_commands(tap: &str) -> (c: Vec<IpCommand>)
    ensures
        c@.len() == 3,
        c@[0].args@.len() == 8 && c@[0].args@[0]@ == "tuntap"@ && c@[0].args@[1]@ == "add"@ && c@[0].args@[2]@
            == "dev"@ && c@[0].args@[3]@ == tap@ && c@[0].args@[4]@ == "mode"@ && c@[0].args@[5]@ == "tap"@
            && c@[0].args@[6]@ == "user"@ && c@[0].args@[7]@ == "vyoma"@,
        c@[0].name@ == "ip tuntap add"@,
        c@[1].args@.len() == 4 && c@[1].args@[0]@ == "link"@ && c@[1].args@[1]@ == "set"@ && c@[1].args@[2]@
            == tap@ && c@[1].args@[3]@ == "up"@,
        c@[1].name@ == "ip link set up"@,
        c@[2].args@.len() == 5 && c@[2].args@[0]@ == "link"@ && c@[2].args@[1]@ == "set"@ && c@[2].args@[2]@
            == tap@ && c@[2].args@[3]@ == "master"@ && c@[2].args@[4]@ == "vyoma0"@,
        c@[2].name@ == "ip link set master"@,
{
    let mut c: Vec<IpCommand> = Vec::new();
    c.push(ip_command(vec!["tuntap", "add", "dev", tap, "mode", "tap", "user", "vyoma"], "ip tuntap add"));
    c.push(ip_command(vec!["link", "set", tap, "up"], "ip link set up"));
    c.push(ip_command(vec!["link", "set", tap, "master", "vyoma0"], "ip link set master"));
    c
}

/// How a failed command is reported: its name, `failed: `, and what it
/// wrote to its error output.
pub fn ip_failure_message(name: &str, stderr: &str) -> (m: String)
    ensures
        m@ == name@ + " failed: "@ + stderr@,
{
    let mut m = to_owned_string(name);
    push_str(&mut m, " failed: ");
    push_str(&mut m, stderr);
    m
}

} // verus!
