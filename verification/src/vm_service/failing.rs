//! Stand-ins for the VM service stages that fail on demand, recording what
//! they created and what they released, for exercising error recovery.
use vstd::prelude::*;

use super::types::{NetworkInfo, PreparedStorage, VmNetworkConfig};
use crate::text::{dec, push_str, push_u64, to_owned_string};

verus! {

/// An image stage whose every pull fails with the given message.
pub struct MockFailingOciManager {
    pub error: String,
}

impl MockFailingOciManager {
    pub fn new(error: String) -> (m: Self)
        ensures
            m.error == error,
    {
        Self { error }
    }

    pub fn pull_image(&self, image: &str) -> (r: Result<String, String>)
        ensures
            r is Err && r->Err_0@ == self.error@,
    {
        Err(self.error.clone())
    }

    pub fn prepare_image(&self, image: &str) -> (r: Result<String, String>)
        ensures
            r is Err && r->Err_0@ == self.error@,
    {
        Err(self.error.clone())
    }
}

/// The storage the stand-ins hand out: `/dev/mapper/test` over
/// `/tmp/test.cow`, named `test`, with no loop devices.
pub open spec fn is_test_storage(s: PreparedStorage) -> bool {
    &&& s.dm_device_path@ == "/dev/mapper/test"@
    &&& s.loop_devices@.len() == 0
    &&& s.cow_file_path@ == "/tmp/test.cow"@
    &&& s.dm_name@ == "test"@
}

fn test_storage() -> (s: PreparedStorage)
    ensures
        is_test_storage(s),
{
    PreparedStorage {
        dm_device_path: to_owned_string("/dev/mapper/test"),
        loop_devices: Vec::new(),
        cow_file_path: to_owned_string("/tmp/test.cow"),
        dm_name: to_owned_string("test"),
    }
}

/// A storage stage that, when told to, fails after creating a loop device
/// and releases what it created before reporting the failure.
pub struct MockFailingStorageManager {
    pub fail_after_loop_creation: bool,
    pub created_loop_devices: Vec<String>,
    pub cleaned_devices: Vec<String>,
}

impl MockFailingStorageManager {
    pub fn new() -> (m: Self)
        ensures
            !m.fail_after_loop_creation,
            m.created_loop_devices@.len() == 0,
            m.cleaned_devices@.len() == 0,
    {
        Self { fail_after_loop_creation: false, created_loop_devices: Vec::new(), cleaned_devices: Vec::new() }
    }

    pub fn prepare_storage(&mut self) -> (r: Result<PreparedStorage, String>)
        ensures
            final(self).fail_after_loop_creation == old(self).fail_after_loop_creation,
            old(self).fail_after_loop_creation ==> {
                &&& r is Err
                &&& r->Err_0@ == "Storage preparation failed after loop device creation"@
                &&& final(self).created_loop_devices@.len() == 0
                &&& final(self).cleaned_devices@.len() == old(self).cleaned_devices@.len()
                    + old(self).created_loop_devices@.len() + 1
                &&& final(self).cleaned_devices@.drop_last() == old(self).cleaned_devices@
                    + old(self).created_loop_devices@
                &&& final(self).cleaned_devices@.last()@ == "/dev/loop0"@
            },
            !old(self).fail_after_loop_creation ==> {
                &&& r matches Ok(s) && is_test_storage(s)
                &&& final(self).created_loop_devices@ == old(self).created_loop_devices@
                &&& final(self).cleaned_devices@ == old(self).cleaned_devices@
            },
    {
        if self.fail_after_loop_creation {
            self.created_loop_devices.push(to_owned_string("/dev/loop0"));
            self.cleanup_partial();
            return Err(to_owned_string("Storage preparation failed after loop device creation"));
        }
        Ok(test_storage())
    }

    /// Releases every created loop device, in creation order.
    pub fn cleanup_partial(&mut self)
        ensures
            final(self).fail_after_loop_creation == old(self).fail_after_loop_creation,
            final(self).created_loop_devices@.len() == 0,
            final(self).cleaned_devices@ == old(self).cleaned_devices@ + old(self).created_loop_devices@,
    {
        let mut i: usize = 0;
        let ghost c0 = self.cleaned_devices@;
        while i < self.created_loop_devices.len()
            invariant
                i <= self.created_loop_devices@.len(),
                self.created_loop_devices@ == old(self).created_loop_devices@,
                self.fail_after_loop_creation == old(self).fail_after_loop_creation,
                self.cleaned_devices@ == c0 + self.created_loop_devices@.take(i as int),
                c0 == old(self).cleaned_devices@,
            decreases self.created_loop_devices.len() - i,
        {
            let d = self.created_loop_devices[i].clone();
            self.cleaned_devices.push(d);
            assert(self.created_loop_devices@.take(i + 1) =~= self.created_loop_devices@.take(i as int).push(
                self.created_loop_devices@[i as int],
            ));
            i = i + 1;
        }
        assert(self.created_loop_devices@.take(i as int) =~= self.created_loop_devices@);
        self.created_loop_devices.clear();
    }

    pub fn get_cleaned_devices(&self) -> (r: Vec<String>)
        ensures
            r@ == self.cleaned_devices@,
    {
        crate::text::clone_strings(&self.cleaned_devices)
    }
}

/// The interface created for the `i`-th network of a VM.
pub open spec fn failing_info_ok(n: NetworkInfo, i: int, name: String) -> bool {
    &&& n.ip@ == "172.16.0."@ + dec((i + 2) as nat)
    &&& n.tap_name@ == "tap"@ + dec(i as nat)
    &&& n.gateway is Some && n.gateway->0@ == "172.16.0.1"@
    &&& n.interface_name@ == "eth"@ + dec(i as nat)
    &&& n.network_name == name
}

/// A network stage that, when told to, fails on the second network and
/// releases what it created before reporting the failure.
pub struct MockFailingNetworkManager {
    pub fail_on_second_network: bool,
    pub created_networks: Vec<String>,
    pub cleaned_networks: Vec<String>,
}

impl MockFailingNetworkManager {
    pub fn new() -> (m: Self)
        ensures
            !m.fail_on_second_network,
            m.created_networks@.len() == 0,
            m.cleaned_networks@.len() == 0,
    {
        Self { fail_on_second_network: false, created_networks: Vec::new(), cleaned_networks: Vec::new() }
    }

    /// Releases every created network, in creation order.
    pub fn cleanup_created_networks(&mut self)
        ensures
            final(self).fail_on_second_network == old(self).fail_on_second_network,
            final(self).created_networks@.len() == 0,
            final(self).cleaned_networks@ == old(self).cleaned_networks@ + old(self).created_networks@,
    {
        let mut i: usize = 0;
        let ghost c0 = self.cleaned_networks@;
        while i < self.created_networks.len()
            invariant
                i <= self.created_networks@.len(),
                self.created_networks@ == old(self).created_networks@,
                self.fail_on_second_network == old(self).fail_on_second_network,
                self.cleaned_networks@ == c0 + self.created_networks@.take(i as int),
                c0 == old(self).cleaned_networks@,
            decreases self.created_networks.len() - i,
        {
            let d = self.created_networks[i].clone();
            self.cleaned_networks.push(d);
            assert(self.created_networks@.take(i + 1) =~= self.created_networks@.take(i as int).push(
                self.created_networks@[i as int],
            ));
            i = i + 1;
        }
        assert(self.created_networks@.take(i as int) =~= self.created_networks@);
        self.created_networks.clear();
    }

    /// Creates the networks in order; when told to fail, the second one
    /// fails and everything created so far is released. On success the
    /// configuration lists one interface per network created so far.
    pub fn setup_network(&mut self, networks: &Vec<String>) -> (r: Result<VmNetworkConfig, String>)
        requires
            old(self).created_networks@.len() + networks@.len() + 2 <= usize::MAX,
        ensures
            final(self).fail_on_second_network == old(self).fail_on_second_network,
            old(self).fail_on_second_network && networks@.len() > 1 ==> {
                &&& r is Err
                &&& r->Err_0@ == "Failed to create network "@ + networks@[1]@
                &&& final(self).created_networks@.len() == 0
                &&& final(self).cleaned_networks@ == old(self).cleaned_networks@ + old(self).created_networks@
                    + seq![networks@[0]]
            },
            !(old(self).fail_on_second_network && networks@.len() > 1) ==> {
                &&& final(self).created_networks@ == old(self).created_networks@ + networks@
                &&& final(self).cleaned_networks@ == old(self).cleaned_networks@
                &&& r matches Ok(c) && c.ip_address@ == "172.16.0.2"@ && c.primary_tap@ == "tap0"@
                    && c.gateway@ == "172.16.0.1"@ && c.netns_path is Some && c.netns_path->0@
                    == "/var/run/netns/test"@ && c.network_infos@.len() == final(self).created_networks@.len()
                    && forall|i: int| 0 <= i < c.network_infos@.len() ==> failing_info_ok(
                    #[trigger] c.network_infos@[i],
                    i,
                    final(self).created_networks@[i],
                )
            },
    {
        let mut i: usize = 0;
        let ghost created0 = self.created_networks@;
        while i < networks.len()
            invariant
                i <= networks@.len(),
                self.fail_on_second_network == old(self).fail_on_second_network,
                self.cleaned_networks@ == old(self).cleaned_networks@,
                self.created_networks@ == created0 + networks@.take(i as int),
                created0 == old(self).created_networks@,
                self.fail_on_second_network ==> i <= 1,
            decreases networks.len() - i,
        {
            if self.fail_on_second_network && i > 0 {
                self.cleanup_created_networks();
                let mut m = to_owned_string("Failed to create network ");
                push_str(&mut m, networks[i].as_str());
                assert(networks@.take(1) =~= seq![networks@[0]]);
                return Err(m);
            }
            self.created_networks.push(networks[i].clone());
            assert(networks@.take(i + 1) =~= networks@.take(i as int).push(networks@[i as int]));
            i = i + 1;
        }
        assert(networks@.take(i as int) =~= networks@);
        let mut infos: Vec<NetworkInfo> = Vec::new();
        let mut k: usize = 0;
        while k < self.created_networks.len()
            invariant
                k <= self.created_networks@.len(),
                self.created_networks@.len() + 2 <= usize::MAX,
                infos@.len() == k,
                forall|j: int| 0 <= j < k ==> failing_info_ok(#[trigger] infos@[j], j, self.created_networks@[j]),
            decreases self.created_networks.len() - k,
        {
            let mut ip = to_owned_string("172.16.0.");
            push_u64(&mut ip, (k + 2) as u64);
            let mut tap = to_owned_string("tap");
            push_u64(&mut tap, k as u64);
            let mut iface = to_owned_string("eth");
            push_u64(&mut iface, k as u64);
            infos.push(NetworkInfo {
                ip,
                tap_name: tap,
                gateway: Some(to_owned_string("172.16.0.1")),
                interface_name: iface,
                network_name: self.created_networks[k].clone(),
            });
            k = k + 1;
        }
        Ok(VmNetworkConfig {
            ip_address: to_owned_string("172.16.0.2"),
            primary_tap: to_owned_string("tap0"),
            gateway: to_owned_string("172.16.0.1"),
            network_infos: infos,
            netns_path: Some(to_owned_string("/var/run/netns/test")),
        })
    }

    pub fn get_cleaned_networks(&self) -> (r: Vec<String>)
        ensures
            r@ == self.cleaned_networks@,
    {
        crate::text::clone_strings(&self.cleaned_networks)
    }
}

/// A boot stage that, when told to, fails.
pub struct MockFailingBootManager {
    pub fail_on_boot: bool,
}

impl MockFailingBootManager {
    pub fn new() -> (m: Self)
        ensures
            !m.fail_on_boot,
    {
        Self { fail_on_boot: false }
    }

    pub fn start_vm(&self) -> (r: Result<(), String>)
        ensures
            self.fail_on_boot ==> r is Err && r->Err_0@ == "Cloud Hypervisor boot failed"@,
            !self.fail_on_boot ==> r is Ok,
    {
        if self.fail_on_boot {
            return Err(to_owned_string("Cloud Hypervisor boot failed"));
        }
        Ok(())
    }
}

/// A storage stage that records whether its cleanup ran.
pub struct MockStorageWithCleanupTracking {
    pub should_fail: bool,
    pub cleanup_called: bool,
}

impl MockStorageWithCleanupTracking {
    pub fn new() -> (m: Self)
        ensures
            !m.should_fail,
            !m.cleanup_called,
    {
        Self { should_fail: false, cleanup_called: false }
    }

    pub fn prepare_storage(&mut self) -> (r: Result<PreparedStorage, String>)
        ensures
            final(self).should_fail == old(self).should_fail,
            old(self).should_fail ==> r is Err && r->Err_0@ == "Simulated storage failure"@
                && final(self).cleanup_called,
            !old(self).should_fail ==> (r matches Ok(s) && is_test_storage(s)) && final(self).cleanup_called
                == old(self).cleanup_called,
    {
        if self.should_fail {
            self.cleanup();
            return Err(to_owned_string("Simulated storage failure"));
        }
        Ok(test_storage())
    }

    pub fn cleanup(&mut self)
        ensures
            final(self).cleanup_called,
            final(self).should_fail == old(self).should_fail,
    {
        self.cleanup_called = true;
    }
}

} // verus!
