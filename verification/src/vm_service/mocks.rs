//! Stand-ins for the VM service stages that answer with fixed results, for
//! exercising the stages without devices or a hypervisor.
use vstd::prelude::*;

use super::types::{AgentConfig, ChConfig, NetworkInfo, PreparedStorage, VmNetworkConfig};
use crate::text::{clone_opt_string, clone_strings, join_path, path_join, to_owned_string};

verus! {

#[derive(Debug, Clone)]
pub struct MockPreparedStorage {
    pub dm_device_path: String,
    pub loop_devices: Vec<String>,
    pub cow_file_path: String,
    pub dm_name: String,
}

impl From<MockPreparedStorage> for PreparedStorage {
    fn from(m: MockPreparedStorage) -> (s: PreparedStorage) {
        PreparedStorage {
            dm_device_path: m.dm_device_path,
            loop_devices: m.loop_devices,
            cow_file_path: m.cow_file_path,
            dm_name: m.dm_name,
        }
    }
}

impl vstd::std_specs::convert::FromSpecImpl<MockPreparedStorage> for PreparedStorage {
    open spec fn obeys_from_spec() -> bool {
        true
    }

    open spec fn from_spec(m: MockPreparedStorage) -> PreparedStorage {
        PreparedStorage {
            dm_device_path: m.dm_device_path,
            loop_devices: m.loop_devices,
            cow_file_path: m.cow_file_path,
            dm_name: m.dm_name,
        }
    }
}

fn copy_storage(m: &MockPreparedStorage) -> (r: PreparedStorage)
    ensures
        r.dm_device_path == m.dm_device_path,
        r.loop_devices@ == m.loop_devices@,
        r.cow_file_path == m.cow_file_path,
        r.dm_name == m.dm_name,
{
    PreparedStorage {
        dm_device_path: m.dm_device_path.clone(),
        loop_devices: clone_strings(&m.loop_devices),
        cow_file_path: m.cow_file_path.clone(),
        dm_name: m.dm_name.clone(),
    }
}

/// Storage that is always ready.
pub struct MockStorageProvider {
    pub storage: MockPreparedStorage,
}

impl MockStorageProvider {
    pub fn new(storage: MockPreparedStorage) -> (p: Self)
        ensures
            p.storage == storage,
    {
        Self { storage }
    }

    /// The storage handed out for every VM.
    pub fn prepare_storage(&self) -> (r: PreparedStorage)
        ensures
            r.dm_device_path == self.storage.dm_device_path,
            r.loop_devices@ == self.storage.loop_devices@,
            r.cow_file_path == self.storage.cow_file_path,
            r.dm_name == self.storage.dm_name,
    {
        copy_storage(&self.storage)
    }
}

#[derive(Debug, Clone)]
pub struct MockNetworkConfig {
    pub ip_address: String,
    pub primary_tap: String,
    pub gateway: String,
    pub network_infos: Vec<MockNetworkInfo>,
    pub netns_path: Option<String>,
}

#[derive(Debug, Clone)]
pub struct MockNetworkInfo {
    pub ip: String,
    pub tap_name: String,
    pub gateway: Option<String>,
    pub interface_name: String,
    pub network_name: String,
}

pub open spec fn same_info(a: NetworkInfo, b: MockNetworkInfo) -> bool {
    &&& a.ip == b.ip
    &&& a.tap_name == b.tap_name
    &&& a.gateway == b.gateway
    &&& a.interface_name == b.interface_name
    &&& a.network_name == b.network_name
}

/// `c` carries the same values as the mock configuration `m`.
pub open spec fn same_network(c: VmNetworkConfig, m: MockNetworkConfig) -> bool {
    &&& c.ip_address == m.ip_address
    &&& c.primary_tap == m.primary_tap
    &&& c.gateway == m.gateway
    &&& c.netns_path == m.netns_path
    &&& c.network_infos@.len() == m.network_infos@.len()
    &&& forall|i: int| 0 <= i < c.network_infos@.len() ==> same_info(#[trigger] c.network_infos@[i], m.network_infos@[i])
}

impl MockNetworkConfig {
    /// The same configuration as the service's own type.
    pub fn to_network_config(&self) -> (c: VmNetworkConfig)
        ensures
            same_network(c, *self),
    {
        let mut infos: Vec<NetworkInfo> = Vec::new();
        let mut i: usize = 0;
        while i < self.network_infos.len()
            invariant
                i <= self.network_infos@.len(),
                infos@.len() == i,
                forall|k: int| 0 <= k < i ==> same_info(#[trigger] infos@[k], self.network_infos@[k]),
            decreases self.network_infos.len() - i,
        {
            let n = &self.network_infos[i];
            infos.push(NetworkInfo {
                ip: n.ip.clone(),
                tap_name: n.tap_name.clone(),
                gateway: clone_opt_string(&n.gateway),
                interface_name: n.interface_name.clone(),
                network_name: n.network_name.clone(),
            });
            i = i + 1;
        }
        VmNetworkConfig {
            ip_address: self.ip_address.clone(),
            primary_tap: self.primary_tap.clone(),
            gateway: self.gateway.clone(),
            network_infos: infos,
            netns_path: clone_opt_string(&self.netns_path),
        }
    }
}

/// A network that is always set up as configured.
pub struct MockNetworkProvider {
    pub config: MockNetworkConfig,
}

impl MockNetworkProvider {
    pub fn new(config: MockNetworkConfig) -> (p: Self)
        ensures
            p.config == config,
    {
        Self { config }
    }

    pub fn setup_network(&self) -> (c: VmNetworkConfig)
        ensures
            same_network(c, self.config),
    {
        self.config.to_network_config()
    }
}

/// An agent that is always ready with a fixed configuration.
pub struct MockAgentProvider {
    pub agent_config: AgentConfig,
}

impl MockAgentProvider {
    pub fn new(agent_config: AgentConfig) -> (p: Self)
        ensures
            p.agent_config == agent_config,
    {
        Self { agent_config }
    }

    /// The fixed configuration; an empty init script path is filled in as
    /// `mock-init.sh` in the VM directory.
    pub fn prepare_agent(&self, vm_dir: &str) -> (c: AgentConfig)
        ensures
            c.initramfs_path == self.agent_config.initramfs_path,
            c.cmd@ == self.agent_config.cmd@,
            c.workdir == self.agent_config.workdir,
            c.envs@ == self.agent_config.envs@,
            self.agent_config.init_script_path@.len() == 0 ==> c.init_script_path@ == join_path(
                vm_dir@,
                "mock-init.sh"@,
            ),
            self.agent_config.init_script_path@.len() > 0 ==> c.init_script_path == self.agent_config.init_script_path,
    {
        let a = &self.agent_config;
        let init_script_path = if a.init_script_path.as_str().unicode_len() == 0 {
            path_join(vm_dir, "mock-init.sh")
        } else {
            a.init_script_path.clone()
        };
        AgentConfig {
            initramfs_path: clone_opt_string(&a.initramfs_path),
            init_script_path,
            cmd: clone_strings(&a.cmd),
            workdir: a.workdir.clone(),
            envs: clone_strings(&a.envs),
        }
    }
}

/// A hypervisor handle that only records whether it was started.
#[derive(Debug)]
pub struct MockVmmManager {
    pub socket_path: String,
    pub started: bool,
}

impl MockVmmManager {
    pub fn new(socket_path: &str) -> (m: Self)
        ensures
            m.socket_path@ == socket_path@,
            !m.started,
    {
        Self { socket_path: to_owned_string(socket_path), started: false }
    }

    pub fn mark_started(&mut self)
        ensures
            final(self).started,
            final(self).socket_path == old(self).socket_path,
    {
        self.started = true;
    }
}

/// A boot stage that always succeeds.
pub struct MockBootProvider;

impl MockBootProvider {
    pub fn new() -> (p: Self) {
        Self
    }

    /// A started hypervisor handle on the configuration's socket.
    pub fn start_vm(&self, ch_config: &ChConfig) -> (m: MockVmmManager)
        ensures
            m.socket_path@ == ch_config.socket_path@,
            m.started,
    {
        let mut vmm = MockVmmManager::new(ch_config.socket_path.as_str());
        vmm.mark_started();
        vmm
    }
}

impl Default for MockBootProvider {
    fn default() -> (p: Self) {
        Self::new()
    }
}

} // verus!
