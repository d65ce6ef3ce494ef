use vyomad::vm_service::failing::{
    MockFailingBootManager, MockFailingNetworkManager, MockFailingOciManager, MockFailingStorageManager,
    MockStorageWithCleanupTracking,
};
use vyomad::vm_service::mocks::{
    MockAgentProvider, MockBootProvider, MockNetworkConfig, MockNetworkInfo, MockNetworkProvider,
    MockPreparedStorage, MockStorageProvider, MockVmmManager,
};
use vyomad::vm_service::types::{AgentConfig, ChConfig, PreparedStorage};

#[test]
fn test_mock_storage_provider() {
    let storage = MockPreparedStorage {
        dm_device_path: "/dev/mapper/test".to_string(),
        loop_devices: vec!["/dev/loop0".to_string()],
        cow_file_path: "/tmp/test.cow".to_string(),
        dm_name: "test".to_string(),
    };
    let provider = MockStorageProvider::new(storage);
    assert!(!provider.storage.dm_name.is_empty());
}

#[test]
fn mock_storage_hands_out_its_storage() {
    let storage = MockPreparedStorage {
        dm_device_path: "/dev/mapper/test".to_string(),
        loop_devices: vec!["/dev/loop0".to_string()],
        cow_file_path: "/tmp/test.cow".to_string(),
        dm_name: "test".to_string(),
    };
    let converted: PreparedStorage = storage.clone().into();
    assert_eq!(converted.dm_name, "test");
    let provider = MockStorageProvider::new(storage);
    let prepared = provider.prepare_storage();
    assert_eq!(prepared.dm_device_path, "/dev/mapper/test");
    assert_eq!(prepared.loop_devices, vec!["/dev/loop0".to_string()]);
}

fn mock_network() -> MockNetworkConfig {
    MockNetworkConfig {
        ip_address: "192.168.1.100".to_string(),
        primary_tap: "tap0".to_string(),
        gateway: "192.168.1.1".to_string(),
        network_infos: vec![MockNetworkInfo {
            ip: "192.168.1.100".to_string(),
            tap_name: "tap0".to_string(),
            gateway: Some("192.168.1.1".to_string()),
            interface_name: "eth0".to_string(),
            network_name: "default".to_string(),
        }],
        netns_path: Some("/var/run/netns/test".to_string()),
    }
}

#[test]
fn test_mock_network_provider() {
    let provider = MockNetworkProvider::new(mock_network());
    assert_eq!(provider.config.ip_address, "192.168.1.100");
}

#[test]
fn mock_network_converts_every_interface() {
    let provider = MockNetworkProvider::new(mock_network());
    let c = provider.setup_network();
    assert_eq!(c.ip_address, "192.168.1.100");
    assert_eq!(c.network_infos.len(), 1);
    assert_eq!(c.network_infos[0].network_name, "default");
    assert_eq!(c.netns_path, Some("/var/run/netns/test".to_string()));
}

#[test]
fn test_mock_boot_provider_default() {
    let provider = MockBootProvider::new();
    let provider2 = MockBootProvider::default();
    assert!(std::mem::size_of_val(&provider) >= 0);
    assert!(std::mem::size_of_val(&provider2) >= 0);
}

#[test]
fn mock_boot_starts_on_the_configured_socket() {
    let config = ChConfig {
        kernel_path: "/k".to_string(),
        ch_path: "/ch".to_string(),
        socket_path: "/tmp/ch.sock".to_string(),
        boot_args: String::new(),
        rootfs_path: "/r".to_string(),
        vsock_cid: 3,
        vsock_path: "/v".to_string(),
        initramfs_path: None,
    };
    let vmm = MockBootProvider::new().start_vm(&config);
    assert!(vmm.started);
    assert_eq!(vmm.socket_path, "/tmp/ch.sock");
    let mut m = MockVmmManager::new("/s");
    assert!(!m.started);
    m.mark_started();
    assert!(m.started);
}

#[test]
fn test_agent_config_from_mock() {
    let agent = AgentConfig {
        initramfs_path: Some("/tmp/initramfs".to_string()),
        init_script_path: "/tmp/init.sh".to_string(),
        cmd: vec!["/sbin/init".to_string()],
        workdir: "/".to_string(),
        envs: vec![],
    };
    let provider = MockAgentProvider::new(agent);
    assert!(provider.agent_config.initramfs_path.is_some());
}

#[test]
fn mock_agent_fills_in_the_init_script() {
    let agent = AgentConfig {
        initramfs_path: None,
        init_script_path: String::new(),
        cmd: vec![],
        workdir: "/".to_string(),
        envs: vec![],
    };
    let c = MockAgentProvider::new(agent).prepare_agent("/vms/x");
    assert_eq!(c.init_script_path, "/vms/x/mock-init.sh");
}

#[test]
fn test_image_failure_no_vm_created() {
    let mock_oci = MockFailingOciManager::new("OCI pull failed".to_string());
    let result = mock_oci.pull_image("alpine:latest");
    assert!(result.is_err());
}

#[test]
fn test_storage_failure_loop_device_detached() {
    let mut mock_storage = MockFailingStorageManager::new();
    mock_storage.fail_after_loop_creation = true;

    let result = mock_storage.prepare_storage();

    assert!(result.is_err(), "Storage preparation should fail");
    let cleaned_loop_devices = mock_storage.get_cleaned_devices();
    assert!(!cleaned_loop_devices.is_empty(), "Loop devices should be cleaned up on failure");
    assert_eq!(cleaned_loop_devices, vec!["/dev/loop0".to_string()]);
    assert!(mock_storage.created_loop_devices.is_empty());
}

#[test]
fn test_network_partial_failure_first_network_cleaned() {
    let mut mock_network = MockFailingNetworkManager::new();
    mock_network.fail_on_second_network = true;

    let networks = vec!["bridge0".to_string(), "bridge1".to_string()];
    let result = mock_network.setup_network(&networks);

    assert!(result.is_err(), "Network setup should fail when second network fails");
    assert_eq!(result.unwrap_err(), "Failed to create network bridge1");
    let cleaned_networks = mock_network.get_cleaned_networks();
    assert!(cleaned_networks.contains(&"bridge0".to_string()));
}

#[test]
fn failing_network_succeeds_when_not_told_to_fail() {
    let mut m = MockFailingNetworkManager::new();
    let c = m.setup_network(&vec!["a".to_string(), "b".to_string()]).unwrap();
    assert_eq!(c.network_infos.len(), 2);
    assert_eq!(c.network_infos[1].ip, "172.16.0.3");
    assert_eq!(c.network_infos[1].tap_name, "tap1");
    assert_eq!(c.network_infos[1].interface_name, "eth1");
    assert_eq!(c.network_infos[1].network_name, "b");
    assert!(m.get_cleaned_networks().is_empty());
}

#[test]
fn test_boot_failure_vm_not_left_running() {
    let mut mock_boot = MockFailingBootManager::new();
    mock_boot.fail_on_boot = true;
    let result = mock_boot.start_vm();
    assert_eq!(result, Err("Cloud Hypervisor boot failed".to_string()));
    assert_eq!(MockFailingBootManager::new().start_vm(), Ok(()));
}

#[test]
fn test_vm_creation_context_cleanup_on_image_failure() {
    let mock_oci = MockFailingOciManager::new("Manifest parsing failed".to_string());
    let image_result = mock_oci.prepare_image("invalid-image:latest");
    assert!(image_result.is_err(), "Image preparation should fail");
}

#[test]
fn test_error_propagation_through_stages() {
    let mock_oci = MockFailingOciManager::new("Network error".to_string());
    let result = mock_oci.prepare_image("registry.example.com/image:latest");
    assert!(result.is_err());
    let error_msg = result.unwrap_err();
    assert!(error_msg.contains("Network error"));
}

#[test]
fn test_storage_cleanup_called_on_any_failure() {
    let mut mock_storage = MockStorageWithCleanupTracking::new();
    mock_storage.should_fail = true;
    let result = mock_storage.prepare_storage();
    assert!(result.is_err());
    assert!(mock_storage.cleanup_called, "Storage cleanup should be called even on failure");
}
