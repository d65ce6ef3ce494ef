use vyomad::chaos::{check_dangling_resources, leftover_names, loop_device_of, HostScan, NameRule};

fn v(items: &[&str]) -> Vec<String> {
    items.iter().map(|s| s.to_string()).collect()
}

#[test]
fn a_clean_host_has_no_leftovers() {
    let scan = HostScan {
        interfaces: v(&["lo", "eth0", "docker0"]),
        mapper_devices: v(&["control"]),
        namespaces: v(&[]),
        loop_lines: v(&["/dev/loop0: []: (/var/lib/snapd/snaps/core.snap)"]),
        cpu_cgroups: v(&["system.slice"]),
        memory_cgroups: v(&[]),
        devices_cgroups: v(&[]),
        pids_cgroups: v(&["user.slice"]),
    };
    assert!(check_dangling_resources(&scan).is_empty());
}

#[test]
fn leftovers_are_reported_by_kind() {
    let scan = HostScan {
        interfaces: v(&["lo", "tap12345678", "vyoma0", "eth0"]),
        mapper_devices: v(&["vyoma-abc", "control", "ign-vm-1"]),
        namespaces: v(&["vm-abc"]),
        loop_lines: v(&["  /dev/loop3: []: (/home/u/.vyoma/vms/x/diff.cow)  "]),
        cpu_cgroups: v(&["vm-abc", "avm-x"]),
        memory_cgroups: v(&["vyoma-x"]),
        devices_cgroups: v(&[]),
        pids_cgroups: v(&["vm-"]),
    };
    assert_eq!(
        check_dangling_resources(&scan),
        v(&[
            "TAP interface: tap12345678",
            "TAP interface: vyoma0",
            "DM device: vyoma-abc",
            "DM device: ign-vm-1",
            "Network namespace: vm-abc",
            "Loop device: /dev/loop3: []: (/home/u/.vyoma/vms/x/diff.cow)",
            "Cgroup (cpu) : vm-abc",
            "Cgroup (memory) : vyoma-x",
            "Cgroup (pids) : vm-",
        ])
    );
}

#[test]
fn cleanups_pick_the_same_names() {
    assert_eq!(leftover_names(&v(&["tap1", "eth0", "myvyoma"]), NameRule::Interface), v(&["tap1", "myvyoma"]));
    assert_eq!(leftover_names(&v(&["vm-1", "xvm-2", "vyoma-3"]), NameRule::Cgroup), v(&["vm-1", "vyoma-3"]));
    assert_eq!(leftover_names(&v(&["xvm-2", "vyomax"]), NameRule::VmNamed), v(&["xvm-2"]));
}

#[test]
fn loop_devices_from_losetup_lines() {
    assert_eq!(loop_device_of(" /dev/loop7 : []: (/x/vm-1)"), Some("/dev/loop7".to_string()));
    assert_eq!(loop_device_of("/dev/loop2"), Some("/dev/loop2".to_string()));
    assert_eq!(loop_device_of("   : nothing"), None);
    assert_eq!(loop_device_of(""), None);
}
