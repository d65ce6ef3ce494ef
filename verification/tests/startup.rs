use vyomad::startup::{
    allowed_origins, allows_any_origin, bind_warning, check_dependencies, fallback_socket_path, local_bind, HostFacts,
};

fn all_present() -> HostFacts {
    HostFacts {
        iptables_on_path: true,
        sbin_iptables: false,
        usr_sbin_iptables: false,
        kvm_device: true,
        bundled_hypervisor: true,
        system_hypervisor: false,
    }
}

#[test]
fn dependencies_present() {
    assert_eq!(check_dependencies(all_present()), Ok(()));
    let mut f = all_present();
    f.iptables_on_path = false;
    f.usr_sbin_iptables = true;
    f.bundled_hypervisor = false;
    f.system_hypervisor = true;
    assert_eq!(check_dependencies(f), Ok(()));
}

#[test]
fn dependencies_missing_are_listed_in_order() {
    let f = HostFacts {
        iptables_on_path: false,
        sbin_iptables: false,
        usr_sbin_iptables: false,
        kvm_device: false,
        bundled_hypervisor: false,
        system_hypervisor: false,
    };
    assert_eq!(
        check_dependencies(f),
        Err("iptables (required for NAT networking)\n  - /dev/kvm (KVM kernel module required for virtualization)\n  - cloud-hypervisor (not found in data_dir/bin or /usr/bin)".to_string())
    );
    let mut g = all_present();
    g.kvm_device = false;
    assert_eq!(
        check_dependencies(g),
        Err("/dev/kvm (KVM kernel module required for virtualization)".to_string())
    );
}

#[test]
fn cors_origins() {
    assert_eq!(
        allowed_origins("127.0.0.1", 3000, None),
        vec![
            "http://127.0.0.1:3000".to_string(),
            "http://localhost:3000".to_string(),
            "http://127.0.0.1:3000".to_string()
        ]
    );
    assert_eq!(allowed_origins("0.0.0.0", 0, None), vec!["http://0.0.0.0:0".to_string()]);
    let o = allowed_origins("127.0.0.1", 0, Some(" https://a.example , ,https://b.example,"));
    assert_eq!(
        o,
        vec!["http://127.0.0.1:0".to_string(), "https://a.example".to_string(), "https://b.example".to_string()]
    );
    assert!(!allows_any_origin(&o));
    assert!(allows_any_origin(&allowed_origins("127.0.0.1", 0, Some("*"))));
}

#[test]
fn only_local_addresses_bind_without_warning() {
    assert!(local_bind("127.0.0.1"));
    assert!(local_bind("::1"));
    assert!(local_bind("localhost"));
    assert!(!local_bind("0.0.0.0"));
    assert_eq!(bind_warning("127.0.0.1", 8080, false), None);
    assert_eq!(
        bind_warning("0.0.0.0", 8080, false),
        Some("HTTP server bound on non-localhost address 0.0.0.0:8080 WITHOUT authentication! Use --api-token for security".to_string())
    );
    assert_eq!(
        bind_warning("10.0.0.5", 9000, true),
        Some("HTTP server bound on non-localhost address 10.0.0.5:9000 with authentication enabled".to_string())
    );
}

#[test]
fn the_socket_falls_back_to_the_runtime_dir() {
    assert_eq!(fallback_socket_path(Some("/run/user/1000"), "/tmp"), "/run/user/1000/vyoma.sock");
    assert_eq!(fallback_socket_path(None, "/tmp"), "/tmp/vyoma.sock");
}
