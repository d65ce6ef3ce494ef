use vyomad::api::grpc::{
    not_implemented, operation_failed, proto_vm_info, start_vm_reply, stop_vm_reply, vm_run_request_from_create,
    CreateVmParams, GrpcCode, ProtoPort, ProtoVolume,
};

fn params(name: &str) -> CreateVmParams {
    CreateVmParams {
        name: name.to_string(),
        image: "nginx:latest".to_string(),
        vcpus: 2,
        memory_mb: 1024,
        ports: vec![ProtoPort { host: 8080, vm: 80 }, ProtoPort { host: 65536 + 22, vm: 22 }],
        volumes: vec![ProtoVolume { host_path: "/srv".to_string(), vm_path: "/data".to_string() }],
        networks: vec!["backend".to_string()],
    }
}

#[test]
fn a_named_create_request() {
    let r = vm_run_request_from_create(params("web"));
    assert_eq!(r.image, "nginx:latest");
    assert_eq!((r.vcpu, r.mem_size_mib), (2, 1024));
    assert_eq!((r.ports[0].host_port, r.ports[0].vm_port), (8080, 80));
    assert_eq!(r.ports[1].host_port, 22);
    assert_eq!(r.volumes[0].host_path, "/srv");
    assert_eq!(r.volumes[0].vm_path, "/data");
    assert!(!r.volumes[0].read_only);
    assert_eq!(r.hostname, Some("web".to_string()));
    assert_eq!(
        r.labels,
        vec![("name".to_string(), "web".to_string()), ("vyoma.service".to_string(), "web".to_string())]
    );
    assert_eq!(r.networks, vec!["backend".to_string()]);
    assert!(r.base_image_path.is_empty());
}

#[test]
fn an_unnamed_create_request() {
    let mut p = params("");
    p.memory_mb = (1u64 << 32) + 512;
    let r = vm_run_request_from_create(p);
    assert!(r.hostname.is_none());
    assert!(r.labels.is_empty());
    assert_eq!(r.mem_size_mib, 512);
}

#[test]
fn answers_of_the_service() {
    let i = proto_vm_info(&"vm1".to_string(), &"/img/base".to_string(), &"10.0.0.2".to_string(), 2, 2048);
    assert_eq!(i.status, "running");
    assert_eq!(i.memory_mb, 2048);
    assert_eq!(i.image, "/img/base");
    assert!(i.ports.is_empty());
    assert_eq!(i.created_at, 0);
    assert_eq!(start_vm_reply("vm1".to_string(), true).unwrap(), ("vm1".to_string(), "Running".to_string()));
    assert_eq!(start_vm_reply("vm1".to_string(), false).unwrap_err(), (GrpcCode::NotFound, "VM not found".to_string()));
    assert_eq!(stop_vm_reply("vm1".to_string(), true).unwrap().1, "stopped");
    assert_eq!(operation_failed("create", "boom"), (GrpcCode::Internal, "Failed to create VM: boom".to_string()));
    assert_eq!(not_implemented(), (GrpcCode::Unimplemented, "Not implemented".to_string()));
}
