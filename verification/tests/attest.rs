use vyomad::api::attest::{attest_vm_reply, tpm2_pcrread_args, AttestOutcome};
use vyomad::vm_service::policy::{create_test_pcr_values, PcrValues};

#[test]
fn pcrread_reads_the_standard_pcrs() {
    let a = tpm2_pcrread_args("/run/vtpm.sock");
    assert_eq!(a, vec!["-T", "socket:path=/run/vtpm.sock", "-g", "sha256", "-o", "0,1,4,5,7,9,10,14"]);
}

#[test]
fn each_failure_has_its_status() {
    assert_eq!(attest_vm_reply("vm1", AttestOutcome::VmMissing).unwrap_err(), (404, "VM vm1 not found".to_string()));
    assert_eq!(
        attest_vm_reply("vm1", AttestOutcome::NoVtpm).unwrap_err(),
        (400, "VM vm1 has no vTPM - measured boot not enabled".to_string())
    );
    assert_eq!(
        attest_vm_reply("vm1", AttestOutcome::ManifestFailed { error: "gone".to_string() }).unwrap_err(),
        (404, "Failed to load manifest: gone".to_string())
    );
    assert_eq!(
        attest_vm_reply("vm1", AttestOutcome::NoPcrPolicy { image_name: "alpine".to_string() }).unwrap_err(),
        (400, "Image alpine has no PCR policy defined".to_string())
    );
    assert_eq!(
        attest_vm_reply("vm1", AttestOutcome::PcrReadFailed { error: "timeout".to_string() }).unwrap_err(),
        (500, "Failed to read PCRs from vTPM: timeout".to_string())
    );
}

#[test]
fn matching_pcrs_verify() {
    let r = attest_vm_reply(
        "vm1",
        AttestOutcome::Measured { expected: create_test_pcr_values(), live: create_test_pcr_values() },
    )
    .unwrap();
    assert_eq!(r.vm_id, "vm1");
    assert!(r.verified);
    assert!(r.error.is_none());
    assert_eq!(r.pcr_results.len(), 8);
    assert!(r.pcr_results.iter().all(|p| p.verified));
}

#[test]
fn a_differing_or_missing_pcr_fails() {
    let mut expected = PcrValues::new();
    expected.insert(0, "aa".to_string());
    expected.insert(7, "bb".to_string());
    let mut live = PcrValues::new();
    live.insert(0, "aa".to_string());
    let r = attest_vm_reply("vm1", AttestOutcome::Measured { expected, live }).unwrap();
    assert!(!r.verified);
    assert_eq!(r.error, Some("PCR mismatch detected".to_string()));
    assert_eq!(r.pcr_results.len(), 2);
    assert!(r.pcr_results[0].verified);
    assert_eq!(r.pcr_results[1].pcr_index, 7);
    assert_eq!(r.pcr_results[1].expected, "bb");
    assert_eq!(r.pcr_results[1].actual, "");
    assert!(!r.pcr_results[1].verified);
}
