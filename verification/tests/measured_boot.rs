use vyomad::state::VmStatus;
use vyomad::vm_service::policy::{
    attestation_config_from, attestation_finish, attestation_start, attestation_verdict, build_pcr_results,
    create_test_pcr_values, pcr_idx_to_usize, pcr_list_string, tpm2_quote_args, tpm_quote_pcrs, AttestationResult,
    manifest_error, manifest_plan, AttestationRun, AttestationStart, ManifestPlan, ManifestStep, MeasuredBootConfig,
    PcrValues,
};
use vyomad::vm_service::policy::{accept_unsigned_manifest, attest_error, expected_pcrs, AttestStep};

const STANDARD_PCRS: &[u32] = &[0, 1, 4, 5, 7, 9, 10, 14];

#[test]
fn test_pcr_policy_contains_all_standard_indices() {
    let pcrs = create_test_pcr_values();

    for pcr_index in STANDARD_PCRS {
        assert!(pcrs.contains_key(*pcr_index), "PCR {} should be present in policy", pcr_index);
    }

    assert_eq!(pcrs.len(), STANDARD_PCRS.len());
}

#[test]
fn test_pcr_value_hex_format() {
    let pcrs = create_test_pcr_values();

    for (index, hash) in pcrs.entries() {
        assert_eq!(hash.len(), 40, "PCR {} should be 40 hex chars (SHA-1)", index);
        assert!(hash.chars().all(|c| c.is_ascii_hexdigit()), "PCR {} should contain only hex characters", index);
    }
}

#[test]
fn test_pcr_policy_keys_match_expected() {
    let pcrs = create_test_pcr_values();

    assert_eq!(pcrs.len(), 8, "Should have 8 PCRs");
    assert!(pcrs.contains_key(0), "Should have PCR 0 (firmware)");
    assert!(pcrs.contains_key(7), "Should have PCR 7 (secure boot state)");
    assert!(pcrs.contains_key(9), "Should have PCR 9 (kernel)");
    assert!(pcrs.contains_key(10), "Should have PCR 10 (initrd)");
    assert!(pcrs.contains_key(14), "Should have PCR 14 (rootfs)");
}

#[test]
fn test_measured_boot_info_pcr_policy_storage() {
    let pcrs = create_test_pcr_values();
    assert_eq!(pcrs.len(), 8);
    assert_eq!(pcrs.get(9), Some(&"9999999999999999999999999999999999999999".to_string()));
}

#[test]
fn pcr_table_insert_replaces_in_place() {
    let mut t = PcrValues::new();
    t.insert(3, "a".to_string());
    t.insert(1, "b".to_string());
    t.insert(3, "c".to_string());
    assert_eq!(t.len(), 2);
    assert_eq!(t.get(3), Some(&"c".to_string()));
    assert_eq!(t.entries()[0], (3, "c".to_string()));
    assert_eq!(t.get(2), None);
}

#[test]
fn test_pcr_quote_pcr_list_format() {
    let pcr_list = pcr_list_string(&tpm_quote_pcrs());
    assert_eq!(pcr_list, "0,1,4,5,7,9,10,14");
}

#[test]
fn tpm2_quote_command_line() {
    let args = tpm2_quote_args("vm1", "/run/tpm.sock");
    let expected: Vec<String> = [
        "-T", "socket:path=/run/tpm.sock", "-c", "/etc/tpm2/tpm2-quote.ak", "-g", "sha256", "-p",
        "0,1,4,5,7,9,10,14", "-o", "/tmp/vm1_quote.bin", "-s", "/tmp/vm1_sig.bin", "-m", "/tmp/vm1_msg.bin", "-f",
        "sha256",
    ]
    .iter()
    .map(|s| s.to_string())
    .collect();
    assert_eq!(args, expected);
}

#[test]
fn test_measured_boot_config_default() {
    let config = MeasuredBootConfig::default();
    assert_eq!(config.pcr_selection, vec![0, 1, 4, 5, 7, 9, 10, 14]);
    assert_eq!(config.verification_timeout_secs, 30);
    assert!(config.block_on_failure);
    assert!(config.require_signed_manifest);
}

#[test]
fn test_build_attestation_config() {
    let config = attestation_config_from(vec![0, 1, 4, 5, 7, 9, 10, 14], 30, true, None, None, Some("/home/u".to_string()));
    assert_eq!(config.verification_timeout_secs, 30);
    assert!(config.block_on_failure);
    assert!(config.require_signed_manifest);
    assert_eq!(config.trusted_keys_dir, Some("/home/u/.vyoma/keys/trusted".to_string()));
}

#[test]
fn attestation_config_key_directory_precedence() {
    let c = attestation_config_from(vec![], 5, false, Some("/a".to_string()), Some("/b".to_string()), Some("/h".to_string()));
    assert_eq!(c.trusted_keys_dir, Some("/a".to_string()));
    let c = attestation_config_from(vec![], 5, false, None, Some("/b".to_string()), Some("/h".to_string()));
    assert_eq!(c.trusted_keys_dir, Some("/b".to_string()));
    let c = attestation_config_from(vec![], 5, false, None, None, None);
    assert_eq!(c.trusted_keys_dir, None);
}

#[test]
fn test_pcr_idx_conversion() {
    assert_eq!(pcr_idx_to_usize(&0), 0);
    assert_eq!(pcr_idx_to_usize(&14), 14);
    assert_eq!(pcr_idx_to_usize(&9), 9);
}

#[test]
fn test_measured_boot_config_custom_timeout() {
    let config = MeasuredBootConfig { verification_timeout_secs: 60, ..Default::default() };
    assert_eq!(config.verification_timeout_secs, 60);
}

fn live_with(changes: &[(u32, Option<&str>)]) -> PcrValues {
    let base = create_test_pcr_values();
    let mut live = PcrValues::new();
    for (k, v) in base.entries() {
        match changes.iter().find(|(c, _)| c == k) {
            Some((_, Some(new))) => live.insert(*k, new.to_string()),
            Some((_, None)) => {}
            None => live.insert(*k, v.clone()),
        }
    }
    live
}

#[test]
fn matching_quote_is_verified() {
    let expected = create_test_pcr_values();
    let live = live_with(&[]);
    let r = attestation_verdict(true, None, &expected, &live);
    assert!(r.verified);
    assert!(r.error.is_none());
    assert!(r.signed_manifest_verified);
    assert_eq!(r.pcr_results.len(), 8);
    assert!(r.pcr_results.iter().all(|p| p.verified));
}

#[test]
fn mismatch_names_the_first_failing_pcr() {
    let expected = create_test_pcr_values();
    let live = live_with(&[(9, Some("deadbeef")), (14, None)]);
    let r = attestation_verdict(true, None, &expected, &live);
    assert!(!r.verified);
    assert_eq!(
        r.error,
        Some("PCR 9 mismatch after unified verification: expected 9999999999999999999999999999999999999999, got deadbeef".to_string())
    );
    let rows = build_pcr_results(&expected, &live);
    assert_eq!(rows[5].pcr_index, 9);
    assert_eq!(rows[5].actual, "deadbeef");
    assert!(!rows[5].verified);
    assert_eq!(rows[7].actual, "");
    assert!(!rows[7].verified);
}

#[test]
fn missing_pcr_is_reported() {
    let expected = create_test_pcr_values();
    let live = live_with(&[(14, None)]);
    let r = attestation_verdict(true, None, &expected, &live);
    assert_eq!(r.error, Some("PCR 14 not found in live quote but expected in manifest".to_string()));
}

#[test]
fn unified_refusal_stands() {
    let expected = create_test_pcr_values();
    let live = live_with(&[]);
    let r = attestation_verdict(false, None, &expected, &live);
    assert!(!r.verified);
    assert!(!r.signed_manifest_verified);
    assert_eq!(r.error, Some("PCR verification failed".to_string()));
    let r = attestation_verdict(false, Some("bad quote".to_string()), &expected, &live);
    assert_eq!(r.error, Some("bad quote".to_string()));
}

#[test]
fn boot_time_attestation_decisions() {
    match attestation_start(false, "vm1", None, true) {
        AttestationStart::Decided(d) => {
            assert_eq!(d.new_status, VmStatus::Running);
            assert!(!d.kill_vm);
            assert_eq!(d.result, Ok(()));
        }
        other => panic!("unexpected {:?}", other),
    }
    match attestation_start(true, "vm1", None, true) {
        AttestationStart::Decided(d) => {
            let msg = "vTPM socket not available for VM vm1 - cannot perform attestation".to_string();
            assert_eq!(d.new_status, VmStatus::Error { reason: msg.clone() });
            assert!(d.kill_vm);
            assert_eq!(d.result, Err(msg));
        }
        other => panic!("unexpected {:?}", other),
    }
    match attestation_start(true, "vm1", Some("/tpm".to_string()), false) {
        AttestationStart::Check { tpm_socket } => assert_eq!(tpm_socket, "/tpm"),
        other => panic!("unexpected {:?}", other),
    }
    let failed = AttestationResult {
        verified: false,
        pcr_results: vec![],
        signed_manifest_verified: false,
        error: Some("PCR 9 mismatch".to_string()),
    };
    let d = attestation_finish(AttestationRun::Finished(Ok(failed)), false);
    assert_eq!(d.new_status, VmStatus::Error { reason: "Attestation failed: PCR 9 mismatch".to_string() });
    assert!(!d.kill_vm);
    assert_eq!(d.result, Err("PCR 9 mismatch".to_string()));
    let d = attestation_finish(AttestationRun::Finished(Err("no manifest".to_string())), true);
    assert_eq!(d.new_status, VmStatus::Error { reason: "Attestation failed: no manifest".to_string() });
    assert!(d.kill_vm);
    let d = attestation_finish(AttestationRun::TimedOut("Attestation timed out".to_string()), true);
    assert_eq!(d.result, Err("Attestation timed out".to_string()));
    let ok = AttestationResult { verified: true, pcr_results: vec![], signed_manifest_verified: true, error: None };
    let d = attestation_finish(AttestationRun::Finished(Ok(ok)), true);
    assert_eq!(d.new_status, VmStatus::Running);
    assert_eq!(d.result, Ok(()));
}

fn boot_config(require_signed: bool, keys: Option<&str>) -> MeasuredBootConfig {
    let mut c = MeasuredBootConfig::default();
    c.require_signed_manifest = require_signed;
    c.trusted_keys_dir = keys.map(|k| k.to_string());
    c
}

#[test]
fn a_signed_manifest_is_preferred() {
    let c = boot_config(true, None);
    match manifest_plan("/img/alpine", "\"/img/alpine\"", "alpine", true, true, &c, "/home/u").unwrap() {
        ManifestPlan::Signed { path, strict, trusted_keys_dir } => {
            assert_eq!(path, "/img/alpine/vyoma.toml.sig");
            assert!(strict);
            assert_eq!(trusted_keys_dir, "/home/u/.vyoma/keys/trusted");
        },
        _ => panic!("expected the signed manifest"),
    }
    let c = boot_config(false, Some("/etc/keys"));
    match manifest_plan("/img/alpine", "\"/img/alpine\"", "alpine", true, false, &c, "/home/u").unwrap() {
        ManifestPlan::Signed { strict, trusted_keys_dir, .. } => {
            assert!(!strict);
            assert_eq!(trusted_keys_dir, "/etc/keys");
        },
        _ => panic!("expected the signed manifest"),
    }
}

#[test]
fn an_unsigned_manifest_only_when_allowed() {
    let c = boot_config(false, None);
    match manifest_plan("/img/a", "\"/img/a\"", "a", false, true, &c, "/h").unwrap() {
        ManifestPlan::Unsigned { path } => assert_eq!(path, "/img/a/vyoma.toml"),
        _ => panic!("expected the unsigned manifest"),
    }
    let c = boot_config(true, None);
    assert_eq!(
        manifest_plan("/img/a", "\"/img/a\"", "a", false, true, &c, "/h").unwrap_err(),
        "Image a has no signed manifest (vyoma.toml.sig) - signed manifest required by policy. Build the image with --measured flag to generate a signed manifest."
    );
    assert_eq!(
        manifest_plan("/img/a", "\"/img/a\"", "a", false, false, &c, "/h").unwrap_err(),
        "Neither signed manifest (vyoma.toml.sig) nor unsigned manifest (vyoma.toml) found in \"/img/a\""
    );
    assert_eq!(manifest_error(ManifestStep::VerifySignature, "bad sig"), "Manifest signature verification failed: bad sig");
    assert_eq!(manifest_error(ManifestStep::LoadUnsigned, "eof"), "Failed to load unsigned manifest: eof");
}

#[test]
fn attestation_step_errors_carry_their_step() {
    assert_eq!(attest_error(AttestStep::Quote, "no socket"), "Failed to get PCR quote: no socket");
    assert_eq!(attest_error(AttestStep::ParseQuote, "short"), "Failed to parse PCR values from quote: short");
    assert_eq!(attest_error(AttestStep::Verify, "bad"), "Attestation verification error: bad");
}

#[test]
fn a_manifest_without_pcr_policy_cannot_be_attested() {
    let err = expected_pcrs("alpine:latest", None).unwrap_err();
    assert_eq!(err, "No PCR policy found in manifest for image alpine:latest");
    let p = create_test_pcr_values();
    let got = expected_pcrs("alpine:latest", Some(p.clone())).unwrap();
    assert_eq!(got.len(), p.len());
}

#[test]
fn an_unsigned_manifest_is_accepted_without_pcr_policy() {
    let m = accept_unsigned_manifest();
    assert!(m.pcr_policy.is_none());
    assert!(m.signature.is_empty());
    assert!(m.public_key.is_empty());
}
