//! `POST /vms/<id>/attest`: the on-demand attestation of a running VM. The
//! caller finds the VM, loads its image's manifest and reads the PCRs of its
//! vTPM, stopping at the first step that fails; the answer for each outcome
//! is decided here.
use vstd::prelude::*;

use super::handlers::{AttestResponse, PcrResult};
use crate::text::{push_str, to_owned_string};
use crate::vm_service::policy::{comma_list, live_hash, pcr_list_string, standard_pcrs, tpm_quote_pcrs, PcrValues};

verus! {

/// The command line of `tpm2_pcrread` that reads the standard PCRs from the
/// vTPM listening on `tpm_socket`.
pub fn tpm2_pcrread_args(tpm_socket: &str) -> (a: Vec<String>)
    ensures
        a@.len() == 6,
        a@[0]@ == "-T"@,
        a@[1]@ == "socket:path="@ + tpm_socket@,
        a@[2]@ == "-g"@,
        a@[3]@ == "sha256"@,
        a@[4]@ == "-o"@,
        a@[5]@ == comma_list(standard_pcrs()),
{
    let mut a: Vec<String> = Vec::new();
    a.push(to_owned_string("-T"));
    let mut sock = to_owned_string("socket:path=");
    push_str(&mut sock, tpm_socket);
    a.push(sock);
    a.push(to_owned_string("-g"));
    a.push(to_owned_string("sha256"));
    a.push(to_owned_string("-o"));
    a.push(pcr_list_string(&tpm_quote_pcrs()));
    a
}

/// How far the caller got.
#[derive(Debug)]
pub enum AttestOutcome {
    /// No VM of that id runs here.
    VmMissing,
    /// The VM runs without a vTPM.
    NoVtpm,
    ManifestFailed { error: String },
    /// The image's manifest defines no expected PCRs.
    NoPcrPolicy { image_name: String },
    PcrReadFailed { error: String },
    /// The expected PCRs of the manifest, and the values read.
    Measured { expected: PcrValues, live: PcrValues },
}

/// The comparison rows: one per expected PCR, in order.
pub open spec fn rows_match(rows: Seq<PcrResult>, expected: Seq<(u32, String)>, live: Seq<(u32, String)>) -> bool {
    &&& rows.len() == expected.len()
    &&& forall|i: int|
        0 <= i < rows.len() ==> {
            let row = #[trigger] rows[i];
            &&& row.pcr_index == expected[i].0
            &&& row.expected@ == expected[i].1@
            &&& row.actual@ == live_hash(live, expected[i].0)
            &&& row.verified == (row.actual@ == expected[i].1@)
        }
}

/// The answer to an attestation request of VM `vm_id`.
pub fn attest_vm_reply(vm_id: &str, outcome: AttestOutcome) -> (r: Result<AttestResponse, (u16, String)>)
    ensures
        outcome is VmMissing ==> (r matches Err(e) && e.0 == 404 && e.1@ == "VM "@ + vm_id@ + " not found"@),
        outcome is NoVtpm ==> (r matches Err(e) && e.0 == 400
            && e.1@ == "VM "@ + vm_id@ + " has no vTPM - measured boot not enabled"@),
        outcome matches AttestOutcome::ManifestFailed { error } ==> (r matches Err(e) && e.0 == 404
            && e.1@ == "Failed to load manifest: "@ + error@),
        outcome matches AttestOutcome::NoPcrPolicy { image_name } ==> (r matches Err(e) && e.0 == 400
            && e.1@ == "Image "@ + image_name@ + " has no PCR policy defined"@),
        outcome matches AttestOutcome::PcrReadFailed { error } ==> (r matches Err(e) && e.0 == 500
            && e.1@ == "Failed to read PCRs from vTPM: "@ + error@),
        outcome matches AttestOutcome::Measured { expected, live } ==> (r matches Ok(a) && {
            &&& a.vm_id@ == vm_id@
            &&& rows_match(a.pcr_results@, expected@, live@)
            &&& (a.verified <==> forall|i: int| 0 <= i < a.pcr_results@.len() ==> #[trigger] a.pcr_results@[i].verified)
            &&& (a.verified ==> a.error is None)
            &&& (!a.verified ==> (a.error matches Some(m) && m@ == "PCR mismatch detected"@))
        }),
{
    match outcome {
        AttestOutcome::VmMissing => {
            let mut m = to_owned_string("VM ");
            push_str(&mut m, vm_id);
            push_str(&mut m, " not found");
            Err((404, m))
        },
        AttestOutcome::NoVtpm => {
            let mut m = to_owned_string("VM ");
            push_str(&mut m, vm_id);
            push_str(&mut m, " has no vTPM - measured boot not enabled");
            Err((400, m))
        },
        AttestOutcome::ManifestFailed { error } => {
            let mut m = to_owned_string("Failed to load manifest: ");
            push_str(&mut m, error.as_str());
            Err((404, m))
        },
        AttestOutcome::NoPcrPolicy { image_name } => {
            let mut m = to_owned_string("Image ");
            push_str(&mut m, image_name.as_str());
            push_str(&mut m, " has no PCR policy defined");
            Err((400, m))
        },
        AttestOutcome::PcrReadFailed { error } => {
            let mut m = to_owned_string("Failed to read PCRs from vTPM: ");
            push_str(&mut m, error.as_str());
            Err((500, m))
        },
        AttestOutcome::Measured { expected, live } => {
            let es = expected.entries();
            let mut rows: Vec<PcrResult> = Vec::new();
            let mut all_verified = true;
            let mut i: usize = 0;
            while i < es.len()
                invariant
                    es@ == expected@,
                    i <= es@.len(),
                    rows_match(rows@, expected@.take(i as int), live@),
                    all_verified <==> forall|k: int| 0 <= k < i ==> #[trigger] rows@[k].verified,
                decreases es.len() - i,
            {
                let idx = es[i].0;
                let actual = match live.get(idx) {
                    Some(h) => h.clone(),
                    None => String::new(),
                };
                let verified = crate::text::str_eq(actual.as_str(), es[i].1.as_str());
                if !verified {
                    all_verified = false;
                }
                let ghost r0 = rows@;
                rows.push(PcrResult { pcr_index: idx, expected: es[i].1.clone(), actual, verified });
                proof {
                    assert(rows@[i as int].verified == verified);
                    assert forall|k: int| 0 <= k < i implies #[trigger] rows@[k] == r0[k] by {}
                    if all_verified {
                        assert forall|k: int| 0 <= k < i + 1 implies #[trigger] rows@[k].verified by {
                            if k < i {
                                assert(r0[k].verified);
                            }
                        }
                    } else if verified {
                        let w = choose|k: int| 0 <= k < i && !#[trigger] r0[k].verified;
                        assert(!rows@[w].verified);
                    }
                    assert(expected@.take(i + 1).drop_last() =~= expected@.take(i as int));
                }
                i = i + 1;
            }
            assert(expected@.take(es@.len() as int) =~= expected@);
            let error = if all_verified {
                None
            } else {
                Some(to_owned_string("PCR mismatch detected"))
            };
            Ok(AttestResponse { vm_id: to_owned_string(vm_id), verified: all_verified, pcr_results: rows, error })
        },
    }
}

} // verus!
