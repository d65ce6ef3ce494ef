//! Measured-boot attestation: PCR tables, the comparison of expected against
//! live PCR values, and what the daemon does with the outcome.
use vstd::prelude::*;

use crate::state::VmStatus;
use crate::text::{dec, join_path, path_join, push_char, push_str, push_u64, str_eq, to_owned_string};

verus! {

// ---------------------------------------------------------------- PCR tables

/// The value bound to `k` in a PCR table: the first entry with that index.
pub open spec fn pcr_lookup(s: Seq<(u32, String)>, k: u32) -> Option<String>
    decreases s.len(),
{
    if s.len() == 0 {
        None
    } else if s[0].0 == k {
        Some(s[0].1)
    } else {
        pcr_lookup(s.drop_first(), k)
    }
}

/// A table after binding `k` to `v`: an existing binding is replaced in
/// place, a new one goes at the end.
pub open spec fn pcr_insert(s: Seq<(u32, String)>, k: u32, v: String) -> Seq<(u32, String)>
    decreases s.len(),
{
    if s.len() == 0 {
        seq![(k, v)]
    } else if s[0].0 == k {
        s.update(0, (k, v))
    } else {
        seq![s[0]] + pcr_insert(s.drop_first(), k, v)
    }
}

pub open spec fn keys_distinct(s: Seq<(u32, String)>) -> bool {
    forall|i: int, j: int| 0 <= i < j < s.len() ==> #[trigger] s[i].0 != #[trigger] s[j].0
}

proof fn lemma_lookup_first(s: Seq<(u32, String)>, k: u32, i: int)
    requires
        0 <= i < s.len(),
        s[i].0 == k,
        forall|j: int| 0 <= j < i ==> #[trigger] s[j].0 != k,
    ensures
        pcr_lookup(s, k) == Some(s[i].1),
    decreases i,
{
    if i > 0 {
        let t = s.drop_first();
        assert forall|j: int| 0 <= j < i - 1 implies #[trigger] t[j].0 != k by {
            assert(t[j] == s[j + 1]);
        }
        lemma_lookup_first(t, k, i - 1);
    }
}

proof fn lemma_lookup_absent(s: Seq<(u32, String)>, k: u32)
    requires
        forall|j: int| 0 <= j < s.len() ==> #[trigger] s[j].0 != k,
    ensures
        pcr_lookup(s, k) is None,
    decreases s.len(),
{
    if s.len() > 0 {
        let t = s.drop_first();
        assert forall|j: int| 0 <= j < t.len() implies #[trigger] t[j].0 != k by {
            assert(t[j] == s[j + 1]);
        }
        lemma_lookup_absent(t, k);
    }
}

proof fn lemma_insert_at(s: Seq<(u32, String)>, k: u32, v: String, i: int)
    requires
        0 <= i < s.len(),
        s[i].0 == k,
        forall|j: int| 0 <= j < i ==> #[trigger] s[j].0 != k,
    ensures
        pcr_insert(s, k, v) == s.update(i, (k, v)),
    decreases i,
{
    if i > 0 {
        let t = s.drop_first();
        assert forall|j: int| 0 <= j < i - 1 implies #[trigger] t[j].0 != k by {
            assert(t[j] == s[j + 1]);
        }
        lemma_insert_at(t, k, v, i - 1);
        assert(seq![s[0]] + t.update(i - 1, (k, v)) =~= s.update(i, (k, v)));
    }
}

proof fn lemma_insert_new(s: Seq<(u32, String)>, k: u32, v: String)
    requires
        forall|j: int| 0 <= j < s.len() ==> #[trigger] s[j].0 != k,
    ensures
        pcr_insert(s, k, v) == s.push((k, v)),
    decreases s.len(),
{
    if s.len() > 0 {
        let t = s.drop_first();
        assert forall|j: int| 0 <= j < t.len() implies #[trigger] t[j].0 != k by {
            assert(t[j] == s[j + 1]);
        }
        lemma_insert_new(t, k, v);
        assert(seq![s[0]] + t.push((k, v)) =~= s.push((k, v)));
    } else {
        assert(seq![(k, v)] =~= s.push((k, v)));
    }
}

/// After binding `k` to `v`, looking `k` up gives `v` and every other index
/// reads as before.
pub proof fn law_pcr_insert_lookup(s: Seq<(u32, String)>, k: u32, v: String, q: u32)
    ensures
        q == k ==> pcr_lookup(pcr_insert(s, k, v), q) == Some(v),
        q != k ==> pcr_lookup(pcr_insert(s, k, v), q) == pcr_lookup(s, q),
    decreases s.len(),
{
    let r = pcr_insert(s, k, v);
    if s.len() == 0 {
        assert(r.drop_first() =~= Seq::<(u32, String)>::empty());
        assert(r[0] == (k, v));
        if q != k {
            assert(pcr_lookup(r, q) == pcr_lookup(r.drop_first(), q));
            assert(pcr_lookup(r.drop_first(), q) is None);
        }
    } else if s[0].0 != k {
        law_pcr_insert_lookup(s.drop_first(), k, v, q);
        assert(r =~= seq![s[0]] + pcr_insert(s.drop_first(), k, v));
        assert(r[0] == s[0]);
        assert(r.drop_first() =~= pcr_insert(s.drop_first(), k, v));
        if q != k && s[0].0 != q {
            assert(pcr_lookup(r, q) == pcr_lookup(r.drop_first(), q));
            assert(pcr_lookup(s, q) == pcr_lookup(s.drop_first(), q));
        }
    } else {
        assert(r == s.update(0, (k, v)));
        assert(r[0] == (k, v));
        assert(r.drop_first() =~= s.drop_first());
        if q != k {
            assert(pcr_lookup(r, q) == pcr_lookup(r.drop_first(), q));
            assert(pcr_lookup(s, q) == pcr_lookup(s.drop_first(), q));
        }
    }
}

/// A table of PCR values by PCR index, in the order the indices were first
/// bound.
#[derive(Debug, Clone)]
pub struct PcrValues {
    entries: Vec<(u32, String)>,
}

impl View for PcrValues {
    type V = Seq<(u32, String)>;

    closed spec fn view(&self) -> Seq<(u32, String)> {
        self.entries@
    }
}

impl PcrValues {
    pub fn new() -> (t: Self)
        ensures
            t@ == Seq::<(u32, String)>::empty(),
    {
        PcrValues { entries: Vec::new() }
    }

    pub fn len(&self) -> (n: usize)
        ensures
            n == self@.len(),
    {
        self.entries.len()
    }

    fn index_of(&self, k: u32) -> (r: Option<usize>)
        ensures
            match r {
                Some(i) => i < self@.len() && self@[i as int].0 == k && forall|j: int|
                    0 <= j < i ==> #[trigger] self@[j].0 != k,
                None => forall|j: int| 0 <= j < self@.len() ==> #[trigger] self@[j].0 != k,
            },
    {
        let mut i: usize = 0;
        while i < self.entries.len()
            invariant
                i <= self@.len(),
                self@ == self.entries@,
                forall|j: int| 0 <= j < i ==> #[trigger] self@[j].0 != k,
            decreases self.entries.len() - i,
        {
            if self.entries[i].0 == k {
                return Some(i);
            }
            i = i + 1;
        }
        None
    }

    /// The value for PCR `k`.
    pub fn get(&self, k: u32) -> (r: Option<&String>)
        ensures
            match r {
                Some(v) => pcr_lookup(self@, k) == Some(*v),
                None => pcr_lookup(self@, k) is None,
            },
    {
        match self.index_of(k) {
            Some(i) => {
                proof {
                    lemma_lookup_first(self@, k, i as int);
                }
                Some(&self.entries[i].1)
            },
            None => {
                proof {
                    lemma_lookup_absent(self@, k);
                }
                None
            },
        }
    }

    pub fn contains_key(&self, k: u32) -> (b: bool)
        ensures
            b == pcr_lookup(self@, k) is Some,
    {
        self.get(k).is_some()
    }

    /// Binds PCR `k` to `v`.
    pub fn insert(&mut self, k: u32, v: String)
        ensures
            final(self)@ == pcr_insert(old(self)@, k, v),
    {
        match self.index_of(k) {
            Some(i) => {
                proof {
                    lemma_insert_at(self@, k, v, i as int);
                }
                self.entries.set(i, (k, v));
            },
            None => {
                proof {
                    lemma_insert_new(self@, k, v);
                }
                self.entries.push((k, v));
            },
        }
    }

    /// The bindings in order.
    pub fn entries(&self) -> (r: &Vec<(u32, String)>)
        ensures
            r@ == self@,
    {
        &self.entries
    }
}

/// The reference PCR table used to exercise attestation: the standard
/// measured-boot indices, each bound to a 40-digit hex value.
pub fn create_test_pcr_values() -> (t: PcrValues)
    ensures
        t@.len() == 8,
        keys_distinct(t@),
        t@[0].0 == 0 && t@[0].1@ == "0000000000000000000000000000000000000000"@,
        t@[1].0 == 1 && t@[1].1@ == "1111111111111111111111111111111111111111"@,
        t@[2].0 == 4 && t@[2].1@ == "4444444444444444444444444444444444444444"@,
        t@[3].0 == 5 && t@[3].1@ == "5555555555555555555555555555555555555555"@,
        t@[4].0 == 7 && t@[4].1@ == "7777777777777777777777777777777777777777"@,
        t@[5].0 == 9 && t@[5].1@ == "9999999999999999999999999999999999999999"@,
        t@[6].0 == 10 && t@[6].1@ == "aaaaaaaaaaaaaaaaaaaaaaaaaaaaaaaaaaaaaaaa"@,
        t@[7].0 == 14 && t@[7].1@ == "eeeeeeeeeeeeeeeeeeeeeeeeeeeeeeeeeeeeeeee"@,
{
    let mut v: Vec<(u32, String)> = Vec::new();
    v.push((0, to_owned_string("0000000000000000000000000000000000000000")));
    v.push((1, to_owned_string("1111111111111111111111111111111111111111")));
    v.push((4, to_owned_string("4444444444444444444444444444444444444444")));
    v.push((5, to_owned_string("5555555555555555555555555555555555555555")));
    v.push((7, to_owned_string("7777777777777777777777777777777777777777")));
    v.push((9, to_owned_string("9999999999999999999999999999999999999999")));
    v.push((10, to_owned_string("aaaaaaaaaaaaaaaaaaaaaaaaaaaaaaaaaaaaaaaa")));
    v.push((14, to_owned_string("eeeeeeeeeeeeeeeeeeeeeeeeeeeeeeeeeeeeeeee")));
    PcrValues { entries: v }
}

// ---------------------------------------------------------------- results

/// The comparison for one PCR index.
#[derive(Debug, Clone)]
pub struct PcrResult {
    pub pcr_index: u32,
    pub expected: String,
    pub actual: String,
    pub verified: bool,
}

/// The outcome of an attestation check.
#[derive(Debug)]
pub struct AttestationResult {
    pub verified: bool,
    pub pcr_results: Vec<PcrResult>,
    pub signed_manifest_verified: bool,
    pub error: Option<String>,
}

/// How measured boot is verified.
#[derive(Debug, Clone)]
pub struct MeasuredBootConfig {
    /// PCR indices to verify during attestation.
    pub pcr_selection: Vec<u32>,
    /// Timeout in seconds for the attestation check.
    pub verification_timeout_secs: u64,
    /// Whether a VM that fails attestation is killed.
    pub block_on_failure: bool,
    /// Whether the image manifest must carry a trusted signature.
    pub require_signed_manifest: bool,
    /// Directory holding the trusted public keys.
    pub trusted_keys_dir: Option<String>,
}

/// The PCRs measured during UEFI Secure Boot: firmware, its configuration,
/// boot manager, its configuration, Secure Boot state, kernel, initrd and
/// root filesystem.
pub open spec fn standard_pcrs() -> Seq<u32> {
    seq![0u32, 1, 4, 5, 7, 9, 10, 14]
}

/// The PCR indices that a quote covers.
pub fn tpm_quote_pcrs() -> (v: Vec<u32>)
    ensures
        v@ == standard_pcrs(),
{
    let mut v: Vec<u32> = Vec::new();
    v.push(0);
    v.push(1);
    v.push(4);
    v.push(5);
    v.push(7);
    v.push(9);
    v.push(10);
    v.push(14);
    assert(v@ =~= standard_pcrs());
    v
}

impl Default for MeasuredBootConfig {
    fn default() -> (c: Self)
        ensures
            c.pcr_selection@ == standard_pcrs(),
            c.verification_timeout_secs == 30,
            c.block_on_failure,
            c.require_signed_manifest,
            c.trusted_keys_dir is None,
    {
        MeasuredBootConfig {
            pcr_selection: tpm_quote_pcrs(),
            verification_timeout_secs: 30,
            block_on_failure: true,
            require_signed_manifest: true,
            trusted_keys_dir: None,
        }
    }
}

pub fn pcr_idx_to_usize(pcr_idx: &u32) -> (r: usize)
    ensures
        r == *pcr_idx,
{
    *pcr_idx as usize
}

/// Indices written in decimal and separated by commas.
pub open spec fn comma_list(s: Seq<u32>) -> Seq<char>
    decreases s.len(),
{
    if s.len() == 0 {
        seq![]
    } else if s.len() == 1 {
        dec(s[0] as nat)
    } else {
        comma_list(s.drop_last()) + seq![','] + dec(s.last() as nat)
    }
}

/// The `-p` argument of `tpm2_quote`: the indices joined by commas.
pub fn pcr_list_string(pcrs: &Vec<u32>) -> (r: String)
    ensures
        r@ == comma_list(pcrs@),
{
    let mut r = String::new();
    let mut i: usize = 0;
    while i < pcrs.len()
        invariant
            i <= pcrs@.len(),
            r@ == comma_list(pcrs@.take(i as int)),
        decreases pcrs.len() - i,
    {
        if i > 0 {
            push_char(&mut r, ',');
        }
        push_u64(&mut r, pcrs[i] as u64);
        let ghost t = pcrs@.take(i + 1);
        assert(t.drop_last() =~= pcrs@.take(i as int));
        proof {
            if i == 0 {
                assert(r@ =~= dec(pcrs@[0] as nat));
            } else {
                assert(r@ =~= comma_list(pcrs@.take(i as int)) + seq![','] + dec(pcrs@[i as int] as nat));
            }
        }
        i = i + 1;
    }
    assert(pcrs@.take(pcrs@.len() as int) =~= pcrs@);
    r
}

/// The command line of `tpm2_quote` for a VM whose vTPM listens on
/// `tpm_socket`.
pub fn tpm2_quote_args(vm_id: &str, tpm_socket: &str) -> (a: Vec<String>)
    ensures
        a@.len() == 16,
        a@[0]@ == "-T"@,
        a@[1]@ == "socket:path="@ + tpm_socket@,
        a@[2]@ == "-c"@,
        a@[3]@ == "/etc/tpm2/tpm2-quote.ak"@,
        a@[4]@ == "-g"@,
        a@[5]@ == "sha256"@,
        a@[6]@ == "-p"@,
        a@[7]@ == comma_list(standard_pcrs()),
        a@[8]@ == "-o"@,
        a@[9]@ == "/tmp/"@ + vm_id@ + "_quote.bin"@,
        a@[10]@ == "-s"@,
        a@[11]@ == "/tmp/"@ + vm_id@ + "_sig.bin"@,
        a@[12]@ == "-m"@,
        a@[13]@ == "/tmp/"@ + vm_id@ + "_msg.bin"@,
        a@[14]@ == "-f"@,
        a@[15]@ == "sha256"@,
{
    let mut a: Vec<String> = Vec::new();
    a.push(to_owned_string("-T"));
    let mut sock = to_owned_string("socket:path=");
    push_str(&mut sock, tpm_socket);
    a.push(sock);
    a.push(to_owned_string("-c"));
    a.push(to_owned_string("/etc/tpm2/tpm2-quote.ak"));
    a.push(to_owned_string("-g"));
    a.push(to_owned_string("sha256"));
    a.push(to_owned_string("-p"));
    a.push(pcr_list_string(&tpm_quote_pcrs()));
    a.push(to_owned_string("-o"));
    a.push(tmp_file(vm_id, "_quote.bin"));
    a.push(to_owned_string("-s"));
    a.push(tmp_file(vm_id, "_sig.bin"));
    a.push(to_owned_string("-m"));
    a.push(tmp_file(vm_id, "_msg.bin"));
    a.push(to_owned_string("-f"));
    a.push(to_owned_string("sha256"));
    a
}

fn tmp_file(vm_id: &str, suffix: &str) -> (r: String)
    ensures
        r@ == "/tmp/"@ + vm_id@ + suffix@,
{
    let mut r = to_owned_string("/tmp/");
    push_str(&mut r, vm_id);
    push_str(&mut r, suffix);
    r
}

// ---------------------------------------------------------------- comparison

/// The live value reported for PCR `k`, empty when the quote lacks it.
pub open spec fn live_hash(live: Seq<(u32, String)>, k: u32) -> Seq<char> {
    match pcr_lookup(live, k) {
        Some(h) => h@,
        None => Seq::empty(),
    }
}

/// PCR `k` is in the live quote with exactly the expected value `h`.
pub open spec fn pcr_ok(live: Seq<(u32, String)>, k: u32, h: Seq<char>) -> bool {
    match pcr_lookup(live, k) {
        Some(a) => a@ == h,
        None => false,
    }
}

pub open spec fn all_pcrs_ok(expected: Seq<(u32, String)>, live: Seq<(u32, String)>) -> bool {
    forall|i: int| 0 <= i < expected.len() ==> #[trigger] pcr_ok(live, expected[i].0, expected[i].1@)
}

/// `i` is the first expected PCR that the live quote does not confirm.
pub open spec fn first_failing(expected: Seq<(u32, String)>, live: Seq<(u32, String)>, i: int) -> bool {
    &&& 0 <= i < expected.len()
    &&& !pcr_ok(live, expected[i].0, expected[i].1@)
    &&& forall|j: int| 0 <= j < i ==> #[trigger] pcr_ok(live, expected[j].0, expected[j].1@)
}

/// Why PCR `k` with expected value `h` failed the direct check.
pub open spec fn pcr_failure_message(live: Seq<(u32, String)>, k: u32, h: Seq<char>) -> Seq<char> {
    match pcr_lookup(live, k) {
        Some(a) => "PCR "@ + dec(k as nat) + " mismatch after unified verification: expected "@ + h
            + ", got "@ + a@,
        None => "PCR "@ + dec(k as nat) + " not found in live quote but expected in manifest"@,
    }
}

/// The per-PCR comparison table, one row per expected PCR in order.
pub fn build_pcr_results(expected: &PcrValues, live: &PcrValues) -> (r: Vec<PcrResult>)
    ensures
        r@.len() == expected@.len(),
        forall|i: int|
            0 <= i < r@.len() ==> {
                let row = #[trigger] r@[i];
                &&& row.pcr_index == expected@[i].0
                &&& row.expected@ == expected@[i].1@
                &&& row.actual@ == live_hash(live@, expected@[i].0)
                &&& row.verified == (row.actual@ == expected@[i].1@)
            },
{
    let es = expected.entries();
    let mut r: Vec<PcrResult> = Vec::new();
    let mut i: usize = 0;
    while i < es.len()
        invariant
            es@ == expected@,
            i <= es@.len(),
            r@.len() == i,
            forall|k: int|
                0 <= k < i ==> {
                    let row = #[trigger] r@[k];
                    &&& row.pcr_index == expected@[k].0
                    &&& row.expected@ == expected@[k].1@
                    &&& row.actual@ == live_hash(live@, expected@[k].0)
                    &&& row.verified == (row.actual@ == expected@[k].1@)
                },
        decreases es.len() - i,
    {
        let idx = es[i].0;
        let actual = match live.get(idx) {
            Some(h) => h.clone(),
            None => String::new(),
        };
        let verified = str_eq(actual.as_str(), es[i].1.as_str());
        r.push(PcrResult { pcr_index: idx, expected: es[i].1.clone(), actual, verified });
        i = i + 1;
    }
    r
}

fn failure_message(live: &PcrValues, k: u32, h: &String) -> (m: String)
    ensures
        m@ == pcr_failure_message(live@, k, h@),
{
    let mut m = to_owned_string("PCR ");
    push_u64(&mut m, k as u64);
    match live.get(k) {
        Some(a) => {
            push_str(&mut m, " mismatch after unified verification: expected ");
            push_str(&mut m, h.as_str());
            push_str(&mut m, ", got ");
            push_str(&mut m, a.as_str());
        },
        None => {
            push_str(&mut m, " not found in live quote but expected in manifest");
        },
    }
    m
}

/// The verdict on an attestation, given what the unified verifier said of
/// the quote: a refusal by the verifier stands; otherwise every expected
/// PCR must be in the live quote with exactly the expected value, and the
/// first one that is not names the failure.
pub fn attestation_verdict(
    unified_verified: bool,
    unified_error: Option<String>,
    expected: &PcrValues,
    live: &PcrValues,
) -> (r: AttestationResult)
    ensures
        r.pcr_results@.len() == expected@.len(),
        forall|i: int|
            0 <= i < r.pcr_results@.len() ==> {
                let row = #[trigger] r.pcr_results@[i];
                &&& row.pcr_index == expected@[i].0
                &&& row.expected@ == expected@[i].1@
                &&& row.actual@ == live_hash(live@, expected@[i].0)
                &&& row.verified == (row.actual@ == expected@[i].1@)
            },
        r.signed_manifest_verified == unified_verified,
        !unified_verified ==> !r.verified && r.error is Some && r.error->0@ == match unified_error {
            Some(e) => e@,
            None => "PCR verification failed"@,
        },
        unified_verified && all_pcrs_ok(expected@, live@) ==> r.verified && r.error is None,
        unified_verified && !all_pcrs_ok(expected@, live@) ==> {
            &&& !r.verified
            &&& r.error is Some
            &&& exists|i: int|
                first_failing(expected@, live@, i) && r.error->0@ == pcr_failure_message(
                    live@,
                    expected@[i].0,
                    expected@[i].1@,
                )
        },
{
    let pcr_results = build_pcr_results(expected, live);
    if !unified_verified {
        let msg = match unified_error {
            Some(e) => e,
            None => to_owned_string("PCR verification failed"),
        };
        return AttestationResult {
            verified: false,
            pcr_results,
            signed_manifest_verified: unified_verified,
            error: Some(msg),
        };
    }
    let es = expected.entries();
    let mut i: usize = 0;
    while i < es.len()
        invariant
            es@ == expected@,
            unified_verified,
            i <= es@.len(),
            forall|j: int| 0 <= j < i ==> #[trigger] pcr_ok(live@, expected@[j].0, expected@[j].1@),
            pcr_results@.len() == expected@.len(),
            forall|k: int|
                0 <= k < pcr_results@.len() ==> {
                    let row = #[trigger] pcr_results@[k];
                    &&& row.pcr_index == expected@[k].0
                    &&& row.expected@ == expected@[k].1@
                    &&& row.actual@ == live_hash(live@, expected@[k].0)
                    &&& row.verified == (row.actual@ == expected@[k].1@)
                },
        decreases es.len() - i,
    {
        let ok = match live.get(es[i].0) {
            Some(a) => str_eq(a.as_str(), es[i].1.as_str()),
            None => false,
        };
        if !ok {
            let msg = failure_message(live, es[i].0, &es[i].1);
            assert(first_failing(expected@, live@, i as int));
            return AttestationResult {
                verified: false,
                pcr_results,
                signed_manifest_verified: unified_verified,
                error: Some(msg),
            };
        }
        i = i + 1;
    }
    AttestationResult { verified: true, pcr_results, signed_manifest_verified: unified_verified, error: None }
}

// ---------------------------------------------------------------- configuration

/// `~/.vyoma/keys/trusted` under a home directory.
pub open spec fn default_trusted_keys(home: Seq<char>) -> Seq<char> {
    join_path(join_path(join_path(home, ".vyoma"@), "keys"@), "trusted"@)
}

fn trusted_keys_under(home: &str) -> (r: String)
    ensures
        r@ == default_trusted_keys(home@),
{
    let a = path_join(home, ".vyoma");
    let b = path_join(a.as_str(), "keys");
    path_join(b.as_str(), "trusted")
}

/// The attestation configuration derived from the policy settings: signed
/// manifests are always required, and the trusted keys come from the
/// configured directory, else the build signing key path, else
/// `~/.vyoma/keys/trusted` when there is a home directory.
pub fn attestation_config_from(
    pcr_selection: Vec<u32>,
    verification_timeout_secs: u64,
    block_on_failure: bool,
    trusted_keys_dir: Option<String>,
    build_signing_key_path: Option<String>,
    home: Option<String>,
) -> (c: MeasuredBootConfig)
    ensures
        c.pcr_selection@ == pcr_selection@,
        c.verification_timeout_secs == verification_timeout_secs,
        c.block_on_failure == block_on_failure,
        c.require_signed_manifest,
        trusted_keys_dir is Some ==> c.trusted_keys_dir == trusted_keys_dir,
        trusted_keys_dir is None && build_signing_key_path is Some ==> c.trusted_keys_dir
            == build_signing_key_path,
        trusted_keys_dir is None && build_signing_key_path is None ==> match home {
            Some(h) => c.trusted_keys_dir is Some && c.trusted_keys_dir->0@ == default_trusted_keys(h@),
            None => c.trusted_keys_dir is None,
        },
{
    let dir = match trusted_keys_dir {
        Some(d) => Some(d),
        None => match build_signing_key_path {
            Some(p) => Some(p),
            None => match home {
                Some(h) => Some(trusted_keys_under(h.as_str())),
                None => None,
            },
        },
    };
    MeasuredBootConfig {
        pcr_selection,
        verification_timeout_secs,
        block_on_failure,
        require_signed_manifest: true,
        trusted_keys_dir: dir,
    }
}

// ---------------------------------------------------------------- boot-time decision

/// What to do first about a VM that has just booted.
#[derive(Debug)]
pub enum AttestationStart {
    /// Nothing to run: apply this decision.
    Decided(AttestationDecision),
    /// Run the attestation check against this vTPM socket, then call
    /// `attestation_finish` with its outcome.
    Check { tpm_socket: String },
}

/// How the attestation check ended.
#[derive(Debug)]
pub enum AttestationRun {
    Finished(Result<AttestationResult, String>),
    /// The check did not finish in time; the message describes it.
    TimedOut(String),
}

/// The status to record for the VM, whether to kill it, and what the boot
/// step returns.
#[derive(Debug)]
pub struct AttestationDecision {
    pub new_status: VmStatus,
    pub kill_vm: bool,
    pub result: Result<(), String>,
}

pub open spec fn failure_decision(d: AttestationDecision, reason: Seq<char>, ret: Seq<char>, block_on_failure: bool) -> bool {
    &&& d.new_status matches VmStatus::Error { reason: r } && r@ == reason
    &&& d.kill_vm == block_on_failure
    &&& d.result matches Err(e) && e@ == ret
}

fn fail(reason: String, ret: String, block_on_failure: bool) -> (d: AttestationDecision)
    ensures
        failure_decision(d, reason@, ret@, block_on_failure),
{
    AttestationDecision {
        new_status: VmStatus::Error { reason },
        kill_vm: block_on_failure,
        result: Err(ret),
    }
}

fn running() -> (d: AttestationDecision)
    ensures
        d.new_status == VmStatus::Running,
        !d.kill_vm,
        d.result is Ok,
{
    AttestationDecision { new_status: VmStatus::Running, kill_vm: false, result: Ok(()) }
}

/// The first step of boot-time attestation: a VM that the policy does not
/// require to attest runs; one that must attest without a vTPM fails.
pub fn attestation_start(
    needs_verification: bool,
    vm_id: &str,
    tpm_socket: Option<String>,
    block_on_failure: bool,
) -> (s: AttestationStart)
    ensures
        !needs_verification ==> (s matches AttestationStart::Decided(d) && d.new_status == VmStatus::Running
            && !d.kill_vm && d.result is Ok),
        needs_verification && tpm_socket is None ==> (s matches AttestationStart::Decided(d)
            && failure_decision(
            d,
            "vTPM socket not available for VM "@ + vm_id@ + " - cannot perform attestation"@,
            "vTPM socket not available for VM "@ + vm_id@ + " - cannot perform attestation"@,
            block_on_failure,
        )),
        needs_verification && tpm_socket is Some ==> (s matches AttestationStart::Check { tpm_socket: t }
            && t == tpm_socket->0),
{
    if !needs_verification {
        return AttestationStart::Decided(running());
    }
    match tpm_socket {
        Some(t) => AttestationStart::Check { tpm_socket: t },
        None => {
            let mut msg = to_owned_string("vTPM socket not available for VM ");
            push_str(&mut msg, vm_id);
            push_str(&mut msg, " - cannot perform attestation");
            let ret = msg.clone();
            AttestationStart::Decided(fail(msg, ret, block_on_failure))
        },
    }
}

/// The second step: a verified result lets the VM run; any failure marks it
/// failed (and kills it when the policy blocks on failure).
pub fn attestation_finish(run: AttestationRun, block_on_failure: bool) -> (d: AttestationDecision)
    ensures
        match run {
            AttestationRun::Finished(Ok(r)) => if r.verified {
                d.new_status == VmStatus::Running && !d.kill_vm && d.result is Ok
            } else {
                let e = match r.error {
                    Some(m) => m@,
                    None => "Attestation failed"@,
                };
                failure_decision(d, "Attestation failed: "@ + e, e, block_on_failure)
            },
            AttestationRun::Finished(Err(e)) => failure_decision(
                d,
                "Attestation failed: "@ + e@,
                e@,
                block_on_failure,
            ),
            AttestationRun::TimedOut(m) => failure_decision(d, m@, m@, block_on_failure),
        },
{
    match run {
        AttestationRun::Finished(Ok(r)) => {
            if r.verified {
                running()
            } else {
                let e = match r.error {
                    Some(m) => m,
                    None => to_owned_string("Attestation failed"),
                };
                let mut reason = to_owned_string("Attestation failed: ");
                push_str(&mut reason, e.as_str());
                fail(reason, e, block_on_failure)
            }
        },
        AttestationRun::Finished(Err(e)) => {
            let mut reason = to_owned_string("Attestation failed: ");
            push_str(&mut reason, e.as_str());
            fail(reason, e, block_on_failure)
        },
        AttestationRun::TimedOut(m) => {
            let ret = m.clone();
            fail(m, ret, block_on_failure)
        },
    }
}

// ---------------------------------------------------------------- attestation steps

/// The steps of an attestation check that can fail before the verdict.
#[derive(Debug, Clone, Copy, PartialEq, Eq, Structural)]
pub enum AttestStep {
    /// Taking a PCR quote from the vTPM.
    Quote,
    /// Reading the PCR values out of the quote.
    ParseQuote,
    /// The unified verifier could not check the quote.
    Verify,
}

pub open spec fn attest_error_prefix(step: AttestStep) -> Seq<char> {
    match step {
        AttestStep::Quote => "Failed to get PCR quote: "@,
        AttestStep::ParseQuote => "Failed to parse PCR values from quote: "@,
        AttestStep::Verify => "Attestation verification error: "@,
    }
}

/// The error that a failed step ends an attestation check with.
pub fn attest_error(step: AttestStep, error: &str) -> (m: String)
    ensures
        m@ == attest_error_prefix(step) + error@,
{
    let prefix = match step {
        AttestStep::Quote => "Failed to get PCR quote: ",
        AttestStep::ParseQuote => "Failed to parse PCR values from quote: ",
        AttestStep::Verify => "Attestation verification error: ",
    };
    let mut m = to_owned_string(prefix);
    push_str(&mut m, error);
    m
}

/// The PCR values a manifest expects; a manifest without a PCR policy
/// cannot be attested against.
pub fn expected_pcrs(image_name: &str, pcr_policy: Option<PcrValues>) -> (r: Result<PcrValues, String>)
    ensures
        pcr_policy matches Some(p) ==> r == Ok::<PcrValues, String>(p),
        pcr_policy is None ==> (r matches Err(e) && e@ == "No PCR policy found in manifest for image "@
            + image_name@),
{
    match pcr_policy {
        Some(p) => Ok(p),
        None => {
            let mut m = to_owned_string("No PCR policy found in manifest for image ");
            push_str(&mut m, image_name);
            Err(m)
        },
    }
}

/// What attestation keeps of a loaded manifest: its PCR policy, and the
/// signature and key it was signed with.
#[derive(Debug, Clone)]
pub struct AcceptedManifest {
    pub pcr_policy: Option<PcrValues>,
    pub signature: Vec<u8>,
    pub public_key: Vec<u8>,
}

/// How an unsigned manifest is accepted when the policy does not require
/// signatures: with no signature and no key, and with no PCR policy, so
/// that no PCR value is checked against it (PCR verification is skipped for
/// unsigned manifests, whatever policy the file itself carries).
pub fn accept_unsigned_manifest() -> (m: AcceptedManifest)
    ensures
        m.pcr_policy is None,
        m.signature@.len() == 0,
        m.public_key@.len() == 0,
{
    AcceptedManifest { pcr_policy: None, signature: Vec::new(), public_key: Vec::new() }
}

// ---------------------------------------------------------------- manifest

/// Where an image's manifest is taken from for attestation, and how its
/// signature is checked.
#[derive(Debug, Clone)]
pub enum ManifestPlan {
    /// Load `vyoma.toml.sig` from `path` and check its signature against
    /// the keys in `trusted_keys_dir`: a bad signature, or keys that cannot
    /// be loaded, fail attestation when `strict`; otherwise the check is
    /// made only when that directory exists, and a failure is a warning.
    Signed { path: String, strict: bool, trusted_keys_dir: String },
    /// Load the unsigned `vyoma.toml` from `path`.
    Unsigned { path: String },
}

/// The trusted keys directory of a configuration, or the default one under
/// `home`.
pub open spec fn trusted_keys_dir_of(config: MeasuredBootConfig, home: Seq<char>) -> Seq<char> {
    match config.trusted_keys_dir {
        Some(d) => d@,
        None => default_trusted_keys(home),
    }
}

/// Chooses the manifest of the image `image_name` in `image_dir`, given
/// which manifest files exist there. `dir_debug` is the directory as it is
/// quoted in messages.
pub fn manifest_plan(
    image_dir: &str,
    dir_debug: &str,
    image_name: &str,
    sig_exists: bool,
    manifest_exists: bool,
    config: &MeasuredBootConfig,
    home: &str,
) -> (r: Result<ManifestPlan, String>)
    ensures
        sig_exists ==> (r matches Ok(ManifestPlan::Signed { path, strict, trusted_keys_dir }) && path@ == join_path(
            image_dir@,
            "vyoma.toml.sig"@,
        ) && strict == config.require_signed_manifest && trusted_keys_dir@ == trusted_keys_dir_of(*config, home@)),
        !sig_exists && !manifest_exists ==> (r matches Err(e) && e@
            == "Neither signed manifest (vyoma.toml.sig) nor unsigned manifest (vyoma.toml) found in "@ + dir_debug@),
        !sig_exists && manifest_exists && config.require_signed_manifest ==> (r matches Err(e) && e@ == "Image "@
            + image_name@ + " has no signed manifest (vyoma.toml.sig) - signed manifest required by policy. "@
            + "Build the image with --measured flag to generate a signed manifest."@),
        !sig_exists && manifest_exists && !config.require_signed_manifest ==> (r matches Ok(
            ManifestPlan::Unsigned { path },
        ) && path@ == join_path(image_dir@, "vyoma.toml"@)),
{
    if sig_exists {
        let keys = match &config.trusted_keys_dir {
            Some(d) => d.clone(),
            None => trusted_keys_under(home),
        };
        return Ok(
            ManifestPlan::Signed {
                path: path_join(image_dir, "vyoma.toml.sig"),
                strict: config.require_signed_manifest,
                trusted_keys_dir: keys,
            },
        );
    }
    if !manifest_exists {
        let mut m = to_owned_string("Neither signed manifest (vyoma.toml.sig) nor unsigned manifest (vyoma.toml) found in ");
        push_str(&mut m, dir_debug);
        return Err(m);
    }
    if config.require_signed_manifest {
        let mut m = to_owned_string("Image ");
        push_str(&mut m, image_name);
        push_str(&mut m, " has no signed manifest (vyoma.toml.sig) - signed manifest required by policy. ");
        push_str(&mut m, "Build the image with --measured flag to generate a signed manifest.");
        proof {
            assert(m@ =~= "Image "@ + image_name@
                + " has no signed manifest (vyoma.toml.sig) - signed manifest required by policy. "@
                + "Build the image with --measured flag to generate a signed manifest."@);
        }
        return Err(m);
    }
    Ok(ManifestPlan::Unsigned { path: path_join(image_dir, "vyoma.toml") })
}

/// The steps of loading a manifest that can fail.
#[derive(Debug, Clone, Copy, PartialEq, Eq, Structural)]
pub enum ManifestStep {
    LoadSigned,
    LoadTrustedKeys,
    VerifySignature,
    LoadUnsigned,
}

pub open spec fn manifest_error_prefix(step: ManifestStep) -> Seq<char> {
    match step {
        ManifestStep::LoadSigned => "Failed to load signed manifest: "@,
        ManifestStep::LoadTrustedKeys => "Failed to load trusted keys: "@,
        ManifestStep::VerifySignature => "Manifest signature verification failed: "@,
        ManifestStep::LoadUnsigned => "Failed to load unsigned manifest: "@,
    }
}

/// The error that a failed step ends attestation with.
pub fn manifest_error(step: ManifestStep, error: &str) -> (m: String)
    ensures
        m@ == manifest_error_prefix(step) + error@,
{
    let prefix = match step {
        ManifestStep::LoadSigned => "Failed to load signed manifest: ",
        ManifestStep::LoadTrustedKeys => "Failed to load trusted keys: ",
        ManifestStep::VerifySignature => "Manifest signature verification failed: ",
        ManifestStep::LoadUnsigned => "Failed to load unsigned manifest: ",
    };
    let mut m = to_owned_string(prefix);
    push_str(&mut m, error);
    m
}

} // verus!
