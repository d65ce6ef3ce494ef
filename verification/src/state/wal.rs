//! Write-ahead log records of VM lifecycle events, the keys they are stored
//! under, and the consistency report computed from a log.
use vstd::prelude::*;

use crate::clock::clock_nanos;
use crate::text::{dec, push_char, push_str, push_u64, str_eq};

verus! {

#[derive(Debug, Clone)]
pub enum WalEntry {
    VmCreate { id: String, timestamp: u64 },
    VmStart { id: String, timestamp: u64 },
    VmStop { id: String, timestamp: u64 },
    VmDestroy { id: String, timestamp: u64 },
    VmCheckpoint { id: String, snapshot_path: String, timestamp: u64 },
}

/// Which lifecycle event an entry records.
pub enum WalKind {
    Create,
    Start,
    Stop,
    Destroy,
    Checkpoint,
}

pub open spec fn kind_of(e: WalEntry) -> WalKind {
    match e {
        WalEntry::VmCreate { .. } => WalKind::Create,
        WalEntry::VmStart { .. } => WalKind::Start,
        WalEntry::VmStop { .. } => WalKind::Stop,
        WalEntry::VmDestroy { .. } => WalKind::Destroy,
        WalEntry::VmCheckpoint { .. } => WalKind::Checkpoint,
    }
}

/// The VM an entry is about.
pub open spec fn entry_id(e: WalEntry) -> Seq<char> {
    match e {
        WalEntry::VmCreate { id, .. } => id@,
        WalEntry::VmStart { id, .. } => id@,
        WalEntry::VmStop { id, .. } => id@,
        WalEntry::VmDestroy { id, .. } => id@,
        WalEntry::VmCheckpoint { id, .. } => id@,
    }
}

/// The current time in nanoseconds since the Unix epoch, truncated to 64
/// bits. When the clock reads earlier than the epoch the daemon's own clock
/// read panics; this function does not panic and gives 0 instead.
pub fn now() -> u64 {
    match clock_nanos() {
        Some(n) => {
            #[verifier::truncate]
            let t = n as u64;
            t
        },
        None => 0,
    }
}

/// The current time in whole seconds since the Unix epoch. When the clock
/// reads earlier than the epoch the daemon's own clock read panics; this
/// function does not panic and gives 0 instead.
pub fn unix_secs() -> u64 {
    match clock_nanos() {
        Some(n) => (n / 1_000_000_000) as u64,
        None => 0,
    }
}

impl WalEntry {
    /// A creation record stamped with the current time.
    pub fn vm_create(id: String) -> (e: Self)
        ensures
            e matches WalEntry::VmCreate { id: i, .. } && i == id,
    {
        Self::vm_create_at(id, now())
    }

    /// A start record stamped with the current time.
    pub fn vm_start(id: String) -> (e: Self)
        ensures
            e matches WalEntry::VmStart { id: i, .. } && i == id,
    {
        Self::vm_start_at(id, now())
    }

    /// A stop record stamped with the current time.
    pub fn vm_stop(id: String) -> (e: Self)
        ensures
            e matches WalEntry::VmStop { id: i, .. } && i == id,
    {
        Self::vm_stop_at(id, now())
    }

    /// A destruction record stamped with the current time.
    pub fn vm_destroy(id: String) -> (e: Self)
        ensures
            e matches WalEntry::VmDestroy { id: i, .. } && i == id,
    {
        Self::vm_destroy_at(id, now())
    }

    /// A checkpoint record stamped with the current time.
    pub fn vm_checkpoint(id: String, snapshot_path: String) -> (e: Self)
        ensures
            e matches WalEntry::VmCheckpoint { id: i, snapshot_path: p, .. } && i == id && p == snapshot_path,
    {
        Self::vm_checkpoint_at(id, snapshot_path, now())
    }

    pub fn vm_create_at(id: String, timestamp: u64) -> (e: Self)
        ensures
            e == (WalEntry::VmCreate { id, timestamp }),
    {
        WalEntry::VmCreate { id, timestamp }
    }

    pub fn vm_start_at(id: String, timestamp: u64) -> (e: Self)
        ensures
            e == (WalEntry::VmStart { id, timestamp }),
    {
        WalEntry::VmStart { id, timestamp }
    }

    pub fn vm_stop_at(id: String, timestamp: u64) -> (e: Self)
        ensures
            e == (WalEntry::VmStop { id, timestamp }),
    {
        WalEntry::VmStop { id, timestamp }
    }

    pub fn vm_destroy_at(id: String, timestamp: u64) -> (e: Self)
        ensures
            e == (WalEntry::VmDestroy { id, timestamp }),
    {
        WalEntry::VmDestroy { id, timestamp }
    }

    pub fn vm_checkpoint_at(id: String, snapshot_path: String, timestamp: u64) -> (e: Self)
        ensures
            e == (WalEntry::VmCheckpoint { id, snapshot_path, timestamp }),
    {
        WalEntry::VmCheckpoint { id, snapshot_path, timestamp }
    }

    /// The VM this entry is about; every kind of entry names one.
    pub fn vm_id(&self) -> (r: Option<&str>)
        ensures
            r is Some && r->0@ == entry_id(*self),
    {
        match self {
            WalEntry::VmCreate { id, .. } => Some(id.as_str()),
            WalEntry::VmStart { id, .. } => Some(id.as_str()),
            WalEntry::VmStop { id, .. } => Some(id.as_str()),
            WalEntry::VmDestroy { id, .. } => Some(id.as_str()),
            WalEntry::VmCheckpoint { id, .. } => Some(id.as_str()),
        }
    }
}

/// Key a log record is stored under: its timestamp, a colon, and the VM id.
pub open spec fn spec_wal_key(timestamp: u64, e: WalEntry) -> Seq<char> {
    dec(timestamp as nat) + ":"@ + entry_id(e)
}

pub fn wal_key(timestamp: u64, entry: &WalEntry) -> (k: String)
    ensures
        k@ == spec_wal_key(timestamp, *entry),
{
    let mut k = String::new();
    push_u64(&mut k, timestamp);
    push_char(&mut k, ':');
    match entry.vm_id() {
        Some(id) => push_str(&mut k, id),
        None => push_str(&mut k, "unknown"),
    }
    proof {
        reveal_strlit(":");
    }
    assert(k@ =~= spec_wal_key(timestamp, *entry));
    k
}

/// The entries about one VM, in log order.
pub open spec fn entries_of(entries: Seq<WalEntry>, vm_id: Seq<char>) -> Seq<WalEntry> {
    entries.filter(|e: WalEntry| entry_id(e) == vm_id)
}

pub fn get_vm_entries(entries: &Vec<WalEntry>, vm_id: &str) -> (r: Vec<WalEntry>)
    ensures
        r@ == entries_of(entries@, vm_id@),
{
    let mut r: Vec<WalEntry> = Vec::new();
    let mut i: usize = 0;
    while i < entries.len()
        invariant
            i <= entries@.len(),
            r@ == entries@.take(i as int).filter(|e: WalEntry| entry_id(e) == vm_id@),
        decreases entries@.len() - i,
    {
        let e = &entries[i];
        assert(entries@.take(i + 1).drop_last() =~= entries@.take(i as int));
        reveal_with_fuel(Seq::filter, 1);
        let id = match e.vm_id() {
            Some(s) => s,
            None => "",
        };
        if str_eq(id, vm_id) {
            r.push(clone_entry(e));
        }
        i = i + 1;
    }
    assert(entries@.take(entries@.len() as int) =~= entries@);
    r
}

fn clone_entry(e: &WalEntry) -> (r: WalEntry)
    ensures
        r == *e,
{
    match e {
        WalEntry::VmCreate { id, timestamp } => WalEntry::VmCreate { id: id.clone(), timestamp: *timestamp },
        WalEntry::VmStart { id, timestamp } => WalEntry::VmStart { id: id.clone(), timestamp: *timestamp },
        WalEntry::VmStop { id, timestamp } => WalEntry::VmStop { id: id.clone(), timestamp: *timestamp },
        WalEntry::VmDestroy { id, timestamp } => WalEntry::VmDestroy { id: id.clone(), timestamp: *timestamp },
        WalEntry::VmCheckpoint { id, snapshot_path, timestamp } => WalEntry::VmCheckpoint {
            id: id.clone(),
            snapshot_path: snapshot_path.clone(),
            timestamp: *timestamp,
        },
    }
}

// ---------------------------------------------------------------- integrity

/// The VMs that have an entry of kind `k` in the log.
pub open spec fn ids_of_kind(entries: Seq<WalEntry>, k: WalKind) -> Set<Seq<char>> {
    Set::new(|id: Seq<char>| exists|i: int| 0 <= i < entries.len() && kind_of(entries[i]) == k && entry_id(entries[i]) == id)
}

pub open spec fn views(v: Seq<String>) -> Seq<Seq<char>> {
    v.map_values(|s: String| s@)
}

/// What a log says about VM lifetimes.
pub struct WalIntegrityReport {
    pub total_entries: usize,
    /// VMs created and never destroyed.
    pub orphaned_vms: Vec<String>,
    /// VMs started and never stopped.
    pub running_vms: Vec<String>,
}

fn contains_view(v: &Vec<String>, s: &str) -> (b: bool)
    ensures
        b == views(v@).contains(s@),
{
    let mut i: usize = 0;
    while i < v.len()
        invariant
            i <= v@.len(),
            forall|j: int| 0 <= j < i ==> v@[j]@ != s@,
        decreases v@.len() - i,
    {
        if str_eq(v[i].as_str(), s) {
            assert(views(v@)[i as int] == s@);
            return true;
        }
        i = i + 1;
    }
    proof {
        if views(v@).contains(s@) {
            let j = choose|j: int| 0 <= j < views(v@).len() && views(v@)[j] == s@;
            assert(v@[j]@ == s@);
        }
    }
    false
}

/// The ids of the entries of kind `k`, in log order, possibly repeated.
fn collect_kind(entries: &Vec<WalEntry>, k: WalKind) -> (r: Vec<String>)
    ensures
        views(r@).to_set() == ids_of_kind(entries@, k),
{
    let mut r: Vec<String> = Vec::new();
    let mut i: usize = 0;
    assert(views(r@).to_set() =~= ids_of_kind(entries@.take(0), k));
    while i < entries.len()
        invariant
            i <= entries@.len(),
            views(r@).to_set() == ids_of_kind(entries@.take(i as int), k),
        decreases entries@.len() - i,
    {
        let ghost r0 = r@;
        let (id, same) = match (&entries[i], &k) {
            (WalEntry::VmCreate { id, .. }, WalKind::Create) => (id, true),
            (WalEntry::VmStart { id, .. }, WalKind::Start) => (id, true),
            (WalEntry::VmStop { id, .. }, WalKind::Stop) => (id, true),
            (WalEntry::VmDestroy { id, .. }, WalKind::Destroy) => (id, true),
            (WalEntry::VmCheckpoint { id, .. }, WalKind::Checkpoint) => (id, true),
            (WalEntry::VmCreate { id, .. }, _) => (id, false),
            (WalEntry::VmStart { id, .. }, _) => (id, false),
            (WalEntry::VmStop { id, .. }, _) => (id, false),
            (WalEntry::VmDestroy { id, .. }, _) => (id, false),
            (WalEntry::VmCheckpoint { id, .. }, _) => (id, false),
        };
        assert(same == (kind_of(entries@[i as int]) == k));
        assert(id@ == entry_id(entries@[i as int]));
        if same {
            r.push(id.clone());
        }
        proof {
            let e0 = entries@.take(i as int);
            let e1 = entries@.take(i + 1);
            let rv = views(r@);
            let rv0 = views(r0);
            if same {
                assert(rv =~= rv0.push(id@));
            } else {
                assert(rv =~= rv0);
            }
            assert forall|x: Seq<char>| ids_of_kind(e1, k).contains(x) <==> (ids_of_kind(e0, k).contains(x) || (same && x == id@)) by {
                if ids_of_kind(e1, k).contains(x) {
                    let j = choose|j: int| 0 <= j < e1.len() && kind_of(e1[j]) == k && entry_id(e1[j]) == x;
                    if j < i {
                        assert(e0[j] == e1[j]);
                    }
                }
                if ids_of_kind(e0, k).contains(x) {
                    let j = choose|j: int| 0 <= j < e0.len() && kind_of(e0[j]) == k && entry_id(e0[j]) == x;
                    assert(e0[j] == e1[j]);
                }
                if same && x == id@ {
                    assert(e1[i as int] == entries@[i as int]);
                }
            }
            assert forall|x: Seq<char>| rv.to_set().contains(x) <==> (rv0.to_set().contains(x) || (same && x == id@)) by {
                if rv.to_set().contains(x) {
                    let t = choose|t: int| 0 <= t < rv.len() && rv[t] == x;
                    if t < rv0.len() {
                        assert(rv0[t] == x);
                    }
                }
                if rv0.to_set().contains(x) {
                    let t = choose|t: int| 0 <= t < rv0.len() && rv0[t] == x;
                    assert(rv[t] == x);
                }
                if same && x == id@ {
                    assert(rv[rv.len() - 1] == x);
                }
            }
            assert(rv.to_set() =~= ids_of_kind(e1, k));
        }
        i = i + 1;
    }
    assert(entries@.take(entries@.len() as int) =~= entries@);
    r
}

/// The ids of `a` that are not in `b`, without repeats, in first-seen order.
fn difference(a: &Vec<String>, b: &Vec<String>) -> (r: Vec<String>)
    ensures
        views(r@).no_duplicates(),
        views(r@).to_set() == views(a@).to_set().difference(views(b@).to_set()),
{
    let mut r: Vec<String> = Vec::new();
    let mut i: usize = 0;
    while i < a.len()
        invariant
            i <= a@.len(),
            views(r@).no_duplicates(),
            views(r@).to_set() == views(a@.take(i as int)).to_set().difference(views(b@).to_set()),
        decreases a@.len() - i,
    {
        let x = &a[i];
        let ghost r0 = r@;
        assert(views(a@.take(i + 1)) =~= views(a@.take(i as int)).push(x@));
        if !contains_view(b, x.as_str()) && !contains_view(&r, x.as_str()) {
            r.push(x.clone());
            assert(views(r@) =~= views(r0).push(x@));
        }
        proof {
            let a1 = views(a@.take(i + 1));
            let a0 = views(a@.take(i as int));
            let rv = views(r@);
            let rv0 = views(r0);
            assert forall|id: Seq<char>| a1.to_set().contains(id) <==> (a0.to_set().contains(id) || id == x@) by {
                if a1.to_set().contains(id) {
                    let t = choose|t: int| 0 <= t < a1.len() && a1[t] == id;
                    if t < i {
                        assert(a0[t] == id);
                    }
                }
                if a0.to_set().contains(id) {
                    let t = choose|t: int| 0 <= t < a0.len() && a0[t] == id;
                    assert(a1[t] == id);
                }
                if id == x@ {
                    assert(a1[i as int] == id);
                }
            }
            assert forall|id: Seq<char>| rv.to_set().contains(id) <==> (rv0.to_set().contains(id) || (id == x@ && !views(b@).contains(x@) && !rv0.contains(x@))) by {
                if rv.to_set().contains(id) {
                    let t = choose|t: int| 0 <= t < rv.len() && rv[t] == id;
                    if t < rv0.len() {
                        assert(rv0[t] == id);
                    }
                }
                if rv0.to_set().contains(id) {
                    let t = choose|t: int| 0 <= t < rv0.len() && rv0[t] == id;
                    assert(rv[t] == id);
                }
                if id == x@ && !views(b@).contains(x@) && !rv0.contains(x@) {
                    assert(rv[rv.len() - 1] == id);
                }
            }
            assert(rv.to_set() =~= a1.to_set().difference(views(b@).to_set()));
        }
        i = i + 1;
    }
    assert(a@.take(a@.len() as int) =~= a@);
    r
}

/// Which VMs a log leaves created-but-not-destroyed and started-but-not-stopped.
pub fn verify_wal_integrity(entries: &Vec<WalEntry>) -> (r: WalIntegrityReport)
    ensures
        r.total_entries == entries@.len(),
        views(r.orphaned_vms@).no_duplicates(),
        views(r.orphaned_vms@).to_set() == ids_of_kind(entries@, WalKind::Create).difference(ids_of_kind(entries@, WalKind::Destroy)),
        views(r.running_vms@).no_duplicates(),
        views(r.running_vms@).to_set() == ids_of_kind(entries@, WalKind::Start).difference(ids_of_kind(entries@, WalKind::Stop)),
{
    let created = collect_kind(entries, WalKind::Create);
    let started = collect_kind(entries, WalKind::Start);
    let stopped = collect_kind(entries, WalKind::Stop);
    let destroyed = collect_kind(entries, WalKind::Destroy);
    WalIntegrityReport {
        total_entries: entries.len(),
        orphaned_vms: difference(&created, &destroyed),
        running_vms: difference(&started, &stopped),
    }
}

} // verus!
