use vstd::prelude::*;

use crate::clock::{utc_now, UtcTimestamp};
use crate::text::{
    clone_opt_string, dec, digits_value, is_prefix, lemma_dec_reads_back, parse_usize, parses_unsigned, str_eq,
    strip_prefix, to_owned_string, unsigned_body,
};

verus! {

// ---------------------------------------------------------------- snapshot ids

pub open spec fn is_lower_hex(c: char) -> bool {
    ('0' <= c && c <= '9') || ('a' <= c && c <= 'f')
}

/// The hyphenated lower-case text of a version-4 UUID: 36 characters, dashes
/// at 8, 13, 18 and 23, hex digits elsewhere, the version digit `4` and a
/// variant digit of `8`, `9`, `a` or `b`.
pub open spec fn is_uuid_v4_text(s: Seq<char>) -> bool {
    &&& s.len() == 36
    &&& forall|i: int|
        0 <= i < 36 ==> (if i == 8 || i == 13 || i == 18 || i == 23 {
            s[i] == '-'
        } else {
            is_lower_hex(s[i])
        })
    &&& s[14] == '4'
    &&& (s[19] == '8' || s[19] == '9' || s[19] == 'a' || s[19] == 'b')
}

/// A fresh random identifier from `uuid::Uuid::new_v4`, rendered by its
/// `Display` impl.
///
/// The crate masks in the version and variant bits and formats the value
/// hyphenated in lower case; which bits the random source gave is not stated.
#[verifier::external_body]
pub(crate) fn new_uuid_v4() -> (s: String)
    ensures
        is_uuid_v4_text(s@),
{
    uuid::Uuid::new_v4().to_string()
}

// ---------------------------------------------------------------- entries

/// One point-in-time snapshot of a VM's copy-on-write disk.
#[derive(Debug, Clone)]
pub struct SnapshotEntry {
    pub id: String,
    pub vm_id: String,
    pub created_at: UtcTimestamp,
    pub cow_delta_size: u64,
    pub label: Option<String>,
    pub parent_id: Option<String>,
}

impl SnapshotEntry {
    /// A new entry with a fresh id, stamped with the current time.
    pub fn new(vm_id: String, label: Option<String>, parent_id: Option<String>) -> (e: Self)
        ensures
            e.vm_id == vm_id,
            e.label == label,
            e.parent_id == parent_id,
            e.cow_delta_size == 0,
            is_uuid_v4_text(e.id@),
            e.created_at.secs >= 0 && e.created_at.nanos < 1_000_000_000,
    {
        SnapshotEntry {
            id: new_uuid_v4(),
            vm_id,
            created_at: utc_now(),
            cow_delta_size: 0,
            label,
            parent_id,
        }
    }

    pub fn with_size(self, size: u64) -> (e: Self)
        ensures
            e.cow_delta_size == size,
            e.id == self.id,
            e.vm_id == self.vm_id,
            e.created_at == self.created_at,
            e.label == self.label,
            e.parent_id == self.parent_id,
    {
        let mut e = self;
        e.cow_delta_size = size;
        e
    }

    /// A field-for-field copy.
    pub fn duplicate(&self) -> (e: Self)
        ensures
            e == *self,
    {
        SnapshotEntry {
            id: self.id.clone(),
            vm_id: self.vm_id.clone(),
            created_at: self.created_at,
            cow_delta_size: self.cow_delta_size,
            label: clone_opt_string(&self.label),
            parent_id: clone_opt_string(&self.parent_id),
        }
    }
}

// ---------------------------------------------------------------- history model

/// The parent that the next snapshot of a history gets: the id of the
/// latest one, if there is any.
pub open spec fn parent_for_next(s: Seq<SnapshotEntry>) -> Option<String> {
    if s.len() == 0 {
        None
    } else {
        Some(s.last().id)
    }
}

/// The latest snapshot of a history.
pub open spec fn latest_of(s: Seq<SnapshotEntry>) -> Option<SnapshotEntry> {
    if s.len() == 0 {
        None
    } else {
        Some(s.last())
    }
}

/// Every snapshot names the one before it as its parent; the first has none.
pub open spec fn chain_linked(s: Seq<SnapshotEntry>) -> bool {
    &&& (s.len() > 0 ==> s[0].parent_id is None)
    &&& forall|i: int| 0 < i < s.len() ==> #[trigger] s[i].parent_id == Some(s[i - 1].id)
}

pub open spec fn has_id(s: Seq<SnapshotEntry>, id: Seq<char>) -> bool {
    exists|i: int| 0 <= i < s.len() && #[trigger] s[i].id@ == id
}

/// `i` is the first position whose snapshot carries `id`.
pub open spec fn first_with_id(s: Seq<SnapshotEntry>, id: Seq<char>, i: int) -> bool {
    &&& 0 <= i < s.len()
    &&& s[i].id@ == id
    &&& forall|j: int| 0 <= j < i ==> #[trigger] s[j].id@ != id
}

/// The history after deleting position `i`, as the daemon rewrites it: the
/// entry leaves, and when two or more entries followed it, the slot it left
/// is overwritten by a copy of the second follower whose parent is the first
/// follower (so that follower's own record is lost and the second follower
/// appears twice). With at most one follower it is a plain removal.
pub open spec fn after_delete(s: Seq<SnapshotEntry>, i: int) -> Seq<SnapshotEntry> {
    let t = s.remove(i);
    if i + 1 < t.len() {
        t.update(i, SnapshotEntry { parent_id: Some(t[i].id), ..t[i + 1] })
    } else {
        t
    }
}

// ---------------------------------------------------------------- operations

/// Appends a new snapshot to a VM's history; its parent is the previously
/// latest snapshot.
pub fn record_snapshot(
    snapshots: &mut Vec<SnapshotEntry>,
    vm_id: String,
    label: Option<String>,
) -> (e: SnapshotEntry)
    ensures
        e.vm_id == vm_id,
        e.label == label,
        e.cow_delta_size == 0,
        e.parent_id == parent_for_next(old(snapshots)@),
        is_uuid_v4_text(e.id@),
        final(snapshots)@ == old(snapshots)@.push(e),
{
    let n = snapshots.len();
    let parent_id = if n == 0 {
        None
    } else {
        Some(snapshots[n - 1].id.clone())
    };
    let entry = SnapshotEntry::new(vm_id, label, parent_id);
    snapshots.push(entry.duplicate());
    entry
}

/// The history, or `None` when the VM has no snapshot.
pub fn snapshot_history(snapshots: Vec<SnapshotEntry>) -> (r: Option<Vec<SnapshotEntry>>)
    ensures
        r is None <==> snapshots@.len() == 0,
        r is Some ==> r->0@ == snapshots@,
{
    if snapshots.len() == 0 {
        None
    } else {
        Some(snapshots)
    }
}

/// The latest snapshot of a history.
pub fn latest_snapshot(snapshots: &Vec<SnapshotEntry>) -> (r: Option<SnapshotEntry>)
    ensures
        r == latest_of(snapshots@),
{
    let n = snapshots.len();
    if n == 0 {
        None
    } else {
        Some(snapshots[n - 1].duplicate())
    }
}

/// The first position whose snapshot carries `snapshot_id`.
pub fn position_of(snapshots: &Vec<SnapshotEntry>, snapshot_id: &str) -> (r: Option<usize>)
    ensures
        match r {
            Some(i) => first_with_id(snapshots@, snapshot_id@, i as int),
            None => !has_id(snapshots@, snapshot_id@),
        },
{
    let mut i: usize = 0;
    while i < snapshots.len()
        invariant
            i <= snapshots@.len(),
            forall|j: int| 0 <= j < i ==> #[trigger] snapshots@[j].id@ != snapshot_id@,
        decreases snapshots.len() - i,
    {
        if str_eq(snapshots[i].id.as_str(), snapshot_id) {
            return Some(i);
        }
        i = i + 1;
    }
    None
}

/// The snapshot with the given id, the first one if several share it.
pub fn find_snapshot(snapshots: &Vec<SnapshotEntry>, snapshot_id: &str) -> (r: Option<SnapshotEntry>)
    ensures
        match r {
            Some(e) => exists|i: int| first_with_id(snapshots@, snapshot_id@, i) && e == snapshots@[i],
            None => !has_id(snapshots@, snapshot_id@),
        },
{
    match position_of(snapshots, snapshot_id) {
        Some(i) => Some(snapshots[i].duplicate()),
        None => None,
    }
}

/// Deletes a snapshot from a VM's history and rewrites the slot it left as
/// `after_delete` says.
pub fn remove_snapshot(snapshots: &mut Vec<SnapshotEntry>, snapshot_id: &str) -> (r: Result<(), String>)
    ensures
        old(snapshots)@.len() == 0 ==> {
            &&& r is Err
            &&& r->Err_0@ == "VM not found"@
            &&& final(snapshots)@ == old(snapshots)@
        },
        old(snapshots)@.len() > 0 && !has_id(old(snapshots)@, snapshot_id@) ==> {
            &&& r is Err
            &&& r->Err_0@ == "Snapshot not found"@
            &&& final(snapshots)@ == old(snapshots)@
        },
        has_id(old(snapshots)@, snapshot_id@) ==> {
            &&& r is Ok
            &&& exists|i: int|
                first_with_id(old(snapshots)@, snapshot_id@, i) && final(snapshots)@ == after_delete(
                    old(snapshots)@,
                    i,
                )
        },
{
    if snapshots.len() == 0 {
        return Err(to_owned_string("VM not found"));
    }
    let index = match position_of(snapshots, snapshot_id) {
        Some(i) => i,
        None => {
            return Err(to_owned_string("Snapshot not found"));
        },
    };
    let ghost s0 = snapshots@;
    snapshots.remove(index);
    if index < snapshots.len() {
        let next_id = snapshots[index].id.clone();
        if index + 1 < snapshots.len() {
            let mut np = snapshots[index + 1].duplicate();
            np.parent_id = Some(next_id);
            snapshots.set(index, np);
        }
    }
    assert(snapshots@ == after_delete(s0, index as int));
    Ok(())
}

/// Parses a snapshot reference of the form `snap:N`.
pub fn parse_snapshot_ref(reference: &str) -> (r: Result<usize, String>)
    ensures
        !is_prefix("snap:"@, reference@) ==> r is Err && r->Err_0@
            == "Invalid snapshot ref. Use snap:N"@,
        is_prefix("snap:"@, reference@) && !parses_unsigned(
            reference@.skip("snap:"@.len() as int),
            usize::MAX as nat,
        ) ==> r is Err && r->Err_0@ == "Invalid snapshot index"@,
        is_prefix("snap:"@, reference@) && parses_unsigned(
            reference@.skip("snap:"@.len() as int),
            usize::MAX as nat,
        ) ==> r is Ok && r->Ok_0 as nat == digits_value(
            unsigned_body(reference@.skip("snap:"@.len() as int)),
        ),
{
    match strip_prefix(reference, "snap:") {
        None => Err(to_owned_string("Invalid snapshot ref. Use snap:N")),
        Some(rest) => match parse_usize(rest.as_str()) {
            Some(n) => Ok(n),
            None => Err(to_owned_string("Invalid snapshot index")),
        },
    }
}

// ---------------------------------------------------------------- laws

/// The reference `snap:N` written for a position `N` reads back as `N`:
/// it has the `snap:` prefix, and what follows is a `usize` in decimal whose
/// value is `N` (so `parse_snapshot_ref` gives `Ok(N)` for it).
pub proof fn law_snapshot_ref_reads_back(n: usize)
    ensures
        ({
            let reference = "snap:"@ + dec(n as nat);
            &&& is_prefix("snap:"@, reference)
            &&& parses_unsigned(reference.skip("snap:"@.len() as int), usize::MAX as nat)
            &&& digits_value(unsigned_body(reference.skip("snap:"@.len() as int))) == n
        }),
{
    reveal_strlit("snap:");
    let reference = "snap:"@ + dec(n as nat);
    lemma_dec_reads_back(n as nat);
    assert(reference.take(5) =~= "snap:"@);
    assert(reference.skip(5) =~= dec(n as nat));
}

/// Recording a snapshot keeps a linked history linked: the new entry's
/// parent is the previous latest entry.
pub proof fn law_record_keeps_chain(s: Seq<SnapshotEntry>, e: SnapshotEntry)
    requires
        chain_linked(s),
        e.parent_id == parent_for_next(s),
    ensures
        chain_linked(s.push(e)),
{
    let t = s.push(e);
    assert forall|i: int| 0 < i < t.len() implies #[trigger] t[i].parent_id == Some(t[i - 1].id) by {
        if i < s.len() {
            assert(t[i] == s[i]);
            assert(t[i - 1] == s[i - 1]);
        }
    }
}

/// After a snapshot is recorded, the latest snapshot is that one.
pub proof fn law_latest_after_record(s: Seq<SnapshotEntry>, e: SnapshotEntry)
    ensures
        latest_of(s.push(e)) == Some(e),
{
}

/// A deletion always removes exactly one entry.
pub proof fn law_delete_shrinks_by_one(s: Seq<SnapshotEntry>, i: int)
    requires
        0 <= i < s.len(),
    ensures
        after_delete(s, i).len() == s.len() - 1,
{
}

/// Deleting leaves the entries before the deleted one as they were, shifts
/// the ones after it down by one, and rewrites only the slot it left: with
/// two or more followers, that slot holds the second follower with the first
/// follower as its parent.
pub proof fn law_delete_rewrites_one_slot(s: Seq<SnapshotEntry>, i: int)
    requires
        0 <= i < s.len(),
    ensures
        ({
            let t = after_delete(s, i);
            &&& forall|j: int| 0 <= j < i ==> #[trigger] t[j] == s[j]
            &&& forall|j: int| i < j < t.len() ==> #[trigger] t[j] == s[j + 1]
            &&& i + 2 < s.len() ==> t[i] == SnapshotEntry { parent_id: Some(s[i + 1].id), ..s[i + 2] }
            &&& i + 2 >= s.len() && i < t.len() ==> t[i] == s[i + 1]
        }),
{
}

/// Deleting one of the last two snapshots is a plain removal.
pub proof fn law_delete_near_tail_is_removal(s: Seq<SnapshotEntry>, i: int)
    requires
        0 <= i < s.len(),
        i + 2 >= s.len(),
    ensures
        after_delete(s, i) == s.remove(i),
{
}

/// Deleting the latest snapshot keeps a linked history linked.
pub proof fn law_delete_latest_keeps_chain(s: Seq<SnapshotEntry>)
    requires
        chain_linked(s),
        s.len() > 0,
    ensures
        chain_linked(after_delete(s, s.len() - 1)),
{
    let t = after_delete(s, s.len() - 1);
    assert(t == s.remove(s.len() - 1));
    assert forall|i: int| 0 < i < t.len() implies #[trigger] t[i].parent_id == Some(t[i - 1].id) by {
        assert(t[i] == s[i]);
        assert(t[i - 1] == s[i - 1]);
    }
    if t.len() > 0 {
        assert(t[0] == s[0]);
    }
}

} // verus!
