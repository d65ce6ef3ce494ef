//! Periodic snapshots: the registry of running snapshot tasks, and one tick
//! of a task (take a snapshot, prune the oldest beyond the retention count).
use vstd::prelude::*;

use crate::clock::{utc_in_range, utc_now, UtcTimestamp, MAX_UTC_SECS};
use crate::str_map::StrMap;
use crate::text::{push_str, seq_lt, to_owned_string};
use crate::timemachine::{
    after_delete, is_uuid_v4_text, parent_for_next, record_snapshot, remove_snapshot, SnapshotEntry,
};

verus! {

/// The text that `chrono` renders for the UTC instant `secs` seconds and
/// `nanos` nanoseconds after the epoch under the format `pattern`.
pub uninterp spec fn utc_text(secs: i64, nanos: u32, pattern: Seq<char>) -> Seq<char>;

/// `chrono`'s `DateTime::from_timestamp(secs, nanos)` followed by
/// `format(pattern).to_string()`. For an instant between the epoch and the
/// end of the year 9999 `from_timestamp` gives a date, and the one pattern
/// admitted here has no item that fails to render, so the text is what
/// `utc_text` names: it depends on the three arguments alone (the instant is
/// UTC, no time zone or locale enters).
#[verifier::external_body]
fn format_utc(secs: i64, nanos: u32, pattern: &str) -> (s: String)
    requires
        0 <= secs <= MAX_UTC_SECS,
        nanos < 1_000_000_000,
        pattern@ == "%Y%m%d-%H%M%S"@,
    ensures
        s@ == utc_text(secs, nanos, pattern@),
{
    match chrono::DateTime::from_timestamp(secs, nanos) {
        Some(d) => d.format(pattern).to_string(),
        None => String::new(),
    }
}

/// The pattern of the time in an automatic label: year, month, day, a dash,
/// hour, minute, second.
pub open spec fn label_pattern() -> Seq<char> {
    "%Y%m%d-%H%M%S"@
}

/// The label an automatic snapshot taken at `t` gets: `auto-` and the time.
pub fn auto_label_at(t: UtcTimestamp) -> (r: String)
    requires
        utc_in_range(t),
    ensures
        r@ == "auto-"@ + utc_text(t.secs, t.nanos, label_pattern()),
{
    let mut r = to_owned_string("auto-");
    let text = format_utc(t.secs, t.nanos, "%Y%m%d-%H%M%S");
    push_str(&mut r, text.as_str());
    r
}

/// The label of an automatic snapshot: the configured one, else `auto-`
/// followed by the current time.
pub fn auto_snapshot_label(label: Option<String>) -> (r: String)
    ensures
        label is Some ==> r == label->0,
        label is None ==> exists|t: UtcTimestamp|
            utc_in_range(t) && r@ == "auto-"@ + #[trigger] utc_text(t.secs, t.nanos, label_pattern()),
{
    match label {
        Some(l) => l,
        None => auto_label_at(utc_now()),
    }
}

/// The history after one tick: the new snapshot appended, then, when the
/// history holds more than `retain_count` entries, the oldest deleted.
pub open spec fn after_tick(s: Seq<SnapshotEntry>, e: SnapshotEntry, retain_count: nat) -> Seq<SnapshotEntry> {
    let t = s.push(e);
    if t.len() > retain_count {
        after_delete(t, 0)
    } else {
        t
    }
}

/// One tick of a snapshot task for VM `vm_id`.
pub fn auto_snapshot_tick(
    snapshots: &mut Vec<SnapshotEntry>,
    vm_id: String,
    label: String,
    retain_count: usize,
) -> (e: SnapshotEntry)
    ensures
        e.vm_id == vm_id,
        e.label == Some(label),
        e.parent_id == parent_for_next(old(snapshots)@),
        is_uuid_v4_text(e.id@),
        final(snapshots)@ == after_tick(old(snapshots)@, e, retain_count as nat),
{
    let e = record_snapshot(snapshots, vm_id, Some(label));
    let ghost t = snapshots@;
    if snapshots.len() > retain_count {
        let oldest = snapshots[0].id.clone();
        let r = remove_snapshot(snapshots, oldest.as_str());
        proof {
            assert(t[0].id@ == oldest@);
            assert(crate::timemachine::has_id(t, oldest@));
            let i = choose|i: int|
                crate::timemachine::first_with_id(t, oldest@, i) && snapshots@ == after_delete(t, i);
            assert(i == 0);
        }
    }
    e
}

/// A tick on a history within the retention count leaves it within the
/// count: one more entry while there is room, exactly `retain_count` after.
pub proof fn law_tick_respects_retention(s: Seq<SnapshotEntry>, e: SnapshotEntry, retain_count: nat)
    requires
        s.len() <= retain_count,
    ensures
        after_tick(s, e, retain_count).len() <= retain_count,
        after_tick(s, e, retain_count).len() == if s.len() < retain_count {
            s.len() + 1
        } else {
            retain_count
        },
{
}

/// Pruning a history of three or more rewrites only its first slot: the
/// entries after it are the later entries in order, and the first slot holds
/// the third entry with the second one as its parent.
pub proof fn law_tick_prunes_the_oldest_slot(s: Seq<SnapshotEntry>, e: SnapshotEntry, retain_count: nat)
    requires
        s.len() + 1 > retain_count,
    ensures
        ({
            let t = s.push(e);
            let r = after_tick(s, e, retain_count);
            &&& r.len() == s.len()
            &&& forall|j: int| 0 < j < r.len() ==> #[trigger] r[j] == t[j + 1]
            &&& t.len() >= 3 ==> r[0] == SnapshotEntry { parent_id: Some(t[1].id), ..t[2] }
        }),
{
    let t = s.push(e);
    crate::timemachine::law_delete_rewrites_one_slot(t, 0);
}

/// The snapshot tasks that are running, by VM id, each with the handle that
/// stops it.
pub struct SnapshotTaskRegistry<T> {
    tasks: StrMap<T>,
}

impl<T> View for SnapshotTaskRegistry<T> {
    type V = Map<Seq<char>, T>;

    closed spec fn view(&self) -> Map<Seq<char>, T> {
        self.tasks@
    }
}

impl<T> SnapshotTaskRegistry<T> {
    pub closed spec fn wf(&self) -> bool {
        self.tasks.wf()
    }

    pub fn new() -> (r: Self)
        ensures
            r.wf(),
            r@ == Map::<Seq<char>, T>::empty(),
    {
        SnapshotTaskRegistry { tasks: StrMap::new() }
    }

    /// Registers the task of VM `vm_id`; a VM has at most one task, so a
    /// second start is refused and the registry is left as it was.
    pub fn start_task(&mut self, vm_id: &str, stop: T) -> (r: Result<(), String>)
        requires
            old(self).wf(),
        ensures
            final(self).wf(),
            old(self)@.contains_key(vm_id@) ==> r is Err && r->Err_0@
                == "Auto-snapshot task already running for VM "@ + vm_id@ && final(self)@ == old(self)@,
            !old(self)@.contains_key(vm_id@) ==> r is Ok && final(self)@ == old(self)@.insert(vm_id@, stop),
    {
        if self.tasks.contains_key(vm_id) {
            let mut m = to_owned_string("Auto-snapshot task already running for VM ");
            push_str(&mut m, vm_id);
            return Err(m);
        }
        self.tasks.insert(vm_id, stop);
        Ok(())
    }

    /// Unregisters the task of VM `vm_id` and hands back its stop handle.
    pub fn stop_task(&mut self, vm_id: &str) -> (r: Result<T, String>)
        requires
            old(self).wf(),
        ensures
            final(self).wf(),
            final(self)@ == old(self)@.remove(vm_id@),
            old(self)@.contains_key(vm_id@) ==> r is Ok && r->Ok_0 == old(self)@[vm_id@],
            !old(self)@.contains_key(vm_id@) ==> r is Err && r->Err_0@ == "No auto-snapshot task found for VM "@
                + vm_id@,
    {
        match self.tasks.remove(vm_id) {
            Some(t) => Ok(t),
            None => {
                let mut m = to_owned_string("No auto-snapshot task found for VM ");
                push_str(&mut m, vm_id);
                Err(m)
            },
        }
    }

    pub fn is_running(&self, vm_id: &str) -> (b: bool)
        requires
            self.wf(),
        ensures
            b == self@.contains_key(vm_id@),
    {
        self.tasks.contains_key(vm_id)
    }

    /// The VMs with a running task, in increasing order of their ids.
    pub fn list_running(&self) -> (r: Vec<String>)
        requires
            self.wf(),
        ensures
            r@.len() == self@.dom().len(),
            forall|i: int| 0 <= i < r@.len() ==> self@.contains_key(#[trigger] r@[i]@),
            forall|k: Seq<char>| #[trigger] self@.contains_key(k) ==> exists|i: int| 0 <= i < r@.len() && r@[i]@ == k,
            forall|i: int, j: int| 0 <= i < j < r@.len() ==> seq_lt(#[trigger] r@[i]@, #[trigger] r@[j]@),
    {
        let pairs = self.tasks.iter_pairs();
        proof {
            self.tasks.lemma_key_seq();
        }
        let mut r: Vec<String> = Vec::new();
        let mut i: usize = 0;
        while i < pairs.len()
            invariant
                i <= pairs@.len(),
                r@.len() == i,
                pairs@.len() == self.tasks.key_seq().len(),
                forall|j: int| 0 <= j < pairs@.len() ==> pairs@[j].0@ == #[trigger] self.tasks.key_seq()[j],
                forall|j: int| 0 <= j < i ==> r@[j]@ == #[trigger] self.tasks.key_seq()[j],
            decreases pairs.len() - i,
        {
            r.push(pairs[i].0.clone());
            i = i + 1;
        }
        proof {
            let ks = self.tasks.key_seq();
            assert forall|j: int| 0 <= j < r@.len() implies self@.contains_key(#[trigger] r@[j]@) by {
                assert(r@[j]@ == ks[j]);
                assert(ks.contains(ks[j]));
            }
            assert forall|k: Seq<char>| #[trigger] self@.contains_key(k) implies exists|i: int| 0 <= i < r@.len() && r@[i]@ == k by {
                assert(ks.contains(k));
                let t = choose|t: int| 0 <= t < ks.len() && ks[t] == k;
                assert(r@[t]@ == k);
            }
            assert forall|a: int, b: int| 0 <= a < b < r@.len() implies seq_lt(#[trigger] r@[a]@, #[trigger] r@[b]@) by {
                assert(r@[a]@ == ks[a]);
                assert(r@[b]@ == ks[b]);
            }
        }
        r
    }
}

/// Starting a task for a VM that has one changes nothing; stopping a task
/// that was just started hands back its handle and restores the registry.
pub proof fn law_start_then_stop<T>(m: Map<Seq<char>, T>, vm_id: Seq<char>, stop: T)
    requires
        !m.contains_key(vm_id),
    ensures
        m.insert(vm_id, stop).contains_key(vm_id),
        m.insert(vm_id, stop)[vm_id] == stop,
        m.insert(vm_id, stop).remove(vm_id) == m,
{
    assert(m.insert(vm_id, stop).remove(vm_id) =~= m);
}

} // verus!
