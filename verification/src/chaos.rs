//! Crash injection for resilience testing: crash points are switched on by
//! marker files named `enable_crash_<point>` in the data directory.
use vstd::prelude::*;

use crate::str_map::StrMap;
use crate::auth::{trim_range, trimmed};
use crate::swarm::network_plan::{host_of, host_part};
use crate::text::{contains_str, has_infix, is_prefix, push_str, starts_with, strip_prefix, to_owned_string};

verus! {

/// The crash point a marker file name switches on, if it is a marker.
pub open spec fn crash_point_of(name: Seq<char>) -> Option<Seq<char>> {
    if is_prefix("enable_crash_"@, name) {
        Some(name.skip("enable_crash_"@.len() as int))
    } else {
        None
    }
}

/// The crash points found in the data directory.
pub struct ChaosState {
    crash_points: StrMap<()>,
}

impl View for ChaosState {
    type V = Set<Seq<char>>;

    closed spec fn view(&self) -> Set<Seq<char>> {
        self.crash_points@.dom()
    }
}

impl ChaosState {
    pub closed spec fn wf(&self) -> bool {
        self.crash_points.wf()
    }

    pub fn new() -> (c: Self)
        ensures
            c.wf(),
            c@ == Set::<Seq<char>>::empty(),
    {
        ChaosState { crash_points: StrMap::new() }
    }

    /// Replaces the crash points by those that the directory entries
    /// `names` switch on; returns whether any is on.
    pub fn scan_crash_points(&mut self, names: &Vec<String>) -> (any: bool)
        requires
            old(self).wf(),
        ensures
            final(self).wf(),
            forall|p: Seq<char>| final(self)@.contains(p) <==> exists|i: int|
                0 <= i < names@.len() && #[trigger] crash_point_of(names@[i]@) == Some(p),
            any == (final(self)@.len() > 0),
    {
        let mut points: StrMap<()> = StrMap::new();
        let mut i: usize = 0;
        while i < names.len()
            invariant
                points.wf(),
                i <= names@.len(),
                forall|p: Seq<char>| points@.contains_key(p) <==> exists|j: int|
                    0 <= j < i && #[trigger] crash_point_of(names@[j]@) == Some(p),
            decreases names.len() - i,
        {
            match strip_prefix(names[i].as_str(), "enable_crash_") {
                Some(point) => {
                    points.insert(point.as_str(), ());
                },
                None => {},
            }
            proof {
                assert forall|p: Seq<char>| points@.contains_key(p) <==> exists|j: int|
                    0 <= j < i + 1 && #[trigger] crash_point_of(names@[j]@) == Some(p) by {
                    if points@.contains_key(p) && crash_point_of(names@[i as int]@) != Some(p) {
                        let j = choose|j: int| 0 <= j < i && #[trigger] crash_point_of(names@[j]@) == Some(p);
                    }
                    if exists|j: int| 0 <= j < i + 1 && #[trigger] crash_point_of(names@[j]@) == Some(p) {
                        let j = choose|j: int| 0 <= j < i + 1 && #[trigger] crash_point_of(names@[j]@) == Some(p);
                        if j < i {
                        }
                    }
                }
            }
            i = i + 1;
        }
        self.crash_points = points;
        proof {
            self.crash_points.lemma_key_seq();
        }
        let n = self.crash_points.len();
        n > 0
    }

    pub fn check_crash_point(&self, point: &str) -> (b: bool)
        requires
            self.wf(),
        ensures
            b == self@.contains(point@),
    {
        self.crash_points.contains_key(point)
    }

    /// Whether to crash at `point`: only while chaos mode is on.
    pub fn should_crash(&self, chaos_enabled: bool, point: &str) -> (b: bool)
        requires
            self.wf(),
        ensures
            b == (chaos_enabled && self@.contains(point@)),
    {
        if !chaos_enabled {
            return false;
        }
        self.check_crash_point(point)
    }
}

/// Whether any directory entry is a crash marker, which switches chaos mode
/// on at startup.
pub fn any_crash_marker(names: &Vec<String>) -> (b: bool)
    ensures
        b == exists|i: int| 0 <= i < names@.len() && #[trigger] crash_point_of(names@[i]@) is Some,
{
    let mut i: usize = 0;
    while i < names.len()
        invariant
            i <= names@.len(),
            forall|j: int| 0 <= j < i ==> #[trigger] crash_point_of(names@[j]@) is None,
        decreases names.len() - i,
    {
        if starts_with(names[i].as_str(), "enable_crash_") {
            assert(crash_point_of(names@[i as int]@) is Some);
            return true;
        }
        i = i + 1;
    }
    false
}

// ---------------------------------------------------------------- leftovers

/// Which host objects count as left over by VMs, by the kind of name.
#[derive(Debug, Clone, Copy, PartialEq, Eq, Structural)]
pub enum NameRule {
    /// A network interface: `tap…`, or any name with `vyoma` in it.
    Interface,
    /// A mapper device or namespace: `vyoma-…`, or any name with `vm-` in it.
    VmNamed,
    /// A line of `losetup -a`: one that mentions `vyoma` or `vm-`.
    LoopLine,
    /// A cgroup: `vyoma-…` or `vm-…`.
    Cgroup,
}

pub open spec fn rule_holds(rule: NameRule, n: Seq<char>) -> bool {
    match rule {
        NameRule::Interface => is_prefix("tap"@, n) || has_infix(n, "vyoma"@),
        NameRule::VmNamed => is_prefix("vyoma-"@, n) || has_infix(n, "vm-"@),
        NameRule::LoopLine => has_infix(n, "vyoma"@) || has_infix(n, "vm-"@),
        NameRule::Cgroup => is_prefix("vyoma-"@, n) || is_prefix("vm-"@, n),
    }
}

/// How a kept name is reported: a loop line without its surrounding
/// whitespace, any other name as it is.
pub open spec fn reported_text(rule: NameRule, n: Seq<char>) -> Seq<char> {
    if rule == NameRule::LoopLine {
        trimmed(n)
    } else {
        n
    }
}

/// The report lines for the names that `rule` keeps, in order, each after
/// `prefix`.
pub open spec fn report_of(names: Seq<Seq<char>>, rule: NameRule, prefix: Seq<char>) -> Seq<Seq<char>>
    decreases names.len(),
{
    if names.len() == 0 {
        seq![]
    } else {
        let rest = report_of(names.drop_last(), rule, prefix);
        if rule_holds(rule, names.last()) {
            rest.push(prefix + reported_text(rule, names.last()))
        } else {
            rest
        }
    }
}

pub open spec fn texts(v: Seq<String>) -> Seq<Seq<char>> {
    v.map_values(|s: String| s@)
}

fn rule_check(rule: NameRule, n: &str) -> (b: bool)
    ensures
        b == rule_holds(rule, n@),
{
    match rule {
        NameRule::Interface => starts_with(n, "tap") || contains_str(n, "vyoma"),
        NameRule::VmNamed => starts_with(n, "vyoma-") || contains_str(n, "vm-"),
        NameRule::LoopLine => contains_str(n, "vyoma") || contains_str(n, "vm-"),
        NameRule::Cgroup => starts_with(n, "vyoma-") || starts_with(n, "vm-"),
    }
}

fn append_report(out: &mut Vec<String>, names: &Vec<String>, rule: NameRule, prefix: &str)
    ensures
        texts(final(out)@) == texts(old(out)@) + report_of(texts(names@), rule, prefix@),
{
    let ghost start = texts(out@);
    let mut i: usize = 0;
    while i < names.len()
        invariant
            i <= names@.len(),
            texts(out@) == start + report_of(texts(names@.take(i as int)), rule, prefix@),
        decreases names@.len() - i,
    {
        let ghost before = texts(out@);
        assert(texts(names@.take(i + 1)).drop_last() =~= texts(names@.take(i as int)));
        assert(texts(names@.take(i + 1)).last() == names@[i as int]@);
        let n = names[i].as_str();
        if rule_check(rule, n) {
            let mut line = to_owned_string(prefix);
            if rule == NameRule::LoopLine {
                let (a, b) = trim_range(n, 0, n.unicode_len());
                assert(n@.subrange(0, n@.len() as int) =~= n@);
                push_str(&mut line, n.substring_char(a, b));
            } else {
                push_str(&mut line, n);
            }
            out.push(line);
            assert(texts(out@) =~= before.push(line@));
        }
        i = i + 1;
    }
    assert(names@.take(names@.len() as int) =~= names@);
}

/// What was found on the host after a test run.
#[derive(Debug, Clone)]
pub struct HostScan {
    /// Entries of `/sys/class/net`.
    pub interfaces: Vec<String>,
    /// Entries of `/dev/mapper`.
    pub mapper_devices: Vec<String>,
    /// Entries of `/var/run/netns`.
    pub namespaces: Vec<String>,
    /// Lines of `losetup -a`.
    pub loop_lines: Vec<String>,
    /// Entries of the `cpu`, `memory`, `devices` and `pids` cgroup
    /// hierarchies.
    pub cpu_cgroups: Vec<String>,
    pub memory_cgroups: Vec<String>,
    pub devices_cgroups: Vec<String>,
    pub pids_cgroups: Vec<String>,
}

/// The resources left over by VMs, one line each, by kind in the order
/// interfaces, mapper devices, namespaces, loop devices, cgroups.
pub open spec fn dangling_report(scan: HostScan) -> Seq<Seq<char>> {
    report_of(texts(scan.interfaces@), NameRule::Interface, "TAP interface: "@)
        + report_of(texts(scan.mapper_devices@), NameRule::VmNamed, "DM device: "@)
        + report_of(texts(scan.namespaces@), NameRule::VmNamed, "Network namespace: "@)
        + report_of(texts(scan.loop_lines@), NameRule::LoopLine, "Loop device: "@)
        + report_of(texts(scan.cpu_cgroups@), NameRule::Cgroup, "Cgroup (cpu) : "@)
        + report_of(texts(scan.memory_cgroups@), NameRule::Cgroup, "Cgroup (memory) : "@)
        + report_of(texts(scan.devices_cgroups@), NameRule::Cgroup, "Cgroup (devices) : "@)
        + report_of(texts(scan.pids_cgroups@), NameRule::Cgroup, "Cgroup (pids) : "@)
}

pub fn check_dangling_resources(scan: &HostScan) -> (r: Vec<String>)
    ensures
        texts(r@) == dangling_report(*scan),
{
    let mut r: Vec<String> = Vec::new();
    append_report(&mut r, &scan.interfaces, NameRule::Interface, "TAP interface: ");
    append_report(&mut r, &scan.mapper_devices, NameRule::VmNamed, "DM device: ");
    append_report(&mut r, &scan.namespaces, NameRule::VmNamed, "Network namespace: ");
    append_report(&mut r, &scan.loop_lines, NameRule::LoopLine, "Loop device: ");
    append_report(&mut r, &scan.cpu_cgroups, NameRule::Cgroup, "Cgroup (cpu) : ");
    append_report(&mut r, &scan.memory_cgroups, NameRule::Cgroup, "Cgroup (memory) : ");
    append_report(&mut r, &scan.devices_cgroups, NameRule::Cgroup, "Cgroup (devices) : ");
    append_report(&mut r, &scan.pids_cgroups, NameRule::Cgroup, "Cgroup (pids) : ");
    assert(texts(Seq::<String>::empty()) =~= Seq::<Seq<char>>::empty());
    r
}

/// The names among `names` that `rule` keeps, in order: what a cleanup
/// after a test run removes.
pub fn leftover_names(names: &Vec<String>, rule: NameRule) -> (r: Vec<String>)
    ensures
        texts(r@) == texts(names@).filter(|n: Seq<char>| rule_holds(rule, n)),
{
    let ghost f = |n: Seq<char>| rule_holds(rule, n);
    let mut r: Vec<String> = Vec::new();
    let mut i: usize = 0;
    while i < names.len()
        invariant
            i <= names@.len(),
            f == (|n: Seq<char>| rule_holds(rule, n)),
            texts(r@) == texts(names@.take(i as int)).filter(f),
        decreases names@.len() - i,
    {
        assert(texts(names@.take(i + 1)).drop_last() =~= texts(names@.take(i as int)));
        assert(texts(names@.take(i + 1)).last() == names@[i as int]@);
        let ghost before = texts(r@);
        if rule_check(rule, names[i].as_str()) {
            r.push(names[i].clone());
            assert(texts(r@) =~= before.push(names@[i as int]@));
        }
        reveal_with_fuel(Seq::filter, 1);
        i = i + 1;
    }
    assert(names@.take(names@.len() as int) =~= names@);
    r
}

/// The loop device a `losetup -a` line names: the text before its first
/// `:`, trimmed; none when that is empty.
pub fn loop_device_of(line: &str) -> (r: Option<String>)
    ensures
        r is Some <==> trimmed(host_of(line@)).len() > 0,
        r matches Some(d) ==> d@ == trimmed(host_of(line@)),
{
    let head = host_part(line);
    let h = head.as_str();
    let (a, b) = trim_range(h, 0, h.unicode_len());
    assert(h@.subrange(0, h@.len() as int) =~= h@);
    if a == b {
        None
    } else {
        Some(to_owned_string(h.substring_char(a, b)))
    }
}

} // verus!
