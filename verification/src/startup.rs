//! Decisions taken when the daemon starts: whether the host has what VMs
//! need, and which web origins may call the API.
use vstd::prelude::*;

use crate::auth::{trim_range, trimmed};
use crate::text::{dec, is_prefix, join_path, path_join, push_str, push_u64, starts_with, str_eq, to_owned_string};

verus! {

/// What was found of the host's dependencies.
#[derive(Debug, Clone, Copy, PartialEq, Eq, Structural)]
pub struct HostFacts {
    /// `which iptables` succeeded.
    pub iptables_on_path: bool,
    pub sbin_iptables: bool,
    pub usr_sbin_iptables: bool,
    pub kvm_device: bool,
    /// `cloud-hypervisor` is in the data directory's `bin`.
    pub bundled_hypervisor: bool,
    /// `cloud-hypervisor` is in `/usr/bin` or `/usr/local/bin`.
    pub system_hypervisor: bool,
}

pub open spec fn missing_iptables(f: HostFacts) -> bool {
    !f.iptables_on_path && !f.sbin_iptables && !f.usr_sbin_iptables
}

pub open spec fn missing_hypervisor(f: HostFacts) -> bool {
    !f.bundled_hypervisor && !f.system_hypervisor
}

/// The missing dependencies, in the order they are checked.
pub open spec fn missing_list(f: HostFacts) -> Seq<Seq<char>> {
    (if missing_iptables(f) {
        seq!["iptables (required for NAT networking)"@]
    } else {
        seq![]
    }) + (if !f.kvm_device {
        seq!["/dev/kvm (KVM kernel module required for virtualization)"@]
    } else {
        seq![]
    }) + (if missing_hypervisor(f) {
        seq!["cloud-hypervisor (not found in data_dir/bin or /usr/bin)"@]
    } else {
        seq![]
    })
}

/// Items joined by a line break and a list bullet.
pub open spec fn bullet_join(items: Seq<Seq<char>>) -> Seq<char>
    decreases items.len(),
{
    if items.len() == 0 {
        seq![]
    } else if items.len() == 1 {
        items[0]
    } else {
        bullet_join(items.drop_last()) + "\n  - "@ + items.last()
    }
}

/// Whether the host can run VMs; when not, the missing dependencies.
pub fn check_dependencies(f: HostFacts) -> (r: Result<(), String>)
    ensures
        missing_list(f).len() == 0 ==> r is Ok,
        missing_list(f).len() > 0 ==> r is Err && r->Err_0@ == bullet_join(missing_list(f)),
{
    let ghost items = missing_list(f);
    let mut out = String::new();
    let mut count: usize = 0;
    let ghost mut seen: Seq<Seq<char>> = seq![];
    if !f.iptables_on_path && !f.sbin_iptables && !f.usr_sbin_iptables {
        push_str(&mut out, "iptables (required for NAT networking)");
        proof {
            seen = seen.push("iptables (required for NAT networking)"@);
            assert(out@ =~= bullet_join(seen));
        }
        count = count + 1;
    }
    if !f.kvm_device {
        if count > 0 {
            push_str(&mut out, "\n  - ");
        }
        push_str(&mut out, "/dev/kvm (KVM kernel module required for virtualization)");
        proof {
            let old_seen = seen;
            seen = seen.push("/dev/kvm (KVM kernel module required for virtualization)"@);
            assert(seen.drop_last() =~= old_seen);
            assert(out@ =~= bullet_join(seen));
        }
        count = count + 1;
    }
    if !f.bundled_hypervisor && !f.system_hypervisor {
        if count > 0 {
            push_str(&mut out, "\n  - ");
        }
        push_str(&mut out, "cloud-hypervisor (not found in data_dir/bin or /usr/bin)");
        proof {
            let old_seen = seen;
            seen = seen.push("cloud-hypervisor (not found in data_dir/bin or /usr/bin)"@);
            assert(seen.drop_last() =~= old_seen);
            assert(out@ =~= bullet_join(seen));
        }
        count = count + 1;
    }
    assert(seen =~= items);
    if count == 0 {
        Ok(())
    } else {
        Err(out)
    }
}

/// Position of the first `,` in `s`, or its length when there is none.
pub open spec fn comma_pos(s: Seq<char>) -> nat
    decreases s.len(),
{
    if s.len() == 0 {
        0
    } else if s[0] == ',' {
        0
    } else {
        1 + comma_pos(s.drop_first())
    }
}

/// The non-empty trimmed entries of a comma-separated list, in order.
pub open spec fn list_entries(s: Seq<char>) -> Seq<Seq<char>>
    decreases s.len(),
{
    let p = comma_pos(s) as int;
    let piece = trimmed(s.take(p));
    let head = if piece.len() > 0 {
        seq![piece]
    } else {
        seq![]
    };
    if p >= s.len() {
        head
    } else {
        head + list_entries(s.skip(p + 1))
    }
}

proof fn lemma_comma_pos(s: Seq<char>, i: int)
    requires
        0 <= i <= s.len(),
        forall|j: int| 0 <= j < i ==> #[trigger] s[j] != ',',
        i == s.len() || s[i] == ',',
    ensures
        comma_pos(s) == i,
    decreases i,
{
    if i > 0 {
        let t = s.drop_first();
        assert forall|j: int| 0 <= j < i - 1 implies #[trigger] t[j] != ',' by {
            assert(t[j] == s[j + 1]);
        }
        lemma_comma_pos(t, i - 1);
    }
}

pub open spec fn origin_views(v: Seq<String>) -> Seq<Seq<char>> {
    v.map_values(|s: String| s@)
}

/// The origins a browser may call the API from: the daemon's own address,
/// the loopback names when the HTTP server is on, and the configured ones.
pub open spec fn allowed_origin_list(bind_ip: Seq<char>, http_port: u16, custom: Option<Seq<char>>) -> Seq<Seq<char>> {
    seq!["http://"@ + bind_ip + ":"@ + dec(http_port as nat)] + (if http_port > 0 {
        seq!["http://localhost:"@ + dec(http_port as nat), "http://127.0.0.1:"@ + dec(http_port as nat)]
    } else {
        seq![]
    }) + match custom {
        Some(c) => list_entries(c),
        None => seq![],
    }
}

/// The daemon's own address is always the first allowed origin; when the
/// HTTP server is on, the loopback origins of the dashboard,
/// `http://localhost:<port>` and `http://127.0.0.1:<port>`, follow it
/// whatever custom origins are configured, and the custom ones come after.
pub proof fn law_loopback_origins_always_allowed(bind_ip: Seq<char>, http_port: u16, custom: Option<Seq<char>>)
    ensures
        ({
            let l = allowed_origin_list(bind_ip, http_port, custom);
            &&& l.len() >= 1
            &&& l[0] == "http://"@ + bind_ip + ":"@ + dec(http_port as nat)
            &&& http_port > 0 ==> l.len() >= 3 && l[1] == "http://localhost:"@ + dec(http_port as nat) && l[2]
                == "http://127.0.0.1:"@ + dec(http_port as nat)
            &&& http_port > 0 ==> l.contains("http://localhost:"@ + dec(http_port as nat)) && l.contains(
                "http://127.0.0.1:"@ + dec(http_port as nat),
            )
            &&& http_port == 0 && custom is None ==> l.len() == 1
            &&& custom matches Some(c) ==> l.skip(if http_port > 0 { 3int } else { 1int }) == list_entries(c)
        }),
{
    let l = allowed_origin_list(bind_ip, http_port, custom);
    if http_port > 0 {
        assert(l[1] == "http://localhost:"@ + dec(http_port as nat));
        assert(l[2] == "http://127.0.0.1:"@ + dec(http_port as nat));
        if let Some(c) = custom {
            assert(l.skip(3) =~= list_entries(c));
        }
    } else {
        if let Some(c) = custom {
            assert(l.skip(1) =~= list_entries(c));
        }
    }
}

fn origin(prefix: &str, http_port: u16) -> (r: String)
    ensures
        r@ == prefix@ + dec(http_port as nat),
{
    let mut r = to_owned_string(prefix);
    push_u64(&mut r, http_port as u64);
    r
}

/// Appends the entries of a comma-separated list.
fn push_list_entries(out: &mut Vec<String>, s: &str)
    ensures
        origin_views(final(out)@) == origin_views(old(out)@) + list_entries(s@),
{
    let n = s.unicode_len();
    let mut start: usize = 0;
    let ghost base = origin_views(out@);
    assert(s@.skip(0) =~= s@);
    assert(origin_views(out@) =~= base + Seq::<Seq<char>>::empty());
    loop
        invariant
            n == s@.len(),
            start <= n,
            base == origin_views(old(out)@),
            base + list_entries(s@) == origin_views(out@) + list_entries(s@.skip(start as int)),
        decreases n - start,
    {
        let mut p: usize = start;
        while p < n && s.get_char(p) != ','
            invariant
                start <= p <= n,
                n == s@.len(),
                forall|j: int| start <= j < p ==> #[trigger] s@[j] != ',',
            decreases n - p,
        {
            p = p + 1;
        }
        let ghost rest = s@.skip(start as int);
        let ghost before = origin_views(out@);
        proof {
            assert forall|j: int| 0 <= j < p - start implies #[trigger] rest[j] != ',' by {
                assert(rest[j] == s@[start + j]);
            }
            lemma_comma_pos(rest, p - start);
            assert(rest.take(p - start) =~= s@.subrange(start as int, p as int));
        }
        let (a, b) = trim_range(s, start, p);
        if a < b {
            let piece = s.substring_char(a, b);
            out.push(to_owned_string(piece));
            assert(origin_views(out@) =~= before.push(trimmed(rest.take(p - start))));
        } else {
            assert(origin_views(out@) =~= before);
        }
        if p == n {
            assert(rest =~= rest.take(p - start));
            assert(base + list_entries(s@) =~= origin_views(out@));
            return;
        }
        assert(rest.skip(p - start + 1) =~= s@.skip(p + 1));
        start = p + 1;
    }
}

pub fn allowed_origins(bind_ip: &str, http_port: u16, custom: Option<&str>) -> (r: Vec<String>)
    ensures
        origin_views(r@) == allowed_origin_list(
            bind_ip@,
            http_port,
            match custom {
                Some(c) => Some(c@),
                None => None,
            },
        ),
        r@.len() >= 1,
        r@[0]@ == "http://"@ + bind_ip@ + ":"@ + dec(http_port as nat),
        http_port > 0 ==> r@.len() >= 3 && r@[1]@ == "http://localhost:"@ + dec(http_port as nat) && r@[2]@
            == "http://127.0.0.1:"@ + dec(http_port as nat),
        http_port == 0 && custom is None ==> r@.len() == 1,
{
    proof {
        law_loopback_origins_always_allowed(
            bind_ip@,
            http_port,
            match custom {
                Some(c) => Some(c@),
                None => None,
            },
        );
    }
    let mut r: Vec<String> = Vec::new();
    let mut first = to_owned_string("http://");
    push_str(&mut first, bind_ip);
    push_str(&mut first, ":");
    push_u64(&mut first, http_port as u64);
    r.push(first);
    if http_port > 0 {
        r.push(origin("http://localhost:", http_port));
        r.push(origin("http://127.0.0.1:", http_port));
    }
    let ghost fixed = origin_views(r@);
    match custom {
        Some(c) => {
            push_list_entries(&mut r, c);
        },
        None => {},
    }
    assert(origin_views(r@) =~= allowed_origin_list(
        bind_ip@,
        http_port,
        match custom {
            Some(c) => Some(c@),
            None => None,
        },
    ));
    r
}

/// Whether the list allows every origin (`*`).
pub fn allows_any_origin(origins: &Vec<String>) -> (b: bool)
    ensures
        b == exists|i: int| 0 <= i < origins@.len() && #[trigger] origins@[i]@ == "*"@,
{
    let mut i: usize = 0;
    while i < origins.len()
        invariant
            i <= origins@.len(),
            forall|j: int| 0 <= j < i ==> #[trigger] origins@[j]@ != "*"@,
        decreases origins.len() - i,
    {
        if str_eq(origins[i].as_str(), "*") {
            return true;
        }
        i = i + 1;
    }
    false
}

/// An address that only this host can reach: `127.*`, `::1` or
/// `localhost`.
pub open spec fn is_local_bind(ip: Seq<char>) -> bool {
    is_prefix("127."@, ip) || ip == "::1"@ || ip == "localhost"@
}

pub fn local_bind(ip: &str) -> (r: bool)
    ensures
        r == is_local_bind(ip@),
{
    starts_with(ip, "127.") || str_eq(ip, "::1") || str_eq(ip, "localhost")
}

/// The warning given when the HTTP server listens at `ip:port` on an
/// address that other hosts can reach; none for a local address.
pub fn bind_warning(ip: &str, port: u16, has_token: bool) -> (r: Option<String>)
    ensures
        is_local_bind(ip@) ==> r is None,
        !is_local_bind(ip@) && !has_token ==> (r matches Some(m) && m@ == "HTTP server bound on non-localhost address "@
            + ip@ + ":"@ + dec(port as nat) + " WITHOUT authentication! Use --api-token for security"@),
        !is_local_bind(ip@) && has_token ==> (r matches Some(m) && m@ == "HTTP server bound on non-localhost address "@
            + ip@ + ":"@ + dec(port as nat) + " with authentication enabled"@),
{
    if local_bind(ip) {
        return None;
    }
    let mut m = to_owned_string("HTTP server bound on non-localhost address ");
    push_str(&mut m, ip);
    push_str(&mut m, ":");
    push_u64(&mut m, port as u64);
    if has_token {
        push_str(&mut m, " with authentication enabled");
    } else {
        push_str(&mut m, " WITHOUT authentication! Use --api-token for security");
    }
    Some(m)
}

/// Where the API socket goes when the configured path cannot be bound:
/// `vyoma.sock` in the user's runtime directory when there is one, else in
/// the temporary directory.
pub fn fallback_socket_path(runtime_dir: Option<&str>, temp_dir: &str) -> (r: String)
    ensures
        r@ == join_path(
            match runtime_dir {
                Some(d) => d@,
                None => temp_dir@,
            },
            "vyoma.sock"@,
        ),
{
    match runtime_dir {
        Some(d) => path_join(d, "vyoma.sock"),
        None => path_join(temp_dir, "vyoma.sock"),
    }
}

} // verus!
