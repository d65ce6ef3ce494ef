//! The answers of the daemon's DNS server: VMs are found by id or hostname,
//! bare or under the `.ignite` domain, and answered with their IPv4 address.
use vstd::prelude::*;

use crate::text::{ends_with, is_suffix, str_eq, to_owned_string};

verus! {

/// `s` with every trailing repetition of `p` removed.
pub open spec fn trim_trailing(s: Seq<char>, p: Seq<char>) -> Seq<char>
    decreases s.len(),
{
    if p.len() > 0 && is_suffix(p, s) {
        trim_trailing(s.take(s.len() - p.len()), p)
    } else {
        s
    }
}

/// The name looked up for a query of `qname`: `.ignite` suffixes, then
/// trailing dots, removed.
pub open spec fn search_name_of(qname: Seq<char>) -> Seq<char> {
    trim_trailing(trim_trailing(qname, ".ignite"@), "."@)
}

/// The server answers A queries for `.ignite` names and for names without
/// a dot.
pub open spec fn answers_query(qname: Seq<char>, is_a_query: bool) -> bool {
    is_a_query && (is_suffix(".ignite"@, qname) || !qname.contains('.'))
}

fn trim_end_matches(s: &str, p: &str) -> (r: String)
    requires
        p@.len() > 0,
    ensures
        r@ == trim_trailing(s@, p@),
{
    let np = p.unicode_len();
    let mut n = s.unicode_len();
    assert(s@.take(n as int) =~= s@);
    while np <= n && ends_with(s.substring_char(0, n), p)
        invariant
            n <= s@.len(),
            np == p@.len(),
            np > 0,
            trim_trailing(s@.take(n as int), p@) == trim_trailing(s@, p@),
        decreases n,
    {
        assert(s@.subrange(0, n as int) =~= s@.take(n as int));
        assert(s@.take(n as int).take(n - np) =~= s@.take(n - np));
        n = n - np;
    }
    let rest = s.substring_char(0, n);
    assert(rest@ =~= s@.take(n as int));
    to_owned_string(rest)
}

fn contains_dot(s: &str) -> (b: bool)
    ensures
        b == s@.contains('.'),
{
    let n = s.unicode_len();
    let mut i: usize = 0;
    while i < n
        invariant
            n == s@.len(),
            i <= n,
            forall|j: int| 0 <= j < i ==> s@[j] != '.',
        decreases n - i,
    {
        if s.get_char(i) == '.' {
            assert(s@[i as int] == '.');
            return true;
        }
        i = i + 1;
    }
    false
}

/// The name to look up for a question, when the server answers it.
pub fn dns_search_name(qname: &str, is_a_query: bool) -> (r: Option<String>)
    ensures
        r is Some <==> answers_query(qname@, is_a_query),
        r is Some ==> r->0@ == search_name_of(qname@),
{
    if !is_a_query {
        return None;
    }
    if !ends_with(qname, ".ignite") && contains_dot(qname) {
        return None;
    }
    proof {
        reveal_strlit(".ignite");
        reveal_strlit(".");
    }
    let a = trim_end_matches(qname, ".ignite");
    Some(trim_end_matches(a.as_str(), "."))
}

// ---------------------------------------------------------------- IPv4 text

pub open spec fn is_digit(c: char) -> bool {
    '0' <= c && c <= '9'
}

pub open spec fn digit_value(c: char) -> nat {
    ((c as u32) - 48) as nat
}

/// Value of a run of decimal digits.
pub open spec fn digits_value(s: Seq<char>) -> nat
    decreases s.len(),
{
    if s.len() == 0 {
        0
    } else {
        digits_value(s.drop_last()) * 10 + digit_value(s.last())
    }
}

/// A dotted-quad part: one to three digits, no leading zero, at most 255.
pub open spec fn octet_text(s: Seq<char>) -> bool {
    &&& 1 <= s.len() <= 3
    &&& forall|i: int| 0 <= i < s.len() ==> #[trigger] is_digit(s[i])
    &&& (s.len() > 1 ==> s[0] != '0')
    &&& digits_value(s) <= 255
}

/// `s` is the text of the IPv4 address `a.b.c.d`, the form std's
/// `Ipv4Addr` parser accepts.
pub open spec fn ipv4_text(s: Seq<char>, a: u8, b: u8, c: u8, d: u8) -> bool {
    exists|i: int, j: int, k: int|
        0 <= i < j < k < s.len() && s[i] == '.' && s[j] == '.' && s[k] == '.' && #[trigger] octet_text(
            s.take(i),
        ) && #[trigger] octet_text(s.subrange(i + 1, j)) && #[trigger] octet_text(s.subrange(j + 1, k))
            && #[trigger] octet_text(s.skip(k + 1)) && digits_value(s.take(i)) == a && digits_value(
            s.subrange(i + 1, j),
        ) == b && digits_value(s.subrange(j + 1, k)) == c && digits_value(s.skip(k + 1)) == d
}

/// Reads one octet from `s[lo..hi]`.
fn parse_octet(s: &str, lo: usize, hi: usize) -> (r: Option<u8>)
    requires
        lo <= hi <= s@.len(),
    ensures
        match r {
            Some(v) => octet_text(s@.subrange(lo as int, hi as int)) && v == digits_value(
                s@.subrange(lo as int, hi as int),
            ),
            None => !octet_text(s@.subrange(lo as int, hi as int)),
        },
{
    let ghost t = s@.subrange(lo as int, hi as int);
    let len = hi - lo;
    if len < 1 || len > 3 {
        return None;
    }
    if len > 1 && s.get_char(lo) == '0' {
        assert(t[0] == '0');
        return None;
    }
    let mut v: u32 = 0;
    let mut i: usize = lo;
    assert(t.take(0) =~= Seq::<char>::empty());
    while i < hi
        invariant
            lo <= i <= hi,
            hi <= s@.len(),
            hi - lo <= 3,
            t == s@.subrange(lo as int, hi as int),
            forall|j: int| 0 <= j < i - lo ==> #[trigger] is_digit(t[j]),
            v == digits_value(t.take(i - lo)),
            i - lo == 0 ==> v == 0,
            i - lo == 1 ==> v <= 9,
            i - lo == 2 ==> v <= 99,
            v <= 999,
        decreases hi - i,
    {
        let c = s.get_char(i);
        if !('0' <= c && c <= '9') {
            assert(t[i - lo] == c);
            assert(!is_digit(t[i - lo]));
            return None;
        }
        assert(t.take(i - lo + 1).drop_last() =~= t.take(i - lo));
        assert(t.take(i - lo + 1).last() == c);
        v = v * 10 + (c as u32 - 48);
        i = i + 1;
    }
    assert(t.take(hi - lo) =~= t);
    if v > 255 {
        return None;
    }
    Some(v as u8)
}

/// Parses dotted-quad IPv4 text.
pub fn parse_ipv4(s: &str) -> (r: Option<(u8, u8, u8, u8)>)
    ensures
        match r {
            Some(q) => ipv4_text(s@, q.0, q.1, q.2, q.3),
            None => forall|a: u8, b: u8, c: u8, d: u8| !ipv4_text(s@, a, b, c, d),
        },
{
    let n = s.unicode_len();
    let mut dots: Vec<usize> = Vec::new();
    let mut i: usize = 0;
    while i < n
        invariant
            n == s@.len(),
            i <= n,
            dots@.len() <= 4,
            forall|k: int| 0 <= k < dots@.len() ==> #[trigger] dots@[k] < i && s@[dots@[k] as int] == '.',
            forall|k: int, l: int| 0 <= k < l < dots@.len() ==> #[trigger] dots@[k] < #[trigger] dots@[l],
            forall|j: int|
                0 <= j < i && s@[j] == '.' ==> exists|k: int| 0 <= k < dots@.len() && #[trigger] dots@[k] == j,
            dots@.len() < 4,
        decreases n - i,
    {
        let ghost d0 = dots@;
        if s.get_char(i) == '.' {
            if dots.len() == 3 {
                proof {
                    lemma_four_dots_reject(s@, dots@, i as int);
                }
                return None;
            }
            dots.push(i);
            assert(dots@[dots@.len() - 1] == i);
        }
        proof {
            assert forall|j: int|
                0 <= j < i + 1 && s@[j] == '.' implies exists|k: int| 0 <= k < dots@.len() && #[trigger] dots@[k] == j by {
                if j < i {
                    let k = choose|k: int| 0 <= k < d0.len() && #[trigger] d0[k] == j;
                    assert(dots@[k] == j);
                } else {
                    assert(dots@[dots@.len() - 1] == j);
                }
            }
        }
        i = i + 1;
    }
    if dots.len() != 3 {
        proof {
            lemma_too_few_dots_reject(s@, dots@);
        }
        return None;
    }
    let d0 = dots[0];
    let d1 = dots[1];
    let d2 = dots[2];
    let a = parse_octet(s, 0, d0);
    let b = parse_octet(s, d0 + 1, d1);
    let c = parse_octet(s, d1 + 1, d2);
    let d = parse_octet(s, d2 + 1, n);
    proof {
        assert(s@.subrange(0, d0 as int) =~= s@.take(d0 as int));
        assert(s@.subrange(d2 + 1, n as int) =~= s@.skip(d2 + 1));
    }
    match (a, b, c, d) {
        (Some(a), Some(b), Some(c), Some(d)) => {
            assert(octet_text(s@.take(d0 as int)));
            assert(octet_text(s@.subrange(d0 + 1, d1 as int)));
            assert(octet_text(s@.subrange(d1 + 1, d2 as int)));
            assert(octet_text(s@.skip(d2 + 1)));
            Some((a, b, c, d))
        },
        _ => {
            proof {
                lemma_three_dots_reject(s@, d0 as int, d1 as int, d2 as int);
            }
            None
        },
    }
}

proof fn lemma_octet_has_no_dot(t: Seq<char>)
    requires
        octet_text(t),
    ensures
        !t.contains('.'),
{
    if t.contains('.') {
        let j = choose|j: int| 0 <= j < t.len() && t[j] == '.';
        assert(is_digit(t[j]));
    }
}

/// In a valid address text, the dots are exactly at `i`, `j` and `k`.
proof fn lemma_dots_of_valid(s: Seq<char>, i: int, j: int, k: int, m: int)
    requires
        0 <= i < j < k < s.len(),
        s[i] == '.' && s[j] == '.' && s[k] == '.',
        octet_text(s.take(i)),
        octet_text(s.subrange(i + 1, j)),
        octet_text(s.subrange(j + 1, k)),
        octet_text(s.skip(k + 1)),
        0 <= m < s.len(),
        s[m] == '.',
    ensures
        m == i || m == j || m == k,
{
    if m < i {
        assert(s.take(i)[m] == '.');
        lemma_octet_has_no_dot(s.take(i));
    } else if i < m < j {
        assert(s.subrange(i + 1, j)[m - i - 1] == '.');
        lemma_octet_has_no_dot(s.subrange(i + 1, j));
    } else if j < m < k {
        assert(s.subrange(j + 1, k)[m - j - 1] == '.');
        lemma_octet_has_no_dot(s.subrange(j + 1, k));
    } else if k < m {
        assert(s.skip(k + 1)[m - k - 1] == '.');
        lemma_octet_has_no_dot(s.skip(k + 1));
    }
}

proof fn lemma_four_dots_reject(s: Seq<char>, dots: Seq<usize>, m: int)
    requires
        dots.len() == 3,
        forall|k: int| 0 <= k < 3 ==> #[trigger] dots[k] < m && s[dots[k] as int] == '.',
        forall|k: int, l: int| 0 <= k < l < 3 ==> #[trigger] dots[k] < #[trigger] dots[l],
        0 <= m < s.len(),
        s[m] == '.',
    ensures
        forall|a: u8, b: u8, c: u8, d: u8| !ipv4_text(s, a, b, c, d),
{
    assert forall|a: u8, b: u8, c: u8, d: u8| !ipv4_text(s, a, b, c, d) by {
        if ipv4_text(s, a, b, c, d) {
            let (i, j, k) = choose|i: int, j: int, k: int|
                0 <= i < j < k < s.len() && s[i] == '.' && s[j] == '.' && s[k] == '.' && #[trigger] octet_text(
                    s.take(i),
                ) && #[trigger] octet_text(s.subrange(i + 1, j)) && #[trigger] octet_text(s.subrange(j + 1, k))
                    && #[trigger] octet_text(s.skip(k + 1)) && digits_value(s.take(i)) == a && digits_value(
                    s.subrange(i + 1, j),
                ) == b && digits_value(s.subrange(j + 1, k)) == c && digits_value(s.skip(k + 1)) == d;
            let x = dots[0] as int;
            let y = dots[1] as int;
            let z = dots[2] as int;
            lemma_dots_of_valid(s, i, j, k, x);
            lemma_dots_of_valid(s, i, j, k, y);
            lemma_dots_of_valid(s, i, j, k, z);
            lemma_dots_of_valid(s, i, j, k, m);
        }
    }
}

proof fn lemma_too_few_dots_reject(s: Seq<char>, dots: Seq<usize>)
    requires
        dots.len() < 3,
        forall|j: int|
            0 <= j < s.len() && s[j] == '.' ==> exists|k: int| 0 <= k < dots.len() && #[trigger] dots[k] == j,
        forall|k: int, l: int| 0 <= k < l < dots.len() ==> #[trigger] dots[k] < #[trigger] dots[l],
    ensures
        forall|a: u8, b: u8, c: u8, d: u8| !ipv4_text(s, a, b, c, d),
{
    assert forall|a: u8, b: u8, c: u8, d: u8| !ipv4_text(s, a, b, c, d) by {
        if ipv4_text(s, a, b, c, d) {
            let (i, j, k) = choose|i: int, j: int, k: int|
                0 <= i < j < k < s.len() && s[i] == '.' && s[j] == '.' && s[k] == '.' && #[trigger] octet_text(
                    s.take(i),
                ) && #[trigger] octet_text(s.subrange(i + 1, j)) && #[trigger] octet_text(s.subrange(j + 1, k))
                    && #[trigger] octet_text(s.skip(k + 1)) && digits_value(s.take(i)) == a && digits_value(
                    s.subrange(i + 1, j),
                ) == b && digits_value(s.subrange(j + 1, k)) == c && digits_value(s.skip(k + 1)) == d;
            let ki = choose|q: int| 0 <= q < dots.len() && #[trigger] dots[q] == i;
            let kj = choose|q: int| 0 <= q < dots.len() && #[trigger] dots[q] == j;
            let kk = choose|q: int| 0 <= q < dots.len() && #[trigger] dots[q] == k;
            assert(ki < kj) by {
                if kj < ki {
                    assert(dots[kj] < dots[ki]);
                }
            }
            assert(kj < kk) by {
                if kk < kj {
                    assert(dots[kk] < dots[kj]);
                }
            }
        }
    }
}

proof fn lemma_three_dots_reject(s: Seq<char>, x: int, y: int, z: int)
    requires
        0 <= x < y < z < s.len(),
        s[x] == '.' && s[y] == '.' && s[z] == '.',
        forall|m: int| 0 <= m < s.len() && s[m] == '.' ==> m == x || m == y || m == z,
        !(octet_text(s.take(x)) && octet_text(s.subrange(x + 1, y)) && octet_text(s.subrange(y + 1, z))
            && octet_text(s.skip(z + 1))),
    ensures
        forall|a: u8, b: u8, c: u8, d: u8| !ipv4_text(s, a, b, c, d),
{
    assert forall|a: u8, b: u8, c: u8, d: u8| !ipv4_text(s, a, b, c, d) by {
        if ipv4_text(s, a, b, c, d) {
            let (i, j, k) = choose|i: int, j: int, k: int|
                0 <= i < j < k < s.len() && s[i] == '.' && s[j] == '.' && s[k] == '.' && #[trigger] octet_text(
                    s.take(i),
                ) && #[trigger] octet_text(s.subrange(i + 1, j)) && #[trigger] octet_text(s.subrange(j + 1, k))
                    && #[trigger] octet_text(s.skip(k + 1)) && digits_value(s.take(i)) == a && digits_value(
                    s.subrange(i + 1, j),
                ) == b && digits_value(s.subrange(j + 1, k)) == c && digits_value(s.skip(k + 1)) == d;
            assert(i == x || i == y || i == z);
            assert(j == x || j == y || j == z);
            assert(k == x || k == y || k == z);
        }
    }
}

/// An address text names one address.
proof fn lemma_ipv4_unique(s: Seq<char>, p: (u8, u8, u8, u8), q: (u8, u8, u8, u8))
    requires
        ipv4_text(s, p.0, p.1, p.2, p.3),
        ipv4_text(s, q.0, q.1, q.2, q.3),
    ensures
        p == q,
{
    let (i, j, k) = choose|i: int, j: int, k: int|
        0 <= i < j < k < s.len() && s[i] == '.' && s[j] == '.' && s[k] == '.' && #[trigger] octet_text(
            s.take(i),
        ) && #[trigger] octet_text(s.subrange(i + 1, j)) && #[trigger] octet_text(s.subrange(j + 1, k))
            && #[trigger] octet_text(s.skip(k + 1)) && digits_value(s.take(i)) == p.0 && digits_value(
            s.subrange(i + 1, j),
        ) == p.1 && digits_value(s.subrange(j + 1, k)) == p.2 && digits_value(s.skip(k + 1)) == p.3;
    let (i2, j2, k2) = choose|i: int, j: int, k: int|
        0 <= i < j < k < s.len() && s[i] == '.' && s[j] == '.' && s[k] == '.' && #[trigger] octet_text(
            s.take(i),
        ) && #[trigger] octet_text(s.subrange(i + 1, j)) && #[trigger] octet_text(s.subrange(j + 1, k))
            && #[trigger] octet_text(s.skip(k + 1)) && digits_value(s.take(i)) == q.0 && digits_value(
            s.subrange(i + 1, j),
        ) == q.1 && digits_value(s.subrange(j + 1, k)) == q.2 && digits_value(s.skip(k + 1)) == q.3;
    lemma_dots_of_valid(s, i, j, k, i2);
    lemma_dots_of_valid(s, i, j, k, j2);
    lemma_dots_of_valid(s, i, j, k, k2);
}

// ---------------------------------------------------------------- answers

/// What the DNS server knows of a VM.
#[derive(Debug, Clone)]
pub struct DnsVm {
    pub id: String,
    pub hostname: Option<String>,
    pub ip_address: String,
}

/// The VM answers to `name` by its id or its hostname.
pub open spec fn answers_to(v: DnsVm, name: Seq<char>) -> bool {
    v.id@ == name || (v.hostname matches Some(h) && h@ == name)
}

/// Position of the first `/` in `s`, or its length.
pub open spec fn slash_pos(s: Seq<char>) -> nat
    decreases s.len(),
{
    if s.len() == 0 {
        0
    } else if s[0] == '/' {
        0
    } else {
        1 + slash_pos(s.drop_first())
    }
}

/// The address of a VM, without any `/prefix`, when it is IPv4 text.
pub open spec fn vm_address(v: DnsVm, q: (u8, u8, u8, u8)) -> bool {
    ipv4_text(v.ip_address@.take(slash_pos(v.ip_address@) as int), q.0, q.1, q.2, q.3)
}

/// The VM at `i` is looked at: when some VM's id is the name, only the
/// first such VM is; otherwise every VM is.
pub open spec fn is_candidate(vms: Seq<DnsVm>, name: Seq<char>, i: int) -> bool {
    &&& 0 <= i < vms.len()
    &&& (exists|j: int| 0 <= j < vms.len() && #[trigger] vms[j].id@ == name) ==> (vms[i].id@ == name && forall|j: int|
        0 <= j < i ==> #[trigger] vms[j].id@ != name)
}

proof fn lemma_slash_pos(s: Seq<char>, i: int)
    requires
        0 <= i <= s.len(),
        forall|j: int| 0 <= j < i ==> #[trigger] s[j] != '/',
        i == s.len() || s[i] == '/',
    ensures
        slash_pos(s) == i,
    decreases i,
{
    if i > 0 {
        let t = s.drop_first();
        assert forall|j: int| 0 <= j < i - 1 implies #[trigger] t[j] != '/' by {
            assert(t[j] == s[j + 1]);
        }
        lemma_slash_pos(t, i - 1);
    }
}

/// The IPv4 address of a VM, from its address text.
fn address_of(v: &DnsVm) -> (r: Option<(u8, u8, u8, u8)>)
    ensures
        match r {
            Some(q) => vm_address(*v, q),
            None => forall|q: (u8, u8, u8, u8)| !vm_address(*v, q),
        },
{
    let s = v.ip_address.as_str();
    let n = s.unicode_len();
    let mut p: usize = 0;
    while p < n && s.get_char(p) != '/'
        invariant
            p <= n,
            n == s@.len(),
            forall|j: int| 0 <= j < p ==> #[trigger] s@[j] != '/',
        decreases n - p,
    {
        p = p + 1;
    }
    proof {
        lemma_slash_pos(s@, p as int);
    }
    let head = s.substring_char(0, p);
    assert(head@ =~= s@.take(p as int));
    let r = parse_ipv4(head);
    proof {
        if r is None {
            assert forall|q: (u8, u8, u8, u8)| !vm_address(*v, q) by {
                assert(!ipv4_text(head@, q.0, q.1, q.2, q.3));
            }
        }
    }
    r
}

/// `q` is the address of a looked-at VM that answers to the name.
pub open spec fn answered_by(vms: Seq<DnsVm>, name: Seq<char>, q: (u8, u8, u8, u8)) -> bool {
    exists|i: int|
        #![trigger vms[i]]
        is_candidate(vms, name, i) && answers_to(vms[i], name) && vm_address(vms[i], q)
}

/// The address of a VM, when its address is IPv4 text; nothing otherwise.
pub open spec fn address_seq(v: DnsVm) -> Seq<(u8, u8, u8, u8)> {
    if exists|q: (u8, u8, u8, u8)| vm_address(v, q) {
        seq![choose|q: (u8, u8, u8, u8)| vm_address(v, q)]
    } else {
        Seq::empty()
    }
}

/// The answers among the first `n` VMs: one address for each looked-at VM
/// that answers to the name and has an IPv4 address, in the VMs' order.
pub open spec fn answers_upto(vms: Seq<DnsVm>, name: Seq<char>, n: int) -> Seq<(u8, u8, u8, u8)>
    decreases n,
{
    if n <= 0 {
        Seq::empty()
    } else {
        answers_upto(vms, name, n - 1) + if is_candidate(vms, name, n - 1) && answers_to(vms[n - 1], name) {
            address_seq(vms[n - 1])
        } else {
            Seq::empty()
        }
    }
}

/// Every answer to the name, one per answering VM, in the VMs' order.
pub open spec fn answer_list(vms: Seq<DnsVm>, name: Seq<char>) -> Seq<(u8, u8, u8, u8)> {
    answers_upto(vms, name, vms.len() as int)
}

proof fn lemma_address_seq(v: DnsVm, q: (u8, u8, u8, u8))
    requires
        vm_address(v, q),
    ensures
        address_seq(v) == seq![q],
{
    let c = choose|c: (u8, u8, u8, u8)| vm_address(v, c);
    lemma_ipv4_unique(v.ip_address@.take(slash_pos(v.ip_address@) as int), c, q);
}

/// When only the VM at `k` is looked at, the answers are its own.
proof fn lemma_answers_single(vms: Seq<DnsVm>, name: Seq<char>, k: int, n: int)
    requires
        0 <= k < vms.len(),
        0 <= n <= vms.len(),
        forall|t: int| is_candidate(vms, name, t) ==> t == k,
    ensures
        n <= k ==> answers_upto(vms, name, n) == Seq::<(u8, u8, u8, u8)>::empty(),
        n > k ==> answers_upto(vms, name, n) == answers_upto(vms, name, k + 1),
        answers_upto(vms, name, k + 1) == answers_upto(vms, name, k) + if is_candidate(vms, name, k) && answers_to(vms[k], name) {
            address_seq(vms[k])
        } else {
            Seq::empty()
        },
    decreases n,
{
    if n > 0 {
        lemma_answers_single(vms, name, k, n - 1);
        if n - 1 != k {
            assert(!is_candidate(vms, name, n - 1));
            assert(answers_upto(vms, name, n) =~= answers_upto(vms, name, n - 1));
        }
    }
}

/// The addresses of the looked-at VMs that answer to the name, in order,
/// skipping those whose address is not IPv4 text.
pub fn dns_answers(search_name: &str, vms: &Vec<DnsVm>) -> (r: Vec<(u8, u8, u8, u8)>)
    ensures
        r@ == answer_list(vms@, search_name@),
        forall|k: int| 0 <= k < r@.len() ==> answered_by(vms@, search_name@, #[trigger] r@[k]),
        forall|i: int|
            is_candidate(vms@, search_name@, i) && answers_to(#[trigger] vms@[i], search_name@) ==> forall|
                q: (u8, u8, u8, u8),
            | vm_address(vms@[i], q) ==> r@.contains(q),
{
    let mut i: usize = 0;
    while i < vms.len() && !str_eq(vms[i].id.as_str(), search_name)
        invariant
            i <= vms@.len(),
            forall|j: int| 0 <= j < i ==> #[trigger] vms@[j].id@ != search_name@,
        decreases vms.len() - i,
    {
        i = i + 1;
    }
    let mut r: Vec<(u8, u8, u8, u8)> = Vec::new();
    if i < vms.len() {
        let k = i;
        assert(vms@[k as int].id@ == search_name@);
        assert(forall|t: int| is_candidate(vms@, search_name@, t) ==> t == k) by {
            assert forall|t: int| is_candidate(vms@, search_name@, t) implies t == k by {
                if t < k {
                    assert(vms@[t].id@ != search_name@);
                } else if t > k {
                    assert(vms@[k as int].id@ != search_name@);
                }
            }
        }
        assert(is_candidate(vms@, search_name@, k as int));
        match address_of(&vms[k]) {
            Some(q) => {
                r.push(q);
                proof {
                    let v = vms@[k as int];
                    assert forall|q2: (u8, u8, u8, u8)| vm_address(v, q2) implies r@.contains(q2) by {
                        lemma_ipv4_unique(v.ip_address@.take(slash_pos(v.ip_address@) as int), q, q2);
                        assert(r@[0] == q2);
                    }
                    assert(answers_to(vms@[k as int], search_name@));
                    assert(vm_address(vms@[k as int], q));
                    assert(answered_by(vms@, search_name@, q));
                    assert(r@[0] == q);
                    lemma_address_seq(v, q);
                }
            },
            None => {
                proof {
                    assert(!(exists|q: (u8, u8, u8, u8)| vm_address(vms@[k as int], q)));
                }
            },
        }
        proof {
            lemma_answers_single(vms@, search_name@, k as int, vms@.len() as int);
            lemma_answers_single(vms@, search_name@, k as int, k as int);
            assert(answers_to(vms@[k as int], search_name@));
            assert(r@ =~= answer_list(vms@, search_name@));
        }
    } else {
        assert(forall|t: int| 0 <= t < vms@.len() ==> is_candidate(vms@, search_name@, t));
        let mut j: usize = 0;
        while j < vms.len()
            invariant
                j <= vms@.len(),
                i == vms@.len(),
                forall|t: int| 0 <= t < vms@.len() ==> #[trigger] is_candidate(vms@, search_name@, t),
                forall|k: int| 0 <= k < r@.len() ==> answered_by(vms@, search_name@, #[trigger] r@[k]),
                r@ == answers_upto(vms@, search_name@, j as int),
                forall|t: int|
                    0 <= t < j && answers_to(#[trigger] vms@[t], search_name@) ==> forall|q: (u8, u8, u8, u8)|
                        vm_address(vms@[t], q) ==> r@.contains(q),
            decreases vms.len() - j,
        {
            let v = &vms[j];
            let hit = str_eq(v.id.as_str(), search_name) || match &v.hostname {
                Some(h) => str_eq(h.as_str(), search_name),
                None => false,
            };
            let ghost r0 = r@;
            if hit {
                match address_of(v) {
                    Some(q) => {
                        r.push(q);
                        proof {
                            assert(r@[r@.len() - 1] == q);
                            assert(is_candidate(vms@, search_name@, j as int));
                            assert(answers_to(vms@[j as int], search_name@));
                            assert(answered_by(vms@, search_name@, q));
                            assert forall|k: int| 0 <= k < r@.len() implies answered_by(vms@, search_name@, #[trigger] r@[k]) by {
                                if k < r0.len() {
                                    assert(r@[k] == r0[k]);
                                }
                            }
                            lemma_address_seq(vms@[j as int], q);
                        }
                    },
                    None => {
                        proof {
                            assert(!(exists|q: (u8, u8, u8, u8)| vm_address(vms@[j as int], q)));
                        }
                    },
                }
            }
            proof {
                assert(is_candidate(vms@, search_name@, j as int));
                assert(hit == answers_to(vms@[j as int], search_name@));
                assert(r@ =~= answers_upto(vms@, search_name@, j + 1));
            }
            proof {
                assert forall|t: int|
                    0 <= t < j + 1 && answers_to(#[trigger] vms@[t], search_name@) implies forall|q: (u8, u8, u8, u8)|
                        vm_address(vms@[t], q) ==> r@.contains(q) by {
                    assert forall|q: (u8, u8, u8, u8)| vm_address(vms@[t], q) implies r@.contains(q) by {
                        if t < j {
                            assert(r0.contains(q));
                            let w = choose|w: int| 0 <= w < r0.len() && r0[w] == q;
                            assert(r@[w] == q);
                        } else {
                            assert(vms@[t] == *v);
                            let last = r@[r@.len() - 1];
                            lemma_ipv4_unique(v.ip_address@.take(slash_pos(v.ip_address@) as int), last, q);
                        }
                    }
                }
            }
            j = j + 1;
        }
    }
    r
}

// ---------------------------------------------------------------- packets

/// One question of a DNS query: its name as text and whether it asks for
/// an A record.
#[derive(Debug, Clone)]
pub struct DnsQuestion {
    pub qname: String,
    pub is_a: bool,
}

/// A DNS message as the server reads it: its id, whether it is a response,
/// and its questions in order.
#[derive(Debug, Clone)]
pub struct DnsMessage {
    pub id: u16,
    pub is_response: bool,
    pub questions: Vec<DnsQuestion>,
}

pub struct DnsQuestionView {
    pub qname: Seq<char>,
    pub is_a: bool,
}

pub struct DnsMessageView {
    pub id: u16,
    pub is_response: bool,
    pub questions: Seq<DnsQuestionView>,
}

impl View for DnsQuestion {
    type V = DnsQuestionView;

    open spec fn view(&self) -> DnsQuestionView {
        DnsQuestionView { qname: self.qname@, is_a: self.is_a }
    }
}

impl View for DnsMessage {
    type V = DnsMessageView;

    open spec fn view(&self) -> DnsMessageView {
        DnsMessageView {
            id: self.id,
            is_response: self.is_response,
            questions: self.questions@.map_values(|q: DnsQuestion| q@),
        }
    }
}

/// The message that `simple_dns::Packet::parse` reads from a datagram;
/// none when it refuses the bytes.
pub uninterp spec fn parsed_dns_message(bytes: Seq<u8>) -> Option<DnsMessageView>;

/// Reads a datagram with `simple_dns::Packet::parse`: its id, its
/// `RESPONSE` flag, and each question's name as `Name`'s `Display` renders
/// it, with whether its type is A.
#[verifier::external_body]
fn parse_dns_message(bytes: &[u8]) -> (r: Option<DnsMessage>)
    ensures
        match r {
            Some(m) => parsed_dns_message(bytes@) == Some(m@),
            None => parsed_dns_message(bytes@) is None,
        },
{
    let p = simple_dns::Packet::parse(bytes).ok()?;
    let questions = p.questions.iter().map(|q| DnsQuestion {
        qname: q.qname.to_string(),
        is_a: q.qtype == simple_dns::QTYPE::TYPE(simple_dns::TYPE::A),
    }).collect();
    Some(DnsMessage { id: p.id(), is_response: p.has_flags(simple_dns::PacketFlag::RESPONSE), questions })
}

/// The bytes of a reply with id `id` that holds one A record of class IN,
/// with time to live `ttl`, per (name, address) pair in order, as
/// `simple_dns` builds them; none when a name is not valid DNS text or the
/// packet cannot be written.
pub uninterp spec fn dns_a_reply_bytes(id: u16, ttl: u32, answers: Seq<(Seq<char>, u32)>) -> Option<Seq<u8>>;

pub open spec fn answer_views(a: Seq<(String, u32)>) -> Seq<(Seq<char>, u32)> {
    a.map_values(|p: (String, u32)| (p.0@, p.1))
}

/// Builds an answer with `simple_dns`: a reply packet `Packet::new_reply(id)`
/// with a `ResourceRecord` for each pair, its name made by `Name::new` from
/// the text, then `build_bytes_vec`.
#[verifier::external_body]
fn build_dns_a_reply(id: u16, ttl: u32, answers: &Vec<(String, u32)>) -> (r: Option<Vec<u8>>)
    ensures
        match r {
            Some(b) => dns_a_reply_bytes(id, ttl, answer_views(answers@)) == Some(b@),
            None => dns_a_reply_bytes(id, ttl, answer_views(answers@)) is None,
        },
{
    let mut reply = simple_dns::Packet::new_reply(id);
    for (name, address) in answers.iter() {
        let qname = simple_dns::Name::new(name.as_str()).ok()?;
        let rdata = simple_dns::rdata::RData::A(simple_dns::rdata::A { address: *address });
        reply.answers.push(simple_dns::ResourceRecord::new(qname, simple_dns::CLASS::IN, ttl, rdata));
    }
    reply.build_bytes_vec().ok()
}

/// An IPv4 address as a number, its first octet highest.
pub open spec fn ipv4_number(q: (u8, u8, u8, u8)) -> u32 {
    (q.0 as int * 16777216 + q.1 as int * 65536 + q.2 as int * 256 + q.3 as int) as u32
}

fn ipv4_to_u32(q: (u8, u8, u8, u8)) -> (n: u32)
    ensures
        n == ipv4_number(q),
{
    (q.0 as u32) * 16777216 + (q.1 as u32) * 65536 + (q.2 as u32) * 256 + (q.3 as u32)
}

/// What the server answers to question `q`: nothing when it does not take
/// the question; otherwise one A record for the question's name per address
/// in `answer_list`, in that order.
pub open spec fn answer_records(vms: Seq<DnsVm>, q: DnsQuestionView) -> Seq<(Seq<char>, u32)> {
    if !answers_query(q.qname, q.is_a) {
        Seq::empty()
    } else {
        let ans = answer_list(vms, search_name_of(q.qname));
        Seq::new(ans.len(), |k: int| (q.qname, ipv4_number(ans[k])))
    }
}

/// The answers to the questions `qs`, question after question.
pub open spec fn reply_records(vms: Seq<DnsVm>, qs: Seq<DnsQuestionView>) -> Seq<(Seq<char>, u32)>
    decreases qs.len(),
{
    if qs.len() == 0 {
        Seq::empty()
    } else {
        reply_records(vms, qs.drop_last()) + answer_records(vms, qs.last())
    }
}

/// What the server does with a datagram.
#[derive(Debug, Clone)]
pub enum DnsOutcome {
    /// A response, not a query: nothing is sent.
    Ignore,
    /// Send these bytes back.
    Reply(Vec<u8>),
    /// No VM answers: pass the datagram to the upstream resolver.
    Forward,
}

/// The time to live of the server's answers, in seconds.
pub open spec fn answer_ttl() -> u32 {
    10
}

/// The server's handling of one datagram, given the VMs it knows: datagrams
/// that do not parse are errors, responses are ignored, and queries are
/// answered from the VMs, or forwarded when no VM answers.
pub fn dns_response(bytes: &[u8], vms: &Vec<DnsVm>) -> (r: Result<DnsOutcome, String>)
    ensures
        parsed_dns_message(bytes@) is None ==> (r matches Err(e) && e@ == "Malformed DNS packet"@),
        parsed_dns_message(bytes@) is Some && parsed_dns_message(bytes@)->0.is_response ==> (r matches Ok(
            DnsOutcome::Ignore,
        )),
        parsed_dns_message(bytes@) is Some && !parsed_dns_message(bytes@)->0.is_response ==> {
            let m = parsed_dns_message(bytes@)->0;
            let a = reply_records(vms@, m.questions);
            &&& a.len() == 0 ==> (r matches Ok(DnsOutcome::Forward))
            &&& a.len() > 0 ==> match dns_a_reply_bytes(m.id, answer_ttl(), a) {
                Some(b) => r matches Ok(DnsOutcome::Reply(x)) && x@ == b,
                None => r matches Err(e) && e@ == "Failed to build DNS reply"@,
            }
        },
{
    let m = match parse_dns_message(bytes) {
        Some(m) => m,
        None => {
            return Err(to_owned_string("Malformed DNS packet"));
        },
    };
    if m.is_response {
        return Ok(DnsOutcome::Ignore);
    }
    let ghost qs = m@.questions;
    let mut answers: Vec<(String, u32)> = Vec::new();
    let mut i: usize = 0;
    while i < m.questions.len()
        invariant
            i <= m.questions@.len(),
            qs == m@.questions,
            answer_views(answers@) == reply_records(vms@, qs.take(i as int)),
        decreases m.questions@.len() - i,
    {
        let ghost before = answer_views(answers@);
        let q = &m.questions[i];
        assert(qs[i as int] == q@);
        match dns_search_name(q.qname.as_str(), q.is_a) {
            Some(name) => {
                let ips = dns_answers(name.as_str(), vms);
                let mut j: usize = 0;
                while j < ips.len()
                    invariant
                        j <= ips@.len(),
                        answer_views(answers@) == before + Seq::new(j as nat, |k: int| (q.qname@, ipv4_number(ips@[k]))),
                    decreases ips@.len() - j,
                {
                    let ghost prev = answers@;
                    let name_copy = q.qname.clone();
                    let num = ipv4_to_u32(ips[j]);
                    answers.push((name_copy, num));
                    assert(answers@ == prev.push((name_copy, num)));
                    assert(answer_views(answers@) =~= answer_views(prev).push((q.qname@, ipv4_number(ips@[j as int]))));
                    assert(answer_views(answers@) =~= before + Seq::new((j + 1) as nat, |k: int| (q.qname@, ipv4_number(ips@[k]))));
                    j = j + 1;
                }
                proof {
                    assert(qs.take(i + 1).drop_last() =~= qs.take(i as int));
                    assert(qs.take(i + 1).last() == q@);
                    assert(answer_views(answers@) =~= reply_records(vms@, qs.take(i + 1)));
                }
            },
            None => {
                proof {
                    assert(qs.take(i + 1).drop_last() =~= qs.take(i as int));
                    assert(qs.take(i + 1).last() == q@);
                    assert(answer_views(answers@) =~= reply_records(vms@, qs.take(i + 1)));
                }
            },
        }
        i = i + 1;
    }
    assert(qs.take(qs.len() as int) =~= qs);
    if answers.len() == 0 {
        return Ok(DnsOutcome::Forward);
    }
    match build_dns_a_reply(m.id, 10, &answers) {
        Some(b) => Ok(DnsOutcome::Reply(b)),
        None => Err(to_owned_string("Failed to build DNS reply")),
    }
}

} // verus!
