//! Who may use the API: when a token is configured, a request must present
//! it as a bearer token or in the `vyoma_token` cookie.
use vstd::prelude::*;

use crate::text::{is_prefix, starts_with, str_eq};

verus! {

/// Unicode `White_Space`, the class that std's `char::is_whitespace`
/// follows: tab, line feed, vertical tab, form feed, carriage return, space,
/// next line, no-break space, ogham space mark, the spaces from en quad to
/// hair space, line and paragraph separators, narrow no-break space, medium
/// mathematical space and ideographic space.
pub open spec fn unicode_whitespace(c: char) -> bool {
    let u = c as u32;
    ||| 0x09 <= u <= 0x0D
    ||| u == 0x20
    ||| u == 0x85
    ||| u == 0xA0
    ||| u == 0x1680
    ||| 0x2000 <= u <= 0x200A
    ||| u == 0x2028
    ||| u == 0x2029
    ||| u == 0x202F
    ||| u == 0x205F
    ||| u == 0x3000
}

/// Whether `c` is whitespace in the sense of `char::is_whitespace`.
pub fn char_is_whitespace(c: char) -> (r: bool)
    ensures
        r == unicode_whitespace(c),
{
    let u = c as u32;
    (0x09 <= u && u <= 0x0D) || u == 0x20 || u == 0x85 || u == 0xA0 || u == 0x1680 || (0x2000 <= u && u
        <= 0x200A) || u == 0x2028 || u == 0x2029 || u == 0x202F || u == 0x205F || u == 0x3000
}

/// `s` without its leading whitespace.
pub open spec fn trim_start(s: Seq<char>) -> Seq<char>
    decreases s.len(),
{
    if s.len() > 0 && unicode_whitespace(s[0]) {
        trim_start(s.drop_first())
    } else {
        s
    }
}

/// `s` without its trailing whitespace.
pub open spec fn trim_end(s: Seq<char>) -> Seq<char>
    decreases s.len(),
{
    if s.len() > 0 && unicode_whitespace(s.last()) {
        trim_end(s.drop_last())
    } else {
        s
    }
}

/// `str::trim`.
pub open spec fn trimmed(s: Seq<char>) -> Seq<char> {
    trim_end(trim_start(s))
}

/// Position of the first `;` in `s`, or its length when there is none.
pub open spec fn semi_pos(s: Seq<char>) -> nat
    decreases s.len(),
{
    if s.len() == 0 {
        0
    } else if s[0] == ';' {
        0
    } else {
        1 + semi_pos(s.drop_first())
    }
}

/// A `;`-separated cookie pair that carries the token.
pub open spec fn cookie_pair_ok(pair: Seq<char>, token: Seq<char>) -> bool {
    let p = trimmed(pair);
    is_prefix("vyoma_token="@, p) && p.skip("vyoma_token="@.len() as int) == token
}

/// Some `;`-separated pair of the cookie header carries the token.
pub open spec fn cookie_ok(cookie: Seq<char>, token: Seq<char>) -> bool
    decreases cookie.len(),
{
    let p = semi_pos(cookie) as int;
    if p >= cookie.len() {
        cookie_pair_ok(cookie, token)
    } else {
        cookie_pair_ok(cookie.take(p), token) || cookie_ok(cookie.skip(p + 1), token)
    }
}

/// The authorization header is `Bearer <token>`.
pub open spec fn bearer_ok(header: Seq<char>, token: Seq<char>) -> bool {
    is_prefix("Bearer "@, header) && header.skip("Bearer "@.len() as int) == token
}

/// Whether a request is let through: always when no token is configured,
/// otherwise when its authorization header or its cookie carries the token.
pub open spec fn authorized(token: Option<Seq<char>>, header: Option<Seq<char>>, cookie: Option<Seq<char>>) -> bool {
    match token {
        None => true,
        Some(t) => (header matches Some(h) && bearer_ok(h, t)) || (cookie matches Some(c) && cookie_ok(c, t)),
    }
}

/// Presenting the configured token as a bearer token lets a request
/// through, whatever cookie header comes with it; with no credential at all
/// a request is refused once a token is configured, and with no token
/// configured every request is let through.
pub proof fn law_bearer_token_admits(t: Seq<char>, h: Seq<char>, cookie: Option<Seq<char>>)
    requires
        h == "Bearer "@ + t,
    ensures
        authorized(Some(t), Some(h), cookie),
        !authorized(Some(t), None, None),
        authorized(None, Some(h), cookie),
{
    reveal_strlit("Bearer ");
    assert(h.take(7) =~= "Bearer "@);
    assert(h.skip(7) =~= t);
}

proof fn lemma_trim_start(s: Seq<char>, k: int)
    requires
        0 <= k <= s.len(),
        forall|j: int| 0 <= j < k ==> #[trigger] unicode_whitespace(s[j]),
        k == s.len() || !unicode_whitespace(s[k]),
    ensures
        trim_start(s) == s.skip(k),
    decreases k,
{
    if k > 0 {
        let t = s.drop_first();
        assert forall|j: int| 0 <= j < k - 1 implies #[trigger] unicode_whitespace(t[j]) by {
            assert(t[j] == s[j + 1]);
        }
        lemma_trim_start(t, k - 1);
        assert(t.skip(k - 1) =~= s.skip(k));
    } else {
        assert(s.skip(0) =~= s);
    }
}

proof fn lemma_trim_end(s: Seq<char>, m: int)
    requires
        0 <= m <= s.len(),
        forall|j: int| m <= j < s.len() ==> #[trigger] unicode_whitespace(s[j]),
        m == 0 || !unicode_whitespace(s[m - 1]),
    ensures
        trim_end(s) == s.take(m),
    decreases s.len() - m,
{
    if m < s.len() {
        let t = s.drop_last();
        assert forall|j: int| m <= j < t.len() implies #[trigger] unicode_whitespace(t[j]) by {
            assert(t[j] == s[j]);
        }
        lemma_trim_end(t, m);
        assert(t.take(m) =~= s.take(m));
    } else {
        assert(s.take(m) =~= s);
    }
}

proof fn lemma_semi_pos(s: Seq<char>, i: int)
    requires
        0 <= i <= s.len(),
        forall|j: int| 0 <= j < i ==> #[trigger] s[j] != ';',
        i == s.len() || s[i] == ';',
    ensures
        semi_pos(s) == i,
    decreases i,
{
    if i > 0 {
        let t = s.drop_first();
        assert forall|j: int| 0 <= j < i - 1 implies #[trigger] t[j] != ';' by {
            assert(t[j] == s[j + 1]);
        }
        lemma_semi_pos(t, i - 1);
    }
}

/// The bounds of `s[lo..hi]` with surrounding whitespace removed.
pub(crate) fn trim_range(s: &str, lo: usize, hi: usize) -> (r: (usize, usize))
    requires
        lo <= hi <= s@.len(),
    ensures
        lo <= r.0 <= r.1 <= hi,
        s@.subrange(r.0 as int, r.1 as int) == trimmed(s@.subrange(lo as int, hi as int)),
{
    let ghost piece = s@.subrange(lo as int, hi as int);
    let mut a: usize = lo;
    while a < hi && char_is_whitespace(s.get_char(a))
        invariant
            lo <= a <= hi,
            hi <= s@.len(),
            piece == s@.subrange(lo as int, hi as int),
            forall|j: int| 0 <= j < a - lo ==> #[trigger] unicode_whitespace(piece[j]),
        decreases hi - a,
    {
        a = a + 1;
    }
    proof {
        lemma_trim_start(piece, a - lo);
    }
    let ghost ts = piece.skip(a - lo);
    let mut b: usize = hi;
    while b > a && char_is_whitespace(s.get_char(b - 1))
        invariant
            lo <= a <= b <= hi,
            hi <= s@.len(),
            ts == s@.subrange(a as int, hi as int),
            forall|j: int| b - a <= j < ts.len() ==> #[trigger] unicode_whitespace(ts[j]),
        decreases b - a,
    {
        b = b - 1;
    }
    proof {
        assert(ts =~= s@.subrange(a as int, hi as int));
        lemma_trim_end(ts, b - a);
        assert(s@.subrange(a as int, b as int) =~= ts.take(b - a));
    }
    (a, b)
}

/// Checks one cookie pair, the characters `lo..hi` of `cookie`.
fn pair_carries(cookie: &str, lo: usize, hi: usize, token: &str) -> (b: bool)
    requires
        lo <= hi <= cookie@.len(),
    ensures
        b == cookie_pair_ok(cookie@.subrange(lo as int, hi as int), token@),
{
    let (a, b) = trim_range(cookie, lo, hi);
    let p = cookie.substring_char(a, b);
    proof {
        reveal_strlit("vyoma_token=");
    }
    if !starts_with(p, "vyoma_token=") {
        return false;
    }
    let rest = p.substring_char(12, b - a);
    assert(rest@ =~= p@.skip("vyoma_token="@.len() as int));
    str_eq(rest, token)
}

/// Whether some pair of a cookie header carries the token.
fn cookie_carries(cookie: &str, token: &str) -> (b: bool)
    ensures
        b == cookie_ok(cookie@, token@),
{
    let n = cookie.unicode_len();
    let mut start: usize = 0;
    assert(cookie@.skip(0) =~= cookie@);
    loop
        invariant
            n == cookie@.len(),
            start <= n,
            cookie_ok(cookie@, token@) == cookie_ok(cookie@.skip(start as int), token@),
        decreases n - start,
    {
        let mut p: usize = start;
        while p < n && cookie.get_char(p) != ';'
            invariant
                start <= p <= n,
                n == cookie@.len(),
                forall|j: int| start <= j < p ==> #[trigger] cookie@[j] != ';',
            decreases n - p,
        {
            p = p + 1;
        }
        let ghost rest = cookie@.skip(start as int);
        proof {
            assert forall|j: int| 0 <= j < p - start implies #[trigger] rest[j] != ';' by {
                assert(rest[j] == cookie@[start + j]);
            }
            lemma_semi_pos(rest, p - start);
            assert(rest.take(p - start) =~= cookie@.subrange(start as int, p as int));
        }
        let ok = pair_carries(cookie, start, p, token);
        if p == n {
            assert(rest =~= cookie@.subrange(start as int, n as int));
            return ok;
        }
        if ok {
            return true;
        }
        assert(rest.skip(p - start + 1) =~= cookie@.skip(p + 1));
        start = p + 1;
    }
}

/// Whether a request may use the API, given the configured token and the
/// request's authorization and cookie headers (each as text, when present
/// and readable).
pub fn is_authorized(token: Option<&str>, auth_header: Option<&str>, cookie: Option<&str>) -> (b: bool)
    ensures
        b == authorized(
            match token {
                Some(t) => Some(t@),
                None => None,
            },
            match auth_header {
                Some(h) => Some(h@),
                None => None,
            },
            match cookie {
                Some(c) => Some(c@),
                None => None,
            },
        ),
        token is None ==> b,
        token matches Some(t) && auth_header matches Some(h) && h@ == "Bearer "@ + t@ ==> b,
        token is Some && auth_header is None && cookie is None ==> !b,
{
    proof {
        match (token, auth_header) {
            (Some(t), Some(h)) => {
                if h@ == "Bearer "@ + t@ {
                    law_bearer_token_admits(t@, h@, match cookie {
                        Some(c) => Some(c@),
                        None => None,
                    });
                }
            },
            _ => {},
        }
    }
    let t = match token {
        None => {
            return true;
        },
        Some(t) => t,
    };
    proof {
        reveal_strlit("Bearer ");
    }
    let header_ok = match auth_header {
        Some(h) => {
            if starts_with(h, "Bearer ") {
                let rest = h.substring_char(7, h.unicode_len());
                assert(rest@ =~= h@.skip("Bearer "@.len() as int));
                str_eq(rest, t)
            } else {
                false
            }
        },
        None => false,
    };
    if header_ok {
        return true;
    }
    match cookie {
        Some(c) => cookie_carries(c, t),
        None => false,
    }
}

} // verus!
