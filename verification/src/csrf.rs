//! Cross-site request forgery check for state-changing requests.
//!
//! A request whose method is not `GET`, `HEAD` or `OPTIONS` is refused when
//! it carries both a `Host` and an `Origin` header and the origin's host part
//! differs from the `Host` value. A missing header lets the request through:
//! without a host there is nothing to compare, and browsers always send
//! `Origin` on cross-site requests.
use vstd::prelude::*;
use crate::text::str_eq;

verus! {

/// What the check decides for a request.
#[derive(Clone, Copy, Debug, PartialEq, Eq, Structural)]
pub enum CsrfDecision {
    /// Pass the request on.
    Allow,
    /// Answer `403 Forbidden` ("CSRF check failed").
    Reject,
}

/// Methods that cannot change state and are never checked.
pub open spec fn spec_is_safe_method(method: Seq<char>) -> bool {
    method == "GET"@ || method == "HEAD"@ || method == "OPTIONS"@
}

/// `s` with every leading occurrence of the non-empty pattern `p` removed,
/// as `str::trim_start_matches` does.
pub open spec fn spec_trim_start_matches(s: Seq<char>, p: Seq<char>) -> Seq<char>
    decreases s.len(),
{
    if 0 < p.len() <= s.len() && s.take(p.len() as int) == p {
        spec_trim_start_matches(s.skip(p.len() as int), p)
    } else {
        s
    }
}

/// The part of `s` before its first `/` (all of `s` if it has none).
pub open spec fn spec_before_slash(s: Seq<char>) -> Seq<char>
    decreases s.len(),
{
    if s.len() == 0 {
        s
    } else if s[0] == '/' {
        Seq::empty()
    } else {
        seq![s[0]] + spec_before_slash(s.drop_first())
    }
}

/// The host (and port) part of an `Origin` value `scheme://host[:port]`:
/// leading `http://` and then `https://` prefixes are removed, and the rest
/// is cut at the first `/`.
pub open spec fn spec_origin_host(origin: Seq<char>) -> Seq<char> {
    spec_before_slash(
        spec_trim_start_matches(spec_trim_start_matches(origin, "http://"@), "https://"@),
    )
}

/// Whether the check lets a request through.
pub open spec fn spec_csrf_allows(
    method: Seq<char>,
    host: Option<Seq<char>>,
    origin: Option<Seq<char>>,
) -> bool {
    ||| spec_is_safe_method(method)
    ||| host is None
    ||| origin is None
    ||| spec_origin_host(origin->0) == host->0
}

/// Whether `p` occurs in `s` at character position `k`.
fn occurs_at(s: &str, k: usize, p: &str) -> (r: bool)
    requires
        k <= s@.len(),
    ensures
        r == (k + p@.len() <= s@.len() && s@.subrange(k as int, k + p@.len()) == p@),
{
    let n = s.unicode_len();
    let m = p.unicode_len();
    if m > n - k {
        return false;
    }
    let mut i: usize = 0;
    while i < m
        invariant
            n == s@.len(),
            m == p@.len(),
            k + m <= n,
            i <= m,
            forall|j: int| 0 <= j < i ==> s@[k + j] == p@[j],
        decreases m - i,
    {
        if s.get_char(k + i) != p.get_char(i) {
            return false;
        }
        i = i + 1;
    }
    assert(s@.subrange(k as int, k + m) =~= p@);
    true
}

/// The position at which `spec_trim_start_matches` of the suffix of `s` from
/// `start` begins.
fn trim_start_matches_from(s: &str, start: usize, p: &str) -> (r: usize)
    requires
        start <= s@.len(),
        p@.len() > 0,
    ensures
        start <= r <= s@.len(),
        s@.skip(r as int) == spec_trim_start_matches(s@.skip(start as int), p@),
{
    let n = s.unicode_len();
    let m = p.unicode_len();
    let mut k = start;
    while occurs_at(s, k, p)
        invariant
            n == s@.len(),
            m == p@.len(),
            m > 0,
            start <= k <= n,
            spec_trim_start_matches(s@.skip(k as int), p@) == spec_trim_start_matches(
                s@.skip(start as int),
                p@,
            ),
        decreases n - k,
    {
        assert(s@.skip(k as int).take(m as int) =~= s@.subrange(k as int, k + m));
        assert(s@.skip(k as int).skip(m as int) =~= s@.skip(k + m));
        k = k + m;
    }
    assert(k + m > n ==> s@.skip(k as int).len() < m);
    assert(k + m <= n ==> s@.skip(k as int).take(m as int) =~= s@.subrange(k as int, k + m));
    k
}

/// The position of the first `/` at or after `start`, or the length of `s`.
fn before_slash_from(s: &str, start: usize) -> (r: usize)
    requires
        start <= s@.len(),
    ensures
        start <= r <= s@.len(),
        s@.subrange(start as int, r as int) == spec_before_slash(s@.skip(start as int)),
{
    let n = s.unicode_len();
    let mut e = start;
    while e < n && s.get_char(e) != '/'
        invariant
            n == s@.len(),
            start <= e <= n,
            spec_before_slash(s@.skip(start as int)) == s@.subrange(start as int, e as int)
                + spec_before_slash(s@.skip(e as int)),
        decreases n - e,
    {
        let ghost rest = s@.skip(e as int);
        assert(rest.drop_first() =~= s@.skip(e + 1));
        assert(s@.subrange(start as int, e + 1) =~= s@.subrange(start as int, e as int) + seq![
            rest[0],
        ]);
        e = e + 1;
    }
    assert(s@.subrange(start as int, e as int) + spec_before_slash(s@.skip(e as int)) =~= s@.subrange(
        start as int,
        e as int,
    ));
    e
}

/// Whether the characters of `s` from `start` to `end` spell `t`.
fn range_eq(s: &str, start: usize, end: usize, t: &str) -> (r: bool)
    requires
        start <= end <= s@.len(),
    ensures
        r == (s@.subrange(start as int, end as int) == t@),
{
    let m = t.unicode_len();
    if end - start != m {
        return false;
    }
    let mut i: usize = 0;
    while i < m
        invariant
            m == t@.len(),
            start + m == end,
            end <= s@.len(),
            i <= m,
            forall|j: int| 0 <= j < i ==> s@[start + j] == t@[j],
        decreases m - i,
    {
        if s.get_char(start + i) != t.get_char(i) {
            return false;
        }
        i = i + 1;
    }
    assert(s@.subrange(start as int, end as int) =~= t@);
    true
}

/// Returns whether the host part of an `Origin` value equals `host`.
pub fn origin_matches_host(origin: &str, host: &str) -> (r: bool)
    ensures
        r == (spec_origin_host(origin@) == host@),
{
    proof {
        reveal_strlit("http://");
        reveal_strlit("https://");
    }
    let a = trim_start_matches_from(origin, 0, "http://");
    let b = trim_start_matches_from(origin, a, "https://");
    let e = before_slash_from(origin, b);
    assert(origin@.skip(0) =~= origin@);
    range_eq(origin, b, e, host)
}

/// Decides whether a request passes the check, from its method name and its
/// `Host` and `Origin` header values (`None` where a header is absent or not
/// readable text).
pub fn check_csrf(method: &str, host: Option<&str>, origin: Option<&str>) -> (r: CsrfDecision)
    ensures
        r == CsrfDecision::Allow <==> spec_csrf_allows(
            method@,
            match host {
                Some(h) => Some(h@),
                None => None,
            },
            match origin {
                Some(o) => Some(o@),
                None => None,
            },
        ),
{
    if str_eq(method, "GET") || str_eq(method, "HEAD") || str_eq(method, "OPTIONS") {
        return CsrfDecision::Allow;
    }
    let host = match host {
        Some(h) => h,
        None => {
            return CsrfDecision::Allow;
        },
    };
    let origin = match origin {
        Some(o) => o,
        None => {
            return CsrfDecision::Allow;
        },
    };
    if origin_matches_host(origin, host) {
        CsrfDecision::Allow
    } else {
        CsrfDecision::Reject
    }
}

/// A text without `/` is its own part before the first `/`.
proof fn lemma_before_slash_no_slash(s: Seq<char>)
    requires
        forall|i: int| 0 <= i < s.len() ==> s[i] != '/',
    ensures
        spec_before_slash(s) == s,
    decreases s.len(),
{
    if s.len() > 0 {
        lemma_before_slash_no_slash(s.drop_first());
        assert(seq![s[0]] + s.drop_first() =~= s);
    }
}

/// Trimming a pattern that holds a `/` leaves a text without `/` unchanged.
proof fn lemma_trim_no_slash(s: Seq<char>, p: Seq<char>, k: int)
    requires
        forall|i: int| 0 <= i < s.len() ==> s[i] != '/',
        0 <= k < p.len(),
        p[k] == '/',
    ensures
        spec_trim_start_matches(s, p) == s,
{
    if p.len() <= s.len() && s.take(p.len() as int) == p {
        assert(s.take(p.len() as int)[k] == s[k]);
    }
}

/// A request from the page's own origin is never refused: when the `Origin`
/// header is `http://` or `https://` followed by exactly the `Host` value
/// (which, being a host and port, holds no `/`), the check lets it through,
/// whatever the method.
pub proof fn lemma_same_origin_allowed(method: Seq<char>, host: Seq<char>, https: bool)
    requires
        forall|i: int| 0 <= i < host.len() ==> host[i] != '/',
    ensures
        spec_csrf_allows(
            method,
            Some(host),
            Some((if https { "https://"@ } else { "http://"@ }) + host),
        ),
{
    reveal_strlit("http://");
    reveal_strlit("https://");
    let http = "http://"@;
    let https_p = "https://"@;
    let origin = (if https { https_p } else { http }) + host;
    lemma_before_slash_no_slash(host);
    lemma_trim_no_slash(host, http, 5);
    lemma_trim_no_slash(host, https_p, 6);
    if https {
        assert(origin.take(7) != http) by {
            assert(origin.take(7)[4] == 's');
        }
        assert(spec_trim_start_matches(origin, http) == origin);
        assert(origin.take(8) =~= https_p);
        assert(origin.skip(8) =~= host);
        assert(spec_trim_start_matches(origin, https_p) == host);
    } else {
        assert(origin.take(7) =~= http);
        assert(origin.skip(7) =~= host);
        assert(spec_trim_start_matches(origin, http) == host);
    }
}

} // verus!
