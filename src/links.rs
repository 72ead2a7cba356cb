//! Rewriting of shared post links to the embedding-friendly mirror.

use vstd::prelude::*;
use vstd::string::*;

use crate::text::{owned, push_str};

verus! {

/// `s` with every occurrence of `pat` replaced by `rep`, scanning from the
/// left and never overlapping.
pub open spec fn replace_all(s: Seq<char>, pat: Seq<char>, rep: Seq<char>) -> Seq<char>
    decreases s.len(),
{
    if pat.len() == 0 || s.len() < pat.len() {
        s
    } else if s.subrange(0, pat.len() as int) == pat {
        rep + replace_all(s.subrange(pat.len() as int, s.len() as int), pat, rep)
    } else {
        seq![s[0]] + replace_all(s.drop_first(), pat, rep)
    }
}

/// The part of `s` before its first `?`.
pub open spec fn before_query(s: Seq<char>) -> Seq<char>
    decreases s.len(),
{
    if s.len() == 0 {
        s
    } else if s[0] == '?' {
        Seq::empty()
    } else {
        seq![s[0]] + before_query(s.drop_first())
    }
}

pub open spec fn mirror_host() -> Seq<char> {
    "https://vxtwitter.com/"@
}

/// A post link pointed at the mirror, without its query.
pub open spec fn fixed_link(link: Seq<char>) -> Seq<char> {
    before_query(
        replace_all(
            replace_all(link, "https://x.com/"@, mirror_host()),
            "https://twitter.com/"@,
            mirror_host(),
        ),
    )
}

fn matches_at(s: &str, i: usize, pat: &str) -> (r: bool)
    requires
        i <= s@.len(),
    ensures
        r == (i + pat@.len() <= s@.len() && s@.subrange(i as int, i + pat@.len()) == pat@),
{
    let n = s.unicode_len();
    let m = pat.unicode_len();
    if m > n - i {
        return false;
    }
    let mut j: usize = 0;
    while j < m
        invariant
            j <= m == pat@.len(),
            n == s@.len(),
            i + m <= n,
            forall|k: int| 0 <= k < j ==> s@[i + k] == pat@[k],
        decreases m - j,
    {
        if s.get_char(i + j) != pat.get_char(j) {
            assert(s@.subrange(i as int, i + m)[j as int] != pat@[j as int]);
            return false;
        }
        j = j + 1;
    }
    assert(s@.subrange(i as int, i + m) =~= pat@);
    true
}

/// Replaces every occurrence of `pat` in `s` with `rep`.
pub fn replace_every(s: &str, pat: &str, rep: &str) -> (r: String)
    ensures
        r@ == replace_all(s@, pat@, rep@),
{
    let n = s.unicode_len();
    let m = pat.unicode_len();
    if m == 0 {
        return owned(s);
    }
    let mut out = String::new();
    let mut i: usize = 0;
    assert(s@.subrange(0, n as int) =~= s@);
    assert(out@ + replace_all(s@, pat@, rep@) =~= replace_all(s@, pat@, rep@));
    while i < n
        invariant
            i <= n == s@.len(),
            m == pat@.len() > 0,
            out@ + replace_all(s@.subrange(i as int, n as int), pat@, rep@) == replace_all(
                s@,
                pat@,
                rep@,
            ),
        decreases n - i,
    {
        let ghost rest = s@.subrange(i as int, n as int);
        if matches_at(s, i, pat) {
            assert(rest.subrange(0, m as int) =~= s@.subrange(i as int, i + m));
            assert(rest.subrange(m as int, rest.len() as int) =~= s@.subrange(i + m, n as int));
            push_str(&mut out, rep);
            i = i + m;
        } else {
            proof {
                if rest.len() >= m {
                    assert(rest.subrange(0, m as int) =~= s@.subrange(i as int, i + m));
                }
            }
            assert(rest.drop_first() =~= s@.subrange(i + 1, n as int));
            let c = s.get_char(i);
            out.push(c);
            i = i + 1;
        }
        assert(out@ + replace_all(s@.subrange(i as int, n as int), pat@, rep@) =~= replace_all(
            s@,
            pat@,
            rep@,
        ));
    }
    assert(s@.subrange(n as int, n as int) =~= Seq::<char>::empty());
    assert(out@ + Seq::<char>::empty() =~= out@);
    out
}

/// The part of `s` before its first `?`.
pub fn strip_query(s: &str) -> (r: String)
    ensures
        r@ == before_query(s@),
{
    let n = s.unicode_len();
    let mut out = String::new();
    let mut i: usize = 0;
    assert(s@.subrange(0, n as int) =~= s@);
    assert(out@ + before_query(s@) =~= before_query(s@));
    while i < n
        invariant
            i <= n == s@.len(),
            out@ + before_query(s@.subrange(i as int, n as int)) == before_query(s@),
        decreases n - i,
    {
        let ghost rest = s@.subrange(i as int, n as int);
        let c = s.get_char(i);
        if c == '?' {
            assert(out@ + Seq::<char>::empty() =~= out@);
            return out;
        }
        assert(rest.drop_first() =~= s@.subrange(i + 1, n as int));
        out.push(c);
        i = i + 1;
        assert(out@ + before_query(s@.subrange(i as int, n as int)) =~= before_query(s@));
    }
    assert(s@.subrange(n as int, n as int) =~= Seq::<char>::empty());
    assert(out@ + Seq::<char>::empty() =~= out@);
    out
}

/// Points a post link at the mirror host and drops its tracking query:
/// `https://x.com/a/status/1?s=20` gives `https://vxtwitter.com/a/status/1`.
pub fn fix_twitter_link(link: &str) -> (r: String)
    ensures
        r@ == fixed_link(link@),
{
    let a = replace_every(link, "https://x.com/", "https://vxtwitter.com/");
    let b = replace_every(a.as_str(), "https://twitter.com/", "https://vxtwitter.com/");
    strip_query(b.as_str())
}

} // verus!
