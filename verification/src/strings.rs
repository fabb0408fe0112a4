//! Verified string utilities: prefix stripping, suffix trimming and
//! concatenation, used by the CID resolver and by the file-path logic.

use vstd::prelude::*;
use vstd::string::StrSliceExecFns;
use vstd::string::StringExecFns;

verus! {

/// The suffix of `s` after `p`, when `p` is a prefix of `s`.
pub open spec fn spec_strip_prefix(s: Seq<char>, p: Seq<char>) -> Option<Seq<char>> {
    if p.len() <= s.len() && s.subrange(0, p.len() as int) == p {
        Some(s.skip(p.len() as int))
    } else {
        None
    }
}

/// The front of `s` before `p`, when `p` is a suffix of `s`.
pub open spec fn spec_strip_suffix(s: Seq<char>, p: Seq<char>) -> Option<Seq<char>> {
    if p.len() <= s.len() && s.skip(s.len() - p.len()) == p {
        Some(s.take(s.len() - p.len()))
    } else {
        None
    }
}

/// `s` with every trailing repetition of the non-empty pattern `p` removed.
pub open spec fn spec_trim_end(s: Seq<char>, p: Seq<char>) -> Seq<char>
    decreases s.len(),
{
    if p.len() == 0 {
        s
    } else {
        match spec_strip_suffix(s, p) {
            Some(front) => spec_trim_end(front, p),
            None => s,
        }
    }
}

/// If `prefix` heads `s`, the rest of `s` as a fresh `String`; otherwise `None`.
pub fn strip_prefix_string(s: &str, prefix: &str) -> (r: Option<String>)
    ensures
        match r {
            Some(t) => spec_strip_prefix(s@, prefix@) == Some(t@),
            None => spec_strip_prefix(s@, prefix@) is None,
        },
{
    let n = prefix.unicode_len();
    let m = s.unicode_len();
    if m < n {
        return None;
    }
    let mut i: usize = 0;
    while i < n
        invariant
            0 <= i <= n <= m,
            n == prefix@.len(),
            m == s@.len(),
            forall|k: int| 0 <= k < i ==> s@[k] == prefix@[k],
        decreases n - i,
    {
        if s.get_char(i) != prefix.get_char(i) {
            proof {
                assert(s@.subrange(0, n as int)[i as int] == s@[i as int]);
            }
            return None;
        }
        i += 1;
    }
    let rest = s.substring_char(n, m);
    proof {
        assert(s@.subrange(0, n as int) =~= prefix@);
        assert(s@.subrange(n as int, m as int) =~= s@.skip(n as int));
    }
    Some(rest.to_owned())
}

/// If `suffix` ends `s`, the front of `s` as a fresh `String`; otherwise `None`.
pub fn strip_suffix_string(s: &str, suffix: &str) -> (r: Option<String>)
    ensures
        match r {
            Some(t) => spec_strip_suffix(s@, suffix@) == Some(t@),
            None => spec_strip_suffix(s@, suffix@) is None,
        },
{
    let n = suffix.unicode_len();
    let m = s.unicode_len();
    if m < n {
        return None;
    }
    let start: usize = m - n;
    let mut i: usize = 0;
    while i < n
        invariant
            0 <= i <= n <= m,
            start == m - n,
            n == suffix@.len(),
            m == s@.len(),
            forall|k: int| 0 <= k < i ==> s@[start + k] == suffix@[k],
        decreases n - i,
    {
        if s.get_char(start + i) != suffix.get_char(i) {
            proof {
                assert(s@.skip(start as int)[i as int] == s@[start + i]);
            }
            return None;
        }
        i += 1;
    }
    let front = s.substring_char(0, start);
    proof {
        assert(s@.skip(start as int) =~= suffix@);
        assert(s@.subrange(0, start as int) =~= s@.take(start as int));
    }
    Some(front.to_owned())
}

/// `s` with every trailing repetition of `pattern` removed.
pub fn trim_end_matches_string(s: &str, pattern: &str) -> (r: String)
    ensures
        r@ == spec_trim_end(s@, pattern@),
{
    let mut current = s.to_owned();
    if pattern.unicode_len() == 0 {
        return current;
    }
    loop
        invariant
            pattern@.len() > 0,
            spec_trim_end(current@, pattern@) == spec_trim_end(s@, pattern@),
        decreases current@.len(),
    {
        match strip_suffix_string(current.as_str(), pattern) {
            Some(front) => {
                current = front;
            },
            None => {
                return current;
            },
        }
    }
}

/// `a` followed by `b`, as a fresh `String`.
pub fn concat_strs(a: &str, b: &str) -> (r: String)
    ensures
        r@ == a@ + b@,
{
    let mut out = a.to_owned();
    out.append(b);
    out
}

} // verus!
