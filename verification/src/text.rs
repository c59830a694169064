//! String and byte helpers with exact contracts over `Seq<char>` and
//! `Seq<u8>` views.

use vstd::prelude::*;
use vstd::string::*;

verus! {

/// Character-wise equality of two string slices.
pub fn str_eq(a: &str, b: &str) -> (r: bool)
    ensures
        r == (a@ == b@),
{
    let n = a.unicode_len();
    let m = b.unicode_len();
    if n != m {
        return false;
    }
    let mut i: usize = 0;
    while i < n
        invariant
            n == a@.len(),
            m == b@.len(),
            n == m,
            i <= n,
            forall|j: int| 0 <= j < i ==> a@[j] == b@[j],
        decreases n - i,
    {
        let ca = a.get_char(i);
        let cb = b.get_char(i);
        if ca != cb {
            assert(a@[i as int] != b@[i as int]);
            return false;
        }
        i += 1;
    }
    assert(a@ =~= b@);
    true
}

/// `s` occurs in `t` starting at position `i`.
pub open spec fn occurs_at(t: Seq<char>, s: Seq<char>, i: int) -> bool {
    0 <= i && i + s.len() <= t.len() && t.subrange(i, i + s.len()) == s
}

/// `s` occurs somewhere in `t`.
pub open spec fn seq_contains(t: Seq<char>, s: Seq<char>) -> bool {
    exists|i: int| #[trigger] occurs_at(t, s, i)
}

/// Whether `needle` occurs in `hay` as a contiguous run of characters.
pub fn str_contains(hay: &str, needle: &str) -> (r: bool)
    ensures
        r == seq_contains(hay@, needle@),
{
    let n = hay.unicode_len();
    let m = needle.unicode_len();
    if m > n {
        assert forall|i: int| !#[trigger] occurs_at(hay@, needle@, i) by {}
        return false;
    }
    let mut i: usize = 0;
    while i <= n - m
        invariant
            n == hay@.len(),
            m == needle@.len(),
            m <= n,
            i <= n - m + 1,
            forall|k: int| 0 <= k < i ==> !#[trigger] occurs_at(hay@, needle@, k),
        decreases n - m + 1 - i,
    {
        let mut j: usize = 0;
        let mut same = true;
        while j < m
            invariant
                n == hay@.len(),
                m == needle@.len(),
                i + m <= n,
                j <= m,
                same ==> forall|l: int| 0 <= l < j ==> hay@[i + l] == needle@[l],
                !same ==> exists|l: int| 0 <= l < m && hay@[i + l] != needle@[l],
            decreases m - j,
        {
            if same {
                let a = hay.get_char(i + j);
                let b = needle.get_char(j);
                if a != b {
                    same = false;
                    assert(hay@[i + j as int] != needle@[j as int]);
                }
            }
            j += 1;
        }
        if same {
            assert(hay@.subrange(i as int, i + m) =~= needle@);
            assert(occurs_at(hay@, needle@, i as int));
            return true;
        }
        proof {
            let l = choose|l: int| 0 <= l < m && hay@[i + l] != needle@[l];
            if occurs_at(hay@, needle@, i as int) {
                assert(hay@.subrange(i as int, i + m)[l] == hay@[i + l]);
            }
        }
        i += 1;
    }
    assert forall|k: int| !#[trigger] occurs_at(hay@, needle@, k) by {
        if 0 <= k < i {
        }
    }
    false
}

/// `p` is a prefix of `s`.
pub open spec fn has_prefix<T>(s: Seq<T>, p: Seq<T>) -> bool {
    p.len() <= s.len() && s.subrange(0, p.len() as int) == p
}

/// `s` without its prefix `p`, where `p` is a prefix; `None` otherwise.
pub open spec fn strip_prefix_spec<T>(s: Seq<T>, p: Seq<T>) -> Option<Seq<T>> {
    if has_prefix(s, p) {
        Some(s.subrange(p.len() as int, s.len() as int))
    } else {
        None
    }
}

/// Removes the prefix `p` from `s`, as `str::strip_prefix` does.
pub fn strip_prefix(s: &str, p: &str) -> (r: Option<String>)
    ensures
        match r {
            Some(t) => strip_prefix_spec(s@, p@) == Some(t@),
            None => strip_prefix_spec(s@, p@) is None,
        },
{
    let n = s.unicode_len();
    let m = p.unicode_len();
    if m > n {
        return None;
    }
    let mut j: usize = 0;
    while j < m
        invariant
            n == s@.len(),
            m == p@.len(),
            m <= n,
            j <= m,
            forall|l: int| 0 <= l < j ==> s@[l] == p@[l],
        decreases m - j,
    {
        if s.get_char(j) != p.get_char(j) {
            assert(s@.subrange(0, m as int)[j as int] != p@[j as int]);
            return None;
        }
        j += 1;
    }
    assert(s@.subrange(0, m as int) =~= p@);
    let rest = s.substring_char(m, n);
    Some(String::from_str(rest))
}

/// Index of the first occurrence of `c` in `s` at or after `from`, or -1.
pub open spec fn find_from(s: Seq<char>, c: char, from: int) -> int
    decreases s.len() - from,
{
    if from < 0 || from >= s.len() {
        -1
    } else if s[from] == c {
        from
    } else {
        find_from(s, c, from + 1)
    }
}

/// What `find_from` gives: -1 when no `c` occurs from `from` on, and
/// otherwise the position of the first `c` there.
pub proof fn lemma_find_from(s: Seq<char>, c: char, from: int)
    requires
        0 <= from,
    ensures
        find_from(s, c, from) == -1 || (from <= find_from(s, c, from) < s.len()),
        find_from(s, c, from) != -1 ==> s[find_from(s, c, from)] == c,
        find_from(s, c, from) != -1 ==> forall|k: int|
            from <= k < find_from(s, c, from) ==> s[k] != c,
        find_from(s, c, from) == -1 ==> forall|k: int| from <= k < s.len() ==> s[k] != c,
    decreases s.len() - from,
{
    if from < s.len() && s[from] != c {
        lemma_find_from(s, c, from + 1);
    }
}

/// A `c` at `i` with none before it (from `from` on) is what `find_from`
/// finds.
pub proof fn lemma_find_from_is(s: Seq<char>, c: char, from: int, i: int)
    requires
        0 <= from <= i < s.len(),
        s[i] == c,
        forall|k: int| from <= k < i ==> s[k] != c,
    ensures
        find_from(s, c, from) == i,
    decreases i - from,
{
    if from < i {
        lemma_find_from_is(s, c, from + 1, i);
    }
}

/// When no `c` occurs from `from` on, `find_from` gives -1.
pub proof fn lemma_find_from_none(s: Seq<char>, c: char, from: int)
    requires
        0 <= from,
        forall|k: int| from <= k < s.len() ==> s[k] != c,
    ensures
        find_from(s, c, from) == -1,
    decreases s.len() - from,
{
    if from < s.len() {
        lemma_find_from_none(s, c, from + 1);
    }
}

/// Position of the first `c` in `s` at or after `from` (returned as
/// `Some(index)`), or `None` when there is none.
pub fn find_char(s: &str, c: char, from: usize) -> (r: Option<usize>)
    ensures
        match r {
            Some(i) => find_from(s@, c, from as int) == i as int && from <= i < s@.len(),
            None => find_from(s@, c, from as int) == -1,
        },
{
    let n = s.unicode_len();
    let mut i = from;
    proof {
        lemma_find_from(s@, c, from as int);
    }
    while i < n
        invariant
            n == s@.len(),
            from <= i,
            find_from(s@, c, from as int) == find_from(s@, c, i as int),
        decreases n - i,
    {
        if s.get_char(i) == c {
            assert(find_from(s@, c, i as int) == i);
            return Some(i);
        }
        i += 1;
    }
    None
}

/// `s` with every leading `c` removed.
pub open spec fn trim_leading(s: Seq<char>, c: char) -> Seq<char>
    decreases s.len(),
{
    if s.len() > 0 && s[0] == c {
        trim_leading(s.drop_first(), c)
    } else {
        s
    }
}

/// Removes every leading `c` from `s`, as `str::trim_start_matches` with a
/// character pattern does.
pub fn trim_start_char(s: &str, c: char) -> (r: String)
    ensures
        r@ == trim_leading(s@, c),
{
    let n = s.unicode_len();
    let mut i: usize = 0;
    assert(s@.subrange(0, n as int) =~= s@);
    while i < n && s.get_char(i) == c
        invariant
            n == s@.len(),
            i <= n,
            trim_leading(s@, c) == trim_leading(s@.subrange(i as int, n as int), c),
        decreases n - i,
    {
        assert(s@.subrange(i as int, n as int).drop_first() =~= s@.subrange(i + 1, n as int));
        i += 1;
    }
    let rest = s.substring_char(i, n);
    proof {
        let t = s@.subrange(i as int, n as int);
        if t.len() > 0 {
            assert(t[0] == s@[i as int]);
        }
    }
    String::from_str(rest)
}

/// `s` with every trailing `c` removed.
pub open spec fn trim_trailing(s: Seq<char>, c: char) -> Seq<char>
    decreases s.len(),
{
    if s.len() > 0 && s.last() == c {
        trim_trailing(s.drop_last(), c)
    } else {
        s
    }
}

/// Removes every trailing `c` from `s`, as `str::trim_end_matches` with a
/// character pattern does.
pub fn trim_end_char(s: &str, c: char) -> (r: String)
    ensures
        r@ == trim_trailing(s@, c),
{
    let n = s.unicode_len();
    let mut k: usize = n;
    assert(s@.subrange(0, n as int) =~= s@);
    while k > 0 && s.get_char(k - 1) == c
        invariant
            n == s@.len(),
            k <= n,
            trim_trailing(s@, c) == trim_trailing(s@.subrange(0, k as int), c),
        decreases k,
    {
        assert(s@.subrange(0, k as int).drop_last() =~= s@.subrange(0, k - 1));
        k -= 1;
    }
    let rest = s.substring_char(0, k);
    String::from_str(rest)
}

/// Copies a string slice into an owned `String`.
pub fn to_owned(s: &str) -> (r: String)
    ensures
        r@ == s@,
{
    String::from_str(s)
}

/// Concatenation of two string slices.
pub fn concat(a: &str, b: &str) -> (r: String)
    ensures
        r@ == a@ + b@,
{
    let mut r = String::from_str(a);
    r.append(b);
    r
}

} // verus!
