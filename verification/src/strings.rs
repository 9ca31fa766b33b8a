//! Verified text utilities: equality, prefix and substring search
//! (also ASCII-case-insensitive), and leftmost non-overlapping
//! replacement.  The engine's rules on stored text are built on these.

use vstd::prelude::*;

verus! {

/// Relies on std's `String::push`: appends the one character to the
/// end of the string.
#[verifier::external_body]
pub fn push_char(s: &mut String, c: char)
    ensures
        final(s)@ == old(s)@ + seq![c],
{
    s.push(c);
}

/// Are the two texts the same sequence of characters?
pub fn str_eq(a: &str, b: &str) -> (r: bool)
    ensures
        r == (a@ == b@),
{
    let n = a.unicode_len();
    if n != b.unicode_len() {
        assert(a@ != b@);
        return false;
    }
    let mut i: usize = 0;
    while i < n
        invariant
            i <= n,
            n == a@.len() == b@.len(),
            forall|j: int| 0 <= j < i ==> a@[j] == b@[j],
        decreases n - i,
    {
        if a.get_char(i) != b.get_char(i) {
            return false;
        }
        i = i + 1;
    }
    assert(a@ =~= b@);
    true
}

/// Does `s` begin with `p`?
pub open spec fn spec_starts_with(s: Seq<char>, p: Seq<char>) -> bool {
    s.len() >= p.len() && s.subrange(0, p.len() as int) == p
}

/// Does `p` occur in `s` starting at position `i`?
pub open spec fn spec_matches_at(s: Seq<char>, p: Seq<char>, i: int) -> bool {
    0 <= i && i + p.len() <= s.len() && s.subrange(i, i + p.len()) == p
}

/// Does `p` occur anywhere in `s`?
pub open spec fn spec_contains(s: Seq<char>, p: Seq<char>) -> bool {
    exists|i: int| spec_matches_at(s, p, i)
}

/// Occurrence check at one position, executable.
pub fn matches_at(s: &str, p: &str, i: usize) -> (r: bool)
    requires
        i + p@.len() <= s@.len(),
    ensures
        r == spec_matches_at(s@, p@, i as int),
{
    let n = s.unicode_len();
    let m = p.unicode_len();
    let mut k: usize = 0;
    while k < m
        invariant
            k <= m,
            n == s@.len(),
            m == p@.len(),
            i + m <= s@.len(),
            forall|j: int| 0 <= j < k ==> s@[i + j] == p@[j],
        decreases m - k,
    {
        if s.get_char(i + k) != p.get_char(k) {
            assert(s@.subrange(i as int, i + m) != p@) by {
                assert(s@.subrange(i as int, i + m)[k as int] == s@[i + k]);
            }
            return false;
        }
        k = k + 1;
    }
    assert(s@.subrange(i as int, i + m) =~= p@);
    true
}

/// Prefix check, executable.
pub fn starts_with(s: &str, p: &str) -> (r: bool)
    ensures
        r == spec_starts_with(s@, p@),
{
    if p.unicode_len() > s.unicode_len() {
        return false;
    }
    matches_at(s, p, 0)
}

/// Substring search, executable.
pub fn contains_sub(s: &str, p: &str) -> (r: bool)
    ensures
        r == spec_contains(s@, p@),
{
    let n = s.unicode_len();
    let m = p.unicode_len();
    if m > n {
        assert(!spec_contains(s@, p@));
        return false;
    }
    if m == 0 {
        assert(s@.subrange(0, 0) =~= p@);
        assert(spec_matches_at(s@, p@, 0));
        return true;
    }
    let mut i: usize = 0;
    while i < n - m + 1
        invariant
            0 < m <= n,
            n == s@.len(),
            m == p@.len(),
            i <= n - m + 1,
            forall|j: int| 0 <= j < i ==> !spec_matches_at(s@, p@, j),
        decreases n - m + 1 - i,
    {
        if matches_at(s, p, i) {
            return true;
        }
        i = i + 1;
    }
    assert(!spec_contains(s@, p@));
    false
}

/// Is `c` an ASCII capital letter?
pub open spec fn spec_is_ascii_upper(c: char) -> bool {
    65 <= c as int <= 90
}

/// Equality of two characters up to ASCII case.
pub open spec fn spec_ci_eq(a: char, b: char) -> bool {
    ||| a == b
    ||| (spec_is_ascii_upper(a) && a as int + 32 == b as int)
    ||| (spec_is_ascii_upper(b) && b as int + 32 == a as int)
}

/// Does `p` occur in `s` at position `i`, up to ASCII case?
pub open spec fn spec_ci_matches_at(s: Seq<char>, p: Seq<char>, i: int) -> bool {
    0 <= i && i + p.len() <= s.len() && forall|k: int|
        0 <= k < p.len() ==> spec_ci_eq(s[i + k], p[k])
}

/// Does `p` occur anywhere in `s`, up to ASCII case?
pub open spec fn spec_ci_contains(s: Seq<char>, p: Seq<char>) -> bool {
    exists|i: int| spec_ci_matches_at(s, p, i)
}

/// Case-insensitive character equality, executable.
pub fn ci_eq(a: char, b: char) -> (r: bool)
    ensures
        r == spec_ci_eq(a, b),
{
    let av = a as u32;
    let bv = b as u32;
    av == bv || (65 <= av && av <= 90 && av + 32 == bv) || (65 <= bv && bv <= 90 && bv + 32 == av)
}

/// Case-insensitive occurrence check at one position, executable.
pub fn ci_matches_at(s: &str, p: &str, i: usize) -> (r: bool)
    requires
        i + p@.len() <= s@.len(),
    ensures
        r == spec_ci_matches_at(s@, p@, i as int),
{
    let n = s.unicode_len();
    let m = p.unicode_len();
    let mut k: usize = 0;
    while k < m
        invariant
            k <= m,
            n == s@.len(),
            m == p@.len(),
            i + m <= s@.len(),
            forall|j: int| 0 <= j < k ==> spec_ci_eq(s@[i + j], p@[j]),
        decreases m - k,
    {
        if !ci_eq(s.get_char(i + k), p.get_char(k)) {
            return false;
        }
        k = k + 1;
    }
    true
}

/// Case-insensitive substring search, executable.
pub fn ci_contains(s: &str, p: &str) -> (r: bool)
    ensures
        r == spec_ci_contains(s@, p@),
{
    let n = s.unicode_len();
    let m = p.unicode_len();
    if m > n {
        assert(!spec_ci_contains(s@, p@));
        return false;
    }
    if m == 0 {
        assert(spec_ci_matches_at(s@, p@, 0));
        return true;
    }
    let mut i: usize = 0;
    while i < n - m + 1
        invariant
            0 < m <= n,
            n == s@.len(),
            m == p@.len(),
            i <= n - m + 1,
            forall|j: int| 0 <= j < i ==> !spec_ci_matches_at(s@, p@, j),
        decreases n - m + 1 - i,
    {
        if ci_matches_at(s, p, i) {
            return true;
        }
        i = i + 1;
    }
    assert(!spec_ci_contains(s@, p@));
    false
}

/// Leftmost, non-overlapping replacement of `p` by `r` throughout `s`,
/// as a sequence function.
pub open spec fn spec_replace(s: Seq<char>, p: Seq<char>, r: Seq<char>) -> Seq<char>
    decreases s.len(),
    when p.len() > 0
{
    if s.len() < p.len() {
        s
    } else if s.subrange(0, p.len() as int) == p {
        r + spec_replace(s.skip(p.len() as int), p, r)
    } else {
        seq![s[0]] + spec_replace(s.skip(1), p, r)
    }
}

/// Replacement, executable.
pub fn replace_all(s: &str, p: &str, r: &str) -> (out: String)
    requires
        p@.len() > 0,
    ensures
        out@ == spec_replace(s@, p@, r@),
{
    let n = s.unicode_len();
    let m = p.unicode_len();
    let mut out = String::new();
    let mut i: usize = 0;
    proof {
        assert(s@.skip(0) =~= s@);
    }
    while i < n
        invariant
            i <= n,
            n == s@.len(),
            m == p@.len(),
            m > 0,
            out@ + spec_replace(s@.skip(i as int), p@, r@) == spec_replace(s@, p@, r@),
        decreases n - i,
    {
        let ghost rest = s@.skip(i as int);
        if m <= n - i && matches_at(s, p, i) {
            proof {
                assert(rest.subrange(0, m as int) =~= s@.subrange(i as int, i + m));
                assert(rest.skip(m as int) =~= s@.skip(i + m));
            }
            out.append(r);
            i = i + m;
        } else {
            let c = s.get_char(i);
            proof {
                assert(rest[0] == s@[i as int]);
                assert(rest.skip(1) =~= s@.skip(i + 1));
                if i + m <= n {
                    assert(rest.subrange(0, m as int) =~= s@.subrange(i as int, i + m));
                } else {
                    assert(rest.len() < m);
                    assert(spec_replace(rest, p@, r@) == rest);
                    assert(rest =~= seq![rest[0]] + rest.skip(1));
                }
            }
            push_char(&mut out, c);
            i = i + 1;
        }
        proof {
            assert(out@ + spec_replace(s@.skip(i as int), p@, r@) =~= spec_replace(s@, p@, r@));
        }
    }
    proof {
        assert(s@.skip(n as int) =~= Seq::<char>::empty());
        assert(spec_replace(Seq::<char>::empty(), p@, r@) =~= Seq::<char>::empty());
        assert(out@ =~= spec_replace(s@, p@, r@));
    }
    out
}

} // verus!
