//! Character-level helpers on string slices.
use vstd::prelude::*;
use vstd::string::*;

verus! {

/// `s` ends with `suffix`.
pub open spec fn has_suffix(s: Seq<char>, suffix: Seq<char>) -> bool {
    &&& suffix.len() <= s.len()
    &&& s.subrange(s.len() - suffix.len(), s.len() as int) == suffix
}

/// `s` ends with `suffix` exactly when it is at least as long and its last characters
/// are those of `suffix`, one for one.
pub proof fn lemma_has_suffix(s: Seq<char>, suffix: Seq<char>)
    ensures
        has_suffix(s, suffix) <==> (suffix.len() <= s.len() && forall|j: int|
            0 <= j < suffix.len() ==> s[s.len() - suffix.len() + j] == #[trigger] suffix[j]),
        has_suffix(s + suffix, suffix),
{
    if suffix.len() <= s.len() {
        let tail = s.subrange(s.len() - suffix.len(), s.len() as int);
        if forall|j: int| 0 <= j < suffix.len() ==> s[s.len() - suffix.len() + j] == #[trigger] suffix[j] {
            assert(tail =~= suffix);
        }
    }
    let joined = s + suffix;
    assert(joined.subrange(joined.len() - suffix.len(), joined.len() as int) =~= suffix);
}

/// Whether two string slices hold the same characters.
pub fn str_eq(a: &str, b: &str) -> (r: bool)
    ensures
        r == (a@ == b@),
{
    let n = a.unicode_len();
    let m = b.unicode_len();
    if n != m {
        return false;
    }
    let mut i: usize = 0;
    while i < n
        invariant
            n == a@.len(),
            m == b@.len(),
            n == m,
            i <= n,
            forall|j: int| 0 <= j < i ==> a@[j] == b@[j],
        decreases n - i,
    {
        if a.get_char(i) != b.get_char(i) {
            return false;
        }
        i += 1;
    }
    assert(a@ =~= b@);
    true
}

/// Whether `s` ends with `suffix`.
pub fn str_ends_with(s: &str, suffix: &str) -> (r: bool)
    ensures
        r == has_suffix(s@, suffix@),
        r == (suffix@.len() <= s@.len() && forall|j: int|
            0 <= j < suffix@.len() ==> s@[s@.len() - suffix@.len() + j] == #[trigger] suffix@[j]),
{
    let n = s.unicode_len();
    let m = suffix.unicode_len();
    if m > n {
        return false;
    }
    let offset = n - m;
    let mut i: usize = 0;
    while i < m
        invariant
            n == s@.len(),
            m == suffix@.len(),
            m <= n,
            offset == n - m,
            i <= m,
            forall|j: int| 0 <= j < i ==> s@[offset + j] == suffix@[j],
        decreases m - i,
    {
        if s.get_char(offset + i) != suffix.get_char(i) {
            assert(s@.subrange(offset as int, n as int)[i as int] != suffix@[i as int]);
            return false;
        }
        i += 1;
    }
    assert(s@.subrange(offset as int, n as int) =~= suffix@);
    true
}

} // verus!
