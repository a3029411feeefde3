//! Name normalization: a name carries a required suffix exactly once at its end.
use vstd::prelude::*;
use vstd::string::StrSliceExecFns;
use vstd::string::StringExecFns;

verus! {

/// `suffix` stands at the end of `s`.
pub open spec fn has_suffix(s: Seq<char>, suffix: Seq<char>) -> bool {
    suffix.len() <= s.len() && s.subrange(s.len() - suffix.len(), s.len() as int) == suffix
}

/// `name` with `suffix` appended, unless it already ends with it.
pub open spec fn normalized(name: Seq<char>, suffix: Seq<char>) -> Seq<char> {
    if has_suffix(name, suffix) {
        name
    } else {
        name + suffix
    }
}

/// Whether `s` ends with `suffix`, compared character by character.
pub fn ends_with(s: &str, suffix: &str) -> (r: bool)
    ensures
        r == has_suffix(s@, suffix@),
{
    let n = s.unicode_len();
    let m = suffix.unicode_len();
    if m > n {
        return false;
    }
    let start: usize = n - m;
    let mut i: usize = 0;
    while i < m
        invariant
            n == s@.len(),
            m == suffix@.len(),
            m <= n,
            start == n - m,
            i <= m,
            forall|j: int| 0 <= j < i ==> s@[start + j] == suffix@[j],
        decreases m - i,
    {
        if s.get_char(start + i) != suffix.get_char(i) {
            assert(s@.subrange(start as int, n as int)[i as int] != suffix@[i as int]);
            return false;
        }
        i = i + 1;
    }
    assert(s@.subrange(start as int, n as int) =~= suffix@);
    true
}

/// Whether `a` and `b` hold the same characters.
pub fn same_text(a: &str, b: &str) -> (r: bool)
    ensures
        r == (a@ == b@),
{
    if a.unicode_len() != b.unicode_len() {
        return false;
    }
    let r = ends_with(a, b);
    assert(a@.subrange(0, a@.len() as int) =~= a@);
    r
}

/// `name` made to end with `suffix`: unchanged when it already does, else
/// with `suffix` appended once.
pub fn normalize_name(name: &str, suffix: &str) -> (r: String)
    ensures
        r@ == normalized(name@, suffix@),
{
    if ends_with(name, suffix) {
        name.to_owned()
    } else {
        name.to_owned().concat(suffix)
    }
}

} // verus!
