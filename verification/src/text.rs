use vstd::prelude::*;

verus! {

/// ASCII-only lower-casing of one character: `'A'..='Z'` map to
/// `'a'..='z'`, every other character is unchanged.
pub open spec fn spec_lower_char(c: char) -> char {
    if 'A' <= c && c <= 'Z' {
        ((c as u8) + 32) as char
    } else {
        c
    }
}

/// Executable form of [`spec_lower_char`].
pub fn lower_char(c: char) -> (r: char)
    ensures
        r == spec_lower_char(c),
{
    if 'A' <= c && c <= 'Z' {
        ((c as u8) + 32) as char
    } else {
        c
    }
}

/// Whether `s` and `t` are equal when compared ASCII-case-insensitively.
pub open spec fn spec_eq_ignore_case(s: Seq<char>, t: Seq<char>) -> bool {
    &&& s.len() == t.len()
    &&& forall|k: int|
        0 <= k < s.len() ==> spec_lower_char(#[trigger] s[k]) == spec_lower_char(t[k])
}

/// Compares two strings ASCII-case-insensitively.
pub fn eq_ignore_case(s: &str, t: &str) -> (r: bool)
    ensures
        r == spec_eq_ignore_case(s@, t@),
{
    let n = s.unicode_len();
    if n != t.unicode_len() {
        return false;
    }
    let mut k: usize = 0;
    while k < n
        invariant
            k <= n,
            n == s@.len(),
            n == t@.len(),
            forall|j: int|
                0 <= j < k ==> spec_lower_char(#[trigger] s@[j]) == spec_lower_char(t@[j]),
        decreases n - k,
    {
        if lower_char(s.get_char(k)) != lower_char(t.get_char(k)) {
            return false;
        }
        k += 1;
    }
    true
}

/// Whether `s` ends with `suffix`, compared ASCII-case-insensitively.
pub open spec fn spec_ends_with_ignore_case(s: Seq<char>, suffix: Seq<char>) -> bool {
    &&& s.len() >= suffix.len()
    &&& forall|k: int|
        0 <= k < suffix.len() ==> spec_lower_char(
            #[trigger] s[s.len() - suffix.len() + k],
        ) == spec_lower_char(suffix[k])
}

/// Tests whether `s` ends with `suffix`, ASCII-case-insensitively.
pub fn ends_with_ignore_case(s: &str, suffix: &str) -> (r: bool)
    ensures
        r == spec_ends_with_ignore_case(s@, suffix@),
{
    let n = s.unicode_len();
    let m = suffix.unicode_len();
    if n < m {
        return false;
    }
    let mut k: usize = 0;
    while k < m
        invariant
            k <= m,
            m <= n,
            n == s@.len(),
            m == suffix@.len(),
            forall|j: int|
                0 <= j < k ==> spec_lower_char(#[trigger] s@[n - m + j]) == spec_lower_char(
                    suffix@[j],
                ),
        decreases m - k,
    {
        if lower_char(s.get_char(n - m + k)) != lower_char(suffix.get_char(k)) {
            return false;
        }
        k += 1;
    }
    true
}

} // verus!
