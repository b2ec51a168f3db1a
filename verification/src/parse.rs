//! Case-insensitive matching of unit and route symbols.
//!
//! The external vocabulary ("mg", "hours", "oral", ...) is matched without
//! regard to ASCII letter case; any other character (such as the micro
//! sign) must match exactly.  Unrecognized text is never an error: the
//! callers map it to their `Invalid` variant.
use vstd::prelude::*;

use vstd::string::StrSliceExecFns;

verus! {

/// `a` matches `b` up to ASCII case, where `b` is already lower-case.
pub open spec fn char_ieq(a: char, b: char) -> bool {
    a == b || (65 <= a as u32 <= 90 && a as u32 + 32 == b as u32)
}

/// `s` matches the lower-case pattern `pat` up to ASCII case.
pub open spec fn seq_ieq(s: Seq<char>, pat: Seq<char>) -> bool {
    s.len() == pat.len() && (forall|i: int| 0 <= i < s.len() ==> char_ieq(s[i], pat[i]))
}

fn char_matches(a: char, b: char) -> (r: bool)
    ensures
        r == char_ieq(a, b),
{
    let au = a as u32;
    let bu = b as u32;
    a == b || (au >= 65 && au <= 90 && au + 32 == bu)
}

/// Compare `s` with the lower-case pattern `pat`, ignoring ASCII case.
pub fn eq_ignore_ascii(s: &str, pat: &str) -> (r: bool)
    ensures
        r == seq_ieq(s@, pat@),
{
    let n = s.unicode_len();
    let m = pat.unicode_len();
    if n != m {
        return false;
    }
    let mut i: usize = 0;
    while i < n
        invariant
            n == s@.len(),
            n == pat@.len(),
            i <= n,
            forall|j: int| 0 <= j < i ==> char_ieq(s@[j], pat@[j]),
        decreases n - i,
    {
        if !char_matches(s.get_char(i), pat.get_char(i)) {
            return false;
        }
        i = i + 1;
    }
    true
}

} // verus!
