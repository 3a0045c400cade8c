//! Substring search over the characters of a string.

use vstd::prelude::*;
use vstd::string::*;

verus! {

/// `pattern` stands in `text` starting at character `at`.
pub open spec fn occurs_at(text: Seq<char>, pattern: Seq<char>, at: int) -> bool {
    &&& 0 <= at
    &&& at + pattern.len() <= text.len()
    &&& text.subrange(at, at + pattern.len()) == pattern
}

/// `pattern` stands somewhere in `text`.
pub open spec fn contains_seq(text: Seq<char>, pattern: Seq<char>) -> bool {
    exists|at: int| occurs_at(text, pattern, at)
}

/// Whether `pattern` occurs in `text` as a run of consecutive characters.
pub fn contains(text: &str, pattern: &str) -> (found: bool)
    ensures
        found == contains_seq(text@, pattern@),
{
    let n: usize = text.unicode_len();
    let m: usize = pattern.unicode_len();
    if m > n {
        return false;
    }
    let mut i: usize = 0;
    while i <= n - m
        invariant
            n == text@.len(),
            m == pattern@.len(),
            m <= n,
            i <= n - m,
            forall|k: int| 0 <= k < i ==> !occurs_at(text@, pattern@, k),
        decreases n - m - i,
    {
        let mut j: usize = 0;
        let mut same: bool = true;
        while j < m && same
            invariant
                n == text@.len(),
                m == pattern@.len(),
                m <= n,
                i <= n - m,
                j <= m,
                same ==> forall|t: int| 0 <= t < j ==> text@[i + t] == pattern@[t],
                !same ==> !occurs_at(text@, pattern@, i as int),
            decreases m - j, same as int,
        {
            if text.get_char(i + j) != pattern.get_char(j) {
                same = false;
                proof {
                    if occurs_at(text@, pattern@, i as int) {
                        assert(text@.subrange(i as int, i + m)[j as int] == text@[i + j]);
                    }
                }
            } else {
                j += 1;
            }
        }
        if same {
            assert(text@.subrange(i as int, i + m) =~= pattern@);
            assert(occurs_at(text@, pattern@, i as int));
            return true;
        }
        if i == n - m {
            return false;
        }
        i += 1;
    }
    false
}

} // verus!
