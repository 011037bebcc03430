//! Character scanning over text: finding the first occurrence of a
//! delimiter, and comparing two strings character by character.

use vstd::prelude::*;
use vstd::string::StrSliceExecFns;

verus! {

/// The index of the first character of `t` equal to `c1` or `c2`,
/// or `t.len()` when neither occurs.
pub open spec fn first_hit(t: Seq<char>, c1: char, c2: char) -> int
    decreases t.len(),
{
    if t.len() == 0 {
        0
    } else if t[0] == c1 || t[0] == c2 {
        0
    } else {
        1 + first_hit(t.drop_first(), c1, c2)
    }
}

/// `first_hit` is a position in `t` (or `t.len()`), it points at a
/// delimiter when it is in range, and nothing before it is a delimiter.
pub proof fn lemma_first_hit_props(t: Seq<char>, c1: char, c2: char)
    ensures
        0 <= first_hit(t, c1, c2) <= t.len(),
        first_hit(t, c1, c2) < t.len() ==> t[first_hit(t, c1, c2)] == c1 || t[first_hit(t, c1, c2)]
            == c2,
        forall|j: int| 0 <= j < first_hit(t, c1, c2) ==> t[j] != c1 && t[j] != c2,
    decreases t.len(),
{
    if t.len() == 0 {
    } else if t[0] == c1 || t[0] == c2 {
    } else {
        lemma_first_hit_props(t.drop_first(), c1, c2);
        assert forall|j: int| 0 <= j < first_hit(t, c1, c2) implies t[j] != c1 && t[j] != c2 by {
            if j > 0 {
                assert(t.drop_first()[j - 1] == t[j]);
            }
        }
    }
}

/// A position before which no delimiter occurs, and which is the end of
/// `t` or holds a delimiter, is `first_hit`.
pub proof fn lemma_first_hit_at(t: Seq<char>, c1: char, c2: char, i: int)
    requires
        0 <= i <= t.len(),
        forall|j: int| 0 <= j < i ==> t[j] != c1 && t[j] != c2,
        i < t.len() ==> t[i] == c1 || t[i] == c2,
    ensures
        first_hit(t, c1, c2) == i,
    decreases t.len(),
{
    if t.len() == 0 {
    } else if i == 0 {
    } else {
        assert(t[0] != c1 && t[0] != c2);
        assert forall|j: int| 0 <= j < i - 1 implies t.drop_first()[j] != c1 && t.drop_first()[j]
            != c2 by {
            assert(t.drop_first()[j] == t[j + 1]);
        }
        assert(i - 1 < t.drop_first().len() ==> t.drop_first()[i - 1] == c1 || t.drop_first()[i - 1]
            == c2);
        lemma_first_hit_at(t.drop_first(), c1, c2, i - 1);
    }
}

/// The index of the first occurrence of `c1` or `c2` in `s`, or the
/// length of `s` when neither occurs.
pub fn find_first(s: &str, c1: char, c2: char) -> (r: usize)
    ensures
        r == first_hit(s@, c1, c2),
{
    let n = s.unicode_len();
    let mut i: usize = 0;
    while i < n
        invariant
            n == s@.len(),
            0 <= i <= n,
            forall|j: int| 0 <= j < i ==> s@[j] != c1 && s@[j] != c2,
        decreases n - i,
    {
        let c = s.get_char(i);
        if c == c1 || c == c2 {
            proof {
                lemma_first_hit_at(s@, c1, c2, i as int);
            }
            return i;
        }
        i = i + 1;
    }
    proof {
        lemma_first_hit_at(s@, c1, c2, n as int);
    }
    n
}

/// Whether two strings hold the same characters.
pub fn str_eq(a: &str, b: &str) -> (r: bool)
    ensures
        r == (a@ == b@),
{
    let na = a.unicode_len();
    let nb = b.unicode_len();
    if na != nb {
        return false;
    }
    let mut i: usize = 0;
    while i < na
        invariant
            na == a@.len(),
            na == b@.len(),
            0 <= i <= na,
            forall|j: int| 0 <= j < i ==> a@[j] == b@[j],
        decreases na - i,
    {
        if a.get_char(i) != b.get_char(i) {
            return false;
        }
        i = i + 1;
    }
    proof {
        assert(a@ =~= b@);
    }
    true
}

} // verus!
