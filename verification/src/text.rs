//! ASCII case folding for the schema's enum-like fields: log levels and the
//! location discriminator are matched against their known spellings after
//! lowering ASCII letters, so `Stdout` and `STDOUT` select the same variant.

use vstd::prelude::*;
use vstd::string::StrSliceExecFns;

verus! {

/// `c` with an ASCII upper-case letter lowered; any other character is kept.
pub open spec fn lower_char(c: char) -> char {
    if 65 <= c as int && c as int <= 90 {
        (((c as int) + 32) as u8) as char
    } else {
        c
    }
}

/// `s` with every ASCII upper-case letter lowered.
pub open spec fn to_lower(s: Seq<char>) -> Seq<char> {
    Seq::new(s.len(), |i: int| lower_char(s[i]))
}

/// Case folding leaves a string without ASCII upper-case letters as it is.
pub proof fn lemma_lower_identity(s: Seq<char>)
    requires
        forall|i: int| 0 <= i < s.len() ==> !(65 <= #[trigger] s[i] as int <= 90),
    ensures
        to_lower(s) == s,
{
    assert(to_lower(s) =~= s);
}

/// Exec counterpart of [`lower_char`].
pub fn lower_char_exec(c: char) -> (r: char)
    ensures
        r == lower_char(c),
{
    let n = c as u32;
    if 65 <= n && n <= 90 {
        ((n + 32) as u8) as char
    } else {
        c
    }
}

/// Whether `s`, lowered, spells exactly `t`.
pub fn lower_is(s: &str, t: &str) -> (r: bool)
    ensures
        r == (to_lower(s@) == t@),
{
    let n = s.unicode_len();
    let m = t.unicode_len();
    if n != m {
        assert(to_lower(s@).len() != t@.len());
        return false;
    }
    let mut i: usize = 0;
    while i < n
        invariant
            0 <= i <= n,
            n == s@.len(),
            n == t@.len(),
            forall|j: int| 0 <= j < i ==> to_lower(s@)[j] == t@[j],
        decreases n - i,
    {
        let c = lower_char_exec(s.get_char(i));
        let d = t.get_char(i);
        if c != d {
            assert(to_lower(s@)[i as int] != t@[i as int]);
            return false;
        }
        i += 1;
    }
    proof {
        assert(to_lower(s@) =~= t@);
    }
    true
}

} // verus!
