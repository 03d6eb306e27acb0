//! Small facts about text shared by the parsers.
use vstd::prelude::*;
use vstd::string::*;

verus! {

/// The position of the first `sep` at or after `i`, or the length.
pub open spec fn next_sep(s: Seq<char>, i: int, sep: char) -> int
    decreases s.len() - i,
{
    if i < 0 || i >= s.len() {
        s.len() as int
    } else if s[i] == sep {
        i
    } else {
        next_sep(s, i + 1, sep)
    }
}

/// A separator found from `i` lies between `i` and the length.
pub proof fn lemma_next_sep_bounds(s: Seq<char>, i: int, sep: char)
    requires
        0 <= i <= s.len(),
    ensures
        i <= next_sep(s, i, sep) <= s.len(),
    decreases s.len() - i,
{
    if i < s.len() && s[i] != sep {
        lemma_next_sep_bounds(s, i + 1, sep);
    }
}

/// Finds the first `sep` at or after `from`; `n` is the text's length.
pub fn find_sep(s: &str, n: usize, from: usize, sep: char) -> (r: usize)
    requires
        n == s@.len(),
        from <= n,
    ensures
        r == next_sep(s@, from as int, sep),
        from <= r <= n,
{
    proof {
        lemma_next_sep_bounds(s@, from as int, sep);
    }
    let mut i = from;
    while i < n
        invariant
            from <= i <= n,
            n == s@.len(),
            next_sep(s@, from as int, sep) == next_sep(s@, i as int, sep),
        decreases n - i,
    {
        if s.get_char(i) == sep {
            return i;
        }
        i = i + 1;
    }
    i
}

/// Whether two texts are the same.
pub fn same_text(a: &str, b: &str) -> (r: bool)
    ensures
        r == (a@ == b@),
{
    a.to_owned() == b.to_owned()
}

} // verus!
