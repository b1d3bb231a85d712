//! Small verified string utilities: equality, suffix tests, and locating the
//! last occurrence of a character. Paths are treated as plain character
//! sequences throughout the library.
use vstd::prelude::*;
use vstd::string::StrSliceExecFns;

verus! {

/// True when `s` ends with `suffix`.
pub open spec fn ends_with(s: Seq<char>, suffix: Seq<char>) -> bool {
    suffix.len() <= s.len() && s.subrange(s.len() - suffix.len(), s.len() as int) == suffix
}

/// The index of the last occurrence of `c` in `s`, or `-1` when `c` does not
/// occur.
pub open spec fn last_index_of(s: Seq<char>, c: char) -> int
    decreases s.len(),
{
    if s.len() == 0 {
        -1
    } else if s.last() == c {
        s.len() - 1
    } else {
        last_index_of(s.drop_last(), c)
    }
}

/// The views of a sequence of owned strings.
pub open spec fn views_of(strings: Seq<String>) -> Seq<Seq<char>> {
    strings.map_values(|s: String| s@)
}

/// Character-for-character equality of two string slices.
pub fn str_eq(a: &str, b: &str) -> (r: bool)
    ensures
        r == (a@ == b@),
{
    let sa = a.to_owned();
    let sb = b.to_owned();
    sa == sb
}

/// Whether `s` ends with `suffix`, counted in characters.
pub fn str_ends_with(s: &str, suffix: &str) -> (r: bool)
    ensures
        r == ends_with(s@, suffix@),
{
    let n = s.unicode_len();
    let m = suffix.unicode_len();
    if m > n {
        false
    } else {
        let tail = s.substring_char(n - m, n);
        str_eq(tail, suffix)
    }
}

/// The index of the last occurrence of `c` in `s`, if any.
pub fn find_last(s: &str, c: char) -> (r: Option<usize>)
    ensures
        match r {
            Some(i) => i == last_index_of(s@, c) && i < s@.len(),
            None => last_index_of(s@, c) == -1,
        },
{
    let n = s.unicode_len();
    let mut i = n;
    proof {
        assert(s@.take(n as int) =~= s@);
    }
    while i > 0
        invariant
            i <= n,
            n == s@.len(),
            last_index_of(s@, c) == last_index_of(s@.take(i as int), c),
        decreases i,
    {
        i = i - 1;
        let ch = s.get_char(i);
        proof {
            assert(s@.take(i as int + 1).last() == s@[i as int]);
            assert(s@.take(i as int + 1).drop_last() =~= s@.take(i as int));
        }
        if ch == c {
            return Some(i);
        }
    }
    proof {
        assert(s@.take(0) =~= Seq::<char>::empty());
    }
    None
}

} // verus!
