//! Character-level operations on command-line arguments.

use vstd::prelude::*;

verus! {

/// `s` without its leading `-` characters.
pub open spec fn skip_leading_dashes(s: Seq<char>) -> Seq<char>
    decreases s.len(),
{
    if s.len() > 0 && s[0] == '-' {
        skip_leading_dashes(s.drop_first())
    } else {
        s
    }
}

/// `s` without its trailing `-` characters.
pub open spec fn skip_trailing_dashes(s: Seq<char>) -> Seq<char>
    decreases s.len(),
{
    if s.len() > 0 && s.last() == '-' {
        skip_trailing_dashes(s.drop_last())
    } else {
        s
    }
}

/// `s` with every leading and trailing `-` removed.
pub open spec fn trim_dashes(s: Seq<char>) -> Seq<char> {
    skip_trailing_dashes(skip_leading_dashes(s))
}

/// Position of the first `=` in `s` at or after `i`, if any.
pub open spec fn first_eq_from(s: Seq<char>, i: int) -> Option<int>
    decreases s.len() - i,
{
    if i < 0 || i >= s.len() {
        None
    } else if s[i] == '=' {
        Some(i)
    } else {
        first_eq_from(s, i + 1)
    }
}

/// `s` split around its first `=`: the text before it and the text after it.
pub open spec fn split_first_eq(s: Seq<char>) -> Option<(Seq<char>, Seq<char>)> {
    match first_eq_from(s, 0) {
        Some(p) => Some((s.subrange(0, p), s.subrange(p + 1, s.len() as int))),
        None => None,
    }
}

/// Strips leading and trailing dashes from `s`.
pub fn trim_dashes_of(s: &str) -> (r: String)
    ensures
        r@ == trim_dashes(s@),
{
    let n = s.unicode_len();
    let mut i: usize = 0;
    assert(s@.subrange(0, n as int) =~= s@);
    while i < n && s.get_char(i) == '-'
        invariant
            n == s@.len(),
            i <= n,
            skip_leading_dashes(s@) == skip_leading_dashes(s@.subrange(i as int, n as int)),
        decreases n - i,
    {
        assert(s@.subrange(i as int, n as int).drop_first() =~= s@.subrange(i + 1, n as int));
        i = i + 1;
    }
    assert(skip_leading_dashes(s@) == s@.subrange(i as int, n as int));
    let mut j: usize = n;
    while j > i && s.get_char(j - 1) == '-'
        invariant
            n == s@.len(),
            i <= j <= n,
            skip_trailing_dashes(s@.subrange(i as int, n as int)) == skip_trailing_dashes(
                s@.subrange(i as int, j as int),
            ),
        decreases j,
    {
        assert(s@.subrange(i as int, j as int).drop_last() =~= s@.subrange(i as int, j - 1));
        j = j - 1;
    }
    s.substring_char(i, j).to_owned()
}

/// Splits `s` at its first `=`; `None` where it holds none.
pub fn split_at_first_eq(s: &str) -> (r: Option<(String, String)>)
    ensures
        match r {
            Some((k, v)) => split_first_eq(s@) == Some((k@, v@)),
            None => split_first_eq(s@) is None,
        },
{
    let n = s.unicode_len();
    let mut i: usize = 0;
    while i < n
        invariant
            n == s@.len(),
            i <= n,
            first_eq_from(s@, 0) == first_eq_from(s@, i as int),
        decreases n - i,
    {
        if s.get_char(i) == '=' {
            let k = s.substring_char(0, i).to_owned();
            let v = s.substring_char(i + 1, n).to_owned();
            return Some((k, v));
        }
        i = i + 1;
    }
    None
}

/// Whether two texts hold the same characters.
pub fn same_text(a: &str, b: &str) -> (r: bool)
    ensures
        r == (a@ == b@),
{
    let n = a.unicode_len();
    if n != b.unicode_len() {
        return false;
    }
    let mut i: usize = 0;
    while i < n
        invariant
            n == a@.len(),
            n == b@.len(),
            i <= n,
            forall|j: int| 0 <= j < i ==> a@[j] == b@[j],
        decreases n - i,
    {
        if a.get_char(i) != b.get_char(i) {
            return false;
        }
        i = i + 1;
    }
    assert(a@ =~= b@);
    true
}

} // verus!
