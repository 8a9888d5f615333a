//! Character-level helpers on strings, with their meaning as sequences.
use vstd::prelude::*;

verus! {

/// `s` ends with `suffix`.
pub open spec fn ends_with(s: Seq<char>, suffix: Seq<char>) -> bool {
    suffix.len() <= s.len() && s.subrange(s.len() - suffix.len(), s.len() as int) == suffix
}

/// `s` begins with `prefix`.
pub open spec fn starts_with(s: Seq<char>, prefix: Seq<char>) -> bool {
    prefix.len() <= s.len() && s.subrange(0, prefix.len() as int) == prefix
}

/// Index of the last occurrence of `c` in `s`.
pub open spec fn last_index_of(s: Seq<char>, c: char) -> Option<int>
    decreases s.len(),
{
    if s.len() == 0 {
        None
    } else if s.last() == c {
        Some(s.len() - 1)
    } else {
        last_index_of(s.drop_last(), c)
    }
}

/// Index of the first occurrence of `c` in `s`.
pub open spec fn first_index_of(s: Seq<char>, c: char) -> Option<int>
    decreases s.len(),
{
    if s.len() == 0 {
        None
    } else if s.first() == c {
        Some(0)
    } else {
        match first_index_of(s.drop_first(), c) {
            Some(i) => Some(i + 1),
            None => None,
        }
    }
}

/// The part of `s` before the first `c`, or all of `s` where there is none.
pub open spec fn before_first(s: Seq<char>, c: char) -> Seq<char> {
    match first_index_of(s, c) {
        Some(i) => s.subrange(0, i),
        None => s,
    }
}

/// Copies the characters of a string into a vector.
pub fn chars_of(s: &str) -> (r: Vec<char>)
    ensures
        r@ == s@,
{
    let n = s.unicode_len();
    let mut out: Vec<char> = Vec::new();
    let mut i: usize = 0;
    while i < n
        invariant
            n == s@.len(),
            i <= n,
            out@ == s@.subrange(0, i as int),
        decreases n - i,
    {
        out.push(s.get_char(i));
        i = i + 1;
        assert(out@ =~= s@.subrange(0, i as int));
    }
    assert(out@ =~= s@);
    out
}

/// Whether the characters `s[from..from + t.len()]` are exactly `t`.
pub fn matches_at(s: &Vec<char>, from: usize, t: &Vec<char>) -> (r: bool)
    requires
        from + t@.len() <= s@.len(),
    ensures
        r == (s@.subrange(from as int, from + t@.len()) == t@),
{
    let n = s.len();
    let mut i: usize = 0;
    while i < t.len()
        invariant
            n == s@.len(),
            from + t@.len() <= s@.len(),
            i <= t@.len(),
            s@.subrange(from as int, from + i) == t@.subrange(0, i as int),
        decreases t@.len() - i,
    {
        if s[from + i] != t[i] {
            assert(s@.subrange(from as int, from + t@.len())[i as int] != t@[i as int]);
            return false;
        }
        i = i + 1;
        assert(s@.subrange(from as int, from + i) =~= t@.subrange(0, i as int));
    }
    assert(t@.subrange(0, i as int) =~= t@);
    true
}

/// Whether `s` ends with `suffix`.
pub fn str_ends_with(s: &str, suffix: &str) -> (r: bool)
    ensures
        r == ends_with(s@, suffix@),
{
    let sc = chars_of(s);
    let tc = chars_of(suffix);
    if tc.len() > sc.len() {
        return false;
    }
    matches_at(&sc, sc.len() - tc.len(), &tc)
}

/// Whether `s` begins with `prefix`.
pub fn str_starts_with(s: &str, prefix: &str) -> (r: bool)
    ensures
        r == starts_with(s@, prefix@),
{
    let sc = chars_of(s);
    let tc = chars_of(prefix);
    if tc.len() > sc.len() {
        return false;
    }
    matches_at(&sc, 0, &tc)
}

/// Whether two strings hold the same characters.
pub fn str_eq(a: &str, b: &str) -> (r: bool)
    ensures
        r == (a@ == b@),
{
    let ac = chars_of(a);
    let bc = chars_of(b);
    if ac.len() != bc.len() {
        return false;
    }
    let r = matches_at(&ac, 0, &bc);
    assert(ac@.subrange(0, bc@.len() as int) =~= ac@);
    r
}

/// The characters of `s` before the first `c`, or all of them where there is none.
pub fn chars_before(s: &str, c: char) -> (r: Vec<char>)
    ensures
        r@ == before_first(s@, c),
{
    let n = s.unicode_len();
    let mut out: Vec<char> = Vec::new();
    let mut i: usize = 0;
    assert(s@.subrange(0, n as int) =~= s@);
    while i < n
        invariant
            n == s@.len(),
            i <= n,
            out@ == s@.subrange(0, i as int),
            first_index_of(s@, c) == match first_index_of(s@.subrange(i as int, n as int), c) {
                Some(k) => Some(k + i),
                None => None,
            },
        decreases n - i,
    {
        let ch = s.get_char(i);
        let ghost rest = s@.subrange(i as int, n as int);
        assert(rest.first() == ch);
        if ch == c {
            return out;
        }
        assert(rest.drop_first() =~= s@.subrange(i + 1, n as int));
        out.push(ch);
        i = i + 1;
        assert(out@ =~= s@.subrange(0, i as int));
    }
    assert(s@.subrange(i as int, n as int) =~= Seq::<char>::empty());
    assert(out@ =~= s@);
    out
}

/// Whether the characters of `s` end with those of `t`.
pub fn chars_end_with(s: &Vec<char>, t: &Vec<char>) -> (r: bool)
    ensures
        r == ends_with(s@, t@),
{
    if t.len() > s.len() {
        return false;
    }
    matches_at(s, s.len() - t.len(), t)
}

} // verus!
