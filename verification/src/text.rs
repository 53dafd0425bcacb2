//! Small string primitives shared by the rest of the crate.
use vstd::prelude::*;

verus! {

/// `String::push` from std: appends one character.
#[verifier::external_body]
pub(crate) fn push_char(s: &mut String, c: char)
    ensures
        final(s)@ == old(s)@.push(c),
{
    s.push(c);
}

/// Appends a string slice.
pub fn push_str(s: &mut String, t: &str)
    ensures
        final(s)@ == old(s)@ + t@,
{
    s.append(t);
}


/// `<str as PartialEq>::eq` from std: whether two slices hold the same text.
#[verifier::external_body]
pub(crate) fn str_eq(a: &str, b: &str) -> (res: bool)
    ensures
        res == (a@ == b@),
{
    a == b
}

/// `i` is the position of the first `c` in `s`.
pub open spec fn is_first_at(s: Seq<char>, c: char, i: int) -> bool {
    &&& 0 <= i < s.len()
    &&& s[i] == c
    &&& forall|j: int| 0 <= j < i ==> s[j] != c
}

/// Splits `s` at its first `c`: the part before it, and the part after it
/// where there is one (`None` where `c` does not occur).
pub open spec fn split_first(s: Seq<char>, c: char) -> (Seq<char>, Option<Seq<char>>) {
    if exists|i: int| is_first_at(s, c, i) {
        let i = choose|i: int| is_first_at(s, c, i);
        (s.take(i), Some(s.skip(i + 1)))
    } else {
        (s, None)
    }
}

/// The position of the first `c` in `s`, if any.
pub fn find_char(s: &str, c: char) -> (res: Option<usize>)
    ensures
        res matches Some(i) ==> is_first_at(s@, c, i as int),
        res is None ==> !s@.contains(c),
{
    let n = s.unicode_len();
    let ghost full = s@;
    let mut k: usize = 0;
    for x in it: s.chars()
        invariant
            it.seq() == full,
            full == s@,
            n == full.len(),
            k == it.index(),
            forall|j: int| 0 <= j < k ==> full[j] != c,
    {
        assert(x == full[k as int]);
        if x == c {
            return Some(k);
        }
        k = k + 1;
    }
    None
}

/// Splits `s` at its first `c`, as `split_first` says.
pub fn split_once(s: &str, c: char) -> (res: (&str, Option<&str>))
    ensures
        res.0@ == split_first(s@, c).0,
        res.1 is Some == split_first(s@, c).1 is Some,
        res.1 matches Some(t) ==> t@ == split_first(s@, c).1.unwrap(),
{
    let n = s.unicode_len();
    match find_char(s, c) {
        Some(i) => {
            let before = s.substring_char(0, i);
            let after = s.substring_char(i + 1, n);
            proof {
                assert(is_first_at(s@, c, i as int));
                let j = choose|j: int| is_first_at(s@, c, j);
                assert(j == i);
                assert(before@ =~= s@.take(i as int));
                assert(after@ =~= s@.skip(i + 1));
            }
            (before, Some(after))
        },
        None => {
            proof {
                assert forall|i: int| !is_first_at(s@, c, i) by {
                    if is_first_at(s@, c, i) {
                        assert(s@.contains(c));
                    }
                }
            }
            (s, None)
        },
    }
}


/// `char::is_whitespace`: the Unicode White_Space property.
pub open spec fn is_whitespace(c: char) -> bool {
    ('\u{9}' <= c && c <= '\u{d}') || c == ' ' || c == '\u{85}' || c == '\u{a0}'
        || c == '\u{1680}' || ('\u{2000}' <= c && c <= '\u{200a}') || c == '\u{2028}'
        || c == '\u{2029}' || c == '\u{202f}' || c == '\u{205f}' || c == '\u{3000}'
}

fn whitespace(c: char) -> (b: bool)
    ensures
        b == is_whitespace(c),
{
    ('\u{9}' <= c && c <= '\u{d}') || c == ' ' || c == '\u{85}' || c == '\u{a0}'
        || c == '\u{1680}' || ('\u{2000}' <= c && c <= '\u{200a}') || c == '\u{2028}'
        || c == '\u{2029}' || c == '\u{202f}' || c == '\u{205f}' || c == '\u{3000}'
}

/// `s` without its leading whitespace.
pub open spec fn trim_start_spec(s: Seq<char>) -> Seq<char>
    decreases s.len(),
{
    if s.len() > 0 && is_whitespace(s[0]) { trim_start_spec(s.drop_first()) } else { s }
}

/// `s` without its trailing whitespace.
pub open spec fn trim_end_spec(s: Seq<char>) -> Seq<char>
    decreases s.len(),
{
    if s.len() > 0 && is_whitespace(s.last()) { trim_end_spec(s.drop_last()) } else { s }
}

/// `s` without whitespace at either end, as `s.trim_end().trim_start()` gives it.
pub open spec fn trim_spec(s: Seq<char>) -> Seq<char> {
    trim_start_spec(trim_end_spec(s))
}

/// Removes whitespace at both ends of `s`.
pub fn trim(s: &str) -> (res: &str)
    ensures
        res@ == trim_spec(s@),
{
    let n = s.unicode_len();
    let mut hi: usize = n;
    proof {
        assert(s@.take(n as int) =~= s@);
    }
    while hi > 0 && whitespace(s.get_char(hi - 1))
        invariant
            hi <= n,
            n == s@.len(),
            trim_end_spec(s@) == trim_end_spec(s@.take(hi as int)),
        decreases hi,
    {
        proof {
            assert(s@.take(hi as int).drop_last() =~= s@.take(hi - 1));
        }
        hi = hi - 1;
    }
    proof {
        assert(trim_end_spec(s@.take(hi as int)) == s@.take(hi as int));
    }
    let mut lo: usize = 0;
    while lo < hi && whitespace(s.get_char(lo))
        invariant
            lo <= hi <= n,
            n == s@.len(),
            trim_spec(s@) == trim_start_spec(s@.subrange(lo as int, hi as int)),
        decreases hi - lo,
    {
        proof {
            assert(s@.subrange(lo as int, hi as int).drop_first() =~= s@.subrange(lo + 1, hi as int));
        }
        lo = lo + 1;
    }
    let res = s.substring_char(lo, hi);
    proof {
        let t = s@.subrange(lo as int, hi as int);
        assert(trim_start_spec(t) == t);
    }
    res
}

} // verus!
