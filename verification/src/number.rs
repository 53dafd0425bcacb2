//! Decimal text of unsigned integers, both ways, as std's `Display` and
//! `FromStr` give it.
use vstd::prelude::*;
use crate::text::push_char;

verus! {

/// The decimal digit character for `d` (`d` below ten).
pub open spec fn digit_char(d: int) -> char {
    if d == 0 { '0' } else if d == 1 { '1' } else if d == 2 { '2' } else if d == 3 { '3' }
    else if d == 4 { '4' } else if d == 5 { '5' } else if d == 6 { '6' } else if d == 7 { '7' }
    else if d == 8 { '8' } else { '9' }
}

pub open spec fn is_digit(c: char) -> bool {
    '0' <= c && c <= '9'
}

/// The value of a digit character.
pub open spec fn digit_value(c: char) -> int {
    (c as int) - ('0' as int)
}

/// Decimal text of `n`, without sign or leading zeros.
pub open spec fn decimal(n: nat) -> Seq<char>
    decreases n,
{
    if n < 10 {
        seq![digit_char(n as int)]
    } else {
        decimal(n / 10).push(digit_char((n % 10) as int))
    }
}

/// Value of a string of digits read in base ten.
pub open spec fn digits_value(d: Seq<char>) -> int
    decreases d.len(),
{
    if d.len() == 0 {
        0
    } else {
        digits_value(d.drop_last()) * 10 + digit_value(d.last())
    }
}

pub open spec fn all_digits(d: Seq<char>) -> bool {
    forall|i: int| 0 <= i < d.len() ==> #[trigger] is_digit(d[i])
}

/// The digits of an unsigned number's text: one leading `+` is allowed.
pub open spec fn unsigned_digits(s: Seq<char>) -> Seq<char> {
    if s.len() > 0 && s[0] == '+' { s.drop_first() } else { s }
}

/// What `u64::from_str` gives: `Some` exactly when the text is an optional
/// `+` followed by at least one digit and nothing else, and the value fits.
pub open spec fn parse_u64_spec(s: Seq<char>) -> Option<u64> {
    let d = unsigned_digits(s);
    if d.len() > 0 && all_digits(d) && digits_value(d) <= u64::MAX {
        Some(digits_value(d) as u64)
    } else {
        None
    }
}

/// What `u32::from_str` gives, by the same rule.
pub open spec fn parse_u32_spec(s: Seq<char>) -> Option<u32> {
    let d = unsigned_digits(s);
    if d.len() > 0 && all_digits(d) && digits_value(d) <= u32::MAX {
        Some(digits_value(d) as u32)
    } else {
        None
    }
}

fn digit_to_char(d: u64) -> (c: char)
    requires
        d < 10,
    ensures
        c == digit_char(d as int),
{
    if d == 0 { '0' } else if d == 1 { '1' } else if d == 2 { '2' } else if d == 3 { '3' }
    else if d == 4 { '4' } else if d == 5 { '5' } else if d == 6 { '6' } else if d == 7 { '7' }
    else if d == 8 { '8' } else { '9' }
}

/// Appends the decimal text of `n` to `out`.
pub fn push_decimal(out: &mut String, n: u64)
    ensures
        final(out)@ == old(out)@ + decimal(n as nat),
    decreases n,
{
    if n >= 10 {
        push_decimal(out, n / 10);
    }
    push_char(out, digit_to_char(n % 10));
    proof {
        if n >= 10 {
            assert(decimal(n as nat) == decimal((n / 10) as nat).push(digit_char((n % 10) as int)));
        }
    }
}

/// The decimal text of `n`, as `n.to_string()` gives it.
pub fn fmt_u64(n: u64) -> (res: String)
    ensures
        res@ == decimal(n as nat),
{
    let mut out = String::new();
    push_decimal(&mut out, n);
    proof {
        assert(Seq::<char>::empty() + decimal(n as nat) =~= decimal(n as nat));
    }
    out
}

proof fn lemma_digits_value_nonneg(d: Seq<char>)
    requires
        all_digits(d),
    ensures
        digits_value(d) >= 0,
    decreases d.len(),
{
    if d.len() > 0 {
        assert(is_digit(d[d.len() - 1]));
        lemma_digits_value_nonneg(d.drop_last());
    }
}

/// A prefix of a digit string never reads as more than the whole string.
proof fn lemma_prefix_value_le(d: Seq<char>, k: int)
    requires
        all_digits(d),
        0 <= k <= d.len(),
    ensures
        digits_value(d.take(k)) <= digits_value(d),
    decreases d.len(),
{
    if k < d.len() {
        let e = d.drop_last();
        assert(all_digits(e)) by {
            assert forall|i: int| 0 <= i < e.len() implies #[trigger] is_digit(e[i]) by {
                assert(is_digit(d[i]));
            }
        }
        lemma_prefix_value_le(e, k);
        assert(e.take(k) =~= d.take(k));
        assert(is_digit(d[d.len() - 1]));
        lemma_digits_value_nonneg(e);
    } else {
        assert(d.take(k) =~= d);
    }
}

fn char_digit(c: char) -> (r: Option<u64>)
    ensures
        r is Some <==> is_digit(c),
        r matches Some(v) ==> v == digit_value(c) && v < 10,
{
    if '0' <= c && c <= '9' {
        Some((c as u32 - '0' as u32) as u64)
    } else {
        None
    }
}

/// Why a text is not a number, as std's `IntErrorKind` tells it for an
/// unsigned type.
#[derive(Debug, Clone, Copy, PartialEq, Eq, Structural)]
pub enum IntErrorKind {
    Empty,
    InvalidDigit,
    PosOverflow,
}

/// Reading the digits stops at position `i`: its character is no digit, or
/// the digits up to it read as more than `u64::MAX`.
pub open spec fn fails_at(d: Seq<char>, i: int) -> bool {
    0 <= i < d.len() && (!is_digit(d[i]) || digits_value(d.take(i + 1)) > u64::MAX)
}

pub open spec fn first_failure(d: Seq<char>, i: int) -> bool {
    fails_at(d, i) && forall|j: int| 0 <= j < i ==> !#[trigger] fails_at(d, j)
}

/// What `u64::from_str` gives: an empty text is `Empty`; a lone `+` is an
/// invalid digit; otherwise the digits are read from the left, and the first
/// position that is no digit, or at which the value passes `u64::MAX`,
/// decides the error.
pub open spec fn read_u64_spec(s: Seq<char>) -> Result<u64, IntErrorKind> {
    if s.len() == 0 {
        Err(IntErrorKind::Empty)
    } else {
        let d = unsigned_digits(s);
        if d.len() == 0 {
            Err(IntErrorKind::InvalidDigit)
        } else if exists|i: int| first_failure(d, i) {
            let i = choose|i: int| first_failure(d, i);
            if is_digit(d[i]) { Err(IntErrorKind::PosOverflow) } else { Err(IntErrorKind::InvalidDigit) }
        } else {
            Ok(digits_value(d) as u64)
        }
    }
}

/// Reads an unsigned decimal number as `u64::from_str` does, with the kind
/// of error it reports.
pub fn read_u64(s: &str) -> (res: Result<u64, IntErrorKind>)
    ensures
        res == read_u64_spec(s@),
        res is Ok == parse_u64_spec(s@) is Some,
        res matches Ok(v) ==> parse_u64_spec(s@) == Some(v),
{
    let n = s.unicode_len();
    if n == 0 {
        return Err(IntErrorKind::Empty);
    }
    let d: &str = if s.get_char(0) == '+' { s.substring_char(1, n) } else { s };
    proof {
        assert(d@ =~= unsigned_digits(s@));
    }
    let ghost full = d@;
    let mut acc: u64 = 0;
    let mut any = false;
    for c in it: d.chars()
        invariant
            it.seq() == full,
            full == unsigned_digits(s@),
            s@.len() > 0,
            any <==> it.index() > 0,
            all_digits(full.take(it.index())),
            acc == digits_value(full.take(it.index())),
            forall|j: int| 0 <= j < it.index() ==> !#[trigger] fails_at(full, j),
    {
        let ghost k = it.index();
        proof {
            assert(full.take(k + 1int).drop_last() =~= full.take(k));
            assert(c == full[k]);
        }
        match char_digit(c) {
            None => {
                proof {
                    assert(fails_at(full, k));
                    assert(first_failure(full, k));
                    let i = choose|i: int| first_failure(full, i);
                    assert(i == k);
                    assert(!all_digits(full));
                }
                return Err(IntErrorKind::InvalidDigit);
            },
            Some(v) => {
                proof {
                    assert forall|i: int| 0 <= i < k + 1int implies #[trigger] is_digit(full.take(k + 1int)[i]) by {
                        if i < k {
                            assert(full.take(k + 1int)[i] == full.take(k)[i]);
                        }
                    }
                    assert(digits_value(full.take(k + 1int)) == acc * 10 + v);
                }
                let m = match acc.checked_mul(10) {
                    Some(m) => m,
                    None => {
                        proof {
                            assert(fails_at(full, k));
                            assert(first_failure(full, k));
                            let i = choose|i: int| first_failure(full, i);
                            assert(i == k);
                            overflow_means_none(full, k + 1);
                        }
                        return Err(IntErrorKind::PosOverflow);
                    },
                };
                match m.checked_add(v) {
                    None => {
                        proof {
                            assert(fails_at(full, k));
                            assert(first_failure(full, k));
                            let i = choose|i: int| first_failure(full, i);
                            assert(i == k);
                            overflow_means_none(full, k + 1);
                        }
                        return Err(IntErrorKind::PosOverflow);
                    },
                    Some(t) => {
                        acc = t;
                        proof {
                            assert(!fails_at(full, k));
                        }
                    },
                }
            },
        }
        any = true;
    }
    proof {
        assert(full.take(full.len() as int) =~= full);
        assert(!exists|i: int| first_failure(full, i));
    }
    if !any {
        Err(IntErrorKind::InvalidDigit)
    } else {
        Ok(acc)
    }
}

/// Reads an unsigned decimal number as `u64::from_str` does.
pub fn parse_u64(s: &str) -> (res: Option<u64>)
    ensures
        res == parse_u64_spec(s@),
{
    match read_u64(s) {
        Ok(v) => Some(v),
        Err(_) => None,
    }
}

proof fn overflow_means_none(full: Seq<char>, k: int)
    requires
        0 < k <= full.len(),
        all_digits(full.take(k)),
        digits_value(full.take(k)) > u64::MAX,
    ensures
        !(all_digits(full) && digits_value(full) <= u64::MAX),
{
    if all_digits(full) {
        lemma_prefix_value_le(full, k);
    }
}

/// Reads an unsigned decimal number as `u32::from_str` does.
pub fn parse_u32(s: &str) -> (res: Option<u32>)
    ensures
        res == parse_u32_spec(s@),
{
    match parse_u64(s) {
        None => {
            proof {
                let d = unsigned_digits(s@);
                if d.len() > 0 && all_digits(d) {
                    assert(digits_value(d) > u64::MAX);
                }
            }
            None
        },
        Some(v) => {
            proof {
                let d = unsigned_digits(s@);
                assert(d.len() > 0 && all_digits(d) && digits_value(d) <= u64::MAX);
                lemma_digits_value_nonneg(d);
                assert(v == digits_value(d));
            }
            if v <= 0xffff_ffff {
                Some(v as u32)
            } else {
                None
            }
        },
    }
}

proof fn lemma_digit_roundtrip(k: int)
    requires
        0 <= k < 10,
    ensures
        is_digit(digit_char(k)),
        digit_value(digit_char(k)) == k,
{
}

proof fn lemma_decimal_digits(n: nat)
    ensures
        decimal(n).len() > 0,
        all_digits(decimal(n)),
        digits_value(decimal(n)) == n,
    decreases n,
{
    if n < 10 {
        lemma_digit_roundtrip(n as int);
        let d = decimal(n);
        assert(d.drop_last() =~= Seq::<char>::empty());
        assert(digits_value(d.drop_last()) == 0);
        assert(d.last() == digit_char(n as int));
        assert(digits_value(d) == digits_value(d.drop_last()) * 10 + digit_value(d.last()));
    } else {
        lemma_decimal_digits(n / 10);
        lemma_digit_roundtrip((n % 10) as int);
        assert((n / 10) * 10 + n % 10 == n) by (nonlinear_arith);
        let d = decimal(n);
        assert(d.drop_last() =~= decimal(n / 10));
        assert(d.last() == digit_char((n % 10) as int));
        assert(digits_value(d) == digits_value(d.drop_last()) * 10 + digit_value(d.last()));
        assert forall|i: int| 0 <= i < d.len() implies #[trigger] is_digit(d[i]) by {
            if i < d.len() - 1 {
                assert(d[i] == decimal(n / 10)[i]);
            }
        }
    }
}

/// Reading back the decimal text of a number gives the number.
pub proof fn lemma_parse_decimal(n: u64)
    ensures
        parse_u64_spec(decimal(n as nat)) == Some(n),
{
    lemma_decimal_digits(n as nat);
    let d = decimal(n as nat);
    assert(is_digit(d[0]));
    assert(unsigned_digits(d) == d);
}

} // verus!
