//! Decimal integers as the arguments of commands write them.
use vstd::prelude::*;

verus! {

/// Whether `c` is an ASCII decimal digit.
pub open spec fn is_digit(c: char) -> bool {
    '0' <= c && c <= '9'
}

/// The value of a decimal digit.
pub open spec fn digit_value(c: char) -> int {
    (c as u32) - ('0' as u32)
}

/// Whether every character of `s` is a decimal digit.
pub open spec fn all_digits(s: Seq<char>) -> bool {
    forall|k: int| 0 <= k < s.len() ==> is_digit(#[trigger] s[k])
}

/// The value of the decimal numeral `s`, most significant digit first.
pub open spec fn digits_value(s: Seq<char>) -> int
    decreases s.len(),
{
    if s.len() == 0 {
        0
    } else {
        digits_value(s.drop_last()) * 10 + digit_value(s.last())
    }
}

/// The integer that `s` writes: an optional sign (`-` only when `signed`), then one or more digits.
pub open spec fn decimal_of(s: Seq<char>, signed: bool) -> Option<int> {
    if s.len() > 0 && s[0] == '+' {
        if s.len() > 1 && all_digits(s.drop_first()) {
            Some(digits_value(s.drop_first()))
        } else {
            None
        }
    } else if signed && s.len() > 0 && s[0] == '-' {
        if s.len() > 1 && all_digits(s.drop_first()) {
            Some(-digits_value(s.drop_first()))
        } else {
            None
        }
    } else if s.len() > 0 && all_digits(s) {
        Some(digits_value(s))
    } else {
        None
    }
}

/// The integer that `s` writes, if it lies in `[lo, hi]`.
pub open spec fn decimal_in(s: Seq<char>, signed: bool, lo: int, hi: int) -> Option<int> {
    match decimal_of(s, signed) {
        Some(v) => if lo <= v <= hi {
            Some(v)
        } else {
            None
        },
        None => None,
    }
}

proof fn lemma_digits_value_nonneg(s: Seq<char>)
    requires
        all_digits(s),
    ensures
        digits_value(s) >= 0,
    decreases s.len(),
{
    if s.len() > 0 {
        assert(all_digits(s.drop_last())) by {
            assert forall|k: int| 0 <= k < s.drop_last().len() implies is_digit(
                #[trigger] s.drop_last()[k],
            ) by {
                assert(s.drop_last()[k] == s[k]);
            }
        }
        lemma_digits_value_nonneg(s.drop_last());
    }
}

proof fn lemma_digits_value_prefix(s: Seq<char>, k: int)
    requires
        all_digits(s),
        0 <= k <= s.len(),
    ensures
        digits_value(s.subrange(0, k)) <= digits_value(s),
    decreases s.len() - k,
{
    if k < s.len() {
        let t = s.subrange(0, k + 1);
        assert(t.drop_last() =~= s.subrange(0, k));
        assert(all_digits(s.subrange(0, k))) by {
            assert forall|j: int| 0 <= j < s.subrange(0, k).len() implies is_digit(
                #[trigger] s.subrange(0, k)[j],
            ) by {
                assert(s.subrange(0, k)[j] == s[j]);
            }
        }
        lemma_digits_value_nonneg(s.subrange(0, k));
        assert(is_digit(s[k]));
        lemma_digits_value_prefix(s, k + 1);
    } else {
        assert(s.subrange(0, k) =~= s);
    }
}

/// The value of the digits of `s` from `start`, if they are all digits, at least one, and the
/// value fits in `u64`.
fn parse_digits(s: &Vec<char>, start: usize) -> (r: Option<u64>)
    requires
        start <= s@.len(),
    ensures
        r.is_some() <==> (start < s@.len() && all_digits(s@.subrange(start as int, s@.len() as int))
            && digits_value(s@.subrange(start as int, s@.len() as int)) <= u64::MAX),
        r.is_some() ==> r.unwrap() == digits_value(s@.subrange(start as int, s@.len() as int)),
{
    let n = s.len();
    if start >= n {
        return None;
    }
    let ghost whole = s@.subrange(start as int, n as int);
    let mut i: usize = start;
    let mut v: u64 = 0;
    while i < n
        invariant
            start <= i <= n,
            n == s@.len(),
            whole == s@.subrange(start as int, n as int),
            all_digits(s@.subrange(start as int, i as int)),
            v == digits_value(s@.subrange(start as int, i as int)),
        decreases n - i,
    {
        let c = s[i];
        let ghost next = s@.subrange(start as int, i + 1);
        assert(next.drop_last() =~= s@.subrange(start as int, i as int));
        assert(next.last() == c);
        if !('0' <= c && c <= '9') {
            assert(!all_digits(whole)) by {
                assert(whole[i - start] == c);
            }
            return None;
        }
        let d = (c as u32 - '0' as u32) as u64;
        if v > (u64::MAX - d) / 10 {
            proof {
                assert(all_digits(next)) by {
                    assert forall|k: int| 0 <= k < next.len() implies is_digit(#[trigger] next[k]) by {
                        if k < next.len() - 1 {
                            assert(next[k] == s@.subrange(start as int, i as int)[k]);
                        }
                    }
                }
                assert(digits_value(next) > u64::MAX) by (nonlinear_arith)
                    requires
                        digits_value(next) == v * 10 + d,
                        v > (u64::MAX - d) / 10,
                        0 <= d <= 9,
                ;
                if all_digits(whole) {
                    assert(whole.subrange(0, i + 1 - start) =~= next);
                    lemma_digits_value_prefix(whole, i + 1 - start);
                }
            }
            return None;
        }
        proof {
            assert(v * 10 + d <= u64::MAX) by (nonlinear_arith)
                requires
                    v <= (u64::MAX - d) / 10,
                    0 <= d <= 9,
            ;
        }
        v = v * 10 + d;
        i += 1;
        proof {
            assert(all_digits(s@.subrange(start as int, i as int))) by {
                assert forall|k: int| 0 <= k < next.len() implies is_digit(#[trigger] next[k]) by {
                    if k < next.len() - 1 {
                        assert(next[k] == s@.subrange(start as int, (i - 1) as int)[k]);
                    }
                }
            }
        }
    }
    Some(v)
}

/// The sign and the digits' value of a numeral: `(negative, magnitude)`.
fn parse_signed_parts(s: &str, signed: bool) -> (r: Option<(bool, u64)>)
    ensures
        r.is_some() <==> (decimal_of(s@, signed).is_some() && (if decimal_of(s@, signed).unwrap()
            < 0 {
            -decimal_of(s@, signed).unwrap()
        } else {
            decimal_of(s@, signed).unwrap()
        }) <= u64::MAX),
        r.is_some() ==> decimal_of(s@, signed).unwrap() == (if r.unwrap().0 {
            -(r.unwrap().1 as int)
        } else {
            r.unwrap().1 as int
        }),
        r.is_some() && !signed ==> !r.unwrap().0,
{
    let chars = crate::cursor::chars_of(s);
    let ghost t = s@;
    if chars.len() > 0 && (chars[0] == '+' || (signed && chars[0] == '-')) {
        let neg = chars[0] == '-';
        assert(chars@.subrange(1, chars@.len() as int) =~= t.drop_first());
        match parse_digits(&chars, 1) {
            Some(m) => {
                proof {
                    lemma_digits_value_nonneg(t.drop_first());
                }
                Some((neg, m))
            },
            None => {
                proof {
                    if t.len() > 1 && all_digits(t.drop_first()) {
                        lemma_digits_value_nonneg(t.drop_first());
                    }
                }
                None
            },
        }
    } else {
        assert(chars@.subrange(0, chars@.len() as int) =~= t);
        match parse_digits(&chars, 0) {
            Some(m) => {
                proof {
                    lemma_digits_value_nonneg(t);
                }
                Some((false, m))
            },
            None => {
                proof {
                    if t.len() > 0 && all_digits(t) {
                        lemma_digits_value_nonneg(t);
                    }
                }
                None
            },
        }
    }
}

proof fn lemma_unsigned_nonneg(s: Seq<char>)
    ensures
        decimal_of(s, false).is_some() ==> decimal_of(s, false).unwrap() >= 0,
{
    if s.len() > 0 && s[0] == '+' {
        if s.len() > 1 && all_digits(s.drop_first()) {
            lemma_digits_value_nonneg(s.drop_first());
        }
    } else if s.len() > 0 && all_digits(s) {
        lemma_digits_value_nonneg(s);
    }
}

/// Parses an unsigned integer in `[0, hi]`.
fn parse_unsigned_upto(s: &str, hi: u64) -> (r: Option<u64>)
    ensures
        r.is_some() <==> decimal_in(s@, false, 0, hi as int).is_some(),
        r.is_some() ==> r.unwrap() == decimal_in(s@, false, 0, hi as int).unwrap(),
{
    proof {
        lemma_unsigned_nonneg(s@);
    }
    match parse_signed_parts(s, false) {
        Some((_, m)) => {
            if m <= hi {
                Some(m)
            } else {
                None
            }
        },
        None => None,
    }
}

/// Parses a `u8` the way `str::parse::<u8>` does.
pub fn parse_u8(s: &str) -> (r: Option<u8>)
    ensures
        r.is_some() <==> decimal_in(s@, false, 0, u8::MAX as int).is_some(),
        r.is_some() ==> r.unwrap() == decimal_in(s@, false, 0, u8::MAX as int).unwrap(),
{
    match parse_unsigned_upto(s, u8::MAX as u64) {
        Some(v) => Some(v as u8),
        None => None,
    }
}

/// Parses a `u16` the way `str::parse::<u16>` does.
pub fn parse_u16(s: &str) -> (r: Option<u16>)
    ensures
        r.is_some() <==> decimal_in(s@, false, 0, u16::MAX as int).is_some(),
        r.is_some() ==> r.unwrap() == decimal_in(s@, false, 0, u16::MAX as int).unwrap(),
{
    match parse_unsigned_upto(s, u16::MAX as u64) {
        Some(v) => Some(v as u16),
        None => None,
    }
}

/// Parses a `u32` the way `str::parse::<u32>` does.
pub fn parse_u32(s: &str) -> (r: Option<u32>)
    ensures
        r.is_some() <==> decimal_in(s@, false, 0, u32::MAX as int).is_some(),
        r.is_some() ==> r.unwrap() == decimal_in(s@, false, 0, u32::MAX as int).unwrap(),
{
    match parse_unsigned_upto(s, u32::MAX as u64) {
        Some(v) => Some(v as u32),
        None => None,
    }
}

/// Parses a `u64` the way `str::parse::<u64>` does.
pub fn parse_u64(s: &str) -> (r: Option<u64>)
    ensures
        r.is_some() <==> decimal_in(s@, false, 0, u64::MAX as int).is_some(),
        r.is_some() ==> r.unwrap() == decimal_in(s@, false, 0, u64::MAX as int).unwrap(),
{
    parse_unsigned_upto(s, u64::MAX)
}

/// Parses an `i64` the way `str::parse::<i64>` does.
pub fn parse_i64(s: &str) -> (r: Option<i64>)
    ensures
        r.is_some() <==> decimal_in(s@, true, i64::MIN as int, i64::MAX as int).is_some(),
        r.is_some() ==> r.unwrap() == decimal_in(s@, true, i64::MIN as int, i64::MAX as int).unwrap(),
{
    match parse_signed_parts(s, true) {
        Some((neg, m)) => {
            if neg {
                if m <= 9223372036854775807u64 {
                    Some(-(m as i64))
                } else if m == 9223372036854775808u64 {
                    Some(i64::MIN)
                } else {
                    None
                }
            } else if m <= 9223372036854775807u64 {
                Some(m as i64)
            } else {
                None
            }
        },
        None => None,
    }
}

/// Parses an `i16` the way `str::parse::<i16>` does.
pub fn parse_i16(s: &str) -> (r: Option<i16>)
    ensures
        r.is_some() <==> decimal_in(s@, true, i16::MIN as int, i16::MAX as int).is_some(),
        r.is_some() ==> r.unwrap() == decimal_in(s@, true, i16::MIN as int, i16::MAX as int).unwrap(),
{
    match parse_i64(s) {
        Some(v) => {
            if -32768 <= v && v <= 32767 {
                Some(v as i16)
            } else {
                None
            }
        },
        None => {
            None
        },
    }
}

} // verus!
