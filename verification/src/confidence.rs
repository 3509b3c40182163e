//! Turning the decimal text of a reported confidence into hundredths.
//!
//! A model reports its confidence as a JSON number in `[0, 1]`.  The library
//! keeps confidences as integers in hundredths, so the number's decimal text
//! is read directly: the value is truncated after two fractional digits,
//! which cannot move it across the classification bounds of 0.80 and 0.50,
//! since both are whole hundredths.  Values are clamped to at most `10.00`,
//! far above the meaningful range, and a negative number clamps to zero.

use vstd::prelude::*;

use crate::text::{chars_of, first_occurrence, subrange_chars};

verus! {

/// A decimal digit.
pub open spec fn is_digit(c: char) -> bool {
    '0' as u32 <= c as u32 && c as u32 <= '9' as u32
}

fn is_digit_char(c: char) -> (b: bool)
    ensures
        b == is_digit(c),
{
    let u = c as u32;
    48 <= u && u <= 57
}

/// The value of one digit.
pub open spec fn digit_val(c: char) -> int
    recommends
        is_digit(c),
{
    (c as u32) - ('0' as u32)
}

/// Every character of `s` is a digit.
pub open spec fn all_digits(s: Seq<char>) -> bool {
    forall|i: int| 0 <= i < s.len() ==> is_digit(#[trigger] s[i])
}

/// The value of a digit string read as a base-ten number.
pub open spec fn digits_val(s: Seq<char>) -> int
    recommends
        all_digits(s),
    decreases s.len(),
{
    if s.len() == 0 {
        0
    } else {
        digits_val(s.drop_last()) * 10 + digit_val(s.last())
    }
}

/// The shape accepted for an unsigned decimal number: digits, optionally
/// followed by a dot and more digits.
pub open spec fn is_decimal_body(s: Seq<char>) -> bool {
    match first_occurrence(s, '.') {
        Some(i) => 1 <= i && i + 1 < s.len() && all_digits(s.take(i)) && all_digits(
            s.skip(i + 1),
        ),
        None => s.len() >= 1 && all_digits(s),
    }
}

/// The first two fractional digits read as a number of hundredths.
pub open spec fn frac_hundredths(f: Seq<char>) -> int
    recommends
        f.len() >= 1,
        all_digits(f),
{
    if f.len() == 1 {
        digit_val(f[0]) * 10
    } else {
        digit_val(f[0]) * 10 + digit_val(f[1])
    }
}

/// The value of a decimal body in hundredths, truncated after two fractional
/// digits.
pub open spec fn decimal_hundredths(s: Seq<char>) -> int
    recommends
        is_decimal_body(s),
{
    match first_occurrence(s, '.') {
        Some(i) => digits_val(s.take(i)) * 100 + frac_hundredths(s.skip(i + 1)),
        None => digits_val(s) * 100,
    }
}

/// Hundredths clamped to the cap of `10.00`.
pub open spec fn clamp_confidence(x: int) -> u32 {
    if x > 1000 {
        1000u32
    } else {
        x as u32
    }
}

/// The confidence, in hundredths, carried by the decimal text `s`: `None`
/// when the text is not a plain decimal number, `0` for a negative number,
/// and otherwise the clamped truncation of the value.
pub open spec fn confidence_from_text(s: Seq<char>) -> Option<u32> {
    if s.len() >= 1 && s[0] == '-' {
        if is_decimal_body(s.drop_first()) {
            Some(0u32)
        } else {
            None
        }
    } else if is_decimal_body(s) {
        Some(clamp_confidence(decimal_hundredths(s)))
    } else {
        None
    }
}

proof fn lemma_digits_val_nonneg(s: Seq<char>)
    requires
        all_digits(s),
    ensures
        digits_val(s) >= 0,
    decreases s.len(),
{
    if s.len() > 0 {
        assert(all_digits(s.drop_last()));
        lemma_digits_val_nonneg(s.drop_last());
    }
}

fn scan_digits(v: &Vec<char>, from: usize, to: usize) -> (b: bool)
    requires
        from <= to <= v@.len(),
    ensures
        b == all_digits(v@.subrange(from as int, to as int)),
{
    for i in from..to
        invariant
            from <= i <= to <= v@.len(),
            forall|j: int| from <= j < i ==> is_digit(#[trigger] v@[j]),
    {
        if !is_digit_char(v[i]) {
            assert(v@.subrange(from as int, to as int)[i - from] == v@[i as int]);
            return false;
        }
    }
    assert forall|j: int| 0 <= j < to - from implies is_digit(
        #[trigger] v@.subrange(from as int, to as int)[j],
    ) by {
        assert(v@.subrange(from as int, to as int)[j] == v@[from + j]);
    }
    true
}

fn digits_value_capped(v: &Vec<char>, from: usize, to: usize) -> (val: u32)
    requires
        from <= to <= v@.len(),
        all_digits(v@.subrange(from as int, to as int)),
    ensures
        val as int == if digits_val(v@.subrange(from as int, to as int)) > 1000 {
            1001int
        } else {
            digits_val(v@.subrange(from as int, to as int))
        },
{
    proof {
        assert(v@.subrange(from as int, from as int) =~= Seq::<char>::empty());
    }
    let mut val: u32 = 0;
    for i in from..to
        invariant
            from <= i <= to <= v@.len(),
            all_digits(v@.subrange(from as int, to as int)),
            val as int == if digits_val(v@.subrange(from as int, i as int)) > 1000 {
                1001int
            } else {
                digits_val(v@.subrange(from as int, i as int))
            },
    {
        proof {
            assert(v@.subrange(from as int, i as int + 1).drop_last() =~= v@.subrange(
                from as int,
                i as int,
            ));
            assert(v@.subrange(from as int, i as int + 1).last() == v@[i as int]);
            assert(v@.subrange(from as int, to as int)[i - from] == v@[i as int]);
            assert(forall|j: int|
                from <= j < i + 1 ==> v@.subrange(from as int, i as int + 1)[j - from]
                    == #[trigger] v@[j]);
            assert(all_digits(v@.subrange(from as int, i as int + 1)));
            lemma_digits_val_nonneg(v@.subrange(from as int, i as int + 1));
            lemma_digits_val_nonneg(v@.subrange(from as int, i as int));
        }
        let d = (v[i] as u32) - 48;
        if val <= 1000 {
            val = val * 10 + d;
            if val > 1000 {
                val = 1001;
            }
        }
    }
    val
}

/// Reads the confidence carried by a decimal text, exactly as
/// [`confidence_from_text`] states.
pub fn parse_confidence(text: &str) -> (r: Option<u32>)
    ensures
        r == confidence_from_text(text@),
{
    let v = chars_of(text);
    let neg = v.len() >= 1 && v[0] == '-';
    let body = if neg {
        subrange_chars(&v, 1, v.len())
    } else {
        subrange_chars(&v, 0, v.len())
    };
    proof {
        if neg {
            assert(body@ =~= v@.drop_first());
        } else {
            assert(body@ =~= v@);
        }
    }
    match decimal_hundredths_checked(&body) {
        None => None,
        Some(val) => if neg {
            Some(0)
        } else {
            Some(val)
        },
    }
}

fn decimal_hundredths_checked(v: &Vec<char>) -> (r: Option<u32>)
    ensures
        match r {
            Some(c) => is_decimal_body(v@) && c == clamp_confidence(decimal_hundredths(v@)),
            None => !is_decimal_body(v@),
        },
{
    let n = v.len();
    match crate::text::find_first_char(v, '.') {
        Some(p) => {
            if p < 1 || p + 1 >= n {
                return None;
            }
            if !scan_digits(v, 0, p) {
                proof {
                    assert(v@.take(p as int) =~= v@.subrange(0, p as int));
                }
                return None;
            }
            if !scan_digits(v, p + 1, n) {
                proof {
                    assert(v@.skip(p as int + 1) =~= v@.subrange(p as int + 1, n as int));
                }
                return None;
            }
            proof {
                assert(v@.take(p as int) =~= v@.subrange(0, p as int));
                assert(v@.skip(p as int + 1) =~= v@.subrange(p as int + 1, n as int));
                lemma_digits_val_nonneg(v@.subrange(0, p as int));
            }
            let ip = digits_value_capped(v, 0, p);
            proof {
                assert(v@.skip(p as int + 1)[0] == v@[p as int + 1]);
                assert(is_digit(v@[p as int + 1]));
                if p + 2 < n {
                    assert(v@.skip(p as int + 1)[1] == v@[p as int + 2]);
                    assert(is_digit(v@[p as int + 2]));
                }
            }
            let d0 = (v[p + 1] as u32) - 48;
            let frac: u32 = if p + 2 < n {
                let d1 = (v[p + 2] as u32) - 48;
                d0 * 10 + d1
            } else {
                d0 * 10
            };
            if ip > 10 {
                Some(1000)
            } else {
                let t = ip * 100 + frac;
                if t > 1000 {
                    Some(1000)
                } else {
                    Some(t)
                }
            }
        },
        None => {
            if n < 1 {
                return None;
            }
            if !scan_digits(v, 0, n) {
                proof {
                    assert(v@.subrange(0, n as int) =~= v@);
                }
                return None;
            }
            proof {
                assert(v@.subrange(0, n as int) =~= v@);
                lemma_digits_val_nonneg(v@);
            }
            let ip = digits_value_capped(v, 0, n);
            if ip > 10 {
                Some(1000)
            } else {
                Some(ip * 100)
            }
        },
    }
}

} // verus!
