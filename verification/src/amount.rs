use vstd::prelude::*;
use vstd::string::StringSliceAdditionalSpecFns;

verus! {

/// Amounts are fixed-point decimals with at most six fractional digits,
/// held as a count of millionths of a unit. The parser below reads the
/// decimal text the caller supplied, so the fractional-digit bound is
/// checked on the decimal representation itself, never on a binary
/// floating approximation of it.

/// An ASCII decimal digit.
pub open spec fn is_digit(b: u8) -> bool {
    48 <= b <= 57
}

/// Whether every byte is an ASCII decimal digit.
pub open spec fn all_digits(s: Seq<u8>) -> bool {
    forall|i: int| 0 <= i < s.len() ==> is_digit(#[trigger] s[i])
}

/// The value of a digit string read as a base-ten number.
pub open spec fn digits_val(s: Seq<u8>) -> int
    decreases s.len(),
{
    if s.len() == 0 {
        0
    } else {
        digits_val(s.drop_last()) * 10 + (s.last() - 48)
    }
}

/// The position of the first `.` in `s`, or `s.len()` if there is none,
/// looking from `i` on.
pub open spec fn first_dot_from(s: Seq<u8>, i: int) -> int
    decreases s.len() - i,
{
    if i < 0 || i >= s.len() {
        s.len() as int
    } else if s[i] == 46 {
        i
    } else {
        first_dot_from(s, i + 1)
    }
}

/// The position of the first `.` in `s`, or `s.len()` if there is none.
pub open spec fn first_dot(s: Seq<u8>) -> int {
    first_dot_from(s, 0)
}

/// `n` ASCII zero digits.
pub open spec fn zero_digits(n: int) -> Seq<u8> {
    Seq::new(n as nat, |i: int| 48u8)
}

/// A well-formed amount: one or more integer digits, then optionally a
/// dot followed by one to six fractional digits.
pub open spec fn amount_wf(s: Seq<u8>) -> bool {
    let p = first_dot(s);
    &&& p >= 1
    &&& all_digits(s.subrange(0, p))
    &&& (p < s.len() ==> 1 <= s.len() - p - 1 <= 6 && all_digits(
        s.subrange(p + 1, s.len() as int),
    ))
}

/// The digit string of the amount in millionths: the integer digits, the
/// fractional digits, and zero digits padding the fraction out to six
/// places.
pub open spec fn amount_digits(s: Seq<u8>) -> Seq<u8> {
    let p = first_dot(s);
    if p == s.len() {
        s + zero_digits(6)
    } else {
        s.subrange(0, p) + s.subrange(p + 1, s.len() as int) + zero_digits(6 - (s.len() - p - 1))
    }
}

/// The value of a well-formed amount, in millionths of a unit.
pub open spec fn amount_value(s: Seq<u8>) -> int {
    digits_val(amount_digits(s))
}

/// What parsing the byte text of an amount yields: its value in
/// millionths, when the text is well formed and the value fits the
/// machine range; nothing otherwise.
pub open spec fn spec_parse_amount(s: Seq<u8>) -> Option<i64> {
    if amount_wf(s) && amount_value(s) <= i64::MAX {
        Some(amount_value(s) as i64)
    } else {
        None
    }
}

/// A digit string's value is not negative.
pub proof fn lemma_digits_val_nonneg(s: Seq<u8>)
    requires
        all_digits(s),
    ensures
        digits_val(s) >= 0,
    decreases s.len(),
{
    if s.len() > 0 {
        assert(all_digits(s.drop_last()));
        lemma_digits_val_nonneg(s.drop_last());
    }
}

/// Extending a digit string never shrinks its value.
pub proof fn lemma_digits_val_prefix(s: Seq<u8>, k: int)
    requires
        all_digits(s),
        0 <= k <= s.len(),
    ensures
        digits_val(s) >= digits_val(s.subrange(0, k)),
    decreases s.len() - k,
{
    if k == s.len() {
        assert(s.subrange(0, k) =~= s);
    } else {
        lemma_digits_val_prefix(s, k + 1);
        let t = s.subrange(0, k + 1);
        assert(t.drop_last() =~= s.subrange(0, k));
        assert(all_digits(s.subrange(0, k)));
        lemma_digits_val_nonneg(s.subrange(0, k));
    }
}

/// Parse the decimal text of an amount into millionths of a unit.
/// Accepted: one or more digits, optionally followed by a dot and one to
/// six fractional digits, the whole value at most `i64::MAX` millionths.
/// Anything else — a sign, a seventh fractional digit, a second dot, an
/// empty part, a foreign character, an overflow — yields `None`.
#[verifier::loop_isolation(false)]
pub fn parse_amount(s: &str) -> (r: Option<i64>)
    ensures
        r == spec_parse_amount(s.spec_bytes()),
{
    let bytes = s.as_bytes();
    let ghost bs = s.spec_bytes();
    let n = bytes.len();

    // Find the first dot.
    let mut p: usize = 0;
    while p < n && bytes[p] != 46
        invariant
            0 <= p <= n == bs.len(),
            bytes@ == bs,
            first_dot(bs) == first_dot_from(bs, p as int),
        decreases n - p,
    {
        p = p + 1;
    }
    assert(first_dot(bs) == p as int);

    // The shape checks.
    if p < 1 {
        return None;
    }
    let mut i: usize = 0;
    while i < p
        invariant
            0 <= i <= p <= n == bs.len(),
            bytes@ == bs,
            forall|j: int| 0 <= j < i ==> is_digit(#[trigger] bs[j]),
        decreases p - i,
    {
        if bytes[i] < 48 || bytes[i] > 57 {
            proof {
                assert(bs.subrange(0, p as int)[i as int] == bs[i as int]);
                assert(!all_digits(bs.subrange(0, p as int)));
            }
            return None;
        }
        i = i + 1;
    }
    assert(all_digits(bs.subrange(0, p as int)));
    let fraction_len: usize = if p < n {
        n - p - 1
    } else {
        0
    };
    if p < n {
        if fraction_len < 1 || fraction_len > 6 {
            return None;
        }
        let mut i: usize = p + 1;
        while i < n
            invariant
                p + 1 <= i <= n == bs.len(),
                bytes@ == bs,
                forall|j: int| p + 1 <= j < i ==> is_digit(#[trigger] bs[j]),
            decreases n - i,
        {
            if bytes[i] < 48 || bytes[i] > 57 {
                proof {
                    assert(bs.subrange(p + 1 as int, n as int)[i - (p + 1)] == bs[i as int]);
                    assert(!all_digits(bs.subrange(p + 1 as int, n as int)));
                }
                return None;
            }
            i = i + 1;
        }
        assert(all_digits(bs.subrange(p + 1 as int, n as int)));
    }
    assert(amount_wf(bs));
    let ghost digits = amount_digits(bs);
    proof {
        assert forall|j: int| 0 <= j < digits.len() implies is_digit(#[trigger] digits[j]) by {
            if p < n {
                assert(digits == bs.subrange(0, p as int) + bs.subrange(p + 1 as int, n as int)
                    + zero_digits(6 - fraction_len));
            }
        }
    }

    // Accumulate over the integer digits, then over six fractional
    // places (the given digits, then padding zeros): exactly the digit
    // string `amount_digits` describes.
    proof {
        assert(digits.len() == p + 6);
    }
    let mut value: i64 = 0;
    let mut k: usize = 0;
    while k < p
        invariant
            0 <= k <= p <= n == bs.len(),
            first_dot(bs) == p as int,
            fraction_len == if p < n {
                n - p - 1
            } else {
                0int
            },
            p < n ==> 1 <= fraction_len <= 6,
            bytes@ == bs,
            amount_wf(bs),
            digits == amount_digits(bs),
            all_digits(digits),
            digits.len() == p + 6,
            0 <= value,
            value as int == digits_val(digits.subrange(0, k as int)),
        decreases p - k,
    {
        let d: u8 = bytes[k];
        proof {
            assert(d == digits[k as int]);
            assert(digits.subrange(0, k + 1 as int).drop_last() =~= digits.subrange(0, k as int));
        }
        value = match accumulate_digit(value, d) {
            Some(v) => v,
            None => {
                proof {
                    lemma_digits_val_prefix(digits, k + 1 as int);
                }
                return None;
            },
        };
        k = k + 1;
    }
    let mut m: usize = 0;
    while m < 6
        invariant
            0 <= m <= 6,
            p <= n == bs.len(),
            first_dot(bs) == p as int,
            fraction_len == if p < n {
                n - p - 1
            } else {
                0int
            },
            p < n ==> 1 <= fraction_len <= 6,
            bytes@ == bs,
            amount_wf(bs),
            digits == amount_digits(bs),
            all_digits(digits),
            digits.len() == p + 6,
            0 <= value,
            value as int == digits_val(digits.subrange(0, p + m as int)),
        decreases 6 - m,
    {
        let d: u8 = if p < n && m < fraction_len {
            bytes[p + 1 + m]
        } else {
            48
        };
        proof {
            assert(d == digits[p + m as int]);
            assert(digits.subrange(0, p + m + 1 as int).drop_last() =~= digits.subrange(
                0,
                p + m as int,
            ));
        }
        value = match accumulate_digit(value, d) {
            Some(v) => v,
            None => {
                proof {
                    lemma_digits_val_prefix(digits, p + m + 1 as int);
                }
                return None;
            },
        };
        m = m + 1;
    }
    proof {
        assert(digits.subrange(0, p + 6 as int) =~= digits);
    }
    Some(value)
}

/// One step of base-ten accumulation: `value * 10 + (d - '0')`, or
/// nothing if that leaves the machine range.
fn accumulate_digit(value: i64, d: u8) -> (r: Option<i64>)
    requires
        value >= 0,
        is_digit(d),
    ensures
        match r {
            Some(v) => v as int == value * 10 + (d - 48),
            None => value * 10 + (d - 48) > i64::MAX,
        },
{
    let shifted = match value.checked_mul(10) {
        Some(v) => v,
        None => {
            return None;
        },
    };
    shifted.checked_add((d - 48) as i64)
}

} // verus!
