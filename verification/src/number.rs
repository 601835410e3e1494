//! Decimal integers in text.
//!
//! An integer is an optional sign, `+` or `-`, followed by at least one
//! digit `0` to `9` and nothing else. The text is read from the left: the
//! first character that is not a digit, or the first digit at which the
//! value leaves the range of `i64`, decides the error.

use crate::text::chars_of;
use vstd::prelude::*;

verus! {

/// Why a piece of text is not an integer that fits in 64 bits.
#[derive(Clone, Copy, Debug, PartialEq, Eq, Structural)]
pub enum IntParseError {
    /// The text is empty.
    Empty,
    /// A character is not a digit, or a sign stands alone.
    InvalidDigit,
    /// The number is above `i64::MAX`.
    PosOverflow,
    /// The number is below `i64::MIN`.
    NegOverflow,
}

impl IntParseError {
    /// The wording of [`IntParseError::describe`].
    pub open spec fn describe_spec(self) -> Seq<char> {
        match self {
            IntParseError::Empty => "cannot parse integer from empty string"@,
            IntParseError::InvalidDigit => "invalid digit found in string"@,
            IntParseError::PosOverflow => "number too large to fit in target type"@,
            IntParseError::NegOverflow => "number too small to fit in target type"@,
        }
    }

    /// A short description of the failure.
    pub fn describe(&self) -> (r: &'static str)
        ensures
            r@ == self.describe_spec(),
    {
        match self {
            IntParseError::Empty => "cannot parse integer from empty string",
            IntParseError::InvalidDigit => "invalid digit found in string",
            IntParseError::PosOverflow => "number too large to fit in target type",
            IntParseError::NegOverflow => "number too small to fit in target type",
        }
    }
}

/// The value of a decimal digit, if the character is one.
pub open spec fn digit_value(c: char) -> Option<int> {
    let n = c as u32;
    if 0x30 <= n <= 0x39 {
        Some(n - 0x30)
    } else {
        None
    }
}

/// Reads digits from the left into `acc`, adding each digit to ten times
/// the value so far, or subtracting it when the number is negative.
pub open spec fn accumulate(digits: Seq<char>, acc: int, negative: bool) -> Result<
    int,
    IntParseError,
>
    decreases digits.len(),
{
    if digits.len() == 0 {
        Ok(acc)
    } else {
        match digit_value(digits[0]) {
            None => Err(IntParseError::InvalidDigit),
            Some(d) => {
                let next = if negative {
                    acc * 10 - d
                } else {
                    acc * 10 + d
                };
                if next > i64::MAX {
                    Err(IntParseError::PosOverflow)
                } else if next < i64::MIN {
                    Err(IntParseError::NegOverflow)
                } else {
                    accumulate(digits.drop_first(), next, negative)
                }
            },
        }
    }
}

/// The integer that a piece of text denotes, or why it denotes none.
pub open spec fn parse_i64_spec(s: Seq<char>) -> Result<int, IntParseError> {
    if s.len() == 0 {
        Err(IntParseError::Empty)
    } else if s.len() == 1 && (s[0] == '+' || s[0] == '-') {
        Err(IntParseError::InvalidDigit)
    } else if s[0] == '+' {
        accumulate(s.drop_first(), 0, false)
    } else if s[0] == '-' {
        accumulate(s.drop_first(), 0, true)
    } else {
        accumulate(s, 0, false)
    }
}

/// The outcome of a parse with the number taken as a mathematical integer.
pub open spec fn int_result_view(r: Result<i64, IntParseError>) -> Result<int, IntParseError> {
    match r {
        Ok(v) => Ok(v as int),
        Err(e) => Err(e),
    }
}

/// The number that a run of digits denotes: the last digit plus ten times
/// the number denoted by the digits before it.
pub open spec fn decimal_value(digits: Seq<char>) -> int
    decreases digits.len(),
{
    if digits.len() == 0 {
        0
    } else {
        decimal_value(digits.drop_last()) * 10 + match digit_value(digits.last()) {
            Some(d) => d,
            None => 0,
        }
    }
}

/// Whether every character of a sequence is a decimal digit.
pub open spec fn all_digits(digits: Seq<char>) -> bool {
    forall|k: int| 0 <= k < digits.len() ==> digit_value(#[trigger] digits[k]) is Some
}

/// The number reached when `digits` are read into `acc`: `acc` moved left
/// by one decimal place per digit, plus or minus the number the digits
/// denote.
pub open spec fn accumulated(digits: Seq<char>, acc: int, negative: bool) -> int {
    if negative {
        acc * pow10(digits.len()) - decimal_value(digits)
    } else {
        acc * pow10(digits.len()) + decimal_value(digits)
    }
}

/// Reading a run of digits gives the number it denotes when that number
/// fits, and the overflow error of its sign when it does not.
pub proof fn lemma_accumulate_value(digits: Seq<char>, acc: int, negative: bool)
    requires
        all_digits(digits),
        i64::MIN <= acc <= i64::MAX,
        negative ==> acc <= 0,
        !negative ==> acc >= 0,
    ensures
        accumulate(digits, acc, negative) == (if accumulated(digits, acc, negative) > i64::MAX {
            Err::<int, IntParseError>(IntParseError::PosOverflow)
        } else if accumulated(digits, acc, negative) < i64::MIN {
            Err::<int, IntParseError>(IntParseError::NegOverflow)
        } else {
            Ok::<int, IntParseError>(accumulated(digits, acc, negative))
        }),
    decreases digits.len(),
{
    if digits.len() == 0 {
        assert(pow10(0) == 1);
        assert(decimal_value(digits) == 0);
    } else {
        let d = digit_value(digits[0])->0;
        let rest = digits.drop_first();
        let next = if negative {
            acc * 10 - d
        } else {
            acc * 10 + d
        };
        let p = pow10(rest.len());
        let v = decimal_value(rest);
        lemma_decimal_value_front(digits);
        lemma_decimal_value_bounds(rest);
        lemma_pow10_positive(rest.len());
        assert(pow10(digits.len()) == 10 * p);
        assert(decimal_value(digits) == d * p + v);
        assert(accumulated(digits, acc, negative) == accumulated(rest, next, negative)) by {
            assert(acc * (10 * p) + (d * p + v) == (acc * 10 + d) * p + v) by (nonlinear_arith);
            assert(acc * (10 * p) - (d * p + v) == (acc * 10 - d) * p - v) by (nonlinear_arith);
        }
        if next > i64::MAX {
            assert(next * p + v >= next) by (nonlinear_arith)
                requires
                    next >= 0,
                    p >= 1,
                    v >= 0,
            ;
        } else if next < i64::MIN {
            assert(next * p - v <= next) by (nonlinear_arith)
                requires
                    next <= 0,
                    p >= 1,
                    v >= 0,
            ;
        } else {
            assert(all_digits(rest)) by {
                assert forall|k: int| 0 <= k < rest.len() implies digit_value(
                    #[trigger] rest[k],
                ) is Some by {
                    assert(rest[k] == digits[k + 1]);
                }
            }
            lemma_accumulate_value(rest, next, negative);
        }
    }
}

/// A run of digits, with or without a sign before it, is read as the number
/// it denotes, provided that number fits in 64 bits.
pub proof fn lemma_parse_i64_value(digits: Seq<char>)
    requires
        digits.len() > 0,
        all_digits(digits),
    ensures
        decimal_value(digits) <= i64::MAX ==> parse_i64_spec(digits) == Ok::<int, IntParseError>(
            decimal_value(digits),
        ) && parse_i64_spec(seq!['+'] + digits) == Ok::<int, IntParseError>(decimal_value(digits)),
        decimal_value(digits) > i64::MAX ==> parse_i64_spec(digits) == Err::<int, IntParseError>(
            IntParseError::PosOverflow,
        ),
        -decimal_value(digits) >= i64::MIN ==> parse_i64_spec(seq!['-'] + digits) == Ok::<
            int,
            IntParseError,
        >(-decimal_value(digits)),
        -decimal_value(digits) < i64::MIN ==> parse_i64_spec(seq!['-'] + digits) == Err::<
            int,
            IntParseError,
        >(IntParseError::NegOverflow),
{
    lemma_accumulate_value(digits, 0, false);
    lemma_accumulate_value(digits, 0, true);
    lemma_decimal_value_bounds(digits);
    assert(digit_value(digits[0]) is Some);
    assert((seq!['+'] + digits).drop_first() =~= digits);
    assert((seq!['-'] + digits).drop_first() =~= digits);
    assert(0 * pow10(digits.len()) == 0);
}

/// Ten to the power `n`.
pub open spec fn pow10(n: nat) -> int
    decreases n,
{
    if n == 0 {
        1
    } else {
        10 * pow10((n - 1) as nat)
    }
}

proof fn lemma_pow10_positive(n: nat)
    ensures
        pow10(n) >= 1,
    decreases n,
{
    if n > 0 {
        lemma_pow10_positive((n - 1) as nat);
    }
}

proof fn lemma_decimal_value_bounds(digits: Seq<char>)
    ensures
        0 <= decimal_value(digits) < pow10(digits.len()),
    decreases digits.len(),
{
    if digits.len() > 0 {
        lemma_decimal_value_bounds(digits.drop_last());
    }
}

/// The number a run of digits denotes, split at its first digit.
proof fn lemma_decimal_value_front(digits: Seq<char>)
    requires
        digits.len() > 0,
    ensures
        decimal_value(digits) == (match digit_value(digits[0]) {
            Some(d) => d,
            None => 0,
        }) * pow10((digits.len() - 1) as nat) + decimal_value(digits.drop_first()),
    decreases digits.len(),
{
    let d0 = match digit_value(digits[0]) {
        Some(d) => d,
        None => 0,
    };
    let dl = match digit_value(digits.last()) {
        Some(d) => d,
        None => 0,
    };
    let front = digits.drop_last();
    let tail = digits.drop_first();
    assert(decimal_value(digits) == decimal_value(front) * 10 + dl);
    if digits.len() == 1 {
        assert(decimal_value(front) == 0);
        assert(decimal_value(tail) == 0);
        assert(pow10(0) == 1);
        assert(digits.last() == digits[0]);
        assert(d0 * pow10((digits.len() - 1) as nat) == d0) by (nonlinear_arith)
            requires
                pow10((digits.len() - 1) as nat) == 1,
        ;
    } else {
        lemma_decimal_value_front(front);
        assert(front.drop_first() =~= tail.drop_last());
        assert(front[0] == digits[0]);
        assert(tail.last() == digits.last());
        let x = decimal_value(front.drop_first());
        assert(decimal_value(tail) == x * 10 + dl);
        let p = pow10((front.len() - 1) as nat);
        let q = pow10((digits.len() - 1) as nat);
        assert(q == 10 * p);
        assert(decimal_value(front) == d0 * p + x);
        assert((d0 * p + x) * 10 + dl == d0 * q + (x * 10 + dl)) by (nonlinear_arith)
            requires
                q == 10 * p,
        ;
    }
}

/// The digit that a character is.
fn digit_of(c: char) -> (r: Option<u8>)
    ensures
        match r {
            Some(d) => digit_value(c) == Some(d as int),
            None => digit_value(c) is None,
        },
{
    let n: u32 = c as u32;
    if 0x30 <= n && n <= 0x39 {
        Some((n - 0x30) as u8)
    } else {
        None
    }
}

/// Reads `chars[from..to]` as a decimal integer.
pub(crate) fn parse_i64(chars: &Vec<char>, from: usize, to: usize) -> (r: Result<i64, IntParseError>)
    requires
        from <= to <= chars.len(),
    ensures
        int_result_view(r) == parse_i64_spec(chars@.subrange(from as int, to as int)),
{
    let ghost s = chars@.subrange(from as int, to as int);
    if from == to {
        return Err(IntParseError::Empty);
    }
    let first = chars[from];
    assert(first == s[0]);
    if to - from == 1 && (first == '+' || first == '-') {
        return Err(IntParseError::InvalidDigit);
    }
    let negative = first == '-';
    let start: usize = if first == '+' || first == '-' {
        from + 1
    } else {
        from
    };
    assert(chars@.subrange(start as int, to as int) =~= if first == '+' || first == '-' {
        s.drop_first()
    } else {
        s
    });
    let mut acc: i64 = 0;
    let mut i: usize = start;
    while i < to
        invariant
            start <= i <= to <= chars.len(),
            parse_i64_spec(chars@.subrange(from as int, to as int)) == accumulate(
                chars@.subrange(i as int, to as int),
                acc as int,
                negative,
            ),
        decreases to - i,
    {
        let ghost rest = chars@.subrange(i as int, to as int);
        assert(rest[0] == chars@[i as int]);
        assert(rest.drop_first() =~= chars@.subrange(i as int + 1, to as int));
        match digit_of(chars[i]) {
            None => {
                return Err(IntParseError::InvalidDigit);
            },
            Some(d) => {
                let wide: i128 = if negative {
                    (acc as i128) * 10 - (d as i128)
                } else {
                    (acc as i128) * 10 + (d as i128)
                };
                if wide > i64::MAX as i128 {
                    return Err(IntParseError::PosOverflow);
                }
                if wide < i64::MIN as i128 {
                    return Err(IntParseError::NegOverflow);
                }
                acc = wide as i64;
            },
        }
        i += 1;
    }
    assert(chars@.subrange(to as int, to as int).len() == 0);
    Ok(acc)
}

/// Reads a piece of text as a decimal integer.
pub fn parse_integer(text: &str) -> (r: Result<i64, IntParseError>)
    ensures
        int_result_view(r) == parse_i64_spec(text@),
{
    let chars = chars_of(text);
    assert(chars@.subrange(0, chars.len() as int) =~= text@);
    parse_i64(&chars, 0, chars.len())
}

} // verus!
