//! Decimal text: rendering integers for canonical names, and parsing
//! textual values during casts.

use vstd::prelude::*;

verus! {

/// The decimal digit character for `d` (0 to 9).
pub open spec fn digit_char(d: nat) -> char {
    if d == 0 {
        '0'
    } else if d == 1 {
        '1'
    } else if d == 2 {
        '2'
    } else if d == 3 {
        '3'
    } else if d == 4 {
        '4'
    } else if d == 5 {
        '5'
    } else if d == 6 {
        '6'
    } else if d == 7 {
        '7'
    } else if d == 8 {
        '8'
    } else {
        '9'
    }
}

pub open spec fn is_digit_char(c: char) -> bool {
    48 <= c as u32 <= 57
}

/// Numeric value of a digit character.
pub open spec fn digit_value(c: char) -> nat {
    (c as u32 - 48) as nat
}

/// The decimal rendering of a natural number, most significant digit first.
pub open spec fn dec_digits(n: nat) -> Seq<char>
    decreases n,
{
    if n < 10 {
        seq![digit_char(n)]
    } else {
        dec_digits(n / 10).push(digit_char(n % 10))
    }
}

/// The decimal rendering of an integer: a minus sign before the magnitude
/// when negative.
pub open spec fn dec_digits_signed(n: int) -> Seq<char> {
    if n < 0 {
        seq!['-'] + dec_digits((-n) as nat)
    } else {
        dec_digits(n as nat)
    }
}

/// Value of a sequence of digit characters, most significant first.
pub open spec fn decimal_value(s: Seq<char>) -> nat
    decreases s.len(),
{
    if s.len() == 0 {
        0
    } else {
        decimal_value(s.drop_last()) * 10 + digit_value(s.last())
    }
}

pub open spec fn all_digit_chars(s: Seq<char>) -> bool {
    forall|i: int| 0 <= i < s.len() ==> is_digit_char(#[trigger] s[i])
}

/// The integer a piece of text denotes: an optional minus sign followed by
/// one or more digits, nothing else.
pub open spec fn parse_decimal(s: Seq<char>) -> Option<int> {
    if s.len() > 0 && s[0] == '-' {
        let rest = s.skip(1);
        if rest.len() > 0 && all_digit_chars(rest) {
            Some(-(decimal_value(rest) as int))
        } else {
            None
        }
    } else {
        if s.len() > 0 && all_digit_chars(s) {
            Some(decimal_value(s) as int)
        } else {
            None
        }
    }
}

fn digit_str(d: u64) -> (r: &'static str)
    requires
        d < 10,
    ensures
        r@ == seq![digit_char(d as nat)],
{
    let r: &'static str = if d == 0 {
        "0"
    } else if d == 1 {
        "1"
    } else if d == 2 {
        "2"
    } else if d == 3 {
        "3"
    } else if d == 4 {
        "4"
    } else if d == 5 {
        "5"
    } else if d == 6 {
        "6"
    } else if d == 7 {
        "7"
    } else if d == 8 {
        "8"
    } else {
        "9"
    };
    proof {
        reveal_strlit("0");
        reveal_strlit("1");
        reveal_strlit("2");
        reveal_strlit("3");
        reveal_strlit("4");
        reveal_strlit("5");
        reveal_strlit("6");
        reveal_strlit("7");
        reveal_strlit("8");
        reveal_strlit("9");
        assert(r@ =~= seq![digit_char(d as nat)]);
    }
    r
}

/// Render a natural number in decimal.
pub fn u64_to_text(n: u64) -> (r: String)
    ensures
        r@ == dec_digits(n as nat),
    decreases n,
{
    if n < 10 {
        String::from_str(digit_str(n))
    } else {
        let mut s = u64_to_text(n / 10);
        s.append(digit_str(n % 10));
        proof {
            assert(s@ =~= dec_digits(n as nat));
        }
        s
    }
}

/// Render a signed number in decimal, `-` first when negative.
pub fn i128_to_text(n: i128) -> (r: String)
    requires
        -(u64::MAX as int) <= n <= u64::MAX as int,
    ensures
        r@ == dec_digits_signed(n as int),
{
    if n < 0 {
        let mut s = String::from_str("-");
        let mag: u64 = (-n) as u64;
        let digits = u64_to_text(mag);
        s.append(digits.as_str());
        proof {
            reveal_strlit("-");
            assert(s@ =~= dec_digits_signed(n as int));
        }
        s
    } else {
        let r = u64_to_text(n as u64);
        r
    }
}

/// Are two pieces of text the same characters?
pub fn str_eq(a: &str, b: &str) -> (r: bool)
    ensures
        r == (a@ == b@),
{
    let alen = a.unicode_len();
    let blen = b.unicode_len();
    if alen != blen {
        return false;
    }
    let mut i: usize = 0;
    while i < alen
        invariant
            0 <= i <= alen,
            alen == a@.len(),
            alen == b@.len(),
            forall|j: int| 0 <= j < i ==> a@[j] == b@[j],
        decreases alen - i,
    {
        if a.get_char(i) != b.get_char(i) {
            return false;
        }
        i = i + 1;
    }
    proof {
        assert(a@ =~= b@);
    }
    true
}

/// What a scan of a piece of text found.
pub enum ParseOutcome {
    /// The text is not an optionally signed decimal number.
    NotANumber,
    /// The denoted value, which fits the widest column ranges.
    Value(i128),
    /// A well-formed number whose magnitude is above `u64::MAX`, hence out
    /// of every column type's range.
    TooBig,
}

/// Scan `s` as an optionally signed decimal number.
pub fn parse_decimal_text(s: &str) -> (r: ParseOutcome)
    ensures
        (r is NotANumber <==> parse_decimal(s@) is None),
        (r matches ParseOutcome::Value(n) ==> parse_decimal(s@) == Some(n as int)
            && -(u64::MAX as int) <= n <= u64::MAX as int),
        (r is TooBig ==> (parse_decimal(s@) matches Some(m) && (m > u64::MAX as int || m < -(
        u64::MAX as int)))),
{
    let len = s.unicode_len();
    if len == 0 {
        return ParseOutcome::NotANumber;
    }
    let negative = s.get_char(0) == '-';
    let start: usize = if negative {
        1
    } else {
        0
    };
    if start == len {
        // A lone minus sign denotes nothing.
        return ParseOutcome::NotANumber;
    }
    let ghost digits = if negative {
        s@.skip(1)
    } else {
        s@
    };
    let mut acc: u64 = 0;
    let mut too_big: bool = false;
    let mut i: usize = start;
    while i < len
        invariant
            start <= i <= len,
            len == s@.len(),
            start == if negative {
                1int
            } else {
                0int
            },
            negative ==> s@[0] == '-',
            !negative ==> s@.len() > 0 && s@[0] != '-',
            digits == s@.skip(start as int),
            start < len,
            all_digit_chars(digits.subrange(0, i - start)),
            !too_big ==> acc == decimal_value(digits.subrange(0, i - start)),
            too_big ==> decimal_value(digits.subrange(0, i - start)) > u64::MAX,
        decreases len - i,
    {
        let c = s.get_char(i);
        let code = c as u32;
        if code < 48 || code > 57 {
            proof {
                assert(digits[i - start] == s@[i as int]);
                assert(!is_digit_char(digits[i - start]));
                assert(!all_digit_chars(digits));
            }
            return ParseOutcome::NotANumber;
        }
        let d: u64 = (code - 48) as u64;
        proof {
            assert(digits.subrange(0, i - start + 1).drop_last() =~= digits.subrange(
                0,
                i - start,
            ));
            assert(digits.subrange(0, i - start + 1).last() == digits[i - start]);
            assert(digits[i - start] == s@[i as int]);
        }
        if too_big {
            proof {
                let prev = decimal_value(digits.subrange(0, i - start));
                assert(decimal_value(digits.subrange(0, i - start + 1)) == prev * 10 + digit_value(
                    digits[i - start],
                ));
                assert(prev * 10 >= prev) by (nonlinear_arith)
                    requires
                        prev >= 0,
                ;
            }
        } else {
            let wide: u128 = (acc as u128) * 10 + (d as u128);
            proof {
                assert(decimal_value(digits.subrange(0, i - start + 1)) == decimal_value(
                    digits.subrange(0, i - start),
                ) * 10 + digit_value(digits[i - start]));
            }
            if wide > u64::MAX as u128 {
                too_big = true;
            } else {
                acc = wide as u64;
            }
        }
        i = i + 1;
    }
    proof {
        assert(digits.subrange(0, i - start) =~= digits);
    }
    if too_big {
        return ParseOutcome::TooBig;
    }
    if negative {
        let v: i128 = -(acc as i128);
        ParseOutcome::Value(v)
    } else {
        ParseOutcome::Value(acc as i128)
    }
}

} // verus!
