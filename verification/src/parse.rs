//! Verified parsing of decimal integer text into the committed field types.
//!
//! The commit events turn raw text into a signed charge or an unsigned
//! multiplicity. The accepted grammar is an optional sign (`+` for both,
//! `-` only for the signed charge) followed by one or more ASCII decimal
//! digits, with the value inside the target type's range; anything else
//! is rejected.

use vstd::prelude::*;

verus! {

/// An ASCII decimal digit, `'0'` through `'9'`.
pub open spec fn is_decimal_digit(c: char) -> bool {
    48 <= c as int <= 57
}

/// The numeric value of an ASCII decimal digit.
pub open spec fn digit_value(c: char) -> int {
    c as int - 48
}

/// Every character of `s` is an ASCII decimal digit.
pub open spec fn all_decimal_digits(s: Seq<char>) -> bool {
    forall|i: int| 0 <= i < s.len() ==> is_decimal_digit(#[trigger] s[i])
}

/// The value of a digit string read in base ten, most significant first.
pub open spec fn digits_value(s: Seq<char>) -> int
    decreases s.len(),
{
    if s.len() == 0 {
        0
    } else {
        10 * digits_value(s.drop_last()) + digit_value(s.last())
    }
}

/// What parsing `s` as an unsigned 8-bit integer yields: an optional
/// leading `+`, then one or more decimal digits whose value fits in `u8`,
/// or nothing.
pub open spec fn spec_parse_u8(s: Seq<char>) -> Option<u8> {
    let digits = if s.len() > 0 && s[0] == '+' {
        s.skip(1)
    } else {
        s
    };
    if digits.len() > 0 && all_decimal_digits(digits) && digits_value(digits) <= u8::MAX {
        Some(digits_value(digits) as u8)
    } else {
        None
    }
}

/// What parsing `s` as a signed 8-bit integer yields: an optional leading
/// `+` or `-`, then one or more decimal digits, with the signed value
/// inside `i8`'s range, or nothing.
pub open spec fn spec_parse_i8(s: Seq<char>) -> Option<i8> {
    let negative = s.len() > 0 && s[0] == '-';
    let digits = if s.len() > 0 && (s[0] == '+' || s[0] == '-') {
        s.skip(1)
    } else {
        s
    };
    let value = if negative {
        -digits_value(digits)
    } else {
        digits_value(digits)
    };
    if digits.len() > 0 && all_decimal_digits(digits) && i8::MIN <= value <= i8::MAX {
        Some(value as i8)
    } else {
        None
    }
}

proof fn lemma_digits_value_nonneg(s: Seq<char>)
    requires
        all_decimal_digits(s),
    ensures
        digits_value(s) >= 0,
    decreases s.len(),
{
    if s.len() > 0 {
        assert forall|i: int| 0 <= i < s.drop_last().len() implies is_decimal_digit(
            #[trigger] s.drop_last()[i],
        ) by {
            assert(s.drop_last()[i] == s[i]);
        }
        lemma_digits_value_nonneg(s.drop_last());
    }
}

/// A digit string is worth at least any of its prefixes: appending digits
/// never lowers the value.
proof fn lemma_digits_value_prefix_le(s: Seq<char>, i: int)
    requires
        all_decimal_digits(s),
        0 <= i <= s.len(),
    ensures
        digits_value(s.take(i)) <= digits_value(s),
    decreases s.len() - i,
{
    if i == s.len() {
        assert(s.take(i) =~= s);
    } else {
        assert forall|j: int| 0 <= j < s.take(i).len() implies is_decimal_digit(
            #[trigger] s.take(i)[j],
        ) by {
            assert(s.take(i)[j] == s[j]);
        }
        lemma_digits_value_nonneg(s.take(i));
        assert(s.take(i + 1).drop_last() =~= s.take(i));
        assert(s.take(i + 1).last() == s[i]);
        assert(digits_value(s.take(i)) <= digits_value(s.take(i + 1)));
        lemma_digits_value_prefix_le(s, i + 1);
    }
}

/// Reads the digits of `s` from position `start` to the end and returns
/// their value, so long as it stays within `bound`; rejects anything that
/// is empty, holds a non-digit, or exceeds `bound`.
fn digits_to_value(s: &str, start: usize, bound: u32) -> (r: Option<u32>)
    requires
        start as int <= s@.len(),
        bound <= 255,
    ensures
        ({
            let d = s@.skip(start as int);
            match r {
                Some(v) => d.len() > 0 && all_decimal_digits(d) && digits_value(d) == v && v
                    <= bound,
                None => !(d.len() > 0 && all_decimal_digits(d) && digits_value(d) <= bound),
            }
        }),
{
    let ghost d = s@.skip(start as int);
    let len = s.unicode_len();
    if start >= len {
        return None;
    }
    let mut acc: u32 = 0;
    let mut i: usize = start;
    while i < len
        invariant
            start <= i <= len,
            len == s@.len(),
            bound <= 255,
            acc <= bound,
            d == s@.skip(start as int),
            all_decimal_digits(s@.subrange(start as int, i as int)),
            acc == digits_value(s@.subrange(start as int, i as int)),
        decreases len - i,
    {
        let c = s.get_char(i);
        let u = c as u32;
        if u < 48 || u > 57 {
            proof {
                assert(d[i - start] == s@[i as int]);
                assert(!is_decimal_digit(d[i - start]));
            }
            return None;
        }
        let digit = u - 48;
        proof {
            assert(s@.subrange(start as int, i + 1).drop_last() =~= s@.subrange(
                start as int,
                i as int,
            ));
            assert(s@.subrange(start as int, i + 1).last() == s@[i as int]);
        }
        let new_acc = acc * 10 + digit;
        if new_acc > bound {
            proof {
                if all_decimal_digits(d) {
                    assert(d.take(i + 1 - start) =~= s@.subrange(start as int, i + 1));
                    lemma_digits_value_prefix_le(d, i + 1 - start);
                }
            }
            return None;
        }
        acc = new_acc;
        i = i + 1;
    }
    proof {
        assert(s@.subrange(start as int, len as int) =~= d);
    }
    Some(acc)
}

/// Parses `s` as an unsigned 8-bit integer, exactly as `spec_parse_u8`
/// describes.
pub fn parse_u8(s: &str) -> (r: Option<u8>)
    ensures
        r == spec_parse_u8(s@),
{
    let len = s.unicode_len();
    let start: usize = if len > 0 && s.get_char(0) == '+' {
        1
    } else {
        0
    };
    proof {
        assert(s@.skip(0) =~= s@);
    }
    let ghost digits = s@.skip(start as int);
    match digits_to_value(s, start, 255) {
        Some(v) => {
            proof {
                assert(digits_value(digits) == v as int);
                assert(digits_value(digits) as u8 == v as u8);
            }
            Some(v as u8)
        },
        None => None,
    }
}

/// Parses `s` as a signed 8-bit integer, exactly as `spec_parse_i8`
/// describes.
pub fn parse_i8(s: &str) -> (r: Option<i8>)
    ensures
        r == spec_parse_i8(s@),
{
    let len = s.unicode_len();
    let mut negative = false;
    let mut start: usize = 0;
    if len > 0 {
        let c = s.get_char(0);
        if c == '+' {
            start = 1;
        }
        if c == '-' {
            start = 1;
            negative = true;
        }
    }
    let bound: u32 = if negative {
        128
    } else {
        127
    };
    proof {
        assert(s@.skip(0) =~= s@);
    }
    let ghost digits = s@.skip(start as int);
    match digits_to_value(s, start, bound) {
        Some(v) => {
            let value: i32 = if negative {
                -(v as i32)
            } else {
                v as i32
            };
            proof {
                let spec_value = if negative {
                    -digits_value(digits)
                } else {
                    digits_value(digits)
                };
                assert(spec_value == value as int);
                assert(-128 <= value <= 127);
                assert(spec_value as i8 == value as i8);
            }
            Some(value as i8)
        },
        None => None,
    }
}

} // verus!
