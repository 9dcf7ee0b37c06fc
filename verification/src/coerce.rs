use crate::error::{ParseError, ParseErrorSpec};
use vstd::prelude::*;
use vstd::string::*;

verus! {

/// Whether a character is a decimal digit.
pub open spec fn is_decimal_digit(c: char) -> bool {
    '0' <= c && c <= '9'
}

/// The numeric value of a decimal digit character.
pub open spec fn digit_value(c: char) -> int {
    c as int - '0' as int
}

/// Whether every character of the sequence is a decimal digit.
pub open spec fn all_digits(s: Seq<char>) -> bool {
    forall|i: int| 0 <= i < s.len() ==> is_decimal_digit(#[trigger] s[i])
}

/// The number denoted by a sequence of decimal digits, most significant
/// first.
pub open spec fn digits_value(s: Seq<char>) -> int
    decreases s.len(),
{
    if s.len() == 0 {
        0
    } else {
        digits_value(s.drop_last()) * 10 + digit_value(s.last())
    }
}

/// The digit part of an integer string: everything after an optional
/// leading '+'.
pub open spec fn int_digits(s: Seq<char>) -> Seq<char> {
    if s.len() > 0 && s[0] == '+' {
        s.drop_first()
    } else {
        s
    }
}

/// Whether the string denotes a non-negative base-10 integer within u32
/// range: an optional leading '+', then one or more decimal digits whose
/// value fits.
pub open spec fn is_u32_string(s: Seq<char>) -> bool {
    &&& int_digits(s).len() > 0
    &&& all_digits(int_digits(s))
    &&& digits_value(int_digits(s)) <= u32::MAX
}

/// The number a valid integer string denotes.
pub open spec fn u32_string_value(s: Seq<char>) -> int {
    digits_value(int_digits(s))
}

/// A sequence of digits denotes a non-negative number.
proof fn lemma_digits_value_nonneg(s: Seq<char>)
    requires
        all_digits(s),
    ensures
        digits_value(s) >= 0,
    decreases s.len(),
{
    if s.len() > 0 {
        assert(all_digits(s.drop_last())) by {
            assert(forall|i: int|
                0 <= i < s.len() - 1 ==> is_decimal_digit(#[trigger] s.drop_last()[i]));
        }
        lemma_digits_value_nonneg(s.drop_last());
    }
}

/// Extending a digit sequence on the right never decreases its value.
proof fn lemma_digits_value_prefix(s: Seq<char>, i: int)
    requires
        all_digits(s),
        0 <= i <= s.len(),
    ensures
        digits_value(s.subrange(0, i)) <= digits_value(s),
    decreases s.len() - i,
{
    if i == s.len() {
        assert(s.subrange(0, i) =~= s);
    } else {
        lemma_digits_value_prefix(s, i + 1);
        let t = s.subrange(0, i + 1);
        assert(t.drop_last() =~= s.subrange(0, i));
        assert(all_digits(s.subrange(0, i))) by {
            assert(forall|j: int|
                0 <= j < i ==> is_decimal_digit(#[trigger] s.subrange(0, i)[j]));
        }
        lemma_digits_value_nonneg(s.subrange(0, i));
        assert(digits_value(t) == digits_value(s.subrange(0, i)) * 10 + digit_value(s[i]));
        assert(digits_value(s.subrange(0, i)) * 10 >= digits_value(s.subrange(0, i))) by {
            lemma_digits_value_nonneg(s.subrange(0, i));
        }
    }
}

/// Convert a raw content string into a typed non-negative integer, exactly
/// when the string is an optionally '+'-prefixed run of decimal digits
/// denoting a value in u32 range; any other string is rejected as invalid
/// content carrying the string itself.
pub fn coerce_integer(content: &str) -> (r: Result<u32, ParseError>)
    ensures
        is_u32_string(content@) ==> (r matches Ok(v) && v == u32_string_value(content@)),
        !is_u32_string(content@) ==> (r matches Err(e) && e@ == ParseErrorSpec::InvalidContent(
            content@,
        )),
{
    let n = content.unicode_len();
    let start: usize = if n > 0 && content.get_char(0) == '+' {
        1
    } else {
        0
    };
    let ghost d = int_digits(content@);
    proof {
        assert(d =~= content@.subrange(start as int, n as int));
    }
    if start == n {
        return Err(ParseError::InvalidContent(content.to_owned()));
    }
    let mut acc: u32 = 0;
    let mut i: usize = start;
    let limit: u32 = u32::MAX / 10;
    let last_digit: u32 = u32::MAX % 10;
    while i < n
        invariant
            start <= i <= n,
            n == content@.len(),
            start < n,
            d == int_digits(content@),
            d =~= content@.subrange(start as int, n as int),
            all_digits(content@.subrange(start as int, i as int)),
            acc == digits_value(content@.subrange(start as int, i as int)),
            limit == u32::MAX / 10,
            last_digit == u32::MAX % 10,
        decreases n - i,
    {
        let c = content.get_char(i);
        if !(c >= '0' && c <= '9') {
            proof {
                assert(!is_decimal_digit(d[i - start]));
            }
            return Err(ParseError::InvalidContent(content.to_owned()));
        }
        let dv: u32 = (c as u32) - ('0' as u32);
        assert(dv == digit_value(content@[i as int]));
        assert(dv <= 9);
        if acc > limit || (acc == limit && dv > last_digit) {
            proof {
                let p = content@.subrange(start as int, i as int + 1);
                assert(p.drop_last() =~= content@.subrange(start as int, i as int));
                assert(digits_value(p) == acc * 10 + dv);
                assert(acc * 10 + dv > u32::MAX);
                assert(all_digits(p));
                if all_digits(d) {
                    assert(p =~= d.subrange(0, i - start + 1));
                    lemma_digits_value_prefix(d, i - start + 1);
                    assert(digits_value(d) > u32::MAX);
                }
            }
            return Err(ParseError::InvalidContent(content.to_owned()));
        }
        assert(acc * 10 + dv <= u32::MAX);
        proof {
            let p = content@.subrange(start as int, i as int + 1);
            assert(p.drop_last() =~= content@.subrange(start as int, i as int));
            assert(digits_value(p) == acc * 10 + dv);
        }
        acc = acc * 10 + dv;
        i = i + 1;
    }
    proof {
        assert(content@.subrange(start as int, i as int) =~= d);
        assert(is_u32_string(content@));
    }
    Ok(acc)
}

} // verus!
