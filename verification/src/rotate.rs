//! Validation of the rotation argument: a decimal string that must name
//! 90, 180 or 270 degrees.

use vstd::prelude::*;
use vstd::string::*;

verus! {

/// An ASCII decimal digit.
pub open spec fn is_digit(c: char) -> bool {
    48 <= c as int <= 57
}

/// The numeric value of an ASCII decimal digit.
pub open spec fn digit_val(c: char) -> int {
    c as int - 48
}

/// Every character of the sequence is an ASCII decimal digit.
pub open spec fn all_digits(s: Seq<char>) -> bool {
    forall|i: int| 0 <= i < s.len() ==> is_digit(#[trigger] s[i])
}

/// The number a sequence of decimal digits denotes, most significant first.
pub open spec fn numeral_value(s: Seq<char>) -> int
    decreases s.len(),
{
    if s.len() == 0 {
        0
    } else {
        numeral_value(s.drop_last()) * 10 + digit_val(s.last())
    }
}

/// The digits of a decimal string: everything after an optional leading
/// plus sign.
pub open spec fn digits_part(s: Seq<char>) -> Seq<char> {
    if s.len() > 0 && s[0] == '+' {
        s.subrange(1, s.len() as int)
    } else {
        s
    }
}

/// The strings that denote a `u32`: an optional leading `+`, then at least
/// one ASCII decimal digit, with a value that fits in 32 bits.
pub open spec fn is_valid_u32(s: Seq<char>) -> bool {
    &&& digits_part(s).len() > 0
    &&& all_digits(digits_part(s))
    &&& numeral_value(digits_part(s)) <= u32::MAX
}

/// A digit string denotes a non-negative number.
proof fn lemma_numeral_nonneg(s: Seq<char>)
    requires
        all_digits(s),
    ensures
        numeral_value(s) >= 0,
    decreases s.len(),
{
    if s.len() > 0 {
        assert(all_digits(s.drop_last()));
        lemma_numeral_nonneg(s.drop_last());
    }
}

/// Extending a digit string can only grow the number it denotes.
proof fn lemma_numeral_take_le(s: Seq<char>, n: int)
    requires
        all_digits(s),
        0 <= n <= s.len(),
    ensures
        numeral_value(s.take(n)) <= numeral_value(s),
    decreases s.len() - n,
{
    if n < s.len() {
        assert(s.take(n + 1).drop_last() =~= s.take(n));
        assert(all_digits(s.take(n)));
        lemma_numeral_nonneg(s.take(n));
        assert(numeral_value(s.take(n + 1)) == numeral_value(s.take(n)) * 10 + digit_val(
            s[n],
        ));
        lemma_numeral_take_le(s, n + 1);
    } else {
        assert(s.take(n) =~= s);
    }
}

/// Parses a decimal string as `u32::from_str` does: an optional leading
/// `+`, then one or more ASCII digits, rejecting anything else and any
/// value above `u32::MAX`.
pub fn parse_u32(s: &str) -> (r: Option<u32>)
    ensures
        match r {
            Some(n) => is_valid_u32(s@) && n == numeral_value(digits_part(s@)),
            None => !is_valid_u32(s@),
        },
{
    let len = s.unicode_len();
    let start: usize = if len > 0 && s.get_char(0) == '+' {
        1
    } else {
        0
    };
    let ghost d: Seq<char> = digits_part(s@);
    proof {
        assert(d =~= s@.subrange(start as int, len as int));
    }
    if start == len {
        return None;
    }
    let mut i: usize = start;
    let mut acc: u64 = 0;
    while i < len
        invariant
            start <= i <= len,
            len == s@.len(),
            d == digits_part(s@),
            d =~= s@.subrange(start as int, len as int),
            all_digits(d.take(i - start)),
            acc <= u32::MAX,
            acc == numeral_value(d.take(i - start)),
        decreases len - i,
    {
        let c = s.get_char(i);
        let cv = c as u32;
        proof {
            assert(d[i - start] == s@[i as int]);
        }
        if cv < 48 || cv > 57 {
            proof {
                assert(!is_digit(d[i - start]));
            }
            return None;
        }
        let dv = (cv - 48) as u64;
        let acc2 = acc * 10 + dv;
        proof {
            assert(d.take(i - start + 1).drop_last() =~= d.take(i - start));
            assert(d.take(i - start + 1).last() == d[i - start]);
            assert(all_digits(d.take(i - start + 1)));
        }
        if acc2 > 0xFFFF_FFFFu64 {
            proof {
                if all_digits(d) {
                    lemma_numeral_take_le(d, i - start + 1);
                }
            }
            return None;
        }
        acc = acc2;
        i = i + 1;
    }
    proof {
        assert(d.take(len - start) =~= d);
    }
    Some(acc as u32)
}

/// The complaint about a string that does not denote a number.
pub open spec fn invalid_number_message(s: Seq<char>) -> Seq<char> {
    "`"@ + s + "` Isn't a valid number."@
}

/// The complaint about a number of degrees other than 90, 180 or 270.
pub open spec fn invalid_rotation_message(s: Seq<char>) -> Seq<char> {
    "Invalid rotation value:"@ + s + " must one of: 90, 180 or 270"@
}

/// Checks a rotation argument: accepts exactly the decimal strings that
/// denote 90, 180 or 270 degrees, and names the failure otherwise.
pub fn rotate_valid(s: &str) -> (r: Result<u32, String>)
    ensures
        match r {
            Ok(d) => {
                &&& is_valid_u32(s@)
                &&& d == numeral_value(digits_part(s@))
                &&& (d == 90 || d == 180 || d == 270)
            },
            Err(m) => {
                &&& (is_valid_u32(s@) ==> !(numeral_value(digits_part(s@)) == 90
                    || numeral_value(digits_part(s@)) == 180 || numeral_value(digits_part(s@))
                    == 270))
                &&& m@ == if is_valid_u32(s@) {
                    invalid_rotation_message(s@)
                } else {
                    invalid_number_message(s@)
                }
            },
        },
{
    match parse_u32(s) {
        None => Err(String::from_str("`").concat(s).concat("` Isn't a valid number.")),
        Some(d) => {
            if d == 90 || d == 180 || d == 270 {
                Ok(d)
            } else {
                Err(
                    String::from_str("Invalid rotation value:").concat(s).concat(
                        " must one of: 90, 180 or 270",
                    ),
                )
            }
        },
    }
}

} // verus!
