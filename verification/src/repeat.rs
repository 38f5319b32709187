//! Parsing of the repeat count the user types.

use vstd::prelude::*;

use crate::error::Error;

verus! {

/// A decimal digit.
pub open spec fn is_digit(c: char) -> bool {
    '0' <= c && c <= '9'
}

/// Every character of the sequence is a decimal digit.
pub open spec fn all_digits(s: Seq<char>) -> bool {
    forall|i: int| 0 <= i < s.len() ==> is_digit(s[i])
}

/// The number a digit sequence writes in decimal.
pub open spec fn digits_value(s: Seq<char>) -> int
    decreases s.len(),
{
    if s.len() == 0 {
        0
    } else {
        digits_value(s.drop_last()) * 10 + (s.last() as int - '0' as int)
    }
}

/// What a typed repeat count means: an empty answer selects one
/// repetition; a decimal number that fits in a byte is itself; anything
/// else is rejected.
pub open spec fn spec_parse_repeat(s: Seq<char>) -> Result<u8, Error> {
    if s.len() == 0 {
        Ok(1u8)
    } else if all_digits(s) && digits_value(s) <= 255 {
        Ok(digits_value(s) as u8)
    } else {
        Err(Error::InvalidRepeat)
    }
}

/// Parse the repeat count. An empty input means one repetition; a
/// non-numeric or too large input is an error, never a silent fallback.
pub fn parse_repeat(s: &str) -> (r: Result<u8, Error>)
    ensures
        r == spec_parse_repeat(s@),
{
    let n = s.unicode_len();
    if n == 0 {
        return Ok(1);
    }
    let mut i: usize = 0;
    let mut acc: u32 = 0;
    let mut over = false;
    while i < n
        invariant
            n == s@.len(),
            0 < n,
            i <= n,
            forall|k: int| 0 <= k < i ==> is_digit(s@[k]),
            !over ==> acc == digits_value(s@.take(i as int)) && acc <= 255,
            over ==> digits_value(s@.take(i as int)) > 255,
        decreases n - i,
    {
        let c = s.get_char(i);
        if c < '0' || c > '9' {
            return Err(Error::InvalidRepeat);
        }
        let d: u32 = (c as u32) - 48;
        proof {
            assert(s@.take(i + 1 as int).drop_last() =~= s@.take(i as int));
            assert(s@.take(i + 1 as int).last() == s@[i as int]);
        }
        if !over {
            let next: u32 = acc * 10 + d;
            if next > 255 {
                over = true;
            } else {
                acc = next;
            }
        }
        i = i + 1;
    }
    proof {
        assert(s@.take(n as int) =~= s@);
    }
    if over {
        Err(Error::InvalidRepeat)
    } else {
        Ok(acc as u8)
    }
}

} // verus!
