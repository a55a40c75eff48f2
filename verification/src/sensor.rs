//! Decoding a raw sensor reading.  A hardware monitor exposes a temperature
//! as a short decimal integer in millidegrees followed by a newline; the
//! reader hands the bytes over as read (at most 7 of them), and `parse_temp`
//! turns them into the signed value, rejecting anything malformed.

use vstd::prelude::*;

verus! {

/// Largest number of bytes a sensor file yields: up to six characters of
/// value plus the trailing newline.
pub const TEMP_BYTES: usize = 7;

/// An ASCII decimal digit.
pub open spec fn is_digit(b: u8) -> bool {
    48 <= b <= 57
}

/// The value of a sequence of decimal digits, most significant first.
pub open spec fn digits_val(s: Seq<u8>) -> int
    decreases s.len(),
{
    if s.len() == 0 {
        0
    } else {
        digits_val(s.drop_last()) * 10 + (s.last() - 48)
    }
}

/// Every byte is a decimal digit.
pub open spec fn all_digits(s: Seq<u8>) -> bool {
    forall|k: int| 0 <= k < s.len() ==> is_digit(#[trigger] s[k])
}

/// The reading without its final byte (the trailing newline); an empty
/// reading stays empty.
pub open spec fn content_of(buf: Seq<u8>) -> Seq<u8> {
    if buf.len() == 0 {
        buf
    } else {
        buf.drop_last()
    }
}

/// A well-formed temperature: at least one digit, with an optional leading
/// minus sign.
pub open spec fn valid_temp(content: Seq<u8>) -> bool {
    if content.len() == 0 {
        false
    } else if content[0] == 45 {
        content.len() >= 2 && all_digits(content.skip(1))
    } else {
        all_digits(content)
    }
}

/// The signed value of a well-formed temperature, in millidegrees.
pub open spec fn temp_val(content: Seq<u8>) -> int {
    if content.len() > 0 && content[0] == 45 {
        -digits_val(content.skip(1))
    } else {
        digits_val(content)
    }
}

/// Ten to the `n`.
pub open spec fn pow10(n: nat) -> int
    decreases n,
{
    if n == 0 {
        1
    } else {
        10 * pow10((n - 1) as nat)
    }
}

/// Parses a raw sensor reading: drops the final byte (the newline), then
/// reads an optional minus sign and the millidegree digits.  Returns `None`
/// on anything that is not a plain signed decimal integer.
pub fn parse_temp(buf: &Vec<u8>) -> (r: Option<i64>)
    requires
        buf@.len() <= TEMP_BYTES,
    ensures
        match r {
            Some(v) => valid_temp(content_of(buf@)) && v == temp_val(content_of(buf@)),
            None => !valid_temp(content_of(buf@)),
        },
{
    if buf.len() == 0 {
        return None;
    }
    let end: usize = buf.len() - 1;
    let ghost content = content_of(buf@);
    proof {
        assert(content =~= buf@.take(end as int));
    }
    if end == 0 {
        return None;
    }
    let negative = buf[0] == 45;
    let start: usize = if negative { 1 } else { 0 };
    if start >= end {
        // a lone minus sign
        return None;
    }
    let ghost digits = content.skip(start as int);
    let mut acc: i64 = 0;
    let mut k: usize = start;
    while k < end
        invariant
            start <= k <= end,
            end < buf@.len() <= TEMP_BYTES,
            start == (if negative { 1int } else { 0int }),
            negative == (buf@[0] == 45),
            content == content_of(buf@),
            content =~= buf@.take(end as int),
            digits == content.skip(start as int),
            all_digits(digits.take(k - start)),
            acc == digits_val(digits.take(k - start)),
            0 <= acc < pow10((k - start) as nat),
        decreases end - k,
    {
        let b: u8 = buf[k];
        if b < 48 || b > 57 {
            proof {
                assert(digits[k - start] == buf@[k as int]);
                assert(!is_digit(digits[k - start]));
                assert(!all_digits(digits));
                assert(content[0] == buf@[0]);
                if negative {
                    assert(content.skip(1) == digits);
                } else {
                    assert(content.skip(0) =~= content);
                    assert(!all_digits(content));
                }
            }
            return None;
        }
        proof {
            assert(digits.take(k + 1 - start).drop_last() =~= digits.take(k - start));
            assert(digits.take(k + 1 - start).last() == buf@[k as int]);
            assert(pow10((k + 1 - start) as nat) == 10 * pow10((k - start) as nat));
            assert(pow10((k - start) as nat) <= pow10(6)) by {
                lemma_pow10_le((k - start) as nat, 6);
            }
            assert(pow10(6) == 1_000_000) by {
                reveal_with_fuel(pow10, 7);
            }
        }
        acc = acc * 10 + ((b - 48) as i64);
        k = k + 1;
    }
    proof {
        assert(digits.take(end - start) =~= digits);
        assert(all_digits(digits));
        assert(content[0] == buf@[0]);
        if negative {
            assert(content[0] == 45);
            assert(content.len() >= 2);
            assert(content.skip(1) == digits);
            assert(valid_temp(content));
        } else {
            assert(content[0] != 45);
            assert(content.skip(0) =~= content);
            assert(all_digits(content));
            assert(valid_temp(content));
        }
    }
    if negative {
        Some(-acc)
    } else {
        Some(acc)
    }
}

/// `pow10` grows with its exponent.
pub proof fn lemma_pow10_le(a: nat, b: nat)
    requires
        a <= b,
    ensures
        pow10(a) <= pow10(b),
    decreases b,
{
    if a < b {
        lemma_pow10_le(a, (b - 1) as nat);
        lemma_pow10_pos((b - 1) as nat);
    }
}

/// `pow10` is positive.
pub proof fn lemma_pow10_pos(n: nat)
    ensures
        pow10(n) >= 1,
    decreases n,
{
    if n > 0 {
        lemma_pow10_pos((n - 1) as nat);
    }
}

} // verus!
