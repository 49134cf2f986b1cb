//! Call identifiers as the keys of the objects that resolve futures.
//!
//! A key is the decimal text of a call identifier: an optional plus sign,
//! then one or more digits that denote a number in the range of `u32`.

use vstd::prelude::*;
use vstd::string::StringSliceAdditionalSpecFns;

verus! {

/// Whether a byte is a decimal digit.
pub open spec fn is_digit(b: u8) -> bool {
    0x30 <= b <= 0x39
}

/// Whether every byte is a decimal digit.
pub open spec fn all_digits(digits: Seq<u8>) -> bool {
    forall|i: int| 0 <= i < digits.len() ==> is_digit(#[trigger] digits[i])
}

/// The number that decimal digits denote.
pub open spec fn digits_value(digits: Seq<u8>) -> nat
    decreases digits.len(),
{
    if digits.len() == 0 {
        0
    } else {
        digits_value(digits.drop_last()) * 10 + (digits.last() - 0x30) as nat
    }
}

/// A text without the plus sign that may lead it.
pub open spec fn unsigned_part(text: Seq<u8>) -> Seq<u8> {
    if text.len() > 0 && text[0] == 0x2b {
        text.subrange(1, text.len() as int)
    } else {
        text
    }
}

/// The call identifier that a text denotes, if it denotes one.
pub open spec fn call_id_of(text: Seq<u8>) -> Option<u32> {
    let digits = unsigned_part(text);
    if digits.len() > 0 && all_digits(digits) && digits_value(digits) <= u32::MAX {
        Some(digits_value(digits) as u32)
    } else {
        None
    }
}

/// The call identifier that the text of a key denotes, if it denotes one.
pub open spec fn key_id(key: Seq<char>) -> Option<u32> {
    call_id_of(vstd::utf8::encode_utf8(key))
}

/// The digits read so far denote no more than all the digits do.
proof fn lemma_value_grows(digits: Seq<u8>, k: int)
    requires
        0 <= k <= digits.len(),
    ensures
        digits_value(digits.take(k)) <= digits_value(digits),
    decreases digits.len() - k,
{
    if k == digits.len() {
        assert(digits.take(k) =~= digits);
    } else {
        lemma_value_grows(digits, k + 1);
        assert(digits.take(k + 1).drop_last() =~= digits.take(k));
    }
}

/// Reads a call identifier from the text of a key.
pub fn parse_call_id(key: &str) -> (r: Option<u32>)
    ensures
        r == key_id(key@),
{
    let bytes = key.as_bytes();
    let n = bytes.len();
    let start: usize = if n > 0 && bytes[0] == 0x2b {
        1
    } else {
        0
    };
    if start == n {
        return None;
    }
    let ghost digits = unsigned_part(bytes@);
    assert(digits =~= bytes@.subrange(start as int, n as int));
    let mut acc: u64 = 0;
    let mut i: usize = start;
    assert(digits.take(0) =~= Seq::<u8>::empty());
    while i < n
        invariant
            start <= i <= n,
            n == bytes@.len(),
            bytes@ == key.spec_bytes(),
            digits == unsigned_part(bytes@),
            digits == bytes@.subrange(start as int, n as int),
            all_digits(digits.take(i - start)),
            acc == digits_value(digits.take(i - start)),
            acc <= u32::MAX,
        decreases n - i,
    {
        let b: u8 = bytes[i];
        assert(digits[i - start] == b);
        if b < 0x30 || b > 0x39 {
            assert(!is_digit(digits[i - start]));
            return None;
        }
        let next: u64 = acc * 10 + (b - 0x30) as u64;
        proof {
            let taken = digits.take(i - start + 1);
            assert(taken.drop_last() =~= digits.take(i - start));
            assert(taken.last() == b);
            assert(digits_value(taken) == next);
            assert forall|k: int| 0 <= k < taken.len() implies is_digit(#[trigger] taken[k]) by {
                if k < i - start {
                    assert(digits.take(i - start)[k] == taken[k]);
                }
            }
        }
        if next > u32::MAX as u64 {
            proof {
                lemma_value_grows(digits, i - start + 1);
            }
            return None;
        }
        acc = next;
        i += 1;
    }
    assert(digits.take(n - start) =~= digits);
    Some(acc as u32)
}

} // verus!
