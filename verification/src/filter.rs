//! Choosing identifiers by their bits, and reading the bits from text.

use vstd::prelude::*;
use vstd::string::StrSliceExecFns;

verus! {

/// The mask that selects every bit of an identifier.
pub const ALL_BITS: u32 = 0xFFFF_FFFF;

/// The mask that selects the source address: the lowest byte.
pub const SOURCE_BITS: u32 = 0xFF;

/// Whether `id` agrees with `pattern` in every bit that `mask` selects.
pub open spec fn spec_matches(id: u32, mask: u32, pattern: u32) -> bool {
    id & mask == pattern & mask
}

/// Whether `id` agrees with `pattern` in every bit that `mask` selects.
pub fn matches_mask(id: u32, mask: u32, pattern: u32) -> (agrees: bool)
    ensures
        agrees == spec_matches(id, mask, pattern),
{
    id & mask == pattern & mask
}

/// Whether `id` is the identifier expected.
pub fn filter_id(id: u32, expected_id: u32) -> (same: bool)
    ensures
        same == (id == expected_id),
        same == spec_matches(id, ALL_BITS, expected_id),
{
    assert((id & 0xFFFF_FFFF == expected_id & 0xFFFF_FFFF) <==> id == expected_id) by (bit_vector);
    id == expected_id
}

/// Whether the source address of `id`, its lowest byte, is the one
/// expected. No identifier has a source address above `0xFF`.
pub fn filter_src(id: u32, expected_src: u32) -> (same: bool)
    ensures
        same == (id & SOURCE_BITS == expected_src),
        expected_src <= 0xFF ==> same == spec_matches(id, SOURCE_BITS, expected_src),
        expected_src > 0xFF ==> !same,
{
    assert(expected_src <= 0xFF ==> expected_src & 0xFF == expected_src) by (bit_vector);
    assert(id & 0xFF <= 0xFF) by (bit_vector);
    let src: u32 = id & SOURCE_BITS;
    src == expected_src
}

/// The value of a hexadecimal digit, in either case.
pub open spec fn hex_digit(c: char) -> Option<u32> {
    if '0' <= c <= '9' {
        Some((c as u32 - '0' as u32) as u32)
    } else if 'a' <= c <= 'f' {
        Some((c as u32 - 'a' as u32 + 10) as u32)
    } else if 'A' <= c <= 'F' {
        Some((c as u32 - 'A' as u32 + 10) as u32)
    } else {
        None
    }
}

/// The number that hexadecimal digits spell, the first digit being the
/// highest; nothing if one of them is no digit.
pub open spec fn hex_number(digits: Seq<char>) -> Option<nat>
    decreases digits.len(),
{
    if digits.len() == 0 {
        Some(0)
    } else {
        match (hex_number(digits.drop_last()), hex_digit(digits.last())) {
            (Some(high), Some(low)) => Some(high * 16 + low as nat),
            _ => None,
        }
    }
}

/// The identifier that `text` spells in hexadecimal: one or more digits,
/// with or without one `+` before them, that spell a number of 32 bits.
/// Nothing for every other text: no digits, a character that is no digit,
/// blanks, a number that is too great.
pub open spec fn spec_parse_hex(text: Seq<char>) -> Option<u32> {
    let digits = if text.len() > 0 && text[0] == '+' {
        text.drop_first()
    } else {
        text
    };
    if digits.len() == 0 {
        None
    } else {
        match hex_number(digits) {
            Some(number) => if number <= u32::MAX {
                Some(number as u32)
            } else {
                None
            },
            None => None,
        }
    }
}

/// Digits that do not spell a number at the beginning spell none as a whole.
proof fn lemma_hex_number_prefix(digits: Seq<char>, n: int)
    requires
        0 <= n <= digits.len(),
        hex_number(digits.subrange(0, n)) is None,
    ensures
        hex_number(digits) is None,
    decreases digits.len() - n,
{
    if n < digits.len() {
        assert(digits.subrange(0, n + 1).drop_last() =~= digits.subrange(0, n));
        lemma_hex_number_prefix(digits, n + 1);
    } else {
        assert(digits.subrange(0, n) =~= digits);
    }
}

/// More digits do not spell a lesser number.
proof fn lemma_hex_number_grows(digits: Seq<char>, n: int)
    requires
        0 <= n <= digits.len(),
        hex_number(digits) is Some,
    ensures
        hex_number(digits.subrange(0, n)) is Some,
        hex_number(digits.subrange(0, n))->0 <= hex_number(digits)->0,
    decreases digits.len() - n,
{
    if n < digits.len() {
        lemma_hex_number_grows(digits, n + 1);
        assert(digits.subrange(0, n + 1).drop_last() =~= digits.subrange(0, n));
    } else {
        assert(digits.subrange(0, n) =~= digits);
    }
}

/// The value of a hexadecimal digit.
fn digit_value(c: char) -> (value: Option<u32>)
    ensures
        value == hex_digit(c),
        value matches Some(v) ==> v < 16,
{
    if '0' <= c && c <= '9' {
        Some(c as u32 - '0' as u32)
    } else if 'a' <= c && c <= 'f' {
        Some(c as u32 - 'a' as u32 + 10)
    } else if 'A' <= c && c <= 'F' {
        Some(c as u32 - 'A' as u32 + 10)
    } else {
        None
    }
}

/// Reads an identifier, or a mask, from hexadecimal text: see
/// [`spec_parse_hex`].
pub fn parse_hex(text: &str) -> (id: Option<u32>)
    ensures
        id == spec_parse_hex(text@),
{
    let len: usize = text.unicode_len();
    let start: usize = if len > 0 && text.get_char(0) == '+' {
        1
    } else {
        0
    };
    if start == len {
        return None;
    }
    let ghost digits = text@.subrange(start as int, len as int);
    assert(digits =~= if text@.len() > 0 && text@[0] == '+' {
        text@.drop_first()
    } else {
        text@
    });
    let mut number: u64 = 0;
    let mut i: usize = start;
    while i < len
        invariant
            start <= i <= len,
            len == text@.len(),
            digits == text@.subrange(start as int, len as int),
            digits == if text@.len() > 0 && text@[0] == '+' {
                text@.drop_first()
            } else {
                text@
            },
            digits.len() > 0,
            hex_number(digits.subrange(0, i - start)) == Some(number as nat),
            number <= u32::MAX,
        decreases len - i,
    {
        let c: char = text.get_char(i);
        assert(digits.subrange(0, i - start + 1).drop_last() =~= digits.subrange(0, i - start));
        assert(digits.subrange(0, i - start + 1).last() == c);
        match digit_value(c) {
            Some(value) => {
                number = number * 16 + value as u64;
                if number > 0xFFFF_FFFF {
                    proof {
                        if hex_number(digits) is Some {
                            lemma_hex_number_grows(digits, i - start + 1);
                        }
                    }
                    return None;
                }
            },
            None => {
                proof {
                    lemma_hex_number_prefix(digits, i - start + 1);
                }
                return None;
            },
        }
        i = i + 1;
    }
    assert(digits.subrange(0, len - start) =~= digits);
    Some(number as u32)
}

} // verus!
