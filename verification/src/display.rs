//! Values for showing the statistics as text: the parameter group of an
//! identifier, a period in milliseconds, and the mark that turns with the
//! count.

use vstd::prelude::*;
use vstd::string::{StrSliceExecFns, StringExecFns};
use crate::periods::NANOS_PER_MILLI;

verus! {

/// Width of a period in text.
pub const PERIOD_WIDTH: usize = 6;

/// The data page of an identifier: bit 24.
pub open spec fn data_page(id: u32) -> u32 {
    (id >> 24) & 1
}

/// The PDU format of an identifier: bits 23 to 16.
pub open spec fn pdu_format(id: u32) -> u32 {
    (id >> 16) & 0xFF
}

/// The PDU specific field of an identifier: bits 15 to 8.
pub open spec fn pdu_specific(id: u32) -> u32 {
    (id >> 8) & 0xFF
}

/// The parameter group number of an identifier: data page, PDU format and
/// PDU specific field, one after the other.
pub open spec fn spec_pgn(id: u32) -> int {
    data_page(id) * 0x1_0000 + pdu_format(id) * 0x100 + pdu_specific(id)
}

/// The parameter group number is bits 24 to 8 of the identifier.
pub proof fn law_pgn_is_bits_24_to_8(id: u32)
    ensures
        spec_pgn(id) == (id >> 8) & 0x1_FFFF,
{
    assert(((id >> 24) & 1) * 0x1_0000 + ((id >> 16) & 0xFF) * 0x100 + ((id >> 8) & 0xFF) == (id
        >> 8) & 0x1_FFFF) by (bit_vector);
}

/// The parameter group number of an identifier. It is shown beside the
/// identifier and plays no part in the statistics.
pub fn pgn(id: u32) -> (number: u32)
    ensures
        number == spec_pgn(id),
        number <= 0x1_FFFF,
{
    let data_page: u32 = (id >> 24) & 1;
    let pdu_format: u32 = (id >> 16) & 0xFF;
    let pdu_specific: u32 = (id >> 8) & 0xFF;
    assert(data_page <= 1 && pdu_format <= 0xFF && pdu_specific <= 0xFF) by (bit_vector)
        requires
            data_page == (id >> 24) & 1,
            pdu_format == (id >> 16) & 0xFF,
            pdu_specific == (id >> 8) & 0xFF,
    ;
    assert(data_page << 16 == data_page * 0x1_0000) by (bit_vector)
        requires
            data_page <= 1,
    ;
    assert(pdu_format << 8 == pdu_format * 0x100) by (bit_vector)
        requires
            pdu_format <= 0xFF,
    ;
    (data_page << 16) + (pdu_format << 8) + pdu_specific
}

/// The mark shown for a count: it steps through `|`, `/`, `-` and `\` as
/// the count grows.
pub open spec fn spec_spinner(count: u64) -> char {
    if count % 4 == 0 {
        '|'
    } else if count % 4 == 1 {
        '/'
    } else if count % 4 == 2 {
        '-'
    } else {
        '\\'
    }
}

/// The mark shown for a count.
pub fn spinner(count: u64) -> (mark: char)
    ensures
        mark == spec_spinner(count),
{
    let step: u64 = count % 4;
    if step == 0 {
        '|'
    } else if step == 1 {
        '/'
    } else if step == 2 {
        '-'
    } else {
        '\\'
    }
}

/// The decimal digit for a number below ten.
pub open spec fn digit(d: nat) -> char {
    if d == 0 {
        '0'
    } else if d == 1 {
        '1'
    } else if d == 2 {
        '2'
    } else if d == 3 {
        '3'
    } else if d == 4 {
        '4'
    } else if d == 5 {
        '5'
    } else if d == 6 {
        '6'
    } else if d == 7 {
        '7'
    } else if d == 8 {
        '8'
    } else {
        '9'
    }
}

/// A number in decimal digits, without leading zeros.
pub open spec fn decimal(n: nat) -> Seq<char>
    decreases n,
{
    if n < 10 {
        seq![digit(n)]
    } else {
        decimal(n / 10).push(digit(n % 10))
    }
}

/// Text moved to the right end of a field of `width` characters by blanks
/// before it; text that is longer stays as it is.
pub open spec fn pad_left(text: Seq<char>, width: nat) -> Seq<char> {
    if text.len() >= width {
        text
    } else {
        Seq::new((width - text.len()) as nat, |i: int| ' ') + text
    }
}

/// A period as text: its whole milliseconds in decimal, at the right end of
/// a field of six characters.
pub open spec fn spec_fmt_period(x: u64) -> Seq<char> {
    pad_left(decimal((x / NANOS_PER_MILLI) as nat), PERIOD_WIDTH as nat)
}

/// The decimal digit for `d` as text.
fn digit_str(d: u64) -> (text: &'static str)
    requires
        d < 10,
    ensures
        text@ == seq![digit(d as nat)],
{
    proof {
        reveal_strlit("0");
        reveal_strlit("1");
        reveal_strlit("2");
        reveal_strlit("3");
        reveal_strlit("4");
        reveal_strlit("5");
        reveal_strlit("6");
        reveal_strlit("7");
        reveal_strlit("8");
        reveal_strlit("9");
    }
    let text: &'static str = if d == 0 {
        "0"
    } else if d == 1 {
        "1"
    } else if d == 2 {
        "2"
    } else if d == 3 {
        "3"
    } else if d == 4 {
        "4"
    } else if d == 5 {
        "5"
    } else if d == 6 {
        "6"
    } else if d == 7 {
        "7"
    } else if d == 8 {
        "8"
    } else {
        "9"
    };
    assert(text@ =~= seq![digit(d as nat)]);
    text
}

/// Appends `n` in decimal to `out`.
fn push_decimal(out: &mut String, n: u64)
    ensures
        final(out)@ == old(out)@ + decimal(n as nat),
    decreases n,
{
    if n >= 10 {
        push_decimal(out, n / 10);
    }
    out.append(digit_str(n % 10));
    assert(final(out)@ =~= old(out)@ + decimal(n as nat));
}

/// A period as text: its whole milliseconds in decimal, moved to the right
/// end of a field of six characters by blanks.
pub fn fmt_period(x: u64) -> (text: String)
    ensures
        text@ == spec_fmt_period(x),
{
    let ms: u64 = x / NANOS_PER_MILLI;
    let mut digits: String = String::new();
    push_decimal(&mut digits, ms);
    let len: usize = digits.as_str().unicode_len();
    let mut text: String = String::new();
    if len < PERIOD_WIDTH {
        let mut blanks: usize = 0;
        proof {
            reveal_strlit(" ");
        }
        while blanks < PERIOD_WIDTH - len
            invariant
                len < PERIOD_WIDTH,
                blanks <= PERIOD_WIDTH - len,
                text@ == Seq::new(blanks as nat, |i: int| ' '),
                " "@ == seq![' '],
            decreases PERIOD_WIDTH - len - blanks,
        {
            text.append(" ");
            blanks = blanks + 1;
            assert(text@ =~= Seq::new(blanks as nat, |i: int| ' '));
        }
    }
    text.append(digits.as_str());
    assert(text@ =~= spec_fmt_period(x));
    text
}

} // verus!
