//! Building ASCII text as plain bytes: hexadecimal and decimal digits used
//! by the error reporter and the disassembler listing.

use vstd::prelude::*;

verus! {

/// The upper-case hex digit for a value below 16.
pub open spec fn spec_hex_digit(v: u8) -> u8
    recommends
        v < 16,
{
    if v < 10 {
        (0x30 + v) as u8
    } else {
        (0x41 + (v - 10)) as u8
    }
}

/// The lower-case hex digit for a value below 16.
pub open spec fn spec_hex_digit_lower(v: u8) -> u8
    recommends
        v < 16,
{
    if v < 10 {
        (0x30 + v) as u8
    } else {
        (0x61 + (v - 10)) as u8
    }
}

/// Two upper-case hex digits for one byte, high nibble first.
pub open spec fn spec_hex_byte(v: u8) -> Seq<u8> {
    seq![spec_hex_digit(v / 16), spec_hex_digit(v % 16)]
}

/// Two lower-case hex digits for one byte, high nibble first.
pub open spec fn spec_hex_byte_lower(v: u8) -> Seq<u8> {
    seq![spec_hex_digit_lower(v / 16), spec_hex_digit_lower(v % 16)]
}

/// Four upper-case hex digits for one word, high byte first.
pub open spec fn spec_hex_word(v: u16) -> Seq<u8> {
    spec_hex_byte((v / 0x100) as u8) + spec_hex_byte((v % 0x100) as u8)
}

/// Append one upper-case hex digit to `out`.
pub fn push_hex_digit(out: &mut Vec<u8>, v: u8)
    requires
        v < 16,
    ensures
        final(out)@ == old(out)@ + seq![spec_hex_digit(v)],
{
    if v < 10 {
        out.push(0x30 + v);
    } else {
        out.push(0x41 + (v - 10));
    }
    assert(out@ =~= old(out)@ + seq![spec_hex_digit(v)]);
}

/// Append one lower-case hex digit to `out`.
pub fn push_hex_digit_lower(out: &mut Vec<u8>, v: u8)
    requires
        v < 16,
    ensures
        final(out)@ == old(out)@ + seq![spec_hex_digit_lower(v)],
{
    if v < 10 {
        out.push(0x30 + v);
    } else {
        out.push(0x61 + (v - 10));
    }
    assert(out@ =~= old(out)@ + seq![spec_hex_digit_lower(v)]);
}

/// Append two upper-case hex digits for one byte to `out`.
pub fn push_hex_byte(out: &mut Vec<u8>, v: u8)
    ensures
        final(out)@ == old(out)@ + spec_hex_byte(v),
{
    push_hex_digit(out, v / 16);
    push_hex_digit(out, v % 16);
    assert(out@ =~= old(out)@ + spec_hex_byte(v));
}

/// Append two lower-case hex digits for one byte to `out`.
pub fn push_hex_byte_lower(out: &mut Vec<u8>, v: u8)
    ensures
        final(out)@ == old(out)@ + spec_hex_byte_lower(v),
{
    push_hex_digit_lower(out, v / 16);
    push_hex_digit_lower(out, v % 16);
    assert(out@ =~= old(out)@ + spec_hex_byte_lower(v));
}

/// Append four upper-case hex digits for one word to `out`.
pub fn push_hex_word(out: &mut Vec<u8>, v: u16)
    ensures
        final(out)@ == old(out)@ + spec_hex_word(v),
{
    push_hex_byte(out, (v / 0x100) as u8);
    push_hex_byte(out, (v % 0x100) as u8);
    assert(out@ =~= old(out)@ + spec_hex_word(v));
}

} // verus!
