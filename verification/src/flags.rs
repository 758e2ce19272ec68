//! The CPU status word: named flag bits over a 16-bit word, the parity
//! predicate, and the shared zero/sign/parity update applied after most
//! operations.  Bits outside the named ones are preserved by every update.

use vstd::prelude::*;

verus! {

/// Carry flag bit.
pub const CARRY: u16 = 0x0001;

/// Parity flag bit.
pub const PARITY: u16 = 0x0004;

/// Auxiliary carry flag bit.
pub const AUX_CARRY: u16 = 0x0010;

/// Zero flag bit.
pub const ZERO: u16 = 0x0040;

/// Sign flag bit.
pub const SIGN: u16 = 0x0080;

/// Trap flag bit.
pub const TRAP: u16 = 0x0100;

/// Interrupt-enable flag bit.
pub const INTERRUPT: u16 = 0x0200;

/// Direction flag bit.
pub const DIRECTION: u16 = 0x0400;

/// Overflow flag bit.
pub const OVERFLOW: u16 = 0x0800;

/// The status word.
#[derive(Clone, Copy, Debug, PartialEq, Eq, Structural)]
pub struct Flags {
    pub bits: u16,
}

/// Whether every bit of `mask` is set in `bits`.
pub open spec fn flag_selected(bits: u16, mask: u16) -> bool {
    bits & mask == mask
}

/// The word after forcing the bits of `mask` to `value`, all other bits
/// kept.
pub open spec fn with_flag(bits: u16, mask: u16, value: bool) -> u16 {
    if value {
        bits | mask
    } else {
        bits & !mask
    }
}

/// Facts about forcing one mask: other masks are untouched, and the forced
/// mask reads back as forced.
pub proof fn lemma_with_flag()
    by (bit_vector)
    ensures
        forall|bits: u16, m1: u16, m2: u16|
            m1 & m2 == 0 ==> ((bits | m1) & m2 == bits & m2) && ((bits & !m1) & m2 == bits & m2),
        forall|bits: u16, m: u16| (bits | m) & m == m,
        forall|bits: u16, m: u16| m != 0 ==> ((bits & !m) & m != m),
{
}

/// How the shared zero/sign/parity update reads back: each of the three
/// bits shows the value it was forced to, and the carry, overflow and
/// auxiliary-carry bits are untouched.
pub proof fn lemma_zsp_flag_readback(bits: u16, z: bool, s: bool, p: bool)
    by (bit_vector)
    ensures
        flag_selected(with_flag(with_flag(with_flag(bits, ZERO, z), SIGN, s), PARITY, p), ZERO)
            == z,
        flag_selected(with_flag(with_flag(with_flag(bits, ZERO, z), SIGN, s), PARITY, p), SIGN)
            == s,
        flag_selected(with_flag(with_flag(with_flag(bits, ZERO, z), SIGN, s), PARITY, p), PARITY)
            == p,
        flag_selected(with_flag(with_flag(with_flag(bits, ZERO, z), SIGN, s), PARITY, p), CARRY)
            == flag_selected(bits, CARRY),
        flag_selected(with_flag(with_flag(with_flag(bits, ZERO, z), SIGN, s), PARITY, p), OVERFLOW)
            == flag_selected(bits, OVERFLOW),
        flag_selected(
            with_flag(with_flag(with_flag(bits, ZERO, z), SIGN, s), PARITY, p),
            AUX_CARRY,
        ) == flag_selected(bits, AUX_CARRY),
{
}

impl Flags {
    /// A status word with every bit clear.
    pub fn empty() -> (r: Self)
        ensures
            r.bits == 0,
    {
        Flags { bits: 0 }
    }

    /// A status word with exactly the given bits.
    pub fn from_bits(bits: u16) -> (r: Self)
        ensures
            r.bits == bits,
    {
        Flags { bits }
    }

    /// Whether every bit of `mask` is set.
    pub fn contains(&self, mask: u16) -> (r: bool)
        ensures
            r == flag_selected(self.bits, mask),
    {
        self.bits & mask == mask
    }

    /// Force the bits of `mask` to `value`, leaving all other bits alone.
    pub fn set(&mut self, mask: u16, value: bool)
        ensures
            final(self).bits == with_flag(old(self).bits, mask, value),
    {
        if value {
            self.bits = self.bits | mask;
        } else {
            self.bits = self.bits & !mask;
        }
    }
}

/// Whether the low byte has an even number of set bits.  The parity flag of
/// any result reflects this predicate on the result's low byte.
pub open spec fn even_parity(b: u8) -> bool {
    (b % 2 + b / 2 % 2 + b / 4 % 2 + b / 8 % 2 + b / 16 % 2 + b / 32 % 2 + b / 64 % 2 + b / 128
        % 2) % 2 == 0
}

/// Count of set bits in the low byte, used to compute the parity flag.
fn parity_ones(b: u8) -> (r: u8)
    ensures
        r == (b % 2 + b / 2 % 2 + b / 4 % 2 + b / 8 % 2 + b / 16 % 2 + b / 32 % 2 + b / 64 % 2 + b
            / 128 % 2),
{
    b % 2 + b / 2 % 2 + b / 4 % 2 + b / 8 % 2 + b / 16 % 2 + b / 32 % 2 + b / 64 % 2 + b / 128 % 2
}

/// The status word after the shared zero/sign/parity update for a result of
/// the given width: ZF reflects a zero result, SF its top bit, PF the parity
/// of its low byte; every other bit is kept.
pub open spec fn zsp_updated(bits: u16, result: u16, top_bit: u16) -> u16 {
    with_flag(
        with_flag(with_flag(bits, ZERO, result == 0), SIGN, result >= top_bit),
        PARITY,
        even_parity((result % 0x100) as u8),
    )
}

/// Apply the shared update for a byte-sized result: ZF, SF and PF from the
/// result, every other bit kept.
pub fn flags_from_byte_result(flags: &mut Flags, result: u8)
    ensures
        final(flags).bits == zsp_updated(old(flags).bits, result as u16, 0x80),
        flag_selected(final(flags).bits, ZERO) == (result == 0),
        flag_selected(final(flags).bits, SIGN) == (result >= 0x80),
        flag_selected(final(flags).bits, PARITY) == even_parity(result),
        flag_selected(final(flags).bits, CARRY) == flag_selected(old(flags).bits, CARRY),
        flag_selected(final(flags).bits, OVERFLOW) == flag_selected(old(flags).bits, OVERFLOW),
        flag_selected(final(flags).bits, AUX_CARRY) == flag_selected(old(flags).bits, AUX_CARRY),
{
    flags.set(ZERO, result == 0);
    flags.set(SIGN, result >= 0x80);
    let ones = parity_ones(result);
    flags.set(PARITY, ones % 2 == 0);
    proof {
        lemma_zsp_flag_readback(old(flags).bits, result == 0, result >= 0x80, even_parity(result));
    }
}

/// Apply the shared update for a word-sized result: ZF and SF from the full
/// word, PF from its low byte, every other bit kept.
pub fn flags_from_word_result(flags: &mut Flags, result: u16)
    ensures
        final(flags).bits == zsp_updated(old(flags).bits, result, 0x8000),
        flag_selected(final(flags).bits, ZERO) == (result == 0),
        flag_selected(final(flags).bits, SIGN) == (result >= 0x8000),
        flag_selected(final(flags).bits, PARITY) == even_parity((result % 0x100) as u8),
        flag_selected(final(flags).bits, CARRY) == flag_selected(old(flags).bits, CARRY),
        flag_selected(final(flags).bits, OVERFLOW) == flag_selected(old(flags).bits, OVERFLOW),
        flag_selected(final(flags).bits, AUX_CARRY) == flag_selected(old(flags).bits, AUX_CARRY),
{
    flags.set(ZERO, result == 0);
    flags.set(SIGN, result >= 0x8000);
    let ones = parity_ones((result % 0x100) as u8);
    flags.set(PARITY, ones % 2 == 0);
    proof {
        lemma_zsp_flag_readback(
            old(flags).bits,
            result == 0,
            result >= 0x8000,
            even_parity((result % 0x100) as u8),
        );
    }
}

/// Whether the status word shows exactly the given carry, parity, auxiliary
/// carry, zero, sign and overflow flags.
pub fn test_flags(
    flags: &Flags,
    carry: bool,
    parity: bool,
    aux_carry: bool,
    zero: bool,
    sign: bool,
    overflow: bool,
) -> (r: bool)
    ensures
        r == (flag_selected(flags.bits, CARRY) == carry && flag_selected(flags.bits, PARITY)
            == parity && flag_selected(flags.bits, AUX_CARRY) == aux_carry && flag_selected(
            flags.bits,
            ZERO,
        ) == zero && flag_selected(flags.bits, SIGN) == sign && flag_selected(
            flags.bits,
            OVERFLOW,
        ) == overflow),
{
    flags.contains(CARRY) == carry && flags.contains(PARITY) == parity && flags.contains(AUX_CARRY)
        == aux_carry && flags.contains(ZERO) == zero && flags.contains(SIGN) == sign
        && flags.contains(OVERFLOW) == overflow
}

} // verus!
