//! The disassembler: segment-and-offset addresses, the canonical
//! instruction formatter, and the section walker that turns raw bytes
//! into one listing line per decoded instruction.  All text is built as
//! ASCII bytes, each builder pinned to a spec of the exact text.

use vstd::prelude::*;

use crate::decode::spec_decode;
use crate::stream::{Data, DataIterator};
use crate::text::{push_hex_byte, push_hex_word, spec_hex_byte, spec_hex_word};
use crate::x86::{
    AddressingMode, Instruction, Operand, OperandSet, OperandSize, OperandType, Operation,
    Register, Repeat, Segment,
};
use vstd::slice::slice_index_get;

verus! {

/// A segment and offset pair as the listing prints it.
#[derive(Clone, Copy, Debug, PartialEq, Eq, Structural)]
pub struct SegmentAndOffset(pub u16, pub u16);

/// The text of an address: four hex digits, a colon, four hex digits.
pub open spec fn spec_addr_text(a: SegmentAndOffset) -> Seq<u8> {
    spec_hex_word(a.0) + seq![0x3Au8] + spec_hex_word(a.1)
}

impl SegmentAndOffset {
    /// This address as listing text.
    pub fn to_text(&self) -> (r: Vec<u8>)
        ensures
            r@ == spec_addr_text(*self),
    {
        let mut out: Vec<u8> = Vec::new();
        push_hex_word(&mut out, self.0);
        out.push(0x3A);
        push_hex_word(&mut out, self.1);
        proof {
            assert(out@ =~= spec_addr_text(*self));
        }
        out
    }
}

/// The address `position` bytes past an origin: the segment kept, the
/// offset advanced with 16-bit wrap.
pub open spec fn spec_relative_to(position: u32, origin: SegmentAndOffset) -> SegmentAndOffset {
    SegmentAndOffset(origin.0, ((origin.1 + position) % 0x10000) as u16)
}

/// The address `position` bytes past an origin.
pub fn relative_to(position: u32, origin: &SegmentAndOffset) -> (r: SegmentAndOffset)
    ensures
        r == spec_relative_to(position, *origin),
{
    SegmentAndOffset(origin.0, ((origin.1 as u64 + position as u64) % 0x10000) as u16)
}

/// The canonical name of this item.
pub open spec fn spec_byte_register_name(x: Register) -> Seq<u8> {
    match x {
        Register::AlAx => seq![0x41u8, 0x4cu8],
        Register::ClCx => seq![0x43u8, 0x4cu8],
        Register::DlDx => seq![0x44u8, 0x4cu8],
        Register::BlBx => seq![0x42u8, 0x4cu8],
        Register::AhSp => seq![0x41u8, 0x48u8],
        Register::ChBp => seq![0x43u8, 0x48u8],
        Register::DhSi => seq![0x44u8, 0x48u8],
        Register::BhDi => seq![0x42u8, 0x48u8],
    }
}

/// Append the canonical name of this item.
pub fn push_byte_register_name(out: &mut Vec<u8>, x: Register)
    ensures
        final(out)@ == old(out)@ + spec_byte_register_name(x),
{
    match x {
        Register::AlAx => {
            out.push(0x41);
            out.push(0x4c);
        },
        Register::ClCx => {
            out.push(0x43);
            out.push(0x4c);
        },
        Register::DlDx => {
            out.push(0x44);
            out.push(0x4c);
        },
        Register::BlBx => {
            out.push(0x42);
            out.push(0x4c);
        },
        Register::AhSp => {
            out.push(0x41);
            out.push(0x48);
        },
        Register::ChBp => {
            out.push(0x43);
            out.push(0x48);
        },
        Register::DhSi => {
            out.push(0x44);
            out.push(0x48);
        },
        Register::BhDi => {
            out.push(0x42);
            out.push(0x48);
        },
    }
    proof {
        assert(out@ =~= old(out)@ + spec_byte_register_name(x));
    }
}

/// The canonical name of this item.
pub open spec fn spec_word_register_name(x: Register) -> Seq<u8> {
    match x {
        Register::AlAx => seq![0x41u8, 0x58u8],
        Register::ClCx => seq![0x43u8, 0x58u8],
        Register::DlDx => seq![0x44u8, 0x58u8],
        Register::BlBx => seq![0x42u8, 0x58u8],
        Register::AhSp => seq![0x53u8, 0x50u8],
        Register::ChBp => seq![0x42u8, 0x50u8],
        Register::DhSi => seq![0x53u8, 0x49u8],
        Register::BhDi => seq![0x44u8, 0x49u8],
    }
}

/// Append the canonical name of this item.
pub fn push_word_register_name(out: &mut Vec<u8>, x: Register)
    ensures
        final(out)@ == old(out)@ + spec_word_register_name(x),
{
    match x {
        Register::AlAx => {
            out.push(0x41);
            out.push(0x58);
        },
        Register::ClCx => {
            out.push(0x43);
            out.push(0x58);
        },
        Register::DlDx => {
            out.push(0x44);
            out.push(0x58);
        },
        Register::BlBx => {
            out.push(0x42);
            out.push(0x58);
        },
        Register::AhSp => {
            out.push(0x53);
            out.push(0x50);
        },
        Register::ChBp => {
            out.push(0x42);
            out.push(0x50);
        },
        Register::DhSi => {
            out.push(0x53);
            out.push(0x49);
        },
        Register::BhDi => {
            out.push(0x44);
            out.push(0x49);
        },
    }
    proof {
        assert(out@ =~= old(out)@ + spec_word_register_name(x));
    }
}

/// The canonical name of this item.
pub open spec fn spec_segment_name(x: Segment) -> Seq<u8> {
    match x {
        Segment::Es => seq![0x45u8, 0x53u8],
        Segment::Cs => seq![0x43u8, 0x53u8],
        Segment::Ss => seq![0x53u8, 0x53u8],
        Segment::Ds => seq![0x44u8, 0x53u8],
    }
}

/// Append the canonical name of this item.
pub fn push_segment_name(out: &mut Vec<u8>, x: Segment)
    ensures
        final(out)@ == old(out)@ + spec_segment_name(x),
{
    match x {
        Segment::Es => {
            out.push(0x45);
            out.push(0x53);
        },
        Segment::Cs => {
            out.push(0x43);
            out.push(0x53);
        },
        Segment::Ss => {
            out.push(0x53);
            out.push(0x53);
        },
        Segment::Ds => {
            out.push(0x44);
            out.push(0x53);
        },
    }
    proof {
        assert(out@ =~= old(out)@ + spec_segment_name(x));
    }
}

/// The canonical name of this item.
pub open spec fn spec_mode_name(x: AddressingMode) -> Seq<u8> {
    match x {
        AddressingMode::BxSi => seq![0x42u8, 0x58u8, 0x2bu8, 0x53u8, 0x49u8],
        AddressingMode::BxDi => seq![0x42u8, 0x58u8, 0x2bu8, 0x44u8, 0x49u8],
        AddressingMode::BpSi => seq![0x42u8, 0x50u8, 0x2bu8, 0x53u8, 0x49u8],
        AddressingMode::BpDi => seq![0x42u8, 0x50u8, 0x2bu8, 0x44u8, 0x49u8],
        AddressingMode::Si => seq![0x53u8, 0x49u8],
        AddressingMode::Di => seq![0x44u8, 0x49u8],
        AddressingMode::Bp => seq![0x42u8, 0x50u8],
        AddressingMode::Bx => seq![0x42u8, 0x58u8],
    }
}

/// Append the canonical name of this item.
pub fn push_mode_name(out: &mut Vec<u8>, x: AddressingMode)
    ensures
        final(out)@ == old(out)@ + spec_mode_name(x),
{
    match x {
        AddressingMode::BxSi => {
            out.push(0x42);
            out.push(0x58);
            out.push(0x2b);
            out.push(0x53);
            out.push(0x49);
        },
        AddressingMode::BxDi => {
            out.push(0x42);
            out.push(0x58);
            out.push(0x2b);
            out.push(0x44);
            out.push(0x49);
        },
        AddressingMode::BpSi => {
            out.push(0x42);
            out.push(0x50);
            out.push(0x2b);
            out.push(0x53);
            out.push(0x49);
        },
        AddressingMode::BpDi => {
            out.push(0x42);
            out.push(0x50);
            out.push(0x2b);
            out.push(0x44);
            out.push(0x49);
        },
        AddressingMode::Si => {
            out.push(0x53);
            out.push(0x49);
        },
        AddressingMode::Di => {
            out.push(0x44);
            out.push(0x49);
        },
        AddressingMode::Bp => {
            out.push(0x42);
            out.push(0x50);
        },
        AddressingMode::Bx => {
            out.push(0x42);
            out.push(0x58);
        },
    }
    proof {
        assert(out@ =~= old(out)@ + spec_mode_name(x));
    }
}

/// The canonical upper-case mnemonic of an operation.
#[verifier::opaque]
pub open spec fn spec_mnemonic(op: Operation) -> Seq<u8> {
    match op {
        Operation::Mov => seq![0x4du8, 0x4fu8, 0x56u8],
        Operation::Push => seq![0x50u8, 0x55u8, 0x53u8, 0x48u8],
        Operation::Pop => seq![0x50u8, 0x4fu8, 0x50u8],
        Operation::Xchg => seq![0x58u8, 0x43u8, 0x48u8, 0x47u8],
        Operation::In => seq![0x49u8, 0x4eu8],
        Operation::Out => seq![0x4fu8, 0x55u8, 0x54u8],
        Operation::Xlat => seq![0x58u8, 0x4cu8, 0x41u8, 0x54u8],
        Operation::Lea => seq![0x4cu8, 0x45u8, 0x41u8],
        Operation::Lds => seq![0x4cu8, 0x44u8, 0x53u8],
        Operation::Les => seq![0x4cu8, 0x45u8, 0x53u8],
        Operation::Lahf => seq![0x4cu8, 0x41u8, 0x48u8, 0x46u8],
        Operation::Sahf => seq![0x53u8, 0x41u8, 0x48u8, 0x46u8],
        Operation::Pushf => seq![0x50u8, 0x55u8, 0x53u8, 0x48u8, 0x46u8],
        Operation::Popf => seq![0x50u8, 0x4fu8, 0x50u8, 0x46u8],
        Operation::Add => seq![0x41u8, 0x44u8, 0x44u8],
        Operation::Adc => seq![0x41u8, 0x44u8, 0x43u8],
        Operation::Inc => seq![0x49u8, 0x4eu8, 0x43u8],
        Operation::Aaa => seq![0x41u8, 0x41u8, 0x41u8],
        Operation::Baa => seq![0x42u8, 0x41u8, 0x41u8],
        Operation::Sub => seq![0x53u8, 0x55u8, 0x42u8],
        Operation::Sbb => seq![0x53u8, 0x42u8, 0x42u8],
        Operation::Dec => seq![0x44u8, 0x45u8, 0x43u8],
        Operation::Neg => seq![0x4eu8, 0x45u8, 0x47u8],
        Operation::Cmp => seq![0x43u8, 0x4du8, 0x50u8],
        Operation::Aas => seq![0x41u8, 0x41u8, 0x53u8],
        Operation::Das => seq![0x44u8, 0x41u8, 0x53u8],
        Operation::Mul => seq![0x4du8, 0x55u8, 0x4cu8],
        Operation::Imul => seq![0x49u8, 0x4du8, 0x55u8, 0x4cu8],
        Operation::Aam => seq![0x41u8, 0x41u8, 0x4du8],
        Operation::Div => seq![0x44u8, 0x49u8, 0x56u8],
        Operation::Idiv => seq![0x49u8, 0x44u8, 0x49u8, 0x56u8],
        Operation::Aad => seq![0x41u8, 0x41u8, 0x44u8],
        Operation::Cbw => seq![0x43u8, 0x42u8, 0x57u8],
        Operation::Cwd => seq![0x43u8, 0x57u8, 0x44u8],
        Operation::Not => seq![0x4eu8, 0x4fu8, 0x54u8],
        Operation::Shl => seq![0x53u8, 0x48u8, 0x4cu8],
        Operation::Shr => seq![0x53u8, 0x48u8, 0x52u8],
        Operation::Sar => seq![0x53u8, 0x41u8, 0x52u8],
        Operation::Rol => seq![0x52u8, 0x4fu8, 0x4cu8],
        Operation::Ror => seq![0x52u8, 0x4fu8, 0x52u8],
        Operation::Rcl => seq![0x52u8, 0x43u8, 0x4cu8],
        Operation::Rcr => seq![0x52u8, 0x43u8, 0x52u8],
        Operation::And => seq![0x41u8, 0x4eu8, 0x44u8],
        Operation::Test => seq![0x54u8, 0x45u8, 0x53u8, 0x54u8],
        Operation::Or => seq![0x4fu8, 0x52u8],
        Operation::Xor => seq![0x58u8, 0x4fu8, 0x52u8],
        Operation::Cmpsb => seq![0x43u8, 0x4du8, 0x50u8, 0x53u8, 0x42u8],
        Operation::Cmpsw => seq![0x43u8, 0x4du8, 0x50u8, 0x53u8, 0x57u8],
        Operation::Lodsb => seq![0x4cu8, 0x4fu8, 0x44u8, 0x53u8, 0x42u8],
        Operation::Lodsw => seq![0x4cu8, 0x4fu8, 0x44u8, 0x53u8, 0x57u8],
        Operation::Movsb => seq![0x4du8, 0x4fu8, 0x56u8, 0x53u8, 0x42u8],
        Operation::Movsw => seq![0x4du8, 0x4fu8, 0x56u8, 0x53u8, 0x57u8],
        Operation::Scasb => seq![0x53u8, 0x43u8, 0x41u8, 0x53u8, 0x42u8],
        Operation::Scasw => seq![0x53u8, 0x43u8, 0x41u8, 0x53u8, 0x57u8],
        Operation::Stosb => seq![0x53u8, 0x54u8, 0x4fu8, 0x53u8, 0x42u8],
        Operation::Stosw => seq![0x53u8, 0x54u8, 0x4fu8, 0x53u8, 0x57u8],
        Operation::Call => seq![0x43u8, 0x41u8, 0x4cu8, 0x4cu8],
        Operation::Jmp => seq![0x4au8, 0x4du8, 0x50u8],
        Operation::Ret => seq![0x52u8, 0x45u8, 0x54u8],
        Operation::Je => seq![0x4au8, 0x45u8],
        Operation::Jl => seq![0x4au8, 0x4cu8],
        Operation::Jle => seq![0x4au8, 0x4cu8, 0x45u8],
        Operation::Jb => seq![0x4au8, 0x42u8],
        Operation::Jbe => seq![0x4au8, 0x42u8, 0x45u8],
        Operation::Jp => seq![0x4au8, 0x50u8],
        Operation::Jo => seq![0x4au8, 0x4fu8],
        Operation::Js => seq![0x4au8, 0x53u8],
        Operation::Jne => seq![0x4au8, 0x4eu8, 0x45u8],
        Operation::Jnl => seq![0x4au8, 0x4eu8, 0x4cu8],
        Operation::Jnle => seq![0x4au8, 0x4eu8, 0x4cu8, 0x45u8],
        Operation::Jnb => seq![0x4au8, 0x4eu8, 0x42u8],
        Operation::Jnbe => seq![0x4au8, 0x4eu8, 0x42u8, 0x45u8],
        Operation::Jnp => seq![0x4au8, 0x4eu8, 0x50u8],
        Operation::Jno => seq![0x4au8, 0x4eu8, 0x4fu8],
        Operation::Jns => seq![0x4au8, 0x4eu8, 0x53u8],
        Operation::Loop => seq![0x4cu8, 0x4fu8, 0x4fu8, 0x50u8],
        Operation::Loopz => seq![0x4cu8, 0x4fu8, 0x4fu8, 0x50u8, 0x5au8],
        Operation::Loopnz => seq![0x4cu8, 0x4fu8, 0x4fu8, 0x50u8, 0x4eu8, 0x5au8],
        Operation::Jcxz => seq![0x4au8, 0x43u8, 0x58u8, 0x5au8],
        Operation::Int => seq![0x49u8, 0x4eu8, 0x54u8],
        Operation::Into => seq![0x49u8, 0x4eu8, 0x54u8, 0x4fu8],
        Operation::IRet => seq![0x49u8, 0x52u8, 0x45u8, 0x54u8],
        Operation::Clc => seq![0x43u8, 0x4cu8, 0x43u8],
        Operation::Cmc => seq![0x43u8, 0x4du8, 0x43u8],
        Operation::Stc => seq![0x53u8, 0x54u8, 0x43u8],
        Operation::Cld => seq![0x43u8, 0x4cu8, 0x44u8],
        Operation::Std => seq![0x53u8, 0x54u8, 0x44u8],
        Operation::Cli => seq![0x43u8, 0x4cu8, 0x49u8],
        Operation::Sti => seq![0x53u8, 0x54u8, 0x49u8],
        Operation::Hlt => seq![0x48u8, 0x4cu8, 0x54u8],
        Operation::Wait => seq![0x57u8, 0x41u8, 0x49u8, 0x54u8],
        Operation::Esc => seq![0x45u8, 0x53u8, 0x43u8],
        Operation::Lock => seq![0x4cu8, 0x4fu8, 0x43u8, 0x4bu8],
    }
}

/// Append the canonical mnemonic of an operation.
#[verifier::rlimit(100)]
pub fn push_mnemonic(out: &mut Vec<u8>, op: Operation)
    ensures
        final(out)@ == old(out)@ + spec_mnemonic(op),
{
    proof {
        reveal(spec_mnemonic);
    }
    match op {
        Operation::Mov => {
            out.push(0x4d);
            out.push(0x4f);
            out.push(0x56);
        },
        Operation::Push => {
            out.push(0x50);
            out.push(0x55);
            out.push(0x53);
            out.push(0x48);
        },
        Operation::Pop => {
            out.push(0x50);
            out.push(0x4f);
            out.push(0x50);
        },
        Operation::Xchg => {
            out.push(0x58);
            out.push(0x43);
            out.push(0x48);
            out.push(0x47);
        },
        Operation::In => {
            out.push(0x49);
            out.push(0x4e);
        },
        Operation::Out => {
            out.push(0x4f);
            out.push(0x55);
            out.push(0x54);
        },
        Operation::Xlat => {
            out.push(0x58);
            out.push(0x4c);
            out.push(0x41);
            out.push(0x54);
        },
        Operation::Lea => {
            out.push(0x4c);
            out.push(0x45);
            out.push(0x41);
        },
        Operation::Lds => {
            out.push(0x4c);
            out.push(0x44);
            out.push(0x53);
        },
        Operation::Les => {
            out.push(0x4c);
            out.push(0x45);
            out.push(0x53);
        },
        Operation::Lahf => {
            out.push(0x4c);
            out.push(0x41);
            out.push(0x48);
            out.push(0x46);
        },
        Operation::Sahf => {
            out.push(0x53);
            out.push(0x41);
            out.push(0x48);
            out.push(0x46);
        },
        Operation::Pushf => {
            out.push(0x50);
            out.push(0x55);
            out.push(0x53);
            out.push(0x48);
            out.push(0x46);
        },
        Operation::Popf => {
            out.push(0x50);
            out.push(0x4f);
            out.push(0x50);
            out.push(0x46);
        },
        Operation::Add => {
            out.push(0x41);
            out.push(0x44);
            out.push(0x44);
        },
        Operation::Adc => {
            out.push(0x41);
            out.push(0x44);
            out.push(0x43);
        },
        Operation::Inc => {
            out.push(0x49);
            out.push(0x4e);
            out.push(0x43);
        },
        Operation::Aaa => {
            out.push(0x41);
            out.push(0x41);
            out.push(0x41);
        },
        Operation::Baa => {
            out.push(0x42);
            out.push(0x41);
            out.push(0x41);
        },
        Operation::Sub => {
            out.push(0x53);
            out.push(0x55);
            out.push(0x42);
        },
        Operation::Sbb => {
            out.push(0x53);
            out.push(0x42);
            out.push(0x42);
        },
        Operation::Dec => {
            out.push(0x44);
            out.push(0x45);
            out.push(0x43);
        },
        Operation::Neg => {
            out.push(0x4e);
            out.push(0x45);
            out.push(0x47);
        },
        Operation::Cmp => {
            out.push(0x43);
            out.push(0x4d);
            out.push(0x50);
        },
        Operation::Aas => {
            out.push(0x41);
            out.push(0x41);
            out.push(0x53);
        },
        Operation::Das => {
            out.push(0x44);
            out.push(0x41);
            out.push(0x53);
        },
        Operation::Mul => {
            out.push(0x4d);
            out.push(0x55);
            out.push(0x4c);
        },
        Operation::Imul => {
            out.push(0x49);
            out.push(0x4d);
            out.push(0x55);
            out.push(0x4c);
        },
        Operation::Aam => {
            out.push(0x41);
            out.push(0x41);
            out.push(0x4d);
        },
        Operation::Div => {
            out.push(0x44);
            out.push(0x49);
            out.push(0x56);
        },
        Operation::Idiv => {
            out.push(0x49);
            out.push(0x44);
            out.push(0x49);
            out.push(0x56);
        },
        Operation::Aad => {
            out.push(0x41);
            out.push(0x41);
            out.push(0x44);
        },
        Operation::Cbw => {
            out.push(0x43);
            out.push(0x42);
            out.push(0x57);
        },
        Operation::Cwd => {
            out.push(0x43);
            out.push(0x57);
            out.push(0x44);
        },
        Operation::Not => {
            out.push(0x4e);
            out.push(0x4f);
            out.push(0x54);
        },
        Operation::Shl => {
            out.push(0x53);
            out.push(0x48);
            out.push(0x4c);
        },
        Operation::Shr => {
            out.push(0x53);
            out.push(0x48);
            out.push(0x52);
        },
        Operation::Sar => {
            out.push(0x53);
            out.push(0x41);
            out.push(0x52);
        },
        Operation::Rol => {
            out.push(0x52);
            out.push(0x4f);
            out.push(0x4c);
        },
        Operation::Ror => {
            out.push(0x52);
            out.push(0x4f);
            out.push(0x52);
        },
        Operation::Rcl => {
            out.push(0x52);
            out.push(0x43);
            out.push(0x4c);
        },
        Operation::Rcr => {
            out.push(0x52);
            out.push(0x43);
            out.push(0x52);
        },
        Operation::And => {
            out.push(0x41);
            out.push(0x4e);
            out.push(0x44);
        },
        Operation::Test => {
            out.push(0x54);
            out.push(0x45);
            out.push(0x53);
            out.push(0x54);
        },
        Operation::Or => {
            out.push(0x4f);
            out.push(0x52);
        },
        Operation::Xor => {
            out.push(0x58);
            out.push(0x4f);
            out.push(0x52);
        },
        Operation::Cmpsb => {
            out.push(0x43);
            out.push(0x4d);
            out.push(0x50);
            out.push(0x53);
            out.push(0x42);
        },
        Operation::Cmpsw => {
            out.push(0x43);
            out.push(0x4d);
            out.push(0x50);
            out.push(0x53);
            out.push(0x57);
        },
        Operation::Lodsb => {
            out.push(0x4c);
            out.push(0x4f);
            out.push(0x44);
            out.push(0x53);
            out.push(0x42);
        },
        Operation::Lodsw => {
            out.push(0x4c);
            out.push(0x4f);
            out.push(0x44);
            out.push(0x53);
            out.push(0x57);
        },
        Operation::Movsb => {
            out.push(0x4d);
            out.push(0x4f);
            out.push(0x56);
            out.push(0x53);
            out.push(0x42);
        },
        Operation::Movsw => {
            out.push(0x4d);
            out.push(0x4f);
            out.push(0x56);
            out.push(0x53);
            out.push(0x57);
        },
        Operation::Scasb => {
            out.push(0x53);
            out.push(0x43);
            out.push(0x41);
            out.push(0x53);
            out.push(0x42);
        },
        Operation::Scasw => {
            out.push(0x53);
            out.push(0x43);
            out.push(0x41);
            out.push(0x53);
            out.push(0x57);
        },
        Operation::Stosb => {
            out.push(0x53);
            out.push(0x54);
            out.push(0x4f);
            out.push(0x53);
            out.push(0x42);
        },
        Operation::Stosw => {
            out.push(0x53);
            out.push(0x54);
            out.push(0x4f);
            out.push(0x53);
            out.push(0x57);
        },
        Operation::Call => {
            out.push(0x43);
            out.push(0x41);
            out.push(0x4c);
            out.push(0x4c);
        },
        Operation::Jmp => {
            out.push(0x4a);
            out.push(0x4d);
            out.push(0x50);
        },
        Operation::Ret => {
            out.push(0x52);
            out.push(0x45);
            out.push(0x54);
        },
        Operation::Je => {
            out.push(0x4a);
            out.push(0x45);
        },
        Operation::Jl => {
            out.push(0x4a);
            out.push(0x4c);
        },
        Operation::Jle => {
            out.push(0x4a);
            out.push(0x4c);
            out.push(0x45);
        },
        Operation::Jb => {
            out.push(0x4a);
            out.push(0x42);
        },
        Operation::Jbe => {
            out.push(0x4a);
            out.push(0x42);
            out.push(0x45);
        },
        Operation::Jp => {
            out.push(0x4a);
            out.push(0x50);
        },
        Operation::Jo => {
            out.push(0x4a);
            out.push(0x4f);
        },
        Operation::Js => {
            out.push(0x4a);
            out.push(0x53);
        },
        Operation::Jne => {
            out.push(0x4a);
            out.push(0x4e);
            out.push(0x45);
        },
        Operation::Jnl => {
            out.push(0x4a);
            out.push(0x4e);
            out.push(0x4c);
        },
        Operation::Jnle => {
            out.push(0x4a);
            out.push(0x4e);
            out.push(0x4c);
            out.push(0x45);
        },
        Operation::Jnb => {
            out.push(0x4a);
            out.push(0x4e);
            out.push(0x42);
        },
        Operation::Jnbe => {
            out.push(0x4a);
            out.push(0x4e);
            out.push(0x42);
            out.push(0x45);
        },
        Operation::Jnp => {
            out.push(0x4a);
            out.push(0x4e);
            out.push(0x50);
        },
        Operation::Jno => {
            out.push(0x4a);
            out.push(0x4e);
            out.push(0x4f);
        },
        Operation::Jns => {
            out.push(0x4a);
            out.push(0x4e);
            out.push(0x53);
        },
        Operation::Loop => {
            out.push(0x4c);
            out.push(0x4f);
            out.push(0x4f);
            out.push(0x50);
        },
        Operation::Loopz => {
            out.push(0x4c);
            out.push(0x4f);
            out.push(0x4f);
            out.push(0x50);
            out.push(0x5a);
        },
        Operation::Loopnz => {
            out.push(0x4c);
            out.push(0x4f);
            out.push(0x4f);
            out.push(0x50);
            out.push(0x4e);
            out.push(0x5a);
        },
        Operation::Jcxz => {
            out.push(0x4a);
            out.push(0x43);
            out.push(0x58);
            out.push(0x5a);
        },
        Operation::Int => {
            out.push(0x49);
            out.push(0x4e);
            out.push(0x54);
        },
        Operation::Into => {
            out.push(0x49);
            out.push(0x4e);
            out.push(0x54);
            out.push(0x4f);
        },
        Operation::IRet => {
            out.push(0x49);
            out.push(0x52);
            out.push(0x45);
            out.push(0x54);
        },
        Operation::Clc => {
            out.push(0x43);
            out.push(0x4c);
            out.push(0x43);
        },
        Operation::Cmc => {
            out.push(0x43);
            out.push(0x4d);
            out.push(0x43);
        },
        Operation::Stc => {
            out.push(0x53);
            out.push(0x54);
            out.push(0x43);
        },
        Operation::Cld => {
            out.push(0x43);
            out.push(0x4c);
            out.push(0x44);
        },
        Operation::Std => {
            out.push(0x53);
            out.push(0x54);
            out.push(0x44);
        },
        Operation::Cli => {
            out.push(0x43);
            out.push(0x4c);
            out.push(0x49);
        },
        Operation::Sti => {
            out.push(0x53);
            out.push(0x54);
            out.push(0x49);
        },
        Operation::Hlt => {
            out.push(0x48);
            out.push(0x4c);
            out.push(0x54);
        },
        Operation::Wait => {
            out.push(0x57);
            out.push(0x41);
            out.push(0x49);
            out.push(0x54);
        },
        Operation::Esc => {
            out.push(0x45);
            out.push(0x53);
            out.push(0x43);
        },
        Operation::Lock => {
            out.push(0x4c);
            out.push(0x4f);
            out.push(0x43);
            out.push(0x4b);
        },
    }
    proof {
        assert(out@ =~= old(out)@ + spec_mnemonic(op));
    }
}

/// The text of one operand: register and segment names, immediates and
/// addresses in hex at their width, memory references in brackets with
/// an explicit width word.
#[verifier::opaque]
pub open spec fn spec_operand_text(o: Operand) -> Seq<u8> {
    let Operand(t, size) = o;
    match t {
        OperandType::Register(r) => {
            if size is Word {
                spec_word_register_name(r)
            } else {
                spec_byte_register_name(r)
            }
        },
        OperandType::Segment(s) => spec_segment_name(s),
        OperandType::Immediate(v) => {
            if size is Word {
                HEXP() + spec_hex_word(v)
            } else {
                HEXP() + spec_hex_byte((v % 0x100) as u8)
            }
        },
        OperandType::Direct(off) => spec_size_word(size) + seq![0x5Bu8] + HEXP() + spec_hex_word(
            off,
        ) + seq![0x5Du8],
        OperandType::Indirect(mode, disp) => {
            if disp == 0 {
                spec_size_word(size) + seq![0x5Bu8] + spec_mode_name(mode) + seq![0x5Du8]
            } else {
                spec_size_word(size) + seq![0x5Bu8] + spec_mode_name(mode) + seq![0x2Bu8] + HEXP()
                    + spec_hex_word(disp) + seq![0x5Du8]
            }
        },
    }
}

/// The hex prefix `0x`.
#[verifier::inline]
pub open spec fn HEXP() -> Seq<u8> {
    seq![0x30u8, 0x78u8]
}

/// The width word before a memory reference: `byte ` or `word `.
pub open spec fn spec_size_word(size: OperandSize) -> Seq<u8> {
    match size {
        OperandSize::Byte => SIZE_BYTE_TEXT(),
        OperandSize::Word => SIZE_WORD_TEXT(),
    }
}

/// The text `byte `.
#[verifier::inline]
pub open spec fn SIZE_BYTE_TEXT() -> Seq<u8> {
    seq![0x62u8, 0x79u8, 0x74u8, 0x65u8, 0x20u8]
}

/// The text `word `.
#[verifier::inline]
pub open spec fn SIZE_WORD_TEXT() -> Seq<u8> {
    seq![0x77u8, 0x6Fu8, 0x72u8, 0x64u8, 0x20u8]
}

/// Append the text of one operand.
#[verifier::rlimit(60)]
pub fn push_operand(out: &mut Vec<u8>, o: &Operand)
    ensures
        final(out)@ == old(out)@ + spec_operand_text(*o),
{
    proof {
        reveal(spec_operand_text);
    }
    let Operand(t, size) = *o;
    match t {
        OperandType::Register(r) => {
            if matches!(size, OperandSize::Word) {
                push_word_register_name(out, r);
            } else {
                push_byte_register_name(out, r);
            }
        },
        OperandType::Segment(s) => {
            push_segment_name(out, s);
        },
        OperandType::Immediate(v) => {
            out.push(0x30);
            out.push(0x78);
            if matches!(size, OperandSize::Word) {
                push_hex_word(out, v);
            } else {
                push_hex_byte(out, (v % 0x100) as u8);
            }
        },
        OperandType::Direct(off) => {
            push_size_word(out, size);
            out.push(0x5B);
            out.push(0x30);
            out.push(0x78);
            push_hex_word(out, off);
            out.push(0x5D);
        },
        OperandType::Indirect(mode, disp) => {
            push_size_word(out, size);
            out.push(0x5B);
            push_mode_name(out, mode);
            if disp != 0 {
                out.push(0x2B);
                out.push(0x30);
                out.push(0x78);
                push_hex_word(out, disp);
            }
            out.push(0x5D);
        },
    }
    proof {
        assert(out@ =~= old(out)@ + spec_operand_text(*o));
    }
}

/// Append the width word before a memory reference.
fn push_size_word(out: &mut Vec<u8>, size: OperandSize)
    ensures
        final(out)@ == old(out)@ + spec_size_word(size),
{
    match size {
        OperandSize::Byte => {
            out.push(0x62);
            out.push(0x79);
            out.push(0x74);
            out.push(0x65);
            out.push(0x20);
        },
        OperandSize::Word => {
            out.push(0x77);
            out.push(0x6F);
            out.push(0x72);
            out.push(0x64);
            out.push(0x20);
        },
    }
    proof {
        assert(out@ =~= old(out)@ + spec_size_word(size));
    }
}

/// The repeat-prefix text of an instruction.
pub open spec fn spec_rep_text(r: Option<Repeat>) -> Seq<u8> {
    match r {
        Some(Repeat::Equal) => seq![0x52u8, 0x45u8, 0x50u8, 0x20u8],
        Some(Repeat::NotEqual) => seq![0x52u8, 0x45u8, 0x50u8, 0x4Eu8, 0x45u8, 0x20u8],
        None => seq![],
    }
}

/// The segment-override text of an instruction.
pub open spec fn spec_override_text(o: Option<Segment>) -> Seq<u8> {
    match o {
        Some(s) => spec_segment_name(s) + seq![0x20u8],
        None => seq![],
    }
}

/// The text of a whole instruction: repeat prefix, segment override,
/// mnemonic, then its operands.
pub open spec fn spec_instruction_text(i: Instruction) -> Seq<u8> {
    spec_rep_text(i.repeat) + spec_override_text(i.segment_override) + spec_mnemonic(i.operation)
        + spec_operands_text(i.operands)
}

/// The text of an operand set, with its leading space when not empty.
pub open spec fn spec_operands_text(o: OperandSet) -> Seq<u8> {
    match o {
        OperandSet::Empty => seq![],
        OperandSet::Destination(d) => seq![0x20u8] + spec_operand_text(d),
        OperandSet::DestinationAndSource(d, s) => seq![0x20u8] + spec_operand_text(d) + seq![
            0x2Cu8,
            0x20u8,
        ] + spec_operand_text(s),
        OperandSet::Offset(v) => seq![0x20u8] + HEXP() + spec_hex_word(v),
        OperandSet::SegmentAndOffset(seg, off) => seq![0x20u8] + HEXP() + spec_hex_word(seg)
            + seq![0x3Au8] + HEXP() + spec_hex_word(off),
    }
}

/// Append the text of an operand set.
#[verifier::rlimit(60)]
fn push_operands(out: &mut Vec<u8>, operands: &OperandSet)
    ensures
        final(out)@ == old(out)@ + spec_operands_text(*operands),
{
    match operands {
        OperandSet::Empty => {},
        OperandSet::Destination(d) => {
            out.push(0x20);
            push_operand(out, d);
        },
        OperandSet::DestinationAndSource(d, s) => {
            out.push(0x20);
            push_operand(out, d);
            out.push(0x2C);
            out.push(0x20);
            push_operand(out, s);
        },
        OperandSet::Offset(v) => {
            out.push(0x20);
            out.push(0x30);
            out.push(0x78);
            push_hex_word(out, *v);
        },
        OperandSet::SegmentAndOffset(seg, off) => {
            out.push(0x20);
            out.push(0x30);
            out.push(0x78);
            push_hex_word(out, *seg);
            out.push(0x3A);
            out.push(0x30);
            out.push(0x78);
            push_hex_word(out, *off);
        },
    }
    proof {
        assert(out@ =~= old(out)@ + spec_operands_text(*operands));
    }
}

/// Append the repeat-prefix text.
fn push_rep(out: &mut Vec<u8>, r: Option<Repeat>)
    ensures
        final(out)@ == old(out)@ + spec_rep_text(r),
{
    match r {
        Some(Repeat::Equal) => {
            out.push(0x52);
            out.push(0x45);
            out.push(0x50);
            out.push(0x20);
        },
        Some(Repeat::NotEqual) => {
            out.push(0x52);
            out.push(0x45);
            out.push(0x50);
            out.push(0x4E);
            out.push(0x45);
            out.push(0x20);
        },
        None => {},
    }
    proof {
        assert(out@ =~= old(out)@ + spec_rep_text(r));
    }
}

/// Append the segment-override text.
fn push_override(out: &mut Vec<u8>, o: Option<Segment>)
    ensures
        final(out)@ == old(out)@ + spec_override_text(o),
{
    match o {
        Some(s) => {
            push_segment_name(out, s);
            out.push(0x20);
        },
        None => {},
    }
    proof {
        assert(out@ =~= old(out)@ + spec_override_text(o));
    }
}

impl Instruction {
    /// This instruction as canonical listing text.
    pub fn to_text(&self) -> (r: Vec<u8>)
        ensures
            r@ == spec_instruction_text(*self),
    {
        let mut out: Vec<u8> = Vec::new();
        push_rep(&mut out, self.repeat);
        push_override(&mut out, self.segment_override);
        push_mnemonic(&mut out, self.operation);
        push_operands(&mut out, &self.operands);
        proof {
            assert(out@ =~= spec_instruction_text(*self));
        }
        out
    }
}

/// The hex field of a listing line: up to five bytes, two hex digits and
/// a space each, padded with blanks to five slots.
pub open spec fn spec_byte_slots(bytes: Seq<u8>, slots: nat) -> Seq<u8>
    decreases slots,
{
    if slots == 0 {
        Seq::empty()
    } else if bytes.len() > 0 {
        spec_hex_byte(bytes[0]) + seq![0x20u8] + spec_byte_slots(bytes.skip(1), (slots - 1) as nat)
    } else {
        seq![0x20u8, 0x20u8, 0x20u8] + spec_byte_slots(bytes, (slots - 1) as nat)
    }
}

/// Append the hex field of a listing line.
fn push_byte_slots(out: &mut Vec<u8>, bytes: &[u8], idx: usize, slots: u8)
    requires
        idx <= bytes@.len(),
    ensures
        final(out)@ == old(out)@ + spec_byte_slots(bytes@.skip(idx as int), slots as nat),
    decreases slots,
{
    if slots == 0 {
        proof {
            assert(out@ =~= old(out)@ + spec_byte_slots(bytes@.skip(idx as int), slots as nat));
        }
        return ;
    }
    if idx < bytes.len() {
        push_hex_byte(out, *slice_index_get(bytes, idx));
        out.push(0x20);
        push_byte_slots(out, bytes, idx + 1, slots - 1);
        proof {
            assert(bytes@.skip(idx as int).skip(1) =~= bytes@.skip(idx + 1));
            assert(out@ =~= old(out)@ + spec_byte_slots(bytes@.skip(idx as int), slots as nat));
        }
    } else {
        out.push(0x20);
        out.push(0x20);
        out.push(0x20);
        push_byte_slots(out, bytes, idx, slots - 1);
        proof {
            assert(out@ =~= old(out)@ + spec_byte_slots(bytes@.skip(idx as int), slots as nat));
        }
    }
}

/// One listing line for a decoded instruction: address, its bytes, and
/// the canonical text.
pub open spec fn spec_instruction_line(
    addr: SegmentAndOffset,
    bytes: Seq<u8>,
    i: Instruction,
) -> Seq<u8> {
    spec_addr_text(addr) + seq![0x20u8, 0x20u8] + spec_byte_slots(bytes, 5) + seq![0x20u8]
        + spec_instruction_text(i)
}

/// One listing line for a byte no instruction starts at: a `db` line.
pub open spec fn spec_data_line(addr: SegmentAndOffset, b: u8) -> Seq<u8> {
    spec_addr_text(addr) + seq![0x20u8, 0x20u8] + spec_byte_slots(seq![b], 5) + seq![
        0x20u8,
        0x64u8,
        0x62u8,
        0x20u8,
        0x30u8,
        0x78u8,
    ] + spec_hex_byte(b)
}

/// Build one instruction listing line.
pub fn print_instruction(addr: SegmentAndOffset, bytes: &[u8], instruction: &Instruction) -> (r:
    Vec<u8>)
    ensures
        r@ == spec_instruction_line(addr, bytes@, *instruction),
{
    let mut out = addr.to_text();
    out.push(0x20);
    out.push(0x20);
    push_byte_slots(&mut out, bytes, 0, 5);
    out.push(0x20);
    let text = instruction.to_text();
    let ghost out0 = out@;
    let mut tail = text;
    out.append(&mut tail);
    proof {
        assert(bytes@.skip(0) =~= bytes@);
        assert(out@ =~= spec_instruction_line(addr, bytes@, *instruction));
    }
    out
}

/// Build one `db` listing line.
pub fn print_data_byte(addr: SegmentAndOffset, b: u8) -> (r: Vec<u8>)
    ensures
        r@ == spec_data_line(addr, b),
{
    let mut out = addr.to_text();
    out.push(0x20);
    out.push(0x20);
    let one: Vec<u8> = vec![b];
    push_byte_slots(&mut out, one.as_slice(), 0, 5);
    out.push(0x20);
    out.push(0x64);
    out.push(0x62);
    out.push(0x20);
    out.push(0x30);
    out.push(0x78);
    push_hex_byte(&mut out, b);
    proof {
        assert(one@.skip(0) =~= seq![b]);
        assert(out@ =~= spec_data_line(addr, b));
    }
    out
}

/// A section of raw machine code with the address it loads at.
pub struct Section {
    pub addr: SegmentAndOffset,
    pub data: Vec<u8>,
}

impl Section {
    /// A section over the given bytes.
    pub fn new(addr: SegmentAndOffset, data: Vec<u8>) -> (r: Self)
        ensures
            r.addr == addr,
            r.data == data,
    {
        Self { addr, data }
    }
}

/// The listing of a section from `pos` on: one line per decoded
/// instruction; a byte where decoding fails is listed as data and
/// skipped.
pub open spec fn spec_disassemble_at(data: Seq<u8>, origin: SegmentAndOffset, pos: int) -> Seq<
    Seq<u8>,
>
    decreases data.len() - pos,
    when 0 <= pos
{
    if pos >= data.len() {
        Seq::empty()
    } else {
        let (r, p) = spec_decode(data, pos);
        match r {
            Ok(i) => {
                let p2 = crate::parse::step_to(data.len() as int, pos, p);
                seq![
                    spec_instruction_line(
                        spec_relative_to(pos as u32, origin),
                        data.subrange(pos, p2),
                        i,
                    ),
                ] + spec_disassemble_at(data, origin, p2)
            },
            Err(_) => seq![spec_data_line(spec_relative_to(pos as u32, origin), data[pos])]
                + spec_disassemble_at(data, origin, pos + 1),
        }
    }
}

/// Copy a range of a section's bytes.
fn copy_section_range(data: &Vec<u8>, start: usize, end: usize) -> (r: Vec<u8>)
    requires
        start <= end <= data@.len(),
    ensures
        r@ == data@.subrange(start as int, end as int),
{
    let mut out: Vec<u8> = Vec::new();
    let mut i = start;
    while i < end
        invariant
            start <= i <= end <= data@.len(),
            out@ == data@.subrange(start as int, i as int),
        decreases end - i,
    {
        out.push(data[i]);
        proof {
            assert(out@ =~= data@.subrange(start as int, i + 1));
        }
        i = i + 1;
    }
    out
}

/// Disassemble a whole section into listing lines, decoding from the
/// front and resuming one byte later wherever decoding fails.
pub fn print_section(section: &Section) -> (r: Vec<Vec<u8>>)
    requires
        section.data@.len() < 0x10000000,
    ensures
        r@.map_values(|l: Vec<u8>| l@) == spec_disassemble_at(section.data@, section.addr, 0),
    decreases section.data@.len(),
{
    let mut it = Data::from_bytes(copy_section_range(&section.data, 0, section.data.len()));
    let mut lines: Vec<Vec<u8>> = Vec::new();
    proof {
        assert(section.data@.subrange(0, section.data@.len() as int) =~= section.data@);
        assert(lines@.map_values(|l: Vec<u8>| l@) =~= Seq::<Seq<u8>>::empty());
    }
    while it.current_position < it.data.len()
        invariant
            it.wf(),
            it.data@ == section.data@,
            lines@.map_values(|l: Vec<u8>| l@) + spec_disassemble_at(
                section.data@,
                section.addr,
                it.current_position as int,
            ) == spec_disassemble_at(section.data@, section.addr, 0),
        decreases it.data@.len() - it.current_position,
    {
        let start = it.current_position;
        let ghost lines0 = lines@;
        match crate::decode::decode_instruction(&mut it) {
            Ok(instruction) => {
                let p = it.current_position;
                let bytes = copy_section_range(&section.data, start, p);
                let addr = relative_to(start as u32, &section.addr);
                let line = print_instruction(addr, bytes.as_slice(), &instruction);
                lines.push(line);
                proof {
                    assert(lines@.map_values(|l: Vec<u8>| l@) =~= lines0.map_values(
                        |l: Vec<u8>| l@,
                    ).push(spec_instruction_line(
                        spec_relative_to(start as u32, section.addr),
                        section.data@.subrange(start as int, p as int),
                        instruction,
                    )));
                    assert(lines@.map_values(|l: Vec<u8>| l@) + spec_disassemble_at(
                        section.data@,
                        section.addr,
                        p as int,
                    ) =~= spec_disassemble_at(section.data@, section.addr, 0));
                }
            },
            Err(_) => {
                let b = section.data[start];
                let addr = relative_to(start as u32, &section.addr);
                let line = print_data_byte(addr, b);
                lines.push(line);
                it.current_position = start + 1;
                proof {
                    assert(lines@.map_values(|l: Vec<u8>| l@) =~= lines0.map_values(
                        |l: Vec<u8>| l@,
                    ).push(spec_data_line(
                        spec_relative_to(start as u32, section.addr),
                        section.data@[start as int],
                    )));
                    assert(lines@.map_values(|l: Vec<u8>| l@) + spec_disassemble_at(
                        section.data@,
                        section.addr,
                        start + 1,
                    ) =~= spec_disassemble_at(section.data@, section.addr, 0));
                }
            },
        }
    }
    proof {
        assert(lines@.map_values(|l: Vec<u8>| l@) + Seq::<Seq<u8>>::empty() =~= lines@.map_values(
            |l: Vec<u8>| l@,
        ));
    }
    lines
}

/// The register dump: each word register's name and value in order of
/// their wire codes.
pub open spec fn spec_registers_text(regs: Seq<u16>) -> Seq<u8>
    recommends
        regs.len() == 8,
{
    spec_one_register_text(0x41, 0x58, regs[0]) + spec_one_register_text(0x43, 0x58, regs[1])
        + spec_one_register_text(0x44, 0x58, regs[2]) + spec_one_register_text(0x42, 0x58, regs[3])
        + spec_one_register_text(0x53, 0x50, regs[4]) + spec_one_register_text(0x42, 0x50, regs[5])
        + spec_one_register_text(0x53, 0x49, regs[6]) + spec_one_register_text(0x44, 0x49, regs[7])
}

/// One `NN: 0xXXXX ` cell of the register dump.
pub open spec fn spec_one_register_text(a: u8, b: u8, v: u16) -> Seq<u8> {
    seq![a, b, 0x3Au8, 0x20u8, 0x30u8, 0x78u8] + spec_hex_word(v) + seq![0x20u8]
}

/// Append one cell of the register dump.
fn push_one_register(out: &mut Vec<u8>, a: u8, b: u8, v: u16)
    ensures
        final(out)@ == old(out)@ + spec_one_register_text(a, b, v),
{
    out.push(a);
    out.push(b);
    out.push(0x3A);
    out.push(0x20);
    out.push(0x30);
    out.push(0x78);
    push_hex_word(out, v);
    out.push(0x20);
    proof {
        assert(out@ =~= old(out)@ + spec_one_register_text(a, b, v));
    }
}

/// The whole register file as one line of text, each register shown as
/// `NN: 0xXXXX`.
pub fn print_registers(registers: &[u16; 8]) -> (r: Vec<u8>)
    ensures
        r@ == spec_registers_text(registers@),
{
    let mut out: Vec<u8> = Vec::new();
    push_one_register(&mut out, 0x41, 0x58, registers[0]);
    push_one_register(&mut out, 0x43, 0x58, registers[1]);
    push_one_register(&mut out, 0x44, 0x58, registers[2]);
    push_one_register(&mut out, 0x42, 0x58, registers[3]);
    push_one_register(&mut out, 0x53, 0x50, registers[4]);
    push_one_register(&mut out, 0x42, 0x50, registers[5]);
    push_one_register(&mut out, 0x53, 0x49, registers[6]);
    push_one_register(&mut out, 0x44, 0x49, registers[7]);
    proof {
        assert(out@ =~= spec_registers_text(registers@));
    }
    out
}

} // verus!
