//! The instruction encoder: bytes for every instruction shape the assembler
//! produces, together with the law that decoding an encoded instruction
//! gives the instruction back, consuming exactly its bytes.

use vstd::prelude::*;

use crate::decode::{spec_decode, Error};
use crate::modrm::{register_code, segment_code, sign_extend_u8};
use crate::x86::{
    Instruction, Operand, OperandSet, OperandSize, OperandType, Operation, Register, Segment,
};

verus! {

/// Everything that can go wrong while encoding one instruction.
#[derive(Clone, Copy, Debug, PartialEq, Eq, Structural)]
pub enum EncodeError {
    /// The operand shapes do not fit any encoding of the operation.
    InvalidOperandCombination,
    /// An immediate or displacement does not fit the operand width.
    DisplacementOutOfRange,
    /// Destination and source disagree about the operand width.
    SizeMismatch,
}

/// The `w` bit of an operand size.
pub open spec fn w_bit(size: OperandSize) -> u8 {
    match size {
        OperandSize::Byte => 0,
        OperandSize::Word => 1,
    }
}

/// Whether an immediate value fits the operand width.
pub open spec fn imm_fits(v: u16, size: OperandSize) -> bool {
    size is Word || v <= 0xFF
}

/// The row of the arithmetic block an operation occupies, if any.
pub open spec fn arith_row(op: Operation) -> Option<u8> {
    match op {
        Operation::Add => Some(0),
        Operation::Or => Some(1),
        Operation::Adc => Some(2),
        Operation::Sbb => Some(3),
        Operation::And => Some(4),
        Operation::Sub => Some(5),
        Operation::Xor => Some(6),
        Operation::Cmp => Some(7),
        _ => None,
    }
}

/// The opcode of a jump with an 8-bit displacement, if the operation is
/// one.
pub open spec fn short_jump_opcode(op: Operation) -> Option<u8> {
    match op {
        Operation::Jo => Some(0x70),
        Operation::Jno => Some(0x71),
        Operation::Jb => Some(0x72),
        Operation::Jnb => Some(0x73),
        Operation::Je => Some(0x74),
        Operation::Jne => Some(0x75),
        Operation::Jbe => Some(0x76),
        Operation::Jnbe => Some(0x77),
        Operation::Js => Some(0x78),
        Operation::Jns => Some(0x79),
        Operation::Jp => Some(0x7A),
        Operation::Jnp => Some(0x7B),
        Operation::Jl => Some(0x7C),
        Operation::Jnl => Some(0x7D),
        Operation::Jle => Some(0x7E),
        Operation::Jnle => Some(0x7F),
        Operation::Loopnz => Some(0xE0),
        Operation::Loopz => Some(0xE1),
        Operation::Loop => Some(0xE2),
        Operation::Jcxz => Some(0xE3),
        _ => None,
    }
}

/// The opcode of an operation that stands alone, with no operand bytes, if
/// the operation is one.
pub open spec fn no_operand_opcode(op: Operation) -> Option<u8> {
    match op {
        Operation::Ret => Some(0xC3),
        Operation::Into => Some(0xCE),
        Operation::IRet => Some(0xCF),
        Operation::Wait => Some(0x9B),
        Operation::Pushf => Some(0x9C),
        Operation::Popf => Some(0x9D),
        Operation::Sahf => Some(0x9E),
        Operation::Lahf => Some(0x9F),
        Operation::Movsb => Some(0xA4),
        Operation::Movsw => Some(0xA5),
        Operation::Cmpsb => Some(0xA6),
        Operation::Cmpsw => Some(0xA7),
        Operation::Stosb => Some(0xAA),
        Operation::Stosw => Some(0xAB),
        Operation::Lodsb => Some(0xAC),
        Operation::Lodsw => Some(0xAD),
        Operation::Scasb => Some(0xAE),
        Operation::Scasw => Some(0xAF),
        Operation::Cbw => Some(0x98),
        Operation::Cwd => Some(0x99),
        Operation::Xlat => Some(0xD7),
        Operation::Baa => Some(0x27),
        Operation::Das => Some(0x2F),
        Operation::Aaa => Some(0x37),
        Operation::Aas => Some(0x3F),
        Operation::Esc => Some(0xD8),
        Operation::Lock => Some(0xF0),
        Operation::Hlt => Some(0xF4),
        Operation::Cmc => Some(0xF5),
        Operation::Clc => Some(0xF8),
        Operation::Stc => Some(0xF9),
        Operation::Cli => Some(0xFA),
        Operation::Sti => Some(0xFB),
        Operation::Cld => Some(0xFC),
        Operation::Std => Some(0xFD),
        _ => None,
    }
}

/// A 16-bit value as its two little-endian bytes.
pub open spec fn le_bytes(v: u16) -> Seq<u8> {
    seq![(v % 0x100) as u8, (v / 0x100) as u8]
}

/// The immediate bytes of a value at the given width: one byte or two.
pub open spec fn imm_bytes(v: u16, size: OperandSize) -> Seq<u8> {
    match size {
        OperandSize::Byte => seq![(v % 0x100) as u8],
        OperandSize::Word => le_bytes(v),
    }
}

/// A register-to-register ModR/M byte: mode `11`, `reg` in the middle,
/// `r/m` low.
pub open spec fn modrm_reg_reg(reg_bits: u8, rm_bits: u8) -> u8
    recommends
        reg_bits < 8,
        rm_bits < 8,
{
    (0xC0 + reg_bits * 8 + rm_bits) as u8
}

/// The bytes one instruction encodes to, or the error the encoder reports
/// for its shape.  Prefixes are never emitted: only instructions without a
/// repeat or override field are encodable.
pub open spec fn spec_encode_instruction(i: Instruction) -> Result<Seq<u8>, EncodeError> {
    if i.segment_override is Some || i.repeat is Some {
        Err(EncodeError::InvalidOperandCombination)
    } else {
        match i.operands {
            OperandSet::DestinationAndSource(Operand(dt, ds), Operand(st, ss)) => {
                spec_encode_two(i.operation, dt, ds, st, ss)
            },
            OperandSet::Destination(Operand(dt, ds)) => spec_encode_one(i.operation, dt, ds),
            OperandSet::Offset(v) => spec_encode_offset(i.operation, v),
            OperandSet::SegmentAndOffset(seg, off) => {
                if i.operation == Operation::Jmp {
                    Ok(seq![0xEAu8] + le_bytes(off) + le_bytes(seg))
                } else {
                    Err(EncodeError::InvalidOperandCombination)
                }
            },
            OperandSet::Empty => {
                match no_operand_opcode(i.operation) {
                    Some(op) => Ok(seq![op]),
                    None => Err(EncodeError::InvalidOperandCombination),
                }
            },
        }
    }
}

/// The bytes of a two-operand instruction, or the error reported.
pub open spec fn spec_encode_two(
    operation: Operation,
    dt: OperandType,
    ds: OperandSize,
    st: OperandType,
    ss: OperandSize,
) -> Result<Seq<u8>, EncodeError> {
    match operation {
        Operation::Mov => spec_encode_mov(dt, ds, st, ss),
        Operation::Test => {
            match st {
                OperandType::Immediate(v) => {
                    if dt != OperandType::Register(Register::AlAx) {
                        Err(EncodeError::InvalidOperandCombination)
                    } else if ds != ss {
                        Err(EncodeError::SizeMismatch)
                    } else if !imm_fits(v, ds) {
                        Err(EncodeError::DisplacementOutOfRange)
                    } else {
                        Ok(seq![(0xA8 + w_bit(ds)) as u8] + imm_bytes(v, ds))
                    }
                },
                _ => Err(EncodeError::InvalidOperandCombination),
            }
        },
        Operation::In => {
            if dt != OperandType::Register(Register::AlAx) {
                Err(EncodeError::InvalidOperandCombination)
            } else if st == OperandType::Register(Register::DlDx) && ss == OperandSize::Word {
                Ok(seq![(0xEC + w_bit(ds)) as u8])
            } else {
                match st {
                    OperandType::Immediate(port) => {
                        if ds != ss {
                            Err(EncodeError::SizeMismatch)
                        } else if port > 0xFF {
                            Err(EncodeError::DisplacementOutOfRange)
                        } else {
                            Ok(seq![(0xE4 + w_bit(ds)) as u8, (port % 0x100) as u8])
                        }
                    },
                    _ => Err(EncodeError::InvalidOperandCombination),
                }
            }
        },
        Operation::Out => {
            if st != OperandType::Register(Register::AlAx) {
                Err(EncodeError::InvalidOperandCombination)
            } else if dt == OperandType::Register(Register::DlDx) && ds == OperandSize::Word {
                Ok(seq![(0xEE + w_bit(ss)) as u8])
            } else {
                match dt {
                    OperandType::Immediate(port) => {
                        if ds != ss {
                            Err(EncodeError::SizeMismatch)
                        } else if port > 0xFF {
                            Err(EncodeError::DisplacementOutOfRange)
                        } else {
                            Ok(seq![(0xE6 + w_bit(ss)) as u8, (port % 0x100) as u8])
                        }
                    },
                    _ => Err(EncodeError::InvalidOperandCombination),
                }
            }
        },
        _ => {
            match arith_row(operation) {
                Some(row) => spec_encode_arith(row, dt, ds, st, ss),
                None => Err(EncodeError::InvalidOperandCombination),
            }
        },
    }
}

/// The bytes of a two-operand MOV, or the error reported.
pub open spec fn spec_encode_mov(
    dt: OperandType,
    ds: OperandSize,
    st: OperandType,
    ss: OperandSize,
) -> Result<Seq<u8>, EncodeError> {
    match (dt, st) {
        (OperandType::Register(d), OperandType::Immediate(v)) => {
            if ds != ss {
                Err(EncodeError::SizeMismatch)
            } else if !imm_fits(v, ds) {
                Err(EncodeError::DisplacementOutOfRange)
            } else {
                let base: u8 = if ds is Word {
                    0xB8
                } else {
                    0xB0
                };
                Ok(seq![(base + register_code(d)) as u8] + imm_bytes(v, ds))
            }
        },
        (OperandType::Segment(s), OperandType::Register(r)) => {
            if ds == OperandSize::Word && ss == OperandSize::Word {
                Ok(seq![0x8Eu8, modrm_reg_reg(segment_code(s), register_code(r))])
            } else {
                Err(EncodeError::SizeMismatch)
            }
        },
        (OperandType::Register(r), OperandType::Segment(s)) => {
            if ds == OperandSize::Word && ss == OperandSize::Word {
                Ok(seq![0x8Cu8, modrm_reg_reg(segment_code(s), register_code(r))])
            } else {
                Err(EncodeError::SizeMismatch)
            }
        },
        (OperandType::Register(d), OperandType::Register(s)) => {
            if ds == ss {
                Ok(
                    seq![
                        (0x88 + w_bit(ds)) as u8,
                        modrm_reg_reg(register_code(s), register_code(d)),
                    ],
                )
            } else {
                Err(EncodeError::SizeMismatch)
            }
        },
        _ => Err(EncodeError::InvalidOperandCombination),
    }
}

/// The bytes of a two-operand arithmetic instruction of row `row`, or the
/// error reported.
pub open spec fn spec_encode_arith(
    row: u8,
    dt: OperandType,
    ds: OperandSize,
    st: OperandType,
    ss: OperandSize,
) -> Result<Seq<u8>, EncodeError>
    recommends
        row < 8,
{
    match (dt, st) {
        (OperandType::Register(d), OperandType::Immediate(v)) => {
            if ds != ss {
                Err(EncodeError::SizeMismatch)
            } else if !imm_fits(v, ds) {
                Err(EncodeError::DisplacementOutOfRange)
            } else if d == Register::AlAx {
                Ok(seq![(row * 8 + 4 + w_bit(ds)) as u8] + imm_bytes(v, ds))
            } else {
                if ds is Byte {
                    Ok(seq![0x80u8, modrm_reg_reg(row, register_code(d)), (v % 0x100) as u8])
                } else if sign_extend_u8((v % 0x100) as u8) == v {
                    Ok(seq![0x83u8, modrm_reg_reg(row, register_code(d)), (v % 0x100) as u8])
                } else {
                    Ok(seq![0x81u8, modrm_reg_reg(row, register_code(d))] + le_bytes(v))
                }
            }
        },
        (OperandType::Register(d), OperandType::Register(s)) => {
            if ds == ss {
                Ok(
                    seq![
                        (row * 8 + w_bit(ds)) as u8,
                        modrm_reg_reg(register_code(s), register_code(d)),
                    ],
                )
            } else {
                Err(EncodeError::SizeMismatch)
            }
        },
        _ => Err(EncodeError::InvalidOperandCombination),
    }
}

/// The bytes of a one-operand instruction, or the error reported.
pub open spec fn spec_encode_one(operation: Operation, dt: OperandType, ds: OperandSize) -> Result<Seq<u8>, EncodeError> {
    match dt {
        OperandType::Register(r) => {
            if ds != OperandSize::Word {
                Err(EncodeError::InvalidOperandCombination)
            } else {
                match operation {
                    Operation::Inc => Ok(seq![(0x40 + register_code(r)) as u8]),
                    Operation::Dec => Ok(seq![(0x48 + register_code(r)) as u8]),
                    Operation::Push => Ok(seq![(0x50 + register_code(r)) as u8]),
                    Operation::Pop => Ok(seq![(0x58 + register_code(r)) as u8]),
                    _ => Err(EncodeError::InvalidOperandCombination),
                }
            }
        },
        OperandType::Segment(s) => {
            if ds != OperandSize::Word {
                Err(EncodeError::InvalidOperandCombination)
            } else {
                match operation {
                    Operation::Push => Ok(seq![(segment_code(s) * 8 + 6) as u8]),
                    Operation::Pop => Ok(seq![(segment_code(s) * 8 + 7) as u8]),
                    _ => Err(EncodeError::InvalidOperandCombination),
                }
            }
        },
        OperandType::Immediate(v) => {
            if operation != Operation::Int {
                Err(EncodeError::InvalidOperandCombination)
            } else if ds != OperandSize::Byte {
                Err(EncodeError::SizeMismatch)
            } else if v > 0xFF {
                Err(EncodeError::DisplacementOutOfRange)
            } else {
                Ok(seq![0xCDu8, (v % 0x100) as u8])
            }
        },
        _ => Err(EncodeError::InvalidOperandCombination),
    }
}

/// The bytes of an offset-operand instruction, or the error reported.
pub open spec fn spec_encode_offset(operation: Operation, v: u16) -> Result<Seq<u8>, EncodeError> {
    if operation == Operation::Call {
        Ok(seq![0xE8u8] + le_bytes(v))
    } else if operation == Operation::Jmp {
        Ok(seq![0xE9u8] + le_bytes(v))
    } else {
        match short_jump_opcode(operation) {
            Some(op) => {
                if v <= 0xFF {
                    Ok(seq![op, (v % 0x100) as u8])
                } else {
                    Err(EncodeError::DisplacementOutOfRange)
                }
            },
            None => Err(EncodeError::InvalidOperandCombination),
        }
    }
}

/// Whether the encoder has bytes for this instruction: exactly the shapes
/// the assembler produces.
pub open spec fn encodable(i: Instruction) -> bool {
    spec_encode_instruction(i) is Ok
}

/// Append the immediate bytes of a value at the given width.
pub(crate) fn push_imm(out: &mut Vec<u8>, v: u16, size: OperandSize)
    ensures
        final(out)@ == old(out)@ + imm_bytes(v, size),
{
    match size {
        OperandSize::Byte => {
            out.push((v % 0x100) as u8);
        },
        OperandSize::Word => {
            out.push((v % 0x100) as u8);
            out.push((v / 0x100) as u8);
        },
    }
    assert(out@ =~= old(out)@ + imm_bytes(v, size));
}

/// The register-to-register ModR/M byte.
pub(crate) fn modrm_reg_reg_byte(reg_bits: u8, rm_bits: u8) -> (r: u8)
    requires
        reg_bits < 8,
        rm_bits < 8,
    ensures
        r == modrm_reg_reg(reg_bits, rm_bits),
{
    0xC0 + reg_bits * 8 + rm_bits
}

/// The `w` bit of an operand size.
pub(crate) fn w_bit_of(size: OperandSize) -> (r: u8)
    ensures
        r == w_bit(size),
{
    match size {
        OperandSize::Byte => 0,
        OperandSize::Word => 1,
    }
}

/// The 2-bit wire code of a segment register.
pub(crate) fn segment_code_of(s: Segment) -> (r: u8)
    ensures
        r == segment_code(s),
        r < 4,
{
    match s {
        Segment::Es => 0,
        Segment::Cs => 1,
        Segment::Ss => 2,
        Segment::Ds => 3,
    }
}

/// The 3-bit wire code of a general register.
pub(crate) fn register_code_of(r: Register) -> (c: u8)
    ensures
        c == register_code(r),
        c < 8,
{
    match r {
        Register::AlAx => 0,
        Register::ClCx => 1,
        Register::DlDx => 2,
        Register::BlBx => 3,
        Register::AhSp => 4,
        Register::ChBp => 5,
        Register::DhSi => 6,
        Register::BhDi => 7,
    }
}

/// Encode a two-operand MOV.
fn encode_mov(dt: OperandType, ds: OperandSize, st: OperandType, ss: OperandSize) -> (r: Result<
    Vec<u8>,
    EncodeError,
>)
    ensures
        (r matches Ok(v) ==> spec_encode_mov(dt, ds, st, ss) == Ok::<Seq<u8>, EncodeError>(v@)),
        (r matches Err(e) ==> spec_encode_mov(dt, ds, st, ss) == Err::<Seq<u8>, EncodeError>(e)),
{
    match (dt, st) {
        (OperandType::Register(d), OperandType::Immediate(v)) => {
            if ds != ss {
                Err(EncodeError::SizeMismatch)
            } else if !(matches!(ss, OperandSize::Word) || v <= 0xFF) {
                Err(EncodeError::DisplacementOutOfRange)
            } else {
                let base: u8 = if matches!(ds, OperandSize::Word) {
                    0xB8
                } else {
                    0xB0
                };
                let mut out: Vec<u8> = Vec::new();
                out.push(base + register_code_of(d));
                push_imm(&mut out, v, ds);
                proof {
                    assert(out@ =~= seq![(base + register_code(d)) as u8] + imm_bytes(v, ds));
                }
                Ok(out)
            }
        },
        (OperandType::Segment(s), OperandType::Register(reg)) => {
            if matches!(ds, OperandSize::Word) && matches!(ss, OperandSize::Word) {
                let mut out: Vec<u8> = Vec::new();
                out.push(0x8E);
                out.push(modrm_reg_reg_byte(segment_code_of(s), register_code_of(reg)));
                proof {
                    assert(out@ =~= seq![0x8Eu8, modrm_reg_reg(segment_code(s), register_code(reg))]);
                }
                Ok(out)
            } else {
                Err(EncodeError::SizeMismatch)
            }
        },
        (OperandType::Register(reg), OperandType::Segment(s)) => {
            if matches!(ds, OperandSize::Word) && matches!(ss, OperandSize::Word) {
                let mut out: Vec<u8> = Vec::new();
                out.push(0x8C);
                out.push(modrm_reg_reg_byte(segment_code_of(s), register_code_of(reg)));
                proof {
                    assert(out@ =~= seq![0x8Cu8, modrm_reg_reg(segment_code(s), register_code(reg))]);
                }
                Ok(out)
            } else {
                Err(EncodeError::SizeMismatch)
            }
        },
        (OperandType::Register(d), OperandType::Register(s)) => {
            if ds == ss {
                let mut out: Vec<u8> = Vec::new();
                out.push(0x88 + w_bit_of(ds));
                out.push(modrm_reg_reg_byte(register_code_of(s), register_code_of(d)));
                proof {
                    assert(out@ =~= seq![
                        (0x88 + w_bit(ds)) as u8,
                        modrm_reg_reg(register_code(s), register_code(d)),
                    ]);
                }
                Ok(out)
            } else {
                Err(EncodeError::SizeMismatch)
            }
        },
        _ => Err(EncodeError::InvalidOperandCombination),
    }
}

/// Encode a two-operand arithmetic instruction of row `row`.
fn encode_arith(row: u8, dt: OperandType, ds: OperandSize, st: OperandType, ss: OperandSize) -> (r:
    Result<Vec<u8>, EncodeError>)
    requires
        row < 8,
    ensures
        (r matches Ok(v) ==> spec_encode_arith(row, dt, ds, st, ss) == Ok::<Seq<u8>, EncodeError>(
            v@,
        )),
        (r matches Err(e) ==> spec_encode_arith(row, dt, ds, st, ss) == Err::<Seq<u8>, EncodeError>(
            e,
        )),
{
    match (dt, st) {
        (OperandType::Register(d), OperandType::Immediate(v)) => {
            if ds != ss {
                Err(EncodeError::SizeMismatch)
            } else if !(matches!(ds, OperandSize::Word) || v <= 0xFF) {
                Err(EncodeError::DisplacementOutOfRange)
            } else if matches!(d, Register::AlAx) {
                let mut out: Vec<u8> = Vec::new();
                out.push(row * 8 + 4 + w_bit_of(ds));
                push_imm(&mut out, v, ds);
                proof {
                    assert(out@ =~= seq![(row * 8 + 4 + w_bit(ds)) as u8] + imm_bytes(v, ds));
                }
                Ok(out)
            } else {
                if matches!(ds, OperandSize::Byte) {
                    let mut out: Vec<u8> = Vec::new();
                    out.push(0x80);
                    out.push(modrm_reg_reg_byte(row, register_code_of(d)));
                    out.push((v % 0x100) as u8);
                    proof {
                        assert(out@ =~= seq![
                            0x80u8,
                            modrm_reg_reg(row, register_code(d)),
                            (v % 0x100) as u8,
                        ]);
                    }
                    Ok(out)
                } else {
                    let low = (v % 0x100) as u8;
                    let extended: u16 = if low < 0x80 {
                        low as u16
                    } else {
                        low as u16 + 0xFF00
                    };
                    if extended == v {
                        let mut out: Vec<u8> = Vec::new();
                        out.push(0x83);
                        out.push(modrm_reg_reg_byte(row, register_code_of(d)));
                        out.push(low);
                        proof {
                            assert(out@ =~= seq![
                                0x83u8,
                                modrm_reg_reg(row, register_code(d)),
                                (v % 0x100) as u8,
                            ]);
                        }
                        Ok(out)
                    } else {
                        let mut out: Vec<u8> = Vec::new();
                        out.push(0x81);
                        out.push(modrm_reg_reg_byte(row, register_code_of(d)));
                        out.push((v % 0x100) as u8);
                        out.push((v / 0x100) as u8);
                        proof {
                            assert(out@ =~= seq![0x81u8, modrm_reg_reg(row, register_code(d))]
                                + le_bytes(v));
                        }
                        Ok(out)
                    }
                }
            }
        },
        (OperandType::Register(d), OperandType::Register(s)) => {
            if ds == ss {
                let mut out: Vec<u8> = Vec::new();
                out.push(row * 8 + w_bit_of(ds));
                out.push(modrm_reg_reg_byte(register_code_of(s), register_code_of(d)));
                proof {
                    assert(out@ =~= seq![
                        (row * 8 + w_bit(ds)) as u8,
                        modrm_reg_reg(register_code(s), register_code(d)),
                    ]);
                }
                Ok(out)
            } else {
                Err(EncodeError::SizeMismatch)
            }
        },
        _ => Err(EncodeError::InvalidOperandCombination),
    }
}

/// Encode a two-operand instruction.
fn encode_two(
    operation: Operation,
    dt: OperandType,
    ds: OperandSize,
    st: OperandType,
    ss: OperandSize,
) -> (r: Result<Vec<u8>, EncodeError>)
    ensures
        (r matches Ok(v) ==> spec_encode_two(operation, dt, ds, st, ss) == Ok::<
            Seq<u8>,
            EncodeError,
        >(v@)),
        (r matches Err(e) ==> spec_encode_two(operation, dt, ds, st, ss) == Err::<
            Seq<u8>,
            EncodeError,
        >(e)),
{
    match operation {
        Operation::Mov => encode_mov(dt, ds, st, ss),
        Operation::Test => {
            match st {
                OperandType::Immediate(v) => {
                    if !matches!(dt, OperandType::Register(Register::AlAx)) {
                        proof {
                            assert(dt != OperandType::Register(Register::AlAx));
                        }
                        Err(EncodeError::InvalidOperandCombination)
                    } else if ds != ss {
                        Err(EncodeError::SizeMismatch)
                    } else if !(matches!(ds, OperandSize::Word) || v <= 0xFF) {
                        Err(EncodeError::DisplacementOutOfRange)
                    } else {
                        let mut out: Vec<u8> = Vec::new();
                        out.push(0xA8 + w_bit_of(ds));
                        push_imm(&mut out, v, ds);
                        proof {
                            assert(out@ =~= seq![(0xA8 + w_bit(ds)) as u8] + imm_bytes(v, ds));
                        }
                        Ok(out)
                    }
                },
                _ => Err(EncodeError::InvalidOperandCombination),
            }
        },
        Operation::In => {
            if !matches!(dt, OperandType::Register(Register::AlAx)) {
                proof {
                    assert(dt != OperandType::Register(Register::AlAx));
                }
                Err(EncodeError::InvalidOperandCombination)
            } else if matches!(st, OperandType::Register(Register::DlDx)) && matches!(
                ss,
                OperandSize::Word,
            ) {
                let mut out: Vec<u8> = Vec::new();
                out.push(0xEC + w_bit_of(ds));
                proof {
                    assert(out@ =~= seq![(0xEC + w_bit(ds)) as u8]);
                }
                Ok(out)
            } else {
                match st {
                    OperandType::Immediate(port) => {
                        if ds != ss {
                            Err(EncodeError::SizeMismatch)
                        } else if port > 0xFF {
                            Err(EncodeError::DisplacementOutOfRange)
                        } else {
                            let mut out: Vec<u8> = Vec::new();
                            out.push(0xE4 + w_bit_of(ds));
                            out.push((port % 0x100) as u8);
                            proof {
                                assert(out@ =~= seq![(0xE4 + w_bit(ds)) as u8, (port % 0x100) as u8]);
                            }
                            Ok(out)
                        }
                    },
                    _ => Err(EncodeError::InvalidOperandCombination),
                }
            }
        },
        Operation::Out => {
            if !matches!(st, OperandType::Register(Register::AlAx)) {
                proof {
                    assert(st != OperandType::Register(Register::AlAx));
                }
                Err(EncodeError::InvalidOperandCombination)
            } else if matches!(dt, OperandType::Register(Register::DlDx)) && matches!(
                ds,
                OperandSize::Word,
            ) {
                let mut out: Vec<u8> = Vec::new();
                out.push(0xEE + w_bit_of(ss));
                proof {
                    assert(out@ =~= seq![(0xEE + w_bit(ss)) as u8]);
                }
                Ok(out)
            } else {
                match dt {
                    OperandType::Immediate(port) => {
                        if ds != ss {
                            Err(EncodeError::SizeMismatch)
                        } else if port > 0xFF {
                            Err(EncodeError::DisplacementOutOfRange)
                        } else {
                            let mut out: Vec<u8> = Vec::new();
                            out.push(0xE6 + w_bit_of(ss));
                            out.push((port % 0x100) as u8);
                            proof {
                                assert(out@ =~= seq![(0xE6 + w_bit(ss)) as u8, (port % 0x100) as u8]);
                            }
                            Ok(out)
                        }
                    },
                    _ => Err(EncodeError::InvalidOperandCombination),
                }
            }
        },
        _ => {
            let row: u8 = match operation {
                Operation::Add => 0,
                Operation::Or => 1,
                Operation::Adc => 2,
                Operation::Sbb => 3,
                Operation::And => 4,
                Operation::Sub => 5,
                Operation::Xor => 6,
                Operation::Cmp => 7,
                _ => {
                    return Err(EncodeError::InvalidOperandCombination);
                },
            };
            encode_arith(row, dt, ds, st, ss)
        },
    }
}

/// Encode a one-operand instruction.
fn encode_one(operation: Operation, dt: OperandType, ds: OperandSize) -> (r: Result<
    Vec<u8>,
    EncodeError,
>)
    ensures
        (r matches Ok(v) ==> spec_encode_one(operation, dt, ds) == Ok::<Seq<u8>, EncodeError>(v@)),
        (r matches Err(e) ==> spec_encode_one(operation, dt, ds) == Err::<Seq<u8>, EncodeError>(e)),
{
    match dt {
        OperandType::Register(reg) => {
            if !matches!(ds, OperandSize::Word) {
                Err(EncodeError::InvalidOperandCombination)
            } else {
                let base: u8 = match operation {
                    Operation::Inc => 0x40,
                    Operation::Dec => 0x48,
                    Operation::Push => 0x50,
                    Operation::Pop => 0x58,
                    _ => {
                        return Err(EncodeError::InvalidOperandCombination);
                    },
                };
                let mut out: Vec<u8> = Vec::new();
                out.push(base + register_code_of(reg));
                proof {
                    assert(out@ =~= seq![(base + register_code(reg)) as u8]);
                }
                Ok(out)
            }
        },
        OperandType::Segment(s) => {
            if !matches!(ds, OperandSize::Word) {
                Err(EncodeError::InvalidOperandCombination)
            } else {
                let offset: u8 = match operation {
                    Operation::Push => 6,
                    Operation::Pop => 7,
                    _ => {
                        return Err(EncodeError::InvalidOperandCombination);
                    },
                };
                let mut out: Vec<u8> = Vec::new();
                out.push(segment_code_of(s) * 8 + offset);
                proof {
                    assert(out@ =~= seq![(segment_code(s) * 8 + offset) as u8]);
                }
                Ok(out)
            }
        },
        OperandType::Immediate(v) => {
            if !matches!(operation, Operation::Int) {
                Err(EncodeError::InvalidOperandCombination)
            } else if !matches!(ds, OperandSize::Byte) {
                Err(EncodeError::SizeMismatch)
            } else if v > 0xFF {
                Err(EncodeError::DisplacementOutOfRange)
            } else {
                let mut out: Vec<u8> = Vec::new();
                out.push(0xCD);
                out.push((v % 0x100) as u8);
                proof {
                    assert(out@ =~= seq![0xCDu8, (v % 0x100) as u8]);
                }
                Ok(out)
            }
        },
        _ => Err(EncodeError::InvalidOperandCombination),
    }
}

/// Encode an offset-operand instruction.
fn encode_offset(operation: Operation, v: u16) -> (r: Result<Vec<u8>, EncodeError>)
    ensures
        (r matches Ok(b) ==> spec_encode_offset(operation, v) == Ok::<Seq<u8>, EncodeError>(b@)),
        (r matches Err(e) ==> spec_encode_offset(operation, v) == Err::<Seq<u8>, EncodeError>(e)),
{
    if matches!(operation, Operation::Call) {
        let mut out: Vec<u8> = Vec::new();
        out.push(0xE8);
        out.push((v % 0x100) as u8);
        out.push((v / 0x100) as u8);
        proof {
            assert(out@ =~= seq![0xE8u8] + le_bytes(v));
        }
        Ok(out)
    } else if matches!(operation, Operation::Jmp) {
        let mut out: Vec<u8> = Vec::new();
        out.push(0xE9);
        out.push((v % 0x100) as u8);
        out.push((v / 0x100) as u8);
        proof {
            assert(out@ =~= seq![0xE9u8] + le_bytes(v));
        }
        Ok(out)
    } else {
        let op: u8 = match operation {
            Operation::Jo => 0x70,
            Operation::Jno => 0x71,
            Operation::Jb => 0x72,
            Operation::Jnb => 0x73,
            Operation::Je => 0x74,
            Operation::Jne => 0x75,
            Operation::Jbe => 0x76,
            Operation::Jnbe => 0x77,
            Operation::Js => 0x78,
            Operation::Jns => 0x79,
            Operation::Jp => 0x7A,
            Operation::Jnp => 0x7B,
            Operation::Jl => 0x7C,
            Operation::Jnl => 0x7D,
            Operation::Jle => 0x7E,
            Operation::Jnle => 0x7F,
            Operation::Loopnz => 0xE0,
            Operation::Loopz => 0xE1,
            Operation::Loop => 0xE2,
            Operation::Jcxz => 0xE3,
            _ => {
                return Err(EncodeError::InvalidOperandCombination);
            },
        };
        if v > 0xFF {
            Err(EncodeError::DisplacementOutOfRange)
        } else {
            let mut out: Vec<u8> = Vec::new();
            out.push(op);
            out.push((v % 0x100) as u8);
            proof {
                assert(out@ =~= seq![op, (v % 0x100) as u8]);
            }
            Ok(out)
        }
    }
}

/// Encode one instruction into its bytes, or report why its shape has no
/// encoding here.  The result is pinned to the spec encoder, error cases
/// included.
pub fn encode_instruction(instruction: &Instruction) -> (r: Result<Vec<u8>, EncodeError>)
    ensures
        (r matches Ok(v) ==> spec_encode_instruction(*instruction) == Ok::<Seq<u8>, EncodeError>(
            v@,
        )),
        (r matches Err(e) ==> spec_encode_instruction(*instruction) == Err::<Seq<u8>, EncodeError>(
            e,
        )),
{
    if instruction.segment_override.is_some() || instruction.repeat.is_some() {
        return Err(EncodeError::InvalidOperandCombination);
    }
    match instruction.operands {
        OperandSet::DestinationAndSource(Operand(dt, ds), Operand(st, ss)) => {
            encode_two(instruction.operation, dt, ds, st, ss)
        },
        OperandSet::Destination(Operand(dt, ds)) => encode_one(instruction.operation, dt, ds),
        OperandSet::Offset(v) => encode_offset(instruction.operation, v),
        OperandSet::SegmentAndOffset(seg, off) => {
            if matches!(instruction.operation, Operation::Jmp) {
                let mut out: Vec<u8> = Vec::new();
                out.push(0xEA);
                out.push((off % 0x100) as u8);
                out.push((off / 0x100) as u8);
                out.push((seg % 0x100) as u8);
                out.push((seg / 0x100) as u8);
                proof {
                    assert(out@ =~= seq![0xEAu8] + le_bytes(off) + le_bytes(seg));
                }
                Ok(out)
            } else {
                Err(EncodeError::InvalidOperandCombination)
            }
        },
        OperandSet::Empty => {
            let op: u8 = match instruction.operation {
                Operation::Ret => 0xC3,
                Operation::Into => 0xCE,
                Operation::IRet => 0xCF,
                Operation::Wait => 0x9B,
                Operation::Pushf => 0x9C,
                Operation::Popf => 0x9D,
                Operation::Sahf => 0x9E,
                Operation::Lahf => 0x9F,
                Operation::Movsb => 0xA4,
                Operation::Movsw => 0xA5,
                Operation::Cmpsb => 0xA6,
                Operation::Cmpsw => 0xA7,
                Operation::Stosb => 0xAA,
                Operation::Stosw => 0xAB,
                Operation::Lodsb => 0xAC,
                Operation::Lodsw => 0xAD,
                Operation::Scasb => 0xAE,
                Operation::Scasw => 0xAF,
                Operation::Cbw => 0x98,
                Operation::Cwd => 0x99,
                Operation::Xlat => 0xD7,
                Operation::Baa => 0x27,
                Operation::Das => 0x2F,
                Operation::Aaa => 0x37,
                Operation::Aas => 0x3F,
                Operation::Esc => 0xD8,
                Operation::Lock => 0xF0,
                Operation::Hlt => 0xF4,
                Operation::Cmc => 0xF5,
                Operation::Clc => 0xF8,
                Operation::Stc => 0xF9,
                Operation::Cli => 0xFA,
                Operation::Sti => 0xFB,
                Operation::Cld => 0xFC,
                Operation::Std => 0xFD,
                _ => {
                    return Err(EncodeError::InvalidOperandCombination);
                },
            };
            let mut out: Vec<u8> = Vec::new();
            out.push(op);
            proof {
                assert(out@ =~= seq![op]);
            }
            Ok(out)
        },
    }
}

/// A register's wire code names the register back.
proof fn lemma_register_bits(r: Register)
    ensures
        register_code(r) < 8,
        crate::modrm::register_from_bits(register_code(r)) == r,
{
    match r {
        Register::AlAx => {},
        Register::ClCx => {},
        Register::DlDx => {},
        Register::BlBx => {},
        Register::AhSp => {},
        Register::ChBp => {},
        Register::DhSi => {},
        Register::BhDi => {},
    }
}

/// A segment's wire code names the segment back.
proof fn lemma_segment_bits(s: Segment)
    ensures
        segment_code(s) < 4,
        crate::modrm::segment_from_bits(segment_code(s)) == s,
{
    match s {
        Segment::Es => {},
        Segment::Cs => {},
        Segment::Ss => {},
        Segment::Ds => {},
    }
}

/// The fields of a register-to-register ModR/M byte read back as written.
proof fn lemma_modrm_reg_reg_fields(a: u8, b: u8)
    requires
        a < 8,
        b < 8,
    ensures
        modrm_reg_reg(a, b) / 64 == 3,
        (modrm_reg_reg(a, b) / 8) % 8 == a,
        modrm_reg_reg(a, b) % 8 == b,
{
    assert((0xC0 + a * 8 + b) as u8 / 64 == 3 && ((0xC0 + a * 8 + b) as u8 / 8) % 8 == a && (0xC0
        + a * 8 + b) as u8 % 8 == b) by (bit_vector)
        requires
            a < 8,
            b < 8,
    ;
}

/// A word reassembles from its little-endian bytes.
proof fn lemma_le_bytes(v: u16)
    ensures
        crate::stream::word_le((v % 0x100) as u8, (v / 0x100) as u8) == v,
{
}

/// The arithmetic row of an operation names the operation back.
proof fn lemma_arith_row(operation: Operation, row: u8)
    requires
        arith_row(operation) == Some(row),
    ensures
        row < 8,
        crate::decode::arith_row_operation(row) == operation,
        crate::decode::group_operation(crate::modrm::register_from_bits(row)) == operation,
{
}

/// The short-jump opcode of an operation decodes to the operation back.
proof fn lemma_short_jump(operation: Operation, op: u8)
    requires
        short_jump_opcode(operation) == Some(op),
    ensures
        0x70 <= op <= 0x7F || 0xE0 <= op <= 0xE3,
        0x70 <= op <= 0x7F ==> crate::decode::jcc_operation(op % 16) == operation,
        0xE0 <= op <= 0xE3 ==> crate::decode::loop_operation(op) == operation,
{
}

/// Law: decoding an encoded instruction gives the instruction back, and
/// consumes exactly the encoded bytes.  This holds for every instruction the
/// encoder accepts, which are exactly the shapes the assembler produces.
#[verifier::rlimit(100)]
#[verifier::spinoff_prover]
pub proof fn lemma_encode_decode_roundtrip(i: Instruction)
    requires
        encodable(i),
    ensures
        ({
            let bytes = spec_encode_instruction(i)->Ok_0;
            crate::decode::spec_decode(bytes, 0) == (Ok::<Instruction, Error>(i), bytes.len() as int)
        }),
{
    let bytes = spec_encode_instruction(i)->Ok_0;
    assert(i.segment_override is None && i.repeat is None);
    assert(i == crate::decode::plain_instruction(i.operation, i.operands));
    match i.operands {
        OperandSet::DestinationAndSource(Operand(dt, ds), Operand(st, ss)) => {
            lemma_rt_two(i.operation, dt, ds, st, ss);
        },
        OperandSet::Destination(Operand(dt, ds)) => {
            lemma_rt_one(i.operation, dt, ds);
        },
        OperandSet::Offset(v) => {
            lemma_rt_offset(i.operation, v);
        },
        OperandSet::SegmentAndOffset(seg, off) => {
            lemma_le_bytes(off);
            lemma_le_bytes(seg);
            assert(bytes[0] == 0xEA && bytes[1] == (off % 0x100) as u8 && bytes[2] == (off
                / 0x100) as u8 && bytes[3] == (seg % 0x100) as u8 && bytes[4] == (seg
                / 0x100) as u8);
        },
        OperandSet::Empty => {
            lemma_rt_empty(i.operation);
        },
    }
}

/// Round trip of the no-operand encodings.
#[verifier::rlimit(100)]
#[verifier::spinoff_prover]
proof fn lemma_rt_empty(operation: Operation)
    requires
        no_operand_opcode(operation) is Some,
    ensures
        ({
            let bytes = seq![no_operand_opcode(operation)->0];
            crate::decode::spec_decode(bytes, 0) == (
                Ok::<Instruction, Error>(
                    crate::decode::plain_instruction(operation, OperandSet::Empty),
                ),
                1int,
            )
        }),
{
}

/// Field extraction from an opcode built as `row * 8 + col`.
proof fn lemma_opcode_fields(row: u8, col: u8)
    requires
        row < 32,
        col < 8,
    ensures
        (row * 8 + col) as u8 / 8 == row,
        (row * 8 + col) as u8 % 8 == col,
        (row * 8 + col) as u8 % 2 == col % 2,
        ((row * 8 + col) as u8 / 2) % 2 == (col / 2) % 2,
        ((row * 8 + col) as u8 / 8) % 2 == row % 2,
{
    assert((row * 8 + col) as u8 / 8 == row && (row * 8 + col) as u8 % 8 == col && (row * 8
        + col) as u8 % 2 == col % 2 && ((row * 8 + col) as u8 / 2) % 2 == (col / 2) % 2 && ((row
        * 8 + col) as u8 / 8) % 2 == row % 2) by (bit_vector)
        requires
            row < 32,
            col < 8,
    ;
}

/// Round trip of the two-operand MOV encodings.
#[verifier::rlimit(100)]
#[verifier::spinoff_prover]
proof fn lemma_rt_mov(dt: OperandType, ds: OperandSize, st: OperandType, ss: OperandSize)
    requires
        spec_encode_mov(dt, ds, st, ss) is Ok,
    ensures
        ({
            let bytes = spec_encode_mov(dt, ds, st, ss)->Ok_0;
            crate::decode::spec_decode(bytes, 0) == (
                Ok::<Instruction, Error>(
                    crate::decode::plain_instruction(
                        Operation::Mov,
                        OperandSet::DestinationAndSource(Operand(dt, ds), Operand(st, ss)),
                    ),
                ),
                bytes.len() as int,
            )
        }),
{
    let bytes = spec_encode_mov(dt, ds, st, ss)->Ok_0;
    match (dt, st) {
        (OperandType::Register(d), OperandType::Immediate(v)) => {
            lemma_register_bits(d);
            let base: u8 = if ds is Word {
                0xB8
            } else {
                0xB0
            };
            let row: u8 = if ds is Word {
                23
            } else {
                22
            };
            assert(base + register_code(d) == row * 8 + register_code(d));
            lemma_opcode_fields(row, register_code(d));
            match ds {
                OperandSize::Byte => {
                    assert(bytes =~= seq![(base + register_code(d)) as u8, (v % 0x100) as u8]);
                },
                OperandSize::Word => {
                    lemma_le_bytes(v);
                    assert(bytes =~= seq![
                        (base + register_code(d)) as u8,
                        (v % 0x100) as u8,
                        (v / 0x100) as u8,
                    ]);
                },
            }
        },
        (OperandType::Segment(s), OperandType::Register(reg)) => {
            lemma_segment_bits(s);
            lemma_register_bits(reg);
            lemma_modrm_reg_reg_fields(segment_code(s), register_code(reg));
        },
        (OperandType::Register(reg), OperandType::Segment(s)) => {
            lemma_segment_bits(s);
            lemma_register_bits(reg);
            lemma_modrm_reg_reg_fields(segment_code(s), register_code(reg));
        },
        (OperandType::Register(d), OperandType::Register(s)) => {
            lemma_register_bits(d);
            lemma_register_bits(s);
            lemma_modrm_reg_reg_fields(register_code(s), register_code(d));
            lemma_opcode_fields(17, w_bit(ds));
            assert(0x88 + w_bit(ds) == 17 * 8 + w_bit(ds));
        },
        _ => {},
    }
}

/// Round trip of the two-operand arithmetic encodings.
#[verifier::rlimit(100)]
#[verifier::spinoff_prover]
proof fn lemma_rt_arith(
    operation: Operation,
    row: u8,
    dt: OperandType,
    ds: OperandSize,
    st: OperandType,
    ss: OperandSize,
)
    requires
        arith_row(operation) == Some(row),
        spec_encode_arith(row, dt, ds, st, ss) is Ok,
    ensures
        ({
            let bytes = spec_encode_arith(row, dt, ds, st, ss)->Ok_0;
            crate::decode::spec_decode(bytes, 0) == (
                Ok::<Instruction, Error>(
                    crate::decode::plain_instruction(
                        operation,
                        OperandSet::DestinationAndSource(Operand(dt, ds), Operand(st, ss)),
                    ),
                ),
                bytes.len() as int,
            )
        }),
{
    let bytes = spec_encode_arith(row, dt, ds, st, ss)->Ok_0;
    lemma_arith_row(operation, row);
    match (dt, st) {
        (OperandType::Register(d), OperandType::Immediate(v)) => {
            lemma_register_bits(d);
            if d == Register::AlAx {
                lemma_opcode_fields(row, (4 + w_bit(ds)) as u8);
                match ds {
                    OperandSize::Byte => {
                        assert(bytes =~= seq![(row * 8 + 4) as u8, (v % 0x100) as u8]);
                    },
                    OperandSize::Word => {
                        lemma_le_bytes(v);
                        assert(bytes =~= seq![
                            (row * 8 + 5) as u8,
                            (v % 0x100) as u8,
                            (v / 0x100) as u8,
                        ]);
                    },
                }
            } else {
                lemma_modrm_reg_reg_fields(row, register_code(d));
                if ds is Byte {
                    assert(bytes =~= seq![
                        0x80u8,
                        modrm_reg_reg(row, register_code(d)),
                        (v % 0x100) as u8,
                    ]);
                } else if sign_extend_u8((v % 0x100) as u8) == v {
                    assert(bytes =~= seq![
                        0x83u8,
                        modrm_reg_reg(row, register_code(d)),
                        (v % 0x100) as u8,
                    ]);
                } else {
                    lemma_le_bytes(v);
                    assert(bytes =~= seq![0x81u8, modrm_reg_reg(row, register_code(d))]
                        + le_bytes(v));
                }
            }
        },
        (OperandType::Register(d), OperandType::Register(s)) => {
            lemma_register_bits(d);
            lemma_register_bits(s);
            lemma_modrm_reg_reg_fields(register_code(s), register_code(d));
            lemma_opcode_fields(row, w_bit(ds));
        },
        _ => {},
    }
}

/// Round trip of the two-operand encodings.
#[verifier::rlimit(100)]
#[verifier::spinoff_prover]
proof fn lemma_rt_two(
    operation: Operation,
    dt: OperandType,
    ds: OperandSize,
    st: OperandType,
    ss: OperandSize,
)
    requires
        spec_encode_two(operation, dt, ds, st, ss) is Ok,
    ensures
        ({
            let bytes = spec_encode_two(operation, dt, ds, st, ss)->Ok_0;
            crate::decode::spec_decode(bytes, 0) == (
                Ok::<Instruction, Error>(
                    crate::decode::plain_instruction(
                        operation,
                        OperandSet::DestinationAndSource(Operand(dt, ds), Operand(st, ss)),
                    ),
                ),
                bytes.len() as int,
            )
        }),
{
    let bytes = spec_encode_two(operation, dt, ds, st, ss)->Ok_0;
    match operation {
        Operation::Mov => {
            lemma_rt_mov(dt, ds, st, ss);
        },
        Operation::Test => {
            match st {
                OperandType::Immediate(v) => {
                    match ds {
                        OperandSize::Byte => {
                            assert(bytes =~= seq![0xA8u8, (v % 0x100) as u8]);
                        },
                        OperandSize::Word => {
                            lemma_le_bytes(v);
                            assert(bytes =~= seq![0xA9u8, (v % 0x100) as u8, (v / 0x100) as u8]);
                        },
                    }
                },
                _ => {},
            }
        },
        Operation::In => {
            if st == OperandType::Register(Register::DlDx) && ss == OperandSize::Word {
                assert(bytes =~= seq![(0xEC + w_bit(ds)) as u8]);
            } else {
                match st {
                    OperandType::Immediate(port) => {
                        assert(bytes =~= seq![(0xE4 + w_bit(ds)) as u8, (port % 0x100) as u8]);
                    },
                    _ => {},
                }
            }
        },
        Operation::Out => {
            if dt == OperandType::Register(Register::DlDx) && ds == OperandSize::Word {
                assert(bytes =~= seq![(0xEE + w_bit(ss)) as u8]);
            } else {
                match dt {
                    OperandType::Immediate(port) => {
                        assert(bytes =~= seq![(0xE6 + w_bit(ss)) as u8, (port % 0x100) as u8]);
                    },
                    _ => {},
                }
            }
        },
        _ => {
            let row = arith_row(operation)->0;
            lemma_rt_arith(operation, row, dt, ds, st, ss);
        },
    }
}

/// Round trip of the one-operand encodings.
#[verifier::rlimit(100)]
#[verifier::spinoff_prover]
proof fn lemma_rt_one(operation: Operation, dt: OperandType, ds: OperandSize)
    requires
        spec_encode_one(operation, dt, ds) is Ok,
    ensures
        ({
            let bytes = spec_encode_one(operation, dt, ds)->Ok_0;
            crate::decode::spec_decode(bytes, 0) == (
                Ok::<Instruction, Error>(
                    crate::decode::plain_instruction(
                        operation,
                        OperandSet::Destination(Operand(dt, ds)),
                    ),
                ),
                bytes.len() as int,
            )
        }),
{
    let bytes = spec_encode_one(operation, dt, ds)->Ok_0;
    match dt {
        OperandType::Register(r) => {
            lemma_register_bits(r);
            let row: u8 = match operation {
                Operation::Inc => 8,
                Operation::Dec => 9,
                Operation::Push => 10,
                Operation::Pop => 11,
                _ => 0,
            };
            lemma_opcode_fields(row, register_code(r));
            assert(bytes =~= seq![(row * 8 + register_code(r)) as u8]);
        },
        OperandType::Segment(s) => {
            lemma_segment_bits(s);
            match operation {
                Operation::Push => {
                    lemma_opcode_fields(segment_code(s), 6);
                },
                Operation::Pop => {
                    lemma_opcode_fields(segment_code(s), 7);
                },
                _ => {},
            }
        },
        OperandType::Immediate(v) => {
            assert(bytes =~= seq![0xCDu8, (v % 0x100) as u8]);
        },
        _ => {},
    }
}

/// Round trip of the offset-operand encodings.
#[verifier::rlimit(100)]
#[verifier::spinoff_prover]
proof fn lemma_rt_offset(operation: Operation, v: u16)
    requires
        spec_encode_offset(operation, v) is Ok,
    ensures
        ({
            let bytes = spec_encode_offset(operation, v)->Ok_0;
            crate::decode::spec_decode(bytes, 0) == (
                Ok::<Instruction, Error>(
                    crate::decode::plain_instruction(operation, OperandSet::Offset(v)),
                ),
                bytes.len() as int,
            )
        }),
{
    let bytes = spec_encode_offset(operation, v)->Ok_0;
    if operation == Operation::Call {
        lemma_le_bytes(v);
        assert(bytes =~= seq![0xE8u8, (v % 0x100) as u8, (v / 0x100) as u8]);
    } else if operation == Operation::Jmp {
        lemma_le_bytes(v);
        assert(bytes =~= seq![0xE9u8, (v % 0x100) as u8, (v / 0x100) as u8]);
    } else {
        let op = short_jump_opcode(operation)->0;
        lemma_short_jump(operation, op);
        assert(bytes =~= seq![op, (v % 0x100) as u8]);
    }
}

} // verus!
