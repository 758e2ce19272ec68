//! The byte-stream decoder: one `Instruction` from the front of a stream,
//! dispatched on the first opcode byte, with recursive handling of REP and
//! segment-override prefixes.  The whole decoder is mirrored by spec
//! functions over the stream contents, and the contract of
//! `decode_instruction` ties the executable decoder to that mirror exactly.

use vstd::prelude::*;

use crate::modrm::{
    operand_type_of_register_or_memory, register_from_bits, segment_from_bits, sign_extend_u8,
    spec_modrm_from_byte, Modrm,
};
use crate::stream::{spec_read_u8, spec_read_u16, DataIterator, it_read_u8, it_read_u16};
use crate::x86::{
    Instruction, Operand, OperandSet, OperandSize, OperandType, Operation, Register, Repeat,
    Segment,
};

verus! {

/// Everything that can go wrong while decoding.
#[derive(Clone, Copy, Debug, PartialEq, Eq, Structural)]
pub enum Error {
    /// The first byte is not an opcode this decoder knows.
    InvalidOpCode(u8),
    /// A 3-bit register field held a value above 7.
    InvalidRegisterEncoding(u8),
    /// A 3-bit register-or-memory field held a value above 7.
    InvalidIndirectMemoryEncoding(u8),
    /// A 2-bit segment field held a value above 3.
    InvalidSegmentEncoding(u8),
    /// A width bit held a value above 1.
    InvalidOperandSize(u8),
    /// A ModR/M byte could not be understood.
    InvalidModRmEncoding(u8),
    /// The stream ran out in the middle of an instruction.
    UnexpectedEof,
}

/// How many prefix bytes one instruction may carry.
pub const PREFIX_LIMIT: u8 = 4;

/// An instruction with no prefix fields set.
pub open spec fn plain_instruction(operation: Operation, operands: OperandSet) -> Instruction {
    Instruction { operation, segment_override: None, repeat: None, operands }
}

/// The arithmetic operation of row `row` of the opcode table: each row of
/// eight opcodes below `0x40` belongs to one operation.
pub open spec fn arith_row_operation(row: u8) -> Operation
    recommends
        row < 8,
{
    if row == 0 {
        Operation::Add
    } else if row == 1 {
        Operation::Or
    } else if row == 2 {
        Operation::Adc
    } else if row == 3 {
        Operation::Sbb
    } else if row == 4 {
        Operation::And
    } else if row == 5 {
        Operation::Sub
    } else if row == 6 {
        Operation::Xor
    } else {
        Operation::Cmp
    }
}

/// The conditional jump selected by the low four bits of opcodes
/// `0x70..0x7F`.
pub open spec fn jcc_operation(low: u8) -> Operation
    recommends
        low < 16,
{
    if low == 0 {
        Operation::Jo
    } else if low == 1 {
        Operation::Jno
    } else if low == 2 {
        Operation::Jb
    } else if low == 3 {
        Operation::Jnb
    } else if low == 4 {
        Operation::Je
    } else if low == 5 {
        Operation::Jne
    } else if low == 6 {
        Operation::Jbe
    } else if low == 7 {
        Operation::Jnbe
    } else if low == 8 {
        Operation::Js
    } else if low == 9 {
        Operation::Jns
    } else if low == 10 {
        Operation::Jp
    } else if low == 11 {
        Operation::Jnp
    } else if low == 12 {
        Operation::Jl
    } else if low == 13 {
        Operation::Jnl
    } else if low == 14 {
        Operation::Jle
    } else {
        Operation::Jnle
    }
}

/// The string operation selected by opcodes `0xA4..0xA7` and `0xAA..0xAF`.
pub open spec fn string_operation(op_code: u8) -> Operation
    recommends
        0xA4 <= op_code <= 0xA7 || 0xAA <= op_code <= 0xAF,
{
    if op_code == 0xA4 {
        Operation::Movsb
    } else if op_code == 0xA5 {
        Operation::Movsw
    } else if op_code == 0xA6 {
        Operation::Cmpsb
    } else if op_code == 0xA7 {
        Operation::Cmpsw
    } else if op_code == 0xAA {
        Operation::Stosb
    } else if op_code == 0xAB {
        Operation::Stosw
    } else if op_code == 0xAC {
        Operation::Lodsb
    } else if op_code == 0xAD {
        Operation::Lodsw
    } else if op_code == 0xAE {
        Operation::Scasb
    } else {
        Operation::Scasw
    }
}

/// The loop or JCXZ operation selected by opcodes `0xE0..0xE3`.
pub open spec fn loop_operation(op_code: u8) -> Operation
    recommends
        0xE0 <= op_code <= 0xE3,
{
    if op_code == 0xE0 {
        Operation::Loopnz
    } else if op_code == 0xE1 {
        Operation::Loopz
    } else if op_code == 0xE2 {
        Operation::Loop
    } else {
        Operation::Jcxz
    }
}

/// The processor-control operation of a single stand-alone opcode byte.
pub open spec fn control_operation(op_code: u8) -> Operation
    recommends
        op_code == 0x9B || op_code == 0xF0 || op_code == 0xF4 || op_code == 0xF5 || op_code == 0xF8
            || op_code == 0xF9 || op_code == 0xFA || op_code == 0xFB || op_code == 0xFC || op_code
            == 0xFD,
{
    if op_code == 0x9B {
        Operation::Wait
    } else if op_code == 0xF0 {
        Operation::Lock
    } else if op_code == 0xF4 {
        Operation::Hlt
    } else if op_code == 0xF5 {
        Operation::Cmc
    } else if op_code == 0xF8 {
        Operation::Clc
    } else if op_code == 0xF9 {
        Operation::Stc
    } else if op_code == 0xFA {
        Operation::Cli
    } else if op_code == 0xFB {
        Operation::Sti
    } else if op_code == 0xFC {
        Operation::Cld
    } else {
        Operation::Std
    }
}

/// The operation the ModR/M register field selects in the immediate group
/// `0x80..0x83`.
pub open spec fn group_operation(r: Register) -> Operation {
    match r {
        Register::AlAx => Operation::Add,
        Register::ClCx => Operation::Or,
        Register::DlDx => Operation::Adc,
        Register::BlBx => Operation::Sbb,
        Register::AhSp => Operation::And,
        Register::ChBp => Operation::Sub,
        Register::DhSi => Operation::Xor,
        Register::BhDi => Operation::Cmp,
    }
}

/// An immediate field: one byte zero-extended when `wide` is false, a
/// little-endian word when it is true.
pub open spec fn spec_read_imm(data: Seq<u8>, pos: int, wide: bool) -> (Option<u16>, int) {
    if wide {
        spec_read_u16(data, pos)
    } else {
        let (b, p) = spec_read_u8(data, pos);
        match b {
            Some(v) => (Some(v as u16), p),
            None => (None, p),
        }
    }
}

/// What the register-or-memory family handlers yield: a ModR/M byte, then
/// the register and register-or-memory operands, the direction bit choosing
/// which is the destination.
pub open spec fn spec_rm_reg(data: Seq<u8>, pos: int, op_code: u8, operation: Operation) -> (
    Result<Instruction, Error>,
    int,
) {
    let w = op_code % 2;
    let d = (op_code / 2) % 2;
    let (mb, pos1) = spec_read_u8(data, pos);
    match mb {
        None => (Err(Error::UnexpectedEof), pos1),
        Some(modrm_byte) => {
            let (m, pos2) = spec_modrm_from_byte(data, pos1, modrm_byte);
            match m {
                Err(e) => (Err(e), pos2),
                Ok(modrm) => {
                    let size = if w == 1 {
                        OperandSize::Word
                    } else {
                        OperandSize::Byte
                    };
                    let rm_op = Operand(
                        operand_type_of_register_or_memory(modrm.register_or_memory),
                        size,
                    );
                    let reg_op = Operand(OperandType::Register(modrm.register), size);
                    let operands = if d == 1 {
                        OperandSet::DestinationAndSource(reg_op, rm_op)
                    } else {
                        OperandSet::DestinationAndSource(rm_op, reg_op)
                    };
                    (Ok(plain_instruction(operation, operands)), pos2)
                },
            }
        },
    }
}

/// What the accumulator-immediate handlers yield: AL or AX paired with an
/// immediate of the same width.
pub open spec fn spec_acc_imm(data: Seq<u8>, pos: int, op_code: u8, operation: Operation) -> (
    Result<Instruction, Error>,
    int,
) {
    let w = op_code % 2;
    let size = if w == 1 {
        OperandSize::Word
    } else {
        OperandSize::Byte
    };
    let (imm, pos1) = spec_read_imm(data, pos, w == 1);
    match imm {
        None => (Err(Error::UnexpectedEof), pos1),
        Some(value) => (
            Ok(
                plain_instruction(
                    operation,
                    OperandSet::DestinationAndSource(
                        Operand(OperandType::Register(Register::AlAx), size),
                        Operand(OperandType::Immediate(value), size),
                    ),
                ),
            ),
            pos1,
        ),
    }
}

/// What the immediate group `0x80..0x83` yields: the ModR/M register field
/// selects the operation, the register-or-memory half is the destination,
/// and the immediate is a byte, a word, or a sign-extended byte.
pub open spec fn spec_group_imm(data: Seq<u8>, pos: int, op_code: u8) -> (
    Result<Instruction, Error>,
    int,
) {
    let wide = op_code == 0x81;
    let word_sized = op_code == 0x81 || op_code == 0x83;
    let size = if word_sized {
        OperandSize::Word
    } else {
        OperandSize::Byte
    };
    let (mb, pos1) = spec_read_u8(data, pos);
    match mb {
        None => (Err(Error::UnexpectedEof), pos1),
        Some(modrm_byte) => {
            let (m, pos2) = spec_modrm_from_byte(data, pos1, modrm_byte);
            match m {
                Err(e) => (Err(e), pos2),
                Ok(modrm) => {
                    let (imm, pos3) = spec_read_imm(data, pos2, wide);
                    match imm {
                        None => (Err(Error::UnexpectedEof), pos3),
                        Some(raw) => {
                            let value = if op_code == 0x83 {
                                sign_extend_u8((raw % 0x100) as u8)
                            } else {
                                raw
                            };
                            (
                                Ok(
                                    plain_instruction(
                                        group_operation(modrm.register),
                                        OperandSet::DestinationAndSource(
                                            Operand(
                                                operand_type_of_register_or_memory(
                                                    modrm.register_or_memory,
                                                ),
                                                size,
                                            ),
                                            Operand(OperandType::Immediate(value), size),
                                        ),
                                    ),
                                ),
                                pos3,
                            )
                        },
                    }
                },
            }
        },
    }
}

/// What the segment-register moves `0x8C` and `0x8E` yield: the ModR/M
/// register field names a segment register, rejected when its top bit is
/// set; the register-or-memory half is the other side.
pub open spec fn spec_mov_seg(data: Seq<u8>, pos: int, to_segment: bool) -> (
    Result<Instruction, Error>,
    int,
) {
    let (mb, pos1) = spec_read_u8(data, pos);
    match mb {
        None => (Err(Error::UnexpectedEof), pos1),
        Some(modrm_byte) => {
            let seg_bits = (modrm_byte / 8) % 8;
            if seg_bits >= 4 {
                (Err(Error::InvalidSegmentEncoding(seg_bits)), pos1)
            } else {
                let (m, pos2) = spec_modrm_from_byte(data, pos1, modrm_byte);
                match m {
                    Err(e) => (Err(e), pos2),
                    Ok(modrm) => {
                        let seg_op = Operand(
                            OperandType::Segment(segment_from_bits(seg_bits)),
                            OperandSize::Word,
                        );
                        let rm_op = Operand(
                            operand_type_of_register_or_memory(modrm.register_or_memory),
                            OperandSize::Word,
                        );
                        let operands = if to_segment {
                            OperandSet::DestinationAndSource(seg_op, rm_op)
                        } else {
                            OperandSet::DestinationAndSource(rm_op, seg_op)
                        };
                        (Ok(plain_instruction(Operation::Mov, operands)), pos2)
                    },
                }
            }
        },
    }
}

/// What `0xC6` and `0xC7` yield: an immediate stored to a register-or-memory
/// destination.
pub open spec fn spec_mov_imm_rm(data: Seq<u8>, pos: int, op_code: u8) -> (
    Result<Instruction, Error>,
    int,
) {
    let w = op_code % 2;
    let size = if w == 1 {
        OperandSize::Word
    } else {
        OperandSize::Byte
    };
    let (mb, pos1) = spec_read_u8(data, pos);
    match mb {
        None => (Err(Error::UnexpectedEof), pos1),
        Some(modrm_byte) => {
            let (m, pos2) = spec_modrm_from_byte(data, pos1, modrm_byte);
            match m {
                Err(e) => (Err(e), pos2),
                Ok(modrm) => {
                    let (imm, pos3) = spec_read_imm(data, pos2, w == 1);
                    match imm {
                        None => (Err(Error::UnexpectedEof), pos3),
                        Some(value) => (
                            Ok(
                                plain_instruction(
                                    Operation::Mov,
                                    OperandSet::DestinationAndSource(
                                        Operand(
                                            operand_type_of_register_or_memory(
                                                modrm.register_or_memory,
                                            ),
                                            size,
                                        ),
                                        Operand(OperandType::Immediate(value), size),
                                    ),
                                ),
                            ),
                            pos3,
                        ),
                    }
                },
            }
        },
    }
}

/// What `0xB0..0xBF` yield: an immediate loaded into the register the low
/// three opcode bits name, byte registers below `0xB8`, word registers from
/// it.
pub open spec fn spec_mov_imm_reg(data: Seq<u8>, pos: int, op_code: u8) -> (
    Result<Instruction, Error>,
    int,
) {
    let wide = (op_code / 8) % 2 == 1;
    let size = if wide {
        OperandSize::Word
    } else {
        OperandSize::Byte
    };
    let (imm, pos1) = spec_read_imm(data, pos, wide);
    match imm {
        None => (Err(Error::UnexpectedEof), pos1),
        Some(value) => (
            Ok(
                plain_instruction(
                    Operation::Mov,
                    OperandSet::DestinationAndSource(
                        Operand(OperandType::Register(register_from_bits(op_code % 8)), size),
                        Operand(OperandType::Immediate(value), size),
                    ),
                ),
            ),
            pos1,
        ),
    }
}

/// What `0xA0..0xA3` yield: a move between the accumulator and a direct
/// 16-bit address, the direction given by bit 1 of the opcode.
pub open spec fn spec_mov_acc_mem(data: Seq<u8>, pos: int, op_code: u8) -> (
    Result<Instruction, Error>,
    int,
) {
    let w = op_code % 2;
    let size = if w == 1 {
        OperandSize::Word
    } else {
        OperandSize::Byte
    };
    let to_memory = (op_code / 2) % 2 == 1;
    let (addr, pos1) = spec_read_u16(data, pos);
    match addr {
        None => (Err(Error::UnexpectedEof), pos1),
        Some(offset) => {
            let acc = Operand(OperandType::Register(Register::AlAx), size);
            let mem = Operand(OperandType::Direct(offset), size);
            let operands = if to_memory {
                OperandSet::DestinationAndSource(mem, acc)
            } else {
                OperandSet::DestinationAndSource(acc, mem)
            };
            (Ok(plain_instruction(Operation::Mov, operands)), pos1)
        },
    }
}

/// What the port I/O opcodes with a fixed port yield: the accumulator and an
/// immediate port number, the port the destination for OUT and the source
/// for IN.
pub open spec fn spec_in_out_fixed(data: Seq<u8>, pos: int, op_code: u8, is_out: bool) -> (
    Result<Instruction, Error>,
    int,
) {
    let w = op_code % 2;
    let size = if w == 1 {
        OperandSize::Word
    } else {
        OperandSize::Byte
    };
    let (b, pos1) = spec_read_u8(data, pos);
    match b {
        None => (Err(Error::UnexpectedEof), pos1),
        Some(port) => {
            let acc = Operand(OperandType::Register(Register::AlAx), size);
            let port_op = Operand(OperandType::Immediate(port as u16), size);
            let operands = if is_out {
                OperandSet::DestinationAndSource(port_op, acc)
            } else {
                OperandSet::DestinationAndSource(acc, port_op)
            };
            (
                Ok(
                    plain_instruction(
                        if is_out {
                            Operation::Out
                        } else {
                            Operation::In
                        },
                        operands,
                    ),
                ),
                pos1,
            )
        },
    }
}

/// What the port I/O opcodes with the port in DX yield.
pub open spec fn spec_in_out_variable(pos: int, op_code: u8, is_out: bool) -> (
    Result<Instruction, Error>,
    int,
) {
    let w = op_code % 2;
    let size = if w == 1 {
        OperandSize::Word
    } else {
        OperandSize::Byte
    };
    let acc = Operand(OperandType::Register(Register::AlAx), size);
    let port_op = Operand(OperandType::Register(Register::DlDx), OperandSize::Word);
    let operands = if is_out {
        OperandSet::DestinationAndSource(port_op, acc)
    } else {
        OperandSet::DestinationAndSource(acc, port_op)
    };
    (
        Ok(
            plain_instruction(
                if is_out {
                    Operation::Out
                } else {
                    Operation::In
                },
                operands,
            ),
        ),
        pos,
    )
}

/// What `0xA8` and `0xA9` yield: TEST of the accumulator against an
/// immediate.
pub open spec fn spec_test_acc_imm(data: Seq<u8>, pos: int, op_code: u8) -> (
    Result<Instruction, Error>,
    int,
) {
    let w = op_code % 2;
    let size = if w == 1 {
        OperandSize::Word
    } else {
        OperandSize::Byte
    };
    let (imm, pos1) = spec_read_imm(data, pos, w == 1);
    match imm {
        None => (Err(Error::UnexpectedEof), pos1),
        Some(value) => (
            Ok(
                plain_instruction(
                    Operation::Test,
                    OperandSet::DestinationAndSource(
                        Operand(OperandType::Register(Register::AlAx), size),
                        Operand(OperandType::Immediate(value), size),
                    ),
                ),
            ),
            pos1,
        ),
    }
}

/// What a jump with an 8-bit displacement yields: the raw displacement byte,
/// kept zero-extended in the offset operand.
pub open spec fn spec_jump_short(data: Seq<u8>, pos: int, operation: Operation) -> (
    Result<Instruction, Error>,
    int,
) {
    let (b, pos1) = spec_read_u8(data, pos);
    match b {
        None => (Err(Error::UnexpectedEof), pos1),
        Some(displacement) => (
            Ok(plain_instruction(operation, OperandSet::Offset(displacement as u16))),
            pos1,
        ),
    }
}

/// What the short unconditional jump yields: its 8-bit displacement,
/// sign-extended into the 16-bit offset so that execution adds it as a
/// plain 16-bit displacement.
pub open spec fn spec_jump_short_signed(data: Seq<u8>, pos: int) -> (
    Result<Instruction, Error>,
    int,
) {
    let (b, pos1) = spec_read_u8(data, pos);
    match b {
        None => (Err(Error::UnexpectedEof), pos1),
        Some(displacement) => (
            Ok(
                plain_instruction(
                    Operation::Jmp,
                    OperandSet::Offset(sign_extend_u8(displacement)),
                ),
            ),
            pos1,
        ),
    }
}

/// What a jump or call with a 16-bit displacement yields.
pub open spec fn spec_jump_near(data: Seq<u8>, pos: int, operation: Operation) -> (
    Result<Instruction, Error>,
    int,
) {
    let (w, pos1) = spec_read_u16(data, pos);
    match w {
        None => (Err(Error::UnexpectedEof), pos1),
        Some(displacement) => (
            Ok(plain_instruction(operation, OperandSet::Offset(displacement))),
            pos1,
        ),
    }
}

/// What the far jump `0xEA` yields: a 16-bit offset then a 16-bit segment.
pub open spec fn spec_jump_far(data: Seq<u8>, pos: int) -> (Result<Instruction, Error>, int) {
    let (off, pos1) = spec_read_u16(data, pos);
    match off {
        None => (Err(Error::UnexpectedEof), pos1),
        Some(offset) => {
            let (seg, pos2) = spec_read_u16(data, pos1);
            match seg {
                None => (Err(Error::UnexpectedEof), pos2),
                Some(segment) => (
                    Ok(
                        plain_instruction(
                            Operation::Jmp,
                            OperandSet::SegmentAndOffset(segment, offset),
                        ),
                    ),
                    pos2,
                ),
            }
        },
    }
}

/// What `0xCD` yields: a software interrupt with its type byte.
pub open spec fn spec_int(data: Seq<u8>, pos: int) -> (Result<Instruction, Error>, int) {
    let (b, pos1) = spec_read_u8(data, pos);
    match b {
        None => (Err(Error::UnexpectedEof), pos1),
        Some(ty) => (
            Ok(
                plain_instruction(
                    Operation::Int,
                    OperandSet::Destination(
                        Operand(OperandType::Immediate(ty as u16), OperandSize::Byte),
                    ),
                ),
            ),
            pos1,
        ),
    }
}

/// An instruction carrying a single word-sized register destination.
pub open spec fn spec_reg_destination(operation: Operation, reg_bits: u8) -> Instruction
    recommends
        reg_bits < 8,
{
    plain_instruction(
        operation,
        OperandSet::Destination(
            Operand(OperandType::Register(register_from_bits(reg_bits)), OperandSize::Word),
        ),
    )
}

/// An instruction carrying a single segment-register destination.
pub open spec fn spec_seg_destination(operation: Operation, seg_bits: u8) -> Instruction
    recommends
        seg_bits < 4,
{
    plain_instruction(
        operation,
        OperandSet::Destination(
            Operand(OperandType::Segment(segment_from_bits(seg_bits)), OperandSize::Word),
        ),
    )
}


/// The BCD adjust selected by the odd column of rows four to seven of
/// the low opcode block.
pub open spec fn bcd_operation(row: u8) -> Operation
    recommends
        4 <= row <= 7,
{
    if row == 4 {
        Operation::Baa
    } else if row == 5 {
        Operation::Das
    } else if row == 6 {
        Operation::Aaa
    } else {
        Operation::Aas
    }
}

/// What the `0xF6`/`0xF7` group yields: the ModR/M register field selects
/// TEST of an immediate, NOT, NEG, or a multiply or divide against the
/// accumulator.
pub open spec fn spec_group_f6(data: Seq<u8>, pos: int, op_code: u8) -> (
    Result<Instruction, Error>,
    int,
) {
    let w = op_code % 2;
    let size = if w == 1 {
        OperandSize::Word
    } else {
        OperandSize::Byte
    };
    let (mb, pos1) = spec_read_u8(data, pos);
    match mb {
        None => (Err(Error::UnexpectedEof), pos1),
        Some(modrm_byte) => {
            let (m, pos2) = spec_modrm_from_byte(data, pos1, modrm_byte);
            match m {
                Err(e) => (Err(e), pos2),
                Ok(modrm) => {
                    let rm_op = Operand(
                        operand_type_of_register_or_memory(modrm.register_or_memory),
                        size,
                    );
                    match modrm.register {
                        Register::AlAx | Register::ClCx => {
                            let (imm, pos3) = spec_read_imm(data, pos2, w == 1);
                            match imm {
                                None => (Err(Error::UnexpectedEof), pos3),
                                Some(value) => (
                                    Ok(
                                        plain_instruction(
                                            Operation::Test,
                                            OperandSet::DestinationAndSource(
                                                rm_op,
                                                Operand(OperandType::Immediate(value), size),
                                            ),
                                        ),
                                    ),
                                    pos3,
                                ),
                            }
                        },
                        Register::DlDx => (
                            Ok(
                                plain_instruction(
                                    Operation::Not,
                                    OperandSet::Destination(rm_op),
                                ),
                            ),
                            pos2,
                        ),
                        Register::BlBx => (
                            Ok(
                                plain_instruction(
                                    Operation::Neg,
                                    OperandSet::Destination(rm_op),
                                ),
                            ),
                            pos2,
                        ),
                        Register::AhSp => (
                            Ok(
                                plain_instruction(
                                    Operation::Mul,
                                    OperandSet::Destination(rm_op),
                                ),
                            ),
                            pos2,
                        ),
                        Register::ChBp => (
                            Ok(
                                plain_instruction(
                                    Operation::Imul,
                                    OperandSet::Destination(rm_op),
                                ),
                            ),
                            pos2,
                        ),
                        Register::DhSi => (
                            Ok(
                                plain_instruction(
                                    Operation::Div,
                                    OperandSet::Destination(rm_op),
                                ),
                            ),
                            pos2,
                        ),
                        Register::BhDi => (
                            Ok(
                                plain_instruction(
                                    Operation::Idiv,
                                    OperandSet::Destination(rm_op),
                                ),
                            ),
                            pos2,
                        ),
                    }
                },
            }
        },
    }
}

/// The shift or rotate the ModR/M register field selects in the
/// `0xD0..0xD3` group, when it names one.
pub open spec fn shift_operation(r: Register) -> Option<Operation> {
    match r {
        Register::AlAx => Some(Operation::Rol),
        Register::ClCx => Some(Operation::Ror),
        Register::DlDx => Some(Operation::Rcl),
        Register::BlBx => Some(Operation::Rcr),
        Register::AhSp => Some(Operation::Shl),
        Register::ChBp => Some(Operation::Shr),
        Register::DhSi => None,
        Register::BhDi => Some(Operation::Sar),
    }
}

/// What the shift group `0xD0..0xD3` yields: the register-or-memory half
/// is the destination, the count is one or the CL register.
pub open spec fn spec_shift_group(data: Seq<u8>, pos: int, op_code: u8) -> (
    Result<Instruction, Error>,
    int,
) {
    let w = op_code % 2;
    let size = if w == 1 {
        OperandSize::Word
    } else {
        OperandSize::Byte
    };
    let by_cl = (op_code / 2) % 2 == 1;
    let (mb, pos1) = spec_read_u8(data, pos);
    match mb {
        None => (Err(Error::UnexpectedEof), pos1),
        Some(modrm_byte) => {
            let (m, pos2) = spec_modrm_from_byte(data, pos1, modrm_byte);
            match m {
                Err(e) => (Err(e), pos2),
                Ok(modrm) => match shift_operation(modrm.register) {
                    None => (Err(Error::InvalidModRmEncoding(modrm_byte)), pos2),
                    Some(operation) => {
                        let rm_op = Operand(
                            operand_type_of_register_or_memory(modrm.register_or_memory),
                            size,
                        );
                        let count = if by_cl {
                            Operand(OperandType::Register(Register::ClCx), OperandSize::Byte)
                        } else {
                            Operand(OperandType::Immediate(1), OperandSize::Byte)
                        };
                        (
                            Ok(
                                plain_instruction(
                                    operation,
                                    OperandSet::DestinationAndSource(rm_op, count),
                                ),
                            ),
                            pos2,
                        )
                    },
                },
            }
        },
    }
}

/// What `0x84..0x87` yield: TEST or XCHG of a register against a
/// register-or-memory reference, the reference the destination.
pub open spec fn spec_test_xchg(data: Seq<u8>, pos: int, op_code: u8) -> (
    Result<Instruction, Error>,
    int,
) {
    let w = op_code % 2;
    let size = if w == 1 {
        OperandSize::Word
    } else {
        OperandSize::Byte
    };
    let operation = if op_code >= 0x86 {
        Operation::Xchg
    } else {
        Operation::Test
    };
    let (mb, pos1) = spec_read_u8(data, pos);
    match mb {
        None => (Err(Error::UnexpectedEof), pos1),
        Some(modrm_byte) => {
            let (m, pos2) = spec_modrm_from_byte(data, pos1, modrm_byte);
            match m {
                Err(e) => (Err(e), pos2),
                Ok(modrm) => (
                    Ok(
                        plain_instruction(
                            operation,
                            OperandSet::DestinationAndSource(
                                Operand(
                                    operand_type_of_register_or_memory(modrm.register_or_memory),
                                    size,
                                ),
                                Operand(OperandType::Register(modrm.register), size),
                            ),
                        ),
                    ),
                    pos2,
                ),
            }
        },
    }
}

/// What LEA, LDS and LES yield: a word register destination and a memory
/// reference; a register-only reference has no address to take.
pub open spec fn spec_load_pointer(data: Seq<u8>, pos: int, operation: Operation) -> (
    Result<Instruction, Error>,
    int,
) {
    let (mb, pos1) = spec_read_u8(data, pos);
    match mb {
        None => (Err(Error::UnexpectedEof), pos1),
        Some(modrm_byte) => {
            let (m, pos2) = spec_modrm_from_byte(data, pos1, modrm_byte);
            match m {
                Err(e) => (Err(e), pos2),
                Ok(modrm) => {
                    if modrm.register_or_memory is Register {
                        (Err(Error::InvalidModRmEncoding(modrm_byte)), pos2)
                    } else {
                        (
                            Ok(
                                plain_instruction(
                                    operation,
                                    OperandSet::DestinationAndSource(
                                        Operand(
                                            OperandType::Register(modrm.register),
                                            OperandSize::Word,
                                        ),
                                        Operand(
                                            operand_type_of_register_or_memory(
                                                modrm.register_or_memory,
                                            ),
                                            OperandSize::Word,
                                        ),
                                    ),
                                ),
                            ),
                            pos2,
                        )
                    }
                },
            }
        },
    }
}

/// What `0x8F` yields: POP of a register-or-memory destination; only the
/// zero register field names this form.
pub open spec fn spec_pop_rm(data: Seq<u8>, pos: int) -> (Result<Instruction, Error>, int) {
    let (mb, pos1) = spec_read_u8(data, pos);
    match mb {
        None => (Err(Error::UnexpectedEof), pos1),
        Some(modrm_byte) => {
            let (m, pos2) = spec_modrm_from_byte(data, pos1, modrm_byte);
            match m {
                Err(e) => (Err(e), pos2),
                Ok(modrm) => {
                    if modrm.register == Register::AlAx {
                        (
                            Ok(
                                plain_instruction(
                                    Operation::Pop,
                                    OperandSet::Destination(
                                        Operand(
                                            operand_type_of_register_or_memory(
                                                modrm.register_or_memory,
                                            ),
                                            OperandSize::Word,
                                        ),
                                    ),
                                ),
                            ),
                            pos2,
                        )
                    } else {
                        (Err(Error::InvalidModRmEncoding(modrm_byte)), pos2)
                    }
                },
            }
        },
    }
}

/// What the `0xFE`/`0xFF` group yields: INC and DEC of a register-or-
/// memory destination at either width, and for the word form also CALL,
/// JMP and PUSH through the reference; the far indirect forms have no
/// shape in this instruction model and are rejected at the ModR/M byte.
pub open spec fn spec_inc_dec_group(data: Seq<u8>, pos: int, op_code: u8) -> (
    Result<Instruction, Error>,
    int,
) {
    let w = op_code % 2;
    let size = if w == 1 {
        OperandSize::Word
    } else {
        OperandSize::Byte
    };
    let (mb, pos1) = spec_read_u8(data, pos);
    match mb {
        None => (Err(Error::UnexpectedEof), pos1),
        Some(modrm_byte) => {
            let (m, pos2) = spec_modrm_from_byte(data, pos1, modrm_byte);
            match m {
                Err(e) => (Err(e), pos2),
                Ok(modrm) => {
                    let rm_op = Operand(
                        operand_type_of_register_or_memory(modrm.register_or_memory),
                        size,
                    );
                    match modrm.register {
                        Register::AlAx => (
                            Ok(
                                plain_instruction(
                                    Operation::Inc,
                                    OperandSet::Destination(rm_op),
                                ),
                            ),
                            pos2,
                        ),
                        Register::ClCx => (
                            Ok(
                                plain_instruction(
                                    Operation::Dec,
                                    OperandSet::Destination(rm_op),
                                ),
                            ),
                            pos2,
                        ),
                        Register::DlDx => {
                            if w == 1 {
                                (
                                    Ok(
                                        plain_instruction(
                                            Operation::Call,
                                            OperandSet::Destination(rm_op),
                                        ),
                                    ),
                                    pos2,
                                )
                            } else {
                                (Err(Error::InvalidModRmEncoding(modrm_byte)), pos2)
                            }
                        },
                        Register::AhSp => {
                            if w == 1 {
                                (
                                    Ok(
                                        plain_instruction(
                                            Operation::Jmp,
                                            OperandSet::Destination(rm_op),
                                        ),
                                    ),
                                    pos2,
                                )
                            } else {
                                (Err(Error::InvalidModRmEncoding(modrm_byte)), pos2)
                            }
                        },
                        Register::DhSi => {
                            if w == 1 {
                                (
                                    Ok(
                                        plain_instruction(
                                            Operation::Push,
                                            OperandSet::Destination(rm_op),
                                        ),
                                    ),
                                    pos2,
                                )
                            } else {
                                (Err(Error::InvalidModRmEncoding(modrm_byte)), pos2)
                            }
                        },
                        _ => (Err(Error::InvalidModRmEncoding(modrm_byte)), pos2),
                    }
                },
            }
        },
    }
}

/// What the far call `0x9A` yields: a 16-bit offset then a 16-bit
/// segment.
pub open spec fn spec_call_far(data: Seq<u8>, pos: int) -> (Result<Instruction, Error>, int) {
    let (off, pos1) = spec_read_u16(data, pos);
    match off {
        None => (Err(Error::UnexpectedEof), pos1),
        Some(offset) => {
            let (seg, pos2) = spec_read_u16(data, pos1);
            match seg {
                None => (Err(Error::UnexpectedEof), pos2),
                Some(segment) => (
                    Ok(
                        plain_instruction(
                            Operation::Call,
                            OperandSet::SegmentAndOffset(segment, offset),
                        ),
                    ),
                    pos2,
                ),
            }
        },
    }
}

/// What the near return with a stack adjustment `0xC2` yields: RET with
/// an immediate destination holding the adjustment.
pub open spec fn spec_ret_imm(data: Seq<u8>, pos: int) -> (Result<Instruction, Error>, int) {
    let (w, pos1) = spec_read_u16(data, pos);
    match w {
        None => (Err(Error::UnexpectedEof), pos1),
        Some(v) => (
            Ok(
                plain_instruction(
                    Operation::Ret,
                    OperandSet::Destination(Operand(OperandType::Immediate(v), OperandSize::Word)),
                ),
            ),
            pos1,
        ),
    }
}

/// What the far returns `0xCA` and `0xCB` yield: RET carrying its stack
/// adjustment as an `Offset` operand, the model's shape for the far
/// return (the near forms use an empty set or an immediate destination).
pub open spec fn spec_ret_far(data: Seq<u8>, pos: int, with_imm: bool) -> (
    Result<Instruction, Error>,
    int,
) {
    if with_imm {
        let (w, pos1) = spec_read_u16(data, pos);
        match w {
            None => (Err(Error::UnexpectedEof), pos1),
            Some(v) => (Ok(plain_instruction(Operation::Ret, OperandSet::Offset(v))), pos1),
        }
    } else {
        (Ok(plain_instruction(Operation::Ret, OperandSet::Offset(0))), pos)
    }
}

/// What `0xD4` and `0xD5` yield: an ASCII adjust with its base byte.
pub open spec fn spec_ascii_adjust(data: Seq<u8>, pos: int, operation: Operation) -> (
    Result<Instruction, Error>,
    int,
) {
    let (b, pos1) = spec_read_u8(data, pos);
    match b {
        None => (Err(Error::UnexpectedEof), pos1),
        Some(base) => (
            Ok(
                plain_instruction(
                    operation,
                    OperandSet::Destination(
                        Operand(OperandType::Immediate(base as u16), OperandSize::Byte),
                    ),
                ),
            ),
            pos1,
        ),
    }
}

/// The dispatch on one non-prefix opcode byte, `pos` standing just past it.
pub open spec fn spec_decode_op(data: Seq<u8>, pos: int, op: u8) -> (
    Result<Instruction, Error>,
    int,
) {
    if op < 0x40 {
        let row = op / 8;
        let col = op % 8;
        if col <= 3 {
            spec_rm_reg(data, pos, op, arith_row_operation(row))
        } else if col <= 5 {
            spec_acc_imm(data, pos, op, arith_row_operation(row))
        } else if row <= 3 {
            if col == 6 {
                (Ok(spec_seg_destination(Operation::Push, row)), pos)
            } else {
                (Ok(spec_seg_destination(Operation::Pop, row)), pos)
            }
        } else if col == 7 {
            (Ok(plain_instruction(bcd_operation(row), OperandSet::Empty)), pos)
        } else {
            (Err(Error::InvalidOpCode(op)), pos)
        }
    } else if op < 0x48 {
        (Ok(spec_reg_destination(Operation::Inc, op % 8)), pos)
    } else if op < 0x50 {
        (Ok(spec_reg_destination(Operation::Dec, op % 8)), pos)
    } else if op < 0x58 {
        (Ok(spec_reg_destination(Operation::Push, op % 8)), pos)
    } else if op < 0x60 {
        (Ok(spec_reg_destination(Operation::Pop, op % 8)), pos)
    } else if 0x70 <= op < 0x80 {
        spec_jump_short(data, pos, jcc_operation(op % 16))
    } else if 0x80 <= op <= 0x83 {
        spec_group_imm(data, pos, op)
    } else if 0x84 <= op <= 0x87 {
        spec_test_xchg(data, pos, op)
    } else if 0x88 <= op <= 0x8B {
        spec_rm_reg(data, pos, op, Operation::Mov)
    } else if op == 0x8C {
        spec_mov_seg(data, pos, false)
    } else if op == 0x8D {
        spec_load_pointer(data, pos, Operation::Lea)
    } else if op == 0x8E {
        spec_mov_seg(data, pos, true)
    } else if op == 0x8F {
        spec_pop_rm(data, pos)
    } else if 0x90 <= op <= 0x97 {
        (
            Ok(
                plain_instruction(
                    Operation::Xchg,
                    OperandSet::DestinationAndSource(
                        Operand(OperandType::Register(Register::AlAx), OperandSize::Word),
                        Operand(
                            OperandType::Register(register_from_bits(op % 8)),
                            OperandSize::Word,
                        ),
                    ),
                ),
            ),
            pos,
        )
    } else if op == 0x98 {
        (Ok(plain_instruction(Operation::Cbw, OperandSet::Empty)), pos)
    } else if op == 0x99 {
        (Ok(plain_instruction(Operation::Cwd, OperandSet::Empty)), pos)
    } else if op == 0x9A {
        spec_call_far(data, pos)
    } else if op == 0x9B {
        (Ok(plain_instruction(Operation::Wait, OperandSet::Empty)), pos)
    } else if op == 0x9C {
        (Ok(plain_instruction(Operation::Pushf, OperandSet::Empty)), pos)
    } else if op == 0x9D {
        (Ok(plain_instruction(Operation::Popf, OperandSet::Empty)), pos)
    } else if op == 0x9E {
        (Ok(plain_instruction(Operation::Sahf, OperandSet::Empty)), pos)
    } else if op == 0x9F {
        (Ok(plain_instruction(Operation::Lahf, OperandSet::Empty)), pos)
    } else if 0xA0 <= op <= 0xA3 {
        spec_mov_acc_mem(data, pos, op)
    } else if 0xA4 <= op <= 0xA7 || 0xAA <= op <= 0xAF {
        (Ok(plain_instruction(string_operation(op), OperandSet::Empty)), pos)
    } else if op == 0xA8 || op == 0xA9 {
        spec_test_acc_imm(data, pos, op)
    } else if 0xB0 <= op <= 0xBF {
        spec_mov_imm_reg(data, pos, op)
    } else if op == 0xC2 {
        spec_ret_imm(data, pos)
    } else if op == 0xC3 {
        (Ok(plain_instruction(Operation::Ret, OperandSet::Empty)), pos)
    } else if op == 0xC4 {
        spec_load_pointer(data, pos, Operation::Les)
    } else if op == 0xC5 {
        spec_load_pointer(data, pos, Operation::Lds)
    } else if op == 0xC6 || op == 0xC7 {
        spec_mov_imm_rm(data, pos, op)
    } else if op == 0xCA {
        spec_ret_far(data, pos, true)
    } else if op == 0xCB {
        spec_ret_far(data, pos, false)
    } else if op == 0xCC {
        (
            Ok(
                plain_instruction(
                    Operation::Int,
                    OperandSet::Destination(
                        Operand(OperandType::Immediate(3), OperandSize::Byte),
                    ),
                ),
            ),
            pos,
        )
    } else if op == 0xCD {
        spec_int(data, pos)
    } else if op == 0xCE {
        (Ok(plain_instruction(Operation::Into, OperandSet::Empty)), pos)
    } else if op == 0xCF {
        (Ok(plain_instruction(Operation::IRet, OperandSet::Empty)), pos)
    } else if 0xD0 <= op <= 0xD3 {
        spec_shift_group(data, pos, op)
    } else if op == 0xD4 {
        spec_ascii_adjust(data, pos, Operation::Aam)
    } else if op == 0xD5 {
        spec_ascii_adjust(data, pos, Operation::Aad)
    } else if op == 0xD7 {
        (Ok(plain_instruction(Operation::Xlat, OperandSet::Empty)), pos)
    } else if 0xD8 <= op <= 0xDF {
        (Ok(plain_instruction(Operation::Esc, OperandSet::Empty)), pos)
    } else if 0xE0 <= op <= 0xE3 {
        spec_jump_short(data, pos, loop_operation(op))
    } else if op == 0xE4 || op == 0xE5 {
        spec_in_out_fixed(data, pos, op, false)
    } else if op == 0xE6 || op == 0xE7 {
        spec_in_out_fixed(data, pos, op, true)
    } else if op == 0xE8 {
        spec_jump_near(data, pos, Operation::Call)
    } else if op == 0xE9 {
        spec_jump_near(data, pos, Operation::Jmp)
    } else if op == 0xEA {
        spec_jump_far(data, pos)
    } else if op == 0xEB {
        spec_jump_short_signed(data, pos)
    } else if op == 0xEC || op == 0xED {
        spec_in_out_variable(pos, op, false)
    } else if op == 0xEE || op == 0xEF {
        spec_in_out_variable(pos, op, true)
    } else if op == 0xF6 || op == 0xF7 {
        spec_group_f6(data, pos, op)
    } else if op == 0xFE || op == 0xFF {
        spec_inc_dec_group(data, pos, op)
    } else if op == 0x9B || op == 0xF0 || op == 0xF4 || op == 0xF5 || op == 0xF8 || op == 0xF9
        || op == 0xFA || op == 0xFB || op == 0xFC || op == 0xFD {
        (Ok(plain_instruction(control_operation(op), OperandSet::Empty)), pos)
    } else {
        (Err(Error::InvalidOpCode(op)), pos)
    }
}

/// A decoded instruction with a repeat prefix stamped on, unless an inner
/// prefix already set one: the prefix nearest the opcode wins, as the
/// hardware latches the last prefix of each class.
pub open spec fn spec_with_repeat(i: Instruction, repeat: Repeat) -> Instruction {
    Instruction {
        operation: i.operation,
        segment_override: i.segment_override,
        repeat: if i.repeat is None {
            Some(repeat)
        } else {
            i.repeat
        },
        operands: i.operands,
    }
}

/// A decoded instruction with a segment override stamped on, unless an
/// inner prefix already set one.
pub open spec fn spec_with_override(i: Instruction, segment: Segment) -> Instruction {
    Instruction {
        operation: i.operation,
        segment_override: if i.segment_override is None {
            Some(segment)
        } else {
            i.segment_override
        },
        repeat: i.repeat,
        operands: i.operands,
    }
}

/// The whole decoder with a prefix budget: the next byte dispatches either
/// to a prefix, which recurses on the rest of the stream, or to the opcode
/// table.
pub open spec fn spec_decode_at(data: Seq<u8>, pos: int, budget: nat) -> (
    Result<Instruction, Error>,
    int,
)
    decreases budget,
{
    let (b, pos1) = spec_read_u8(data, pos);
    match b {
        None => (Err(Error::UnexpectedEof), pos1),
        Some(op) => {
            if op == 0xF2 || op == 0xF3 {
                if budget == 0 {
                    (Err(Error::InvalidOpCode(op)), pos1)
                } else {
                    let (r, p) = spec_decode_at(data, pos1, (budget - 1) as nat);
                    let repeat = if op == 0xF2 {
                        Repeat::NotEqual
                    } else {
                        Repeat::Equal
                    };
                    match r {
                        Ok(i) => (Ok(spec_with_repeat(i, repeat)), p),
                        Err(e) => (Err(e), p),
                    }
                }
            } else if op == 0x26 || op == 0x2E || op == 0x36 || op == 0x3E {
                if budget == 0 {
                    (Err(Error::InvalidOpCode(op)), pos1)
                } else {
                    let (r, p) = spec_decode_at(data, pos1, (budget - 1) as nat);
                    let segment = segment_from_bits((op / 8) % 4);
                    match r {
                        Ok(i) => (Ok(spec_with_override(i, segment)), p),
                        Err(e) => (Err(e), p),
                    }
                }
            } else {
                spec_decode_op(data, pos1, op)
            }
        },
    }
}

/// What `decode_instruction` yields from the stream contents at `pos`.
pub open spec fn spec_decode(data: Seq<u8>, pos: int) -> (Result<Instruction, Error>, int) {
    spec_decode_at(data, pos, PREFIX_LIMIT as nat)
}

/// Read a ModR/M byte and resolve it, or report how that failed.
fn read_modrm<It: DataIterator>(it: &mut It) -> (r: Result<Modrm, Error>)
    requires
        old(it).wf(),
    ensures
        final(it).wf(),
        final(it).bytes() == old(it).bytes(),
        final(it).position() >= old(it).position(),
        ({
            let (mb, pos1) = spec_read_u8(old(it).bytes(), old(it).position());
            match mb {
                None => r == Err::<Modrm, Error>(Error::UnexpectedEof) && final(it).position()
                    == pos1,
                Some(modrm_byte) => (r, final(it).position()) == spec_modrm_from_byte(
                    old(it).bytes(),
                    pos1,
                    modrm_byte,
                ),
            }
        }),
{
    let modrm_byte = match it.consume() {
        Some(b) => b,
        None => {
            return Err(Error::UnexpectedEof);
        },
    };
    Modrm::try_from_byte(modrm_byte, it)
}

/// Read an immediate field of the given width.
fn read_imm<It: DataIterator>(it: &mut It, wide: bool) -> (r: Option<u16>)
    requires
        old(it).wf(),
    ensures
        final(it).wf(),
        final(it).bytes() == old(it).bytes(),
        final(it).position() >= old(it).position(),
        (r, final(it).position()) == spec_read_imm(old(it).bytes(), old(it).position(), wide),
{
    if wide {
        it_read_u16(it)
    } else {
        match it_read_u8(it) {
            Some(b) => Some(b as u16),
            None => None,
        }
    }
}

/// Decode one register-or-memory family instruction: ModR/M, then the
/// direction bit picks the destination.
fn decode_rm_reg<It: DataIterator>(op_code: u8, operation: Operation, it: &mut It) -> (r: Result<
    Instruction,
    Error,
>)
    requires
        old(it).wf(),
    ensures
        final(it).wf(),
        final(it).bytes() == old(it).bytes(),
        final(it).position() >= old(it).position(),
        (r, final(it).position()) == spec_rm_reg(
            old(it).bytes(),
            old(it).position(),
            op_code,
            operation,
        ),
{
    let w = op_code % 2;
    let d = (op_code / 2) % 2;
    let modrm = match read_modrm(it) {
        Ok(m) => m,
        Err(e) => {
            return Err(e);
        },
    };
    let size = if w == 1 {
        OperandSize::Word
    } else {
        OperandSize::Byte
    };
    let rm_op = Operand(OperandType::from(modrm.register_or_memory), size);
    let reg_op = Operand(OperandType::Register(modrm.register), size);
    let operands = if d == 1 {
        OperandSet::DestinationAndSource(reg_op, rm_op)
    } else {
        OperandSet::DestinationAndSource(rm_op, reg_op)
    };
    Ok(Instruction::new(operation, operands))
}

/// Decode one accumulator-immediate instruction.
fn decode_acc_imm<It: DataIterator>(op_code: u8, operation: Operation, it: &mut It) -> (r: Result<
    Instruction,
    Error,
>)
    requires
        old(it).wf(),
    ensures
        final(it).wf(),
        final(it).bytes() == old(it).bytes(),
        final(it).position() >= old(it).position(),
        (r, final(it).position()) == spec_acc_imm(
            old(it).bytes(),
            old(it).position(),
            op_code,
            operation,
        ),
{
    let w = op_code % 2;
    let size = if w == 1 {
        OperandSize::Word
    } else {
        OperandSize::Byte
    };
    let value = match read_imm(it, w == 1) {
        Some(v) => v,
        None => {
            return Err(Error::UnexpectedEof);
        },
    };
    Ok(
        Instruction::new(
            operation,
            OperandSet::DestinationAndSource(
                Operand(OperandType::Register(Register::AlAx), size),
                Operand(OperandType::Immediate(value), size),
            ),
        ),
    )
}

/// Decode one instruction of the immediate group `0x80..0x83`.
fn decode_group_imm<It: DataIterator>(op_code: u8, it: &mut It) -> (r: Result<Instruction, Error>)
    requires
        old(it).wf(),
    ensures
        final(it).wf(),
        final(it).bytes() == old(it).bytes(),
        final(it).position() >= old(it).position(),
        (r, final(it).position()) == spec_group_imm(old(it).bytes(), old(it).position(), op_code),
{
    let wide = op_code == 0x81;
    let word_sized = op_code == 0x81 || op_code == 0x83;
    let size = if word_sized {
        OperandSize::Word
    } else {
        OperandSize::Byte
    };
    let modrm = match read_modrm(it) {
        Ok(m) => m,
        Err(e) => {
            return Err(e);
        },
    };
    let raw = match read_imm(it, wide) {
        Some(v) => v,
        None => {
            return Err(Error::UnexpectedEof);
        },
    };
    let value = if op_code == 0x83 {
        let b = (raw % 0x100) as u8;
        if b < 0x80 {
            b as u16
        } else {
            b as u16 + 0xFF00
        }
    } else {
        raw
    };
    let operation = match modrm.register {
        Register::AlAx => Operation::Add,
        Register::ClCx => Operation::Or,
        Register::DlDx => Operation::Adc,
        Register::BlBx => Operation::Sbb,
        Register::AhSp => Operation::And,
        Register::ChBp => Operation::Sub,
        Register::DhSi => Operation::Xor,
        Register::BhDi => Operation::Cmp,
    };
    Ok(
        Instruction::new(
            operation,
            OperandSet::DestinationAndSource(
                Operand(OperandType::from(modrm.register_or_memory), size),
                Operand(OperandType::Immediate(value), size),
            ),
        ),
    )
}

/// Decode a move between a segment register and a register-or-memory
/// reference.
fn decode_mov_seg<It: DataIterator>(to_segment: bool, it: &mut It) -> (r: Result<
    Instruction,
    Error,
>)
    requires
        old(it).wf(),
    ensures
        final(it).wf(),
        final(it).bytes() == old(it).bytes(),
        final(it).position() >= old(it).position(),
        (r, final(it).position()) == spec_mov_seg(old(it).bytes(), old(it).position(), to_segment),
{
    let modrm_byte = match it.consume() {
        Some(b) => b,
        None => {
            return Err(Error::UnexpectedEof);
        },
    };
    let seg_bits = (modrm_byte / 8) % 8;
    let segment = match Segment::try_from_low_bits(seg_bits) {
        Ok(s) => s,
        Err(e) => {
            return Err(e);
        },
    };
    let modrm = match Modrm::try_from_byte(modrm_byte, it) {
        Ok(m) => m,
        Err(e) => {
            return Err(e);
        },
    };
    let seg_op = Operand(OperandType::Segment(segment), OperandSize::Word);
    let rm_op = Operand(OperandType::from(modrm.register_or_memory), OperandSize::Word);
    let operands = if to_segment {
        OperandSet::DestinationAndSource(seg_op, rm_op)
    } else {
        OperandSet::DestinationAndSource(rm_op, seg_op)
    };
    Ok(Instruction::new(Operation::Mov, operands))
}

/// Decode a move of an immediate into a register-or-memory destination.
fn decode_mov_imm_rm<It: DataIterator>(op_code: u8, it: &mut It) -> (r: Result<Instruction, Error>)
    requires
        old(it).wf(),
    ensures
        final(it).wf(),
        final(it).bytes() == old(it).bytes(),
        final(it).position() >= old(it).position(),
        (r, final(it).position()) == spec_mov_imm_rm(old(it).bytes(), old(it).position(), op_code),
{
    let w = op_code % 2;
    let size = if w == 1 {
        OperandSize::Word
    } else {
        OperandSize::Byte
    };
    let modrm = match read_modrm(it) {
        Ok(m) => m,
        Err(e) => {
            return Err(e);
        },
    };
    let value = match read_imm(it, w == 1) {
        Some(v) => v,
        None => {
            return Err(Error::UnexpectedEof);
        },
    };
    Ok(
        Instruction::new(
            Operation::Mov,
            OperandSet::DestinationAndSource(
                Operand(OperandType::from(modrm.register_or_memory), size),
                Operand(OperandType::Immediate(value), size),
            ),
        ),
    )
}

/// Decode a move of an immediate into the register the opcode names.
fn decode_mov_imm_reg<It: DataIterator>(op_code: u8, it: &mut It) -> (r: Result<
    Instruction,
    Error,
>)
    requires
        old(it).wf(),
    ensures
        final(it).wf(),
        final(it).bytes() == old(it).bytes(),
        final(it).position() >= old(it).position(),
        (r, final(it).position()) == spec_mov_imm_reg(old(it).bytes(), old(it).position(), op_code),
{
    let wide = (op_code / 8) % 2 == 1;
    let size = if wide {
        OperandSize::Word
    } else {
        OperandSize::Byte
    };
    let register = match Register::try_from_low_bits(op_code % 8) {
        Ok(r) => r,
        Err(e) => {
            return Err(e);
        },
    };
    let value = match read_imm(it, wide) {
        Some(v) => v,
        None => {
            return Err(Error::UnexpectedEof);
        },
    };
    Ok(
        Instruction::new(
            Operation::Mov,
            OperandSet::DestinationAndSource(
                Operand(OperandType::Register(register), size),
                Operand(OperandType::Immediate(value), size),
            ),
        ),
    )
}

/// Decode a move between the accumulator and a direct address.
fn decode_mov_acc_mem<It: DataIterator>(op_code: u8, it: &mut It) -> (r: Result<
    Instruction,
    Error,
>)
    requires
        old(it).wf(),
    ensures
        final(it).wf(),
        final(it).bytes() == old(it).bytes(),
        final(it).position() >= old(it).position(),
        (r, final(it).position()) == spec_mov_acc_mem(old(it).bytes(), old(it).position(), op_code),
{
    let w = op_code % 2;
    let size = if w == 1 {
        OperandSize::Word
    } else {
        OperandSize::Byte
    };
    let to_memory = (op_code / 2) % 2 == 1;
    let offset = match it_read_u16(it) {
        Some(v) => v,
        None => {
            return Err(Error::UnexpectedEof);
        },
    };
    let acc = Operand(OperandType::Register(Register::AlAx), size);
    let mem = Operand(OperandType::Direct(offset), size);
    let operands = if to_memory {
        OperandSet::DestinationAndSource(mem, acc)
    } else {
        OperandSet::DestinationAndSource(acc, mem)
    };
    Ok(Instruction::new(Operation::Mov, operands))
}

/// Decode a port read or write with a fixed port byte.
fn decode_in_out_fixed<It: DataIterator>(op_code: u8, is_out: bool, it: &mut It) -> (r: Result<
    Instruction,
    Error,
>)
    requires
        old(it).wf(),
    ensures
        final(it).wf(),
        final(it).bytes() == old(it).bytes(),
        final(it).position() >= old(it).position(),
        (r, final(it).position()) == spec_in_out_fixed(
            old(it).bytes(),
            old(it).position(),
            op_code,
            is_out,
        ),
{
    let w = op_code % 2;
    let size = if w == 1 {
        OperandSize::Word
    } else {
        OperandSize::Byte
    };
    let port = match it.consume() {
        Some(b) => b,
        None => {
            return Err(Error::UnexpectedEof);
        },
    };
    let acc = Operand(OperandType::Register(Register::AlAx), size);
    let port_op = Operand(OperandType::Immediate(port as u16), size);
    let operands = if is_out {
        OperandSet::DestinationAndSource(port_op, acc)
    } else {
        OperandSet::DestinationAndSource(acc, port_op)
    };
    Ok(Instruction::new(if is_out { Operation::Out } else { Operation::In }, operands))
}

/// Decode a port read or write through DX.
fn decode_in_out_variable<It: DataIterator>(op_code: u8, is_out: bool, it: &mut It) -> (r: Result<
    Instruction,
    Error,
>)
    requires
        old(it).wf(),
    ensures
        final(it).wf(),
        final(it).bytes() == old(it).bytes(),
        final(it).position() == old(it).position(),
        (r, final(it).position()) == spec_in_out_variable(old(it).position(), op_code, is_out),
{
    let w = op_code % 2;
    let size = if w == 1 {
        OperandSize::Word
    } else {
        OperandSize::Byte
    };
    let acc = Operand(OperandType::Register(Register::AlAx), size);
    let port_op = Operand(OperandType::Register(Register::DlDx), OperandSize::Word);
    let operands = if is_out {
        OperandSet::DestinationAndSource(port_op, acc)
    } else {
        OperandSet::DestinationAndSource(acc, port_op)
    };
    Ok(Instruction::new(if is_out { Operation::Out } else { Operation::In }, operands))
}

/// Decode a TEST of the accumulator against an immediate.
fn decode_test_acc_imm<It: DataIterator>(op_code: u8, it: &mut It) -> (r: Result<
    Instruction,
    Error,
>)
    requires
        old(it).wf(),
    ensures
        final(it).wf(),
        final(it).bytes() == old(it).bytes(),
        final(it).position() >= old(it).position(),
        (r, final(it).position()) == spec_test_acc_imm(
            old(it).bytes(),
            old(it).position(),
            op_code,
        ),
{
    let w = op_code % 2;
    let size = if w == 1 {
        OperandSize::Word
    } else {
        OperandSize::Byte
    };
    let value = match read_imm(it, w == 1) {
        Some(v) => v,
        None => {
            return Err(Error::UnexpectedEof);
        },
    };
    Ok(
        Instruction::new(
            Operation::Test,
            OperandSet::DestinationAndSource(
                Operand(OperandType::Register(Register::AlAx), size),
                Operand(OperandType::Immediate(value), size),
            ),
        ),
    )
}

/// Decode a jump with an 8-bit displacement.
fn decode_jump_short<It: DataIterator>(operation: Operation, it: &mut It) -> (r: Result<
    Instruction,
    Error,
>)
    requires
        old(it).wf(),
    ensures
        final(it).wf(),
        final(it).bytes() == old(it).bytes(),
        final(it).position() >= old(it).position(),
        (r, final(it).position()) == spec_jump_short(old(it).bytes(), old(it).position(), operation),
{
    let displacement = match it.consume() {
        Some(b) => b,
        None => {
            return Err(Error::UnexpectedEof);
        },
    };
    Ok(Instruction::new(operation, OperandSet::Offset(displacement as u16)))
}

/// Decode the short unconditional jump, sign-extending its displacement.
fn decode_jump_short_signed<It: DataIterator>(it: &mut It) -> (r: Result<Instruction, Error>)
    requires
        old(it).wf(),
    ensures
        final(it).wf(),
        final(it).bytes() == old(it).bytes(),
        final(it).position() >= old(it).position(),
        (r, final(it).position()) == spec_jump_short_signed(old(it).bytes(), old(it).position()),
{
    let displacement = match it.consume() {
        Some(b) => b,
        None => {
            return Err(Error::UnexpectedEof);
        },
    };
    let ext: u16 = if displacement < 0x80 {
        displacement as u16
    } else {
        displacement as u16 + 0xFF00
    };
    Ok(Instruction::new(Operation::Jmp, OperandSet::Offset(ext)))
}

/// Decode a jump or call with a 16-bit displacement.
fn decode_jump_near<It: DataIterator>(operation: Operation, it: &mut It) -> (r: Result<
    Instruction,
    Error,
>)
    requires
        old(it).wf(),
    ensures
        final(it).wf(),
        final(it).bytes() == old(it).bytes(),
        final(it).position() >= old(it).position(),
        (r, final(it).position()) == spec_jump_near(old(it).bytes(), old(it).position(), operation),
{
    let displacement = match it_read_u16(it) {
        Some(v) => v,
        None => {
            return Err(Error::UnexpectedEof);
        },
    };
    Ok(Instruction::new(operation, OperandSet::Offset(displacement)))
}

/// Decode the far jump: offset, then segment.
fn decode_jump_far<It: DataIterator>(it: &mut It) -> (r: Result<Instruction, Error>)
    requires
        old(it).wf(),
    ensures
        final(it).wf(),
        final(it).bytes() == old(it).bytes(),
        final(it).position() >= old(it).position(),
        (r, final(it).position()) == spec_jump_far(old(it).bytes(), old(it).position()),
{
    let offset = match it_read_u16(it) {
        Some(v) => v,
        None => {
            return Err(Error::UnexpectedEof);
        },
    };
    let segment = match it_read_u16(it) {
        Some(v) => v,
        None => {
            return Err(Error::UnexpectedEof);
        },
    };
    Ok(Instruction::new(Operation::Jmp, OperandSet::SegmentAndOffset(segment, offset)))
}

/// Decode a software interrupt with its type byte.
fn decode_int<It: DataIterator>(it: &mut It) -> (r: Result<Instruction, Error>)
    requires
        old(it).wf(),
    ensures
        final(it).wf(),
        final(it).bytes() == old(it).bytes(),
        final(it).position() >= old(it).position(),
        (r, final(it).position()) == spec_int(old(it).bytes(), old(it).position()),
{
    let ty = match it.consume() {
        Some(b) => b,
        None => {
            return Err(Error::UnexpectedEof);
        },
    };
    Ok(
        Instruction::new(
            Operation::Int,
            OperandSet::Destination(Operand(OperandType::Immediate(ty as u16), OperandSize::Byte)),
        ),
    )
}

/// Build a one-register instruction for the short PUSH, POP, INC and DEC
/// forms.
fn reg_destination(operation: Operation, reg_bits: u8) -> (r: Result<Instruction, Error>)
    requires
        reg_bits < 8,
    ensures
        r == Ok::<Instruction, Error>(spec_reg_destination(operation, reg_bits)),
{
    let register = match Register::try_from_low_bits(reg_bits) {
        Ok(v) => v,
        Err(_) => {
            return Err(Error::InvalidRegisterEncoding(reg_bits));
        },
    };
    Ok(
        Instruction::new(
            operation,
            OperandSet::Destination(Operand(OperandType::Register(register), OperandSize::Word)),
        ),
    )
}

/// Build a one-segment-register instruction for PUSH and POP of a segment.
fn seg_destination(operation: Operation, seg_bits: u8) -> (r: Result<Instruction, Error>)
    requires
        seg_bits < 4,
    ensures
        r == Ok::<Instruction, Error>(spec_seg_destination(operation, seg_bits)),
{
    let segment = match Segment::try_from_low_bits(seg_bits) {
        Ok(v) => v,
        Err(_) => {
            return Err(Error::InvalidSegmentEncoding(seg_bits));
        },
    };
    Ok(
        Instruction::new(
            operation,
            OperandSet::Destination(Operand(OperandType::Segment(segment), OperandSize::Word)),
        ),
    )
}


/// Decode one instruction of the `0xF6`/`0xF7` group.
fn decode_group_f6<It: DataIterator>(op_code: u8, it: &mut It) -> (r: Result<Instruction, Error>)
    requires
        old(it).wf(),
    ensures
        final(it).wf(),
        final(it).bytes() == old(it).bytes(),
        final(it).position() >= old(it).position(),
        (r, final(it).position()) == spec_group_f6(old(it).bytes(), old(it).position(), op_code),
{
    let w = op_code % 2;
    let size = if w == 1 {
        OperandSize::Word
    } else {
        OperandSize::Byte
    };
    let modrm = match read_modrm(it) {
        Ok(m) => m,
        Err(e) => {
            return Err(e);
        },
    };
    let rm_op = Operand(OperandType::from(modrm.register_or_memory), size);
    match modrm.register {
        Register::AlAx | Register::ClCx => {
            let value = match read_imm(it, w == 1) {
                Some(v) => v,
                None => {
                    return Err(Error::UnexpectedEof);
                },
            };
            Ok(
                Instruction::new(
                    Operation::Test,
                    OperandSet::DestinationAndSource(
                        rm_op,
                        Operand(OperandType::Immediate(value), size),
                    ),
                ),
            )
        },
        Register::DlDx => Ok(Instruction::new(Operation::Not, OperandSet::Destination(rm_op))),
        Register::BlBx => Ok(Instruction::new(Operation::Neg, OperandSet::Destination(rm_op))),
        Register::AhSp => Ok(Instruction::new(Operation::Mul, OperandSet::Destination(rm_op))),
        Register::ChBp => Ok(Instruction::new(Operation::Imul, OperandSet::Destination(rm_op))),
        Register::DhSi => Ok(Instruction::new(Operation::Div, OperandSet::Destination(rm_op))),
        Register::BhDi => Ok(Instruction::new(Operation::Idiv, OperandSet::Destination(rm_op))),
    }
}

/// Decode one instruction of the shift group `0xD0..0xD3`.
fn decode_shift_group<It: DataIterator>(op_code: u8, it: &mut It) -> (r: Result<
    Instruction,
    Error,
>)
    requires
        old(it).wf(),
    ensures
        final(it).wf(),
        final(it).bytes() == old(it).bytes(),
        final(it).position() >= old(it).position(),
        (r, final(it).position()) == spec_shift_group(
            old(it).bytes(),
            old(it).position(),
            op_code,
        ),
{
    let w = op_code % 2;
    let size = if w == 1 {
        OperandSize::Word
    } else {
        OperandSize::Byte
    };
    let by_cl = (op_code / 2) % 2 == 1;
    let modrm_byte = match it.consume() {
        Some(b) => b,
        None => {
            return Err(Error::UnexpectedEof);
        },
    };
    let modrm = match Modrm::try_from_byte(modrm_byte, it) {
        Ok(m) => m,
        Err(e) => {
            return Err(e);
        },
    };
    let operation = match modrm.register {
        Register::AlAx => Operation::Rol,
        Register::ClCx => Operation::Ror,
        Register::DlDx => Operation::Rcl,
        Register::BlBx => Operation::Rcr,
        Register::AhSp => Operation::Shl,
        Register::ChBp => Operation::Shr,
        Register::DhSi => {
            return Err(Error::InvalidModRmEncoding(modrm_byte));
        },
        Register::BhDi => Operation::Sar,
    };
    let rm_op = Operand(OperandType::from(modrm.register_or_memory), size);
    let count = if by_cl {
        Operand(OperandType::Register(Register::ClCx), OperandSize::Byte)
    } else {
        Operand(OperandType::Immediate(1), OperandSize::Byte)
    };
    Ok(Instruction::new(operation, OperandSet::DestinationAndSource(rm_op, count)))
}

/// Decode a TEST or XCHG of a register against a register-or-memory
/// reference.
fn decode_test_xchg<It: DataIterator>(op_code: u8, it: &mut It) -> (r: Result<Instruction, Error>)
    requires
        old(it).wf(),
    ensures
        final(it).wf(),
        final(it).bytes() == old(it).bytes(),
        final(it).position() >= old(it).position(),
        (r, final(it).position()) == spec_test_xchg(old(it).bytes(), old(it).position(), op_code),
{
    let w = op_code % 2;
    let size = if w == 1 {
        OperandSize::Word
    } else {
        OperandSize::Byte
    };
    let operation = if op_code >= 0x86 {
        Operation::Xchg
    } else {
        Operation::Test
    };
    let modrm = match read_modrm(it) {
        Ok(m) => m,
        Err(e) => {
            return Err(e);
        },
    };
    Ok(
        Instruction::new(
            operation,
            OperandSet::DestinationAndSource(
                Operand(OperandType::from(modrm.register_or_memory), size),
                Operand(OperandType::Register(modrm.register), size),
            ),
        ),
    )
}

/// Decode LEA, LDS or LES: a word register and a memory reference.
fn decode_load_pointer<It: DataIterator>(operation: Operation, it: &mut It) -> (r: Result<
    Instruction,
    Error,
>)
    requires
        old(it).wf(),
    ensures
        final(it).wf(),
        final(it).bytes() == old(it).bytes(),
        final(it).position() >= old(it).position(),
        (r, final(it).position()) == spec_load_pointer(
            old(it).bytes(),
            old(it).position(),
            operation,
        ),
{
    let modrm_byte = match it.consume() {
        Some(b) => b,
        None => {
            return Err(Error::UnexpectedEof);
        },
    };
    let modrm = match Modrm::try_from_byte(modrm_byte, it) {
        Ok(m) => m,
        Err(e) => {
            return Err(e);
        },
    };
    if matches!(modrm.register_or_memory, crate::modrm::RegisterOrMemory::Register(_)) {
        return Err(Error::InvalidModRmEncoding(modrm_byte));
    }
    Ok(
        Instruction::new(
            operation,
            OperandSet::DestinationAndSource(
                Operand(OperandType::Register(modrm.register), OperandSize::Word),
                Operand(OperandType::from(modrm.register_or_memory), OperandSize::Word),
            ),
        ),
    )
}

/// Decode POP of a register-or-memory destination.
fn decode_pop_rm<It: DataIterator>(it: &mut It) -> (r: Result<Instruction, Error>)
    requires
        old(it).wf(),
    ensures
        final(it).wf(),
        final(it).bytes() == old(it).bytes(),
        final(it).position() >= old(it).position(),
        (r, final(it).position()) == spec_pop_rm(old(it).bytes(), old(it).position()),
{
    let modrm_byte = match it.consume() {
        Some(b) => b,
        None => {
            return Err(Error::UnexpectedEof);
        },
    };
    let modrm = match Modrm::try_from_byte(modrm_byte, it) {
        Ok(m) => m,
        Err(e) => {
            return Err(e);
        },
    };
    if matches!(modrm.register, Register::AlAx) {
        Ok(
            Instruction::new(
                Operation::Pop,
                OperandSet::Destination(
                    Operand(OperandType::from(modrm.register_or_memory), OperandSize::Word),
                ),
            ),
        )
    } else {
        Err(Error::InvalidModRmEncoding(modrm_byte))
    }
}

/// Decode one instruction of the `0xFE`/`0xFF` group.
fn decode_inc_dec_group<It: DataIterator>(op_code: u8, it: &mut It) -> (r: Result<
    Instruction,
    Error,
>)
    requires
        old(it).wf(),
    ensures
        final(it).wf(),
        final(it).bytes() == old(it).bytes(),
        final(it).position() >= old(it).position(),
        (r, final(it).position()) == spec_inc_dec_group(
            old(it).bytes(),
            old(it).position(),
            op_code,
        ),
{
    let w = op_code % 2;
    let size = if w == 1 {
        OperandSize::Word
    } else {
        OperandSize::Byte
    };
    let modrm_byte = match it.consume() {
        Some(b) => b,
        None => {
            return Err(Error::UnexpectedEof);
        },
    };
    let modrm = match Modrm::try_from_byte(modrm_byte, it) {
        Ok(m) => m,
        Err(e) => {
            return Err(e);
        },
    };
    let rm_op = Operand(OperandType::from(modrm.register_or_memory), size);
    match modrm.register {
        Register::AlAx => Ok(Instruction::new(Operation::Inc, OperandSet::Destination(rm_op))),
        Register::ClCx => Ok(Instruction::new(Operation::Dec, OperandSet::Destination(rm_op))),
        Register::DlDx => {
            if w == 1 {
                Ok(Instruction::new(Operation::Call, OperandSet::Destination(rm_op)))
            } else {
                Err(Error::InvalidModRmEncoding(modrm_byte))
            }
        },
        Register::AhSp => {
            if w == 1 {
                Ok(Instruction::new(Operation::Jmp, OperandSet::Destination(rm_op)))
            } else {
                Err(Error::InvalidModRmEncoding(modrm_byte))
            }
        },
        Register::DhSi => {
            if w == 1 {
                Ok(Instruction::new(Operation::Push, OperandSet::Destination(rm_op)))
            } else {
                Err(Error::InvalidModRmEncoding(modrm_byte))
            }
        },
        _ => Err(Error::InvalidModRmEncoding(modrm_byte)),
    }
}

/// Decode the far call: offset, then segment.
fn decode_call_far<It: DataIterator>(it: &mut It) -> (r: Result<Instruction, Error>)
    requires
        old(it).wf(),
    ensures
        final(it).wf(),
        final(it).bytes() == old(it).bytes(),
        final(it).position() >= old(it).position(),
        (r, final(it).position()) == spec_call_far(old(it).bytes(), old(it).position()),
{
    let offset = match it_read_u16(it) {
        Some(v) => v,
        None => {
            return Err(Error::UnexpectedEof);
        },
    };
    let segment = match it_read_u16(it) {
        Some(v) => v,
        None => {
            return Err(Error::UnexpectedEof);
        },
    };
    Ok(Instruction::new(Operation::Call, OperandSet::SegmentAndOffset(segment, offset)))
}

/// Decode the near return with a stack adjustment.
fn decode_ret_imm<It: DataIterator>(it: &mut It) -> (r: Result<Instruction, Error>)
    requires
        old(it).wf(),
    ensures
        final(it).wf(),
        final(it).bytes() == old(it).bytes(),
        final(it).position() >= old(it).position(),
        (r, final(it).position()) == spec_ret_imm(old(it).bytes(), old(it).position()),
{
    let v = match it_read_u16(it) {
        Some(v) => v,
        None => {
            return Err(Error::UnexpectedEof);
        },
    };
    Ok(
        Instruction::new(
            Operation::Ret,
            OperandSet::Destination(Operand(OperandType::Immediate(v), OperandSize::Word)),
        ),
    )
}

/// Decode a far return, with or without a stack adjustment.
fn decode_ret_far<It: DataIterator>(with_imm: bool, it: &mut It) -> (r: Result<
    Instruction,
    Error,
>)
    requires
        old(it).wf(),
    ensures
        final(it).wf(),
        final(it).bytes() == old(it).bytes(),
        final(it).position() >= old(it).position(),
        (r, final(it).position()) == spec_ret_far(old(it).bytes(), old(it).position(), with_imm),
{
    if with_imm {
        let v = match it_read_u16(it) {
            Some(v) => v,
            None => {
                return Err(Error::UnexpectedEof);
            },
        };
        Ok(Instruction::new(Operation::Ret, OperandSet::Offset(v)))
    } else {
        Ok(Instruction::new(Operation::Ret, OperandSet::Offset(0)))
    }
}

/// Decode an ASCII adjust with its base byte.
fn decode_ascii_adjust<It: DataIterator>(operation: Operation, it: &mut It) -> (r: Result<
    Instruction,
    Error,
>)
    requires
        old(it).wf(),
    ensures
        final(it).wf(),
        final(it).bytes() == old(it).bytes(),
        final(it).position() >= old(it).position(),
        (r, final(it).position()) == spec_ascii_adjust(
            old(it).bytes(),
            old(it).position(),
            operation,
        ),
{
    let base = match it.consume() {
        Some(b) => b,
        None => {
            return Err(Error::UnexpectedEof);
        },
    };
    Ok(
        Instruction::new(
            operation,
            OperandSet::Destination(
                Operand(OperandType::Immediate(base as u16), OperandSize::Byte),
            ),
        ),
    )
}

/// Dispatch one non-prefix opcode byte, already consumed from the stream.
fn decode_op<It: DataIterator>(op: u8, it: &mut It) -> (r: Result<Instruction, Error>)
    requires
        old(it).wf(),
    ensures
        final(it).wf(),
        final(it).bytes() == old(it).bytes(),
        final(it).position() >= old(it).position(),
        (r, final(it).position()) == spec_decode_op(old(it).bytes(), old(it).position(), op),
{
    if op < 0x40 {
        let row = op / 8;
        let col = op % 8;
        let operation = match row {
            0 => Operation::Add,
            1 => Operation::Or,
            2 => Operation::Adc,
            3 => Operation::Sbb,
            4 => Operation::And,
            5 => Operation::Sub,
            6 => Operation::Xor,
            _ => Operation::Cmp,
        };
        if col <= 3 {
            decode_rm_reg(op, operation, it)
        } else if col <= 5 {
            decode_acc_imm(op, operation, it)
        } else if row <= 3 {
            if col == 6 {
                seg_destination(Operation::Push, row)
            } else {
                seg_destination(Operation::Pop, row)
            }
        } else if col == 7 {
            let operation = match row {
                4 => Operation::Baa,
                5 => Operation::Das,
                6 => Operation::Aaa,
                _ => Operation::Aas,
            };
            Ok(Instruction::new(operation, OperandSet::Empty))
        } else {
            Err(Error::InvalidOpCode(op))
        }
    } else if op < 0x48 {
        reg_destination(Operation::Inc, op % 8)
    } else if op < 0x50 {
        reg_destination(Operation::Dec, op % 8)
    } else if op < 0x58 {
        reg_destination(Operation::Push, op % 8)
    } else if op < 0x60 {
        reg_destination(Operation::Pop, op % 8)
    } else if 0x70 <= op && op < 0x80 {
        let low = op % 16;
        let operation = match low {
            0 => Operation::Jo,
            1 => Operation::Jno,
            2 => Operation::Jb,
            3 => Operation::Jnb,
            4 => Operation::Je,
            5 => Operation::Jne,
            6 => Operation::Jbe,
            7 => Operation::Jnbe,
            8 => Operation::Js,
            9 => Operation::Jns,
            10 => Operation::Jp,
            11 => Operation::Jnp,
            12 => Operation::Jl,
            13 => Operation::Jnl,
            14 => Operation::Jle,
            _ => Operation::Jnle,
        };
        decode_jump_short(operation, it)
    } else if 0x80 <= op && op <= 0x83 {
        decode_group_imm(op, it)
    } else if 0x84 <= op && op <= 0x87 {
        decode_test_xchg(op, it)
    } else if 0x88 <= op && op <= 0x8B {
        decode_rm_reg(op, Operation::Mov, it)
    } else if op == 0x8C {
        decode_mov_seg(false, it)
    } else if op == 0x8D {
        decode_load_pointer(Operation::Lea, it)
    } else if op == 0x8E {
        decode_mov_seg(true, it)
    } else if op == 0x8F {
        decode_pop_rm(it)
    } else if 0x90 <= op && op <= 0x97 {
        let register = match Register::try_from_low_bits(op % 8) {
            Ok(r) => r,
            Err(e) => {
                return Err(e);
            },
        };
        Ok(
            Instruction::new(
                Operation::Xchg,
                OperandSet::DestinationAndSource(
                    Operand(OperandType::Register(Register::AlAx), OperandSize::Word),
                    Operand(OperandType::Register(register), OperandSize::Word),
                ),
            ),
        )
    } else if op == 0x98 {
        Ok(Instruction::new(Operation::Cbw, OperandSet::Empty))
    } else if op == 0x99 {
        Ok(Instruction::new(Operation::Cwd, OperandSet::Empty))
    } else if op == 0x9A {
        decode_call_far(it)
    } else if op == 0x9B {
        Ok(Instruction::new(Operation::Wait, OperandSet::Empty))
    } else if op == 0x9C {
        Ok(Instruction::new(Operation::Pushf, OperandSet::Empty))
    } else if op == 0x9D {
        Ok(Instruction::new(Operation::Popf, OperandSet::Empty))
    } else if op == 0x9E {
        Ok(Instruction::new(Operation::Sahf, OperandSet::Empty))
    } else if op == 0x9F {
        Ok(Instruction::new(Operation::Lahf, OperandSet::Empty))
    } else if 0xA0 <= op && op <= 0xA3 {
        decode_mov_acc_mem(op, it)
    } else if 0xA4 <= op && op <= 0xA7 || 0xAA <= op && op <= 0xAF {
        let operation = match op {
            0xA4 => Operation::Movsb,
            0xA5 => Operation::Movsw,
            0xA6 => Operation::Cmpsb,
            0xA7 => Operation::Cmpsw,
            0xAA => Operation::Stosb,
            0xAB => Operation::Stosw,
            0xAC => Operation::Lodsb,
            0xAD => Operation::Lodsw,
            0xAE => Operation::Scasb,
            _ => Operation::Scasw,
        };
        Ok(Instruction::new(operation, OperandSet::Empty))
    } else if op == 0xA8 || op == 0xA9 {
        decode_test_acc_imm(op, it)
    } else if 0xB0 <= op && op <= 0xBF {
        decode_mov_imm_reg(op, it)
    } else if op == 0xC2 {
        decode_ret_imm(it)
    } else if op == 0xC3 {
        Ok(Instruction::new(Operation::Ret, OperandSet::Empty))
    } else if op == 0xC4 {
        decode_load_pointer(Operation::Les, it)
    } else if op == 0xC5 {
        decode_load_pointer(Operation::Lds, it)
    } else if op == 0xC6 || op == 0xC7 {
        decode_mov_imm_rm(op, it)
    } else if op == 0xCA {
        decode_ret_far(true, it)
    } else if op == 0xCB {
        decode_ret_far(false, it)
    } else if op == 0xCC {
        Ok(
            Instruction::new(
                Operation::Int,
                OperandSet::Destination(
                    Operand(OperandType::Immediate(3), OperandSize::Byte),
                ),
            ),
        )
    } else if op == 0xCD {
        decode_int(it)
    } else if op == 0xCE {
        Ok(Instruction::new(Operation::Into, OperandSet::Empty))
    } else if op == 0xCF {
        Ok(Instruction::new(Operation::IRet, OperandSet::Empty))
    } else if 0xD0 <= op && op <= 0xD3 {
        decode_shift_group(op, it)
    } else if op == 0xD4 {
        decode_ascii_adjust(Operation::Aam, it)
    } else if op == 0xD5 {
        decode_ascii_adjust(Operation::Aad, it)
    } else if op == 0xD7 {
        Ok(Instruction::new(Operation::Xlat, OperandSet::Empty))
    } else if 0xD8 <= op && op <= 0xDF {
        Ok(Instruction::new(Operation::Esc, OperandSet::Empty))
    } else if 0xE0 <= op && op <= 0xE3 {
        let operation = match op {
            0xE0 => Operation::Loopnz,
            0xE1 => Operation::Loopz,
            0xE2 => Operation::Loop,
            _ => Operation::Jcxz,
        };
        decode_jump_short(operation, it)
    } else if op == 0xE4 || op == 0xE5 {
        decode_in_out_fixed(op, false, it)
    } else if op == 0xE6 || op == 0xE7 {
        decode_in_out_fixed(op, true, it)
    } else if op == 0xE8 {
        decode_jump_near(Operation::Call, it)
    } else if op == 0xE9 {
        decode_jump_near(Operation::Jmp, it)
    } else if op == 0xEA {
        decode_jump_far(it)
    } else if op == 0xEB {
        decode_jump_short_signed(it)
    } else if op == 0xEC || op == 0xED {
        decode_in_out_variable(op, false, it)
    } else if op == 0xEE || op == 0xEF {
        decode_in_out_variable(op, true, it)
    } else if op == 0xF6 || op == 0xF7 {
        decode_group_f6(op, it)
    } else if op == 0xFE || op == 0xFF {
        decode_inc_dec_group(op, it)
    } else if op == 0xF0 || op == 0xF4 || op == 0xF5 || op == 0xF8 || op == 0xF9 || op == 0xFA
        || op == 0xFB || op == 0xFC || op == 0xFD {
        let operation = match op {
            0xF0 => Operation::Lock,
            0xF4 => Operation::Hlt,
            0xF5 => Operation::Cmc,
            0xF8 => Operation::Clc,
            0xF9 => Operation::Stc,
            0xFA => Operation::Cli,
            0xFB => Operation::Sti,
            0xFC => Operation::Cld,
            _ => Operation::Std,
        };
        Ok(Instruction::new(operation, OperandSet::Empty))
    } else {
        Err(Error::InvalidOpCode(op))
    }
}

/// Decode one instruction, allowing up to `budget` further prefix bytes.
fn decode_prefixed<It: DataIterator>(it: &mut It, budget: u8) -> (r: Result<Instruction, Error>)
    requires
        old(it).wf(),
    ensures
        final(it).wf(),
        final(it).bytes() == old(it).bytes(),
        final(it).position() >= old(it).position(),
        (r, final(it).position()) == spec_decode_at(
            old(it).bytes(),
            old(it).position(),
            budget as nat,
        ),
        r is Ok ==> final(it).position() > old(it).position(),
    decreases budget,
{
    let op = match it.consume() {
        Some(b) => b,
        None => {
            return Err(Error::UnexpectedEof);
        },
    };
    if op == 0xF2 || op == 0xF3 {
        if budget == 0 {
            return Err(Error::InvalidOpCode(op));
        }
        match decode_prefixed(it, budget - 1) {
            Ok(mut instruction) => {
                if instruction.repeat.is_none() {
                    instruction.repeat = Some(
                        if op == 0xF2 {
                            Repeat::NotEqual
                        } else {
                            Repeat::Equal
                        },
                    );
                }
                Ok(instruction)
            },
            Err(e) => Err(e),
        }
    } else if op == 0x26 || op == 0x2E || op == 0x36 || op == 0x3E {
        if budget == 0 {
            return Err(Error::InvalidOpCode(op));
        }
        let segment = match Segment::try_from_low_bits((op / 8) % 4) {
            Ok(s) => s,
            Err(_) => {
                return Err(Error::InvalidOpCode(op));
            },
        };
        match decode_prefixed(it, budget - 1) {
            Ok(mut instruction) => {
                if instruction.segment_override.is_none() {
                    instruction.segment_override = Some(segment);
                }
                Ok(instruction)
            },
            Err(e) => Err(e),
        }
    } else {
        decode_op(op, it)
    }
}

/// Decode one instruction from the front of the stream.
///
/// The contract pins the result and the new cursor position to the spec
/// decoder `spec_decode`, and states that a successful decode always moves
/// the cursor forward: the bytes consumed are exactly the instruction's
/// encoding length.
pub fn decode_instruction<It: DataIterator>(it: &mut It) -> (r: Result<Instruction, Error>)
    requires
        old(it).wf(),
    ensures
        final(it).wf(),
        final(it).bytes() == old(it).bytes(),
        final(it).position() >= old(it).position(),
        (r, final(it).position()) == spec_decode(old(it).bytes(), old(it).position()),
        r is Ok ==> final(it).position() > old(it).position(),
{
    decode_prefixed(it, PREFIX_LIMIT)
}

} // verus!
