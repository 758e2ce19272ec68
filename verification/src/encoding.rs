//! A compact view of the encoding fields: raw register and memory field
//! codes read straight out of bytes, and a minimal slice-based decoder for
//! the register-to-register arithmetic family built directly on them.

use vstd::prelude::*;

use crate::x86::{
    AddressingMode, Instruction, Operand, OperandSet, OperandSize, OperandType, Operation, Register,
};
use crate::modrm::{addressing_mode_from_bits, register_from_bits};
use crate::text::{push_hex_byte_lower, spec_hex_byte_lower};
use vstd::slice::slice_index_get;

verus! {

/// The register named by a raw 3-bit field.
pub type RegisterEncoding = Register;

/// The register combination named by a raw 3-bit `r/m` field.
pub type IndirectMemoryEncoding = AddressingMode;

/// Everything that can go wrong in the compact decoder.
#[derive(Clone, Copy, Debug, PartialEq, Eq, Structural)]
pub enum DecodeError {
    InvalidOpCode(u8),
    InvalidRegisterEncoding(u8),
    InvalidIndirectMemoryOffset(u8),
    InvalidModRMEncoding(u8),
    InvalidModRMMode(u8),
    CouldNotCreateOperandFromModRMEncoding(ModRMEncoding),
    CouldNotReadExtraBytes,
}

impl DecodeError {
    /// A short description, as bytes of ASCII text.
    pub fn to_text(&self) -> (r: Vec<u8>)
        ensures
            r@ == spec_decode_error_text(*self),
    {
        let mut out: Vec<u8> = Vec::new();
        match self {
            DecodeError::InvalidOpCode(op_code) => {
                push_str_bytes(&mut out, 0);
                push_hex_byte_lower(&mut out, *op_code);
            },
            _ => {
                push_str_bytes(&mut out, 1);
            },
        }
        out
    }
}

/// The text `DecodeError::to_text` yields: the opcode complaint carries the
/// offending byte in hex, everything else is reported uniformly.
pub open spec fn spec_decode_error_text(e: DecodeError) -> Seq<u8> {
    match e {
        DecodeError::InvalidOpCode(op_code) => str_bytes_table(0) + spec_hex_byte_lower(op_code),
        _ => str_bytes_table(1),
    }
}

/// Fixed phrases used by `DecodeError::to_text`.
pub open spec fn str_bytes_table(which: int) -> Seq<u8> {
    if which == 0 {
        seq![
            0x69, 0x6e, 0x76, 0x61, 0x6c, 0x69, 0x64, 0x20, 0x6f, 0x70, 0x20, 0x63, 0x6f, 0x64,
            0x65, 0x3a, 0x20, 0x30, 0x78,
        ]
    } else {
        seq![
            0x75, 0x6e, 0x6b, 0x6e, 0x6f, 0x77, 0x6e, 0x20, 0x65, 0x72, 0x72, 0x6f, 0x72,
        ]
    }
}

/// Append one fixed phrase to `out`.
fn push_str_bytes(out: &mut Vec<u8>, which: usize)
    requires
        which < 2,
    ensures
        final(out)@ == old(out)@ + str_bytes_table(which as int),
{
    if which == 0 {
        out.push(0x69);
        out.push(0x6e);
        out.push(0x76);
        out.push(0x61);
        out.push(0x6c);
        out.push(0x69);
        out.push(0x64);
        out.push(0x20);
        out.push(0x6f);
        out.push(0x70);
        out.push(0x20);
        out.push(0x63);
        out.push(0x6f);
        out.push(0x64);
        out.push(0x65);
        out.push(0x3a);
        out.push(0x20);
        out.push(0x30);
        out.push(0x78);
        assert(out@ =~= old(out)@ + str_bytes_table(which as int));
    } else {
        out.push(0x75);
        out.push(0x6e);
        out.push(0x6b);
        out.push(0x6e);
        out.push(0x6f);
        out.push(0x77);
        out.push(0x6e);
        out.push(0x20);
        out.push(0x65);
        out.push(0x72);
        out.push(0x72);
        out.push(0x6f);
        out.push(0x72);
        assert(out@ =~= old(out)@ + str_bytes_table(which as int));
    }
}

impl Register {
    /// The register named by a raw 3-bit field, values above 7 rejected.
    pub fn try_from_byte(byte: u8) -> (r: Result<Self, DecodeError>)
        ensures
            byte < 8 ==> r == Ok::<Register, DecodeError>(register_from_bits(byte)),
            byte >= 8 ==> r == Err::<Register, DecodeError>(
                DecodeError::InvalidRegisterEncoding(byte),
            ),
    {
        match byte {
            0 => Ok(Register::AlAx),
            1 => Ok(Register::ClCx),
            2 => Ok(Register::DlDx),
            3 => Ok(Register::BlBx),
            4 => Ok(Register::AhSp),
            5 => Ok(Register::ChBp),
            6 => Ok(Register::DhSi),
            7 => Ok(Register::BhDi),
            _ => Err(DecodeError::InvalidRegisterEncoding(byte)),
        }
    }
}

impl AddressingMode {
    /// The register combination named by a raw 3-bit field, values above 7
    /// rejected.
    pub fn try_from_byte(byte: u8) -> (r: Result<Self, DecodeError>)
        ensures
            byte < 8 ==> r == Ok::<AddressingMode, DecodeError>(addressing_mode_from_bits(byte)),
            byte >= 8 ==> r == Err::<AddressingMode, DecodeError>(
                DecodeError::InvalidIndirectMemoryOffset(byte),
            ),
    {
        match byte {
            0 => Ok(AddressingMode::BxSi),
            1 => Ok(AddressingMode::BxDi),
            2 => Ok(AddressingMode::BpSi),
            3 => Ok(AddressingMode::BpDi),
            4 => Ok(AddressingMode::Si),
            5 => Ok(AddressingMode::Di),
            6 => Ok(AddressingMode::Bp),
            7 => Ok(AddressingMode::Bx),
            _ => Err(DecodeError::InvalidIndirectMemoryOffset(byte)),
        }
    }
}

/// A register-or-memory reference in compact form.  `mod == 00` with
/// `r/m == 110` is not a `[BP]` base but a direct 16-bit address, read
/// from the two bytes that follow.
#[derive(Clone, Copy, Debug, PartialEq, Eq, Structural)]
pub enum ModRMEncoding {
    Direct(u16),
    Indirect(IndirectMemoryEncoding),
    DisplacementByte(IndirectMemoryEncoding, u8),
    DisplacementWord(IndirectMemoryEncoding, u16),
    Register(RegisterEncoding),
}

/// What `ModRMEncoding::try_from_byte` yields from a mode-and-`r/m` byte and
/// the displacement bytes that follow it.
pub open spec fn spec_modrm_encoding_from_byte(byte: u8, extra: Seq<u8>) -> Result<
    ModRMEncoding,
    DecodeError,
> {
    let mode = byte / 64;
    let rm = byte % 8;
    if mode == 0 {
        if rm == 6 {
            if extra.len() >= 2 {
                Ok(ModRMEncoding::Direct(crate::stream::word_le(extra[0], extra[1])))
            } else {
                Err(DecodeError::CouldNotReadExtraBytes)
            }
        } else {
            Ok(ModRMEncoding::Indirect(addressing_mode_from_bits(rm)))
        }
    } else if mode == 1 {
        if extra.len() >= 1 {
            Ok(ModRMEncoding::DisplacementByte(addressing_mode_from_bits(rm), extra[0]))
        } else {
            Err(DecodeError::CouldNotReadExtraBytes)
        }
    } else if mode == 2 {
        if extra.len() >= 2 {
            Ok(ModRMEncoding::DisplacementWord(
                addressing_mode_from_bits(rm),
                crate::stream::word_le(extra[0], extra[1]),
            ))
        } else {
            Err(DecodeError::CouldNotReadExtraBytes)
        }
    } else {
        Ok(ModRMEncoding::Register(register_from_bits(rm)))
    }
}

impl ModRMEncoding {
    /// Resolve the mode and `r/m` fields of a ModR/M byte, pulling the
    /// displacement the mode calls for from `extra_bytes`.
    pub fn try_from_byte(byte: u8, extra_bytes: &[u8]) -> (r: Result<Self, DecodeError>)
        ensures
            r == spec_modrm_encoding_from_byte(byte, extra_bytes@),
    {
        let mode = byte / 64;
        let rm = byte % 8;
        match mode {
            0 => {
                if rm == 6 {
                    if extra_bytes.len() >= 2 {
                        let lo = *slice_index_get(extra_bytes, 0);
                        let hi = *slice_index_get(extra_bytes, 1);
                        Ok(ModRMEncoding::Direct(lo as u16 + hi as u16 * 0x100))
                    } else {
                        Err(DecodeError::CouldNotReadExtraBytes)
                    }
                } else {
                    match AddressingMode::try_from_byte(rm) {
                        Ok(encoding) => Ok(ModRMEncoding::Indirect(encoding)),
                        Err(e) => Err(e),
                    }
                }
            },
            1 => {
                let encoding = match AddressingMode::try_from_byte(rm) {
                    Ok(encoding) => encoding,
                    Err(e) => {
                        return Err(e);
                    },
                };
                if extra_bytes.len() >= 1 {
                    Ok(ModRMEncoding::DisplacementByte(encoding, *slice_index_get(extra_bytes, 0)))
                } else {
                    Err(DecodeError::CouldNotReadExtraBytes)
                }
            },
            2 => {
                let encoding = match AddressingMode::try_from_byte(rm) {
                    Ok(encoding) => encoding,
                    Err(e) => {
                        return Err(e);
                    },
                };
                if extra_bytes.len() >= 2 {
                    let lo = *slice_index_get(extra_bytes, 0);
                    let hi = *slice_index_get(extra_bytes, 1);
                    Ok(ModRMEncoding::DisplacementWord(encoding, lo as u16 + hi as u16 * 0x100))
                } else {
                    Err(DecodeError::CouldNotReadExtraBytes)
                }
            },
            _ => {
                match Register::try_from_byte(rm) {
                    Ok(register) => Ok(ModRMEncoding::Register(register)),
                    Err(e) => Err(e),
                }
            },
        }
    }
}

/// A whole ModR/M byte in compact form: the register-or-memory half and the
/// register half.
#[derive(Clone, Copy, Debug, PartialEq, Eq, Structural)]
pub struct ModRM(pub ModRMEncoding, pub RegisterEncoding);

/// What `ModRM::try_from_mod_rm_byte` yields: the register from bits 3..6,
/// the register-or-memory half from the mode and `r/m` fields.
pub open spec fn spec_modrm_compact_from_byte(byte: u8, extra: Seq<u8>) -> Result<
    ModRM,
    DecodeError,
> {
    match spec_modrm_encoding_from_byte(byte, extra) {
        Ok(encoding) => Ok(ModRM(encoding, register_from_bits((byte / 8) % 8))),
        Err(e) => Err(e),
    }
}

impl ModRM {
    /// Resolve a whole ModR/M byte in compact form.
    pub fn try_from_mod_rm_byte(mod_rm_byte: u8, extra_bytes: &[u8]) -> (r: Result<
        Self,
        DecodeError,
    >)
        ensures
            r == spec_modrm_compact_from_byte(mod_rm_byte, extra_bytes@),
    {
        let encoding = match ModRMEncoding::try_from_byte(mod_rm_byte, extra_bytes) {
            Ok(encoding) => encoding,
            Err(e) => {
                return Err(e);
            },
        };
        let register = match Register::try_from_byte((mod_rm_byte / 8) % 8) {
            Ok(register) => register,
            Err(e) => {
                return Err(e);
            },
        };
        Ok(ModRM(encoding, register))
    }
}

/// The operand a compact register-or-memory form stands for.  The direct
/// and displacement-free forms translate; the others are reported back.
pub open spec fn spec_operand_from_mod_rm_encoding(encoding: ModRMEncoding) -> Result<
    OperandType,
    DecodeError,
> {
    match encoding {
        ModRMEncoding::Direct(offset) => Ok(OperandType::Direct(offset)),
        ModRMEncoding::Indirect(e) => Ok(OperandType::Indirect(e, 0)),
        ModRMEncoding::Register(r) => Ok(OperandType::Register(r)),
        _ => Err(DecodeError::CouldNotCreateOperandFromModRMEncoding(encoding)),
    }
}

impl OperandType {
    /// The operand a compact register-or-memory form stands for.
    pub fn from_mod_rm_encoding(encoding: ModRMEncoding) -> (r: Result<Self, DecodeError>)
        ensures
            r == spec_operand_from_mod_rm_encoding(encoding),
    {
        match encoding {
            ModRMEncoding::Direct(offset) => Ok(OperandType::Direct(offset)),
            ModRMEncoding::Indirect(e) => Ok(OperandType::Indirect(e, 0)),
            ModRMEncoding::Register(register) => Ok(OperandType::Register(register)),
            _ => Err(DecodeError::CouldNotCreateOperandFromModRMEncoding(encoding)),
        }
    }
}

/// What `decode_with_mod_rm` yields: a byte-sized ADD from the ModR/M byte
/// at the front of `data`, its source the register-or-memory half and its
/// destination the register half.
pub open spec fn spec_decode_with_mod_rm(data: Seq<u8>) -> Result<Instruction, DecodeError> {
    if data.len() < 1 {
        Err(DecodeError::CouldNotReadExtraBytes)
    } else {
        match spec_modrm_compact_from_byte(data[0], data.skip(1)) {
            Ok(ModRM(encoding, register)) => match spec_operand_from_mod_rm_encoding(encoding) {
                Ok(source) => Ok(Instruction {
                    operation: Operation::Add,
                    segment_override: None,
                    repeat: None,
                    operands: OperandSet::DestinationAndSource(
                        Operand(OperandType::Register(register), OperandSize::Byte),
                        Operand(source, OperandSize::Byte),
                    ),
                }),
                Err(e) => Err(e),
            },
            Err(e) => Err(e),
        }
    }
}

/// Decode one register-or-memory ADD whose ModR/M byte sits at the front of
/// `data`, displacement bytes following it.
pub fn decode_with_mod_rm(data: &[u8]) -> (r: Result<Instruction, DecodeError>)
    ensures
        r == spec_decode_with_mod_rm(data@),
{
    if data.len() < 1 {
        return Err(DecodeError::CouldNotReadExtraBytes);
    }
    let (head, rest) = data.split_at(1);
    let ModRM(encoding, register) = match ModRM::try_from_mod_rm_byte(
        *slice_index_get(head, 0),
        rest,
    ) {
        Ok(m) => m,
        Err(e) => {
            return Err(e);
        },
    };
    proof {
        assert(rest@ =~= data@.skip(1));
        assert(head@[0] == data@[0]);
    }
    let source = match OperandType::from_mod_rm_encoding(encoding) {
        Ok(source) => source,
        Err(e) => {
            return Err(e);
        },
    };
    Ok(
        Instruction::new(
            Operation::Add,
            OperandSet::DestinationAndSource(
                Operand(OperandType::Register(register), OperandSize::Byte),
                Operand(source, OperandSize::Byte),
            ),
        ),
    )
}

/// What `decode_instruction` yields: only the opcode byte `0x00` is known to
/// this compact decoder, and it carries a ModR/M byte after it.
pub open spec fn spec_decode_compact(data: Seq<u8>) -> Result<Instruction, DecodeError>
    recommends
        data.len() >= 1,
{
    if data[0] == 0 {
        spec_decode_with_mod_rm(data.skip(1))
    } else {
        Err(DecodeError::InvalidOpCode(data[0]))
    }
}

/// Decode the one instruction family the compact decoder knows, dispatching
/// on the first byte of `data`.
pub fn decode_instruction(data: &[u8]) -> (r: Result<Instruction, DecodeError>)
    requires
        data@.len() >= 1,
    ensures
        r == spec_decode_compact(data@),
{
    let op_code = *slice_index_get(data, 0);
    match op_code {
        0 => {
            let (_, rest) = data.split_at(1);
            proof {
                assert(rest@ =~= data@.skip(1));
            }
            decode_with_mod_rm(rest)
        },
        _ => Err(DecodeError::InvalidOpCode(op_code)),
    }
}

} // verus!
