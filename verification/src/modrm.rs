//! The bit codec: 3-bit fields to registers and addressing modes and back,
//! and the ModR/M byte to a (register, register-or-memory) pair and back,
//! together with the displacement bytes each mode carries.

use vstd::prelude::*;

use crate::decode::Error;
use crate::stream::{spec_read_u8, spec_read_u16, DataIterator, it_read_u8, it_read_u16};
use crate::x86::{AddressingMode, OperandSize, OperandType, Register, Segment};

verus! {

/// The 3-bit wire code of a general register.
pub open spec fn register_code(r: Register) -> u8 {
    match r {
        Register::AlAx => 0,
        Register::ClCx => 1,
        Register::DlDx => 2,
        Register::BlBx => 3,
        Register::AhSp => 4,
        Register::ChBp => 5,
        Register::DhSi => 6,
        Register::BhDi => 7,
    }
}

/// The register named by a 3-bit field.
pub open spec fn register_from_bits(b: u8) -> Register
    recommends
        b < 8,
{
    if b == 0 {
        Register::AlAx
    } else if b == 1 {
        Register::ClCx
    } else if b == 2 {
        Register::DlDx
    } else if b == 3 {
        Register::BlBx
    } else if b == 4 {
        Register::AhSp
    } else if b == 5 {
        Register::ChBp
    } else if b == 6 {
        Register::DhSi
    } else {
        Register::BhDi
    }
}

/// The 3-bit wire code of an addressing mode.
pub open spec fn addressing_mode_code(m: AddressingMode) -> u8 {
    match m {
        AddressingMode::BxSi => 0,
        AddressingMode::BxDi => 1,
        AddressingMode::BpSi => 2,
        AddressingMode::BpDi => 3,
        AddressingMode::Si => 4,
        AddressingMode::Di => 5,
        AddressingMode::Bp => 6,
        AddressingMode::Bx => 7,
    }
}

/// The addressing mode named by a 3-bit field.
pub open spec fn addressing_mode_from_bits(b: u8) -> AddressingMode
    recommends
        b < 8,
{
    if b == 0 {
        AddressingMode::BxSi
    } else if b == 1 {
        AddressingMode::BxDi
    } else if b == 2 {
        AddressingMode::BpSi
    } else if b == 3 {
        AddressingMode::BpDi
    } else if b == 4 {
        AddressingMode::Si
    } else if b == 5 {
        AddressingMode::Di
    } else if b == 6 {
        AddressingMode::Bp
    } else {
        AddressingMode::Bx
    }
}

/// The 2-bit wire code of a segment register.
pub open spec fn segment_code(s: Segment) -> u8 {
    match s {
        Segment::Es => 0,
        Segment::Cs => 1,
        Segment::Ss => 2,
        Segment::Ds => 3,
    }
}

/// The segment register named by a 2-bit field.
pub open spec fn segment_from_bits(b: u8) -> Segment
    recommends
        b < 4,
{
    if b == 0 {
        Segment::Es
    } else if b == 1 {
        Segment::Cs
    } else if b == 2 {
        Segment::Ss
    } else {
        Segment::Ds
    }
}

impl Register {
    /// The register named by the low three bits of an encoding field.
    pub fn try_from_low_bits(byte: u8) -> (r: Result<Self, Error>)
        ensures
            byte < 8 ==> r == Ok::<Register, Error>(register_from_bits(byte)),
            byte >= 8 ==> r == Err::<Register, Error>(Error::InvalidRegisterEncoding(byte)),
    {
        match byte {
            0 => Ok(Register::AlAx),
            1 => Ok(Register::ClCx),
            2 => Ok(Register::DlDx),
            3 => Ok(Register::BlBx),
            4 => Ok(Register::AhSp),
            5 => Ok(Register::ChBp),
            6 => Ok(Register::DhSi),
            7 => Ok(Register::BhDi),
            _ => Err(Error::InvalidRegisterEncoding(byte)),
        }
    }
}

impl AddressingMode {
    /// The addressing mode named by the low three bits of an encoding field.
    pub fn try_from_low_bits(byte: u8) -> (r: Result<Self, Error>)
        ensures
            byte < 8 ==> r == Ok::<AddressingMode, Error>(addressing_mode_from_bits(byte)),
            byte >= 8 ==> r == Err::<AddressingMode, Error>(
                Error::InvalidIndirectMemoryEncoding(byte),
            ),
    {
        match byte {
            0 => Ok(AddressingMode::BxSi),
            1 => Ok(AddressingMode::BxDi),
            2 => Ok(AddressingMode::BpSi),
            3 => Ok(AddressingMode::BpDi),
            4 => Ok(AddressingMode::Si),
            5 => Ok(AddressingMode::Di),
            6 => Ok(AddressingMode::Bp),
            7 => Ok(AddressingMode::Bx),
            _ => Err(Error::InvalidIndirectMemoryEncoding(byte)),
        }
    }
}

impl Segment {
    /// The segment register named by the low two bits of an encoding field.
    pub fn try_from_low_bits(byte: u8) -> (r: Result<Self, Error>)
        ensures
            byte < 4 ==> r == Ok::<Segment, Error>(segment_from_bits(byte)),
            byte >= 4 ==> r == Err::<Segment, Error>(Error::InvalidSegmentEncoding(byte)),
    {
        match byte {
            0 => Ok(Segment::Es),
            1 => Ok(Segment::Cs),
            2 => Ok(Segment::Ss),
            3 => Ok(Segment::Ds),
            _ => Err(Error::InvalidSegmentEncoding(byte)),
        }
    }
}

impl OperandSize {
    /// The operand size named by the `w` bit.
    pub fn try_from_low_bits(byte: u8) -> (r: Result<Self, Error>)
        ensures
            byte == 0 ==> r == Ok::<OperandSize, Error>(OperandSize::Byte),
            byte == 1 ==> r == Ok::<OperandSize, Error>(OperandSize::Word),
            byte >= 2 ==> r == Err::<OperandSize, Error>(Error::InvalidOperandSize(byte)),
    {
        match byte {
            0 => Ok(OperandSize::Byte),
            1 => Ok(OperandSize::Word),
            _ => Err(Error::InvalidOperandSize(byte)),
        }
    }
}

/// The register-or-memory half of a ModR/M byte, displacement included.
#[derive(Clone, Copy, Debug, PartialEq, Eq, Structural)]
pub enum RegisterOrMemory {
    /// `mod == 00`, `r/m == 110`: a direct 16-bit address.
    Direct(u16),
    /// `mod == 00`, any other `r/m`: an indirect reference, no displacement.
    Indirect(AddressingMode),
    /// `mod == 01`: an indirect reference with an 8-bit displacement.
    DisplacementByte(AddressingMode, u8),
    /// `mod == 10`: an indirect reference with a 16-bit displacement.
    DisplacementWord(AddressingMode, u16),
    /// `mod == 11`: a plain register.
    Register(Register),
}

/// How many displacement bytes follow a ModR/M byte: two for a direct
/// address, one for `mod == 01`, two for `mod == 10`, none otherwise.
pub open spec fn modrm_displacement_len(mod_rm_byte: u8) -> int {
    let mode = mod_rm_byte / 64;
    let rm = mod_rm_byte % 8;
    if mode == 0 && rm == 6 {
        2
    } else if mode == 1 {
        1
    } else if mode == 2 {
        2
    } else {
        0
    }
}

/// What `RegisterOrMemory::try_from_modrm` yields from the stream `data` at
/// `pos`, given the already-consumed ModR/M byte.
pub open spec fn spec_register_or_memory_from_modrm(data: Seq<u8>, pos: int, mod_rm_byte: u8) -> (
    Result<RegisterOrMemory, Error>,
    int,
) {
    let mode = mod_rm_byte / 64;
    let rm = mod_rm_byte % 8;
    if mode == 0 {
        if rm == 6 {
            let (w, p) = spec_read_u16(data, pos);
            match w {
                Some(offset) => (Ok(RegisterOrMemory::Direct(offset)), p),
                None => (Err(Error::UnexpectedEof), p),
            }
        } else {
            (Ok(RegisterOrMemory::Indirect(addressing_mode_from_bits(rm))), pos)
        }
    } else if mode == 1 {
        let (b, p) = spec_read_u8(data, pos);
        match b {
            Some(displacement) => (
                Ok(RegisterOrMemory::DisplacementByte(addressing_mode_from_bits(rm), displacement)),
                p,
            ),
            None => (Err(Error::UnexpectedEof), p),
        }
    } else if mode == 2 {
        let (w, p) = spec_read_u16(data, pos);
        match w {
            Some(displacement) => (
                Ok(RegisterOrMemory::DisplacementWord(addressing_mode_from_bits(rm), displacement)),
                p,
            ),
            None => (Err(Error::UnexpectedEof), p),
        }
    } else {
        (Ok(RegisterOrMemory::Register(register_from_bits(rm))), pos)
    }
}

impl RegisterOrMemory {
    /// Resolve a ModR/M byte's mode and `r/m` fields, reading exactly the
    /// displacement bytes the mode dictates from the stream.
    pub fn try_from_modrm<It: DataIterator>(mod_rm_byte: u8, it: &mut It) -> (r: Result<
        Self,
        Error,
    >)
        requires
            old(it).wf(),
        ensures
            final(it).wf(),
            final(it).bytes() == old(it).bytes(),
            (r, final(it).position()) == spec_register_or_memory_from_modrm(
                old(it).bytes(),
                old(it).position(),
                mod_rm_byte,
            ),
            // The stream advances by exactly the displacement length the
            // mode dictates.
            r is Ok ==> final(it).position() == old(it).position() + modrm_displacement_len(
                mod_rm_byte,
            ),
    {
        let mode = mod_rm_byte / 64;
        let rm = mod_rm_byte % 8;
        match mode {
            0 => {
                if rm == 6 {
                    match it_read_u16(it) {
                        Some(offset) => Ok(RegisterOrMemory::Direct(offset)),
                        None => Err(Error::UnexpectedEof),
                    }
                } else {
                    match AddressingMode::try_from_low_bits(rm) {
                        Ok(mode) => Ok(RegisterOrMemory::Indirect(mode)),
                        Err(e) => Err(e),
                    }
                }
            },
            1 => {
                let mode = match AddressingMode::try_from_low_bits(rm) {
                    Ok(mode) => mode,
                    Err(e) => {
                        return Err(e);
                    },
                };
                match it_read_u8(it) {
                    Some(displacement) => Ok(
                        RegisterOrMemory::DisplacementByte(mode, displacement),
                    ),
                    None => Err(Error::UnexpectedEof),
                }
            },
            2 => {
                let mode = match AddressingMode::try_from_low_bits(rm) {
                    Ok(mode) => mode,
                    Err(e) => {
                        return Err(e);
                    },
                };
                match it_read_u16(it) {
                    Some(displacement) => Ok(
                        RegisterOrMemory::DisplacementWord(mode, displacement),
                    ),
                    None => Err(Error::UnexpectedEof),
                }
            },
            _ => {
                match Register::try_from_low_bits(rm) {
                    Ok(register) => Ok(RegisterOrMemory::Register(register)),
                    Err(e) => Err(e),
                }
            },
        }
    }
}

/// A displaced 8-bit value widened to 16 bits with its sign kept.
pub open spec fn sign_extend_u8(b: u8) -> u16 {
    if b < 0x80 {
        b as u16
    } else {
        (b + 0xFF00) as u16
    }
}

/// The operand a register-or-memory field stands for, its byte displacement
/// sign-extended to the full width.
pub open spec fn operand_type_of_register_or_memory(rm: RegisterOrMemory) -> OperandType {
    match rm {
        RegisterOrMemory::Direct(offset) => OperandType::Direct(offset),
        RegisterOrMemory::Indirect(mode) => OperandType::Indirect(mode, 0),
        RegisterOrMemory::DisplacementByte(mode, d) => OperandType::Indirect(
            mode,
            sign_extend_u8(d),
        ),
        RegisterOrMemory::DisplacementWord(mode, d) => OperandType::Indirect(mode, d),
        RegisterOrMemory::Register(register) => OperandType::Register(register),
    }
}

impl From<RegisterOrMemory> for OperandType {
    fn from(register_or_memory: RegisterOrMemory) -> (r: OperandType) {
        match register_or_memory {
            RegisterOrMemory::Direct(offset) => OperandType::Direct(offset),
            RegisterOrMemory::Indirect(mode) => OperandType::Indirect(mode, 0),
            RegisterOrMemory::DisplacementByte(mode, d) => {
                if d < 0x80 {
                    OperandType::Indirect(mode, d as u16)
                } else {
                    OperandType::Indirect(mode, d as u16 + 0xFF00)
                }
            },
            RegisterOrMemory::DisplacementWord(mode, d) => OperandType::Indirect(mode, d),
            RegisterOrMemory::Register(register) => OperandType::Register(register),
        }
    }
}

impl vstd::std_specs::convert::FromSpecImpl<RegisterOrMemory> for OperandType {
    open spec fn obeys_from_spec() -> bool {
        true
    }

    open spec fn from_spec(v: RegisterOrMemory) -> OperandType {
        operand_type_of_register_or_memory(v)
    }
}

/// A fully resolved ModR/M byte.
#[derive(Clone, Copy, Debug, PartialEq, Eq, Structural)]
pub struct Modrm {
    pub register: Register,
    pub register_or_memory: RegisterOrMemory,
}

/// What `Modrm::try_from_byte` yields: the register half from bits 3..6, the
/// register-or-memory half from the mode and `r/m` fields.
pub open spec fn spec_modrm_from_byte(data: Seq<u8>, pos: int, mod_rm_byte: u8) -> (
    Result<Modrm, Error>,
    int,
) {
    let register = register_from_bits((mod_rm_byte / 8) % 8);
    let (rm, p) = spec_register_or_memory_from_modrm(data, pos, mod_rm_byte);
    match rm {
        Ok(register_or_memory) => (Ok(Modrm { register, register_or_memory }), p),
        Err(e) => (Err(e), p),
    }
}

impl Modrm {
    /// Pair a register with a register-or-memory reference.
    pub fn new(register: Register, register_or_memory: RegisterOrMemory) -> (r: Self)
        ensures
            r == (Modrm { register, register_or_memory }),
    {
        Self { register, register_or_memory }
    }

    /// Resolve a whole ModR/M byte, reading displacement bytes as needed.
    pub fn try_from_byte<It: DataIterator>(mod_rm_byte: u8, it: &mut It) -> (r: Result<
        Self,
        Error,
    >)
        requires
            old(it).wf(),
        ensures
            final(it).wf(),
            final(it).bytes() == old(it).bytes(),
            (r, final(it).position()) == spec_modrm_from_byte(
                old(it).bytes(),
                old(it).position(),
                mod_rm_byte,
            ),
            r is Ok ==> final(it).position() == old(it).position() + modrm_displacement_len(
                mod_rm_byte,
            ),
    {
        let register = match Register::try_from_low_bits((mod_rm_byte / 8) % 8) {
            Ok(register) => register,
            Err(e) => {
                return Err(e);
            },
        };
        let register_or_memory = match RegisterOrMemory::try_from_modrm(mod_rm_byte, it) {
            Ok(rm) => rm,
            Err(e) => {
                return Err(e);
            },
        };
        Ok(Modrm { register, register_or_memory })
    }

    /// The single byte this pair encodes to.
    pub fn to_byte(&self) -> (r: u8)
        ensures
            r == spec_modrm_to_byte(*self),
    {
        let mode: u8 = match self.register_or_memory {
            RegisterOrMemory::Direct(_) => 0,
            RegisterOrMemory::Indirect(_) => 0,
            RegisterOrMemory::DisplacementByte(_, _) => 1,
            RegisterOrMemory::DisplacementWord(_, _) => 2,
            RegisterOrMemory::Register(_) => 3,
        };
        let rm: u8 = match self.register_or_memory {
            RegisterOrMemory::Direct(_) => 6,
            RegisterOrMemory::Indirect(mode) => encoding_for_addressing_mode(&mode),
            RegisterOrMemory::DisplacementByte(mode, _) => encoding_for_addressing_mode(&mode),
            RegisterOrMemory::DisplacementWord(mode, _) => encoding_for_addressing_mode(&mode),
            RegisterOrMemory::Register(register) => encoding_for_register(&register),
        };
        mode * 64 + encoding_for_register(&self.register) * 8 + rm
    }
}

/// The byte a resolved ModR/M pair encodes to: mode in the top two bits, the
/// register in the middle three, the register-or-memory field in the low
/// three.
pub open spec fn spec_modrm_to_byte(m: Modrm) -> u8 {
    let mode: u8 = match m.register_or_memory {
        RegisterOrMemory::Direct(_) => 0,
        RegisterOrMemory::Indirect(_) => 0,
        RegisterOrMemory::DisplacementByte(_, _) => 1,
        RegisterOrMemory::DisplacementWord(_, _) => 2,
        RegisterOrMemory::Register(_) => 3,
    };
    let rm: u8 = match m.register_or_memory {
        RegisterOrMemory::Direct(_) => 6,
        RegisterOrMemory::Indirect(mode) => addressing_mode_code(mode),
        RegisterOrMemory::DisplacementByte(mode, _) => addressing_mode_code(mode),
        RegisterOrMemory::DisplacementWord(mode, _) => addressing_mode_code(mode),
        RegisterOrMemory::Register(register) => register_code(register),
    };
    (mode * 64 + register_code(m.register) * 8 + rm) as u8
}

/// The 3-bit wire code of a general register.
pub fn encoding_for_register(register: &Register) -> (r: u8)
    ensures
        r == register_code(*register),
        r < 8,
        register_from_bits(r) == *register,
{
    match register {
        Register::AlAx => 0,
        Register::ClCx => 1,
        Register::DlDx => 2,
        Register::BlBx => 3,
        Register::AhSp => 4,
        Register::ChBp => 5,
        Register::DhSi => 6,
        Register::BhDi => 7,
    }
}

/// The 3-bit wire code of an addressing mode.
pub fn encoding_for_addressing_mode(addressing_mode: &AddressingMode) -> (r: u8)
    ensures
        r == addressing_mode_code(*addressing_mode),
        r < 8,
        addressing_mode_from_bits(r) == *addressing_mode,
{
    match addressing_mode {
        AddressingMode::BxSi => 0,
        AddressingMode::BxDi => 1,
        AddressingMode::BpSi => 2,
        AddressingMode::BpDi => 3,
        AddressingMode::Si => 4,
        AddressingMode::Di => 5,
        AddressingMode::Bp => 6,
        AddressingMode::Bx => 7,
    }
}

/// The displacement bytes that follow the encoded ModR/M byte on the wire.
pub open spec fn modrm_displacement_bytes(m: Modrm) -> Seq<u8> {
    match m.register_or_memory {
        RegisterOrMemory::Direct(offset) => seq![(offset % 0x100) as u8, (offset / 0x100) as u8],
        RegisterOrMemory::Indirect(_) => seq![],
        RegisterOrMemory::DisplacementByte(_, d) => seq![d],
        RegisterOrMemory::DisplacementWord(_, d) => seq![
            (d % 0x100) as u8,
            (d / 0x100) as u8,
        ],
        RegisterOrMemory::Register(_) => seq![],
    }
}

/// Law: resolving an encoded ModR/M pair from its byte and displacement
/// bytes gives the pair back.  The one exception is the `[BP]` base with no
/// displacement, whose slot on the wire is taken by the direct-address form;
/// encoders express `[BP]` through the byte-displacement mode instead.
pub proof fn lemma_modrm_roundtrip(m: Modrm, data: Seq<u8>, pos: int)
    requires
        !(m.register_or_memory matches RegisterOrMemory::Indirect(mode) && mode
            == AddressingMode::Bp),
        0 <= pos,
        pos + modrm_displacement_bytes(m).len() <= data.len(),
        data.subrange(pos, pos + modrm_displacement_bytes(m).len() as int)
            == modrm_displacement_bytes(m),
    ensures
        spec_modrm_from_byte(data, pos, spec_modrm_to_byte(m)) == (
            Ok::<Modrm, Error>(m),
            pos + modrm_displacement_bytes(m).len(),
        ),
{
    let byte = spec_modrm_to_byte(m);
    let disp = modrm_displacement_bytes(m);
    match m.register_or_memory {
        RegisterOrMemory::Direct(offset) => {
            assert(data[pos] == disp[0] && data[pos + 1] == disp[1]);
            assert(word_le_roundtrip(offset));
        },
        RegisterOrMemory::Indirect(mode) => {},
        RegisterOrMemory::DisplacementByte(mode, d) => {
            assert(data[pos] == disp[0]);
        },
        RegisterOrMemory::DisplacementWord(mode, d) => {
            assert(data[pos] == disp[0] && data[pos + 1] == disp[1]);
            assert(word_le_roundtrip(d));
        },
        RegisterOrMemory::Register(register) => {},
    }
}

/// A word split into its little-endian bytes reassembles to itself.
pub open spec fn word_le_roundtrip(w: u16) -> bool {
    crate::stream::word_le((w % 0x100) as u8, (w / 0x100) as u8) == w
}

} // verus!
