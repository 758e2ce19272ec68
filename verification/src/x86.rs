//! The shared 8086 instruction model: operations, registers, segments,
//! addressing modes, operand forms and whole instructions.

use vstd::prelude::*;

verus! {

/// An 8086 mnemonic.
#[derive(Clone, Copy, Debug, PartialEq, Eq, Structural)]
pub enum Operation {
    // Data transfer
    Mov,
    Push,
    Pop,
    Xchg,
    In,
    Out,
    Xlat,
    Lea,
    Lds,
    Les,
    Lahf,
    Sahf,
    Pushf,
    Popf,
    // Arithmetic
    Add,
    Adc,
    Inc,
    Aaa,
    Baa,
    Sub,
    Sbb,
    Dec,
    Neg,
    Cmp,
    Aas,
    Das,
    Mul,
    Imul,
    Aam,
    Div,
    Idiv,
    Aad,
    Cbw,
    Cwd,
    // Logic
    Not,
    Shl,
    Shr,
    Sar,
    Rol,
    Ror,
    Rcl,
    Rcr,
    And,
    Test,
    Or,
    Xor,
    // String manipulation
    Cmpsb,
    Cmpsw,
    Lodsb,
    Lodsw,
    Movsb,
    Movsw,
    Scasb,
    Scasw,
    Stosb,
    Stosw,
    // Control transfer
    Call,
    Jmp,
    Ret,
    Je,
    Jl,
    Jle,
    Jb,
    Jbe,
    Jp,
    Jo,
    Js,
    Jne,
    Jnl,
    Jnle,
    Jnb,
    Jnbe,
    Jnp,
    Jno,
    Jns,
    Loop,
    Loopz,
    Loopnz,
    Jcxz,
    Int,
    Into,
    IRet,
    // Processor control
    Clc,
    Cmc,
    Stc,
    Cld,
    Std,
    Cli,
    Sti,
    Hlt,
    Wait,
    Esc,
    Lock,
}

/// One of the eight general register slots.  The same 3-bit encoding names a
/// byte register (AL..BH) when the operand size is `Byte` and a word register
/// (AX..DI) when it is `Word`.
#[derive(Clone, Copy, Debug, PartialEq, Eq, Structural)]
pub enum Register {
    AlAx,
    ClCx,
    DlDx,
    BlBx,
    AhSp,
    ChBp,
    DhSi,
    BhDi,
}

/// A segment register.
#[derive(Clone, Copy, Debug, PartialEq, Eq, Structural)]
pub enum Segment {
    Es,
    Cs,
    Ss,
    Ds,
}

/// The register combination named by the ModR/M `r/m` field when `mod != 11`.
/// `Bp` here stands for the `[BP]` base; note that on the wire `mod == 00`
/// with `r/m == 110` means a direct address, not `[BP]`.
#[derive(Clone, Copy, Debug, PartialEq, Eq, Structural)]
pub enum AddressingMode {
    BxSi,
    BxDi,
    BpSi,
    BpDi,
    Si,
    Di,
    Bp,
    Bx,
}

/// Width of an operand.
#[derive(Clone, Copy, Debug, PartialEq, Eq, Structural)]
pub enum OperandSize {
    Byte,
    Word,
}

/// The shape of a single operand.
#[derive(Clone, Copy, Debug, PartialEq, Eq, Structural)]
pub enum OperandType {
    /// A direct 16-bit memory offset.
    Direct(u16),
    /// A register combination plus a 16-bit displacement.
    Indirect(AddressingMode, u16),
    /// A general register.
    Register(Register),
    /// A segment register.
    Segment(Segment),
    /// An immediate value.
    Immediate(u16),
}

/// An operand together with its size.
#[derive(Clone, Copy, Debug, PartialEq, Eq, Structural)]
pub struct Operand(pub OperandType, pub OperandSize);

/// The operands of an instruction.
#[derive(Clone, Copy, Debug, PartialEq, Eq, Structural)]
pub enum OperandSet {
    Empty,
    Destination(Operand),
    DestinationAndSource(Operand, Operand),
    Offset(u16),
    SegmentAndOffset(u16, u16),
}

/// A repeat prefix attached to a string operation.
#[derive(Clone, Copy, Debug, PartialEq, Eq, Structural)]
pub enum Repeat {
    Equal,
    NotEqual,
}

/// A whole decoded instruction.
#[derive(Clone, Copy, Debug, PartialEq, Eq, Structural)]
pub struct Instruction {
    pub operation: Operation,
    pub segment_override: Option<Segment>,
    pub repeat: Option<Repeat>,
    pub operands: OperandSet,
}

impl Instruction {
    /// Build an instruction with no segment override and no repeat prefix.
    pub fn new(operation: Operation, operands: OperandSet) -> (r: Self)
        ensures
            r.operation == operation,
            r.segment_override is None,
            r.repeat is None,
            r.operands == operands,
    {
        Self { operation, segment_override: None, repeat: None, operands }
    }
}

} // verus!
