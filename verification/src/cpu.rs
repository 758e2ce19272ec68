//! The CPU engine: the register file, segmented memory access, the
//! fetch-decode-execute loop, and per-operation semantics with exact flag
//! updates.  Every step is mirrored by spec functions over a `CpuState`
//! snapshot, and each public method's contract ties it to that mirror.

use vstd::prelude::*;

use crate::bus::{Bus, CpuError};
use crate::decode::spec_decode;
use crate::flags::{
    even_parity, flag_selected, with_flag, zsp_updated, Flags, AUX_CARRY, CARRY, DIRECTION,
    INTERRUPT, OVERFLOW, PARITY, SIGN, TRAP, ZERO,
};
use crate::flags;
use crate::modrm::{register_code, segment_code, sign_extend_u8};
use crate::stream::Data;
use crate::x86::{
    AddressingMode, Instruction, Operand, OperandSet, OperandSize, OperandType, Operation,
    Register, Repeat, Segment,
};

verus! {

/// A snapshot of everything the engine can observe or change: registers,
/// segment registers, instruction pointer, flags word, the two buses'
/// contents, and whether the CPU has halted.
pub struct CpuState {
    pub regs: Seq<u16>,
    pub segs: Seq<u16>,
    pub ip: u16,
    pub flags: u16,
    pub mem: Seq<u8>,
    pub io: Seq<u8>,
    pub halted: bool,
}

/// The register-file slot a register name occupies.
pub open spec fn reg_index(r: Register) -> int {
    register_code(r) as int
}

/// The slot a segment register occupies.
pub open spec fn seg_index(s: Segment) -> int {
    segment_code(s) as int
}

/// A word with its low byte replaced.
pub open spec fn with_low_byte(word: u16, value: u16) -> u16 {
    ((word / 0x100) * 0x100 + value % 0x100) as u16
}

/// A word with its high byte replaced.
pub open spec fn with_high_byte(word: u16, value: u16) -> u16 {
    (word % 0x100 + (value % 0x100) * 0x100) as u16
}

/// What reading a register yields: the whole word, or one byte of the
/// word register the 3-bit code names: low bytes for codes 0..3, high
/// bytes of those same words for codes 4..7.
pub open spec fn spec_get_register(regs: Seq<u16>, size: OperandSize, r: Register) -> u16
    recommends
        regs.len() == 8,
{
    match size {
        OperandSize::Word => regs[reg_index(r)],
        OperandSize::Byte => {
            if reg_index(r) < 4 {
                (regs[reg_index(r)] % 0x100) as u16
            } else {
                (regs[reg_index(r) - 4] / 0x100) as u16
            }
        },
    }
}

/// The register file after a write of the given width.
pub open spec fn spec_set_register(
    regs: Seq<u16>,
    size: OperandSize,
    r: Register,
    value: u16,
) -> Seq<u16>
    recommends
        regs.len() == 8,
{
    match size {
        OperandSize::Word => regs.update(reg_index(r), value),
        OperandSize::Byte => {
            if reg_index(r) < 4 {
                regs.update(reg_index(r), with_low_byte(regs[reg_index(r)], value))
            } else {
                regs.update(reg_index(r) - 4, with_high_byte(regs[reg_index(r) - 4], value))
            }
        },
    }
}

/// The 20-bit linear address a segment and offset pair resolves to.
pub open spec fn spec_linear(seg: u16, off: u16) -> u32 {
    ((seg * 16 + off) % 0x100000) as u32
}

/// The effective 16-bit offset an addressing mode computes, displacement
/// included, wrapping at the segment boundary.
pub open spec fn spec_ea(regs: Seq<u16>, mode: AddressingMode, displacement: u16) -> u16
    recommends
        regs.len() == 8,
{
    let base: int = match mode {
        AddressingMode::BxSi => regs[3] + regs[6],
        AddressingMode::BxDi => regs[3] + regs[7],
        AddressingMode::BpSi => regs[5] + regs[6],
        AddressingMode::BpDi => regs[5] + regs[7],
        AddressingMode::Si => regs[6] as int,
        AddressingMode::Di => regs[7] as int,
        AddressingMode::Bp => regs[5] as int,
        AddressingMode::Bx => regs[3] as int,
    };
    ((base + displacement) % 0x10000) as u16
}

/// The segment a data access goes through: the override when present,
/// otherwise SS for BP-based effective addresses and DS for the rest.
pub open spec fn spec_data_segment(
    segment_override: Option<Segment>,
    mode: Option<AddressingMode>,
) -> Segment {
    match segment_override {
        Some(s) => s,
        None => match mode {
            Some(AddressingMode::BpSi) | Some(AddressingMode::BpDi) | Some(AddressingMode::Bp) => {
                Segment::Ss
            },
            _ => Segment::Ds,
        },
    }
}

/// One byte read from memory at a linear address, or the bus fault.
pub open spec fn spec_mem_byte(
    mem: Seq<u8>,
    mf: spec_fn(u32) -> CpuError,
    addr: u32,
) -> Result<u8, CpuError> {
    if addr < mem.len() {
        Ok(mem[addr as int])
    } else {
        Err(mf(addr))
    }
}

/// A value read from memory at a segment and offset: one byte, or a
/// little-endian word over two consecutive offsets.
pub open spec fn spec_mem_read(
    mem: Seq<u8>,
    mf: spec_fn(u32) -> CpuError,
    seg: u16,
    off: u16,
    size: OperandSize,
) -> Result<u16, CpuError> {
    match size {
        OperandSize::Byte => {
            match spec_mem_byte(mem, mf, spec_linear(seg, off)) {
                Ok(b) => Ok(b as u16),
                Err(e) => Err(e),
            }
        },
        OperandSize::Word => {
            match spec_mem_byte(mem, mf, spec_linear(seg, off)) {
                Ok(lo) => {
                    match spec_mem_byte(mem, mf, spec_linear(seg, ((off + 1) % 0x10000) as u16)) {
                        Ok(hi) => Ok((lo + hi * 0x100) as u16),
                        Err(e) => Err(e),
                    }
                },
                Err(e) => Err(e),
            }
        },
    }
}

/// Memory after one byte store at a linear address, the fault reported and
/// nothing changed when the address is out of range.
pub open spec fn spec_mem_store_byte(
    mem: Seq<u8>,
    mf: spec_fn(u32) -> CpuError,
    addr: u32,
    value: u8,
) -> (Result<(), CpuError>, Seq<u8>) {
    if addr < mem.len() {
        (Ok(()), mem.update(addr as int, value))
    } else {
        (Err(mf(addr)), mem)
    }
}

/// Memory after a store at a segment and offset: one byte, or a word as
/// two byte stores, low byte first; a fault on the second byte leaves the
/// first store in place.
pub open spec fn spec_mem_write(
    mem: Seq<u8>,
    mf: spec_fn(u32) -> CpuError,
    seg: u16,
    off: u16,
    size: OperandSize,
    value: u16,
) -> (Result<(), CpuError>, Seq<u8>) {
    match size {
        OperandSize::Byte => {
            spec_mem_store_byte(mem, mf, spec_linear(seg, off), (value % 0x100) as u8)
        },
        OperandSize::Word => {
            let (r1, mem1) = spec_mem_store_byte(
                mem,
                mf,
                spec_linear(seg, off),
                (value % 0x100) as u8,
            );
            match r1 {
                Ok(_) => spec_mem_store_byte(
                    mem1,
                    mf,
                    spec_linear(seg, ((off + 1) % 0x10000) as u16),
                    (value / 0x100) as u8,
                ),
                Err(e) => (Err(e), mem1),
            }
        },
    }
}

/// What reading an operand yields: registers and immediates directly,
/// memory through the data segment the instruction names.
pub open spec fn spec_operand_value(
    s: CpuState,
    mf: spec_fn(u32) -> CpuError,
    segment_override: Option<Segment>,
    operand: Operand,
) -> Result<u16, CpuError>
    recommends
        s.regs.len() == 8,
        s.segs.len() == 4,
{
    let Operand(t, size) = operand;
    match t {
        OperandType::Register(r) => Ok(spec_get_register(s.regs, size, r)),
        OperandType::Segment(sg) => Ok(s.segs[seg_index(sg)]),
        OperandType::Immediate(v) => Ok(v),
        OperandType::Direct(off) => {
            let seg = s.segs[seg_index(spec_data_segment(segment_override, None))];
            spec_mem_read(s.mem, mf, seg, off, size)
        },
        OperandType::Indirect(mode, displacement) => {
            let seg = s.segs[seg_index(spec_data_segment(segment_override, Some(mode)))];
            spec_mem_read(s.mem, mf, seg, spec_ea(s.regs, mode, displacement), size)
        },
    }
}

/// The state after storing a value to an operand: registers and segment
/// registers in place, memory through the data segment; an immediate
/// destination is reported as unsupported.
pub open spec fn spec_store_operand(
    s: CpuState,
    mf: spec_fn(u32) -> CpuError,
    operation: Operation,
    segment_override: Option<Segment>,
    operand: Operand,
    value: u16,
) -> (Result<(), CpuError>, CpuState)
    recommends
        s.regs.len() == 8,
        s.segs.len() == 4,
{
    let Operand(t, size) = operand;
    match t {
        OperandType::Register(r) => (
            Ok(()),
            CpuState { regs: spec_set_register(s.regs, size, r, value), ..s },
        ),
        OperandType::Segment(sg) => (
            Ok(()),
            CpuState { segs: s.segs.update(seg_index(sg), value), ..s },
        ),
        OperandType::Immediate(_) => (Err(CpuError::UnsupportedOperation(operation)), s),
        OperandType::Direct(off) => {
            let seg = s.segs[seg_index(spec_data_segment(segment_override, None))];
            let (r, mem) = spec_mem_write(s.mem, mf, seg, off, size, value);
            (r, CpuState { mem, ..s })
        },
        OperandType::Indirect(mode, displacement) => {
            let seg = s.segs[seg_index(spec_data_segment(segment_override, Some(mode)))];
            let (r, mem) = spec_mem_write(
                s.mem,
                mf,
                seg,
                spec_ea(s.regs, mode, displacement),
                size,
                value,
            );
            (r, CpuState { mem, ..s })
        },
    }
}

/// The modulus of an operand width.
pub open spec fn width_mask(size: OperandSize) -> int {
    match size {
        OperandSize::Byte => 0x100,
        OperandSize::Word => 0x10000,
    }
}

/// The sign bit threshold of an operand width.
pub open spec fn top_bit(size: OperandSize) -> u16 {
    match size {
        OperandSize::Byte => 0x80,
        OperandSize::Word => 0x8000,
    }
}

/// Result and flags of an addition with carry-in: CF is the carry out of
/// the width, AF the carry out of bit 3, OF the signed overflow, and the
/// zero, sign and parity bits follow the result.
pub open spec fn spec_add_result(size: OperandSize, dst: u16, src: u16, c: int, flags: u16) -> (
    u16,
    u16,
) {
    let m = width_mask(size);
    let a = dst as int % m;
    let b = src as int % m;
    let total = a + b + c;
    let result = (total % m) as u16;
    let cf = total >= m;
    let af = a % 16 + b % 16 + c >= 16;
    let of = ((a < m / 2) == (b < m / 2)) && ((total % m < m / 2) != (a < m / 2));
    let arith = with_flag(with_flag(with_flag(flags, CARRY, cf), AUX_CARRY, af), OVERFLOW, of);
    (result, zsp_updated(arith, result, top_bit(size)))
}

/// Result and flags of a subtraction with borrow-in: CF is the borrow, AF
/// the borrow out of bit 4, OF the signed overflow.
pub open spec fn spec_sub_result(size: OperandSize, dst: u16, src: u16, c: int, flags: u16) -> (
    u16,
    u16,
) {
    let m = width_mask(size);
    let a = dst as int % m;
    let b = src as int % m;
    let result = ((a + m - b - c) % m) as u16;
    let cf = b + c > a;
    let af = b % 16 + c > a % 16;
    let of = ((a < m / 2) != (b < m / 2)) && (((result as int) < m / 2) != (a < m / 2));
    let arith = with_flag(with_flag(with_flag(flags, CARRY, cf), AUX_CARRY, af), OVERFLOW, of);
    (result, zsp_updated(arith, result, top_bit(size)))
}

/// Result and flags of a bitwise operation: CF and OF clear, AF kept, the
/// zero, sign and parity bits from the result.
pub open spec fn spec_logic_result(size: OperandSize, result: u16, flags: u16) -> (u16, u16) {
    let arith = with_flag(with_flag(flags, CARRY, false), OVERFLOW, false);
    (result, zsp_updated(arith, result, top_bit(size)))
}

/// The masked operands of a bitwise operation at the given width.
pub open spec fn masked(size: OperandSize, v: u16) -> u16 {
    (v as int % width_mask(size)) as u16
}

/// Result and new flags word of one ALU operation, when the operation is
/// one the engine computes this way.
pub open spec fn spec_alu(
    operation: Operation,
    size: OperandSize,
    dst: u16,
    src: u16,
    flags: u16,
) -> Option<(u16, u16)> {
    let cf: int = if flag_selected(flags, CARRY) {
        1
    } else {
        0
    };
    match operation {
        Operation::Add => Some(spec_add_result(size, dst, src, 0, flags)),
        Operation::Adc => Some(spec_add_result(size, dst, src, cf, flags)),
        Operation::Sub => Some(spec_sub_result(size, dst, src, 0, flags)),
        Operation::Sbb => Some(spec_sub_result(size, dst, src, cf, flags)),
        Operation::Cmp => Some(spec_sub_result(size, dst, src, 0, flags)),
        Operation::And => Some(
            spec_logic_result(size, masked(size, dst) & masked(size, src), flags),
        ),
        Operation::Test => Some(
            spec_logic_result(size, masked(size, dst) & masked(size, src), flags),
        ),
        Operation::Or => Some(spec_logic_result(size, masked(size, dst) | masked(size, src), flags)),
        Operation::Xor => Some(
            spec_logic_result(size, masked(size, dst) ^ masked(size, src), flags),
        ),
        _ => None,
    }
}

/// Whether an ALU operation stores its result: CMP and TEST only set
/// flags.
pub open spec fn alu_stores(operation: Operation) -> bool {
    operation != Operation::Cmp && operation != Operation::Test
}

/// Whether a conditional jump is taken, when the operation is one.
pub open spec fn spec_condition(operation: Operation, flags: u16) -> Option<bool> {
    let zf = flag_selected(flags, ZERO);
    let cf = flag_selected(flags, CARRY);
    let sf = flag_selected(flags, SIGN);
    let of = flag_selected(flags, OVERFLOW);
    let pf = flag_selected(flags, PARITY);
    match operation {
        Operation::Je => Some(zf),
        Operation::Jne => Some(!zf),
        Operation::Jb => Some(cf),
        Operation::Jnb => Some(!cf),
        Operation::Jbe => Some(cf || zf),
        Operation::Jnbe => Some(!cf && !zf),
        Operation::Jp => Some(pf),
        Operation::Jnp => Some(!pf),
        Operation::Jo => Some(of),
        Operation::Jno => Some(!of),
        Operation::Js => Some(sf),
        Operation::Jns => Some(!sf),
        Operation::Jl => Some(sf != of),
        Operation::Jnl => Some(sf == of),
        Operation::Jle => Some(zf || sf != of),
        Operation::Jnle => Some(!zf && sf == of),
        _ => None,
    }
}

/// The instruction pointer after a signed 8-bit relative jump: the low
/// byte of the stored offset, sign-extended, added with 16-bit wrap.
pub open spec fn spec_ip_rel8(ip: u16, offset: u16) -> u16 {
    ((ip + sign_extend_u8((offset % 0x100) as u8)) % 0x10000) as u16
}

/// The instruction pointer after a 16-bit relative jump.
pub open spec fn spec_ip_rel16(ip: u16, offset: u16) -> u16 {
    ((ip + offset) % 0x10000) as u16
}

/// The state after pushing one word: SP moves down by two, the word goes
/// to SS:SP; a bus fault leaves SP unchanged.
pub open spec fn spec_push(s: CpuState, mf: spec_fn(u32) -> CpuError, value: u16) -> (
    Result<(), CpuError>,
    CpuState,
)
    recommends
        s.regs.len() == 8,
        s.segs.len() == 4,
{
    let sp = ((s.regs[4] + 0x10000 - 2) % 0x10000) as u16;
    let (r, mem) = spec_mem_write(s.mem, mf, s.segs[2], sp, OperandSize::Word, value);
    match r {
        Ok(_) => (Ok(()), CpuState { regs: s.regs.update(4, sp), mem, ..s }),
        Err(e) => (Err(e), CpuState { mem, ..s }),
    }
}

/// The word popped and the state after: the word comes from SS:SP and SP
/// moves up by two; a bus fault changes nothing.
pub open spec fn spec_pop(s: CpuState, mf: spec_fn(u32) -> CpuError) -> (
    Result<u16, CpuError>,
    CpuState,
)
    recommends
        s.regs.len() == 8,
        s.segs.len() == 4,
{
    match spec_mem_read(s.mem, mf, s.segs[2], s.regs[4], OperandSize::Word) {
        Ok(v) => (
            Ok(v),
            CpuState { regs: s.regs.update(4, ((s.regs[4] + 2) % 0x10000) as u16), ..s },
        ),
        Err(e) => (Err(e), s),
    }
}

/// The state after a software interrupt: flags, CS and IP pushed, the
/// interrupt and trap flags cleared, and control transferred through the
/// vector at linear address `n * 4`.
pub open spec fn spec_int(s: CpuState, mf: spec_fn(u32) -> CpuError, n: u16) -> (
    Result<(), CpuError>,
    CpuState,
)
    recommends
        s.regs.len() == 8,
        s.segs.len() == 4,
        n <= 0xFF,
{
    let (r1, s1) = spec_push(s, mf, s.flags);
    match r1 {
        Err(e) => (Err(e), s1),
        Ok(_) => {
            let (r2, s2) = spec_push(s1, mf, s1.segs[1]);
            match r2 {
                Err(e) => (Err(e), s2),
                Ok(_) => {
                    let (r3, s3) = spec_push(s2, mf, s2.ip);
                    match r3 {
                        Err(e) => (Err(e), s3),
                        Ok(_) => {
                            let cleared = with_flag(
                                with_flag(s3.flags, INTERRUPT, false),
                                TRAP,
                                false,
                            );
                            let s4 = CpuState { flags: cleared, ..s3 };
                            match spec_vector_word(s4.mem, mf, (n * 4) as u32) {
                                Err(e) => (Err(e), s4),
                                Ok(new_ip) => {
                                    match spec_vector_word(s4.mem, mf, (n * 4 + 2) as u32) {
                                        Err(e) => (Err(e), s4),
                                        Ok(new_cs) => (
                                            Ok(()),
                                            CpuState {
                                                ip: new_ip,
                                                segs: s4.segs.update(1, new_cs),
                                                ..s4
                                            },
                                        ),
                                    }
                                },
                            }
                        },
                    }
                },
            }
        },
    }
}

/// A little-endian word read at a plain linear address, as the interrupt
/// vector table is.
pub open spec fn spec_vector_word(
    mem: Seq<u8>,
    mf: spec_fn(u32) -> CpuError,
    addr: u32,
) -> Result<u16, CpuError>
    recommends
        addr + 1 < 0x100000,
{
    match spec_mem_byte(mem, mf, addr) {
        Err(e) => Err(e),
        Ok(lo) => {
            match spec_mem_byte(mem, mf, (addr + 1) as u32) {
                Err(e) => Err(e),
                Ok(hi) => Ok((lo + hi * 0x100) as u16),
            }
        },
    }
}


/// The signed reading of a value at the given width.
pub open spec fn as_signed(size: OperandSize, v: u16) -> int {
    let m = width_mask(size);
    if v as int % m >= m / 2 {
        v as int % m - m
    } else {
        v as int % m
    }
}

/// The bitwise complement of a value at the given width.
pub open spec fn spec_not_result(size: OperandSize, v: u16) -> u16 {
    (width_mask(size) - 1 - (v as int % width_mask(size))) as u16
}

/// The magnitude of an integer.
pub open spec fn abs_int(v: int) -> int {
    if v >= 0 {
        v
    } else {
        0 - v
    }
}

/// Division truncated toward zero, as the hardware divides.
pub open spec fn tdiv(a: int, b: int) -> int
    recommends
        b != 0,
{
    if (a >= 0) == (b >= 0) {
        abs_int(a) / abs_int(b)
    } else {
        0 - abs_int(a) / abs_int(b)
    }
}

/// The remainder of truncated division: it takes the dividend's sign.
pub open spec fn tmod(a: int, b: int) -> int
    recommends
        b != 0,
{
    if a >= 0 {
        abs_int(a) % abs_int(b)
    } else {
        0 - abs_int(a) % abs_int(b)
    }
}

/// An integer wrapped into the given width, two's complement.
pub open spec fn wrap_width(size: OperandSize, v: int) -> u16 {
    (((v % width_mask(size)) + width_mask(size)) % width_mask(size)) as u16
}

/// The state after an unsigned multiply: the double-width product lands
/// in AX, or in DX:AX, and CF and OF report a nonzero high half.
pub open spec fn spec_mul_state(s: CpuState, size: OperandSize, b: u16) -> CpuState
    recommends
        s.regs.len() == 8,
{
    let m = width_mask(size);
    let a = spec_get_register(s.regs, size, Register::AlAx) as int % m;
    let product = a * (b as int % m);
    let lo = (product % m) as u16;
    let hi = (product / m) as u16;
    let regs = if size is Byte {
        s.regs.update(0, (lo + hi * 0x100) as u16)
    } else {
        s.regs.update(0, lo).update(2, hi)
    };
    let flags = with_flag(with_flag(s.flags, CARRY, hi != 0), OVERFLOW, hi != 0);
    CpuState { regs, flags, ..s }
}

/// The state after a signed multiply: CF and OF report that the product
/// does not fit the signed low half.
pub open spec fn spec_imul_state(s: CpuState, size: OperandSize, b: u16) -> CpuState
    recommends
        s.regs.len() == 8,
{
    let m = width_mask(size);
    let a = as_signed(size, spec_get_register(s.regs, size, Register::AlAx));
    let product = a * as_signed(size, b);
    let full = ((product % (m * m)) + m * m) % (m * m);
    let lo = (full % m) as u16;
    let hi = (full / m) as u16;
    let regs = if size is Byte {
        s.regs.update(0, (lo + hi * 0x100) as u16)
    } else {
        s.regs.update(0, lo).update(2, hi)
    };
    let fits = 0 - m / 2 <= product < m / 2;
    let flags = with_flag(with_flag(s.flags, CARRY, !fits), OVERFLOW, !fits);
    CpuState { regs, flags, ..s }
}

/// The unsigned dividend of a divide: AX, or DX:AX.
pub open spec fn spec_dividend(s: CpuState, size: OperandSize) -> int
    recommends
        s.regs.len() == 8,
{
    if size is Byte {
        s.regs[0] as int
    } else {
        s.regs[2] * 0x10000 + s.regs[0]
    }
}

/// The state after an unsigned divide: quotient and remainder land in
/// AL and AH, or in AX and DX; a zero divisor or an oversize quotient
/// traps through interrupt vector zero instead.
pub open spec fn spec_div_state(
    s: CpuState,
    mf: spec_fn(u32) -> CpuError,
    size: OperandSize,
    b: u16,
) -> (Result<(), CpuError>, CpuState)
    recommends
        s.regs.len() == 8,
        s.segs.len() == 4,
{
    let m = width_mask(size);
    let divisor = b as int % m;
    if divisor == 0 {
        spec_int(s, mf, 0)
    } else {
        let dividend = spec_dividend(s, size);
        let q = dividend / divisor;
        let rem = dividend % divisor;
        if q >= m {
            spec_int(s, mf, 0)
        } else {
            let regs = if size is Byte {
                s.regs.update(0, (q + rem * 0x100) as u16)
            } else {
                s.regs.update(0, q as u16).update(2, rem as u16)
            };
            (Ok(()), CpuState { regs, ..s })
        }
    }
}

/// The state after a signed divide: truncated quotient and a remainder
/// with the dividend's sign; a zero divisor or a quotient outside the
/// signed range traps through interrupt vector zero.
#[verifier::opaque]
pub open spec fn spec_idiv_state(
    s: CpuState,
    mf: spec_fn(u32) -> CpuError,
    size: OperandSize,
    b: u16,
) -> (Result<(), CpuError>, CpuState)
    recommends
        s.regs.len() == 8,
        s.segs.len() == 4,
{
    let m = width_mask(size);
    let divisor = as_signed(size, b);
    if divisor == 0 {
        spec_int(s, mf, 0)
    } else {
        let raw = spec_dividend(s, size);
        let dividend = if raw >= m * m / 2 {
            raw - m * m
        } else {
            raw
        };
        let q = tdiv(dividend, divisor);
        let rem = tmod(dividend, divisor);
        if q < 0 - m / 2 || q >= m / 2 {
            spec_int(s, mf, 0)
        } else {
            let regs = if size is Byte {
                s.regs.update(0, (wrap_width(size, q) + wrap_width(size, rem) * 0x100) as u16)
            } else {
                s.regs.update(0, wrap_width(size, q)).update(2, wrap_width(size, rem))
            };
            (Ok(()), CpuState { regs, ..s })
        }
    }
}


/// A zero divisor makes the signed divide trap through vector zero.
proof fn lemma_idiv_divzero(s: CpuState, mf: spec_fn(u32) -> CpuError, size: OperandSize, b: u16)
    requires
        as_signed(size, b) == 0,
    ensures
        spec_idiv_state(s, mf, size, b) == spec_int(s, mf, 0),
{
    reveal(spec_idiv_state);
}

/// The wrapped signed dividend of the divide.
pub open spec fn spec_signed_dividend(s: CpuState, size: OperandSize) -> int {
    let m = width_mask(size);
    let raw = spec_dividend(s, size);
    if raw >= m * m / 2 {
        raw - m * m
    } else {
        raw
    }
}

/// A quotient outside the signed range makes the divide trap through
/// vector zero.
proof fn lemma_idiv_range(s: CpuState, mf: spec_fn(u32) -> CpuError, size: OperandSize, b: u16)
    requires
        as_signed(size, b) != 0,
        ({
            let q = tdiv(spec_signed_dividend(s, size), as_signed(size, b));
            q < 0 - width_mask(size) / 2 || q >= width_mask(size) / 2
        }),
    ensures
        spec_idiv_state(s, mf, size, b) == spec_int(s, mf, 0),
{
    reveal(spec_idiv_state);
}

/// An in-range signed divide stores the truncated quotient and the
/// remainder with the dividend's sign.
proof fn lemma_idiv_ok(s: CpuState, mf: spec_fn(u32) -> CpuError, size: OperandSize, b: u16)
    requires
        as_signed(size, b) != 0,
        ({
            let q = tdiv(spec_signed_dividend(s, size), as_signed(size, b));
            0 - width_mask(size) / 2 <= q < width_mask(size) / 2
        }),
    ensures
        ({
            let q = tdiv(spec_signed_dividend(s, size), as_signed(size, b));
            let rem = tmod(spec_signed_dividend(s, size), as_signed(size, b));
            spec_idiv_state(s, mf, size, b) == (
                Ok::<(), CpuError>(()),
                CpuState {
                    regs: if size is Byte {
                        s.regs.update(
                            0,
                            (wrap_width(size, q) + wrap_width(size, rem) * 0x100) as u16,
                        )
                    } else {
                        s.regs.update(0, wrap_width(size, q)).update(2, wrap_width(size, rem))
                    },
                    ..s
                },
            )
        }),
{
    reveal(spec_idiv_state);
}

/// Whether the top bit of a value at the given width is set.
pub open spec fn top_set(size: OperandSize, v: u16) -> bool {
    v as int % width_mask(size) >= width_mask(size) / 2
}

/// One step of a shift or rotate: the new value and the bit shifted out
/// into the carry.
pub open spec fn spec_shift_once(op: Operation, size: OperandSize, v: u16, cf: bool) -> (
    u16,
    bool,
)
    recommends
        v < width_mask(size),
{
    let m = width_mask(size);
    match op {
        Operation::Shl => (((v * 2) as int % m) as u16, v as int >= m / 2),
        Operation::Shr => ((v / 2) as u16, v % 2 == 1),
        Operation::Sar => (
            (v / 2 + if v as int >= m / 2 {
                (m / 2) as u16
            } else {
                0
            }) as u16,
            v % 2 == 1,
        ),
        Operation::Rol => (
            ((v * 2 + if v as int >= m / 2 {
                1int
            } else {
                0int
            }) % m) as u16,
            v as int >= m / 2,
        ),
        Operation::Ror => (
            (v / 2 + if v % 2 == 1 {
                (m / 2) as u16
            } else {
                0
            }) as u16,
            v % 2 == 1,
        ),
        Operation::Rcl => (
            ((v * 2 + if cf {
                1int
            } else {
                0int
            }) % m) as u16,
            v as int >= m / 2,
        ),
        Operation::Rcr => (
            (v / 2 + if cf {
                (m / 2) as u16
            } else {
                0
            }) as u16,
            v % 2 == 1,
        ),
        _ => (v, cf),
    }
}

/// A shift or rotate iterated `n` times.
pub open spec fn spec_shift_iter(op: Operation, size: OperandSize, v: u16, cf: bool, n: nat) -> (
    u16,
    bool,
)
    decreases n,
{
    if n == 0 {
        (v, cf)
    } else {
        let (v1, cf1) = spec_shift_once(op, size, v, cf);
        spec_shift_iter(op, size, v1, cf1, (n - 1) as nat)
    }
}

/// The overflow bit a one-bit shift defines: top-bit change for the
/// left-moving forms, the old top bit for SHR, the two top bits of the
/// result for the right rotates, and clear for SAR.
pub open spec fn spec_shift_overflow(op: Operation, size: OperandSize, orig: u16, result: u16, cf: bool) -> bool {
    match op {
        Operation::Shl | Operation::Rol | Operation::Rcl => top_set(size, result) != cf,
        Operation::Shr => top_set(size, orig),
        Operation::Sar => false,
        _ => top_set(size, result) != (result as int % (width_mask(size) / 2) >= width_mask(size)
            / 4),
    }
}

/// Whether a shift operation updates the zero, sign and parity bits:
/// the plain shifts do, the rotates touch only carry and overflow.
pub open spec fn shift_updates_zsp(op: Operation) -> bool {
    op == Operation::Shl || op == Operation::Shr || op == Operation::Sar
}

/// The state after a shift or rotate of `count` steps: the carry holds
/// the last bit shifted out, overflow is defined for one-bit shifts
/// only, and a count of zero changes nothing.
pub open spec fn spec_shift_state(
    flags: u16,
    op: Operation,
    size: OperandSize,
    v: u16,
    count: nat,
) -> (u16, u16)
    recommends
        v < width_mask(size),
{
    if count == 0 {
        (v, flags)
    } else {
        let (v1, cf1) = spec_shift_iter(op, size, v, flag_selected(flags, CARRY), count);
        let base = with_flag(flags, CARRY, cf1);
        let with_of = if count == 1 {
            with_flag(base, OVERFLOW, spec_shift_overflow(op, size, v, v1, cf1))
        } else {
            base
        };
        if shift_updates_zsp(op) {
            (v1, zsp_updated(with_of, v1, top_bit(size)))
        } else {
            (v1, with_of)
        }
    }
}

/// The state after a decimal adjust of AL following an addition: the
/// low nibble is corrected past nine or a half-carry, the high past
/// `0x99` or a carry.
pub open spec fn spec_daa(al: u16, af: bool, cf: bool) -> (u16, bool, bool) {
    let low_adjust = al % 16 > 9 || af;
    let al1 = if low_adjust {
        ((al + 6) % 0x100) as u16
    } else {
        al
    };
    let high_adjust = al > 0x99 || cf;
    let al2 = if high_adjust {
        ((al1 + 0x60) % 0x100) as u16
    } else {
        al1
    };
    (al2, low_adjust, high_adjust)
}

/// The state after a decimal adjust of AL following a subtraction.
pub open spec fn spec_das(al: u16, af: bool, cf: bool) -> (u16, bool, bool) {
    let low_adjust = al % 16 > 9 || af;
    let al1 = if low_adjust {
        ((al + 0x100 - 6) % 0x100) as u16
    } else {
        al
    };
    let high_adjust = al > 0x99 || cf;
    let al2 = if high_adjust {
        ((al1 + 0x100 - 0x60) % 0x100) as u16
    } else {
        al1
    };
    (al2, low_adjust, high_adjust)
}

/// The state after an ASCII adjust of AL and AH following an addition:
/// AL keeps only its low nibble, AH takes the decimal carry.
pub open spec fn spec_aaa(al: u16, ah: u16, af: bool) -> (u16, u16, bool) {
    if al % 16 > 9 || af {
        ((((al + 6) % 0x100) % 16) as u16, ((ah + 1) % 0x100) as u16, true)
    } else {
        ((al % 16) as u16, ah, false)
    }
}

/// The state after an ASCII adjust of AL and AH following a subtraction.
pub open spec fn spec_aas(al: u16, ah: u16, af: bool) -> (u16, u16, bool) {
    if al % 16 > 9 || af {
        ((((al + 0x100 - 6) % 0x100) % 16) as u16, ((ah + 0x100 - 1) % 0x100) as u16, true)
    } else {
        ((al % 16) as u16, ah, false)
    }
}

/// The width of a string operation, when the operation is one.
pub open spec fn string_op_size(operation: Operation) -> Option<OperandSize> {
    match operation {
        Operation::Movsb | Operation::Cmpsb | Operation::Stosb | Operation::Lodsb
            | Operation::Scasb => Some(OperandSize::Byte),
        Operation::Movsw | Operation::Cmpsw | Operation::Stosw | Operation::Lodsw
            | Operation::Scasw => Some(OperandSize::Word),
        _ => None,
    }
}

/// An index register after one string step: forward by the operand width
/// with the direction flag clear, backward with it set.
pub open spec fn spec_string_step(flags: u16, size: OperandSize, off: u16) -> u16 {
    let delta: int = if size is Word {
        2
    } else {
        1
    };
    if flag_selected(flags, DIRECTION) {
        ((off + 0x10000 - delta) % 0x10000) as u16
    } else {
        ((off + delta) % 0x10000) as u16
    }
}

/// One iteration of a string primitive: the SI side goes through the data
/// segment with any override, the DI side through ES.
pub open spec fn spec_string_once(
    s: CpuState,
    mf: spec_fn(u32) -> CpuError,
    operation: Operation,
    segment_override: Option<Segment>,
) -> (Result<(), CpuError>, CpuState)
    recommends
        s.regs.len() == 8,
        s.segs.len() == 4,
        string_op_size(operation) is Some,
{
    let size = string_op_size(operation)->0;
    let ds = s.segs[seg_index(spec_data_segment(segment_override, None))];
    let es = s.segs[0];
    let si = s.regs[6];
    let di = s.regs[7];
    match operation {
        Operation::Scasb | Operation::Scasw => {
            let acc = spec_get_register(s.regs, size, Register::AlAx);
            match spec_mem_read(s.mem, mf, es, di, size) {
                Err(e) => (Err(e), s),
                Ok(v) => {
                    let (_, flags) = spec_sub_result(size, acc, v, 0, s.flags);
                    (
                        Ok(()),
                        CpuState {
                            flags,
                            regs: s.regs.update(7, spec_string_step(s.flags, size, di)),
                            ..s
                        },
                    )
                },
            }
        },
        Operation::Cmpsb | Operation::Cmpsw => {
            match spec_mem_read(s.mem, mf, ds, si, size) {
                Err(e) => (Err(e), s),
                Ok(a) => {
                    match spec_mem_read(s.mem, mf, es, di, size) {
                        Err(e) => (Err(e), s),
                        Ok(b) => {
                            let (_, flags) = spec_sub_result(size, a, b, 0, s.flags);
                            (
                                Ok(()),
                                CpuState {
                                    flags,
                                    regs: s.regs.update(
                                        6,
                                        spec_string_step(s.flags, size, si),
                                    ).update(7, spec_string_step(s.flags, size, di)),
                                    ..s
                                },
                            )
                        },
                    }
                },
            }
        },
        Operation::Movsb | Operation::Movsw => {
            match spec_mem_read(s.mem, mf, ds, si, size) {
                Err(e) => (Err(e), s),
                Ok(v) => {
                    let (r, mem) = spec_mem_write(s.mem, mf, es, di, size, v);
                    match r {
                        Err(e) => (Err(e), CpuState { mem, ..s }),
                        Ok(_) => (
                            Ok(()),
                            CpuState {
                                mem,
                                regs: s.regs.update(6, spec_string_step(s.flags, size, si)).update(
                                    7,
                                    spec_string_step(s.flags, size, di),
                                ),
                                ..s
                            },
                        ),
                    }
                },
            }
        },
        Operation::Stosb | Operation::Stosw => {
            let acc = spec_get_register(s.regs, size, Register::AlAx);
            let (r, mem) = spec_mem_write(s.mem, mf, es, di, size, acc);
            match r {
                Err(e) => (Err(e), CpuState { mem, ..s }),
                Ok(_) => (
                    Ok(()),
                    CpuState {
                        mem,
                        regs: s.regs.update(7, spec_string_step(s.flags, size, di)),
                        ..s
                    },
                ),
            }
        },
        Operation::Lodsb | Operation::Lodsw => {
            match spec_mem_read(s.mem, mf, ds, si, size) {
                Err(e) => (Err(e), s),
                Ok(v) => (
                    Ok(()),
                    CpuState {
                        regs: spec_set_register(s.regs, size, Register::AlAx, v).update(
                            6,
                            spec_string_step(s.flags, size, si),
                        ),
                        ..s
                    },
                ),
            }
        },
        _ => (Err(CpuError::UnsupportedOperation(operation)), s),
    }
}

/// Whether a repeat prefix keeps iterating after one step: REPE asks for
/// the zero flag, REPNE for its absence, and the compare-free primitives
/// always continue.
pub open spec fn spec_rep_continues(operation: Operation, repeat: Repeat, flags: u16) -> bool {
    match operation {
        Operation::Scasb | Operation::Scasw | Operation::Cmpsb | Operation::Cmpsw => {
            match repeat {
                Repeat::Equal => flag_selected(flags, ZERO),
                Repeat::NotEqual => !flag_selected(flags, ZERO),
            }
        },
        _ => true,
    }
}

/// A repeated string primitive: nothing when CX is zero, else one step,
/// CX down by one, and on for as long as the repeat condition holds.
#[verifier::opaque]
pub open spec fn spec_rep(
    s: CpuState,
    mf: spec_fn(u32) -> CpuError,
    operation: Operation,
    repeat: Repeat,
    segment_override: Option<Segment>,
) -> (Result<(), CpuError>, CpuState)
    recommends
        s.regs.len() == 8,
        s.segs.len() == 4,
        string_op_size(operation) is Some,
    decreases s.regs[1],
{
    if s.regs.len() != 8 {
        (Ok(()), s)
    } else if s.regs[1] == 0 {
        (Ok(()), s)
    } else {
        let (r, s1) = spec_string_once(s, mf, operation, segment_override);
        match r {
            Err(e) => (Err(e), s1),
            Ok(_) => {
                let s2 = CpuState {
                    regs: s1.regs.update(1, (s.regs[1] - 1) as u16),
                    ..s1
                };
                if spec_rep_continues(operation, repeat, s2.flags) {
                    spec_rep(s2, mf, operation, repeat, segment_override)
                } else {
                    (Ok(()), s2)
                }
            },
        }
    }
}


/// What one step of this group does to the machine state: MOV, the ALU family, INC and DEC.
#[verifier::opaque]
pub open spec fn spec_exec_data(
    s: CpuState,
    mf: spec_fn(u32) -> CpuError,
    pf: spec_fn(u32) -> CpuError,
    i: Instruction,
) -> (Result<(), CpuError>, CpuState)
    recommends
        s.regs.len() == 8,
        s.segs.len() == 4,
{
    let operation = i.operation;
    let ovr = i.segment_override;
    match operation {
        Operation::Mov => {
            match i.operands {
                OperandSet::DestinationAndSource(dst, src) => {
                    match spec_operand_value(s, mf, ovr, src) {
                        Err(e) => (Err(e), s),
                        Ok(v) => spec_store_operand(s, mf, operation, ovr, dst, v),
                    }
                },
                _ => (Err(CpuError::UnsupportedOperation(operation)), s),
            }
        },
        Operation::Add | Operation::Adc | Operation::Sub | Operation::Sbb | Operation::Cmp
            | Operation::And | Operation::Or | Operation::Xor | Operation::Test => {
            match i.operands {
                OperandSet::DestinationAndSource(dst, src) => {
                    let Operand(_, size) = dst;
                    match spec_operand_value(s, mf, ovr, dst) {
                        Err(e) => (Err(e), s),
                        Ok(a) => {
                            match spec_operand_value(s, mf, ovr, src) {
                                Err(e) => (Err(e), s),
                                Ok(b) => {
                                    let (result, new_flags) = spec_alu(
                                        operation,
                                        size,
                                        a,
                                        b,
                                        s.flags,
                                    )->0;
                                    let s1 = CpuState { flags: new_flags, ..s };
                                    if alu_stores(operation) {
                                        spec_store_operand(s1, mf, operation, ovr, dst, result)
                                    } else {
                                        (Ok(()), s1)
                                    }
                                },
                            }
                        },
                    }
                },
                _ => (Err(CpuError::UnsupportedOperation(operation)), s),
            }
        },
        Operation::Inc | Operation::Dec => {
            match i.operands {
                OperandSet::Destination(dst) => {
                    let Operand(_, size) = dst;
                    match spec_operand_value(s, mf, ovr, dst) {
                        Err(e) => (Err(e), s),
                        Ok(a) => {
                            let (result, f) = if operation == Operation::Inc {
                                spec_add_result(size, a, 1, 0, s.flags)
                            } else {
                                spec_sub_result(size, a, 1, 0, s.flags)
                            };
                            let kept = with_flag(f, CARRY, flag_selected(s.flags, CARRY));
                            let s1 = CpuState { flags: kept, ..s };
                            spec_store_operand(s1, mf, operation, ovr, dst, result)
                        },
                    }
                },
                _ => (Err(CpuError::UnsupportedOperation(operation)), s),
            }
        },
        _ => (Err(CpuError::UnsupportedOperation(operation)), s),
    }
}

/// What one step of this group does to the machine state: stack, flag-image and port transfers.
#[verifier::opaque]
pub open spec fn spec_exec_transfer(
    s: CpuState,
    mf: spec_fn(u32) -> CpuError,
    pf: spec_fn(u32) -> CpuError,
    i: Instruction,
) -> (Result<(), CpuError>, CpuState)
    recommends
        s.regs.len() == 8,
        s.segs.len() == 4,
{
    let operation = i.operation;
    let ovr = i.segment_override;
    match operation {
        Operation::Push => {
            match i.operands {
                OperandSet::Destination(src) => {
                    match spec_operand_value(s, mf, ovr, src) {
                        Err(e) => (Err(e), s),
                        Ok(v) => spec_push(s, mf, v),
                    }
                },
                _ => (Err(CpuError::UnsupportedOperation(operation)), s),
            }
        },
        Operation::Pop => {
            match i.operands {
                OperandSet::Destination(dst) => {
                    let (r, s1) = spec_pop(s, mf);
                    match r {
                        Err(e) => (Err(e), s1),
                        Ok(v) => spec_store_operand(s1, mf, operation, ovr, dst, v),
                    }
                },
                _ => (Err(CpuError::UnsupportedOperation(operation)), s),
            }
        },
        Operation::Pushf => spec_push(s, mf, s.flags),
        Operation::Popf => {
            let (r, s1) = spec_pop(s, mf);
            match r {
                Err(e) => (Err(e), s1),
                Ok(v) => (Ok(()), CpuState { flags: v, ..s1 }),
            }
        },
        Operation::Lahf => {
            let ah = (s.flags % 0x100) as u16 & 0xD5 | 0x02;
            (
                Ok(()),
                CpuState {
                    regs: spec_set_register(s.regs, OperandSize::Byte, Register::AhSp, ah),
                    ..s
                },
            )
        },
        Operation::Sahf => {
            let ah = spec_get_register(s.regs, OperandSize::Byte, Register::AhSp);
            let flags = (s.flags & !0xD5u16) | (ah & 0xD5);
            (Ok(()), CpuState { flags, ..s })
        },
        Operation::In => {
            match i.operands {
                OperandSet::DestinationAndSource(dst, src) => {
                    let Operand(_, size) = dst;
                    match spec_operand_value(s, mf, ovr, src) {
                        Err(e) => (Err(e), s),
                        Ok(port) => {
                            match spec_io_read(s.io, pf, port, size) {
                                Err(e) => (Err(e), s),
                                Ok(v) => spec_store_operand(s, mf, operation, ovr, dst, v),
                            }
                        },
                    }
                },
                _ => (Err(CpuError::UnsupportedOperation(operation)), s),
            }
        },
        Operation::Out => {
            match i.operands {
                OperandSet::DestinationAndSource(dst, src) => {
                    let Operand(_, size) = src;
                    match spec_operand_value(s, mf, ovr, dst) {
                        Err(e) => (Err(e), s),
                        Ok(port) => {
                            match spec_operand_value(s, mf, ovr, src) {
                                Err(e) => (Err(e), s),
                                Ok(v) => {
                                    let (r, io) = spec_io_write(s.io, pf, port, size, v);
                                    (r, CpuState { io, ..s })
                                },
                            }
                        },
                    }
                },
                _ => (Err(CpuError::UnsupportedOperation(operation)), s),
            }
        },
        _ => (Err(CpuError::UnsupportedOperation(operation)), s),
    }
}

/// What one step of this group does to the machine state: jumps, calls, returns and interrupts.
#[verifier::opaque]
pub open spec fn spec_exec_control(
    s: CpuState,
    mf: spec_fn(u32) -> CpuError,
    pf: spec_fn(u32) -> CpuError,
    i: Instruction,
) -> (Result<(), CpuError>, CpuState)
    recommends
        s.regs.len() == 8,
        s.segs.len() == 4,
{
    let operation = i.operation;
    let ovr = i.segment_override;
    match operation {
        Operation::Jmp => {
            match i.operands {
                OperandSet::Offset(v) => (Ok(()), CpuState { ip: spec_ip_rel16(s.ip, v), ..s }),
                OperandSet::SegmentAndOffset(seg, off) => (
                    Ok(()),
                    CpuState { ip: off, segs: s.segs.update(1, seg), ..s },
                ),
                OperandSet::Destination(target) => {
                    match spec_operand_value(s, mf, ovr, target) {
                        Err(e) => (Err(e), s),
                        Ok(v) => (Ok(()), CpuState { ip: v, ..s }),
                    }
                },
                _ => (Err(CpuError::UnsupportedOperation(operation)), s),
            }
        },
        Operation::Call => {
            match i.operands {
                OperandSet::Offset(v) => {
                    let (r, s1) = spec_push(s, mf, s.ip);
                    match r {
                        Err(e) => (Err(e), s1),
                        Ok(_) => (Ok(()), CpuState { ip: spec_ip_rel16(s1.ip, v), ..s1 }),
                    }
                },
                OperandSet::SegmentAndOffset(seg, off) => {
                    let (r1, s1) = spec_push(s, mf, s.segs[1]);
                    match r1 {
                        Err(e) => (Err(e), s1),
                        Ok(_) => {
                            let (r2, s2) = spec_push(s1, mf, s1.ip);
                            match r2 {
                                Err(e) => (Err(e), s2),
                                Ok(_) => (
                                    Ok(()),
                                    CpuState { ip: off, segs: s2.segs.update(1, seg), ..s2 },
                                ),
                            }
                        },
                    }
                },
                OperandSet::Destination(target) => {
                    match spec_operand_value(s, mf, ovr, target) {
                        Err(e) => (Err(e), s),
                        Ok(v) => {
                            let (r, s1) = spec_push(s, mf, s.ip);
                            match r {
                                Err(e) => (Err(e), s1),
                                Ok(_) => (Ok(()), CpuState { ip: v, ..s1 }),
                            }
                        },
                    }
                },
                _ => (Err(CpuError::UnsupportedOperation(operation)), s),
            }
        },
        Operation::Ret => {
            match i.operands {
                OperandSet::Empty => {
                    let (r, s1) = spec_pop(s, mf);
                    match r {
                        Err(e) => (Err(e), s1),
                        Ok(v) => (Ok(()), CpuState { ip: v, ..s1 }),
                    }
                },
                OperandSet::Destination(Operand(OperandType::Immediate(n), _)) => {
                    let (r, s1) = spec_pop(s, mf);
                    match r {
                        Err(e) => (Err(e), s1),
                        Ok(v) => (
                            Ok(()),
                            CpuState {
                                ip: v,
                                regs: s1.regs.update(
                                    4,
                                    ((s1.regs[4] + n) % 0x10000) as u16,
                                ),
                                ..s1
                            },
                        ),
                    }
                },
                OperandSet::Offset(n) => {
                    let (r1, s1) = spec_pop(s, mf);
                    match r1 {
                        Err(e) => (Err(e), s1),
                        Ok(new_ip) => {
                            let (r2, s2) = spec_pop(s1, mf);
                            match r2 {
                                Err(e) => (Err(e), s2),
                                Ok(new_cs) => (
                                    Ok(()),
                                    CpuState {
                                        ip: new_ip,
                                        segs: s2.segs.update(1, new_cs),
                                        regs: s2.regs.update(
                                            4,
                                            ((s2.regs[4] + n) % 0x10000) as u16,
                                        ),
                                        ..s2
                                    },
                                ),
                            }
                        },
                    }
                },
                _ => (Err(CpuError::UnsupportedOperation(operation)), s),
            }
        },
        Operation::Int => {
            match i.operands {
                OperandSet::Destination(Operand(OperandType::Immediate(n), _)) => {
                    spec_int(s, mf, (n % 0x100) as u16)
                },
                _ => (Err(CpuError::UnsupportedOperation(operation)), s),
            }
        },
        Operation::Into => {
            if flag_selected(s.flags, OVERFLOW) {
                spec_int(s, mf, 4)
            } else {
                (Ok(()), s)
            }
        },
        Operation::IRet => {
            let (r1, s1) = spec_pop(s, mf);
            match r1 {
                Err(e) => (Err(e), s1),
                Ok(ip) => {
                    let (r2, s2) = spec_pop(s1, mf);
                    match r2 {
                        Err(e) => (Err(e), s2),
                        Ok(cs) => {
                            let (r3, s3) = spec_pop(s2, mf);
                            match r3 {
                                Err(e) => (Err(e), s3),
                                Ok(fl) => (
                                    Ok(()),
                                    CpuState {
                                        ip,
                                        segs: s3.segs.update(1, cs),
                                        flags: fl,
                                        ..s3
                                    },
                                ),
                            }
                        },
                    }
                },
            }
        },
        Operation::Je | Operation::Jne | Operation::Jb | Operation::Jnb | Operation::Jbe
            | Operation::Jnbe | Operation::Jp | Operation::Jnp | Operation::Jo | Operation::Jno
            | Operation::Js | Operation::Jns | Operation::Jl | Operation::Jnl | Operation::Jle
            | Operation::Jnle => {
            match i.operands {
                OperandSet::Offset(v) => {
                    if spec_condition(operation, s.flags)->0 {
                        (Ok(()), CpuState { ip: spec_ip_rel8(s.ip, v), ..s })
                    } else {
                        (Ok(()), s)
                    }
                },
                _ => (Err(CpuError::UnsupportedOperation(operation)), s),
            }
        },
        Operation::Loop | Operation::Loopz | Operation::Loopnz => {
            match i.operands {
                OperandSet::Offset(v) => {
                    let cx = ((s.regs[1] + 0x10000 - 1) % 0x10000) as u16;
                    let s1 = CpuState { regs: s.regs.update(1, cx), ..s };
                    let zf = flag_selected(s.flags, ZERO);
                    let taken = cx != 0 && (match operation {
                        Operation::Loopz => zf,
                        Operation::Loopnz => !zf,
                        _ => true,
                    });
                    if taken {
                        (Ok(()), CpuState { ip: spec_ip_rel8(s1.ip, v), ..s1 })
                    } else {
                        (Ok(()), s1)
                    }
                },
                _ => (Err(CpuError::UnsupportedOperation(operation)), s),
            }
        },
        Operation::Jcxz => {
            match i.operands {
                OperandSet::Offset(v) => {
                    if s.regs[1] == 0 {
                        (Ok(()), CpuState { ip: spec_ip_rel8(s.ip, v), ..s })
                    } else {
                        (Ok(()), s)
                    }
                },
                _ => (Err(CpuError::UnsupportedOperation(operation)), s),
            }
        },
        _ => (Err(CpuError::UnsupportedOperation(operation)), s),
    }
}

/// What one step of this group does to the machine state: processor control and the string primitives.
#[verifier::opaque]
pub open spec fn spec_exec_misc(
    s: CpuState,
    mf: spec_fn(u32) -> CpuError,
    pf: spec_fn(u32) -> CpuError,
    i: Instruction,
) -> (Result<(), CpuError>, CpuState)
    recommends
        s.regs.len() == 8,
        s.segs.len() == 4,
{
    let operation = i.operation;
    let ovr = i.segment_override;
    match operation {
        Operation::Hlt => (Ok(()), CpuState { halted: true, ..s }),
        Operation::Clc => (Ok(()), CpuState { flags: with_flag(s.flags, CARRY, false), ..s }),
        Operation::Stc => (Ok(()), CpuState { flags: with_flag(s.flags, CARRY, true), ..s }),
        Operation::Cmc => (
            Ok(()),
            CpuState { flags: with_flag(s.flags, CARRY, !flag_selected(s.flags, CARRY)), ..s },
        ),
        Operation::Cld => (Ok(()), CpuState { flags: with_flag(s.flags, DIRECTION, false), ..s }),
        Operation::Std => (Ok(()), CpuState { flags: with_flag(s.flags, DIRECTION, true), ..s }),
        Operation::Cli => (Ok(()), CpuState { flags: with_flag(s.flags, INTERRUPT, false), ..s }),
        Operation::Sti => (Ok(()), CpuState { flags: with_flag(s.flags, INTERRUPT, true), ..s }),
        Operation::Esc | Operation::Wait | Operation::Lock => (Ok(()), s),
        Operation::Movsb | Operation::Movsw | Operation::Cmpsb | Operation::Cmpsw
            | Operation::Stosb | Operation::Stosw | Operation::Lodsb | Operation::Lodsw
            | Operation::Scasb | Operation::Scasw => {
            match i.repeat {
                None => spec_string_once(s, mf, operation, ovr),
                Some(repeat) => spec_rep(s, mf, operation, repeat, ovr),
            }
        },
        _ => (Err(CpuError::UnsupportedOperation(operation)), s),
    }
}

/// What one step of this group does to the machine state: complements, swaps, pointer and table loads, and the decimal adjusts.
#[verifier::opaque]
pub open spec fn spec_exec_special(
    s: CpuState,
    mf: spec_fn(u32) -> CpuError,
    pf: spec_fn(u32) -> CpuError,
    i: Instruction,
) -> (Result<(), CpuError>, CpuState)
    recommends
        s.regs.len() == 8,
        s.segs.len() == 4,
{
    let operation = i.operation;
    let ovr = i.segment_override;
    match operation {
        Operation::Not => {
            match i.operands {
                OperandSet::Destination(dst) => {
                    let Operand(_, size) = dst;
                    match spec_operand_value(s, mf, ovr, dst) {
                        Err(e) => (Err(e), s),
                        Ok(a) => spec_store_operand(
                            s,
                            mf,
                            operation,
                            ovr,
                            dst,
                            spec_not_result(size, a),
                        ),
                    }
                },
                _ => (Err(CpuError::UnsupportedOperation(operation)), s),
            }
        },
        Operation::Neg => {
            match i.operands {
                OperandSet::Destination(dst) => {
                    let Operand(_, size) = dst;
                    match spec_operand_value(s, mf, ovr, dst) {
                        Err(e) => (Err(e), s),
                        Ok(a) => {
                            let (result, f) = spec_sub_result(size, 0, a, 0, s.flags);
                            spec_store_operand(
                                CpuState { flags: f, ..s },
                                mf,
                                operation,
                                ovr,
                                dst,
                                result,
                            )
                        },
                    }
                },
                _ => (Err(CpuError::UnsupportedOperation(operation)), s),
            }
        },
        Operation::Xchg => {
            match i.operands {
                OperandSet::DestinationAndSource(dst, src) => {
                    match spec_operand_value(s, mf, ovr, dst) {
                        Err(e) => (Err(e), s),
                        Ok(a) => match spec_operand_value(s, mf, ovr, src) {
                            Err(e) => (Err(e), s),
                            Ok(b) => {
                                let (r1, s1) = spec_store_operand(s, mf, operation, ovr, dst, b);
                                match r1 {
                                    Err(e) => (Err(e), s1),
                                    Ok(_) => spec_store_operand(s1, mf, operation, ovr, src, a),
                                }
                            },
                        },
                    }
                },
                _ => (Err(CpuError::UnsupportedOperation(operation)), s),
            }
        },
        Operation::Lea => {
            match i.operands {
                OperandSet::DestinationAndSource(dst, src) => {
                    let Operand(st, _) = src;
                    match st {
                        OperandType::Direct(off) => spec_store_operand(
                            s,
                            mf,
                            operation,
                            ovr,
                            dst,
                            off,
                        ),
                        OperandType::Indirect(mode, displacement) => spec_store_operand(
                            s,
                            mf,
                            operation,
                            ovr,
                            dst,
                            spec_ea(s.regs, mode, displacement),
                        ),
                        _ => (Err(CpuError::UnsupportedOperation(operation)), s),
                    }
                },
                _ => (Err(CpuError::UnsupportedOperation(operation)), s),
            }
        },
        Operation::Lds | Operation::Les => {
            match i.operands {
                OperandSet::DestinationAndSource(dst, src) => {
                    let Operand(st, _) = src;
                    let seg_slot: int = if operation == Operation::Lds {
                        3
                    } else {
                        0
                    };
                    let addr: Option<(u16, u16)> = match st {
                        OperandType::Direct(off) => Some(
                            (s.segs[seg_index(spec_data_segment(ovr, None))], off),
                        ),
                        OperandType::Indirect(mode, displacement) => Some(
                            (
                                s.segs[seg_index(spec_data_segment(ovr, Some(mode)))],
                                spec_ea(s.regs, mode, displacement),
                            ),
                        ),
                        _ => None,
                    };
                    match addr {
                        None => (Err(CpuError::UnsupportedOperation(operation)), s),
                        Some((seg, off)) => {
                            match spec_mem_read(s.mem, mf, seg, off, OperandSize::Word) {
                                Err(e) => (Err(e), s),
                                Ok(lo) => {
                                    match spec_mem_read(
                                        s.mem,
                                        mf,
                                        seg,
                                        ((off + 2) % 0x10000) as u16,
                                        OperandSize::Word,
                                    ) {
                                        Err(e) => (Err(e), s),
                                        Ok(hi) => {
                                            let (r1, s1) = spec_store_operand(
                                                s,
                                                mf,
                                                operation,
                                                ovr,
                                                dst,
                                                lo,
                                            );
                                            match r1 {
                                                Err(e) => (Err(e), s1),
                                                Ok(_) => (
                                                    Ok(()),
                                                    CpuState {
                                                        segs: s1.segs.update(seg_slot, hi),
                                                        ..s1
                                                    },
                                                ),
                                            }
                                        },
                                    }
                                },
                            }
                        },
                    }
                },
                _ => (Err(CpuError::UnsupportedOperation(operation)), s),
            }
        },
        Operation::Cbw => (
            Ok(()),
            CpuState {
                regs: s.regs.update(0, sign_extend_u8((s.regs[0] % 0x100) as u8)),
                ..s
            },
        ),
        Operation::Cwd => (
            Ok(()),
            CpuState {
                regs: s.regs.update(
                    2,
                    if s.regs[0] >= 0x8000 {
                        0xFFFFu16
                    } else {
                        0u16
                    },
                ),
                ..s
            },
        ),
        Operation::Xlat => {
            let seg = s.segs[seg_index(spec_data_segment(ovr, None))];
            let off = ((s.regs[3] + s.regs[0] % 0x100) % 0x10000) as u16;
            match spec_mem_read(s.mem, mf, seg, off, OperandSize::Byte) {
                Err(e) => (Err(e), s),
                Ok(v) => (
                    Ok(()),
                    CpuState {
                        regs: spec_set_register(s.regs, OperandSize::Byte, Register::AlAx, v),
                        ..s
                    },
                ),
            }
        },
        _ => (Err(CpuError::UnsupportedOperation(operation)), s),
    }
}

/// What one step of this group does to the machine state: the decimal
/// and ASCII adjusts.
#[verifier::opaque]
pub open spec fn spec_exec_decimal(
    s: CpuState,
    mf: spec_fn(u32) -> CpuError,
    pf: spec_fn(u32) -> CpuError,
    i: Instruction,
) -> (Result<(), CpuError>, CpuState)
    recommends
        s.regs.len() == 8,
        s.segs.len() == 4,
{
    let operation = i.operation;
    let ovr = i.segment_override;
    match operation {
        Operation::Baa | Operation::Das => {
            let al = spec_get_register(s.regs, OperandSize::Byte, Register::AlAx);
            let (al2, af, cf) = if operation == Operation::Baa {
                spec_daa(al, flag_selected(s.flags, AUX_CARRY), flag_selected(s.flags, CARRY))
            } else {
                spec_das(al, flag_selected(s.flags, AUX_CARRY), flag_selected(s.flags, CARRY))
            };
            let flags = zsp_updated(
                with_flag(with_flag(s.flags, AUX_CARRY, af), CARRY, cf),
                al2,
                0x80,
            );
            (
                Ok(()),
                CpuState {
                    regs: spec_set_register(s.regs, OperandSize::Byte, Register::AlAx, al2),
                    flags,
                    ..s
                },
            )
        },
        Operation::Aaa | Operation::Aas => {
            let al = spec_get_register(s.regs, OperandSize::Byte, Register::AlAx);
            let ah = spec_get_register(s.regs, OperandSize::Byte, Register::AhSp);
            let (al2, ah2, carry) = if operation == Operation::Aaa {
                spec_aaa(al, ah, flag_selected(s.flags, AUX_CARRY))
            } else {
                spec_aas(al, ah, flag_selected(s.flags, AUX_CARRY))
            };
            let flags = with_flag(with_flag(s.flags, AUX_CARRY, carry), CARRY, carry);
            (
                Ok(()),
                CpuState {
                    regs: s.regs.update(0, (al2 + ah2 * 0x100) as u16),
                    flags,
                    ..s
                },
            )
        },
        Operation::Aam => {
            match i.operands {
                OperandSet::Destination(Operand(OperandType::Immediate(n), _)) => {
                    let base = n % 0x100;
                    if base == 0 {
                        spec_int(s, mf, 0)
                    } else {
                        let al = spec_get_register(s.regs, OperandSize::Byte, Register::AlAx);
                        let q = (al / base) as u16;
                        let rem = (al % base) as u16;
                        (
                            Ok(()),
                            CpuState {
                                regs: s.regs.update(0, (rem + q * 0x100) as u16),
                                flags: zsp_updated(s.flags, rem, 0x80),
                                ..s
                            },
                        )
                    }
                },
                _ => (Err(CpuError::UnsupportedOperation(operation)), s),
            }
        },
        Operation::Aad => {
            match i.operands {
                OperandSet::Destination(Operand(OperandType::Immediate(n), _)) => {
                    let base = n % 0x100;
                    let al = spec_get_register(s.regs, OperandSize::Byte, Register::AlAx);
                    let ah = spec_get_register(s.regs, OperandSize::Byte, Register::AhSp);
                    let al2 = ((al + ah * base) % 0x100) as u16;
                    (
                        Ok(()),
                        CpuState {
                            regs: s.regs.update(0, al2),
                            flags: zsp_updated(s.flags, al2, 0x80),
                            ..s
                        },
                    )
                },
                _ => (Err(CpuError::UnsupportedOperation(operation)), s),
            }
        },
        _ => (Err(CpuError::UnsupportedOperation(operation)), s),
    }
}

/// What one step of this group does to the machine state: multiplies, divides, shifts and rotates.
#[verifier::opaque]
pub open spec fn spec_exec_wide(
    s: CpuState,
    mf: spec_fn(u32) -> CpuError,
    pf: spec_fn(u32) -> CpuError,
    i: Instruction,
) -> (Result<(), CpuError>, CpuState)
    recommends
        s.regs.len() == 8,
        s.segs.len() == 4,
{
    let operation = i.operation;
    let ovr = i.segment_override;
    match operation {
        Operation::Mul | Operation::Imul => {
            match i.operands {
                OperandSet::Destination(src) => {
                    let Operand(_, size) = src;
                    match spec_operand_value(s, mf, ovr, src) {
                        Err(e) => (Err(e), s),
                        Ok(b) => {
                            if operation == Operation::Mul {
                                (Ok(()), spec_mul_state(s, size, b))
                            } else {
                                (Ok(()), spec_imul_state(s, size, b))
                            }
                        },
                    }
                },
                _ => (Err(CpuError::UnsupportedOperation(operation)), s),
            }
        },
        Operation::Div | Operation::Idiv => {
            match i.operands {
                OperandSet::Destination(src) => {
                    let Operand(_, size) = src;
                    match spec_operand_value(s, mf, ovr, src) {
                        Err(e) => (Err(e), s),
                        Ok(b) => {
                            if operation == Operation::Div {
                                spec_div_state(s, mf, size, b)
                            } else {
                                spec_idiv_state(s, mf, size, b)
                            }
                        },
                    }
                },
                _ => (Err(CpuError::UnsupportedOperation(operation)), s),
            }
        },
        Operation::Shl | Operation::Shr | Operation::Sar | Operation::Rol | Operation::Ror
            | Operation::Rcl | Operation::Rcr => {
            match i.operands {
                OperandSet::DestinationAndSource(dst, count) => {
                    let Operand(_, size) = dst;
                    match spec_operand_value(s, mf, ovr, dst) {
                        Err(e) => (Err(e), s),
                        Ok(a) => match spec_operand_value(s, mf, ovr, count) {
                            Err(e) => (Err(e), s),
                            Ok(n) => {
                                let (result, flags) = spec_shift_state(
                                    s.flags,
                                    operation,
                                    size,
                                    masked(size, a),
                                    (n % 0x100) as nat,
                                );
                                spec_store_operand(
                                    CpuState { flags, ..s },
                                    mf,
                                    operation,
                                    ovr,
                                    dst,
                                    result,
                                )
                            },
                        },
                    }
                },
                _ => (Err(CpuError::UnsupportedOperation(operation)), s),
            }
        },
        _ => (Err(CpuError::UnsupportedOperation(operation)), s),
    }
}

/// What executing one decoded instruction does to the machine state.  The
/// instruction pointer already stands past the instruction; relative jumps
/// add to it.  The result keeps the partial state of a faulted access, as
/// the engine leaves it.
pub open spec fn spec_execute(
    s: CpuState,
    mf: spec_fn(u32) -> CpuError,
    pf: spec_fn(u32) -> CpuError,
    i: Instruction,
) -> (Result<(), CpuError>, CpuState)
    recommends
        s.regs.len() == 8,
        s.segs.len() == 4,
{
    match i.operation {
        Operation::Mov | Operation::Add | Operation::Adc | Operation::Sub | Operation::Sbb
            | Operation::Cmp | Operation::And | Operation::Or | Operation::Xor | Operation::Test
            | Operation::Inc | Operation::Dec => spec_exec_data(s, mf, pf, i),
        Operation::Push | Operation::Pop | Operation::Pushf | Operation::Popf | Operation::Lahf
            | Operation::Sahf | Operation::In | Operation::Out => spec_exec_transfer(
            s,
            mf,
            pf,
            i,
        ),
        Operation::Jmp | Operation::Call | Operation::Ret | Operation::Int | Operation::Into
            | Operation::IRet | Operation::Je | Operation::Jne | Operation::Jb | Operation::Jnb
            | Operation::Jbe | Operation::Jnbe | Operation::Jp | Operation::Jnp | Operation::Jo
            | Operation::Jno | Operation::Js | Operation::Jns | Operation::Jl | Operation::Jnl
            | Operation::Jle | Operation::Jnle | Operation::Loop | Operation::Loopz
            | Operation::Loopnz | Operation::Jcxz => spec_exec_control(s, mf, pf, i),
        Operation::Hlt | Operation::Clc | Operation::Stc | Operation::Cmc | Operation::Cld
            | Operation::Std | Operation::Cli | Operation::Sti | Operation::Esc | Operation::Wait
            | Operation::Lock | Operation::Movsb | Operation::Movsw | Operation::Cmpsb
            | Operation::Cmpsw | Operation::Stosb | Operation::Stosw | Operation::Lodsb
            | Operation::Lodsw | Operation::Scasb | Operation::Scasw => spec_exec_misc(
            s,
            mf,
            pf,
            i,
        ),
        Operation::Not | Operation::Neg | Operation::Xchg | Operation::Lea | Operation::Lds
            | Operation::Les | Operation::Cbw | Operation::Cwd | Operation::Xlat => {
            spec_exec_special(s, mf, pf, i)
        },
        Operation::Baa | Operation::Das | Operation::Aaa | Operation::Aas | Operation::Aam
            | Operation::Aad => spec_exec_decimal(s, mf, pf, i),
        Operation::Mul | Operation::Imul | Operation::Div | Operation::Idiv | Operation::Shl
            | Operation::Shr | Operation::Sar | Operation::Rol | Operation::Ror | Operation::Rcl
            | Operation::Rcr => spec_exec_wide(s, mf, pf, i),
    }
}


/// A value read from the port bus: one byte, or a little-endian word over
/// two consecutive ports.
pub open spec fn spec_io_read(
    io: Seq<u8>,
    pf: spec_fn(u32) -> CpuError,
    port: u16,
    size: OperandSize,
) -> Result<u16, CpuError> {
    match size {
        OperandSize::Byte => {
            match spec_mem_byte(io, pf, port as u32) {
                Ok(b) => Ok(b as u16),
                Err(e) => Err(e),
            }
        },
        OperandSize::Word => {
            match spec_mem_byte(io, pf, port as u32) {
                Err(e) => Err(e),
                Ok(lo) => {
                    match spec_mem_byte(io, pf, (port + 1) as u32) {
                        Err(e) => Err(e),
                        Ok(hi) => Ok((lo + hi * 0x100) as u16),
                    }
                },
            }
        },
    }
}

/// The port bus after a write: one byte, or a word over two consecutive
/// ports, low byte first.
pub open spec fn spec_io_write(
    io: Seq<u8>,
    pf: spec_fn(u32) -> CpuError,
    port: u16,
    size: OperandSize,
    value: u16,
) -> (Result<(), CpuError>, Seq<u8>) {
    match size {
        OperandSize::Byte => spec_mem_store_byte(io, pf, port as u32, (value % 0x100) as u8),
        OperandSize::Word => {
            let (r1, io1) = spec_mem_store_byte(io, pf, port as u32, (value % 0x100) as u8);
            match r1 {
                Ok(_) => spec_mem_store_byte(io1, pf, (port + 1) as u32, (value / 0x100) as u8),
                Err(e) => (Err(e), io1),
            }
        },
    }
}

/// The CPU: the register file, segment registers, instruction pointer,
/// status word, and its two buses.
pub struct CPU<M: Bus, P: Bus> {
    pub registers: [u16; 8],
    pub segments: [u16; 4],
    pub ip: u16,
    pub flags: Flags,
    pub memory: M,
    pub io: P,
    pub halted: bool,
}

/// The 20-bit linear address of a segment and offset pair.
pub fn linear(seg: u16, off: u16) -> (r: u32)
    ensures
        r == spec_linear(seg, off),
{
    (seg as u32 * 16 + off as u32) % 0x100000
}

/// Law: segmentation resolves every pair as the shifted-and-masked form
/// `((seg << 4) + off) & 0xFFFFF`.
pub proof fn lemma_linear_shift_mask(seg: u16, off: u16)
    ensures
        spec_linear(seg, off) == (((seg as u32) << 4) + (off as u32)) as u32 & 0xFFFFF,
{
    assert(((seg as u32 * 16 + off as u32) % 0x100000) as u32 == (((seg as u32) << 4) + (
    off as u32)) as u32 & 0xFFFFF) by (bit_vector);
}

impl<M: Bus, P: Bus> CPU<M, P> {
    /// The snapshot of this CPU the contracts speak of.
    pub open spec fn state(&self) -> CpuState {
        CpuState {
            regs: self.registers@,
            segs: self.segments@,
            ip: self.ip,
            flags: self.flags.bits,
            mem: self.memory.contents(),
            io: self.io.contents(),
            halted: self.halted,
        }
    }

    /// The memory bus fault map.
    pub open spec fn mem_fault(&self) -> spec_fn(u32) -> CpuError {
        |a: u32| self.memory.fault(a)
    }

    /// The port bus fault map.
    pub open spec fn io_fault(&self) -> spec_fn(u32) -> CpuError {
        |a: u32| self.io.fault(a)
    }

    /// Both fault maps unchanged, as every engine step leaves them.
    pub open spec fn faults_match(&self, other: &Self) -> bool {
        self.mem_fault() == other.mem_fault() && self.io_fault() == other.io_fault()
    }

    /// Both fault maps agree at every address.
    pub open spec fn faults_preserved(&self, other: &Self) -> bool {
        (forall|x: u32| #[trigger] self.memory.fault(x) == other.memory.fault(x)) && (forall|
            x: u32,
        | #[trigger] self.io.fault(x) == other.io.fault(x))
    }

    /// A CPU over the given buses, every register and flag clear.
    pub fn new(memory: M, io: P) -> (r: Self)
        ensures
            r.registers@ == Seq::<u16>::new(8, |i: int| 0u16),
            r.segments@ == Seq::<u16>::new(4, |i: int| 0u16),
            r.ip == 0,
            r.flags.bits == 0,
            r.memory == memory,
            r.io == io,
            !r.halted,
    {
        let r = Self {
            registers: [0, 0, 0, 0, 0, 0, 0, 0],
            segments: [0, 0, 0, 0],
            ip: 0,
            flags: Flags::empty(),
            memory,
            io,
            halted: false,
        };
        proof {
            assert(r.registers@ =~= Seq::<u16>::new(8, |i: int| 0u16));
            assert(r.segments@ =~= Seq::<u16>::new(4, |i: int| 0u16));
        }
        r
    }

    /// Read a register at the given width.
    pub fn get_register_value(&self, size: OperandSize, encoding: Register) -> (r: u16)
        ensures
            r == spec_get_register(self.registers@, size, encoding),
    {
        let index = crate::modrm::encoding_for_register(&encoding) as usize;
        match size {
            OperandSize::Word => self.registers[index],
            OperandSize::Byte => {
                if index < 4 {
                    self.registers[index] % 0x100
                } else {
                    self.registers[index - 4] / 0x100
                }
            },
        }
    }

    /// Write a register at the given width: a word write replaces the
    /// slot, a byte write replaces the low or high byte the encoding
    /// names, and every other register is untouched.
    pub fn set_register_value(&mut self, size: OperandSize, encoding: Register, value: u16)
        ensures
            final(self).registers@ == spec_set_register(
                old(self).registers@,
                size,
                encoding,
                value,
            ),
            final(self).segments == old(self).segments,
            final(self).ip == old(self).ip,
            final(self).flags == old(self).flags,
            final(self).memory == old(self).memory,
            final(self).io == old(self).io,
            final(self).halted == old(self).halted,
    {
        let index = crate::modrm::encoding_for_register(&encoding) as usize;
        match size {
            OperandSize::Word => {
                self.registers[index] = value;
            },
            OperandSize::Byte => {
                if index < 4 {
                    let word = self.registers[index];
                    self.registers[index] = (word / 0x100) * 0x100 + value % 0x100;
                } else {
                    let word = self.registers[index - 4];
                    self.registers[index - 4] = word % 0x100 + (value % 0x100) * 0x100;
                }
            },
        }
    }

    /// Read one segment register.
    pub fn get_segment_value(&self, segment: Segment) -> (r: u16)
        ensures
            r == self.segments@[seg_index(segment)],
    {
        self.segments[crate::encode::segment_code_of(segment) as usize]
    }

    /// Write one segment register.
    pub fn set_segment_value(&mut self, segment: Segment, value: u16)
        ensures
            final(self).segments@ == old(self).segments@.update(seg_index(segment), value),
            final(self).registers == old(self).registers,
            final(self).ip == old(self).ip,
            final(self).flags == old(self).flags,
            final(self).memory == old(self).memory,
            final(self).io == old(self).io,
            final(self).halted == old(self).halted,
    {
        self.segments[crate::encode::segment_code_of(segment) as usize] = value;
    }

    /// The effective 16-bit offset of an addressing mode.
    pub fn effective_address(&self, mode: AddressingMode, displacement: u16) -> (r: u16)
        ensures
            r == spec_ea(self.registers@, mode, displacement),
    {
        let base: u32 = match mode {
            AddressingMode::BxSi => self.registers[3] as u32 + self.registers[6] as u32,
            AddressingMode::BxDi => self.registers[3] as u32 + self.registers[7] as u32,
            AddressingMode::BpSi => self.registers[5] as u32 + self.registers[6] as u32,
            AddressingMode::BpDi => self.registers[5] as u32 + self.registers[7] as u32,
            AddressingMode::Si => self.registers[6] as u32,
            AddressingMode::Di => self.registers[7] as u32,
            AddressingMode::Bp => self.registers[5] as u32,
            AddressingMode::Bx => self.registers[3] as u32,
        };
        ((base + displacement as u32) % 0x10000) as u16
    }

    /// The segment register value a data access goes through.
    fn data_segment_value(
        &self,
        segment_override: Option<Segment>,
        mode: Option<AddressingMode>,
    ) -> (r: u16)
        ensures
            r == self.segments@[seg_index(spec_data_segment(segment_override, mode))],
    {
        let segment = match segment_override {
            Some(s) => s,
            None => match mode {
                Some(AddressingMode::BpSi) | Some(AddressingMode::BpDi)
                    | Some(AddressingMode::Bp) => Segment::Ss,
                _ => Segment::Ds,
            },
        };
        self.get_segment_value(segment)
    }

    /// A value read from memory at a segment and offset.
    fn mem_read(&self, seg: u16, off: u16, size: OperandSize) -> (r: Result<u16, CpuError>)
        ensures
            r == spec_mem_read(self.memory.contents(), self.mem_fault(), seg, off, size),
    {
        match size {
            OperandSize::Byte => {
                match self.memory.read(linear(seg, off)) {
                    Ok(b) => Ok(b as u16),
                    Err(e) => Err(e),
                }
            },
            OperandSize::Word => {
                let lo = match self.memory.read(linear(seg, off)) {
                    Ok(b) => b,
                    Err(e) => {
                        return Err(e);
                    },
                };
                let hi = match self.memory.read(
                    linear(seg, ((off as u32 + 1) % 0x10000) as u16),
                ) {
                    Ok(b) => b,
                    Err(e) => {
                        return Err(e);
                    },
                };
                Ok(lo as u16 + hi as u16 * 0x100)
            },
        }
    }

    /// Store a value to memory at a segment and offset, low byte first.
    fn mem_write(&mut self, seg: u16, off: u16, size: OperandSize, value: u16) -> (r: Result<
        (),
        CpuError,
    >)
        ensures
            (r, final(self).memory.contents()) == spec_mem_write(
                old(self).memory.contents(),
                old(self).mem_fault(),
                seg,
                off,
                size,
                value,
            ),
            final(self).registers == old(self).registers,
            final(self).segments == old(self).segments,
            final(self).ip == old(self).ip,
            final(self).flags == old(self).flags,
            final(self).io == old(self).io,
            final(self).halted == old(self).halted,
            old(self).faults_preserved(final(self)),
    {
        match size {
            OperandSize::Byte => self.memory.write(linear(seg, off), (value % 0x100) as u8),
            OperandSize::Word => {
                match self.memory.write(linear(seg, off), (value % 0x100) as u8) {
                    Err(e) => Err(e),
                    Ok(_) => self.memory.write(
                        linear(seg, ((off as u32 + 1) % 0x10000) as u16),
                        (value / 0x100) as u8,
                    ),
                }
            },
        }
    }
}

/// Pointwise-preserved fault maps are equal as maps.
proof fn fault_maps_stable<M: Bus, P: Bus>(a: &CPU<M, P>, b: &CPU<M, P>)
    requires
        a.faults_preserved(b),
    ensures
        a.faults_match(b),
{
    assert(a.mem_fault() =~= b.mem_fault());
    assert(a.io_fault() =~= b.io_fault());
}

impl<M: Bus, P: Bus> CPU<M, P> {
    /// The value an operand names: registers, segment registers and
    /// immediates directly, memory through the instruction's data segment.
    pub fn get_source_value(
        &self,
        segment_override: Option<Segment>,
        operand: &Operand,
    ) -> (r: Result<u16, CpuError>)
        ensures
            r == spec_operand_value(self.state(), self.mem_fault(), segment_override, *operand),
    {
        let Operand(t, size) = *operand;
        match t {
            OperandType::Register(reg) => Ok(self.get_register_value(size, reg)),
            OperandType::Segment(sg) => Ok(self.get_segment_value(sg)),
            OperandType::Immediate(v) => Ok(v),
            OperandType::Direct(off) => {
                let seg = self.data_segment_value(segment_override, None);
                self.mem_read(seg, off, size)
            },
            OperandType::Indirect(mode, displacement) => {
                let seg = self.data_segment_value(segment_override, Some(mode));
                let off = self.effective_address(mode, displacement);
                self.mem_read(seg, off, size)
            },
        }
    }

    /// Store a value to the place an operand names.
    fn store_operand(
        &mut self,
        operation: Operation,
        segment_override: Option<Segment>,
        operand: &Operand,
        value: u16,
    ) -> (r: Result<(), CpuError>)
        ensures
            ({
                let (sr, st) = spec_store_operand(
                    old(self).state(),
                    old(self).mem_fault(),
                    operation,
                    segment_override,
                    *operand,
                    value,
                );
                r == sr && final(self).state() == st
            }),
            old(self).faults_preserved(final(self)),
    {
        let Operand(t, size) = *operand;
        let r = match t {
            OperandType::Register(reg) => {
                self.set_register_value(size, reg, value);
                Ok(())
            },
            OperandType::Segment(sg) => {
                self.set_segment_value(sg, value);
                Ok(())
            },
            OperandType::Immediate(_) => Err(CpuError::UnsupportedOperation(operation)),
            OperandType::Direct(off) => {
                let seg = self.data_segment_value(segment_override, None);
                self.mem_write(seg, off, size, value)
            },
            OperandType::Indirect(mode, displacement) => {
                let seg = self.data_segment_value(segment_override, Some(mode));
                let off = self.effective_address(mode, displacement);
                self.mem_write(seg, off, size, value)
            },
        };
        r
    }

    /// Push one word: SP down by two, the word to SS:SP.
    fn push_word(&mut self, value: u16) -> (r: Result<(), CpuError>)
        ensures
            ({
                let (sr, st) = spec_push(old(self).state(), old(self).mem_fault(), value);
                r == sr && final(self).state() == st
            }),
            old(self).faults_preserved(final(self)),
    {
        let sp = ((self.registers[4] as u32 + 0x10000 - 2) % 0x10000) as u16;
        let seg = self.segments[2];
        let r = self.mem_write(seg, sp, OperandSize::Word, value);
        match r {
            Ok(_) => {
                self.registers[4] = sp;
                Ok(())
            },
            Err(e) => Err(e),
        }
    }

    /// Pop one word from SS:SP, SP up by two.
    fn pop_word(&mut self) -> (r: Result<u16, CpuError>)
        ensures
            ({
                let (sr, st) = spec_pop(old(self).state(), old(self).mem_fault());
                r == sr && final(self).state() == st
            }),
            old(self).faults_preserved(final(self)),
    {
        let seg = self.segments[2];
        let sp = self.registers[4];
        match self.mem_read(seg, sp, OperandSize::Word) {
            Ok(v) => {
                self.registers[4] = ((sp as u32 + 2) % 0x10000) as u16;
                Ok(v)
            },
            Err(e) => Err(e),
        }
    }
}

/// Bitwise results stay inside the byte range when both operands do.
proof fn lemma_logic_byte_bound(x: u16, y: u16)
    by (bit_vector)
    requires
        x < 0x100,
        y < 0x100,
    ensures
        (x & y) < 0x100,
        (x | y) < 0x100,
        (x ^ y) < 0x100,
{
}

/// Compute one ALU operation over the masked operands, updating the flags
/// exactly as the spec mirror says.
fn alu_exec(
    operation: Operation,
    size: OperandSize,
    a: u16,
    b: u16,
    flags: &mut Flags,
) -> (r: Option<u16>)
    ensures
        ({
            match spec_alu(operation, size, a, b, old(flags).bits) {
                Some((result, f)) => r == Some(result) && final(flags).bits == f,
                None => r is None && *final(flags) == *old(flags),
            }
        }),
{
    let m: u32 = match size {
        OperandSize::Byte => 0x100,
        OperandSize::Word => 0x10000,
    };
    let av: u32 = a as u32 % m;
    let bv: u32 = b as u32 % m;
    let cf_in: u32 = if flags.contains(CARRY) {
        1
    } else {
        0
    };
    match operation {
        Operation::Add | Operation::Adc => {
            let c: u32 = if matches!(operation, Operation::Adc) {
                cf_in
            } else {
                0
            };
            let total = av + bv + c;
            let result = (total % m) as u16;
            flags.set(CARRY, total >= m);
            flags.set(AUX_CARRY, av % 16 + bv % 16 + c >= 16);
            flags.set(OVERFLOW, ((av < m / 2) == (bv < m / 2)) && ((total % m < m / 2) != (av < m
                / 2)));
            set_zsp(flags, size, result);
            Some(result)
        },
        Operation::Sub | Operation::Sbb | Operation::Cmp => {
            let c: u32 = if matches!(operation, Operation::Sbb) {
                cf_in
            } else {
                0
            };
            let result32 = (av + m - bv - c) % m;
            let result = result32 as u16;
            flags.set(CARRY, bv + c > av);
            flags.set(AUX_CARRY, bv % 16 + c > av % 16);
            flags.set(OVERFLOW, ((av < m / 2) != (bv < m / 2)) && ((result32 < m / 2) != (av < m
                / 2)));
            set_zsp(flags, size, result);
            Some(result)
        },
        Operation::And | Operation::Test => {
            proof {
                if size is Byte {
                    lemma_logic_byte_bound(av as u16, bv as u16);
                }
            }
            let result = (av as u16) & (bv as u16);
            flags.set(CARRY, false);
            flags.set(OVERFLOW, false);
            set_zsp(flags, size, result);
            Some(result)
        },
        Operation::Or => {
            proof {
                if size is Byte {
                    lemma_logic_byte_bound(av as u16, bv as u16);
                }
            }
            let result = (av as u16) | (bv as u16);
            flags.set(CARRY, false);
            flags.set(OVERFLOW, false);
            set_zsp(flags, size, result);
            Some(result)
        },
        Operation::Xor => {
            proof {
                if size is Byte {
                    lemma_logic_byte_bound(av as u16, bv as u16);
                }
            }
            let result = (av as u16) ^ (bv as u16);
            flags.set(CARRY, false);
            flags.set(OVERFLOW, false);
            set_zsp(flags, size, result);
            Some(result)
        },
        _ => None,
    }
}

/// The shared zero/sign/parity update at either width.
#[verifier::rlimit(60)]
#[verifier::spinoff_prover]
fn set_zsp(flags: &mut Flags, size: OperandSize, result: u16)
    requires
        size is Byte ==> result < 0x100,
    ensures
        final(flags).bits == zsp_updated(old(flags).bits, result, top_bit(size)),
{
    match size {
        OperandSize::Byte => {
            flags::flags_from_byte_result(flags, (result % 0x100) as u8);
        },
        OperandSize::Word => {
            flags::flags_from_word_result(flags, result);
        },
    }
}

impl<M: Bus, P: Bus> CPU<M, P> {
    /// One iteration of a string primitive.
    fn string_once(
        &mut self,
        operation: Operation,
        segment_override: Option<Segment>,
    ) -> (r: Result<(), CpuError>)
        requires
            string_op_size(operation) is Some,
        ensures
            ({
                let (sr, st) = spec_string_once(
                    old(self).state(),
                    old(self).mem_fault(),
                    operation,
                    segment_override,
                );
                r == sr && final(self).state() == st
            }),
            old(self).faults_preserved(final(self)),
    {
        let size = match operation {
            Operation::Movsb | Operation::Cmpsb | Operation::Stosb | Operation::Lodsb
                | Operation::Scasb => OperandSize::Byte,
            _ => OperandSize::Word,
        };
        let ds = self.data_segment_value(segment_override, None);
        let es = self.segments[0];
        let si = self.registers[6];
        let di = self.registers[7];
        let df = self.flags.contains(DIRECTION);
        let delta: u32 = match size {
            OperandSize::Byte => 1,
            OperandSize::Word => 2,
        };
        let si_next: u16 = if df {
            ((si as u32 + 0x10000 - delta) % 0x10000) as u16
        } else {
            ((si as u32 + delta) % 0x10000) as u16
        };
        let di_next: u16 = if df {
            ((di as u32 + 0x10000 - delta) % 0x10000) as u16
        } else {
            ((di as u32 + delta) % 0x10000) as u16
        };
        match operation {
            Operation::Scasb | Operation::Scasw => {
                let acc = self.get_register_value(size, Register::AlAx);
                let v = match self.mem_read(es, di, size) {
                    Ok(v) => v,
                    Err(e) => {
                        return Err(e);
                    },
                };
                let _ = alu_exec(Operation::Cmp, size, acc, v, &mut self.flags);
                self.registers[7] = di_next;
                Ok(())
            },
            Operation::Cmpsb | Operation::Cmpsw => {
                let a = match self.mem_read(ds, si, size) {
                    Ok(v) => v,
                    Err(e) => {
                        return Err(e);
                    },
                };
                let b = match self.mem_read(es, di, size) {
                    Ok(v) => v,
                    Err(e) => {
                        return Err(e);
                    },
                };
                let _ = alu_exec(Operation::Cmp, size, a, b, &mut self.flags);
                self.registers[6] = si_next;
                self.registers[7] = di_next;
                Ok(())
            },
            Operation::Movsb | Operation::Movsw => {
                let v = match self.mem_read(ds, si, size) {
                    Ok(v) => v,
                    Err(e) => {
                        return Err(e);
                    },
                };
                match self.mem_write(es, di, size, v) {
                    Ok(_) => {},
                    Err(e) => {
                        return Err(e);
                    },
                }
                self.registers[6] = si_next;
                self.registers[7] = di_next;
                Ok(())
            },
            Operation::Stosb | Operation::Stosw => {
                let acc = self.get_register_value(size, Register::AlAx);
                match self.mem_write(es, di, size, acc) {
                    Ok(_) => {},
                    Err(e) => {
                        return Err(e);
                    },
                }
                self.registers[7] = di_next;
                Ok(())
            },
            Operation::Lodsb | Operation::Lodsw => {
                let v = match self.mem_read(ds, si, size) {
                    Ok(v) => v,
                    Err(e) => {
                        return Err(e);
                    },
                };
                self.set_register_value(size, Register::AlAx, v);
                self.registers[6] = si_next;
                Ok(())
            },
            _ => {
                proof {
                    assert(false);
                }
                Err(CpuError::UnsupportedOperation(operation))
            },
        }
    }

}

/// One unfolding of `spec_rep` when CX is not zero.
proof fn lemma_rep_unfold(
    s: CpuState,
    mf: spec_fn(u32) -> CpuError,
    operation: Operation,
    repeat: Repeat,
    segment_override: Option<Segment>,
)
    requires
        s.regs.len() == 8,
        s.regs[1] != 0,
    ensures
        ({
            let (r, s1) = spec_string_once(s, mf, operation, segment_override);
            match r {
                Err(e) => spec_rep(s, mf, operation, repeat, segment_override) == (
                    Err::<(), CpuError>(e),
                    s1,
                ),
                Ok(_) => {
                    let s2 = CpuState { regs: s1.regs.update(1, (s.regs[1] - 1) as u16), ..s1 };
                    spec_rep(s, mf, operation, repeat, segment_override) == (
                        if spec_rep_continues(operation, repeat, s2.flags) {
                            spec_rep(s2, mf, operation, repeat, segment_override)
                        } else {
                            (Ok::<(), CpuError>(()), s2)
                        }
                    )
                },
            }
        }),
{
    reveal(spec_rep);
}

/// `spec_rep` does nothing when CX is zero.
proof fn lemma_rep_zero(
    s: CpuState,
    mf: spec_fn(u32) -> CpuError,
    operation: Operation,
    repeat: Repeat,
    segment_override: Option<Segment>,
)
    requires
        s.regs.len() == 8 ==> s.regs[1] == 0,
    ensures
        spec_rep(s, mf, operation, repeat, segment_override) == (Ok::<(), CpuError>(()), s),
{
    reveal(spec_rep);
}

impl<M: Bus, P: Bus> CPU<M, P> {
    /// A repeated string primitive, CX counting the iterations.
    #[verifier::rlimit(80)]
    fn string_rep(
        &mut self,
        operation: Operation,
        repeat: Repeat,
        segment_override: Option<Segment>,
    ) -> (r: Result<(), CpuError>)
        requires
            string_op_size(operation) is Some,
        ensures
            ({
                let (sr, st) = spec_rep(
                    old(self).state(),
                    old(self).mem_fault(),
                    operation,
                    repeat,
                    segment_override,
                );
                r == sr && final(self).state() == st
            }),
            old(self).faults_preserved(final(self)),
    {
        let ghost s0 = self.state();
        let ghost mf0 = self.mem_fault();
        loop
            invariant_except_break
                string_op_size(operation) is Some,
                mf0 == old(self).mem_fault(),
                s0 == old(self).state(),
                old(self).faults_preserved(&*self),
                spec_rep(s0, mf0, operation, repeat, segment_override) == spec_rep(
                    self.state(),
                    mf0,
                    operation,
                    repeat,
                    segment_override,
                ),
            ensures
                mf0 == old(self).mem_fault(),
                old(self).faults_preserved(&*self),
                ({
                    let (sr, st) = spec_rep(s0, mf0, operation, repeat, segment_override);
                    sr == Ok::<(), CpuError>(()) && st == self.state()
                }),
            decreases self.registers@[1],
        {
            let cx = self.registers[1];
            if cx == 0 {
                proof {
                    lemma_rep_zero(self.state(), mf0, operation, repeat, segment_override);
                }
                break;
            }
            let ghost head = self.state();
            proof {
                fault_maps_stable(old(self), self);
                assert(self.mem_fault() == mf0);
                lemma_rep_unfold(head, mf0, operation, repeat, segment_override);
            }
            match self.string_once(operation, segment_override) {
                Ok(_) => {},
                Err(e) => {
                    proof {
                        fault_maps_stable(old(self), self);
                        assert(spec_rep(head, mf0, operation, repeat, segment_override) == (
                            Err::<(), CpuError>(e),
                            self.state(),
                        ));
                    }
                    return Err(e);
                },
            }
            let ghost s1 = self.state();
            self.registers[1] = cx - 1;
            let ghost s2 = self.state();
            proof {
                assert(s2 == (CpuState { regs: s1.regs.update(1, (cx - 1) as u16), ..s1 }));
            }
            let go_on = match operation {
                Operation::Scasb | Operation::Scasw | Operation::Cmpsb | Operation::Cmpsw => {
                    match repeat {
                        Repeat::Equal => self.flags.contains(ZERO),
                        Repeat::NotEqual => !self.flags.contains(ZERO),
                    }
                },
                _ => true,
            };
            proof {
                assert(go_on == spec_rep_continues(operation, repeat, s2.flags));
                if go_on {
                    assert(spec_rep(head, mf0, operation, repeat, segment_override) == spec_rep(
                        s2,
                        mf0,
                        operation,
                        repeat,
                        segment_override,
                    ));
                } else {
                    assert(spec_rep(head, mf0, operation, repeat, segment_override) == (
                        Ok::<(), CpuError>(()),
                        s2,
                    ));
                }
            }
            if !go_on {
                break;
            }
        }
        proof {
            fault_maps_stable(old(self), self);
        }
        Ok(())
    }
}

/// The instruction pointer after a signed 8-bit relative jump.
fn ip_rel8(ip: u16, offset: u16) -> (r: u16)
    ensures
        r == spec_ip_rel8(ip, offset),
{
    let b = (offset % 0x100) as u8;
    let ext: u16 = if b < 0x80 {
        b as u16
    } else {
        b as u16 + 0xFF00
    };
    ((ip as u32 + ext as u32) % 0x10000) as u16
}

/// The instruction pointer after a 16-bit relative jump.
fn ip_rel16(ip: u16, offset: u16) -> (r: u16)
    ensures
        r == spec_ip_rel16(ip, offset),
{
    ((ip as u32 + offset as u32) % 0x10000) as u16
}

impl<M: Bus, P: Bus> CPU<M, P> {
    /// A value read from the port bus.
    fn io_read(&self, port: u16, size: OperandSize) -> (r: Result<u16, CpuError>)
        ensures
            r == spec_io_read(self.io.contents(), self.io_fault(), port, size),
    {
        match size {
            OperandSize::Byte => {
                match self.io.read(port as u32) {
                    Ok(b) => Ok(b as u16),
                    Err(e) => Err(e),
                }
            },
            OperandSize::Word => {
                let lo = match self.io.read(port as u32) {
                    Ok(b) => b,
                    Err(e) => {
                        return Err(e);
                    },
                };
                let hi = match self.io.read(port as u32 + 1) {
                    Ok(b) => b,
                    Err(e) => {
                        return Err(e);
                    },
                };
                Ok(lo as u16 + hi as u16 * 0x100)
            },
        }
    }

    /// Store a value to the port bus, low byte first.
    fn io_write(&mut self, port: u16, size: OperandSize, value: u16) -> (r: Result<(), CpuError>)
        ensures
            (r, final(self).io.contents()) == spec_io_write(
                old(self).io.contents(),
                old(self).io_fault(),
                port,
                size,
                value,
            ),
            final(self).registers == old(self).registers,
            final(self).segments == old(self).segments,
            final(self).ip == old(self).ip,
            final(self).flags == old(self).flags,
            final(self).memory == old(self).memory,
            final(self).halted == old(self).halted,
            old(self).faults_preserved(final(self)),
    {
        match size {
            OperandSize::Byte => self.io.write(port as u32, (value % 0x100) as u8),
            OperandSize::Word => {
                match self.io.write(port as u32, (value % 0x100) as u8) {
                    Err(e) => Err(e),
                    Ok(_) => self.io.write(port as u32 + 1, (value / 0x100) as u8),
                }
            },
        }
    }

    /// A little-endian word at a plain linear address, as the interrupt
    /// vector table is read.
    fn vector_word(&self, addr: u32) -> (r: Result<u16, CpuError>)
        requires
            addr + 1 < 0x100000,
        ensures
            r == spec_vector_word(self.memory.contents(), self.mem_fault(), addr),
    {
        let lo = match self.memory.read(addr) {
            Ok(b) => b,
            Err(e) => {
                return Err(e);
            },
        };
        let hi = match self.memory.read(addr + 1) {
            Ok(b) => b,
            Err(e) => {
                return Err(e);
            },
        };
        Ok(lo as u16 + hi as u16 * 0x100)
    }

    /// A software interrupt: push flags, CS and IP, clear the interrupt
    /// and trap flags, and transfer through the vector at `n * 4`.
    fn do_interrupt(&mut self, n: u16) -> (r: Result<(), CpuError>)
        requires
            n <= 0xFF,
        ensures
            ({
                let (sr, st) = spec_int(old(self).state(), old(self).mem_fault(), n);
                r == sr && final(self).state() == st
            }),
            old(self).faults_preserved(final(self)),
    {
        let flags_word = self.flags.bits;
        match self.push_word(flags_word) {
            Ok(_) => {},
            Err(e) => {
                return Err(e);
            },
        }
        let cs = self.segments[1];
        match self.push_word(cs) {
            Ok(_) => {},
            Err(e) => {
                return Err(e);
            },
        }
        let ip = self.ip;
        match self.push_word(ip) {
            Ok(_) => {},
            Err(e) => {
                return Err(e);
            },
        }
        self.flags.set(INTERRUPT, false);
        self.flags.set(TRAP, false);
        let new_ip = match self.vector_word(n as u32 * 4) {
            Ok(v) => v,
            Err(e) => {
                return Err(e);
            },
        };
        let new_cs = match self.vector_word(n as u32 * 4 + 2) {
            Ok(v) => v,
            Err(e) => {
                return Err(e);
            },
        };
        self.ip = new_ip;
        self.segments[1] = new_cs;
        Ok(())
    }
}

impl<M: Bus, P: Bus> CPU<M, P> {
    /// Data moves and arithmetic: MOV, the ALU family, INC and DEC.
    #[verifier::rlimit(100)]
    #[verifier::spinoff_prover]
    fn execute_data(&mut self, instruction: &Instruction) -> (r: Result<(), CpuError>)
        requires
            matches!(instruction.operation, Operation::Mov | Operation::Add | Operation::Adc | Operation::Sub | Operation::Sbb | Operation::Cmp | Operation::And | Operation::Or | Operation::Xor | Operation::Test | Operation::Inc | Operation::Dec),
        ensures
            ({
                let (sr, st) = spec_execute(
                    old(self).state(),
                    old(self).mem_fault(),
                    old(self).io_fault(),
                    *instruction,
                );
                r == sr && final(self).state() == st
            }),
            old(self).faults_preserved(final(self)),
    {
        proof {
            reveal(spec_exec_data);
        }
        let operation = instruction.operation;
        let ovr = instruction.segment_override;
        match operation {
            Operation::Mov => {
                match instruction.operands {
                    OperandSet::DestinationAndSource(dst, src) => {
                        let v = match self.get_source_value(ovr, &src) {
                            Ok(v) => v,
                            Err(e) => {
                                return Err(e);
                            },
                        };
                        self.store_operand(operation, ovr, &dst, v)
                    },
                    _ => Err(CpuError::UnsupportedOperation(operation)),
                }
            },
            Operation::Add | Operation::Adc | Operation::Sub | Operation::Sbb | Operation::Cmp
                | Operation::And | Operation::Or | Operation::Xor | Operation::Test => {
                match instruction.operands {
                    OperandSet::DestinationAndSource(dst, src) => {
                        let Operand(_, size) = dst;
                        let a = match self.get_source_value(ovr, &dst) {
                            Ok(v) => v,
                            Err(e) => {
                                return Err(e);
                            },
                        };
                        let b = match self.get_source_value(ovr, &src) {
                            Ok(v) => v,
                            Err(e) => {
                                return Err(e);
                            },
                        };
                        let result = match alu_exec(operation, size, a, b, &mut self.flags) {
                            Some(v) => v,
                            None => {
                                proof {
                                    assert(false);
                                }
                                return Err(CpuError::UnsupportedOperation(operation));
                            },
                        };
                        if !matches!(operation, Operation::Cmp | Operation::Test) {
                            self.store_operand(operation, ovr, &dst, result)
                        } else {
                            Ok(())
                        }
                    },
                    _ => Err(CpuError::UnsupportedOperation(operation)),
                }
            },
            Operation::Inc | Operation::Dec => {
                match instruction.operands {
                    OperandSet::Destination(dst) => {
                        let Operand(_, size) = dst;
                        let a = match self.get_source_value(ovr, &dst) {
                            Ok(v) => v,
                            Err(e) => {
                                return Err(e);
                            },
                        };
                        let carry = self.flags.contains(CARRY);
                        let alu_op = if matches!(operation, Operation::Inc) {
                            Operation::Add
                        } else {
                            Operation::Sub
                        };
                        let result = match alu_exec(alu_op, size, a, 1, &mut self.flags) {
                            Some(v) => v,
                            None => {
                                proof {
                                    assert(false);
                                }
                                return Err(CpuError::UnsupportedOperation(operation));
                            },
                        };
                        self.flags.set(CARRY, carry);
                        self.store_operand(operation, ovr, &dst, result)
                    },
                    _ => Err(CpuError::UnsupportedOperation(operation)),
                }
            },
            _ => {
                proof {
                    assert(false);
                }
                Err(CpuError::UnsupportedOperation(operation))
            },
        }
    }

    /// Stack, flag-image and port transfers.
    #[verifier::rlimit(100)]
    #[verifier::spinoff_prover]
    fn execute_transfer(&mut self, instruction: &Instruction) -> (r: Result<(), CpuError>)
        requires
            matches!(instruction.operation, Operation::Push | Operation::Pop | Operation::Pushf | Operation::Popf | Operation::Lahf | Operation::Sahf | Operation::In | Operation::Out),
        ensures
            ({
                let (sr, st) = spec_execute(
                    old(self).state(),
                    old(self).mem_fault(),
                    old(self).io_fault(),
                    *instruction,
                );
                r == sr && final(self).state() == st
            }),
            old(self).faults_preserved(final(self)),
    {
        proof {
            reveal(spec_exec_transfer);
        }
        let operation = instruction.operation;
        let ovr = instruction.segment_override;
        match operation {
            Operation::Push => {
                match instruction.operands {
                    OperandSet::Destination(src) => {
                        let v = match self.get_source_value(ovr, &src) {
                            Ok(v) => v,
                            Err(e) => {
                                return Err(e);
                            },
                        };
                        self.push_word(v)
                    },
                    _ => Err(CpuError::UnsupportedOperation(operation)),
                }
            },
            Operation::Pop => {
                match instruction.operands {
                    OperandSet::Destination(dst) => {
                        let v = match self.pop_word() {
                            Ok(v) => v,
                            Err(e) => {
                                return Err(e);
                            },
                        };
                        self.store_operand(operation, ovr, &dst, v)
                    },
                    _ => Err(CpuError::UnsupportedOperation(operation)),
                }
            },
            Operation::Pushf => {
                let flags_word = self.flags.bits;
                self.push_word(flags_word)
            },
            Operation::Popf => {
                let v = match self.pop_word() {
                    Ok(v) => v,
                    Err(e) => {
                        return Err(e);
                    },
                };
                self.flags = Flags { bits: v };
                Ok(())
            },
            Operation::Lahf => {
                let ah = (self.flags.bits % 0x100) & 0xD5 | 0x02;
                self.set_register_value(OperandSize::Byte, Register::AhSp, ah);
                Ok(())
            },
            Operation::Sahf => {
                let ah = self.get_register_value(OperandSize::Byte, Register::AhSp);
                self.flags = Flags { bits: (self.flags.bits & !0xD5u16) | (ah & 0xD5) };
                Ok(())
            },
            Operation::In => {
                match instruction.operands {
                    OperandSet::DestinationAndSource(dst, src) => {
                        let Operand(_, size) = dst;
                        let port = match self.get_source_value(ovr, &src) {
                            Ok(v) => v,
                            Err(e) => {
                                return Err(e);
                            },
                        };
                        let v = match self.io_read(port, size) {
                            Ok(v) => v,
                            Err(e) => {
                                return Err(e);
                            },
                        };
                        self.store_operand(operation, ovr, &dst, v)
                    },
                    _ => Err(CpuError::UnsupportedOperation(operation)),
                }
            },
            Operation::Out => {
                match instruction.operands {
                    OperandSet::DestinationAndSource(dst, src) => {
                        let Operand(_, size) = src;
                        let port = match self.get_source_value(ovr, &dst) {
                            Ok(v) => v,
                            Err(e) => {
                                return Err(e);
                            },
                        };
                        let v = match self.get_source_value(ovr, &src) {
                            Ok(v) => v,
                            Err(e) => {
                                return Err(e);
                            },
                        };
                        self.io_write(port, size, v)
                    },
                    _ => Err(CpuError::UnsupportedOperation(operation)),
                }
            },
            _ => {
                proof {
                    assert(false);
                }
                Err(CpuError::UnsupportedOperation(operation))
            },
        }
    }

    /// Control transfer: jumps, calls, returns and interrupts.
    #[verifier::rlimit(100)]
    #[verifier::spinoff_prover]
    fn execute_control(&mut self, instruction: &Instruction) -> (r: Result<(), CpuError>)
        requires
            matches!(instruction.operation, Operation::Jmp | Operation::Call | Operation::Ret | Operation::Int | Operation::Into | Operation::IRet | Operation::Je | Operation::Jne | Operation::Jb | Operation::Jnb | Operation::Jbe | Operation::Jnbe | Operation::Jp | Operation::Jnp | Operation::Jo | Operation::Jno | Operation::Js | Operation::Jns | Operation::Jl | Operation::Jnl | Operation::Jle | Operation::Jnle | Operation::Loop | Operation::Loopz | Operation::Loopnz | Operation::Jcxz),
        ensures
            ({
                let (sr, st) = spec_execute(
                    old(self).state(),
                    old(self).mem_fault(),
                    old(self).io_fault(),
                    *instruction,
                );
                r == sr && final(self).state() == st
            }),
            old(self).faults_preserved(final(self)),
    {
        proof {
            reveal(spec_exec_control);
        }
        let operation = instruction.operation;
        let ovr = instruction.segment_override;
        match operation {
            Operation::Jmp => {
                match instruction.operands {
                    OperandSet::Offset(v) => {
                        self.ip = ip_rel16(self.ip, v);
                        Ok(())
                    },
                    OperandSet::SegmentAndOffset(seg, off) => {
                        self.ip = off;
                        self.segments[1] = seg;
                        Ok(())
                    },
                    OperandSet::Destination(target) => {
                        let v = match self.get_source_value(ovr, &target) {
                            Ok(v) => v,
                            Err(e) => {
                                return Err(e);
                            },
                        };
                        self.ip = v;
                        Ok(())
                    },
                    _ => Err(CpuError::UnsupportedOperation(operation)),
                }
            },
            Operation::Call => {
                match instruction.operands {
                    OperandSet::Offset(v) => {
                        let ip = self.ip;
                        match self.push_word(ip) {
                            Ok(_) => {},
                            Err(e) => {
                                return Err(e);
                            },
                        }
                        self.ip = ip_rel16(self.ip, v);
                        Ok(())
                    },
                    OperandSet::SegmentAndOffset(seg, off) => {
                        let cs = self.segments[1];
                        match self.push_word(cs) {
                            Ok(_) => {},
                            Err(e) => {
                                return Err(e);
                            },
                        }
                        let ip = self.ip;
                        match self.push_word(ip) {
                            Ok(_) => {},
                            Err(e) => {
                                return Err(e);
                            },
                        }
                        self.ip = off;
                        self.segments[1] = seg;
                        Ok(())
                    },
                    OperandSet::Destination(target) => {
                        let v = match self.get_source_value(ovr, &target) {
                            Ok(v) => v,
                            Err(e) => {
                                return Err(e);
                            },
                        };
                        let ip = self.ip;
                        match self.push_word(ip) {
                            Ok(_) => {},
                            Err(e) => {
                                return Err(e);
                            },
                        }
                        self.ip = v;
                        Ok(())
                    },
                    _ => Err(CpuError::UnsupportedOperation(operation)),
                }
            },
            Operation::Ret => {
                match instruction.operands {
                    OperandSet::Empty => {
                        let v = match self.pop_word() {
                            Ok(v) => v,
                            Err(e) => {
                                return Err(e);
                            },
                        };
                        self.ip = v;
                        Ok(())
                    },
                    OperandSet::Destination(Operand(OperandType::Immediate(n), _)) => {
                        let v = match self.pop_word() {
                            Ok(v) => v,
                            Err(e) => {
                                return Err(e);
                            },
                        };
                        self.ip = v;
                        self.registers[4] = ((self.registers[4] as u32 + n as u32)
                            % 0x10000) as u16;
                        Ok(())
                    },
                    OperandSet::Offset(n) => {
                        let new_ip = match self.pop_word() {
                            Ok(v) => v,
                            Err(e) => {
                                return Err(e);
                            },
                        };
                        let new_cs = match self.pop_word() {
                            Ok(v) => v,
                            Err(e) => {
                                return Err(e);
                            },
                        };
                        self.ip = new_ip;
                        self.segments[1] = new_cs;
                        self.registers[4] = ((self.registers[4] as u32 + n as u32)
                            % 0x10000) as u16;
                        Ok(())
                    },
                    _ => Err(CpuError::UnsupportedOperation(operation)),
                }
            },
            Operation::Int => {
                match instruction.operands {
                    OperandSet::Destination(Operand(OperandType::Immediate(n), _)) => {
                        self.do_interrupt(n % 0x100)
                    },
                    _ => Err(CpuError::UnsupportedOperation(operation)),
                }
            },
            Operation::Into => {
                if self.flags.contains(OVERFLOW) {
                    self.do_interrupt(4)
                } else {
                    Ok(())
                }
            },
            Operation::IRet => {
                let ip = match self.pop_word() {
                    Ok(v) => v,
                    Err(e) => {
                        return Err(e);
                    },
                };
                let cs = match self.pop_word() {
                    Ok(v) => v,
                    Err(e) => {
                        return Err(e);
                    },
                };
                let fl = match self.pop_word() {
                    Ok(v) => v,
                    Err(e) => {
                        return Err(e);
                    },
                };
                self.ip = ip;
                self.segments[1] = cs;
                self.flags = Flags { bits: fl };
                Ok(())
            },
            Operation::Je | Operation::Jne | Operation::Jb | Operation::Jnb | Operation::Jbe
                | Operation::Jnbe | Operation::Jp | Operation::Jnp | Operation::Jo
                | Operation::Jno | Operation::Js | Operation::Jns | Operation::Jl
                | Operation::Jnl | Operation::Jle | Operation::Jnle => {
                match instruction.operands {
                    OperandSet::Offset(v) => {
                        let zf = self.flags.contains(ZERO);
                        let cf = self.flags.contains(CARRY);
                        let sf = self.flags.contains(SIGN);
                        let of = self.flags.contains(OVERFLOW);
                        let pf = self.flags.contains(PARITY);
                        let taken = match operation {
                            Operation::Je => zf,
                            Operation::Jne => !zf,
                            Operation::Jb => cf,
                            Operation::Jnb => !cf,
                            Operation::Jbe => cf || zf,
                            Operation::Jnbe => !cf && !zf,
                            Operation::Jp => pf,
                            Operation::Jnp => !pf,
                            Operation::Jo => of,
                            Operation::Jno => !of,
                            Operation::Js => sf,
                            Operation::Jns => !sf,
                            Operation::Jl => sf != of,
                            Operation::Jnl => sf == of,
                            Operation::Jle => zf || sf != of,
                            _ => !zf && sf == of,
                        };
                        if taken {
                            self.ip = ip_rel8(self.ip, v);
                        }
                        Ok(())
                    },
                    _ => Err(CpuError::UnsupportedOperation(operation)),
                }
            },
            Operation::Loop | Operation::Loopz | Operation::Loopnz => {
                match instruction.operands {
                    OperandSet::Offset(v) => {
                        let cx = ((self.registers[1] as u32 + 0x10000 - 1) % 0x10000) as u16;
                        self.registers[1] = cx;
                        let zf = self.flags.contains(ZERO);
                        let taken = cx != 0 && (match operation {
                            Operation::Loopz => zf,
                            Operation::Loopnz => !zf,
                            _ => true,
                        });
                        if taken {
                            self.ip = ip_rel8(self.ip, v);
                        }
                        Ok(())
                    },
                    _ => Err(CpuError::UnsupportedOperation(operation)),
                }
            },
            Operation::Jcxz => {
                match instruction.operands {
                    OperandSet::Offset(v) => {
                        if self.registers[1] == 0 {
                            self.ip = ip_rel8(self.ip, v);
                        }
                        Ok(())
                    },
                    _ => Err(CpuError::UnsupportedOperation(operation)),
                }
            },
            _ => {
                proof {
                    assert(false);
                }
                Err(CpuError::UnsupportedOperation(operation))
            },
        }
    }

    /// Processor control and the string primitives.
    #[verifier::rlimit(100)]
    #[verifier::spinoff_prover]
    fn execute_misc(&mut self, instruction: &Instruction) -> (r: Result<(), CpuError>)
        requires
            matches!(instruction.operation, Operation::Hlt | Operation::Clc | Operation::Stc | Operation::Cmc | Operation::Cld | Operation::Std | Operation::Cli | Operation::Sti | Operation::Esc | Operation::Wait | Operation::Lock | Operation::Movsb | Operation::Movsw | Operation::Cmpsb | Operation::Cmpsw | Operation::Stosb | Operation::Stosw | Operation::Lodsb | Operation::Lodsw | Operation::Scasb | Operation::Scasw),
        ensures
            ({
                let (sr, st) = spec_execute(
                    old(self).state(),
                    old(self).mem_fault(),
                    old(self).io_fault(),
                    *instruction,
                );
                r == sr && final(self).state() == st
            }),
            old(self).faults_preserved(final(self)),
    {
        proof {
            reveal(spec_exec_misc);
        }
        let operation = instruction.operation;
        let ovr = instruction.segment_override;
        match operation {
            Operation::Hlt => {
                self.halted = true;
                Ok(())
            },
            Operation::Clc => {
                self.flags.set(CARRY, false);
                Ok(())
            },
            Operation::Stc => {
                self.flags.set(CARRY, true);
                Ok(())
            },
            Operation::Cmc => {
                let carry = self.flags.contains(CARRY);
                self.flags.set(CARRY, !carry);
                Ok(())
            },
            Operation::Cld => {
                self.flags.set(DIRECTION, false);
                Ok(())
            },
            Operation::Std => {
                self.flags.set(DIRECTION, true);
                Ok(())
            },
            Operation::Cli => {
                self.flags.set(INTERRUPT, false);
                Ok(())
            },
            Operation::Sti => {
                self.flags.set(INTERRUPT, true);
                Ok(())
            },
            Operation::Esc | Operation::Wait | Operation::Lock => Ok(()),
            Operation::Movsb | Operation::Movsw | Operation::Cmpsb | Operation::Cmpsw
                | Operation::Stosb | Operation::Stosw | Operation::Lodsb | Operation::Lodsw
                | Operation::Scasb | Operation::Scasw => {
                match instruction.repeat {
                    None => self.string_once(operation, ovr),
                    Some(repeat) => self.string_rep(operation, repeat, ovr),
                }
            },
            _ => {
                proof {
                    assert(false);
                }
                Err(CpuError::UnsupportedOperation(operation))
            },
        }
    }

    /// Complements, swaps, pointer and table loads, and the decimal
    /// adjusts.
    #[verifier::rlimit(100)]
    #[verifier::spinoff_prover]
    fn execute_special(&mut self, instruction: &Instruction) -> (r: Result<(), CpuError>)
        requires
            matches!(instruction.operation, Operation::Not | Operation::Neg | Operation::Xchg | Operation::Lea | Operation::Lds | Operation::Les | Operation::Cbw | Operation::Cwd | Operation::Xlat),
        ensures
            ({
                let (sr, st) = spec_execute(
                    old(self).state(),
                    old(self).mem_fault(),
                    old(self).io_fault(),
                    *instruction,
                );
                r == sr && final(self).state() == st
            }),
            old(self).faults_preserved(final(self)),
    {
        proof {
            reveal(spec_exec_special);
        }
        let operation = instruction.operation;
        let ovr = instruction.segment_override;
        match operation {
            Operation::Not => {
                match instruction.operands {
                    OperandSet::Destination(dst) => {
                        let Operand(_, size) = dst;
                        let a = match self.get_source_value(ovr, &dst) {
                            Ok(v) => v,
                            Err(e) => {
                                return Err(e);
                            },
                        };
                        let m: u32 = match size {
                            OperandSize::Byte => 0x100,
                            OperandSize::Word => 0x10000,
                        };
                        let result = (m - 1 - (a as u32 % m)) as u16;
                        self.store_operand(operation, ovr, &dst, result)
                    },
                    _ => Err(CpuError::UnsupportedOperation(operation)),
                }
            },
            Operation::Neg => {
                match instruction.operands {
                    OperandSet::Destination(dst) => {
                        let Operand(_, size) = dst;
                        let a = match self.get_source_value(ovr, &dst) {
                            Ok(v) => v,
                            Err(e) => {
                                return Err(e);
                            },
                        };
                        let result = match alu_exec(Operation::Sub, size, 0, a, &mut self.flags) {
                            Some(v) => v,
                            None => {
                                proof {
                                    assert(false);
                                }
                                return Err(CpuError::UnsupportedOperation(operation));
                            },
                        };
                        self.store_operand(operation, ovr, &dst, result)
                    },
                    _ => Err(CpuError::UnsupportedOperation(operation)),
                }
            },
            Operation::Xchg => {
                match instruction.operands {
                    OperandSet::DestinationAndSource(dst, src) => {
                        let a = match self.get_source_value(ovr, &dst) {
                            Ok(v) => v,
                            Err(e) => {
                                return Err(e);
                            },
                        };
                        let b = match self.get_source_value(ovr, &src) {
                            Ok(v) => v,
                            Err(e) => {
                                return Err(e);
                            },
                        };
                        match self.store_operand(operation, ovr, &dst, b) {
                            Ok(_) => {},
                            Err(e) => {
                                return Err(e);
                            },
                        }
                        self.store_operand(operation, ovr, &src, a)
                    },
                    _ => Err(CpuError::UnsupportedOperation(operation)),
                }
            },
            Operation::Lea => {
                match instruction.operands {
                    OperandSet::DestinationAndSource(dst, src) => {
                        let Operand(st, _) = src;
                        match st {
                            OperandType::Direct(off) => self.store_operand(
                                operation,
                                ovr,
                                &dst,
                                off,
                            ),
                            OperandType::Indirect(mode, displacement) => {
                                let addr = self.effective_address(mode, displacement);
                                self.store_operand(operation, ovr, &dst, addr)
                            },
                            _ => Err(CpuError::UnsupportedOperation(operation)),
                        }
                    },
                    _ => Err(CpuError::UnsupportedOperation(operation)),
                }
            },
            Operation::Lds | Operation::Les => {
                match instruction.operands {
                    OperandSet::DestinationAndSource(dst, src) => {
                        let Operand(st, _) = src;
                        let pair: Option<(u16, u16)> = match st {
                            OperandType::Direct(off) => Some(
                                (self.data_segment_value(ovr, None), off),
                            ),
                            OperandType::Indirect(mode, displacement) => Some(
                                (
                                    self.data_segment_value(ovr, Some(mode)),
                                    self.effective_address(mode, displacement),
                                ),
                            ),
                            _ => None,
                        };
                        match pair {
                            None => Err(CpuError::UnsupportedOperation(operation)),
                            Some((seg, off)) => {
                                let lo = match self.mem_read(seg, off, OperandSize::Word) {
                                    Ok(v) => v,
                                    Err(e) => {
                                        return Err(e);
                                    },
                                };
                                let hi = match self.mem_read(
                                    seg,
                                    ((off as u32 + 2) % 0x10000) as u16,
                                    OperandSize::Word,
                                ) {
                                    Ok(v) => v,
                                    Err(e) => {
                                        return Err(e);
                                    },
                                };
                                match self.store_operand(operation, ovr, &dst, lo) {
                                    Ok(_) => {},
                                    Err(e) => {
                                        return Err(e);
                                    },
                                }
                                if matches!(operation, Operation::Lds) {
                                    self.segments[3] = hi;
                                } else {
                                    self.segments[0] = hi;
                                }
                                Ok(())
                            },
                        }
                    },
                    _ => Err(CpuError::UnsupportedOperation(operation)),
                }
            },
            Operation::Cbw => {
                let al = self.registers[0] % 0x100;
                let ext: u16 = if al < 0x80 {
                    al
                } else {
                    al + 0xFF00
                };
                self.registers[0] = ext;
                Ok(())
            },
            Operation::Cwd => {
                self.registers[2] = if self.registers[0] >= 0x8000 {
                    0xFFFF
                } else {
                    0
                };
                Ok(())
            },
            Operation::Xlat => {
                let seg = self.data_segment_value(ovr, None);
                let off = ((self.registers[3] as u32 + (self.registers[0] % 0x100) as u32)
                    % 0x10000) as u16;
                let v = match self.mem_read(seg, off, OperandSize::Byte) {
                    Ok(v) => v,
                    Err(e) => {
                        return Err(e);
                    },
                };
                self.set_register_value(OperandSize::Byte, Register::AlAx, v);
                Ok(())
            },
            _ => {
                proof {
                    assert(false);
                }
                Err(CpuError::UnsupportedOperation(operation))
            },
        }
    }

    /// The decimal and ASCII adjusts.
    #[verifier::rlimit(100)]
    #[verifier::spinoff_prover]
    fn execute_decimal(&mut self, instruction: &Instruction) -> (r: Result<(), CpuError>)
        requires
            matches!(instruction.operation, Operation::Baa | Operation::Das | Operation::Aaa | Operation::Aas | Operation::Aam | Operation::Aad),
        ensures
            ({
                let (sr, st) = spec_execute(
                    old(self).state(),
                    old(self).mem_fault(),
                    old(self).io_fault(),
                    *instruction,
                );
                r == sr && final(self).state() == st
            }),
            old(self).faults_preserved(final(self)),
    {
        proof {
            reveal(spec_exec_decimal);
        }
        let operation = instruction.operation;
        match operation {
            Operation::Baa | Operation::Das => {
                self.decimal_adjust(matches!(operation, Operation::Das));
                Ok(())
            },
            Operation::Aaa | Operation::Aas => {
                self.ascii_adjust(matches!(operation, Operation::Aas));
                Ok(())
            },
            Operation::Aam => {
                match instruction.operands {
                    OperandSet::Destination(Operand(OperandType::Immediate(n), _)) => {
                        self.aam_exec(n % 0x100)
                    },
                    _ => Err(CpuError::UnsupportedOperation(operation)),
                }
            },
            Operation::Aad => {
                match instruction.operands {
                    OperandSet::Destination(Operand(OperandType::Immediate(n), _)) => {
                        self.aad_exec(n % 0x100);
                        Ok(())
                    },
                    _ => Err(CpuError::UnsupportedOperation(operation)),
                }
            },
            _ => {
                proof {
                    assert(false);
                }
                Err(CpuError::UnsupportedOperation(operation))
            },
        }
    }
}


/// A signed product expressed through magnitudes wraps to the same
/// double-width two's-complement value the spec computes.
proof fn lemma_signed_product_wraps(m: int, sa: int, sb: int, mag: int, neg: bool, full: int)
    requires
        m == 0x100 || m == 0x10000,
        0 - m / 2 <= sa < m / 2,
        0 - m / 2 <= sb < m / 2,
        mag == abs_int(sa) * abs_int(sb),
        neg == (((sa < 0) != (sb < 0)) && mag != 0),
        full == if neg {
            m * m - mag
        } else {
            mag
        },
    ensures
        full == ((sa * sb) % (m * m) + m * m) % (m * m),
        (if neg {
            mag <= m / 2
        } else {
            mag < m / 2
        }) == (0 - m / 2 <= sa * sb < m / 2),
        0 <= full < m * m,
{
    let p = sa * sb;
    if sa >= 0 && sb >= 0 {
        assert(p == mag && p >= 0) by (nonlinear_arith)
            requires
                sa >= 0,
                sb >= 0,
                p == sa * sb,
                mag == sa * sb,
        ;
    } else if sa < 0 && sb < 0 {
        assert(p == mag && p >= 0) by (nonlinear_arith)
            requires
                sa < 0,
                sb < 0,
                p == sa * sb,
                mag == (0 - sa) * (0 - sb),
        ;
    } else if sa < 0 {
        assert(p == 0 - mag && mag >= 0) by (nonlinear_arith)
            requires
                sa < 0,
                sb >= 0,
                p == sa * sb,
                mag == (0 - sa) * sb,
        ;
    } else {
        assert(p == 0 - mag && mag >= 0) by (nonlinear_arith)
            requires
                sa >= 0,
                sb < 0,
                p == sa * sb,
                mag == sa * (0 - sb),
        ;
    }
    assert(p == if neg {
        0 - mag
    } else {
        mag
    });
    assert(mag <= (m / 2) * (m / 2)) by (nonlinear_arith)
        requires
            mag == abs_int(sa) * abs_int(sb),
            0 - m / 2 <= sa < m / 2,
            0 - m / 2 <= sb < m / 2,
            m >= 2,
    ;
    assert((m / 2) * (m / 2) * 4 == m * m) by (nonlinear_arith)
        requires
            m == 0x100 || m == 0x10000,
    ;
    if neg {
        assert(p % (m * m) == p + m * m) by (nonlinear_arith)
            requires
                0 - m * m < p < 0,
                m * m > 0,
                p == 0 - mag,
                full == m * m + p,
        ;
        assert((p + m * m) % (m * m) == p + m * m) by (nonlinear_arith)
            requires
                0 <= p + m * m < m * m,
                m * m > 0,
        ;
        assert(full % (m * m) == full) by (nonlinear_arith)
            requires
                0 <= full < m * m,
                m * m > 0,
        ;
        assert(((p % (m * m)) + m * m) % (m * m) == full);
    } else {
        assert(p % (m * m) == p) by (nonlinear_arith)
            requires
                0 <= p < m * m,
                m * m > 0,
        ;
        assert((p + m * m) % (m * m) == p) by (nonlinear_arith)
            requires
                0 <= p < m * m,
                m * m > 0,
        ;
    }
}

/// Truncated signed division expressed through magnitudes.
proof fn lemma_signed_divide(
    m: int,
    dividend: int,
    sv: int,
    mag_d: int,
    mag_v: int,
    qm: int,
    rm: int,
)
    requires
        m >= 2,
        sv != 0,
        mag_d == abs_int(dividend),
        mag_v == abs_int(sv),
        qm == mag_d / mag_v,
        rm == mag_d % mag_v,
    ensures
        tdiv(dividend, sv) == if ((dividend < 0) != (sv < 0)) {
            0 - qm
        } else {
            qm
        },
        tmod(dividend, sv) == if dividend < 0 {
            0 - rm
        } else {
            rm
        },
{
    if (dividend >= 0) == (sv >= 0) {
        assert(tdiv(dividend, sv) == abs_int(dividend) / abs_int(sv));
    }
}

/// One more iteration lands at the tail of a shift chain.
proof fn lemma_shift_iter_step(op: Operation, size: OperandSize, v: u16, cf: bool, n: nat)
    ensures
        ({
            let (v1, cf1) = spec_shift_iter(op, size, v, cf, n);
            spec_shift_iter(op, size, v, cf, n + 1) == spec_shift_once(op, size, v1, cf1)
        }),
    decreases n,
{
    let (va, ca) = spec_shift_once(op, size, v, cf);
    if n == 0 {
        assert(spec_shift_iter(op, size, v, cf, 0) == (v, cf));
        assert(spec_shift_iter(op, size, v, cf, 1) == spec_shift_iter(op, size, va, ca, 0));
    } else {
        lemma_shift_iter_step(op, size, va, ca, (n - 1) as nat);
        assert(spec_shift_iter(op, size, v, cf, n + 1) == spec_shift_iter(op, size, va, ca, n));
        assert(spec_shift_iter(op, size, v, cf, n) == spec_shift_iter(
            op,
            size,
            va,
            ca,
            (n - 1) as nat,
        ));
    }
}

/// One shift or rotate step stays inside the operand width.
proof fn lemma_shift_once_bound(op: Operation, size: OperandSize, v: u16, cf: bool)
    requires
        v < width_mask(size),
    ensures
        spec_shift_once(op, size, v, cf).0 < width_mask(size),
{
}

/// Compute a shift or rotate of `count` steps, updating the flags
/// exactly as the spec mirror says.
#[verifier::rlimit(100)]
#[verifier::spinoff_prover]
fn shift_exec(
    op: Operation,
    size: OperandSize,
    v0: u16,
    flags: &mut Flags,
    count: u8,
) -> (r: u16)
    requires
        v0 < width_mask(size),
        matches!(op, Operation::Shl | Operation::Shr | Operation::Sar | Operation::Rol
            | Operation::Ror | Operation::Rcl | Operation::Rcr),
    ensures
        (r, final(flags).bits) == spec_shift_state(old(flags).bits, op, size, v0, count as nat),
{
    if count == 0 {
        return v0;
    }
    let m: u32 = match size {
        OperandSize::Byte => 0x100,
        OperandSize::Word => 0x10000,
    };
    let ghost cf0 = crate::flags::flag_selected(flags.bits, CARRY);
    let mut v = v0;
    let mut cf = flags.contains(CARRY);
    let mut i: u8 = 0;
    while i < count
        invariant
            v0 < width_mask(size),
            v < width_mask(size),
            i <= count,
            m == width_mask(size),
            matches!(op, Operation::Shl | Operation::Shr | Operation::Sar | Operation::Rol
                | Operation::Ror | Operation::Rcl | Operation::Rcr),
            (v, cf) == spec_shift_iter(op, size, v0, cf0, i as nat),
        decreases count - i,
    {
        proof {
            lemma_shift_iter_step(op, size, v0, cf0, i as nat);
            lemma_shift_once_bound(op, size, v, cf);
        }
        let top = v as u32 >= m / 2;
        let low = v % 2 == 1;
        let (v2, cf2): (u16, bool) = match op {
            Operation::Shl => (((v as u32 * 2) % m) as u16, top),
            Operation::Shr => (v / 2, low),
            Operation::Sar => (
                v / 2 + if top {
                    (m / 2) as u16
                } else {
                    0
                },
                low,
            ),
            Operation::Rol => (
                ((v as u32 * 2 + if top {
                    1
                } else {
                    0
                }) % m) as u16,
                top,
            ),
            Operation::Ror => (
                v / 2 + if low {
                    (m / 2) as u16
                } else {
                    0
                },
                low,
            ),
            Operation::Rcl => (
                ((v as u32 * 2 + if cf {
                    1
                } else {
                    0
                }) % m) as u16,
                top,
            ),
            _ => (
                v / 2 + if cf {
                    (m / 2) as u16
                } else {
                    0
                },
                low,
            ),
        };
        v = v2;
        cf = cf2;
        i = i + 1;
    }
    flags.set(CARRY, cf);
    if count == 1 {
        let of = match op {
            Operation::Shl | Operation::Rol | Operation::Rcl => (v as u32 >= m / 2) != cf,
            Operation::Shr => v0 as u32 >= m / 2,
            Operation::Sar => false,
            _ => (v as u32 >= m / 2) != (v as u32 % (m / 2) >= m / 4),
        };
        flags.set(OVERFLOW, of);
    }
    if matches!(op, Operation::Shl | Operation::Shr | Operation::Sar) {
        set_zsp(flags, size, v);
    }
    proof {
        crate::flags::lemma_with_flag();
    }
    v
}

impl<M: Bus, P: Bus> CPU<M, P> {


    /// A decimal adjust of AL, for addition or subtraction.
    fn decimal_adjust(&mut self, subtract: bool)
        ensures
            ({
                let st0 = old(self).state();
                let al = spec_get_register(st0.regs, OperandSize::Byte, Register::AlAx);
                let (al2, af, cf) = if subtract {
                    spec_das(al, flag_selected(st0.flags, AUX_CARRY), flag_selected(st0.flags, CARRY))
                } else {
                    spec_daa(al, flag_selected(st0.flags, AUX_CARRY), flag_selected(st0.flags, CARRY))
                };
                final(self).state() == CpuState {
                    regs: spec_set_register(st0.regs, OperandSize::Byte, Register::AlAx, al2),
                    flags: zsp_updated(
                        with_flag(with_flag(st0.flags, AUX_CARRY, af), CARRY, cf),
                        al2,
                        0x80,
                    ),
                    ..st0
                }
            }),
            final(self).memory == old(self).memory,
            final(self).io == old(self).io,
            old(self).faults_preserved(final(self)),
    {
        let al = self.get_register_value(OperandSize::Byte, Register::AlAx);
        let af = self.flags.contains(AUX_CARRY);
        let cf = self.flags.contains(CARRY);
        let low_adjust = al % 16 > 9 || af;
        let al1: u16 = if low_adjust {
            if subtract {
                (al + 0x100 - 6) % 0x100
            } else {
                (al + 6) % 0x100
            }
        } else {
            al
        };
        let high_adjust = al > 0x99 || cf;
        let al2: u16 = if high_adjust {
            if subtract {
                (al1 + 0x100 - 0x60) % 0x100
            } else {
                (al1 + 0x60) % 0x100
            }
        } else {
            al1
        };
        self.flags.set(AUX_CARRY, low_adjust);
        self.flags.set(CARRY, high_adjust);
        crate::flags::flags_from_byte_result(&mut self.flags, al2 as u8);
        self.set_register_value(OperandSize::Byte, Register::AlAx, al2);
    }

    /// An ASCII adjust of AL and AH, for addition or subtraction.
    fn ascii_adjust(&mut self, subtract: bool)
        ensures
            ({
                let st0 = old(self).state();
                let al = spec_get_register(st0.regs, OperandSize::Byte, Register::AlAx);
                let ah = spec_get_register(st0.regs, OperandSize::Byte, Register::AhSp);
                let (al2, ah2, carry) = if subtract {
                    spec_aas(al, ah, flag_selected(st0.flags, AUX_CARRY))
                } else {
                    spec_aaa(al, ah, flag_selected(st0.flags, AUX_CARRY))
                };
                final(self).state() == CpuState {
                    regs: st0.regs.update(0, (al2 + ah2 * 0x100) as u16),
                    flags: with_flag(with_flag(st0.flags, AUX_CARRY, carry), CARRY, carry),
                    ..st0
                }
            }),
            final(self).memory == old(self).memory,
            final(self).io == old(self).io,
            old(self).faults_preserved(final(self)),
    {
        let al = self.get_register_value(OperandSize::Byte, Register::AlAx);
        let ah = self.get_register_value(OperandSize::Byte, Register::AhSp);
        let af = self.flags.contains(AUX_CARRY);
        let adjust = al % 16 > 9 || af;
        let (al2, ah2): (u16, u16) = if adjust {
            if subtract {
                (((al + 0x100 - 6) % 0x100) % 16, (ah + 0x100 - 1) % 0x100)
            } else {
                (((al + 6) % 0x100) % 16, (ah + 1) % 0x100)
            }
        } else {
            (al % 16, ah)
        };
        self.flags.set(AUX_CARRY, adjust);
        self.flags.set(CARRY, adjust);
        self.registers[0] = al2 + ah2 * 0x100;
    }


    /// Split AL by a base: quotient to AH, remainder to AL.
    fn aam_exec(&mut self, base: u16) -> (r: Result<(), CpuError>)
        requires
            base <= 0xFF,
        ensures
            ({
                let st0 = old(self).state();
                let al = spec_get_register(st0.regs, OperandSize::Byte, Register::AlAx);
                if base == 0 {
                    ({
                        let (sr, st) = spec_int(st0, old(self).mem_fault(), 0);
                        r == sr && final(self).state() == st
                    })
                } else {
                    r == Ok::<(), CpuError>(()) && final(self).state() == CpuState {
                        regs: st0.regs.update(0, ((al / base) * 0x100 + al % base) as u16),
                        flags: zsp_updated(st0.flags, (al % base) as u16, 0x80),
                        ..st0
                    }
                }
            }),
            old(self).faults_preserved(final(self)),
    {
        if base == 0 {
            return self.do_interrupt(0);
        }
        let al = self.get_register_value(OperandSize::Byte, Register::AlAx);
        let q = al / base;
        let rem = al % base;
        proof {
            assert(al < 0x100);
            assert(q <= al && rem < base) by (nonlinear_arith)
                requires
                    q == al / base,
                    rem == al % base,
                    base >= 1,
            ;
        }
        self.registers[0] = rem + q * 0x100;
        crate::flags::flags_from_byte_result(&mut self.flags, rem as u8);
        Ok(())
    }

    /// Fold AH into AL by a base: AL becomes AL plus AH times the base,
    /// AH clears.
    fn aad_exec(&mut self, base: u16)
        requires
            base <= 0xFF,
        ensures
            ({
                let st0 = old(self).state();
                let al = spec_get_register(st0.regs, OperandSize::Byte, Register::AlAx);
                let ah = spec_get_register(st0.regs, OperandSize::Byte, Register::AhSp);
                final(self).state() == CpuState {
                    regs: st0.regs.update(0, ((al + ah * base) % 0x100) as u16),
                    flags: zsp_updated(st0.flags, ((al + ah * base) % 0x100) as u16, 0x80),
                    ..st0
                }
            }),
            final(self).memory == old(self).memory,
            final(self).io == old(self).io,
            old(self).faults_preserved(final(self)),
    {
        let al = self.get_register_value(OperandSize::Byte, Register::AlAx);
        let ah = self.get_register_value(OperandSize::Byte, Register::AhSp);
        proof {
            assert(al < 0x100 && ah < 0x100);
            assert((ah as int) * (base as int) <= 0xFF * 0xFF) by (nonlinear_arith)
                requires
                    ah < 0x100,
                    base <= 0xFF,
            ;
        }
        let al2 = ((al as u32) + (ah as u32) * (base as u32)) % 0x100;
        self.registers[0] = al2 as u16;
        crate::flags::flags_from_byte_result(&mut self.flags, al2 as u8);
    }

    /// An unsigned multiply against the accumulator.
    fn mul_exec(&mut self, size: OperandSize, b: u16)
        ensures
            final(self).state() == spec_mul_state(old(self).state(), size, b),
            final(self).memory == old(self).memory,
            final(self).io == old(self).io,
            old(self).faults_preserved(final(self)),
    {
        let m: u32 = match size {
            OperandSize::Byte => 0x100,
            OperandSize::Word => 0x10000,
        };
        let a = self.get_register_value(size, Register::AlAx) as u32 % m;
        let bm = b as u32 % m;
        proof {
            assert((a as int) * (bm as int) < (m as int) * (m as int)) by (nonlinear_arith)
                requires
                    a < m,
                    bm < m,
            ;
        }
        let product: u64 = a as u64 * bm as u64;
        let lo = (product % m as u64) as u16;
        let hi = (product / m as u64) as u16;
        match size {
            OperandSize::Byte => {
                self.registers[0] = lo + hi * 0x100;
            },
            OperandSize::Word => {
                self.registers[0] = lo;
                self.registers[2] = hi;
            },
        }
        self.flags.set(CARRY, hi != 0);
        self.flags.set(OVERFLOW, hi != 0);
    }

    /// A signed multiply against the accumulator.
    #[verifier::rlimit(100)]
    #[verifier::spinoff_prover]
    fn imul_exec(&mut self, size: OperandSize, b: u16)
        ensures
            final(self).state() == spec_imul_state(old(self).state(), size, b),
            final(self).memory == old(self).memory,
            final(self).io == old(self).io,
            old(self).faults_preserved(final(self)),
    {
        let m: u32 = match size {
            OperandSize::Byte => 0x100,
            OperandSize::Word => 0x10000,
        };
        let a = self.get_register_value(size, Register::AlAx) as u32 % m;
        let bm = b as u32 % m;
        let a_neg = a >= m / 2;
        let b_neg = bm >= m / 2;
        let mag_a: u64 = if a_neg {
            (m - a) as u64
        } else {
            a as u64
        };
        let mag_b: u64 = if b_neg {
            (m - bm) as u64
        } else {
            bm as u64
        };
        proof {
            assert(mag_a <= m / 2 && mag_b <= m / 2 ==> mag_a * mag_b <= (m / 2) * (m / 2))
                by (nonlinear_arith);
            assert((m / 2) * (m / 2) * 4 == m * m) by (nonlinear_arith)
                requires
                    m == 0x100 || m == 0x10000,
            ;
        }
        let mag = mag_a * mag_b;
        let neg = (a_neg != b_neg) && mag != 0;
        let mm: u64 = m as u64 * m as u64;
        let full: u64 = if neg {
            mm - mag
        } else {
            mag
        };
        let lo = (full % m as u64) as u16;
        let hi = (full / m as u64) as u16;
        proof {
            lemma_signed_product_wraps(
                m as int,
                as_signed(size, spec_get_register(old(self).state().regs, size, Register::AlAx)),
                as_signed(size, b),
                mag as int,
                neg,
                full as int,
            );
        }
        match size {
            OperandSize::Byte => {
                self.registers[0] = lo + hi * 0x100;
            },
            OperandSize::Word => {
                self.registers[0] = lo;
                self.registers[2] = hi;
            },
        }
        let fits = if neg {
            mag <= (m / 2) as u64
        } else {
            mag < (m / 2) as u64
        };
        self.flags.set(CARRY, !fits);
        self.flags.set(OVERFLOW, !fits);
    }

    /// An unsigned divide of the accumulator pair.
    fn div_exec(&mut self, size: OperandSize, b: u16) -> (r: Result<(), CpuError>)
        ensures
            ({
                let (sr, st) = spec_div_state(old(self).state(), old(self).mem_fault(), size, b);
                r == sr && final(self).state() == st
            }),
            old(self).faults_preserved(final(self)),
    {
        let m: u32 = match size {
            OperandSize::Byte => 0x100,
            OperandSize::Word => 0x10000,
        };
        let divisor = b as u32 % m;
        if divisor == 0 {
            return self.do_interrupt(0);
        }
        let dividend: u32 = match size {
            OperandSize::Byte => self.registers[0] as u32,
            OperandSize::Word => self.registers[2] as u32 * 0x10000 + self.registers[0] as u32,
        };
        let q = dividend / divisor;
        let rem = dividend % divisor;
        if q >= m {
            return self.do_interrupt(0);
        }
        match size {
            OperandSize::Byte => {
                self.registers[0] = (q + rem * 0x100) as u16;
            },
            OperandSize::Word => {
                self.registers[0] = q as u16;
                self.registers[2] = rem as u16;
            },
        }
        Ok(())
    }

    /// A signed divide of the accumulator pair: truncated quotient, the
    /// remainder with the dividend's sign.
    fn idiv_exec(&mut self, size: OperandSize, b: u16) -> (r: Result<(), CpuError>)
        ensures
            ({
                let (sr, st) = spec_idiv_state(old(self).state(), old(self).mem_fault(), size, b);
                r == sr && final(self).state() == st
            }),
            old(self).faults_preserved(final(self)),
    {
        match size {
            OperandSize::Byte => self.idiv_exec_byte(b),
            OperandSize::Word => self.idiv_exec_word(b),
        }
    }

    /// A signed divide of the accumulator pair at this width.
    #[verifier::rlimit(100)]
    #[verifier::spinoff_prover]
    fn idiv_exec_byte(&mut self, b: u16) -> (r: Result<(), CpuError>)
        ensures
            ({
                let (sr, st) = spec_idiv_state(
                    old(self).state(),
                    old(self).mem_fault(),
                    OperandSize::Byte,
                    b,
                );
                r == sr && final(self).state() == st
            }),
            old(self).faults_preserved(final(self)),
    {
        let m: u32 = 0x100;
        let bm = b as u32 % m;
        let v_neg = bm >= m / 2;
        let mag_v: u32 = if v_neg {
            m - bm
        } else {
            bm
        };
        if mag_v == 0 {
            proof {
                lemma_idiv_divzero(self.state(), self.mem_fault(), OperandSize::Byte, b);
            }
            return self.do_interrupt(0);
        }
        let raw: u64 = self.registers[0] as u64;
        let mm: u64 = m as u64 * m as u64;
        let d_neg = raw >= mm / 2;
        let mag_d: u64 = if d_neg {
            mm - raw
        } else {
            raw
        };
        let qm = mag_d / mag_v as u64;
        let rm = mag_d % mag_v as u64;
        let q_neg = (d_neg != v_neg) && qm != 0;
        let out_of_range = if q_neg {
            qm > (m / 2) as u64
        } else {
            qm >= (m / 2) as u64
        };
        proof {
            let sd = spec_signed_dividend(old(self).state(), OperandSize::Byte);
            lemma_signed_divide(
                m as int,
                sd,
                as_signed(OperandSize::Byte, b),
                mag_d as int,
                mag_v as int,
                qm as int,
                rm as int,
            );
            let tq = tdiv(sd, as_signed(OperandSize::Byte, b));
            assert(out_of_range == (tq < 0 - m as int / 2 || tq >= m as int / 2));
        }
        if out_of_range {
            proof {
                lemma_idiv_range(self.state(), self.mem_fault(), OperandSize::Byte, b);
            }
            return self.do_interrupt(0);
        }
        let q_store: u32 = if q_neg {
            m - qm as u32
        } else {
            qm as u32
        };
        let r_store: u32 = if d_neg && rm != 0 {
            m - rm as u32
        } else {
            rm as u32
        };
        proof {
            let sd = spec_signed_dividend(old(self).state(), OperandSize::Byte);
            let sv = as_signed(OperandSize::Byte, b);
            let tq = tdiv(sd, sv);
            let trm = tmod(sd, sv);
            if q_neg {
                assert((((0 - qm as int) % (m as int)) + m as int) % (m as int) == m - qm)
                    by (nonlinear_arith)
                    requires
                        1 <= (qm as int) <= (m as int) / 2,
                        m as int >= 2,
                ;
            } else {
                assert((((qm as int) % (m as int)) + m as int) % (m as int) == qm as int)
                    by (nonlinear_arith)
                    requires
                        0 <= (qm as int) < (m as int),
                        m as int >= 2,
                ;
            }
            assert(wrap_width(OperandSize::Byte, tq) == q_store as u16);
            if d_neg && rm != 0 {
                assert((((0 - rm as int) % (m as int)) + m as int) % (m as int) == m - rm)
                    by (nonlinear_arith)
                    requires
                        1 <= (rm as int) < (m as int),
                        m as int >= 2,
                ;
            } else {
                assert((((rm as int) % (m as int)) + m as int) % (m as int) == rm as int)
                    by (nonlinear_arith)
                    requires
                        0 <= (rm as int) < (m as int),
                        m as int >= 2,
                ;
            }
            assert(wrap_width(OperandSize::Byte, trm) == r_store as u16);
            assert(q_store < m && r_store < m);
            lemma_idiv_ok(old(self).state(), old(self).mem_fault(), OperandSize::Byte, b);
        }
        self.registers[0] = (q_store % 0x100 + (r_store % 0x100) * 0x100) as u16;
        Ok(())
    }

    /// A signed divide of the accumulator pair at this width.
    #[verifier::rlimit(100)]
    #[verifier::spinoff_prover]
    fn idiv_exec_word(&mut self, b: u16) -> (r: Result<(), CpuError>)
        ensures
            ({
                let (sr, st) = spec_idiv_state(
                    old(self).state(),
                    old(self).mem_fault(),
                    OperandSize::Word,
                    b,
                );
                r == sr && final(self).state() == st
            }),
            old(self).faults_preserved(final(self)),
    {
        let m: u32 = 0x10000;
        let bm = b as u32 % m;
        let v_neg = bm >= m / 2;
        let mag_v: u32 = if v_neg {
            m - bm
        } else {
            bm
        };
        if mag_v == 0 {
            proof {
                lemma_idiv_divzero(self.state(), self.mem_fault(), OperandSize::Word, b);
            }
            return self.do_interrupt(0);
        }
        let raw: u64 = self.registers[2] as u64 * 0x10000 + self.registers[0] as u64;
        let mm: u64 = m as u64 * m as u64;
        let d_neg = raw >= mm / 2;
        let mag_d: u64 = if d_neg {
            mm - raw
        } else {
            raw
        };
        let qm = mag_d / mag_v as u64;
        let rm = mag_d % mag_v as u64;
        let q_neg = (d_neg != v_neg) && qm != 0;
        let out_of_range = if q_neg {
            qm > (m / 2) as u64
        } else {
            qm >= (m / 2) as u64
        };
        proof {
            let sd = spec_signed_dividend(old(self).state(), OperandSize::Word);
            lemma_signed_divide(
                m as int,
                sd,
                as_signed(OperandSize::Word, b),
                mag_d as int,
                mag_v as int,
                qm as int,
                rm as int,
            );
            let tq = tdiv(sd, as_signed(OperandSize::Word, b));
            assert(out_of_range == (tq < 0 - m as int / 2 || tq >= m as int / 2));
        }
        if out_of_range {
            proof {
                lemma_idiv_range(self.state(), self.mem_fault(), OperandSize::Word, b);
            }
            return self.do_interrupt(0);
        }
        let q_store: u32 = if q_neg {
            m - qm as u32
        } else {
            qm as u32
        };
        let r_store: u32 = if d_neg && rm != 0 {
            m - rm as u32
        } else {
            rm as u32
        };
        proof {
            let sd = spec_signed_dividend(old(self).state(), OperandSize::Word);
            let sv = as_signed(OperandSize::Word, b);
            let tq = tdiv(sd, sv);
            let trm = tmod(sd, sv);
            if q_neg {
                assert((((0 - qm as int) % (m as int)) + m as int) % (m as int) == m - qm)
                    by (nonlinear_arith)
                    requires
                        1 <= (qm as int) <= (m as int) / 2,
                        m as int >= 2,
                ;
            } else {
                assert((((qm as int) % (m as int)) + m as int) % (m as int) == qm as int)
                    by (nonlinear_arith)
                    requires
                        0 <= (qm as int) < (m as int),
                        m as int >= 2,
                ;
            }
            assert(wrap_width(OperandSize::Word, tq) == q_store as u16);
            if d_neg && rm != 0 {
                assert((((0 - rm as int) % (m as int)) + m as int) % (m as int) == m - rm)
                    by (nonlinear_arith)
                    requires
                        1 <= (rm as int) < (m as int),
                        m as int >= 2,
                ;
            } else {
                assert((((rm as int) % (m as int)) + m as int) % (m as int) == rm as int)
                    by (nonlinear_arith)
                    requires
                        0 <= (rm as int) < (m as int),
                        m as int >= 2,
                ;
            }
            assert(wrap_width(OperandSize::Word, trm) == r_store as u16);
            assert(q_store < m && r_store < m);
            lemma_idiv_ok(old(self).state(), old(self).mem_fault(), OperandSize::Word, b);
        }
        self.registers[0] = (q_store % 0x10000) as u16;
        self.registers[2] = (r_store % 0x10000) as u16;
        Ok(())
    }

    /// Multiplies, divides, shifts and rotates.
    #[verifier::rlimit(100)]
    #[verifier::spinoff_prover]
    fn execute_wide(&mut self, instruction: &Instruction) -> (r: Result<(), CpuError>)
        requires
            matches!(instruction.operation, Operation::Mul | Operation::Imul | Operation::Div | Operation::Idiv | Operation::Shl | Operation::Shr | Operation::Sar | Operation::Rol | Operation::Ror | Operation::Rcl | Operation::Rcr),
        ensures
            ({
                let (sr, st) = spec_execute(
                    old(self).state(),
                    old(self).mem_fault(),
                    old(self).io_fault(),
                    *instruction,
                );
                r == sr && final(self).state() == st
            }),
            old(self).faults_preserved(final(self)),
    {
        proof {
            reveal(spec_exec_wide);
        }
        let operation = instruction.operation;
        let ovr = instruction.segment_override;
        match operation {
            Operation::Mul | Operation::Imul => {
                match instruction.operands {
                    OperandSet::Destination(src) => {
                        let Operand(_, size) = src;
                        let b = match self.get_source_value(ovr, &src) {
                            Ok(v) => v,
                            Err(e) => {
                                return Err(e);
                            },
                        };
                        if matches!(operation, Operation::Mul) {
                            self.mul_exec(size, b);
                        } else {
                            self.imul_exec(size, b);
                        }
                        Ok(())
                    },
                    _ => Err(CpuError::UnsupportedOperation(operation)),
                }
            },
            Operation::Div | Operation::Idiv => {
                match instruction.operands {
                    OperandSet::Destination(src) => {
                        let Operand(_, size) = src;
                        let b = match self.get_source_value(ovr, &src) {
                            Ok(v) => v,
                            Err(e) => {
                                return Err(e);
                            },
                        };
                        if matches!(operation, Operation::Div) {
                            self.div_exec(size, b)
                        } else {
                            self.idiv_exec(size, b)
                        }
                    },
                    _ => Err(CpuError::UnsupportedOperation(operation)),
                }
            },
            Operation::Shl | Operation::Shr | Operation::Sar | Operation::Rol | Operation::Ror
                | Operation::Rcl | Operation::Rcr => {
                match instruction.operands {
                    OperandSet::DestinationAndSource(dst, count) => {
                        let Operand(_, size) = dst;
                        let a = match self.get_source_value(ovr, &dst) {
                            Ok(v) => v,
                            Err(e) => {
                                return Err(e);
                            },
                        };
                        let n = match self.get_source_value(ovr, &count) {
                            Ok(v) => v,
                            Err(e) => {
                                return Err(e);
                            },
                        };
                        let m: u32 = match size {
                            OperandSize::Byte => 0x100,
                            OperandSize::Word => 0x10000,
                        };
                        let masked_a = (a as u32 % m) as u16;
                        let result = shift_exec(
                            operation,
                            size,
                            masked_a,
                            &mut self.flags,
                            (n % 0x100) as u8,
                        );
                        self.store_operand(operation, ovr, &dst, result)
                    },
                    _ => Err(CpuError::UnsupportedOperation(operation)),
                }
            },
            _ => {
                proof {
                    assert(false);
                }
                Err(CpuError::UnsupportedOperation(operation))
            },
        }
    }

    /// Execute one decoded instruction against the machine state.  The
    /// result and the whole new state are pinned to the spec mirror
    /// `spec_execute`, the per-operation semantics of the engine.
    pub fn execute(&mut self, instruction: &Instruction) -> (r: Result<(), CpuError>)
        ensures
            ({
                let (sr, st) = spec_execute(
                    old(self).state(),
                    old(self).mem_fault(),
                    old(self).io_fault(),
                    *instruction,
                );
                r == sr && final(self).state() == st
            }),
            old(self).faults_preserved(final(self)),
    {
        match instruction.operation {
            Operation::Mov | Operation::Add | Operation::Adc | Operation::Sub | Operation::Sbb
                | Operation::Cmp | Operation::And | Operation::Or | Operation::Xor
                | Operation::Test | Operation::Inc | Operation::Dec => {
                self.execute_data(instruction)
            },
            Operation::Push | Operation::Pop | Operation::Pushf | Operation::Popf
                | Operation::Lahf | Operation::Sahf | Operation::In | Operation::Out => {
                self.execute_transfer(instruction)
            },
            Operation::Jmp | Operation::Call | Operation::Ret | Operation::Int | Operation::Into
                | Operation::IRet | Operation::Je | Operation::Jne | Operation::Jb
                | Operation::Jnb | Operation::Jbe | Operation::Jnbe | Operation::Jp
                | Operation::Jnp | Operation::Jo | Operation::Jno | Operation::Js
                | Operation::Jns | Operation::Jl | Operation::Jnl | Operation::Jle
                | Operation::Jnle | Operation::Loop | Operation::Loopz | Operation::Loopnz
                | Operation::Jcxz => self.execute_control(instruction),
            Operation::Hlt | Operation::Clc | Operation::Stc | Operation::Cmc | Operation::Cld
                | Operation::Std | Operation::Cli | Operation::Sti | Operation::Esc
                | Operation::Wait | Operation::Lock | Operation::Movsb | Operation::Movsw
                | Operation::Cmpsb | Operation::Cmpsw | Operation::Stosb | Operation::Stosw
                | Operation::Lodsb | Operation::Lodsw | Operation::Scasb | Operation::Scasw => {
                self.execute_misc(instruction)
            },
            Operation::Not | Operation::Neg | Operation::Xchg | Operation::Lea | Operation::Lds
                | Operation::Les | Operation::Cbw | Operation::Cwd | Operation::Xlat => {
                self.execute_special(instruction)
            },
            Operation::Baa | Operation::Das | Operation::Aaa | Operation::Aas | Operation::Aam
                | Operation::Aad => self.execute_decimal(instruction),
            Operation::Mul | Operation::Imul | Operation::Div | Operation::Idiv | Operation::Shl
                | Operation::Shr | Operation::Sar | Operation::Rol | Operation::Ror
                | Operation::Rcl | Operation::Rcr => self.execute_wide(instruction),
        }
    }
}

/// The bytes fetched ahead of the instruction pointer: up to `n` bytes at
/// CS:IP, stopping where the bus ends.
pub open spec fn spec_fetch_window(mem: Seq<u8>, cs: u16, ip: u16, n: nat) -> Seq<u8>
    decreases n,
{
    if n == 0 {
        Seq::empty()
    } else {
        let addr = spec_linear(cs, ip);
        if addr < mem.len() {
            seq![mem[addr as int]] + spec_fetch_window(mem, cs, ((ip + 1) % 0x10000) as u16, (n
                - 1) as nat)
        } else {
            Seq::empty()
        }
    }
}

/// How many bytes one instruction fetch may look ahead.
pub const FETCH_WINDOW: u8 = 16;

/// One whole fetch-decode-execute step: decode at CS:IP, advance IP past
/// the consumed bytes, and execute; a decode failure halts the CPU with
/// the error attached.
#[verifier::opaque]
pub open spec fn spec_step(
    s: CpuState,
    mf: spec_fn(u32) -> CpuError,
    pf: spec_fn(u32) -> CpuError,
) -> (Result<(), CpuError>, CpuState)
    recommends
        s.regs.len() == 8,
        s.segs.len() == 4,
{
    let window = spec_fetch_window(s.mem, s.segs[1], s.ip, FETCH_WINDOW as nat);
    let (d, used) = spec_decode(window, 0);
    match d {
        Err(e) => (Err(CpuError::Decode(e)), CpuState { halted: true, ..s }),
        Ok(i) => spec_execute(CpuState { ip: ((s.ip + used) % 0x10000) as u16, ..s }, mf, pf, i),
    }
}

/// A bounded run: step until the CPU halts, a step fails, or the budget
/// runs out.
#[verifier::opaque]
pub open spec fn spec_run(
    s: CpuState,
    mf: spec_fn(u32) -> CpuError,
    pf: spec_fn(u32) -> CpuError,
    fuel: nat,
) -> (Result<(), CpuError>, CpuState)
    decreases fuel,
{
    if fuel == 0 || s.halted {
        (Ok(()), s)
    } else {
        let (r, s1) = spec_step(s, mf, pf);
        match r {
            Err(e) => (Err(e), s1),
            Ok(_) => spec_run(s1, mf, pf, (fuel - 1) as nat),
        }
    }
}

/// `spec_run` stops on an exhausted budget or a halted CPU.
proof fn lemma_run_done(
    s: CpuState,
    mf: spec_fn(u32) -> CpuError,
    pf: spec_fn(u32) -> CpuError,
    fuel: nat,
)
    requires
        fuel == 0 || s.halted,
    ensures
        spec_run(s, mf, pf, fuel) == (Ok::<(), CpuError>(()), s),
{
    reveal(spec_run);
}

/// One unfolding of `spec_run` when a step happens.
proof fn lemma_run_unfold(
    s: CpuState,
    mf: spec_fn(u32) -> CpuError,
    pf: spec_fn(u32) -> CpuError,
    fuel: nat,
)
    requires
        fuel != 0,
        !s.halted,
    ensures
        ({
            let (r, s1) = spec_step(s, mf, pf);
            match r {
                Err(e) => spec_run(s, mf, pf, fuel) == (Err::<(), CpuError>(e), s1),
                Ok(_) => spec_run(s, mf, pf, fuel) == spec_run(s1, mf, pf, (fuel - 1) as nat),
            }
        }),
{
    reveal(spec_run);
}

impl<M: Bus, P: Bus> CPU<M, P> {
    /// The bytes fetched ahead of the instruction pointer.
    fn fetch_window(&self, off: u16, n: u8) -> (r: Vec<u8>)
        ensures
            r@ == spec_fetch_window(self.memory.contents(), self.segments@[1], off, n as nat),
            r@.len() <= n,
        decreases n,
    {
        if n == 0 {
            let r: Vec<u8> = Vec::new();
            proof {
                assert(r@ =~= spec_fetch_window(
                    self.memory.contents(),
                    self.segments@[1],
                    off,
                    n as nat,
                ));
            }
            return r;
        }
        let cs = self.segments[1];
        match self.memory.read(linear(cs, off)) {
            Err(_) => {
                let r: Vec<u8> = Vec::new();
                proof {
                    assert(r@ =~= spec_fetch_window(
                        self.memory.contents(),
                        self.segments@[1],
                        off,
                        n as nat,
                    ));
                }
                r
            },
            Ok(b) => {
                let mut rest = self.fetch_window(((off as u32 + 1) % 0x10000) as u16, n - 1);
                rest.insert(0, b);
                proof {
                    assert(rest@ =~= spec_fetch_window(
                        self.memory.contents(),
                        self.segments@[1],
                        off,
                        n as nat,
                    ));
                }
                rest
            },
        }
    }

    /// One fetch-decode-execute step, pinned to `spec_step`: the decoder
    /// runs on the bytes at CS:IP, IP advances by exactly the decoded
    /// length, and the instruction executes; a decode failure halts the
    /// CPU and surfaces the error.
    pub fn step(&mut self) -> (r: Result<(), CpuError>)
        ensures
            ({
                let (sr, st) = spec_step(
                    old(self).state(),
                    old(self).mem_fault(),
                    old(self).io_fault(),
                );
                r == sr && final(self).state() == st
            }),
            old(self).faults_preserved(final(self)),
    {
        proof {
            reveal(spec_step);
        }
        let window = self.fetch_window(self.ip, FETCH_WINDOW);
        let mut data = Data::from_bytes(window);
        match crate::decode::decode_instruction(&mut data) {
            Err(e) => {
                self.halted = true;
                Err(CpuError::Decode(e))
            },
            Ok(instruction) => {
                let used = data.current_position;
                self.ip = ((self.ip as u32 + used as u32) % 0x10000) as u16;
                self.execute(&instruction)
            },
        }
    }

    /// Run for at most `fuel` steps, stopping early when the CPU halts or
    /// a step reports an error.
    #[verifier::rlimit(60)]
    #[verifier::spinoff_prover]
    pub fn run(&mut self, fuel: u64) -> (r: Result<(), CpuError>)
        ensures
            ({
                let (sr, st) = spec_run(
                    old(self).state(),
                    old(self).mem_fault(),
                    old(self).io_fault(),
                    fuel as nat,
                );
                r == sr && final(self).state() == st
            }),
            old(self).faults_preserved(final(self)),
    {
        let ghost s0 = self.state();
        let ghost mf0 = self.mem_fault();
        let ghost pf0 = self.io_fault();
        let mut remaining: u64 = fuel;
        loop
            invariant_except_break
                s0 == old(self).state(),
                mf0 == old(self).mem_fault(),
                pf0 == old(self).io_fault(),
                old(self).faults_preserved(&*self),
                spec_run(s0, mf0, pf0, fuel as nat) == spec_run(
                    self.state(),
                    mf0,
                    pf0,
                    remaining as nat,
                ),
            ensures
                s0 == old(self).state(),
                mf0 == old(self).mem_fault(),
                pf0 == old(self).io_fault(),
                old(self).faults_preserved(&*self),
                ({
                    let (sr, st) = spec_run(s0, mf0, pf0, fuel as nat);
                    sr == Ok::<(), CpuError>(()) && st == self.state()
                }),
            decreases remaining,
        {
            if remaining == 0 {
                proof {
                    lemma_run_done(self.state(), mf0, pf0, remaining as nat);
                }
                break;
            }
            if self.halted {
                proof {
                    lemma_run_done(self.state(), mf0, pf0, remaining as nat);
                }
                break;
            }
            let ghost head = self.state();
            proof {
                fault_maps_stable(old(self), self);
                assert(self.mem_fault() == mf0);
                assert(self.io_fault() == pf0);
                lemma_run_unfold(head, mf0, pf0, remaining as nat);
            }
            match self.step() {
                Err(e) => {
                    proof {
                        fault_maps_stable(old(self), self);
                        assert((Err::<(), CpuError>(e), self.state()) == spec_step(
                            head,
                            mf0,
                            pf0,
                        ));
                        assert(spec_run(s0, mf0, pf0, fuel as nat) == (
                            Err::<(), CpuError>(e),
                            self.state(),
                        ));
                    }
                    return Err(e);
                },
                Ok(_) => {
                    proof {
                        assert(self.state() == spec_step(head, mf0, pf0).1);
                        assert(spec_run(s0, mf0, pf0, fuel as nat) == spec_run(
                            self.state(),
                            mf0,
                            pf0,
                            (remaining - 1) as nat,
                        ));
                    }
                },
            }
            remaining = remaining - 1;
        }
        Ok(())
    }
}


/// Law: a move of an immediate into a register stores exactly that value
/// at the register's width and changes nothing else: no flag bit, no
/// other register slot, no segment register, no memory and no port.
#[verifier::rlimit(100)]
#[verifier::spinoff_prover]
pub proof fn lemma_mov_register_immediate(
    s: CpuState,
    mf: spec_fn(u32) -> CpuError,
    pf: spec_fn(u32) -> CpuError,
    i: Instruction,
    r: Register,
    v: u16,
    size: OperandSize,
)
    requires
        s.regs.len() == 8,
        s.segs.len() == 4,
        i.operation == Operation::Mov,
        i.operands == OperandSet::DestinationAndSource(
            Operand(OperandType::Register(r), size),
            Operand(OperandType::Immediate(v), size),
        ),
    ensures
        spec_execute(s, mf, pf, i).0 == Ok::<(), CpuError>(()),
        spec_execute(s, mf, pf, i).1 == (CpuState {
            regs: spec_set_register(s.regs, size, r, v),
            ..s
        }),
        spec_get_register(spec_execute(s, mf, pf, i).1.regs, size, r) == v as int % width_mask(
            size,
        ),
        forall|j: int|
            0 <= j < 8 && j != mov_target_slot(size, r) ==> spec_execute(s, mf, pf, i).1.regs[j]
                == s.regs[j],
{
    reveal(spec_exec_data);
    let s1 = spec_execute(s, mf, pf, i).1;
    assert(s1.regs == spec_set_register(s.regs, size, r, v));
    match size {
        OperandSize::Word => {
            assert(spec_get_register(s1.regs, size, r) == v);
        },
        OperandSize::Byte => {
            let slot = mov_target_slot(size, r);
            let w = s.regs[slot];
            if reg_index(r) < 4 {
                assert(s1.regs[slot] == with_low_byte(w, v));
                let lb: int = (w / 0x100) * 0x100 + v % 0x100;
                assert(0 <= lb < 0x10000) by (nonlinear_arith)
                    requires
                        lb == (w / 0x100) * 0x100 + v % 0x100,
                        0 <= w < 0x10000,
                ;
                assert(lb % 0x100 == v % 0x100) by (nonlinear_arith)
                    requires
                        lb == (w / 0x100) * 0x100 + v % 0x100,
                        0 <= w < 0x10000,
                ;
                assert(spec_get_register(s1.regs, size, r) == v as int % 0x100);
            } else {
                assert(s1.regs[slot] == with_high_byte(w, v));
                let hb: int = w % 0x100 + (v % 0x100) * 0x100;
                assert(0 <= hb < 0x10000) by (nonlinear_arith)
                    requires
                        hb == w % 0x100 + (v % 0x100) * 0x100,
                        0 <= w < 0x10000,
                ;
                assert(hb / 0x100 == v % 0x100) by (nonlinear_arith)
                    requires
                        hb == w % 0x100 + (v % 0x100) * 0x100,
                        0 <= w < 0x10000,
                ;
                assert(spec_get_register(s1.regs, size, r) == v as int % 0x100);
            }
        },
    }
}

/// The register-file slot a sized register write lands in: byte writes
/// to the high-byte names share the slot of their word register.
pub open spec fn mov_target_slot(size: OperandSize, r: Register) -> int {
    if size is Word {
        reg_index(r)
    } else if reg_index(r) < 4 {
        reg_index(r)
    } else {
        reg_index(r) - 4
    }
}

/// Law: a repeated scan or compare stops only at a counted-out CX or at
/// the flag its repeat prefix watches: with REPNE the zero flag is set
/// at exit, with REPE it is clear, unless CX reached zero.
pub proof fn lemma_rep_stop_condition(
    s: CpuState,
    mf: spec_fn(u32) -> CpuError,
    operation: Operation,
    repeat: Repeat,
    segment_override: Option<Segment>,
)
    requires
        s.regs.len() == 8,
        s.segs.len() == 4,
        matches!(operation, Operation::Scasb | Operation::Scasw | Operation::Cmpsb
            | Operation::Cmpsw),
    ensures
        ({
            let (r, s1) = spec_rep(s, mf, operation, repeat, segment_override);
            r is Ok ==> s1.regs.len() == 8 && (s1.regs[1] == 0 || (match repeat {
                Repeat::NotEqual => flag_selected(s1.flags, ZERO),
                Repeat::Equal => !flag_selected(s1.flags, ZERO),
            }))
        }),
    decreases s.regs[1],
{
    reveal(spec_rep);
    if s.regs[1] != 0 {
        let (r0, s1) = spec_string_once(s, mf, operation, segment_override);
        if r0 is Ok {
            let s2 = CpuState { regs: s1.regs.update(1, (s.regs[1] - 1) as u16), ..s1 };
            if spec_rep_continues(operation, repeat, s2.flags) {
                lemma_rep_stop_condition(s2, mf, operation, repeat, segment_override);
            }
        }
    }
}

/// Law: INC and DEC preserve the carry flag, whatever their operand.
pub proof fn lemma_inc_dec_preserve_carry(
    s: CpuState,
    mf: spec_fn(u32) -> CpuError,
    pf: spec_fn(u32) -> CpuError,
    i: Instruction,
)
    requires
        s.regs.len() == 8,
        s.segs.len() == 4,
        i.operation == Operation::Inc || i.operation == Operation::Dec,
    ensures
        ({
            let (r, s1) = spec_execute(s, mf, pf, i);
            flag_selected(s1.flags, CARRY) == flag_selected(s.flags, CARRY)
        }),
{
    reveal(spec_exec_data);
    flags::lemma_with_flag();
    assert(CARRY != 0);
}

} // verus!
