use mrc::bus::{Bus, CpuError, Io, RandomAccessMemory};
use mrc::cpu::{linear, CPU};
use mrc::flags::{
    flags_from_byte_result, flags_from_word_result, test_flags, Flags, AUX_CARRY, CARRY,
    DIRECTION, OVERFLOW, PARITY, SIGN, ZERO,
};
use mrc::x86::{
    Instruction, Operand, OperandSet, OperandSize, OperandType, Operation, Register, Repeat,
    Segment,
};

fn fresh_cpu(code: Vec<u8>) -> CPU<RandomAccessMemory, Io> {
    let mut image = code;
    image.resize(0x1000, 0);
    CPU::new(RandomAccessMemory::from_bytes(image), Io::new())
}

#[test]
fn led_program_writes_port_and_halts() {
    // MOV AL, 0x01; OUT 0x00, AL; HLT writes one LED byte and stops.
    let mut cpu = fresh_cpu(vec![0xB0, 0x01, 0xE6, 0x00, 0xF4]);
    cpu.run(16).unwrap();
    assert!(cpu.halted);
    assert_eq!(cpu.io.data[0], 0x01);
    for port in 1..8 {
        assert_eq!(cpu.io.data[port], 0x00);
    }
}

#[test]
fn mov_ax_immediate_leaves_flags_alone() {
    // After MOV AX, 0x1234 the register holds the value and the
    // flags are untouched.
    let mut cpu = fresh_cpu(vec![0xB8, 0x34, 0x12, 0xF4]);
    cpu.flags = Flags::from_bits(CARRY | ZERO);
    cpu.run(4).unwrap();
    assert_eq!(cpu.registers[0], 0x1234);
    assert_eq!(cpu.flags.bits, CARRY | ZERO);
    assert!(cpu.halted);
}

#[test]
fn add_ax_ffff_sets_flags() {
    // ADD AX, 0xFFFF with AX=0x0001 wraps to zero with CF ZF PF AF
    // set and SF OF clear.
    let mut cpu = fresh_cpu(vec![0x05, 0xFF, 0xFF, 0xF4]);
    cpu.registers[0] = 0x0001;
    cpu.run(4).unwrap();
    assert_eq!(cpu.registers[0], 0x0000);
    assert!(test_flags(&cpu.flags, true, true, true, true, false, false));
}

#[test]
fn cmp_al_0x80_sets_borrow_and_overflow() {
    // CMP AL, 0x80 with AL=0x7F leaves AL alone, CF=1 ZF=0 SF=1 OF=1.
    let mut cpu = fresh_cpu(vec![0x3C, 0x80, 0xF4]);
    cpu.registers[0] = 0x007F;
    cpu.run(4).unwrap();
    assert_eq!(cpu.registers[0] & 0xFF, 0x7F);
    assert!(cpu.flags.contains(CARRY));
    assert!(!cpu.flags.contains(ZERO));
    assert!(cpu.flags.contains(SIGN));
    assert!(cpu.flags.contains(OVERFLOW));
}

#[test]
fn repne_scasb_stops_on_match() {
    // REPNE SCASB with CX=5, AL=0, ES:DI at [01,02,03,00,05], DF=0
    // runs four iterations, ends with ZF set and DI advanced by four.
    let mut image = vec![0xF2, 0xAE, 0xF4];
    image.resize(0x100, 0);
    image[0x20] = 0x01;
    image[0x21] = 0x02;
    image[0x22] = 0x03;
    image[0x23] = 0x00;
    image[0x24] = 0x05;
    let mut cpu = fresh_cpu(image);
    cpu.registers[0] = 0x0000;
    cpu.registers[1] = 5;
    cpu.registers[7] = 0x20;
    cpu.run(4).unwrap();
    assert!(cpu.flags.contains(ZERO));
    assert_eq!(cpu.registers[7], 0x24);
    assert_eq!(cpu.registers[1], 1);
    assert!(cpu.halted);
}

#[test]
fn parity_flag_reflects_low_byte() {
    // The parity flag always reflects the low byte of the result.
    let mut flags = Flags::empty();
    flags_from_word_result(&mut flags, 0xFF00);
    assert!(flags.contains(PARITY));
    flags_from_word_result(&mut flags, 0xFF01);
    assert!(!flags.contains(PARITY));
    flags_from_word_result(&mut flags, 0x0003);
    assert!(flags.contains(PARITY));
    flags_from_byte_result(&mut flags, 0x07);
    assert!(!flags.contains(PARITY));
    flags_from_byte_result(&mut flags, 0x00);
    assert!(flags.contains(PARITY));
}

#[test]
fn zero_sign_updates_preserve_other_bits() {
    let mut flags = Flags::from_bits(CARRY | DIRECTION | AUX_CARRY);
    flags_from_byte_result(&mut flags, 0x80);
    assert!(flags.contains(CARRY));
    assert!(flags.contains(DIRECTION));
    assert!(flags.contains(AUX_CARRY));
    assert!(flags.contains(SIGN));
    assert!(!flags.contains(ZERO));
}

#[test]
fn inc_and_dec_preserve_carry() {
    // INC AX and DEC AX never touch the carry flag.
    let mut cpu = fresh_cpu(vec![0x40, 0x48, 0xF4]);
    cpu.flags = Flags::from_bits(CARRY);
    cpu.registers[0] = 0xFFFF;
    cpu.run(4).unwrap();
    assert_eq!(cpu.registers[0], 0xFFFF);
    assert!(cpu.flags.contains(CARRY));

    let mut cpu = fresh_cpu(vec![0x40, 0xF4]);
    cpu.flags = Flags::empty();
    cpu.registers[0] = 0xFFFF;
    cpu.run(4).unwrap();
    assert_eq!(cpu.registers[0], 0x0000);
    assert!(!cpu.flags.contains(CARRY));
    assert!(cpu.flags.contains(ZERO));
}

#[test]
fn segmentation_resolves_shifted_and_masked() {
    // linear((seg, off)) == ((seg << 4) + off) & 0xFFFFF for all pairs.
    assert_eq!(linear(0x0000, 0x0000), 0x00000);
    assert_eq!(linear(0x1000, 0x0100), 0x10100);
    assert_eq!(linear(0xFFFF, 0xFFFF), ((0xFFFFu32 << 4) + 0xFFFF) & 0xFFFFF);
    assert_eq!(linear(0xB800, 0x0010), 0xB8010);
}

#[test]
fn byte_register_writes_split_words() {
    let mut cpu = fresh_cpu(vec![]);
    cpu.set_register_value(OperandSize::Word, Register::AlAx, 0x1234);
    cpu.set_register_value(OperandSize::Byte, Register::AhSp, 0xB0);
    assert_eq!(cpu.registers[0], 0xB034);
    cpu.set_register_value(OperandSize::Byte, Register::AlAx, 0x01);
    assert_eq!(cpu.registers[0], 0xB001);
    assert_eq!(cpu.get_register_value(OperandSize::Byte, Register::AhSp), 0xB0);
    assert_eq!(cpu.get_register_value(OperandSize::Byte, Register::AlAx), 0x01);
    assert_eq!(cpu.registers[4], 0x0000);
}

#[test]
fn get_source_value_reads_registers_and_memory() {
    let mut image = vec![0u8; 0x100];
    image[0x42] = 0xCD;
    image[0x43] = 0xAB;
    let mut cpu = CPU::new(RandomAccessMemory::from_bytes(image), Io::new());
    cpu.registers[3] = 0x0042;
    let v = cpu
        .get_source_value(
            None,
            &Operand(OperandType::Immediate(0x55AA), OperandSize::Word),
        )
        .unwrap();
    assert_eq!(v, 0x55AA);
    let v = cpu
        .get_source_value(
            None,
            &Operand(OperandType::Direct(0x0042), OperandSize::Word),
        )
        .unwrap();
    assert_eq!(v, 0xABCD);
    let v = cpu
        .get_source_value(
            None,
            &Operand(
                OperandType::Indirect(mrc::x86::AddressingMode::Bx, 0),
                OperandSize::Byte,
            ),
        )
        .unwrap();
    assert_eq!(v, 0xCD);
}

#[test]
fn bus_faults_surface_their_addresses() {
    let mut cpu = fresh_cpu(vec![0xA1, 0xFF, 0xFF]);
    // A word read at 0xFFFF reaches past the 0x1000-byte memory.
    let r = cpu.run(1);
    assert_eq!(r, Err(CpuError::InvalidAddress(0xFFFF)));

    let mut io = Io::new();
    assert_eq!(io.read(9), Err(CpuError::InvalidPort(9)));
    assert_eq!(io.write(8, 1), Err(CpuError::InvalidPort(8)));
    assert_eq!(io.write(7, 1), Ok(()));
    assert_eq!(io.read(7), Ok(1));
}

#[test]
fn execute_reports_unsupported_operations() {
    let mut cpu = fresh_cpu(vec![]);
    let i = Instruction::new(Operation::Mul, OperandSet::Empty);
    assert_eq!(
        cpu.execute(&i),
        Err(CpuError::UnsupportedOperation(Operation::Mul))
    );
}

#[test]
fn call_and_ret_use_the_stack() {
    // CALL 0x0002 then HLT at the target; the pushed address is the
    // instruction end.
    let mut code = vec![0xE8, 0x02, 0x00, 0x90, 0x90, 0xF4];
    code.resize(0x200, 0);
    let mut cpu = fresh_cpu(code);
    cpu.registers[4] = 0x100;
    cpu.step().unwrap();
    assert_eq!(cpu.ip, 0x0005);
    assert_eq!(cpu.registers[4], 0x00FE);
    let lo = cpu.memory.bytes[0xFE] as u16;
    let hi = cpu.memory.bytes[0xFF] as u16;
    assert_eq!(lo + (hi << 8), 0x0003);
}

#[test]
fn conditional_jumps_follow_flags() {
    // JE taken: IP moves by the signed displacement.
    let mut cpu = fresh_cpu(vec![0x74, 0x02, 0xF4, 0x90, 0xF4]);
    cpu.flags = Flags::from_bits(ZERO);
    cpu.step().unwrap();
    assert_eq!(cpu.ip, 0x0004);

    // JE not taken.
    let mut cpu = fresh_cpu(vec![0x74, 0x02, 0xF4]);
    cpu.flags = Flags::empty();
    cpu.step().unwrap();
    assert_eq!(cpu.ip, 0x0002);
}

#[test]
fn rep_movsb_copies_forward() {
    let mut image = vec![0xF3, 0xA4, 0xF4];
    image.resize(0x100, 0);
    image[0x40] = 0xAA;
    image[0x41] = 0xBB;
    image[0x42] = 0xCC;
    let mut cpu = fresh_cpu(image);
    cpu.registers[1] = 3;
    cpu.registers[6] = 0x40;
    cpu.registers[7] = 0x80;
    cpu.run(4).unwrap();
    assert_eq!(cpu.memory.bytes[0x80], 0xAA);
    assert_eq!(cpu.memory.bytes[0x81], 0xBB);
    assert_eq!(cpu.memory.bytes[0x82], 0xCC);
    assert_eq!(cpu.registers[1], 0);
    assert_eq!(cpu.registers[6], 0x43);
    assert_eq!(cpu.registers[7], 0x83);
}

#[test]
fn stosw_respects_the_direction_flag() {
    // STD makes STOSW walk backwards by two.
    let mut cpu = fresh_cpu(vec![0xFD, 0xAB, 0xF4]);
    cpu.registers[0] = 0x1234;
    cpu.registers[7] = 0x80;
    cpu.run(4).unwrap();
    assert_eq!(cpu.memory.bytes[0x80], 0x34);
    assert_eq!(cpu.memory.bytes[0x81], 0x12);
    assert_eq!(cpu.registers[7], 0x7E);
}

#[test]
fn int_pushes_state_and_follows_the_vector() {
    // INT 0x21 with a vector at linear 0x84 pointing to 0x0200 in the
    // same segment.
    let mut image = vec![0xCD, 0x21, 0xF4];
    image.resize(0x400, 0);
    image[0x84] = 0x00;
    image[0x85] = 0x02;
    image[0x86] = 0x00;
    image[0x87] = 0x00;
    let mut cpu = fresh_cpu(image);
    cpu.registers[4] = 0x100;
    cpu.step().unwrap();
    assert_eq!(cpu.ip, 0x0200);
    assert_eq!(cpu.segments[1], 0x0000);
    assert_eq!(cpu.registers[4], 0x00FA);
    // The pushed instruction pointer is the address after the INT.
    assert_eq!(cpu.memory.bytes[0xFA], 0x02);
    assert_eq!(cpu.memory.bytes[0xFB], 0x00);
}

#[test]
fn pushf_and_popf_move_the_flags_word() {
    let mut cpu = fresh_cpu(vec![0x9C, 0xF4]);
    cpu.registers[4] = 0x100;
    cpu.flags = Flags::from_bits(CARRY | ZERO | DIRECTION);
    cpu.run(4).unwrap();
    let lo = cpu.memory.bytes[0xFE] as u16;
    let hi = cpu.memory.bytes[0xFF] as u16;
    assert_eq!(lo + (hi << 8), CARRY | ZERO | DIRECTION);

    let mut cpu = fresh_cpu(vec![0x9D, 0xF4]);
    cpu.registers[4] = 0xFE;
    cpu.memory.bytes[0xFE] = (CARRY | SIGN) as u8;
    cpu.memory.bytes[0xFF] = 0;
    cpu.run(4).unwrap();
    assert_eq!(cpu.flags.bits, CARRY | SIGN);
    assert_eq!(cpu.registers[4], 0x100);
}

#[test]
fn fetch_failures_halt_with_the_decode_error() {
    let mut cpu = fresh_cpu(vec![0xD6]);
    let r = cpu.step();
    assert_eq!(
        r,
        Err(CpuError::Decode(mrc::decode::Error::InvalidOpCode(0xD6)))
    );
    assert!(cpu.halted);
}

#[test]
fn register_dump_prints_every_slot() {
    let mut cpu = fresh_cpu(vec![]);
    cpu.registers[0] = 0x1234;
    cpu.registers[4] = 0xFFFE;
    let text = String::from_utf8(mrc::dis::print_registers(&cpu.registers)).unwrap();
    assert_eq!(
        text,
        "AX: 0x1234 CX: 0x0000 DX: 0x0000 BX: 0x0000 SP: 0xFFFE BP: 0x0000 SI: 0x0000 DI: 0x0000 "
    );
}

#[test]
fn flag_instructions_toggle_their_bits() {
    let mut cpu = fresh_cpu(vec![0xF9, 0xF5, 0xFD, 0xFB, 0xF4]);
    cpu.run(8).unwrap();
    // STC then CMC leaves carry clear; STD and STI set their bits.
    assert!(!cpu.flags.contains(CARRY));
    assert!(cpu.flags.contains(DIRECTION));
    assert!(cpu.flags.contains(mrc::flags::INTERRUPT));
}

#[test]
fn far_jump_loads_both_segment_and_offset() {
    let mut cpu = fresh_cpu(vec![0xEA, 0x00, 0x02, 0x80, 0x00]);
    cpu.step().unwrap();
    assert_eq!(cpu.segments[1], 0x0080);
    assert_eq!(cpu.ip, 0x0200);
}

#[test]
fn ret_returns_to_the_pushed_address() {
    // CALL 0x0001, then the target RETs back to HLT.
    let mut code = vec![0xE8, 0x01, 0x00, 0xF4, 0xC3];
    code.resize(0x200, 0);
    let mut cpu = fresh_cpu(code);
    cpu.registers[4] = 0x100;
    cpu.run(8).unwrap();
    assert!(cpu.halted);
    assert_eq!(cpu.ip, 0x0004);
    assert_eq!(cpu.registers[4], 0x100);
}

#[test]
fn lahf_and_sahf_move_the_low_flag_byte() {
    let mut cpu = fresh_cpu(vec![0x9F, 0xF4]);
    cpu.flags = Flags::from_bits(CARRY | ZERO | SIGN);
    cpu.run(4).unwrap();
    let ah = cpu.get_register_value(OperandSize::Byte, Register::AhSp);
    assert_eq!(ah, (CARRY | ZERO | SIGN | 0x02) as u16);

    let mut cpu = fresh_cpu(vec![0x9E, 0xF4]);
    cpu.set_register_value(OperandSize::Byte, Register::AhSp, (CARRY | PARITY) as u16);
    cpu.run(4).unwrap();
    assert!(cpu.flags.contains(CARRY));
    assert!(cpu.flags.contains(PARITY));
    assert!(!cpu.flags.contains(ZERO));
}

#[test]
fn memory_destinations_take_stores() {
    // MOV [0x80], AX writes both bytes little-endian.
    let mut cpu = fresh_cpu(vec![0xA3, 0x80, 0x00, 0xF4]);
    cpu.registers[0] = 0xBEEF;
    cpu.run(4).unwrap();
    assert_eq!(cpu.memory.bytes[0x80], 0xEF);
    assert_eq!(cpu.memory.bytes[0x81], 0xBE);

    // ADD byte [BX], 1 works read-modify-write through memory.
    let mut image = vec![0x80, 0x07, 0x01, 0xF4];
    image.resize(0x100, 0);
    image[0x90] = 0x41;
    let mut cpu = fresh_cpu(image);
    cpu.registers[3] = 0x90;
    cpu.run(4).unwrap();
    assert_eq!(cpu.memory.bytes[0x90], 0x42);
}

#[test]
fn segment_override_redirects_data_access() {
    // ES:MOV AL, [0x10] reads through ES rather than DS.
    let mut image = vec![0x26, 0xA0, 0x10, 0x00, 0xF4];
    image.resize(0x400, 0);
    image[0x10] = 0x11;  // DS:0x10 (DS = 0)
    image[0x110] = 0x22;  // ES:0x10 with ES = 0x10
    let mut cpu = fresh_cpu(image);
    cpu.segments[0] = 0x0010;
    cpu.run(4).unwrap();
    assert_eq!(cpu.get_register_value(OperandSize::Byte, Register::AlAx), 0x22);
}
