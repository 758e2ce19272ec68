use mrc::bus::{CpuError, Io, RandomAccessMemory};
use mrc::cpu::CPU;
use mrc::flags::{Flags, AUX_CARRY, CARRY, OVERFLOW, PARITY, SIGN, ZERO};
use mrc::x86::OperandSize;
use mrc::x86::Register;

fn machine(code: Vec<u8>) -> CPU<RandomAccessMemory, Io> {
    let mut image = code;
    image.resize(0x1000, 0);
    CPU::new(RandomAccessMemory::from_bytes(image), Io::new())
}

#[test]
fn mul_widens_into_the_accumulator_pair() {
    // MUL CL with AL=0x40, CL=4: AX = 0x0100, carry and overflow set.
    let mut cpu = machine(vec![0xF6, 0xE1, 0xF4]);
    cpu.registers[0] = 0x0040;
    cpu.registers[1] = 0x0004;
    cpu.run(4).unwrap();
    assert_eq!(cpu.registers[0], 0x0100);
    assert!(cpu.flags.contains(CARRY));
    assert!(cpu.flags.contains(OVERFLOW));

    // MUL BX word-sized: DX:AX takes the 32-bit product.
    let mut cpu = machine(vec![0xF7, 0xE3, 0xF4]);
    cpu.registers[0] = 0x8000;
    cpu.registers[3] = 0x0004;
    cpu.run(4).unwrap();
    assert_eq!(cpu.registers[0], 0x0000);
    assert_eq!(cpu.registers[2], 0x0002);
    assert!(cpu.flags.contains(CARRY));

    // A product that fits clears both flags.
    let mut cpu = machine(vec![0xF6, 0xE1, 0xF4]);
    cpu.registers[0] = 0x0006;
    cpu.registers[1] = 0x0007;
    cpu.run(4).unwrap();
    assert_eq!(cpu.registers[0], 42);
    assert!(!cpu.flags.contains(CARRY));
    assert!(!cpu.flags.contains(OVERFLOW));
}

#[test]
fn imul_keeps_signs() {
    // IMUL CL with AL=-2, CL=3: AX = -6 sign-extended.
    let mut cpu = machine(vec![0xF6, 0xE9, 0xF4]);
    cpu.registers[0] = 0x00FE;
    cpu.registers[1] = 0x0003;
    cpu.run(4).unwrap();
    assert_eq!(cpu.registers[0], 0xFFFA);
    assert!(!cpu.flags.contains(CARRY));

    // -2 * -3 = 6.
    let mut cpu = machine(vec![0xF7, 0xE9, 0xF4]);
    cpu.registers[0] = 0xFFFE;
    cpu.registers[1] = 0xFFFD;
    cpu.run(4).unwrap();
    assert_eq!(cpu.registers[0], 6);
    assert_eq!(cpu.registers[2], 0);
    assert!(!cpu.flags.contains(CARRY));
}

#[test]
fn div_splits_quotient_and_remainder() {
    // DIV CL: AX=100, CL=7 -> AL=14 remainder AH=2.
    let mut cpu = machine(vec![0xF6, 0xF1, 0xF4]);
    cpu.registers[0] = 100;
    cpu.registers[1] = 7;
    cpu.run(4).unwrap();
    assert_eq!(cpu.registers[0] % 0x100, 14);
    assert_eq!(cpu.registers[0] / 0x100, 2);

    // DIV BX word-sized.
    let mut cpu = machine(vec![0xF7, 0xF3, 0xF4]);
    cpu.registers[2] = 0x0001;
    cpu.registers[0] = 0x0000;
    cpu.registers[3] = 0x0002;
    cpu.run(4).unwrap();
    assert_eq!(cpu.registers[0], 0x8000);
    assert_eq!(cpu.registers[2], 0x0000);
}

#[test]
fn divide_by_zero_traps_through_vector_zero() {
    // The zero vector points at 0x0200; DIV by zero must land there
    // with the return state pushed.  The code runs from CS 0x10 so the
    // vector table at linear zero stays clear of it.
    let mut image = vec![0u8; 0x1000];
    image[0] = 0x00;
    image[1] = 0x02;
    image[0x100] = 0xF6;
    image[0x101] = 0xF1;
    let mut cpu = CPU::new(RandomAccessMemory::from_bytes(image), Io::new());
    cpu.segments[1] = 0x10;
    cpu.registers[0] = 100;
    cpu.registers[1] = 0;
    cpu.registers[4] = 0x200;
    cpu.step().unwrap();
    assert_eq!(cpu.ip, 0x0200);
    assert_eq!(cpu.segments[1], 0x0000);
    assert_eq!(cpu.registers[4], 0x200 - 6);

    // An oversize quotient traps the same way.
    let mut image = vec![0u8; 0x1000];
    image[0] = 0x00;
    image[1] = 0x02;
    image[0x100] = 0xF6;
    image[0x101] = 0xF1;
    let mut cpu = CPU::new(RandomAccessMemory::from_bytes(image), Io::new());
    cpu.segments[1] = 0x10;
    cpu.registers[0] = 0x0300;
    cpu.registers[1] = 1;
    cpu.registers[4] = 0x200;
    cpu.step().unwrap();
    assert_eq!(cpu.ip, 0x0200);
}

#[test]
fn idiv_truncates_toward_zero() {
    // IDIV CL: AX=-7, CL=2 -> AL=-3, AH=-1.
    let mut cpu = machine(vec![0xF6, 0xF9, 0xF4]);
    cpu.registers[0] = 0xFFF9;
    cpu.registers[1] = 2;
    cpu.run(4).unwrap();
    assert_eq!(cpu.registers[0] % 0x100, 0xFD);
    assert_eq!(cpu.registers[0] / 0x100, 0xFF);
}

#[test]
fn shifts_move_bits_through_the_carry() {
    // SHL AX, 1 out of the top bit.
    let mut cpu = machine(vec![0xD1, 0xE0, 0xF4]);
    cpu.registers[0] = 0x8001;
    cpu.run(4).unwrap();
    assert_eq!(cpu.registers[0], 0x0002);
    assert!(cpu.flags.contains(CARRY));

    // SHR CL-counted.
    let mut cpu = machine(vec![0xD3, 0xE8, 0xF4]);
    cpu.registers[0] = 0x0F00;
    cpu.registers[1] = 8;
    cpu.run(4).unwrap();
    assert_eq!(cpu.registers[0], 0x000F);

    // SAR keeps the sign.
    let mut cpu = machine(vec![0xD1, 0xF8, 0xF4]);
    cpu.registers[0] = 0x8002;
    cpu.run(4).unwrap();
    assert_eq!(cpu.registers[0], 0xC001);
    assert!(!cpu.flags.contains(CARRY));

    // ROL wraps the top bit to the bottom; a zero count changes nothing.
    let mut cpu = machine(vec![0xD2, 0xC0, 0xF4]);
    cpu.registers[0] = 0x0081;
    cpu.registers[1] = 0;
    cpu.flags = Flags::from_bits(CARRY);
    cpu.run(4).unwrap();
    assert_eq!(cpu.registers[0] % 0x100, 0x81);
    assert!(cpu.flags.contains(CARRY));

    let mut cpu = machine(vec![0xD0, 0xC0, 0xF4]);
    cpu.registers[0] = 0x0081;
    cpu.run(4).unwrap();
    assert_eq!(cpu.registers[0] % 0x100, 0x03);
    assert!(cpu.flags.contains(CARRY));

    // RCR pulls the carry into the top bit.
    let mut cpu = machine(vec![0xD0, 0xD8, 0xF4]);
    cpu.registers[0] = 0x0000;
    cpu.flags = Flags::from_bits(CARRY);
    cpu.run(4).unwrap();
    assert_eq!(cpu.registers[0] % 0x100, 0x80);
    assert!(!cpu.flags.contains(CARRY));
}

#[test]
fn not_and_neg_complement_their_destination() {
    let mut cpu = machine(vec![0xF7, 0xD0, 0xF4]);
    cpu.registers[0] = 0x00FF;
    cpu.flags = Flags::from_bits(CARRY);
    cpu.run(4).unwrap();
    assert_eq!(cpu.registers[0], 0xFF00);
    // NOT leaves every flag alone.
    assert!(cpu.flags.contains(CARRY));

    let mut cpu = machine(vec![0xF7, 0xD8, 0xF4]);
    cpu.registers[0] = 0x0001;
    cpu.run(4).unwrap();
    assert_eq!(cpu.registers[0], 0xFFFF);
    assert!(cpu.flags.contains(CARRY));
    let mut cpu = machine(vec![0xF6, 0xD8, 0xF4]);
    cpu.registers[0] = 0x0000;
    cpu.run(4).unwrap();
    assert_eq!(cpu.registers[0], 0x0000);
    assert!(!cpu.flags.contains(CARRY));
}

#[test]
fn xchg_swaps_values_both_ways() {
    // XCHG AX, CX in the one-byte form.
    let mut cpu = machine(vec![0x91, 0xF4]);
    cpu.registers[0] = 0x1111;
    cpu.registers[1] = 0x2222;
    cpu.run(4).unwrap();
    assert_eq!(cpu.registers[0], 0x2222);
    assert_eq!(cpu.registers[1], 0x1111);

    // XCHG against a memory operand.
    let mut image = vec![0x86, 0x07, 0xF4];
    image.resize(0x1000, 0);
    image[0x90] = 0x55;
    let mut cpu = CPU::new(RandomAccessMemory::from_bytes(image), Io::new());
    cpu.registers[0] = 0x00AA;
    cpu.registers[3] = 0x90;
    cpu.run(4).unwrap();
    assert_eq!(cpu.memory.bytes[0x90], 0xAA);
    assert_eq!(cpu.registers[0] % 0x100, 0x55);
}

#[test]
fn pointer_loads_and_converts() {
    // LEA BX, [BX+0x10].
    let mut cpu = machine(vec![0x8D, 0x5F, 0x10, 0xF4]);
    cpu.registers[3] = 0x0100;
    cpu.run(4).unwrap();
    assert_eq!(cpu.registers[3], 0x0110);

    // LDS AX, [0x40]: offset then segment.
    let mut image = vec![0xC5, 0x06, 0x40, 0x00, 0xF4];
    image.resize(0x1000, 0);
    image[0x40] = 0x34;
    image[0x41] = 0x12;
    image[0x42] = 0x00;
    image[0x43] = 0xB8;
    let mut cpu = CPU::new(RandomAccessMemory::from_bytes(image), Io::new());
    cpu.run(4).unwrap();
    assert_eq!(cpu.registers[0], 0x1234);
    assert_eq!(cpu.segments[3], 0xB800);

    // CBW and CWD sign-extend.
    let mut cpu = machine(vec![0x98, 0x99, 0xF4]);
    cpu.registers[0] = 0x0080;
    cpu.run(4).unwrap();
    assert_eq!(cpu.registers[0], 0xFF80);
    assert_eq!(cpu.registers[2], 0xFFFF);

    // XLAT reads the table byte at BX+AL.
    let mut image = vec![0xD7, 0xF4];
    image.resize(0x1000, 0);
    image[0x105] = 0x77;
    let mut cpu = CPU::new(RandomAccessMemory::from_bytes(image), Io::new());
    cpu.registers[3] = 0x100;
    cpu.registers[0] = 0x0005;
    cpu.run(4).unwrap();
    assert_eq!(cpu.registers[0] % 0x100, 0x77);
}

#[test]
fn decimal_adjusts_follow_the_reference_rules() {
    // DAA: 0x15 + 0x27 = 0x3C adjusts to 0x42.
    let mut cpu = machine(vec![0x27, 0xF4]);
    cpu.registers[0] = 0x003C;
    cpu.flags = Flags::empty();
    cpu.run(4).unwrap();
    assert_eq!(cpu.registers[0] % 0x100, 0x42);
    assert!(cpu.flags.contains(AUX_CARRY));
    assert!(!cpu.flags.contains(CARRY));

    // AAM splits AL by ten.
    let mut cpu = machine(vec![0xD4, 0x0A, 0xF4]);
    cpu.registers[0] = 73;
    cpu.run(4).unwrap();
    assert_eq!(cpu.registers[0] / 0x100, 7);
    assert_eq!(cpu.registers[0] % 0x100, 3);

    // AAD folds AH back in.
    let mut cpu = machine(vec![0xD5, 0x0A, 0xF4]);
    cpu.registers[0] = 0x0703;
    cpu.run(4).unwrap();
    assert_eq!(cpu.registers[0], 73);

    // AAA with a low nibble past nine carries into AH.
    let mut cpu = machine(vec![0x37, 0xF4]);
    cpu.registers[0] = 0x000B;
    cpu.run(4).unwrap();
    assert_eq!(cpu.registers[0], 0x0101);
    assert!(cpu.flags.contains(CARRY));

    // AAM by zero traps through vector zero.
    let mut image = vec![0u8; 0x1000];
    image[0] = 0x00;
    image[1] = 0x02;
    image[0x100] = 0xD4;
    image[0x101] = 0x00;
    let mut cpu = CPU::new(RandomAccessMemory::from_bytes(image), Io::new());
    cpu.segments[1] = 0x10;
    cpu.registers[4] = 0x200;
    cpu.step().unwrap();
    assert_eq!(cpu.ip, 0x0200);
}

#[test]
fn wide_returns_and_calls_execute() {
    // CALL far pushes CS then IP and lands on the far target.
    let mut code = vec![0x9A, 0x00, 0x02, 0x00, 0x00, 0xF4];
    code.resize(0x1000, 0);
    let mut cpu = machine(code);
    cpu.registers[4] = 0x100;
    cpu.step().unwrap();
    assert_eq!(cpu.ip, 0x0200);
    assert_eq!(cpu.registers[4], 0x100 - 4);

    // RET imm pops and then drops the arguments.
    let mut image = vec![0xC2, 0x04, 0x00];
    image.resize(0x1000, 0);
    image[0xFE] = 0x42;
    let mut cpu = CPU::new(RandomAccessMemory::from_bytes(image), Io::new());
    cpu.registers[4] = 0xFE;
    cpu.step().unwrap();
    assert_eq!(cpu.ip, 0x0042);
    assert_eq!(cpu.registers[4], 0xFE + 2 + 4);

    // The far return pops IP then CS.
    let mut image = vec![0xCB];
    image.resize(0x1000, 0);
    image[0xFE] = 0x10;
    image[0x101] = 0x20;
    let mut cpu = CPU::new(RandomAccessMemory::from_bytes(image), Io::new());
    cpu.registers[4] = 0xFE;
    cpu.step().unwrap();
    assert_eq!(cpu.ip, 0x0010);
    assert_eq!(cpu.segments[1], 0x2000);
    assert_eq!(cpu.registers[4], 0x102);

    // An indirect JMP through a register.
    let mut cpu = machine(vec![0xFF, 0xE3, 0xF4]);
    cpu.registers[3] = 0x0123;
    cpu.step().unwrap();
    assert_eq!(cpu.ip, 0x0123);
}

#[test]
fn test_through_memory_only_sets_flags() {
    let mut image = vec![0xF6, 0x07, 0xF0, 0xF4];
    image.resize(0x1000, 0);
    image[0x90] = 0x0F;
    let mut cpu = CPU::new(RandomAccessMemory::from_bytes(image), Io::new());
    cpu.registers[3] = 0x90;
    cpu.run(4).unwrap();
    assert_eq!(cpu.memory.bytes[0x90], 0x0F);
    assert!(cpu.flags.contains(ZERO));
    assert!(!cpu.flags.contains(SIGN));
    assert!(cpu.flags.contains(PARITY));
}

#[test]
fn byte_inc_through_memory_wraps() {
    let mut image = vec![0xFE, 0x07, 0xF4];
    image.resize(0x1000, 0);
    image[0x90] = 0xFF;
    let mut cpu = CPU::new(RandomAccessMemory::from_bytes(image), Io::new());
    cpu.registers[3] = 0x90;
    cpu.flags = Flags::from_bits(CARRY);
    cpu.run(4).unwrap();
    assert_eq!(cpu.memory.bytes[0x90], 0x00);
    assert!(cpu.flags.contains(ZERO));
    // INC through memory still preserves the carry flag.
    assert!(cpu.flags.contains(CARRY));
}

#[test]
fn register_reads_match_their_width() {
    let mut cpu = machine(vec![]);
    cpu.registers[2] = 0xABCD;
    assert_eq!(cpu.get_register_value(OperandSize::Byte, Register::DlDx), 0xCD);
    assert_eq!(cpu.get_register_value(OperandSize::Byte, Register::DhSi), 0xAB);
    assert_eq!(cpu.get_register_value(OperandSize::Word, Register::DlDx), 0xABCD);
}
