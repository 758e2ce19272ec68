use mrc::decode::{decode_instruction, Error};
use mrc::encode::{encode_instruction, EncodeError};
use mrc::stream::{Data, DataIterator};
use mrc::x86::{
    Instruction, Operand, OperandSet, OperandSize, OperandType, Operation, Register, Repeat,
    Segment,
};

fn decode_bytes(bytes: Vec<u8>) -> (Result<Instruction, Error>, usize) {
    let mut it = Data::from_bytes(bytes);
    let r = decode_instruction(&mut it);
    (r, it.current_position)
}

#[test]
fn decode_mov_ax_imm16() {
    // B8 34 12 is MOV AX, 0x1234.
    let (r, used) = decode_bytes(vec![0xB8, 0x34, 0x12]);
    let i = r.unwrap();
    assert_eq!(i.operation, Operation::Mov);
    assert_eq!(
        i.operands,
        OperandSet::DestinationAndSource(
            Operand(OperandType::Register(Register::AlAx), OperandSize::Word),
            Operand(OperandType::Immediate(0x1234), OperandSize::Word),
        )
    );
    assert_eq!(used, 3);
}

#[test]
fn decode_consumes_exactly_its_bytes() {
    // The cursor advances by the instruction length, even with trailing
    // bytes in the stream.
    let (r, used) = decode_bytes(vec![0xB0, 0x01, 0xE6, 0x00, 0xF4]);
    assert!(r.is_ok());
    assert_eq!(used, 2);

    let (r, used) = decode_bytes(vec![0xF4, 0x90]);
    assert_eq!(r.unwrap().operation, Operation::Hlt);
    assert_eq!(used, 1);
}

#[test]
fn decode_rep_prefix_recursion() {
    let (r, used) = decode_bytes(vec![0xF2, 0xAE]);
    let i = r.unwrap();
    assert_eq!(i.operation, Operation::Scasb);
    assert_eq!(i.repeat, Some(Repeat::NotEqual));
    assert_eq!(used, 2);

    let (r, _) = decode_bytes(vec![0xF3, 0xA4]);
    let i = r.unwrap();
    assert_eq!(i.operation, Operation::Movsb);
    assert_eq!(i.repeat, Some(Repeat::Equal));
}

#[test]
fn decode_segment_override_prefix() {
    let (r, used) = decode_bytes(vec![0x2E, 0xA1, 0x00, 0x10]);
    let i = r.unwrap();
    assert_eq!(i.operation, Operation::Mov);
    assert_eq!(i.segment_override, Some(Segment::Cs));
    assert_eq!(used, 4);
}

#[test]
fn decode_rejects_unknown_opcode_and_eof() {
    let (r, _) = decode_bytes(vec![0xD6]);
    assert_eq!(r, Err(Error::InvalidOpCode(0xD6)));
    let (r, _) = decode_bytes(vec![]);
    assert_eq!(r, Err(Error::UnexpectedEof));
    let (r, _) = decode_bytes(vec![0xB8, 0x34]);
    assert_eq!(r, Err(Error::UnexpectedEof));
    // More than four prefix bytes are rejected.
    let (r, _) = decode_bytes(vec![0xF2, 0xF3, 0x2E, 0x36, 0xF2, 0x90]);
    assert_eq!(r, Err(Error::InvalidOpCode(0xF2)));
}

#[test]
fn decode_group_immediate_sign_extends() {
    // 83 C3 FE is ADD BX, 0xFFFE: the byte immediate is sign-extended.
    let (r, used) = decode_bytes(vec![0x83, 0xC3, 0xFE]);
    let i = r.unwrap();
    assert_eq!(i.operation, Operation::Add);
    assert_eq!(
        i.operands,
        OperandSet::DestinationAndSource(
            Operand(OperandType::Register(Register::BlBx), OperandSize::Word),
            Operand(OperandType::Immediate(0xFFFE), OperandSize::Word),
        )
    );
    assert_eq!(used, 3);
}

#[test]
fn encode_decode_round_trip_samples() {
    let samples = vec![
        Instruction::new(
            Operation::Mov,
            OperandSet::DestinationAndSource(
                Operand(OperandType::Register(Register::AlAx), OperandSize::Word),
                Operand(OperandType::Immediate(0xB800), OperandSize::Word),
            ),
        ),
        Instruction::new(
            Operation::Mov,
            OperandSet::DestinationAndSource(
                Operand(OperandType::Segment(Segment::Ds), OperandSize::Word),
                Operand(OperandType::Register(Register::AlAx), OperandSize::Word),
            ),
        ),
        Instruction::new(
            Operation::Cmp,
            OperandSet::DestinationAndSource(
                Operand(OperandType::Register(Register::AlAx), OperandSize::Byte),
                Operand(OperandType::Immediate(0x80), OperandSize::Byte),
            ),
        ),
        Instruction::new(Operation::Jne, OperandSet::Offset(0xF8)),
        Instruction::new(Operation::Jmp, OperandSet::Offset(0xFFF8)),
        Instruction::new(Operation::Jmp, OperandSet::SegmentAndOffset(0x1000, 0x0100)),
        Instruction::new(
            Operation::Out,
            OperandSet::DestinationAndSource(
                Operand(OperandType::Immediate(0x00), OperandSize::Byte),
                Operand(OperandType::Register(Register::AlAx), OperandSize::Byte),
            ),
        ),
        Instruction::new(
            Operation::Push,
            OperandSet::Destination(Operand(
                OperandType::Register(Register::DhSi),
                OperandSize::Word,
            )),
        ),
        Instruction::new(
            Operation::Int,
            OperandSet::Destination(Operand(OperandType::Immediate(0x21), OperandSize::Byte)),
        ),
        Instruction::new(Operation::Hlt, OperandSet::Empty),
        Instruction::new(Operation::Scasb, OperandSet::Empty),
    ];
    for i in samples {
        let bytes = encode_instruction(&i).unwrap();
        let len = bytes.len();
        let (r, used) = decode_bytes(bytes);
        assert_eq!(r.unwrap(), i);
        assert_eq!(used, len);
    }
}

#[test]
fn encoder_rejects_what_it_cannot_express() {
    // A byte-register move of a word-sized immediate is a size mismatch.
    let i = Instruction::new(
        Operation::Mov,
        OperandSet::DestinationAndSource(
            Operand(OperandType::Register(Register::AlAx), OperandSize::Byte),
            Operand(OperandType::Immediate(0x1234), OperandSize::Byte),
        ),
    );
    assert_eq!(encode_instruction(&i), Err(EncodeError::DisplacementOutOfRange));

    let i = Instruction::new(
        Operation::Mov,
        OperandSet::DestinationAndSource(
            Operand(OperandType::Register(Register::AlAx), OperandSize::Byte),
            Operand(OperandType::Register(Register::AlAx), OperandSize::Word),
        ),
    );
    assert_eq!(encode_instruction(&i), Err(EncodeError::SizeMismatch));

    let i = Instruction::new(Operation::Lea, OperandSet::Empty);
    assert_eq!(
        encode_instruction(&i),
        Err(EncodeError::InvalidOperandCombination)
    );

    let i = Instruction::new(Operation::Je, OperandSet::Offset(0x100));
    assert_eq!(
        encode_instruction(&i),
        Err(EncodeError::DisplacementOutOfRange)
    );
}

#[test]
fn segment_field_of_a_segment_move_is_checked() {
    // 8E with the ModR/M register field above three is no segment.
    let (r, _) = decode_bytes(vec![0x8E, 0b11_100_000]);
    assert_eq!(r, Err(Error::InvalidSegmentEncoding(4)));
    let (r, _) = decode_bytes(vec![0x8E, 0b11_011_000]);
    let i = r.unwrap();
    assert_eq!(
        i.operands,
        OperandSet::DestinationAndSource(
            Operand(OperandType::Segment(Segment::Ds), OperandSize::Word),
            Operand(OperandType::Register(Register::AlAx), OperandSize::Word),
        )
    );
}

#[test]
fn low_bit_helpers_reject_wide_fields() {
    assert_eq!(
        Register::try_from_low_bits(9),
        Err(Error::InvalidRegisterEncoding(9))
    );
    assert_eq!(
        mrc::x86::Segment::try_from_low_bits(4),
        Err(Error::InvalidSegmentEncoding(4))
    );
    assert_eq!(
        mrc::x86::OperandSize::try_from_low_bits(2),
        Err(Error::InvalidOperandSize(2))
    );
}

#[test]
fn the_prefix_nearest_the_opcode_wins() {
    // Two repeat prefixes: the hardware latches the last of each class,
    // the one nearest the opcode.
    let (r, used) = decode_bytes(vec![0xF3, 0xF2, 0xAE]);
    let i = r.unwrap();
    assert_eq!(i.repeat, Some(Repeat::NotEqual));
    assert_eq!(used, 3);

    // A repeat and an override combine; each class keeps its own slot.
    let (r, _) = decode_bytes(vec![0xF2, 0x26, 0xAE]);
    let i = r.unwrap();
    assert_eq!(i.operation, Operation::Scasb);
    assert_eq!(i.repeat, Some(Repeat::NotEqual));
    assert_eq!(i.segment_override, Some(Segment::Es));

    // Two overrides: the inner one is kept.
    let (r, _) = decode_bytes(vec![0x2E, 0x3E, 0xA4]);
    let i = r.unwrap();
    assert_eq!(i.segment_override, Some(Segment::Ds));
}

#[test]
fn loops_and_conditional_jumps_decode_with_byte_offsets() {
    let (r, used) = decode_bytes(vec![0xE2, 0xFE]);
    let i = r.unwrap();
    assert_eq!(i.operation, Operation::Loop);
    assert_eq!(i.operands, OperandSet::Offset(0x00FE));
    assert_eq!(used, 2);

    let (r, _) = decode_bytes(vec![0xE3, 0x10]);
    assert_eq!(r.unwrap().operation, Operation::Jcxz);

    let (r, used) = decode_bytes(vec![0x7C, 0x05]);
    let i = r.unwrap();
    assert_eq!(i.operation, Operation::Jl);
    assert_eq!(i.operands, OperandSet::Offset(5));
    assert_eq!(used, 2);
}

#[test]
fn short_jumps_sign_extend_their_displacement() {
    // EB F8 is a two-byte jump backwards by eight; the decoded offset is
    // the sign-extended displacement, so execution adds it as a plain
    // 16-bit displacement.
    let (r, used) = decode_bytes(vec![0xEB, 0xF8]);
    let i = r.unwrap();
    assert_eq!(i.operation, Operation::Jmp);
    assert_eq!(i.operands, OperandSet::Offset(0xFFF8));
    assert_eq!(used, 2);
    // It re-encodes to the equivalent 16-bit form.
    assert_eq!(encode_instruction(&i).unwrap(), vec![0xE9, 0xF8, 0xFF]);

    let (r, _) = decode_bytes(vec![0xEB, 0x10]);
    assert_eq!(r.unwrap().operands, OperandSet::Offset(0x0010));
}
