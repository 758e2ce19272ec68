use mrc::encoding::{DecodeError, ModRMEncoding, RegisterEncoding};
use mrc::encoding::IndirectMemoryEncoding;
use mrc::x86::{Operand, OperandSet, OperandSize, OperandType, Operation, Register};

#[test]
fn register_encoding_from_byte() {
    assert_eq!(RegisterEncoding::try_from_byte(0).unwrap(), RegisterEncoding::AlAx);
    assert_eq!(RegisterEncoding::try_from_byte(1).unwrap(), RegisterEncoding::ClCx);
    assert_eq!(RegisterEncoding::try_from_byte(2).unwrap(), RegisterEncoding::DlDx);
    assert_eq!(RegisterEncoding::try_from_byte(3).unwrap(), RegisterEncoding::BlBx);
    assert_eq!(RegisterEncoding::try_from_byte(4).unwrap(), RegisterEncoding::AhSp);
    assert_eq!(RegisterEncoding::try_from_byte(5).unwrap(), RegisterEncoding::ChBp);
    assert_eq!(RegisterEncoding::try_from_byte(6).unwrap(), RegisterEncoding::DhSi);
    assert_eq!(RegisterEncoding::try_from_byte(7).unwrap(), RegisterEncoding::BhDi);
    assert_eq!(
        RegisterEncoding::try_from_byte(8),
        Err(DecodeError::InvalidRegisterEncoding(8))
    );
}

#[test]
fn indirect_memory_encoding() {
    assert_eq!(IndirectMemoryEncoding::try_from_byte(0).unwrap(), IndirectMemoryEncoding::BxSi);
    assert_eq!(IndirectMemoryEncoding::try_from_byte(1).unwrap(), IndirectMemoryEncoding::BxDi);
    assert_eq!(IndirectMemoryEncoding::try_from_byte(2).unwrap(), IndirectMemoryEncoding::BpSi);
    assert_eq!(IndirectMemoryEncoding::try_from_byte(3).unwrap(), IndirectMemoryEncoding::BpDi);
    assert_eq!(IndirectMemoryEncoding::try_from_byte(4).unwrap(), IndirectMemoryEncoding::Si);
    assert_eq!(IndirectMemoryEncoding::try_from_byte(5).unwrap(), IndirectMemoryEncoding::Di);
    assert_eq!(IndirectMemoryEncoding::try_from_byte(6).unwrap(), IndirectMemoryEncoding::Bp);
    assert_eq!(IndirectMemoryEncoding::try_from_byte(7).unwrap(), IndirectMemoryEncoding::Bx);
    assert_eq!(
        IndirectMemoryEncoding::try_from_byte(8),
        Err(DecodeError::InvalidIndirectMemoryOffset(8))
    );
}

#[test]
fn mod_rm_encoding() {
    assert_eq!(
        ModRMEncoding::try_from_byte(0, &[0u8; 1]).unwrap(),
        ModRMEncoding::Indirect(IndirectMemoryEncoding::BxSi)
    );
    assert_eq!(
        ModRMEncoding::try_from_byte(1, &[0u8; 1]).unwrap(),
        ModRMEncoding::Indirect(IndirectMemoryEncoding::BxDi)
    );
    assert_eq!(
        ModRMEncoding::try_from_byte(1, &[0u8; 1]).unwrap(),
        ModRMEncoding::Indirect(IndirectMemoryEncoding::BxDi)
    );
}

#[test]
fn mod_rm_encoding_displacements() {
    assert_eq!(
        ModRMEncoding::try_from_byte(0b01_000_010, &[0x05]).unwrap(),
        ModRMEncoding::DisplacementByte(IndirectMemoryEncoding::BpSi, 5)
    );
    assert_eq!(
        ModRMEncoding::try_from_byte(0b10_000_111, &[0x34, 0x12]).unwrap(),
        ModRMEncoding::DisplacementWord(IndirectMemoryEncoding::Bx, 0x1234)
    );
    assert_eq!(
        ModRMEncoding::try_from_byte(0b01_000_000, &[]),
        Err(DecodeError::CouldNotReadExtraBytes)
    );
    assert_eq!(
        ModRMEncoding::try_from_byte(0b11_000_100, &[]).unwrap(),
        ModRMEncoding::Register(RegisterEncoding::AhSp)
    );
}

#[test]
fn compact_decoder_reports_unknown_opcodes() {
    let r = mrc::encoding::decode_instruction(&[0x90, 0x00]);
    assert_eq!(r, Err(DecodeError::InvalidOpCode(0x90)));
    let text = DecodeError::InvalidOpCode(0x90).to_text();
    assert_eq!(text, b"invalid op code: 0x90".to_vec());
}

#[test]
fn compact_decoder_reads_a_register_add() {
    let i = mrc::encoding::decode_instruction(&[0x00, 0xC3]).unwrap();
    assert_eq!(i.operation, Operation::Add);
    assert_eq!(
        i.operands,
        OperandSet::DestinationAndSource(
            Operand(OperandType::Register(Register::AlAx), OperandSize::Byte),
            Operand(OperandType::Register(Register::BlBx), OperandSize::Byte),
        )
    );

    let i = mrc::encoding::decode_with_mod_rm(&[0b00_001_000]).unwrap();
    assert_eq!(
        i.operands,
        OperandSet::DestinationAndSource(
            Operand(OperandType::Register(Register::ClCx), OperandSize::Byte),
            Operand(
                OperandType::Indirect(mrc::x86::AddressingMode::BxSi, 0),
                OperandSize::Byte
            ),
        )
    );
}
