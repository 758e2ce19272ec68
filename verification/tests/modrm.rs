use mrc::decode::Error;
use mrc::modrm::{Modrm, RegisterOrMemory};
use mrc::stream::{Data, DataIterator};
use mrc::x86::{AddressingMode, Register};

#[test]
fn indirect_memory() {
    assert_eq!(
        AddressingMode::try_from_low_bits(0b000).unwrap(),
        AddressingMode::BxSi
    );
    assert_eq!(
        AddressingMode::try_from_low_bits(0b001).unwrap(),
        AddressingMode::BxDi
    );
    assert_eq!(
        AddressingMode::try_from_low_bits(0b010).unwrap(),
        AddressingMode::BpSi
    );
    assert_eq!(
        AddressingMode::try_from_low_bits(0b011).unwrap(),
        AddressingMode::BpDi
    );
    assert_eq!(
        AddressingMode::try_from_low_bits(0b100).unwrap(),
        AddressingMode::Si
    );
    assert_eq!(
        AddressingMode::try_from_low_bits(0b101).unwrap(),
        AddressingMode::Di
    );
    assert_eq!(
        AddressingMode::try_from_low_bits(0b110).unwrap(),
        AddressingMode::Bp
    );
    assert_eq!(
        AddressingMode::try_from_low_bits(0b111).unwrap(),
        AddressingMode::Bx
    );

    if let Err(err) = AddressingMode::try_from_low_bits(77) {
        assert_eq!(err, Error::InvalidIndirectMemoryEncoding(77))
    } else {
        assert!(false, "does not return error");
    }
}

#[test]
fn modrm_to_byte_register_indirect() {
    let byte = Modrm::new(
        Register::BlBx,
        RegisterOrMemory::Indirect(AddressingMode::BxDi),
    )
    .to_byte();
    assert_eq!(0b00011001, byte);
}

#[test]
fn modrm_to_byte_register_displacement_byte() {
    let byte = Modrm::new(
        Register::BlBx,
        RegisterOrMemory::DisplacementByte(AddressingMode::BxDi, 0),
    )
    .to_byte();
    assert_eq!(0b01011001, byte);
}

#[test]
fn modrm_to_byte_register_displacement_word() {
    let byte = Modrm::new(
        Register::BlBx,
        RegisterOrMemory::DisplacementWord(AddressingMode::BxDi, 0),
    )
    .to_byte();
    assert_eq!(0b10011001, byte);
}

#[test]
fn modrm_to_byte_register_register() {
    let byte = Modrm::new(
        Register::BlBx,
        RegisterOrMemory::Register(Register::DhSi),
    )
    .to_byte();
    assert_eq!(0b11011110, byte);
}

#[test]
fn modrm_to_byte_register_direct() {
    let byte = Modrm::new(Register::DlDx, RegisterOrMemory::Direct(0)).to_byte();
    assert_eq!(0b00010110, byte);
}

#[test]
fn modrm_displacement_reads() {
    // mod=00 rm=110: two displacement bytes form a direct address.
    let mut it = Data::from_bytes(vec![0x34, 0x12]);
    let r = RegisterOrMemory::try_from_modrm(0b00_000_110, &mut it).unwrap();
    assert_eq!(r, RegisterOrMemory::Direct(0x1234));
    assert_eq!(it.current_position, 2);

    // mod=01: one displacement byte.
    let mut it = Data::from_bytes(vec![0x7F]);
    let r = RegisterOrMemory::try_from_modrm(0b01_000_011, &mut it).unwrap();
    assert_eq!(r, RegisterOrMemory::DisplacementByte(AddressingMode::BpDi, 0x7F));
    assert_eq!(it.current_position, 1);

    // mod=10: two displacement bytes.
    let mut it = Data::from_bytes(vec![0x01, 0x01]);
    let r = RegisterOrMemory::try_from_modrm(0b10_000_000, &mut it).unwrap();
    assert_eq!(r, RegisterOrMemory::DisplacementWord(AddressingMode::BxSi, 257));
    assert_eq!(it.current_position, 2);

    // mod=11: no displacement bytes at all.
    let mut it = Data::from_bytes(vec![0xAA]);
    let r = RegisterOrMemory::try_from_modrm(0b11_000_101, &mut it).unwrap();
    assert_eq!(r, RegisterOrMemory::Register(Register::ChBp));
    assert_eq!(it.current_position, 0);
}

#[test]
fn modrm_round_trip_through_byte() {
    let m = Modrm::new(
        Register::ClCx,
        RegisterOrMemory::DisplacementByte(AddressingMode::Si, 0x10),
    );
    let byte = m.to_byte();
    let mut it = Data::from_bytes(vec![0x10]);
    let back = Modrm::try_from_byte(byte, &mut it).unwrap();
    assert_eq!(back, m);
}

#[test]
fn byte_streams_peek_consume_and_advance() {
    let mut it = Data::new();
    assert_eq!(it.peek(), None);
    assert_eq!(it.consume(), None);

    let mut it = Data::from_bytes(vec![0xAA, 0xBB]);
    assert_eq!(it.peek(), Some(0xAA));
    assert_eq!(it.consume(), Some(0xAA));
    it.advance();
    assert_eq!(it.current_position, 2);
    assert_eq!(it.consume(), None);
    assert_eq!(it.current_position, 2);
}

#[test]
fn word_reads_are_little_endian_and_stop_at_the_end() {
    let mut it = Data::from_bytes(vec![0x34, 0x12, 0xFF]);
    assert_eq!(mrc::stream::it_read_u16(&mut it), Some(0x1234));
    assert_eq!(mrc::stream::it_read_u16(&mut it), None);
}
