use mrc::decode::{decode_instruction, Error};
use mrc::stream::{Data, DataIterator};
use mrc::x86::{
    AddressingMode, Instruction, Operand, OperandSet, OperandSize, OperandType, Operation,
    Register,
};

fn decode_bytes2(bytes: Vec<u8>) -> (Result<Instruction, Error>, usize) {
    let mut it = Data::from_bytes(bytes);
    let r = decode_instruction(&mut it);
    (r, it.current_position)
}

#[test]
fn every_real_opcode_heads_a_family() {
    // An invalid-opcode error comes exactly from the bytes the 8086 map
    // leaves unassigned; every other first byte starts some family.
    for op in 0..=255u8 {
        let buffer = vec![op, 0x06, 0, 0, 0, 0, 0, 0, 0, 0];
        let (r, _) = decode_bytes2(buffer);
        let hole = (0x60..=0x6F).contains(&op) || op == 0xC0 || op == 0xC1 || op == 0xC8
            || op == 0xC9 || op == 0xD6 || op == 0xF1;
        if hole {
            assert_eq!(r, Err(Error::InvalidOpCode(op)), "op {:#04x}", op);
        } else {
            assert_ne!(r, Err(Error::InvalidOpCode(op)), "op {:#04x}", op);
        }
    }
}

#[test]
fn group_f6_selects_by_the_register_field() {
    // F6 /0 is TEST with an immediate after the ModR/M byte.
    let (r, used) = decode_bytes2(vec![0xF6, 0xC3, 0x55]);
    assert_eq!(
        r.unwrap().operands,
        OperandSet::DestinationAndSource(
            Operand(OperandType::Register(Register::BlBx), OperandSize::Byte),
            Operand(OperandType::Immediate(0x55), OperandSize::Byte),
        )
    );
    assert_eq!(used, 3);

    let (r, _) = decode_bytes2(vec![0xF6, 0xD1]);
    assert_eq!(r.unwrap().operation, Operation::Not);
    let (r, _) = decode_bytes2(vec![0xF6, 0xDA]);
    assert_eq!(r.unwrap().operation, Operation::Neg);
    let (r, _) = decode_bytes2(vec![0xF7, 0xE1]);
    let i = r.unwrap();
    assert_eq!(i.operation, Operation::Mul);
    assert_eq!(
        i.operands,
        OperandSet::Destination(Operand(
            OperandType::Register(Register::ClCx),
            OperandSize::Word
        ))
    );
    let (r, _) = decode_bytes2(vec![0xF6, 0xEB]);
    assert_eq!(r.unwrap().operation, Operation::Imul);
    let (r, _) = decode_bytes2(vec![0xF7, 0xF3]);
    assert_eq!(r.unwrap().operation, Operation::Div);
    let (r, _) = decode_bytes2(vec![0xF6, 0xFB]);
    assert_eq!(r.unwrap().operation, Operation::Idiv);
}

#[test]
fn shift_group_picks_count_and_operation() {
    // D1 /4 is SHL r/m16, 1.
    let (r, _) = decode_bytes2(vec![0xD1, 0xE0]);
    let i = r.unwrap();
    assert_eq!(i.operation, Operation::Shl);
    assert_eq!(
        i.operands,
        OperandSet::DestinationAndSource(
            Operand(OperandType::Register(Register::AlAx), OperandSize::Word),
            Operand(OperandType::Immediate(1), OperandSize::Byte),
        )
    );

    // D2 /5 is SHR r/m8, CL.
    let (r, _) = decode_bytes2(vec![0xD2, 0xE9]);
    let i = r.unwrap();
    assert_eq!(i.operation, Operation::Shr);
    assert_eq!(
        i.operands,
        OperandSet::DestinationAndSource(
            Operand(OperandType::Register(Register::ClCx), OperandSize::Byte),
            Operand(OperandType::Register(Register::ClCx), OperandSize::Byte),
        )
    );

    // The register field six names no shift.
    let (r, _) = decode_bytes2(vec![0xD0, 0xF0]);
    assert_eq!(r, Err(Error::InvalidModRmEncoding(0xF0)));

    for (modrm, op) in [
        (0xC0u8, Operation::Rol),
        (0xC8, Operation::Ror),
        (0xD0, Operation::Rcl),
        (0xD8, Operation::Rcr),
        (0xF8, Operation::Sar),
    ] {
        let (r, _) = decode_bytes2(vec![0xD1, modrm]);
        assert_eq!(r.unwrap().operation, op);
    }
}

#[test]
fn test_xchg_lea_and_pointer_loads_decode() {
    let (r, _) = decode_bytes2(vec![0x84, 0xC8]);
    assert_eq!(r.unwrap().operation, Operation::Test);
    let (r, _) = decode_bytes2(vec![0x87, 0xC8]);
    assert_eq!(r.unwrap().operation, Operation::Xchg);

    // XCHG AX, CX in its one-byte form.
    let (r, used) = decode_bytes2(vec![0x91]);
    let i = r.unwrap();
    assert_eq!(i.operation, Operation::Xchg);
    assert_eq!(used, 1);

    // LEA wants a memory reference.
    let (r, _) = decode_bytes2(vec![0x8D, 0x47, 0x10]);
    let i = r.unwrap();
    assert_eq!(i.operation, Operation::Lea);
    assert_eq!(
        i.operands,
        OperandSet::DestinationAndSource(
            Operand(OperandType::Register(Register::AlAx), OperandSize::Word),
            Operand(
                OperandType::Indirect(AddressingMode::Bx, 0x0010),
                OperandSize::Word
            ),
        )
    );
    let (r, _) = decode_bytes2(vec![0x8D, 0xC0]);
    assert_eq!(r, Err(Error::InvalidModRmEncoding(0xC0)));

    let (r, _) = decode_bytes2(vec![0xC4, 0x07]);
    assert_eq!(r.unwrap().operation, Operation::Les);
    let (r, _) = decode_bytes2(vec![0xC5, 0x07]);
    assert_eq!(r.unwrap().operation, Operation::Lds);

    // POP r/m takes only the zero register field.
    let (r, _) = decode_bytes2(vec![0x8F, 0x06, 0x34, 0x12]);
    let i = r.unwrap();
    assert_eq!(i.operation, Operation::Pop);
    let (r, _) = decode_bytes2(vec![0x8F, 0x4E, 0x00]);
    assert_eq!(r, Err(Error::InvalidModRmEncoding(0x4E)));
}

#[test]
fn wide_returns_calls_and_converts_decode() {
    let (r, used) = decode_bytes2(vec![0xC2, 0x04, 0x00]);
    let i = r.unwrap();
    assert_eq!(i.operation, Operation::Ret);
    assert_eq!(
        i.operands,
        OperandSet::Destination(Operand(OperandType::Immediate(4), OperandSize::Word))
    );
    assert_eq!(used, 3);

    // The far returns carry their stack adjustment as an offset operand.
    let (r, _) = decode_bytes2(vec![0xCA, 0x08, 0x00]);
    assert_eq!(r.unwrap().operands, OperandSet::Offset(8));
    let (r, _) = decode_bytes2(vec![0xCB]);
    assert_eq!(r.unwrap().operands, OperandSet::Offset(0));

    let (r, _) = decode_bytes2(vec![0xCC]);
    let i = r.unwrap();
    assert_eq!(i.operation, Operation::Int);
    assert_eq!(
        i.operands,
        OperandSet::Destination(Operand(OperandType::Immediate(3), OperandSize::Byte))
    );

    let (r, used) = decode_bytes2(vec![0x9A, 0x00, 0x02, 0x80, 0x00]);
    let i = r.unwrap();
    assert_eq!(i.operation, Operation::Call);
    assert_eq!(i.operands, OperandSet::SegmentAndOffset(0x0080, 0x0200));
    assert_eq!(used, 5);

    let (r, _) = decode_bytes2(vec![0x98]);
    assert_eq!(r.unwrap().operation, Operation::Cbw);
    let (r, _) = decode_bytes2(vec![0x99]);
    assert_eq!(r.unwrap().operation, Operation::Cwd);
    let (r, _) = decode_bytes2(vec![0xD7]);
    assert_eq!(r.unwrap().operation, Operation::Xlat);
    let (r, _) = decode_bytes2(vec![0x27]);
    assert_eq!(r.unwrap().operation, Operation::Baa);
    let (r, _) = decode_bytes2(vec![0x2F]);
    assert_eq!(r.unwrap().operation, Operation::Das);
    let (r, _) = decode_bytes2(vec![0x37]);
    assert_eq!(r.unwrap().operation, Operation::Aaa);
    let (r, _) = decode_bytes2(vec![0x3F]);
    assert_eq!(r.unwrap().operation, Operation::Aas);
    let (r, _) = decode_bytes2(vec![0xD4, 0x0A]);
    let i = r.unwrap();
    assert_eq!(i.operation, Operation::Aam);
    assert_eq!(
        i.operands,
        OperandSet::Destination(Operand(OperandType::Immediate(10), OperandSize::Byte))
    );
    let (r, _) = decode_bytes2(vec![0xD5, 0x0A]);
    assert_eq!(r.unwrap().operation, Operation::Aad);
}

#[test]
fn inc_dec_group_covers_memory_and_indirect_jumps() {
    let (r, _) = decode_bytes2(vec![0xFE, 0x06, 0x34, 0x12]);
    let i = r.unwrap();
    assert_eq!(i.operation, Operation::Inc);
    assert_eq!(
        i.operands,
        OperandSet::Destination(Operand(OperandType::Direct(0x1234), OperandSize::Byte))
    );
    let (r, _) = decode_bytes2(vec![0xFF, 0x0F]);
    let i = r.unwrap();
    assert_eq!(i.operation, Operation::Dec);

    let (r, _) = decode_bytes2(vec![0xFF, 0xD3]);
    let i = r.unwrap();
    assert_eq!(i.operation, Operation::Call);
    assert_eq!(
        i.operands,
        OperandSet::Destination(Operand(
            OperandType::Register(Register::BlBx),
            OperandSize::Word
        ))
    );
    let (r, _) = decode_bytes2(vec![0xFF, 0xE3]);
    assert_eq!(r.unwrap().operation, Operation::Jmp);
    let (r, _) = decode_bytes2(vec![0xFF, 0x36, 0x00, 0x10]);
    assert_eq!(r.unwrap().operation, Operation::Push);

    // The far indirect forms have no shape in this model.
    let (r, _) = decode_bytes2(vec![0xFF, 0xDB]);
    assert_eq!(r, Err(Error::InvalidModRmEncoding(0xDB)));
    // The byte-sized group knows only INC and DEC.
    let (r, _) = decode_bytes2(vec![0xFE, 0xD0]);
    assert_eq!(r, Err(Error::InvalidModRmEncoding(0xD0)));
}
