use mrc::ast::{ByteRegister, DataSize, Expression, Label, Operand, Operands, Register, Segment, Span, Value, WordRegister};

#[test]
fn register_encodings_match_the_wire_codes() {
    assert_eq!(ByteRegister::Al.encoding(), 0);
    assert_eq!(ByteRegister::Cl.encoding(), 1);
    assert_eq!(ByteRegister::Bh.encoding(), 7);
    assert_eq!(WordRegister::Ax.encoding(), 0);
    assert_eq!(WordRegister::Sp.encoding(), 4);
    assert_eq!(WordRegister::Di.encoding(), 7);
    assert_eq!(Register::Byte(ByteRegister::Dl).encoding(), 2);
    assert_eq!(Register::Word(WordRegister::Bx).encoding(), 3);
    assert_eq!(Segment::ES.encoding(), 0);
    assert_eq!(Segment::CS.encoding(), 1);
    assert_eq!(Segment::SS.encoding(), 2);
    assert_eq!(Segment::DS.encoding(), 3);
}

#[test]
fn names_resolve_case_insensitively() {
    assert_eq!(ByteRegister::from_name(b"al"), Some(ByteRegister::Al));
    assert_eq!(ByteRegister::from_name(b"AH"), Some(ByteRegister::Ah));
    assert_eq!(ByteRegister::from_name(b"ax"), None);
    assert_eq!(WordRegister::from_name(b"Ax"), Some(WordRegister::Ax));
    assert_eq!(WordRegister::from_name(b"sp"), Some(WordRegister::Sp));
    assert_eq!(
        Register::from_name(b"si"),
        Some(Register::Word(WordRegister::Si))
    );
    assert_eq!(
        Register::from_name(b"bl"),
        Some(Register::Byte(ByteRegister::Bl))
    );
    assert_eq!(Register::from_name(b"xy"), None);
    assert_eq!(Segment::from_name(b"cs"), Some(Segment::CS));
    assert_eq!(Segment::from_name(b"Ds"), Some(Segment::DS));
    assert_eq!(DataSize::from_name(b"BYTE"), Some(DataSize::Byte));
    assert_eq!(DataSize::from_name(b"word"), Some(DataSize::Word));
    assert_eq!(DataSize::from_name(b"words"), None);
}

#[test]
fn ast_text_prints_canonical_operands() {
    let sp = Span { start: 0, end: 0 };
    let o = Operand::Address(
        sp,
        Expression::Term(sp, Value::Label(Label(sp, b"video".to_vec()))),
        Some(DataSize::Byte),
        Some(Segment::CS),
    );
    assert_eq!(String::from_utf8(o.to_text()).unwrap(), "BYTE [CS:video]");

    let o = Operand::Immediate(sp, Expression::Term(sp, Value::Constant(-42)));
    assert_eq!(String::from_utf8(o.to_text()).unwrap(), "-42");

    let ops = Operands::DestinationAndSource(
        sp,
        Operand::Register(sp, Register::Word(WordRegister::Ax)),
        Operand::Register(sp, Register::Word(WordRegister::Bx)),
    );
    assert_eq!(String::from_utf8(ops.to_text()).unwrap(), "AX, BX");

    let i = mrc::ast::Instruction {
        span: sp,
        operation: mrc::x86::Operation::Mov,
        operands: ops,
    };
    assert_eq!(String::from_utf8(i.to_text()).unwrap(), "MOV AX, BX");
}
