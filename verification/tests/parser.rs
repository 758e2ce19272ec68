use mrc::ast::{
    DataSize, Expression, Label, Line, LineContent, Operand, Operands, Operator, Register,
    Segment, Span, Value, WordRegister,
};
use mrc::parse::{
    direct_or_indirect_operand, instruction, label, operand, operand_set, program,
    value_or_label,
};
use mrc::x86::Operation;

#[test]
fn parse_value_or_label() {
    let (v, p) = value_or_label(b"0xB800", 0).unwrap();
    assert_eq!(v, Value::Constant(0xB800));
    assert_eq!(p, 6);

    let (v, p) = value_or_label(b"label", 0).unwrap();
    assert_eq!(
        v,
        Value::Label(Label(Span { start: 0, end: 5 }, b"label".to_vec()))
    );
    assert_eq!(p, 5);
}

#[test]
fn parse_direct_or_indirect_operand() {
    let (o, _) = direct_or_indirect_operand(b"[10]", 0).unwrap();
    match o {
        Operand::Address(_, Expression::Term(_, Value::Constant(10)), None, None) => {}
        other => panic!("unexpected operand: {:?}", other),
    }

    let (o, _) = direct_or_indirect_operand(b"byte [10]", 0).unwrap();
    match o {
        Operand::Address(_, Expression::Term(_, Value::Constant(10)), Some(DataSize::Byte), None) => {}
        other => panic!("unexpected operand: {:?}", other),
    }

    let (o, _) = direct_or_indirect_operand(b"byte cs:[10]", 0).unwrap();
    match o {
        Operand::Address(
            _,
            Expression::Term(_, Value::Constant(10)),
            Some(DataSize::Byte),
            Some(Segment::CS),
        ) => {}
        other => panic!("unexpected operand: {:?}", other),
    }

    let (o, _) = direct_or_indirect_operand(b"byte [test]", 0).unwrap();
    match o {
        Operand::Address(_, Expression::Term(_, Value::Label(l)), Some(DataSize::Byte), None) => {
            assert_eq!(l.1, b"test".to_vec());
        }
        other => panic!("unexpected operand: {:?}", other),
    }

    let (o, _) = direct_or_indirect_operand(b"[si]", 0).unwrap();
    match o {
        Operand::Address(
            _,
            Expression::Term(_, Value::Register(Register::Word(WordRegister::Si))),
            None,
            None,
        ) => {}
        other => panic!("unexpected operand: {:?}", other),
    }

    let (o, _) = direct_or_indirect_operand(b"byte [bx+si]", 0).unwrap();
    match o {
        Operand::Address(
            _,
            Expression::InfixOperator(_, Operator::Add, l, r),
            Some(DataSize::Byte),
            None,
        ) => {
            assert!(matches!(
                *l,
                Expression::Term(_, Value::Register(Register::Word(WordRegister::Bx)))
            ));
            assert!(matches!(
                *r,
                Expression::Term(_, Value::Register(Register::Word(WordRegister::Si)))
            ));
        }
        other => panic!("unexpected operand: {:?}", other),
    }
}

#[test]
fn parse_operand() {
    let (o, _) = operand(b"label", 0).unwrap();
    match o {
        Operand::Immediate(_, Expression::Term(_, Value::Label(l))) => {
            assert_eq!(l.1, b"label".to_vec());
        }
        other => panic!("unexpected operand: {:?}", other),
    }

    let (o, _) = operand(b"ax", 0).unwrap();
    assert!(matches!(
        o,
        Operand::Register(_, Register::Word(WordRegister::Ax))
    ));

    let (o, _) = operand(b"cs", 0).unwrap();
    assert!(matches!(o, Operand::Segment(_, Segment::CS)));

    let (o, _) = operand(b"[0xB800]", 0).unwrap();
    assert!(matches!(
        o,
        Operand::Address(_, Expression::Term(_, Value::Constant(0xB800)), None, None)
    ));

    let (o, _) = operand(b"word [label]", 0).unwrap();
    match o {
        Operand::Address(_, Expression::Term(_, Value::Label(l)), Some(DataSize::Word), None) => {
            assert_eq!(l.1, b"label".to_vec());
        }
        other => panic!("unexpected operand: {:?}", other),
    }

    let (o, _) = operand(b"[bx+si]", 0).unwrap();
    assert!(matches!(
        o,
        Operand::Address(_, Expression::InfixOperator(_, Operator::Add, _, _), None, None)
    ));
}

#[test]
fn parse_operand_set() {
    let (os, _) = operand_set(b"ax, [bx+si]", 0).unwrap();
    match os {
        Operands::DestinationAndSource(_, dst, src) => {
            assert!(matches!(
                dst,
                Operand::Register(_, Register::Word(WordRegister::Ax))
            ));
            assert!(matches!(src, Operand::Address(_, _, None, None)));
        }
        other => panic!("unexpected operands: {:?}", other),
    }

    let (os, _) = operand_set(b"ax", 0).unwrap();
    assert!(matches!(
        os,
        Operands::Destination(_, Operand::Register(_, Register::Word(WordRegister::Ax)))
    ));

    let (os, _) = operand_set(b"", 0).unwrap();
    assert!(matches!(os, Operands::Empty(_)));
}

#[test]
fn parse_instruction() {
    let (i, _) = instruction(b"mov ax, bx", 0).unwrap();
    assert_eq!(i.operation, Operation::Mov);
    match i.operands {
        Operands::DestinationAndSource(_, dst, src) => {
            assert!(matches!(
                dst,
                Operand::Register(_, Register::Word(WordRegister::Ax))
            ));
            assert!(matches!(
                src,
                Operand::Register(_, Register::Word(WordRegister::Bx))
            ));
        }
        other => panic!("unexpected operands: {:?}", other),
    }
}

#[test]
fn parse_label() {
    let (l, p) = label(b"label:", 0).unwrap();
    assert_eq!(l, Label(Span { start: 0, end: 5 }, b"label".to_vec()));
    assert_eq!(p, 6);
    assert!(label(b"label", 0).is_none());
}

#[test]
fn parse_line() {
    let (l, _) = mrc::parse::line(b"label:\n", 0).unwrap();
    assert_eq!(
        l.label,
        Some(Label(Span { start: 0, end: 5 }, b"label".to_vec()))
    );
    assert!(matches!(l.content, LineContent::Empty));

    let (l, _) = mrc::parse::line(b"mov ax, bx:\n", 0).unwrap();
    assert_eq!(l.label, None);
    match l.content {
        LineContent::Instruction(i) => assert_eq!(i.operation, Operation::Mov),
        other => panic!("unexpected content: {:?}", other),
    }
}

#[test]
fn parse_program() {
    let source = b"
                push    bx
                push    cx
                push    dx
                push    si
                push    di

            loop_strcmp_loop1:
                mov     al, byte cs:[si]
                inc     si
                cmp     al, bl
                jbe     loop_strcmp_great
                cmp     al, bl
                jl      loop_strcmp_less
                cmp     al, '$'
                je      loop_strcmp_quit
                cmp     bl, '$'
                je      loop_strcmp_quit
                jmp     loop_strcmp_loop1

            loop_strcmp_quit:
                mov     al, 1
                jmp     done

            loop_strcmp_great:
                mov     al, 2
                jmp     done

            loop_strcmp_less:
                mov     al, 0
                jmp     done

            done:
                pop     di
                pop     si
                pop     dx
                pop     cx
                pop     bx
                ret
            ";
    let (lines, fin) = program(source, 0);
    assert_eq!(fin, source.len());
    let instructions: Vec<&Line> = lines
        .iter()
        .filter(|l| matches!(l.content, LineContent::Instruction(_)))
        .collect();
    assert_eq!(instructions.len(), 28);
}
