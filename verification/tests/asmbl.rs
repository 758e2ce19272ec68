use mrc::assembler::{assemble, pass1, AsmError, Symbol};
use mrc::dis::{print_section, Section, SegmentAndOffset};
use mrc::parse::program;

#[test]
fn assemble_round_trips_through_the_disassembler() {
    // The three-line program assembles, and its bytes disassemble
    // back to the same three mnemonics with the jump resolving to the
    // start offset.
    let source = b"start:\n  mov ax, 0xB800\n  mov ds, ax\n  jmp start";
    let (bytes, symbols) = assemble(source).unwrap();
    assert_eq!(bytes, vec![0xB8, 0x00, 0xB8, 0x8E, 0xD8, 0xE9, 0xF8, 0xFF]);
    assert_eq!(symbols.len(), 1);
    assert_eq!(symbols[0].name, b"start".to_vec());
    assert_eq!(symbols[0].value, 0);

    let section = Section::new(SegmentAndOffset(0, 0), bytes);
    let lines = print_section(&section);
    assert_eq!(lines.len(), 3);
    let texts: Vec<String> = lines
        .iter()
        .map(|l| String::from_utf8(l.clone()).unwrap())
        .collect();
    assert!(texts[0].contains("MOV AX, 0xB800"), "line: {}", texts[0]);
    assert!(texts[1].contains("MOV DS, AX"), "line: {}", texts[1]);
    assert!(texts[2].contains("JMP 0xFFF8"), "line: {}", texts[2]);

    // The relative target resolves back to the start offset.
    let ip_after: u16 = 8;
    assert_eq!(ip_after.wrapping_add(0xFFF8), 0x0000);
}

#[test]
fn pass_one_is_repeatable() {
    // Running the layout pass twice over the same program binds the
    // same offsets.
    let source = b"start:\n  mov ax, 0xB800\nmiddle:\n  mov ds, ax\n  jmp start\nlast:\n";
    let (lines, fin) = program(source, 0);
    assert_eq!(fin, source.len());
    let first = pass1(&lines).unwrap();
    let second = pass1(&lines).unwrap();
    let view = |syms: &Vec<Symbol>| -> Vec<(Vec<u8>, u16)> {
        syms.iter().map(|s| (s.name.clone(), s.value)).collect()
    };
    assert_eq!(view(&first), view(&second));
    assert_eq!(
        view(&first),
        vec![
            (b"start".to_vec(), 0u16),
            (b"middle".to_vec(), 3u16),
            (b"last".to_vec(), 8u16),
        ]
    );
}

#[test]
fn duplicate_labels_are_reported() {
    let source = b"a:\n  hlt\na:\n  hlt\n";
    match assemble(source) {
        Err(AsmError::DuplicateLabel(_)) => {}
        other => panic!("unexpected result: {:?}", other),
    }
}

#[test]
fn unresolved_labels_are_reported() {
    let source = b"  jmp nowhere_var\nhere:\n  jmp missing\n";
    match assemble(source) {
        Err(AsmError::UnresolvedLabel(_)) => {}
        other => panic!("unexpected result: {:?}", other),
    }
}

#[test]
fn parse_errors_carry_the_position() {
    let source = b"  mov ax, 0x10\n  ]]]\n";
    match assemble(source) {
        Err(AsmError::ParseError(p)) => assert!(p < source.len()),
        other => panic!("unexpected result: {:?}", other),
    }
}

#[test]
fn db_equ_and_times_lay_out_bytes() {
    let source = b"two: equ 1+1\n  db 0x01, 0x02\n  times two db 0xAA\n  hlt\n";
    let (bytes, _) = assemble(source).unwrap();
    assert_eq!(bytes, vec![0x01, 0x02, 0xAA, 0xAA, 0xF4]);
}

#[test]
fn expressions_evaluate_with_precedence() {
    let source =
        b"p: equ 1+2*3\nq: equ (1+2)*3\nd: equ 10/2\nc: equ '$'\nn: equ -1\n  db 7, '$'\n";
    let (bytes, symbols) = assemble(source).unwrap();
    assert_eq!(bytes, vec![7, 0x24]);
    let view: Vec<(Vec<u8>, u16)> = symbols.iter().map(|s| (s.name.clone(), s.value)).collect();
    assert_eq!(
        view,
        vec![
            (b"p".to_vec(), 7u16),
            (b"q".to_vec(), 9u16),
            (b"d".to_vec(), 5u16),
            (b"c".to_vec(), 0x24u16),
            (b"n".to_vec(), 0xFFFFu16),
        ]
    );
}

#[test]
fn short_jumps_out_of_range_are_reported() {
    // A conditional jump cannot reach 0x200 bytes ahead.
    let source = b"  je far_away\n  times 512 hlt\nfar_away:\n  hlt\n";
    match assemble(source) {
        Err(AsmError::Encode(mrc::encode::EncodeError::DisplacementOutOfRange)) => {}
        other => panic!("unexpected result: {:?}", other),
    }
}

#[test]
fn accumulator_and_register_arithmetic_encode() {
    let source = b"  add ax, 0xFFFF\n  cmp al, 0x80\n  add bx, 0xFFFE\n  sub cx, dx\n  inc si\n  dec si\n  push bx\n  pop bx\n  int 0x21\n  out 0x00, al\n  in al, 0x60\n";
    let (bytes, _) = assemble(source).unwrap();
    assert_eq!(
        bytes,
        vec![
            0x05, 0xFF, 0xFF, // add ax, 0xFFFF
            0x3C, 0x80, // cmp al, 0x80
            0x83, 0xC3, 0xFE, // add bx, 0xFFFE (sign-extended byte form)
            0x29, 0xD1, // sub cx, dx
            0x46, // inc si
            0x4E, // dec si
            0x53, // push bx
            0x5B, // pop bx
            0xCD, 0x21, // int 0x21
            0xE6, 0x00, // out 0x00, al
            0xE4, 0x60, // in al, 0x60
        ]
    );
}

#[test]
fn out_of_range_values_and_registers_are_reported() {
    match assemble(b"x: equ 70000\n") {
        Err(AsmError::ValueOutOfRange(_)) => {}
        other => panic!("unexpected result: {:?}", other),
    }
    match assemble(b"x: equ 1/0\n") {
        Err(AsmError::DivideByZero(_)) => {}
        other => panic!("unexpected result: {:?}", other),
    }
    match assemble(b"x: equ ax\n") {
        Err(AsmError::RegisterInExpression(_)) => {}
        other => panic!("unexpected result: {:?}", other),
    }
    match assemble(b"  times 70000 hlt\n") {
        Err(AsmError::ProgramTooLarge) => {}
        other => panic!("unexpected result: {:?}", other),
    }
    match assemble(b"  mov ax, [0x10]\n") {
        Err(AsmError::UnsupportedOperand(_)) => {}
        other => panic!("unexpected result: {:?}", other),
    }
}

#[test]
fn source_lines_print_back_as_text() {
    let source = b"start: mov ax, bx\n  db 0x01, 0xAB\n  times 2 hlt\nv: equ 2+3\n";
    let (lines, fin) = program(source, 0);
    assert_eq!(fin, source.len());
    let texts: Vec<String> = lines
        .iter()
        .map(|l| String::from_utf8(l.to_text()).unwrap())
        .collect();
    assert_eq!(texts[0], "start: MOV AX, BX");
    assert_eq!(texts[1], "db 0x01 0xAB");
    assert_eq!(texts[2], "times 2 HLT");
    assert_eq!(texts[3], "v: equ (2 + 3)");
}
