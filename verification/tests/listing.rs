use mrc::dis::{print_data_byte, print_section, Section, SegmentAndOffset};

#[test]
fn disassembles_the_led_program() {
    // B0 01 E6 00 F4 reads back as MOV, OUT, HLT.
    let section = Section::new(
        SegmentAndOffset(0x0000, 0x0000),
        vec![0xB0, 0x01, 0xE6, 0x00, 0xF4],
    );
    let lines = print_section(&section);
    let texts: Vec<String> = lines
        .iter()
        .map(|l| String::from_utf8(l.clone()).unwrap())
        .collect();
    assert_eq!(texts.len(), 3);
    assert_eq!(texts[0], "0000:0000  B0 01           MOV AL, 0x01");
    assert_eq!(texts[1], "0000:0002  E6 00           OUT 0x00, AL");
    assert_eq!(texts[2], "0000:0004  F4              HLT");
}

#[test]
fn undecodable_bytes_become_data_lines() {
    let section = Section::new(SegmentAndOffset(0x1000, 0x0100), vec![0xD6, 0xF4]);
    let lines = print_section(&section);
    let texts: Vec<String> = lines
        .iter()
        .map(|l| String::from_utf8(l.clone()).unwrap())
        .collect();
    assert_eq!(texts.len(), 2);
    assert_eq!(texts[0], "1000:0100  D6              db 0xD6");
    assert_eq!(texts[1], "1000:0101  F4              HLT");
}

#[test]
fn data_line_format_is_stable() {
    let line = print_data_byte(SegmentAndOffset(0xB800, 0x0010), 0xAB);
    assert_eq!(String::from_utf8(line).unwrap(), "B800:0010  AB              db 0xAB");
}

#[test]
fn listing_addresses_advance_with_the_origin() {
    let section = Section::new(SegmentAndOffset(0x1000, 0x0100), vec![0xF4, 0xF4]);
    let lines = print_section(&section);
    let texts: Vec<String> = lines
        .iter()
        .map(|l| String::from_utf8(l.clone()).unwrap())
        .collect();
    assert!(texts[0].starts_with("1000:0100  "));
    assert!(texts[1].starts_with("1000:0101  "));
}

#[test]
fn memory_operands_carry_their_width() {
    // 8B 47 10 is MOV AX, word [BX+0x0010].
    let section = Section::new(SegmentAndOffset(0, 0), vec![0x8B, 0x47, 0x10]);
    let lines = print_section(&section);
    let text = String::from_utf8(lines[0].clone()).unwrap();
    assert!(text.contains("MOV AX, word [BX+0x0010]"), "line: {}", text);
}
