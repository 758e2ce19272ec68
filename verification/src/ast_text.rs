//! Canonical text for the assembler's program view: every node prints
//! as ASCII bytes, each builder pinned to a spec of the exact text.

use vstd::prelude::*;

use crate::ast::{
    ByteRegister, DataSize, Expression, Instruction, Label, Line, LineContent, Operand, Operands,
    Operator, Register, Segment, Value, WordRegister,
};
use crate::dis::{push_mnemonic, spec_mnemonic};
use crate::text::{push_hex_byte, spec_hex_byte};

verus! {

/// The canonical name of this item.
pub open spec fn spec_byte_register_text(x: ByteRegister) -> Seq<u8> {
    match x {
        ByteRegister::Al => seq![0x41u8, 0x4cu8],
        ByteRegister::Cl => seq![0x43u8, 0x4cu8],
        ByteRegister::Dl => seq![0x44u8, 0x4cu8],
        ByteRegister::Bl => seq![0x42u8, 0x4cu8],
        ByteRegister::Ah => seq![0x41u8, 0x48u8],
        ByteRegister::Ch => seq![0x43u8, 0x48u8],
        ByteRegister::Dh => seq![0x44u8, 0x48u8],
        ByteRegister::Bh => seq![0x42u8, 0x48u8],
    }
}

/// Append the canonical name of this item.
pub fn push_byte_register(out: &mut Vec<u8>, x: ByteRegister)
    ensures
        final(out)@ == old(out)@ + spec_byte_register_text(x),
{
    match x {
        ByteRegister::Al => {
            out.push(0x41);
            out.push(0x4c);
        },
        ByteRegister::Cl => {
            out.push(0x43);
            out.push(0x4c);
        },
        ByteRegister::Dl => {
            out.push(0x44);
            out.push(0x4c);
        },
        ByteRegister::Bl => {
            out.push(0x42);
            out.push(0x4c);
        },
        ByteRegister::Ah => {
            out.push(0x41);
            out.push(0x48);
        },
        ByteRegister::Ch => {
            out.push(0x43);
            out.push(0x48);
        },
        ByteRegister::Dh => {
            out.push(0x44);
            out.push(0x48);
        },
        ByteRegister::Bh => {
            out.push(0x42);
            out.push(0x48);
        },
    }
    proof {
        assert(out@ =~= old(out)@ + spec_byte_register_text(x));
    }
}

/// The canonical name of this item.
pub open spec fn spec_word_register_text(x: WordRegister) -> Seq<u8> {
    match x {
        WordRegister::Ax => seq![0x41u8, 0x58u8],
        WordRegister::Cx => seq![0x43u8, 0x58u8],
        WordRegister::Dx => seq![0x44u8, 0x58u8],
        WordRegister::Bx => seq![0x42u8, 0x58u8],
        WordRegister::Sp => seq![0x53u8, 0x50u8],
        WordRegister::Bp => seq![0x42u8, 0x50u8],
        WordRegister::Si => seq![0x53u8, 0x49u8],
        WordRegister::Di => seq![0x44u8, 0x49u8],
    }
}

/// Append the canonical name of this item.
pub fn push_word_register(out: &mut Vec<u8>, x: WordRegister)
    ensures
        final(out)@ == old(out)@ + spec_word_register_text(x),
{
    match x {
        WordRegister::Ax => {
            out.push(0x41);
            out.push(0x58);
        },
        WordRegister::Cx => {
            out.push(0x43);
            out.push(0x58);
        },
        WordRegister::Dx => {
            out.push(0x44);
            out.push(0x58);
        },
        WordRegister::Bx => {
            out.push(0x42);
            out.push(0x58);
        },
        WordRegister::Sp => {
            out.push(0x53);
            out.push(0x50);
        },
        WordRegister::Bp => {
            out.push(0x42);
            out.push(0x50);
        },
        WordRegister::Si => {
            out.push(0x53);
            out.push(0x49);
        },
        WordRegister::Di => {
            out.push(0x44);
            out.push(0x49);
        },
    }
    proof {
        assert(out@ =~= old(out)@ + spec_word_register_text(x));
    }
}

/// The canonical name of this item.
pub open spec fn spec_segment_text(x: Segment) -> Seq<u8> {
    match x {
        Segment::ES => seq![0x45u8, 0x53u8],
        Segment::CS => seq![0x43u8, 0x53u8],
        Segment::SS => seq![0x53u8, 0x53u8],
        Segment::DS => seq![0x44u8, 0x53u8],
    }
}

/// Append the canonical name of this item.
pub fn push_segment(out: &mut Vec<u8>, x: Segment)
    ensures
        final(out)@ == old(out)@ + spec_segment_text(x),
{
    match x {
        Segment::ES => {
            out.push(0x45);
            out.push(0x53);
        },
        Segment::CS => {
            out.push(0x43);
            out.push(0x53);
        },
        Segment::SS => {
            out.push(0x53);
            out.push(0x53);
        },
        Segment::DS => {
            out.push(0x44);
            out.push(0x53);
        },
    }
    proof {
        assert(out@ =~= old(out)@ + spec_segment_text(x));
    }
}

/// The canonical name of this item.
pub open spec fn spec_data_size_text(x: DataSize) -> Seq<u8> {
    match x {
        DataSize::Byte => seq![0x42u8, 0x59u8, 0x54u8, 0x45u8],
        DataSize::Word => seq![0x57u8, 0x4fu8, 0x52u8, 0x44u8],
    }
}

/// Append the canonical name of this item.
pub fn push_data_size(out: &mut Vec<u8>, x: DataSize)
    ensures
        final(out)@ == old(out)@ + spec_data_size_text(x),
{
    match x {
        DataSize::Byte => {
            out.push(0x42);
            out.push(0x59);
            out.push(0x54);
            out.push(0x45);
        },
        DataSize::Word => {
            out.push(0x57);
            out.push(0x4f);
            out.push(0x52);
            out.push(0x44);
        },
    }
    proof {
        assert(out@ =~= old(out)@ + spec_data_size_text(x));
    }
}

/// The canonical name of this item.
pub open spec fn spec_operator_text(x: Operator) -> Seq<u8> {
    match x {
        Operator::Add => seq![0x2bu8],
        Operator::Subtract => seq![0x2du8],
        Operator::Multiply => seq![0x2au8],
        Operator::Divide => seq![0x2fu8],
    }
}

/// Append the canonical name of this item.
pub fn push_operator(out: &mut Vec<u8>, x: Operator)
    ensures
        final(out)@ == old(out)@ + spec_operator_text(x),
{
    match x {
        Operator::Add => {
            out.push(0x2b);
        },
        Operator::Subtract => {
            out.push(0x2d);
        },
        Operator::Multiply => {
            out.push(0x2a);
        },
        Operator::Divide => {
            out.push(0x2f);
        },
    }
    proof {
        assert(out@ =~= old(out)@ + spec_operator_text(x));
    }
}

/// The canonical name of a register of either width.
pub open spec fn spec_register_text(r: Register) -> Seq<u8> {
    match r {
        Register::Byte(b) => spec_byte_register_text(b),
        Register::Word(w) => spec_word_register_text(w),
    }
}

/// Append the canonical name of a register of either width.
pub fn push_register(out: &mut Vec<u8>, r: Register)
    ensures
        final(out)@ == old(out)@ + spec_register_text(r),
{
    match r {
        Register::Byte(b) => push_byte_register(out, b),
        Register::Word(w) => push_word_register(out, w),
    }
}

/// The decimal digits of a nonnegative value.
pub open spec fn spec_decimal_digits(v: int) -> Seq<u8>
    recommends
        v >= 0,
    decreases v,
{
    if v < 10 {
        seq![(0x30 + (if v >= 0 { v } else { 0 })) as u8]
    } else {
        spec_decimal_digits(v / 10) + seq![(0x30 + v % 10) as u8]
    }
}

/// Append the decimal digits of a value.
pub fn push_decimal(out: &mut Vec<u8>, v: u32)
    ensures
        final(out)@ == old(out)@ + spec_decimal_digits(v as int),
    decreases v,
{
    if v < 10 {
        out.push(0x30 + v as u8);
        assert(out@ =~= old(out)@ + spec_decimal_digits(v as int));
    } else {
        push_decimal(out, v / 10);
        out.push(0x30 + (v % 10) as u8);
        assert(out@ =~= old(out)@ + spec_decimal_digits(v as int));
    }
}

/// The text of a constant: a minus sign for negative values, then the
/// decimal digits of the magnitude.
pub open spec fn spec_constant_text(v: i32) -> Seq<u8> {
    if v < 0 {
        seq![0x2Du8] + spec_decimal_digits(0 - v)
    } else {
        spec_decimal_digits(v as int)
    }
}

/// Append the text of a constant.
pub fn push_constant(out: &mut Vec<u8>, v: i32)
    ensures
        final(out)@ == old(out)@ + spec_constant_text(v),
{
    if v < 0 {
        out.push(0x2D);
        let magnitude = (0i64 - v as i64) as u32;
        push_decimal(out, magnitude);
        assert(out@ =~= old(out)@ + spec_constant_text(v));
    } else {
        push_decimal(out, v as u32);
    }
}

/// The text of a value: a constant, a label name, or a register name.
pub open spec fn spec_value_text(v: Value) -> Seq<u8> {
    match v {
        Value::Constant(c) => spec_constant_text(c),
        Value::Label(l) => l.1@,
        Value::Register(r) => spec_register_text(r),
    }
}

/// Append the text of a value.
pub fn push_value(out: &mut Vec<u8>, v: &Value)
    ensures
        final(out)@ == old(out)@ + spec_value_text(*v),
{
    match v {
        Value::Constant(c) => push_constant(out, *c),
        Value::Label(l) => {
            let ghost out0 = out@;
            let mut name = l.1.clone();
            proof {
                assert(name@ == l.1@);
            }
            out.append(&mut name);
            proof {
                assert(out@ =~= out0 + l.1@);
            }
        },
        Value::Register(r) => push_register(out, *r),
    }
}

/// The text of an expression: prefixes as `op(inner)`, infixes
/// parenthesised with the operator between spaces, terms as their value.
pub open spec fn spec_expression_text(e: Expression) -> Seq<u8>
    decreases e,
{
    match e {
        Expression::PrefixOperator(_, op, inner) => spec_operator_text(op) + seq![0x28u8]
            + spec_expression_text(*inner) + seq![0x29u8],
        Expression::InfixOperator(_, op, l, r) => seq![0x28u8] + spec_expression_text(*l) + seq![
            0x20u8,
        ] + spec_operator_text(op) + seq![0x20u8] + spec_expression_text(*r) + seq![0x29u8],
        Expression::Term(_, v) => spec_value_text(v),
    }
}

/// Append the text of an expression.
pub fn push_expression(out: &mut Vec<u8>, e: &Expression)
    ensures
        final(out)@ == old(out)@ + spec_expression_text(*e),
    decreases *e,
{
    match e {
        Expression::PrefixOperator(_, op, inner) => {
            push_operator(out, *op);
            out.push(0x28);
            push_expression(out, inner);
            out.push(0x29);
            assert(out@ =~= old(out)@ + spec_expression_text(*e));
        },
        Expression::InfixOperator(_, op, l, r) => {
            out.push(0x28);
            push_expression(out, l);
            out.push(0x20);
            push_operator(out, *op);
            out.push(0x20);
            push_expression(out, r);
            out.push(0x29);
            assert(out@ =~= old(out)@ + spec_expression_text(*e));
        },
        Expression::Term(_, v) => push_value(out, v),
    }
}

/// The text of a source operand, as the program view prints it.
pub open spec fn spec_ast_operand_text(o: Operand) -> Seq<u8> {
    match o {
        Operand::Immediate(_, e) => spec_expression_text(e),
        Operand::Address(_, e, size, seg) => {
            let size_part: Seq<u8> = match size {
                Some(ds) => spec_data_size_text(ds) + seq![0x20u8],
                None => seq![],
            };
            let seg_part: Seq<u8> = match seg {
                Some(s) => spec_segment_text(s) + seq![0x3Au8],
                None => seq![],
            };
            size_part + seq![0x5Bu8] + seg_part + spec_expression_text(e) + seq![0x5Du8]
        },
        Operand::Register(_, r) => spec_register_text(r),
        Operand::Segment(_, s) => spec_segment_text(s),
    }
}

impl Operand {
    /// This operand as canonical text: any width word, the bracketed
    /// address with its segment override, or the plain name.
    pub fn to_text(&self) -> (r: Vec<u8>)
        ensures
            r@ == spec_ast_operand_text(*self),
    {
        let mut out: Vec<u8> = Vec::new();
        match self {
            Operand::Immediate(_, e) => {
                push_expression(&mut out, e);
            },
            Operand::Address(_, e, size, seg) => {
                match size {
                    Some(ds) => {
                        push_data_size(&mut out, *ds);
                        out.push(0x20);
                    },
                    None => {},
                }
                out.push(0x5B);
                match seg {
                    Some(s) => {
                        push_segment(&mut out, *s);
                        out.push(0x3A);
                    },
                    None => {},
                }
                push_expression(&mut out, e);
                out.push(0x5D);
            },
            Operand::Register(_, r) => {
                push_register(&mut out, *r);
            },
            Operand::Segment(_, s) => {
                push_segment(&mut out, *s);
            },
        }
        proof {
            assert(out@ =~= spec_ast_operand_text(*self));
        }
        out
    }
}

/// The text of a source operand set.
pub open spec fn spec_ast_operands_text(o: Operands) -> Seq<u8> {
    match o {
        Operands::Empty(_) => seq![],
        Operands::Destination(_, d) => spec_ast_operand_text(d),
        Operands::DestinationAndSource(_, d, s) => spec_ast_operand_text(d) + seq![0x2Cu8, 0x20u8]
            + spec_ast_operand_text(s),
    }
}

impl Operands {
    /// This operand set as canonical text.
    pub fn to_text(&self) -> (r: Vec<u8>)
        ensures
            r@ == spec_ast_operands_text(*self),
    {
        let mut out: Vec<u8> = Vec::new();
        match self {
            Operands::Empty(_) => {},
            Operands::Destination(_, d) => {
                let mut t = d.to_text();
                out.append(&mut t);
            },
            Operands::DestinationAndSource(_, d, s) => {
                let mut t = d.to_text();
                out.append(&mut t);
                out.push(0x2C);
                out.push(0x20);
                let mut t2 = s.to_text();
                out.append(&mut t2);
            },
        }
        proof {
            assert(out@ =~= spec_ast_operands_text(*self));
        }
        out
    }
}

/// The text of a source instruction: its mnemonic, and its operands after
/// one space when there are any.
pub open spec fn spec_ast_instruction_text(i: Instruction) -> Seq<u8> {
    match i.operands {
        Operands::Empty(_) => spec_mnemonic(i.operation),
        _ => spec_mnemonic(i.operation) + seq![0x20u8] + spec_ast_operands_text(i.operands),
    }
}

impl Instruction {
    /// This instruction as canonical text.
    pub fn to_text(&self) -> (r: Vec<u8>)
        ensures
            r@ == spec_ast_instruction_text(*self),
    {
        let mut out: Vec<u8> = Vec::new();
        push_mnemonic(&mut out, self.operation);
        match &self.operands {
            Operands::Empty(_) => {},
            _ => {
                out.push(0x20);
                let mut t = self.operands.to_text();
                out.append(&mut t);
            },
        }
        proof {
            assert(out@ =~= spec_ast_instruction_text(*self));
        }
        out
    }
}

/// The text of a line's content: an instruction, a `db` directive with
/// its bytes in hex, an `equ` constant, a repeat, or nothing.
pub open spec fn spec_line_content_text(c: LineContent) -> Seq<u8>
    decreases c,
{
    match c {
        LineContent::Empty => seq![],
        LineContent::Instruction(i) => spec_ast_instruction_text(i),
        LineContent::Data(_, bytes) => DB_TEXT() + spec_data_bytes_text(bytes@),
        LineContent::Constant(_, e) => EQU_TEXT() + spec_expression_text(e),
        LineContent::Times(_, e, inner) => TIMES_TEXT() + spec_expression_text(e) + seq![0x20u8]
            + spec_line_content_text(*inner),
    }
}

/// The word `db`.
#[verifier::inline]
pub open spec fn DB_TEXT() -> Seq<u8> {
    seq![0x64u8, 0x62u8]
}

/// The phrase `equ `.
#[verifier::inline]
pub open spec fn EQU_TEXT() -> Seq<u8> {
    seq![0x65u8, 0x71u8, 0x75u8, 0x20u8]
}

/// The phrase `times `.
#[verifier::inline]
pub open spec fn TIMES_TEXT() -> Seq<u8> {
    seq![0x74u8, 0x69u8, 0x6Du8, 0x65u8, 0x73u8, 0x20u8]
}

/// Each data byte as ` 0xXX`.
pub open spec fn spec_data_bytes_text(bytes: Seq<u8>) -> Seq<u8>
    decreases bytes.len(),
{
    if bytes.len() == 0 {
        seq![]
    } else {
        seq![0x20u8, 0x30u8, 0x78u8] + spec_hex_byte(bytes[0]) + spec_data_bytes_text(
            bytes.skip(1),
        )
    }
}

/// Append each data byte as ` 0xXX`.
fn push_data_bytes(out: &mut Vec<u8>, bytes: &Vec<u8>, idx: usize)
    requires
        idx <= bytes@.len(),
    ensures
        final(out)@ == old(out)@ + spec_data_bytes_text(bytes@.skip(idx as int)),
    decreases bytes@.len() - idx,
{
    if idx < bytes.len() {
        out.push(0x20);
        out.push(0x30);
        out.push(0x78);
        push_hex_byte(out, bytes[idx]);
        push_data_bytes(out, bytes, idx + 1);
        proof {
            assert(bytes@.skip(idx as int).skip(1) =~= bytes@.skip(idx + 1));
            assert(out@ =~= old(out)@ + spec_data_bytes_text(bytes@.skip(idx as int)));
        }
    } else {
        proof {
            assert(out@ =~= old(out)@ + spec_data_bytes_text(bytes@.skip(idx as int)));
        }
    }
}

impl LineContent {
    /// This content as canonical text.
    pub fn to_text(&self) -> (r: Vec<u8>)
        ensures
            r@ == spec_line_content_text(*self),
        decreases *self,
    {
        let mut out: Vec<u8> = Vec::new();
        match self {
            LineContent::Empty => {},
            LineContent::Instruction(i) => {
                let mut t = i.to_text();
                out.append(&mut t);
            },
            LineContent::Data(_, bytes) => {
                out.push(0x64);
                out.push(0x62);
                push_data_bytes(&mut out, bytes, 0);
                proof {
                    assert(bytes@.skip(0) =~= bytes@);
                }
            },
            LineContent::Constant(_, e) => {
                out.push(0x65);
                out.push(0x71);
                out.push(0x75);
                out.push(0x20);
                push_expression(&mut out, e);
            },
            LineContent::Times(_, e, inner) => {
                out.push(0x74);
                out.push(0x69);
                out.push(0x6D);
                out.push(0x65);
                out.push(0x73);
                out.push(0x20);
                push_expression(&mut out, e);
                out.push(0x20);
                let mut t = inner.to_text();
                out.append(&mut t);
            },
        }
        proof {
            assert(out@ =~= spec_line_content_text(*self));
        }
        out
    }
}

/// The text of a whole line: the label with a colon and space when
/// present, then the content.
pub open spec fn spec_line_text(l: Line) -> Seq<u8> {
    match l.label {
        Some(lab) => lab.1@ + seq![0x3Au8, 0x20u8] + spec_line_content_text(l.content),
        None => spec_line_content_text(l.content),
    }
}

impl Line {
    /// This line as canonical text.
    pub fn to_text(&self) -> (r: Vec<u8>)
        ensures
            r@ == spec_line_text(*self),
    {
        let mut out: Vec<u8> = Vec::new();
        match &self.label {
            Some(lab) => {
                let mut name = lab.1.clone();
                proof {
                    assert(name@ == lab.1@);
                }
                out.append(&mut name);
                out.push(0x3A);
                out.push(0x20);
            },
            None => {},
        }
        let mut t = self.content.to_text();
        out.append(&mut t);
        proof {
            assert(out@ =~= spec_line_text(*self));
        }
        out
    }
}

} // verus!
