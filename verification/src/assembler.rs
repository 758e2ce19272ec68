//! The two-pass assembler: lay the program out and bind every label, then
//! resolve expressions and emit bytes.  Both passes are mirrored by spec
//! functions over the parsed lines, and the executable passes are pinned
//! to those mirrors.

use vstd::prelude::*;

use crate::ast::{
    expression_view, line_content_view, line_view, ExpressionView, Label, LabelView, Line, LineContent,
    LineContentView, LineView, OperandView, Operands, OperandsView, Operator, Register as AstReg,
    Segment as AstSeg, Span, ValueView,
};
use crate::ast;
use crate::encode::{encodable, spec_encode_instruction, EncodeError};
use crate::modrm::{register_from_bits, segment_from_bits};
use crate::x86::{
    Instruction, Operand, OperandSet, OperandSize, OperandType, Operation, Register, Segment,
};
use vstd::slice::slice_index_get;

verus! {

/// Everything the assembler can report.
#[derive(Clone, Copy, Debug, PartialEq, Eq, Structural)]
pub enum AsmError {
    /// Parsing stopped before the end of the source; the payload is how
    /// far it got.
    ParseError(usize),
    /// A label reference could not be resolved.
    UnresolvedLabel(Span),
    /// The same label is bound twice.
    DuplicateLabel(Span),
    /// A register name stood inside a plain value expression.
    RegisterInExpression(Span),
    /// An expression value does not fit its place.
    ValueOutOfRange(Span),
    /// A division by zero, or a division the assembler does not define.
    DivideByZero(Span),
    /// An operand shape the assembler cannot encode.
    UnsupportedOperand(Span),
    /// The instruction encoder had no encoding for the shape.
    Encode(EncodeError),
    /// The layout ran past the 16-bit segment boundary.
    ProgramTooLarge,
}

/// One bound symbol: a label name and its value.
#[derive(Debug, PartialEq, Eq)]
pub struct Symbol {
    pub name: Vec<u8>,
    pub value: u16,
}

/// The ghost image of a symbol.
pub struct SymbolView {
    pub name: Seq<u8>,
    pub value: u16,
}

/// The ghost image of a symbol.
pub open spec fn symbol_view(s: Symbol) -> SymbolView {
    SymbolView { name: s.name@, value: s.value }
}

/// The ghost image of a symbol table.
pub open spec fn symbols_view(s: Seq<Symbol>) -> Seq<SymbolView> {
    s.map_values(|x: Symbol| symbol_view(x))
}

/// The value bound to a name, first binding wins.
pub open spec fn spec_lookup(syms: Seq<SymbolView>, name: Seq<u8>) -> Option<u16>
    decreases syms.len(),
{
    if syms.len() == 0 {
        None
    } else if syms[0].name == name {
        Some(syms[0].value)
    } else {
        spec_lookup(syms.skip(1), name)
    }
}

/// Whether two byte strings are equal.
fn eq_bytes(a: &[u8], b: &[u8]) -> (r: bool)
    ensures
        r == (a@ == b@),
{
    if a.len() != b.len() {
        proof {
            assert(a@.len() != b@.len());
        }
        return false;
    }
    let mut i: usize = 0;
    while i < a.len()
        invariant
            i <= a.len(),
            a@.len() == b@.len(),
            forall|j: int| 0 <= j < i ==> a@[j] == b@[j],
        decreases a@.len() - i,
    {
        if *slice_index_get(a, i) != *slice_index_get(b, i) {
            return false;
        }
        i = i + 1;
    }
    proof {
        assert(a@ =~= b@);
    }
    true
}

/// The value bound to a name.
fn lookup(syms: &Vec<Symbol>, name: &[u8]) -> (r: Option<u16>)
    ensures
        r == spec_lookup(symbols_view(syms@), name@),
{
    let mut i: usize = 0;
    proof {
        assert(symbols_view(syms@).skip(0) =~= symbols_view(syms@));
    }
    while i < syms.len()
        invariant
            i <= syms@.len(),
            spec_lookup(symbols_view(syms@), name@) == spec_lookup(
                symbols_view(syms@).skip(i as int),
                name@,
            ),
        decreases syms@.len() - i,
    {
        proof {
            assert(symbols_view(syms@).skip(i as int)[0] == symbol_view(syms@[i as int]));
        }
        if eq_bytes(syms[i].name.as_slice(), name) {
            return Some(syms[i].value);
        }
        proof {
            assert(symbols_view(syms@).skip(i as int).skip(1) =~= symbols_view(syms@).skip(
                i + 1,
            ));
        }
        i = i + 1;
    }
    proof {
        assert(symbols_view(syms@).skip(i as int).len() == 0);
    }
    None
}

/// What an expression evaluates to over a symbol table: 32-bit wrapping
/// arithmetic, division defined on nonnegative operands only, label
/// references resolved through the table, register names rejected.
pub open spec fn spec_eval(e: ExpressionView, syms: Seq<SymbolView>) -> Result<i32, AsmError>
    decreases e,
{
    match e {
        ExpressionView::Term(span, v) => match v {
            ValueView::Constant(c) => Ok(c),
            ValueView::Register(_) => Err(AsmError::RegisterInExpression(span)),
            ValueView::Label(l) => match spec_lookup(syms, l.name) {
                Some(value) => Ok(value as i32),
                None => Err(AsmError::UnresolvedLabel(span)),
            },
        },
        ExpressionView::PrefixOperator(span, op, inner) => match spec_eval(*inner, syms) {
            Err(err) => Err(err),
            Ok(v) => match op {
                Operator::Add => Ok(v),
                Operator::Subtract => Ok(0i32.wrapping_sub(v)),
                _ => Err(AsmError::DivideByZero(span)),
            },
        },
        ExpressionView::InfixOperator(span, op, l, r) => match spec_eval(*l, syms) {
            Err(err) => Err(err),
            Ok(a) => match spec_eval(*r, syms) {
                Err(err) => Err(err),
                Ok(b) => match op {
                    Operator::Add => Ok(a.wrapping_add(b)),
                    Operator::Subtract => Ok(a.wrapping_sub(b)),
                    Operator::Multiply => Ok(a.wrapping_mul(b)),
                    Operator::Divide => {
                        if a >= 0 && b > 0 {
                            Ok((a as int / b as int) as i32)
                        } else {
                            Err(AsmError::DivideByZero(span))
                        }
                    },
                },
            },
        },
    }
}

/// Evaluate an expression over a symbol table.
pub fn eval(e: &ast::Expression, syms: &Vec<Symbol>) -> (r: Result<i32, AsmError>)
    ensures
        r == spec_eval(expression_view(*e), symbols_view(syms@)),
    decreases *e,
{
    match e {
        ast::Expression::Term(span, v) => match v {
            ast::Value::Constant(c) => Ok(*c),
            ast::Value::Register(_) => Err(AsmError::RegisterInExpression(*span)),
            ast::Value::Label(l) => match lookup(syms, l.1.as_slice()) {
                Some(value) => Ok(value as i32),
                None => Err(AsmError::UnresolvedLabel(*span)),
            },
        },
        ast::Expression::PrefixOperator(span, op, inner) => match eval(inner, syms) {
            Err(err) => Err(err),
            Ok(v) => match op {
                Operator::Add => Ok(v),
                Operator::Subtract => Ok(0i32.wrapping_sub(v)),
                _ => Err(AsmError::DivideByZero(*span)),
            },
        },
        ast::Expression::InfixOperator(span, op, l, r) => match eval(l, syms) {
            Err(err) => Err(err),
            Ok(a) => match eval(r, syms) {
                Err(err) => Err(err),
                Ok(b) => match op {
                    Operator::Add => Ok(a.wrapping_add(b)),
                    Operator::Subtract => Ok(a.wrapping_sub(b)),
                    Operator::Multiply => Ok(a.wrapping_mul(b)),
                    Operator::Divide => {
                        if a >= 0 && b > 0 {
                            Ok(a / b)
                        } else {
                            Err(AsmError::DivideByZero(*span))
                        }
                    },
                },
            },
        },
    }
}


/// The fixed size of a relative-jump instruction, when the operation is
/// one: conditional jumps and loops take two bytes, near JMP and CALL
/// three.  Near jumps keep the fixed 16-bit form whatever their target:
/// layout sizes may not depend on values the first pass has not bound
/// yet, and a size that could shrink in the second pass would move every
/// later label.  The two-byte short jump is still decoded and executed.
pub open spec fn spec_jump_size(op: Operation) -> Option<int> {
    if crate::encode::short_jump_opcode(op) is Some {
        Some(2)
    } else if op == Operation::Jmp || op == Operation::Call {
        Some(3)
    } else {
        None
    }
}

/// A signed expression value wrapped into a 16-bit word.
pub open spec fn spec_to_u16(v: i32) -> u16 {
    (((v as int) % 0x10000 + 0x10000) % 0x10000) as u16
}

/// Whether an expression value fits a 16-bit place: anything from
/// `-0x8000` up to `0xFFFF`.
pub open spec fn fits_u16(v: i32) -> bool {
    -0x8000 <= v <= 0xFFFF
}

/// Wrap a signed expression value into a 16-bit word.
fn to_u16(v: i32) -> (r: u16)
    ensures
        r == spec_to_u16(v),
{
    ((v % 0x10000 + 0x10000) % 0x10000) as u16
}

/// What a source operand converts to: the operand shape and the width it
/// carries, when it names one.
pub open spec fn spec_convert_operand(o: OperandView, syms: Seq<SymbolView>) -> Result<
    (OperandType, Option<OperandSize>),
    AsmError,
> {
    match o {
        OperandView::Register(_, AstReg::Byte(b)) => Ok(
            (
                OperandType::Register(register_from_bits(crate::ast::byte_register_encoding(b))),
                Some(OperandSize::Byte),
            ),
        ),
        OperandView::Register(_, AstReg::Word(w)) => Ok(
            (
                OperandType::Register(register_from_bits(crate::ast::word_register_encoding(w))),
                Some(OperandSize::Word),
            ),
        ),
        OperandView::Segment(_, s) => Ok(
            (
                OperandType::Segment(segment_from_bits(crate::ast::ast_segment_encoding(s))),
                Some(OperandSize::Word),
            ),
        ),
        OperandView::Immediate(span, e) => match spec_eval(e, syms) {
            Err(err) => Err(err),
            Ok(v) => {
                if fits_u16(v) {
                    Ok((OperandType::Immediate(spec_to_u16(v)), None))
                } else {
                    Err(AsmError::ValueOutOfRange(span))
                }
            },
        },
        OperandView::Address(span, _, _, _) => Err(AsmError::UnsupportedOperand(span)),
    }
}

/// Convert one source operand.
fn convert_operand(o: &ast::Operand, syms: &Vec<Symbol>) -> (r: Result<
    (OperandType, Option<OperandSize>),
    AsmError,
>)
    ensures
        r == spec_convert_operand(operand_view_of(o), symbols_view(syms@)),
{
    match o {
        ast::Operand::Register(_, AstReg::Byte(b)) => {
            let code = b.encoding();
            match Register::try_from_low_bits(code) {
                Ok(reg) => Ok((OperandType::Register(reg), Some(OperandSize::Byte))),
                Err(_) => {
                    proof {
                        assert(false);
                    }
                    Err(AsmError::ProgramTooLarge)
                },
            }
        },
        ast::Operand::Register(_, AstReg::Word(w)) => {
            let code = w.encoding();
            match Register::try_from_low_bits(code) {
                Ok(reg) => Ok((OperandType::Register(reg), Some(OperandSize::Word))),
                Err(_) => {
                    proof {
                        assert(false);
                    }
                    Err(AsmError::ProgramTooLarge)
                },
            }
        },
        ast::Operand::Segment(_, s) => {
            let code = s.encoding();
            match Segment::try_from_low_bits(code) {
                Ok(seg) => Ok((OperandType::Segment(seg), Some(OperandSize::Word))),
                Err(_) => {
                    proof {
                        assert(false);
                    }
                    Err(AsmError::ProgramTooLarge)
                },
            }
        },
        ast::Operand::Immediate(span, e) => match eval(e, syms) {
            Err(err) => Err(err),
            Ok(v) => {
                if -0x8000 <= v && v <= 0xFFFF {
                    Ok((OperandType::Immediate(to_u16(v)), None))
                } else {
                    Err(AsmError::ValueOutOfRange(*span))
                }
            },
        },
        ast::Operand::Address(span, _, _, _) => Err(AsmError::UnsupportedOperand(*span)),
    }
}

/// The ghost image of a borrowed operand.
pub open spec fn operand_view_of(o: &ast::Operand) -> OperandView {
    crate::ast::operand_view(*o)
}

/// The machine instruction one source instruction assembles to, given the
/// symbol table and the address just past the instruction.
pub open spec fn spec_assemble_instruction(
    i: crate::ast::InstructionView,
    syms: Seq<SymbolView>,
    ip_after: u16,
) -> Result<Instruction, AsmError> {
    let operation = i.operation;
    if spec_jump_size(operation) is Some {
        match i.operands {
            OperandsView::Destination(_, OperandView::Immediate(span, e)) => {
                match spec_eval(e, syms) {
                    Err(err) => Err(err),
                    Ok(v) => {
                        if !fits_u16(v) {
                            Err(AsmError::ValueOutOfRange(span))
                        } else {
                            let target = spec_to_u16(v);
                            let rel = ((target - ip_after) % 0x10000 + 0x10000) % 0x10000;
                            if operation == Operation::Jmp || operation == Operation::Call {
                                Ok(
                                    crate::decode::plain_instruction(
                                        operation,
                                        OperandSet::Offset(rel as u16),
                                    ),
                                )
                            } else {
                                if crate::modrm::sign_extend_u8((rel % 0x100) as u8) == rel {
                                    Ok(
                                        crate::decode::plain_instruction(
                                            operation,
                                            OperandSet::Offset((rel % 0x100) as u16),
                                        ),
                                    )
                                } else {
                                    Err(AsmError::Encode(EncodeError::DisplacementOutOfRange))
                                }
                            }
                        }
                    },
                }
            },
            _ => Err(AsmError::UnsupportedOperand(i.span)),
        }
    } else {
        match i.operands {
            OperandsView::Empty(_) => Ok(
                crate::decode::plain_instruction(operation, OperandSet::Empty),
            ),
            OperandsView::Destination(_, o) => match spec_convert_operand(o, syms) {
                Err(err) => Err(err),
                Ok((t, szo)) => {
                    let size = match szo {
                        Some(s) => s,
                        None => if operation == Operation::Int {
                            OperandSize::Byte
                        } else {
                            OperandSize::Word
                        },
                    };
                    Ok(
                        crate::decode::plain_instruction(
                            operation,
                            OperandSet::Destination(Operand(t, size)),
                        ),
                    )
                },
            },
            OperandsView::DestinationAndSource(_, d, s) => match spec_convert_operand(d, syms) {
                Err(err) => Err(err),
                Ok((dt, dso)) => match spec_convert_operand(s, syms) {
                    Err(err) => Err(err),
                    Ok((st, sso)) => {
                        let size = match dso {
                            Some(x) => x,
                            None => match sso {
                                Some(y) => y,
                                None => OperandSize::Word,
                            },
                        };
                        Ok(
                            crate::decode::plain_instruction(
                                operation,
                                OperandSet::DestinationAndSource(
                                    Operand(dt, size),
                                    Operand(st, size),
                                ),
                            ),
                        )
                    },
                },
            },
        }
    }
}

/// Assemble one source instruction.
pub fn assemble_instruction(
    i: &ast::Instruction,
    syms: &Vec<Symbol>,
    ip_after: u16,
) -> (r: Result<Instruction, AsmError>)
    ensures
        r == spec_assemble_instruction(
            crate::ast::instruction_view(*i),
            symbols_view(syms@),
            ip_after,
        ),
{
    let operation = i.operation;
    let is_jump = jump_size(operation).is_some();
    if is_jump {
        match &i.operands {
            Operands::Destination(_, ast::Operand::Immediate(span, e)) => {
                match eval(e, syms) {
                    Err(err) => Err(err),
                    Ok(v) => {
                        if !(-0x8000 <= v && v <= 0xFFFF) {
                            Err(AsmError::ValueOutOfRange(*span))
                        } else {
                            let target = to_u16(v);
                            let rel = (((target as i32 - ip_after as i32) % 0x10000 + 0x10000)
                                % 0x10000) as u16;
                            if matches!(operation, Operation::Jmp | Operation::Call) {
                                Ok(
                                    Instruction::new(operation, OperandSet::Offset(rel)),
                                )
                            } else {
                                let low = (rel % 0x100) as u8;
                                let ext: u16 = if low < 0x80 {
                                    low as u16
                                } else {
                                    low as u16 + 0xFF00
                                };
                                if ext == rel {
                                    Ok(
                                        Instruction::new(
                                            operation,
                                            OperandSet::Offset(rel % 0x100),
                                        ),
                                    )
                                } else {
                                    Err(AsmError::Encode(EncodeError::DisplacementOutOfRange))
                                }
                            }
                        }
                    },
                }
            },
            _ => Err(AsmError::UnsupportedOperand(i.span)),
        }
    } else {
        match &i.operands {
            Operands::Empty(_) => Ok(Instruction::new(operation, OperandSet::Empty)),
            Operands::Destination(_, o) => match convert_operand(o, syms) {
                Err(err) => Err(err),
                Ok((t, szo)) => {
                    let size = match szo {
                        Some(s) => s,
                        None => if matches!(operation, Operation::Int) {
                            OperandSize::Byte
                        } else {
                            OperandSize::Word
                        },
                    };
                    Ok(
                        Instruction::new(operation, OperandSet::Destination(Operand(t, size))),
                    )
                },
            },
            Operands::DestinationAndSource(_, d, s) => match convert_operand(d, syms) {
                Err(err) => Err(err),
                Ok((dt, dso)) => match convert_operand(s, syms) {
                    Err(err) => Err(err),
                    Ok((st, sso)) => {
                        let size = match dso {
                            Some(x) => x,
                            None => match sso {
                                Some(y) => y,
                                None => OperandSize::Word,
                            },
                        };
                        Ok(
                            Instruction::new(
                                operation,
                                OperandSet::DestinationAndSource(
                                    Operand(dt, size),
                                    Operand(st, size),
                                ),
                            ),
                        )
                    },
                },
            },
        }
    }
}

/// The fixed size of a relative-jump instruction.
fn jump_size(op: Operation) -> (r: Option<u16>)
    ensures
        ({
            match r {
                Some(n) => spec_jump_size(op) == Some(n as int),
                None => spec_jump_size(op) is None,
            }
        }),
{
    match op {
        Operation::Jo | Operation::Jno | Operation::Jb | Operation::Jnb | Operation::Je
            | Operation::Jne | Operation::Jbe | Operation::Jnbe | Operation::Js | Operation::Jns
            | Operation::Jp | Operation::Jnp | Operation::Jl | Operation::Jnl | Operation::Jle
            | Operation::Jnle | Operation::Loopnz | Operation::Loopz | Operation::Loop
            | Operation::Jcxz => Some(2),
        Operation::Jmp | Operation::Call => Some(3),
        _ => None,
    }
}

/// How many bytes one line's content occupies: data bytes count
/// themselves, constants and empty lines nothing, instructions their
/// encoding, and a repeat multiplies its inner content.
pub open spec fn spec_content_size(c: LineContentView, syms: Seq<SymbolView>) -> Result<
    int,
    AsmError,
>
    decreases c,
{
    match c {
        LineContentView::Empty => Ok(0),
        LineContentView::Constant(_, _) => Ok(0),
        LineContentView::Data(_, bytes) => {
            if bytes.len() > 0x10000 {
                Err(AsmError::ProgramTooLarge)
            } else {
                Ok(bytes.len() as int)
            }
        },
        LineContentView::Instruction(i) => match spec_jump_size(i.operation) {
            Some(n) => Ok(n),
            None => match spec_assemble_instruction(i, syms, 0) {
                Err(err) => Err(err),
                Ok(mi) => match spec_encode_instruction(mi) {
                    Ok(b) => Ok(b.len() as int),
                    Err(e) => Err(AsmError::Encode(e)),
                },
            },
        },
        LineContentView::Times(span, e, inner) => match spec_eval(e, syms) {
            Err(err) => Err(err),
            Ok(v) => {
                if v < 0 {
                    Err(AsmError::ValueOutOfRange(span))
                } else {
                    match spec_content_size(*inner, syms) {
                        Err(err) => Err(err),
                        Ok(s) => {
                            if v * s > 0x10000 {
                                Err(AsmError::ProgramTooLarge)
                            } else {
                                Ok(v * s)
                            }
                        },
                    }
                }
            },
        },
    }
}

/// How many bytes one line's content occupies.
#[verifier::rlimit(60)]
pub fn content_size(c: &LineContent, syms: &Vec<Symbol>) -> (r: Result<u32, AsmError>)
    ensures
        ({
            match r {
                Ok(n) => spec_content_size(line_content_view(*c), symbols_view(syms@)) == Ok::<
                    int,
                    AsmError,
                >(n as int) && n <= 0x10000,
                Err(e) => spec_content_size(line_content_view(*c), symbols_view(syms@)) == Err::<
                    int,
                    AsmError,
                >(e),
            }
        }),
    decreases *c,
{
    match c {
        LineContent::Empty => Ok(0),
        LineContent::Constant(_, _) => Ok(0),
        LineContent::Data(_, bytes) => {
            if bytes.len() > 0x10000 {
                Err(AsmError::ProgramTooLarge)
            } else {
                Ok(bytes.len() as u32)
            }
        },
        LineContent::Instruction(i) => {
            match jump_size(i.operation) {
                Some(n) => Ok(n as u32),
                None => match assemble_instruction(i, syms, 0) {
                    Err(err) => Err(err),
                    Ok(mi) => match crate::encode::encode_instruction(&mi) {
                        Ok(b) => Ok(b.len() as u32),
                        Err(e) => Err(AsmError::Encode(e)),
                    },
                },
            }
        },
        LineContent::Times(span, e, inner) => match eval(e, syms) {
            Err(err) => Err(err),
            Ok(v) => {
                if v < 0 {
                    Err(AsmError::ValueOutOfRange(*span))
                } else {
                    match content_size(inner, syms) {
                        Err(err) => Err(err),
                        Ok(s) => {
                            proof {
                                assert(v as int * s as int <= 0x7FFFFFFF * 0x10000int)
                                    by (nonlinear_arith)
                                    requires
                                        0 <= v <= 0x7FFFFFFF,
                                        0 <= s <= 0x10000,
                                ;
                            }
                            let total = v as u64 * s as u64;
                            if total > 0x10000 {
                                Err(AsmError::ProgramTooLarge)
                            } else {
                                Ok(total as u32)
                            }
                        },
                    }
                }
            },
        },
    }
}

/// The layout pass from line `idx` on: bind labels, walk the cursor.
pub open spec fn spec_pass1_at(
    lines: Seq<LineView>,
    idx: int,
    ip: int,
    syms: Seq<SymbolView>,
) -> Result<Seq<SymbolView>, AsmError>
    decreases lines.len() - idx,
    when 0 <= idx
{
    if idx >= lines.len() {
        Ok(syms)
    } else {
        let line = lines[idx];
        let bound = match line.label {
            Some(l) => {
                if spec_lookup(syms, l.name) is Some {
                    Err(AsmError::DuplicateLabel(l.span))
                } else {
                    match line.content {
                        LineContentView::Constant(span, e) => match spec_eval(e, syms) {
                            Err(err) => Err(err),
                            Ok(v) => {
                                if fits_u16(v) {
                                    Ok(syms.push(SymbolView { name: l.name, value: spec_to_u16(v) }))
                                } else {
                                    Err(AsmError::ValueOutOfRange(span))
                                }
                            },
                        },
                        _ => Ok(syms.push(SymbolView { name: l.name, value: (ip % 0x10000) as u16 })),
                    }
                }
            },
            None => Ok(syms),
        };
        match bound {
            Err(err) => Err(err),
            Ok(syms1) => match spec_content_size(line.content, syms1) {
                Err(err) => Err(err),
                Ok(sz) => {
                    if ip + sz > 0x10000 {
                        Err(AsmError::ProgramTooLarge)
                    } else {
                        spec_pass1_at(lines, idx + 1, ip + sz, syms1)
                    }
                },
            },
        }
    }
}

/// The layout pass: walk the lines once, binding every label to its
/// offset, and `equ` labels to their expression's value.
pub open spec fn spec_pass1(lines: Seq<LineView>) -> Result<Seq<SymbolView>, AsmError> {
    spec_pass1_at(lines, 0, 0, Seq::empty())
}

/// Law: the layout pass is a function of the program alone; running it
/// twice on the same lines yields identical symbol tables.
pub proof fn lemma_pass_one_repeatable(
    lines: Seq<LineView>,
    first: Result<Seq<SymbolView>, AsmError>,
    second: Result<Seq<SymbolView>, AsmError>,
)
    requires
        first == spec_pass1(lines),
        second == spec_pass1(lines),
    ensures
        first == second,
{
}

/// The layout pass.
pub fn pass1(lines: &Vec<Line>) -> (r: Result<Vec<Symbol>, AsmError>)
    ensures
        ({
            let lv = lines@.map_values(|l: Line| line_view(l));
            match r {
                Ok(syms) => spec_pass1(lv) == Ok::<Seq<SymbolView>, AsmError>(
                    symbols_view(syms@),
                ),
                Err(e) => spec_pass1(lv) == Err::<Seq<SymbolView>, AsmError>(e),
            }
        }),
{
    let ghost lv = lines@.map_values(|l: Line| line_view(l));
    let mut syms: Vec<Symbol> = Vec::new();
    let mut ip: u32 = 0;
    let mut idx: usize = 0;
    proof {
        assert(symbols_view(syms@) =~= Seq::<SymbolView>::empty());
    }
    while idx < lines.len()
        invariant
            lv == lines@.map_values(|l: Line| line_view(l)),
            idx <= lines@.len(),
            ip <= 0x10000,
            spec_pass1(lv) == spec_pass1_at(lv, idx as int, ip as int, symbols_view(syms@)),
        decreases lines@.len() - idx,
    {
        let line = &lines[idx];
        proof {
            assert(lv[idx as int] == line_view(lines@[idx as int]));
        }
        match &line.label {
            Some(l) => {
                if lookup(&syms, l.1.as_slice()).is_some() {
                    return Err(AsmError::DuplicateLabel(l.0));
                }
                let value: u16 = match &line.content {
                    LineContent::Constant(span, e) => match eval(e, &syms) {
                        Err(err) => {
                            return Err(err);
                        },
                        Ok(v) => {
                            if -0x8000 <= v && v <= 0xFFFF {
                                to_u16(v)
                            } else {
                                return Err(AsmError::ValueOutOfRange(*span));
                            }
                        },
                    },
                    _ => (ip % 0x10000) as u16,
                };
                let name = l.1.clone();
                let ghost syms0 = syms@;
                syms.push(Symbol { name, value });
                proof {
                    assert(symbols_view(syms@) =~= symbols_view(syms0).push(
                        SymbolView { name: l.1@, value },
                    ));
                }
            },
            None => {},
        }
        let sz = match content_size(&line.content, &syms) {
            Err(err) => {
                return Err(err);
            },
            Ok(sz) => sz,
        };
        if ip + sz > 0x10000 {
            return Err(AsmError::ProgramTooLarge);
        }
        ip = ip + sz;
        idx = idx + 1;
    }
    Ok(syms)
}

/// No single instruction encodes to more than a handful of bytes.
proof fn lemma_encode_len(i: Instruction)
    ensures
        spec_encode_instruction(i) matches Ok(b) ==> b.len() <= 7,
{
}

/// The bytes one line's content emits at address `ip`.
pub open spec fn spec_emit_content(c: LineContentView, syms: Seq<SymbolView>, ip: int) -> Result<
    Seq<u8>,
    AsmError,
>
    decreases c, 0int,
{
    match c {
        LineContentView::Empty => Ok(Seq::empty()),
        LineContentView::Constant(_, _) => Ok(Seq::empty()),
        LineContentView::Data(_, bytes) => {
            if bytes.len() > 0x10000 {
                Err(AsmError::ProgramTooLarge)
            } else {
                Ok(bytes)
            }
        },
        LineContentView::Instruction(i) => match spec_content_size(c, syms) {
            Err(err) => Err(err),
            Ok(sz) => {
                if ip + sz > 0x10000 {
                    Err(AsmError::ProgramTooLarge)
                } else {
                    match spec_assemble_instruction(i, syms, (ip + sz) as u16) {
                        Err(err) => Err(err),
                        Ok(mi) => match spec_encode_instruction(mi) {
                            Ok(b) => Ok(b),
                            Err(e) => Err(AsmError::Encode(e)),
                        },
                    }
                }
            },
        },
        LineContentView::Times(span, e, inner) => match spec_eval(e, syms) {
            Err(err) => Err(err),
            Ok(v) => {
                if v < 0 {
                    Err(AsmError::ValueOutOfRange(span))
                } else {
                    match spec_content_size(*inner, syms) {
                        Err(err) => Err(err),
                        Ok(_) => spec_emit_times(*inner, v as nat, syms, ip),
                    }
                }
            },
        },
    }
}

/// The bytes `count` repetitions of one content emit, starting at `ip`.
pub open spec fn spec_emit_times(
    inner: LineContentView,
    count: nat,
    syms: Seq<SymbolView>,
    ip: int,
) -> Result<Seq<u8>, AsmError>
    decreases inner, count,
{
    if count == 0 {
        Ok(Seq::empty())
    } else {
        match spec_emit_content(inner, syms, ip) {
            Err(err) => Err(err),
            Ok(b) => {
                if ip + b.len() > 0x10000 {
                    Err(AsmError::ProgramTooLarge)
                } else {
                    match spec_emit_times(inner, (count - 1) as nat, syms, ip + b.len()) {
                        Err(err) => Err(err),
                        Ok(rest) => Ok(b + rest),
                    }
                }
            },
        }
    }
}

/// Emit the bytes of one line's content at address `ip`.
#[verifier::rlimit(100)]
#[verifier::spinoff_prover]
#[verifier::loop_isolation(false)]
pub fn emit_content(c: &LineContent, syms: &Vec<Symbol>, ip: u32) -> (r: Result<Vec<u8>, AsmError>)
    requires
        ip <= 0x10000,
    ensures
        ({
            match r {
                Ok(b) => spec_emit_content(line_content_view(*c), symbols_view(syms@), ip as int)
                    == Ok::<Seq<u8>, AsmError>(b@) && b@.len() <= 0x10000,
                Err(e) => spec_emit_content(line_content_view(*c), symbols_view(syms@), ip as int)
                    == Err::<Seq<u8>, AsmError>(e),
            }
        }),
    decreases *c,
{
    match c {
        LineContent::Empty => Ok(Vec::new()),
        LineContent::Constant(_, _) => Ok(Vec::new()),
        LineContent::Data(_, bytes) => {
            if bytes.len() > 0x10000 {
                Err(AsmError::ProgramTooLarge)
            } else {
                let b = bytes.clone();
                proof {
                    assert(b@ == bytes@);
                }
                Ok(b)
            }
        },
        LineContent::Instruction(i) => {
            let sz = match content_size(c, syms) {
                Err(err) => {
                    return Err(err);
                },
                Ok(sz) => sz,
            };
            if ip + sz > 0x10000 {
                Err(AsmError::ProgramTooLarge)
            } else {
                match assemble_instruction(i, syms, (ip + sz) as u16) {
                    Err(err) => Err(err),
                    Ok(mi) => {
                        proof {
                            lemma_encode_len(mi);
                        }
                        match crate::encode::encode_instruction(&mi) {
                            Ok(b) => Ok(b),
                            Err(e) => Err(AsmError::Encode(e)),
                        }
                    },
                }
            }
        },
        LineContent::Times(span, e, inner) => match eval(e, syms) {
            Err(err) => Err(err),
            Ok(v) => {
                if v < 0 {
                    Err(AsmError::ValueOutOfRange(*span))
                } else {
                    match content_size(&**inner, syms) {
                        Err(err) => {
                            return Err(err);
                        },
                        Ok(_) => {},
                    }
                    let ghost innerv = line_content_view(**inner);
                    let ghost sv = symbols_view(syms@);
                    let mut acc: Vec<u8> = Vec::new();
                    let mut remaining: u32 = v as u32;
                    proof {
                        assert(acc@ =~= Seq::<u8>::empty());
                    }
                    while remaining > 0
                        invariant
                            ip + acc@.len() <= 0x10000,
                            ({
                                match spec_emit_times(
                                    innerv,
                                    remaining as nat,
                                    sv,
                                    ip + acc@.len(),
                                ) {
                                    Ok(rest) => spec_emit_times(innerv, v as nat, sv, ip as int)
                                        == Ok::<Seq<u8>, AsmError>(acc@ + rest),
                                    Err(err) => spec_emit_times(innerv, v as nat, sv, ip as int)
                                        == Err::<Seq<u8>, AsmError>(err),
                                }
                            }),
                        decreases remaining,
                    {
                        proof {
                            assert(decreases_to!(*c => **inner));
                        }
                        match emit_content(&**inner, syms, ip + acc.len() as u32) {
                            Err(err) => {
                                return Err(err);
                            },
                            Ok(mut b) => {
                                if ip as usize + acc.len() + b.len() > 0x10000 {
                                    return Err(AsmError::ProgramTooLarge);
                                }
                                let ghost acc0 = acc@;
                                let ghost bb = b@;
                                acc.append(&mut b);
                                proof {
                                    assert(acc@ =~= acc0 + bb);
                                    if let Ok(rest2) = spec_emit_times(
                                        innerv,
                                        (remaining - 1) as nat,
                                        sv,
                                        ip + acc@.len(),
                                    ) {
                                        assert(acc0 + (bb + rest2) =~= acc@ + rest2);
                                    }
                                }
                            },
                        }
                        remaining = remaining - 1;
                    }
                    proof {
                        assert(acc@ + Seq::<u8>::empty() =~= acc@);
                    }
                    Ok(acc)
                }
            },
        },
    }
}

/// The emission pass from line `idx` on, `ip` bytes already emitted.
pub open spec fn spec_pass2_at(
    lines: Seq<LineView>,
    idx: int,
    ip: int,
    syms: Seq<SymbolView>,
) -> Result<Seq<u8>, AsmError>
    decreases lines.len() - idx,
    when 0 <= idx
{
    if idx >= lines.len() {
        Ok(Seq::empty())
    } else {
        match spec_emit_content(lines[idx].content, syms, ip) {
            Err(err) => Err(err),
            Ok(b) => {
                if ip + b.len() > 0x10000 {
                    Err(AsmError::ProgramTooLarge)
                } else {
                    match spec_pass2_at(lines, idx + 1, ip + b.len(), syms) {
                        Err(err) => Err(err),
                        Ok(rest) => Ok(b + rest),
                    }
                }
            },
        }
    }
}

/// The emission pass: resolve every expression against the completed
/// symbol table and emit the program's bytes.
pub open spec fn spec_pass2(lines: Seq<LineView>, syms: Seq<SymbolView>) -> Result<
    Seq<u8>,
    AsmError,
> {
    spec_pass2_at(lines, 0, 0, syms)
}

/// The emission pass.
pub fn pass2(lines: &Vec<Line>, syms: &Vec<Symbol>) -> (r: Result<Vec<u8>, AsmError>)
    ensures
        ({
            let lv = lines@.map_values(|l: Line| line_view(l));
            match r {
                Ok(b) => spec_pass2(lv, symbols_view(syms@)) == Ok::<Seq<u8>, AsmError>(b@),
                Err(e) => spec_pass2(lv, symbols_view(syms@)) == Err::<Seq<u8>, AsmError>(e),
            }
        }),
{
    let ghost lv = lines@.map_values(|l: Line| line_view(l));
    let ghost sv = symbols_view(syms@);
    let mut out: Vec<u8> = Vec::new();
    let mut idx: usize = 0;
    proof {
        assert(out@ =~= Seq::<u8>::empty());
    }
    loop
        invariant_except_break
            lv == lines@.map_values(|l: Line| line_view(l)),
            sv == symbols_view(syms@),
            idx <= lines@.len(),
            out@.len() <= 0x10000,
            ({
                match spec_pass2_at(lv, idx as int, out@.len() as int, sv) {
                    Ok(rest) => spec_pass2(lv, sv) == Ok::<Seq<u8>, AsmError>(out@ + rest),
                    Err(err) => spec_pass2(lv, sv) == Err::<Seq<u8>, AsmError>(err),
                }
            }),
        ensures
            spec_pass2(lv, sv) == Ok::<Seq<u8>, AsmError>(out@),
        decreases lines@.len() - idx,
    {
        if idx >= lines.len() {
            proof {
                assert(out@ + Seq::<u8>::empty() =~= out@);
            }
            break;
        }
        let line = &lines[idx];
        proof {
            assert(lv[idx as int] == line_view(lines@[idx as int]));
        }
        match emit_content(&line.content, syms, out.len() as u32) {
            Err(err) => {
                return Err(err);
            },
            Ok(mut b) => {
                if out.len() + b.len() > 0x10000 {
                    return Err(AsmError::ProgramTooLarge);
                }
                let ghost out0 = out@;
                let ghost bb = b@;
                out.append(&mut b);
                proof {
                    assert(out@ =~= out0 + bb);
                    if let Ok(rest2) = spec_pass2_at(lv, idx + 1, out@.len() as int, sv) {
                        assert(out0 + (bb + rest2) =~= out@ + rest2);
                    }
                }
            },
        }
        idx = idx + 1;
    }
    Ok(out)
}

/// What assembling a whole source text yields: the program bytes and the
/// symbol table, or the first error on the way there.
pub open spec fn spec_assemble(src: Seq<u8>) -> Result<(Seq<u8>, Seq<SymbolView>), AsmError> {
    if src.len() > crate::parse::MAX_SOURCE {
        Err(AsmError::ProgramTooLarge)
    } else {
        let (lines, fin) = crate::parse::spec_program(src, 0);
        if fin < src.len() {
            Err(AsmError::ParseError(fin as usize))
        } else {
            match spec_pass1(lines) {
                Err(err) => Err(err),
                Ok(syms) => match spec_pass2(lines, syms) {
                    Err(err) => Err(err),
                    Ok(bytes) => Ok((bytes, syms)),
                },
            }
        }
    }
}

/// Assemble a whole source text: parse it, lay it out, and emit its
/// bytes, pinned to `spec_assemble` error cases included.
pub fn assemble(source: &[u8]) -> (r: Result<(Vec<u8>, Vec<Symbol>), AsmError>)
    ensures
        ({
            match r {
                Ok((b, s)) => spec_assemble(source@) == Ok::<(Seq<u8>, Seq<SymbolView>), AsmError>(
                    (b@, symbols_view(s@)),
                ),
                Err(e) => spec_assemble(source@) == Err::<(Seq<u8>, Seq<SymbolView>), AsmError>(e),
            }
        }),
{
    if source.len() > crate::parse::MAX_SOURCE {
        return Err(AsmError::ProgramTooLarge);
    }
    let (lines, fin) = crate::parse::program(source, 0);
    if fin < source.len() {
        return Err(AsmError::ParseError(fin));
    }
    let syms = match pass1(&lines) {
        Err(err) => {
            return Err(err);
        },
        Ok(syms) => syms,
    };
    match pass2(&lines, &syms) {
        Err(err) => Err(err),
        Ok(bytes) => Ok((bytes, syms)),
    }
}

/// A non-jump instruction assembles the same way at every address: only
/// relative jumps read the address past the instruction.
proof fn lemma_assemble_ip_independent(
    i: crate::ast::InstructionView,
    syms: Seq<SymbolView>,
    a: u16,
    b: u16,
)
    requires
        spec_jump_size(i.operation) is None,
    ensures
        spec_assemble_instruction(i, syms, a) == spec_assemble_instruction(i, syms, b),
{
}

/// A relative jump that assembles encodes to exactly its fixed size.
proof fn lemma_jump_encoding_size(
    i: crate::ast::InstructionView,
    syms: Seq<SymbolView>,
    ip_after: u16,
    n: int,
)
    requires
        spec_jump_size(i.operation) == Some(n),
        spec_assemble_instruction(i, syms, ip_after) is Ok,
    ensures
        ({
            let mi = spec_assemble_instruction(i, syms, ip_after)->Ok_0;
            spec_encode_instruction(mi) matches Ok(b) && b.len() == n
        }),
{
}

/// Law: the two passes agree on layout.  Whatever one line's content
/// emits in the second pass is exactly as long as the size the first
/// pass counted for it, so every label offset bound during layout is the
/// true offset of its line in the emitted program.
pub proof fn lemma_passes_agree_on_layout(c: LineContentView, syms: Seq<SymbolView>, ip: int)
    requires
        0 <= ip,
        spec_emit_content(c, syms, ip) is Ok,
    ensures
        spec_content_size(c, syms) matches Ok(sz) && spec_emit_content(c, syms, ip)->Ok_0.len()
            == sz,
    decreases c, 0int,
{
    match c {
        LineContentView::Empty => {},
        LineContentView::Constant(_, _) => {},
        LineContentView::Data(_, _) => {},
        LineContentView::Instruction(i) => {
            let sz = spec_content_size(c, syms)->Ok_0;
            match spec_jump_size(i.operation) {
                Some(n) => {
                    lemma_jump_encoding_size(i, syms, (ip + sz) as u16, n);
                },
                None => {
                    lemma_assemble_ip_independent(i, syms, (ip + sz) as u16, 0);
                },
            }
        },
        LineContentView::Times(span, e, inner) => {
            match spec_eval(e, syms) {
                Ok(v) => {
                    if v >= 0 && spec_content_size(*inner, syms) is Ok {
                        lemma_times_agree_on_layout(*inner, v as nat, syms, ip);
                        let sz = spec_content_size(*inner, syms)->Ok_0;
                        if v > 0 {
                            assert(v * sz == spec_emit_times(
                                *inner,
                                v as nat,
                                syms,
                                ip,
                            )->Ok_0.len());
                            assert(ip + v * sz <= 0x10000);
                            assert(v * sz <= 0x10000) by (nonlinear_arith)
                                requires
                                    ip + v * sz <= 0x10000,
                                    0 <= ip,
                                    0 <= v * sz,
                            ;
                        } else {
                            assert(v * sz == 0) by (nonlinear_arith)
                                requires
                                    v == 0,
                            ;
                        }
                    }
                },
                Err(_) => {},
            }
        },
    }
}

/// Each repetition of a repeated content emits its counted size, so the
/// whole repeat emits count times that size.
proof fn lemma_times_agree_on_layout(
    inner: LineContentView,
    count: nat,
    syms: Seq<SymbolView>,
    ip: int,
)
    requires
        0 <= ip,
        spec_emit_times(inner, count, syms, ip) is Ok,
        spec_content_size(inner, syms) is Ok,
    ensures
        spec_emit_times(inner, count, syms, ip)->Ok_0.len() == count * spec_content_size(
            inner,
            syms,
        )->Ok_0,
        count > 0 ==> ip + spec_emit_times(inner, count, syms, ip)->Ok_0.len() <= 0x10000,
    decreases inner, count,
{
    if count > 0 {
        let b = spec_emit_content(inner, syms, ip)->Ok_0;
        let sz = spec_content_size(inner, syms)->Ok_0;
        lemma_passes_agree_on_layout(inner, syms, ip);
        assert(b.len() == sz);
        let rest = spec_emit_times(inner, (count - 1) as nat, syms, ip + b.len());
        lemma_times_agree_on_layout(inner, (count - 1) as nat, syms, ip + b.len());
        assert(rest->Ok_0.len() == (count - 1) * sz);
        assert(spec_emit_times(inner, count, syms, ip)->Ok_0 == b + rest->Ok_0);
        assert(sz + (count - 1) * sz == count * sz) by (nonlinear_arith);
        if count == 1 {
            assert(ip + b.len() <= 0x10000);
        }
    } else {
        assert(spec_emit_times(inner, count, syms, ip)->Ok_0 =~= Seq::<u8>::empty());
        assert(count * spec_content_size(inner, syms)->Ok_0 == 0) by (nonlinear_arith)
            requires
                count == 0,
        ;
    }
}

/// A name found in a table is still found, with the same value, after
/// more bindings are appended: the first binding wins.
proof fn lemma_lookup_extends(s1: Seq<SymbolView>, rest: Seq<SymbolView>, name: Seq<u8>)
    requires
        spec_lookup(s1, name) is Some,
    ensures
        spec_lookup(s1 + rest, name) == spec_lookup(s1, name),
    decreases s1.len(),
{
    assert(s1.len() > 0);
    assert((s1 + rest)[0] == s1[0]);
    if s1[0].name == name {
    } else {
        assert((s1 + rest).skip(1) =~= s1.skip(1) + rest);
        lemma_lookup_extends(s1.skip(1), rest, name);
    }
}

/// An expression that evaluates over a table evaluates to the same value
/// after more bindings are appended.
proof fn lemma_eval_extends(e: ExpressionView, s1: Seq<SymbolView>, rest: Seq<SymbolView>)
    requires
        spec_eval(e, s1) is Ok,
    ensures
        spec_eval(e, s1 + rest) == spec_eval(e, s1),
    decreases e,
{
    match e {
        ExpressionView::Term(span, v) => {
            match v {
                ValueView::Label(l) => {
                    lemma_lookup_extends(s1, rest, l.name);
                },
                _ => {},
            }
        },
        ExpressionView::PrefixOperator(_, _, inner) => {
            lemma_eval_extends(*inner, s1, rest);
        },
        ExpressionView::InfixOperator(_, _, l, r) => {
            lemma_eval_extends(*l, s1, rest);
            lemma_eval_extends(*r, s1, rest);
        },
    }
}

/// An operand that converts over a table converts the same way after
/// more bindings are appended.
proof fn lemma_convert_extends(o: OperandView, s1: Seq<SymbolView>, rest: Seq<SymbolView>)
    requires
        spec_convert_operand(o, s1) is Ok,
    ensures
        spec_convert_operand(o, s1 + rest) == spec_convert_operand(o, s1),
{
    match o {
        OperandView::Immediate(_, e) => {
            lemma_eval_extends(e, s1, rest);
        },
        _ => {},
    }
}

/// An instruction that assembles over a table assembles to the same
/// machine instruction after more bindings are appended.
proof fn lemma_assemble_extends(
    i: crate::ast::InstructionView,
    s1: Seq<SymbolView>,
    rest: Seq<SymbolView>,
    ip_after: u16,
)
    requires
        spec_assemble_instruction(i, s1, ip_after) is Ok,
    ensures
        spec_assemble_instruction(i, s1 + rest, ip_after) == spec_assemble_instruction(
            i,
            s1,
            ip_after,
        ),
{
    if spec_jump_size(i.operation) is Some {
        match i.operands {
            OperandsView::Destination(_, OperandView::Immediate(_, e)) => {
                lemma_eval_extends(e, s1, rest);
            },
            _ => {},
        }
    } else {
        match i.operands {
            OperandsView::Destination(_, o) => {
                lemma_convert_extends(o, s1, rest);
            },
            OperandsView::DestinationAndSource(_, d, s) => {
                lemma_convert_extends(d, s1, rest);
                if spec_convert_operand(d, s1) is Ok {
                    lemma_convert_extends(s, s1, rest);
                }
            },
            _ => {},
        }
    }
}

/// Law: layout sizes are stable under later bindings.  A line whose size
/// the layout pass could count keeps that size under every table that
/// extends the one it was counted against; with the per-line agreement
/// law, the emission pass therefore emits each line at exactly the
/// offset the layout pass gave it.
pub proof fn lemma_layout_size_stable(
    c: LineContentView,
    s1: Seq<SymbolView>,
    rest: Seq<SymbolView>,
)
    requires
        spec_content_size(c, s1) is Ok,
    ensures
        spec_content_size(c, s1 + rest) == spec_content_size(c, s1),
    decreases c,
{
    match c {
        LineContentView::Instruction(i) => {
            if spec_jump_size(i.operation) is None {
                lemma_assemble_extends(i, s1, rest, 0);
            }
        },
        LineContentView::Times(_, e, inner) => {
            lemma_eval_extends(e, s1, rest);
            if spec_eval(e, s1)->Ok_0 >= 0 {
                lemma_layout_size_stable(*inner, s1, rest);
            }
        },
        _ => {},
    }
}

} // verus!
