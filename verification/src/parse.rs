//! The source-text parser: bytes of assembler source to labeled lines.
//! Each parsing function is mirrored by a spec function over the input
//! bytes, and the executable parser is pinned to that mirror exactly.

use vstd::prelude::*;

use crate::ast::{
    label_view, lower, line_content_view, line_view, spec_data_size_from_name, spec_lower,
    spec_register_from_name, spec_segment_from_name, value_view, expression_view, operand_view,
    operands_view, instruction_view, ByteRegister, DataSize, Expression, ExpressionView,
    Instruction, InstructionView, Label, LabelView, Line, LineContent, LineContentView, LineView,
    Operand, OperandView, Operands, OperandsView, Operator, Register, Segment, Span, Value,
    ValueView, WordRegister,
};
use crate::x86::Operation;
use vstd::slice::slice_index_get;

verus! {

/// Whether a byte is a space, tab or carriage return.
pub open spec fn is_blank(b: u8) -> bool {
    b == 0x20 || b == 0x09 || b == 0x0D
}

/// Whether a byte is an ASCII letter or underscore.
pub open spec fn is_alpha(b: u8) -> bool {
    (0x41 <= b <= 0x5A) || (0x61 <= b <= 0x7A) || b == 0x5F
}

/// Whether a byte is an ASCII digit.
pub open spec fn is_digit(b: u8) -> bool {
    0x30 <= b <= 0x39
}

/// Whether a byte is a hexadecimal digit.
pub open spec fn is_hex_digit(b: u8) -> bool {
    is_digit(b) || (0x41 <= b <= 0x46) || (0x61 <= b <= 0x66)
}

/// The value of a hexadecimal digit.
pub open spec fn hex_value(b: u8) -> int
    recommends
        is_hex_digit(b),
{
    if is_digit(b) {
        b - 0x30
    } else if 0x41 <= b <= 0x46 {
        b - 0x41 + 10
    } else {
        b - 0x61 + 10
    }
}

/// A position clamped to never move backwards past `pos`.
pub open spec fn no_back(pos: int, q: int) -> int {
    if q >= pos {
        q
    } else {
        pos
    }
}

/// A position clamped to strictly advance past `pos`.
pub open spec fn bump(pos: int, q: int) -> int {
    if q > pos {
        q
    } else {
        pos + 1
    }
}

/// The position after the run of blanks and `;` comments at `pos`.
pub open spec fn spec_skip_blank(input: Seq<u8>, pos: int) -> int
    decreases input.len() - pos,
{
    if 0 <= pos < input.len() && is_blank(input[pos]) {
        spec_skip_blank(input, pos + 1)
    } else if 0 <= pos < input.len() && input[pos] == 0x3B {
        spec_skip_comment(input, pos + 1)
    } else {
        pos
    }
}

/// The rest of a `;` comment: everything up to a newline.
pub open spec fn spec_skip_comment(input: Seq<u8>, pos: int) -> int
    decreases input.len() - pos,
{
    if 0 <= pos < input.len() && input[pos] != 0x0A {
        spec_skip_comment(input, pos + 1)
    } else {
        pos
    }
}

/// Skip blanks and comments.
pub fn skip_blank(input: &[u8], pos: usize) -> (r: usize)
    requires
        pos <= input@.len(),
    ensures
        r == spec_skip_blank(input@, pos as int),
        pos <= r <= input@.len(),
    decreases input@.len() - pos,
{
    if pos < input.len() {
        let b = *slice_index_get(input, pos);
        if b == 0x20 || b == 0x09 || b == 0x0D {
            skip_blank(input, pos + 1)
        } else if b == 0x3B {
            skip_comment(input, pos + 1)
        } else {
            pos
        }
    } else {
        pos
    }
}

/// Skip to the end of a `;` comment.
fn skip_comment(input: &[u8], pos: usize) -> (r: usize)
    requires
        pos <= input@.len(),
    ensures
        r == spec_skip_comment(input@, pos as int),
        pos <= r <= input@.len(),
    decreases input@.len() - pos,
{
    if pos < input.len() && *slice_index_get(input, pos) != 0x0A {
        skip_comment(input, pos + 1)
    } else {
        pos
    }
}

/// The end of the identifier run starting at `pos`.
pub open spec fn spec_ident_end(input: Seq<u8>, pos: int) -> int
    decreases input.len() - pos,
{
    if 0 <= pos < input.len() && (is_alpha(input[pos]) || is_digit(input[pos])) {
        spec_ident_end(input, pos + 1)
    } else {
        pos
    }
}

/// The identifier at `pos`, if one starts there: the position after it.
pub open spec fn spec_identifier(input: Seq<u8>, pos: int) -> Option<int> {
    if 0 <= pos < input.len() && is_alpha(input[pos]) {
        Some(spec_ident_end(input, pos + 1))
    } else {
        None
    }
}

/// The end of an identifier run.
fn ident_end(input: &[u8], pos: usize) -> (r: usize)
    requires
        pos <= input@.len(),
    ensures
        r == spec_ident_end(input@, pos as int),
        pos <= r <= input@.len(),
    decreases input@.len() - pos,
{
    if pos < input.len() {
        let b = *slice_index_get(input, pos);
        if (0x41 <= b && b <= 0x5A) || (0x61 <= b && b <= 0x7A) || b == 0x5F || (0x30 <= b && b
            <= 0x39) {
            ident_end(input, pos + 1)
        } else {
            pos
        }
    } else {
        pos
    }
}

/// The identifier at `pos`: the position just past it.
pub fn identifier(input: &[u8], pos: usize) -> (r: Option<usize>)
    requires
        pos <= input@.len(),
    ensures
        ({
            match r {
                Some(end) => spec_identifier(input@, pos as int) == Some(end as int) && pos < end
                    <= input@.len(),
                None => spec_identifier(input@, pos as int) is None,
            }
        }),
{
    if pos < input.len() {
        let b = *slice_index_get(input, pos);
        if (0x41 <= b && b <= 0x5A) || (0x61 <= b && b <= 0x7A) || b == 0x5F {
            let end = ident_end(input, pos + 1);
            proof {
                lemma_ident_end_bounds(input@, pos + 1);
            }
            Some(end)
        } else {
            None
        }
    } else {
        None
    }
}

/// The identifier run never moves backwards and stays inside the input.
proof fn lemma_ident_end_bounds(input: Seq<u8>, pos: int)
    requires
        0 <= pos <= input.len(),
    ensures
        pos <= spec_ident_end(input, pos) <= input.len(),
    decreases input.len() - pos,
{
    if 0 <= pos < input.len() && (is_alpha(input[pos]) || is_digit(input[pos])) {
        lemma_ident_end_bounds(input, pos + 1);
    }
}

/// Decimal digits folded into a value, wrapping at 32 bits.
pub open spec fn spec_decimal_run(input: Seq<u8>, pos: int, acc: int) -> (int, int)
    decreases input.len() - pos,
{
    if 0 <= pos < input.len() && is_digit(input[pos]) {
        spec_decimal_run(input, pos + 1, (acc * 10 + (input[pos] - 0x30)) % 0x100000000)
    } else {
        (acc, pos)
    }
}

/// Hexadecimal digits folded into a value, wrapping at 32 bits.
pub open spec fn spec_hex_run(input: Seq<u8>, pos: int, acc: int) -> (int, int)
    decreases input.len() - pos,
{
    if 0 <= pos < input.len() && is_hex_digit(input[pos]) {
        spec_hex_run(input, pos + 1, (acc * 16 + hex_value(input[pos])) % 0x100000000)
    } else {
        (acc, pos)
    }
}

/// A 32-bit pattern reinterpreted as a signed constant.
pub open spec fn as_i32(v: int) -> i32
    recommends
        0 <= v < 0x100000000,
{
    if v < 0x80000000 {
        v as i32
    } else {
        (v - 0x100000000) as i32
    }
}

/// Fold decimal digits, wrapping at 32 bits.
fn decimal_run(input: &[u8], pos: usize, acc: u32) -> (r: (u32, usize))
    requires
        pos <= input@.len(),
    ensures
        (r.0 as int, r.1 as int) == spec_decimal_run(input@, pos as int, acc as int),
        pos <= r.1 <= input@.len(),
        pos < input@.len() && is_digit(input@[pos as int]) ==> r.1 > pos,
    decreases input@.len() - pos,
{
    if pos < input.len() {
        let b = *slice_index_get(input, pos);
        if 0x30 <= b && b <= 0x39 {
            let acc2 = ((acc as u64 * 10 + (b - 0x30) as u64) % 0x100000000) as u32;
            decimal_run(input, pos + 1, acc2)
        } else {
            (acc, pos)
        }
    } else {
        (acc, pos)
    }
}

/// Fold hexadecimal digits, wrapping at 32 bits.
fn hex_run(input: &[u8], pos: usize, acc: u32) -> (r: (u32, usize))
    requires
        pos <= input@.len(),
    ensures
        (r.0 as int, r.1 as int) == spec_hex_run(input@, pos as int, acc as int),
        pos <= r.1 <= input@.len(),
        pos < input@.len() && is_hex_digit(input@[pos as int]) ==> r.1 > pos,
    decreases input@.len() - pos,
{
    if pos < input.len() {
        let b = *slice_index_get(input, pos);
        if (0x30 <= b && b <= 0x39) || (0x41 <= b && b <= 0x46) || (0x61 <= b && b <= 0x66) {
            let d: u32 = if 0x30 <= b && b <= 0x39 {
                (b - 0x30) as u32
            } else if 0x41 <= b && b <= 0x46 {
                (b - 0x41 + 10) as u32
            } else {
                (b - 0x61 + 10) as u32
            };
            let acc2 = ((acc as u64 * 16 + d as u64) % 0x100000000) as u32;
            hex_run(input, pos + 1, acc2)
        } else {
            (acc, pos)
        }
    } else {
        (acc, pos)
    }
}

/// The number at `pos`, if one starts there: `0x` hexadecimal or plain
/// decimal, wrapping at 32 bits.
pub open spec fn spec_number(input: Seq<u8>, pos: int) -> Option<(i32, int)> {
    if 0 <= pos && pos + 2 < input.len() && input[pos] == 0x30 && (input[pos + 1] == 0x78
        || input[pos + 1] == 0x58) && is_hex_digit(input[pos + 2]) {
        let (v, end) = spec_hex_run(input, pos + 2, 0);
        Some((as_i32(v), end))
    } else if 0 <= pos < input.len() && is_digit(input[pos]) {
        let (v, end) = spec_decimal_run(input, pos, 0);
        Some((as_i32(v), end))
    } else {
        None
    }
}

/// Reinterpret a 32-bit pattern as a signed constant.
fn to_i32(v: u32) -> (r: i32)
    ensures
        r == as_i32(v as int),
{
    if v < 0x80000000 {
        v as i32
    } else {
        (v as i64 - 0x100000000i64) as i32
    }
}

/// The number at `pos`: `0x` hexadecimal or plain decimal.
pub fn number(input: &[u8], pos: usize) -> (r: Option<(i32, usize)>)
    requires
        pos <= input@.len(),
        input@.len() <= MAX_SOURCE,
    ensures
        ({
            match r {
                Some((v, p)) => spec_number(input@, pos as int) == Some((v, p as int)) && pos < p
                    <= input@.len(),
                None => spec_number(input@, pos as int) is None,
            }
        }),
{
    if pos + 2 < input.len() && *slice_index_get(input, pos) == 0x30 && (*slice_index_get(
        input,
        pos + 1,
    ) == 0x78 || *slice_index_get(input, pos + 1) == 0x58) {
        let b = *slice_index_get(input, pos + 2);
        if (0x30 <= b && b <= 0x39) || (0x41 <= b && b <= 0x46) || (0x61 <= b && b <= 0x66) {
            let (v, end) = hex_run(input, pos + 2, 0);
            return Some((to_i32(v), end));
        }
    }
    if pos < input.len() {
        let b = *slice_index_get(input, pos);
        if 0x30 <= b && b <= 0x39 {
            let (v, end) = decimal_run(input, pos, 0);
            return Some((to_i32(v), end));
        }
    }
    None
}

/// The largest source text the parser accepts, keeping every position
/// arithmetic comfortably inside the machine word.
pub const MAX_SOURCE: usize = 0x1000000;

/// The quoted character at `pos`, if one starts there.
pub open spec fn spec_char_lit(input: Seq<u8>, pos: int) -> Option<(i32, int)> {
    if 0 <= pos && pos + 2 < input.len() && input[pos] == 0x27 && input[pos + 2] == 0x27 {
        Some((input[pos + 1] as i32, pos + 3))
    } else {
        None
    }
}

/// The value at `pos`: a quoted character, a number, a register name, or
/// an identifier taken as a label reference.
pub open spec fn spec_value_or_label(input: Seq<u8>, pos: int) -> Option<(ValueView, int)> {
    match spec_char_lit(input, pos) {
        Some((c, end)) => Some((ValueView::Constant(c), end)),
        None => match spec_number(input, pos) {
            Some((v, end)) => Some((ValueView::Constant(v), end)),
            None => match spec_identifier(input, pos) {
                Some(end) => {
                    let name = input.subrange(pos, end);
                    match spec_register_from_name(name) {
                        Some(r) => Some((ValueView::Register(r), end)),
                        None => Some(
                            (
                                ValueView::Label(
                                    LabelView {
                                        span: Span { start: pos as usize, end: end as usize },
                                        name,
                                    },
                                ),
                                end,
                            ),
                        ),
                    }
                },
                None => None,
            },
        },
    }
}

/// Copy an identifier out of the input.
fn copy_range(input: &[u8], start: usize, end: usize) -> (r: Vec<u8>)
    requires
        start <= end <= input@.len(),
    ensures
        r@ == input@.subrange(start as int, end as int),
{
    let mut out: Vec<u8> = Vec::new();
    let mut i = start;
    while i < end
        invariant
            start <= i <= end <= input@.len(),
            out@ == input@.subrange(start as int, i as int),
        decreases end - i,
    {
        out.push(*slice_index_get(input, i));
        proof {
            assert(out@ =~= input@.subrange(start as int, i + 1));
        }
        i = i + 1;
    }
    out
}

/// The value at `pos`: a quoted character, a number, a register name, or
/// an identifier taken as a label reference.
pub fn value_or_label(input: &[u8], pos: usize) -> (r: Option<(Value, usize)>)
    requires
        pos <= input@.len(),
        input@.len() <= MAX_SOURCE,
    ensures
        ({
            match r {
                Some((v, p)) => spec_value_or_label(input@, pos as int) == Some(
                    (value_view(v), p as int),
                ) && pos < p <= input@.len(),
                None => spec_value_or_label(input@, pos as int) is None,
            }
        }),
{
    if pos + 2 < input.len() && *slice_index_get(input, pos) == 0x27 && *slice_index_get(
        input,
        pos + 2,
    ) == 0x27 {
        return Some((Value::Constant(*slice_index_get(input, pos + 1) as i32), pos + 3));
    }
    if let Some((v, end)) = number(input, pos) {
        return Some((Value::Constant(v), end));
    }
    match identifier(input, pos) {
        Some(end) => {
            let name = copy_range(input, pos, end);
            match Register::from_name(name.as_slice()) {
                Some(r) => Some((Value::Register(r), end)),
                None => Some(
                    (Value::Label(Label(Span { start: pos, end }, name)), end),
                ),
            }
        },
        None => None,
    }
}

/// The position a sub-parse advances to, clamped to move strictly
/// forward and stay inside the input.
pub open spec fn step_to(len: int, p: int, q: int) -> int {
    if p < q && q <= len {
        q
    } else if p + 1 <= len {
        p + 1
    } else {
        len
    }
}

/// An atom of the expression grammar: a sign-prefixed atom, a
/// parenthesised expression, or a plain value; blanks before it are
/// skipped.
pub open spec fn spec_parse_atom(input: Seq<u8>, pos: int) -> Option<(ExpressionView, int)>
    decreases input.len() - pos, 0int,
    when 0 <= pos <= input.len()
{
    let p = no_back(pos, spec_skip_blank(input, pos));
    if p < input.len() && (input[p] == 0x2B || input[p] == 0x2D) {
        let op = if input[p] == 0x2B {
            Operator::Add
        } else {
            Operator::Subtract
        };
        match spec_parse_atom(input, p + 1) {
            Some((inner, end)) => Some(
                (
                    ExpressionView::PrefixOperator(
                        Span { start: p as usize, end: inner.span_of().end },
                        op,
                        Box::new(inner),
                    ),
                    end,
                ),
            ),
            None => None,
        }
    } else if p < input.len() && input[p] == 0x28 {
        match spec_parse_add(input, p + 1) {
            Some((inner, end0)) => {
                let end = no_back(p + 1, end0);
                let q = no_back(end, spec_skip_blank(input, end));
                if q < input.len() && input[q] == 0x29 {
                    Some((inner, q + 1))
                } else {
                    None
                }
            },
            None => None,
        }
    } else {
        match spec_value_or_label(input, p) {
            Some((v, end)) => Some(
                (ExpressionView::Term(Span { start: p as usize, end: end as usize }, v), end),
            ),
            None => None,
        }
    }
}

/// The tail of a multiplicative chain: further `*` or `/` factors.
pub open spec fn spec_parse_mul_rest(input: Seq<u8>, left: ExpressionView, pos: int) -> Option<
    (ExpressionView, int),
>
    decreases input.len() - pos, 1int,
    when 0 <= pos <= input.len()
{
    let p = no_back(pos, spec_skip_blank(input, pos));
    if p < input.len() && (input[p] == 0x2A || input[p] == 0x2F) {
        let op = if input[p] == 0x2A {
            Operator::Multiply
        } else {
            Operator::Divide
        };
        match spec_parse_atom(input, p + 1) {
            Some((right, end0)) => {
                let node = ExpressionView::InfixOperator(
                    Span { start: left.span_of().start, end: right.span_of().end },
                    op,
                    Box::new(left),
                    Box::new(right),
                );
                spec_parse_mul_rest(input, node, step_to(input.len() as int, p, end0))
            },
            None => Some((left, pos)),
        }
    } else {
        Some((left, pos))
    }
}

/// A multiplicative chain of the expression grammar.
pub open spec fn spec_parse_mul(input: Seq<u8>, pos: int) -> Option<(ExpressionView, int)>
    decreases input.len() - pos, 2int,
    when 0 <= pos <= input.len()
{
    match spec_parse_atom(input, pos) {
        Some((left, end)) => spec_parse_mul_rest(
            input,
            left,
            step_to(input.len() as int, pos, end),
        ),
        None => None,
    }
}

/// The tail of an additive chain: further `+` or `-` terms.
pub open spec fn spec_parse_add_rest(input: Seq<u8>, left: ExpressionView, pos: int) -> Option<
    (ExpressionView, int),
>
    decreases input.len() - pos, 3int,
    when 0 <= pos <= input.len()
{
    let p = no_back(pos, spec_skip_blank(input, pos));
    if p < input.len() && (input[p] == 0x2B || input[p] == 0x2D) {
        let op = if input[p] == 0x2B {
            Operator::Add
        } else {
            Operator::Subtract
        };
        match spec_parse_mul(input, p + 1) {
            Some((right, end0)) => {
                let node = ExpressionView::InfixOperator(
                    Span { start: left.span_of().start, end: right.span_of().end },
                    op,
                    Box::new(left),
                    Box::new(right),
                );
                spec_parse_add_rest(input, node, step_to(input.len() as int, p, end0))
            },
            None => Some((left, pos)),
        }
    } else {
        Some((left, pos))
    }
}

/// An additive chain: the whole expression grammar.
pub open spec fn spec_parse_add(input: Seq<u8>, pos: int) -> Option<(ExpressionView, int)>
    decreases input.len() - pos, 4int,
    when 0 <= pos <= input.len()
{
    match spec_parse_mul(input, pos) {
        Some((left, end)) => spec_parse_add_rest(
            input,
            left,
            step_to(input.len() as int, pos, end),
        ),
        None => None,
    }
}

/// The span of an expression's ghost image is the span of the expression.
proof fn lemma_expr_span_view(e: Expression)
    ensures
        expression_view(e).span_of() == crate::ast::spec_expression_span(e),
{
    match e {
        Expression::PrefixOperator(_, _, _) => {},
        Expression::InfixOperator(_, _, _, _) => {},
        Expression::Term(_, _) => {},
    }
}

/// An atom of the expression grammar.
fn parse_atom(input: &[u8], pos: usize) -> (r: Option<(Expression, usize)>)
    requires
        pos <= input@.len(),
        input@.len() <= MAX_SOURCE,
    ensures
        ({
            match r {
                Some((e, p)) => spec_parse_atom(input@, pos as int) == Some(
                    (expression_view(e), p as int),
                ) && pos < p <= input@.len(),
                None => spec_parse_atom(input@, pos as int) is None,
            }
        }),
    decreases input@.len() - pos, 0int,
{
    let p = skip_blank(input, pos);
    if p < input.len() && (*slice_index_get(input, p) == 0x2B || *slice_index_get(input, p)
        == 0x2D) {
        let op = if *slice_index_get(input, p) == 0x2B {
            Operator::Add
        } else {
            Operator::Subtract
        };
        match parse_atom(input, p + 1) {
            Some((inner, end)) => {
                let span = Span { start: p, end: inner.span().end };
                proof {
                    lemma_expr_span_view(inner);
                }
                Some((Expression::PrefixOperator(span, op, Box::new(inner)), end))
            },
            None => None,
        }
    } else if p < input.len() && *slice_index_get(input, p) == 0x28 {
        match parse_expression(input, p + 1) {
            Some((inner, end)) => {
                let q = skip_blank(input, end);
                if q < input.len() && *slice_index_get(input, q) == 0x29 {
                    Some((inner, q + 1))
                } else {
                    None
                }
            },
            None => None,
        }
    } else {
        match value_or_label(input, p) {
            Some((v, end)) => Some(
                (Expression::Term(Span { start: p, end }, v), end),
            ),
            None => None,
        }
    }
}

/// The tail of a multiplicative chain.
fn parse_mul_rest(input: &[u8], left: Expression, pos: usize) -> (r: Option<(Expression, usize)>)
    requires
        pos <= input@.len(),
        input@.len() <= MAX_SOURCE,
    ensures
        ({
            match r {
                Some((e, p)) => spec_parse_mul_rest(input@, expression_view(left), pos as int)
                    == Some((expression_view(e), p as int)) && pos <= p <= input@.len(),
                None => spec_parse_mul_rest(input@, expression_view(left), pos as int) is None,
            }
        }),
    decreases input@.len() - pos, 1int,
{
    let p = skip_blank(input, pos);
    if p < input.len() && (*slice_index_get(input, p) == 0x2A || *slice_index_get(input, p)
        == 0x2F) {
        let op = if *slice_index_get(input, p) == 0x2A {
            Operator::Multiply
        } else {
            Operator::Divide
        };
        match parse_atom(input, p + 1) {
            Some((right, end)) => {
                let span = Span { start: left.span().start, end: right.span().end };
                proof {
                    lemma_expr_span_view(left);
                    lemma_expr_span_view(right);
                }
                let node = Expression::InfixOperator(span, op, Box::new(left), Box::new(right));
                parse_mul_rest(input, node, end)
            },
            None => Some((left, pos)),
        }
    } else {
        Some((left, pos))
    }
}

/// A multiplicative chain.
fn parse_mul(input: &[u8], pos: usize) -> (r: Option<(Expression, usize)>)
    requires
        pos <= input@.len(),
        input@.len() <= MAX_SOURCE,
    ensures
        ({
            match r {
                Some((e, p)) => spec_parse_mul(input@, pos as int) == Some(
                    (expression_view(e), p as int),
                ) && pos < p <= input@.len(),
                None => spec_parse_mul(input@, pos as int) is None,
            }
        }),
    decreases input@.len() - pos, 2int,
{
    match parse_atom(input, pos) {
        Some((left, end)) => parse_mul_rest(input, left, end),
        None => None,
    }
}

/// The tail of an additive chain.
fn parse_add_rest(input: &[u8], left: Expression, pos: usize) -> (r: Option<(Expression, usize)>)
    requires
        pos <= input@.len(),
        input@.len() <= MAX_SOURCE,
    ensures
        ({
            match r {
                Some((e, p)) => spec_parse_add_rest(input@, expression_view(left), pos as int)
                    == Some((expression_view(e), p as int)) && pos <= p <= input@.len(),
                None => spec_parse_add_rest(input@, expression_view(left), pos as int) is None,
            }
        }),
    decreases input@.len() - pos, 3int,
{
    let p = skip_blank(input, pos);
    if p < input.len() && (*slice_index_get(input, p) == 0x2B || *slice_index_get(input, p)
        == 0x2D) {
        let op = if *slice_index_get(input, p) == 0x2B {
            Operator::Add
        } else {
            Operator::Subtract
        };
        match parse_mul(input, p + 1) {
            Some((right, end)) => {
                let span = Span { start: left.span().start, end: right.span().end };
                proof {
                    lemma_expr_span_view(left);
                    lemma_expr_span_view(right);
                }
                let node = Expression::InfixOperator(span, op, Box::new(left), Box::new(right));
                parse_add_rest(input, node, end)
            },
            None => Some((left, pos)),
        }
    } else {
        Some((left, pos))
    }
}

/// A whole expression.
pub fn parse_expression(input: &[u8], pos: usize) -> (r: Option<(Expression, usize)>)
    requires
        pos <= input@.len(),
        input@.len() <= MAX_SOURCE,
    ensures
        ({
            match r {
                Some((e, p)) => spec_parse_add(input@, pos as int) == Some(
                    (expression_view(e), p as int),
                ) && pos < p <= input@.len(),
                None => spec_parse_add(input@, pos as int) is None,
            }
        }),
    decreases input@.len() - pos, 4int,
{
    match parse_mul(input, pos) {
        Some((left, end)) => parse_add_rest(input, left, end),
        None => None,
    }
}

/// Whether `s` spells the given 2 letters, case-insensitively.
pub open spec fn spec_name_is2(s: Seq<u8>, c0: u8, c1: u8) -> bool {
    s.len() == 2 && spec_lower(s[0]) == c0 && spec_lower(s[1]) == c1
}

/// Whether `s` spells the given 3 letters, case-insensitively.
pub open spec fn spec_name_is3(s: Seq<u8>, c0: u8, c1: u8, c2: u8) -> bool {
    s.len() == 3 && spec_lower(s[0]) == c0 && spec_lower(s[1]) == c1 && spec_lower(s[2]) == c2
}

/// Whether `s` spells the given 4 letters, case-insensitively.
pub open spec fn spec_name_is4(s: Seq<u8>, c0: u8, c1: u8, c2: u8, c3: u8) -> bool {
    s.len() == 4 && spec_lower(s[0]) == c0 && spec_lower(s[1]) == c1 && spec_lower(s[2]) == c2 && spec_lower(s[3]) == c3
}

/// Whether `s` spells the given 5 letters, case-insensitively.
pub open spec fn spec_name_is5(s: Seq<u8>, c0: u8, c1: u8, c2: u8, c3: u8, c4: u8) -> bool {
    s.len() == 5 && spec_lower(s[0]) == c0 && spec_lower(s[1]) == c1 && spec_lower(s[2]) == c2 && spec_lower(s[3]) == c3 && spec_lower(s[4]) == c4
}

/// Whether `s` spells the given 6 letters, case-insensitively.
pub open spec fn spec_name_is6(s: Seq<u8>, c0: u8, c1: u8, c2: u8, c3: u8, c4: u8, c5: u8) -> bool {
    s.len() == 6 && spec_lower(s[0]) == c0 && spec_lower(s[1]) == c1 && spec_lower(s[2]) == c2 && spec_lower(s[3]) == c3 && spec_lower(s[4]) == c4 && spec_lower(s[5]) == c5
}

/// Whether `s` spells the given 2 letters, case-insensitively.
fn name_is2(s: &[u8], c0: u8, c1: u8) -> (r: bool)
    ensures
        r == spec_name_is2(s@, c0, c1),
{
    s.len() == 2 && lower(*slice_index_get(s, 0)) == c0 && lower(*slice_index_get(s, 1)) == c1
}

/// Whether `s` spells the given 3 letters, case-insensitively.
fn name_is3(s: &[u8], c0: u8, c1: u8, c2: u8) -> (r: bool)
    ensures
        r == spec_name_is3(s@, c0, c1, c2),
{
    s.len() == 3 && lower(*slice_index_get(s, 0)) == c0 && lower(*slice_index_get(s, 1)) == c1 && lower(*slice_index_get(s, 2)) == c2
}

/// Whether `s` spells the given 4 letters, case-insensitively.
fn name_is4(s: &[u8], c0: u8, c1: u8, c2: u8, c3: u8) -> (r: bool)
    ensures
        r == spec_name_is4(s@, c0, c1, c2, c3),
{
    s.len() == 4 && lower(*slice_index_get(s, 0)) == c0 && lower(*slice_index_get(s, 1)) == c1 && lower(*slice_index_get(s, 2)) == c2 && lower(*slice_index_get(s, 3)) == c3
}

/// Whether `s` spells the given 5 letters, case-insensitively.
fn name_is5(s: &[u8], c0: u8, c1: u8, c2: u8, c3: u8, c4: u8) -> (r: bool)
    ensures
        r == spec_name_is5(s@, c0, c1, c2, c3, c4),
{
    s.len() == 5 && lower(*slice_index_get(s, 0)) == c0 && lower(*slice_index_get(s, 1)) == c1 && lower(*slice_index_get(s, 2)) == c2 && lower(*slice_index_get(s, 3)) == c3 && lower(*slice_index_get(s, 4)) == c4
}

/// Whether `s` spells the given 6 letters, case-insensitively.
fn name_is6(s: &[u8], c0: u8, c1: u8, c2: u8, c3: u8, c4: u8, c5: u8) -> (r: bool)
    ensures
        r == spec_name_is6(s@, c0, c1, c2, c3, c4, c5),
{
    s.len() == 6 && lower(*slice_index_get(s, 0)) == c0 && lower(*slice_index_get(s, 1)) == c1 && lower(*slice_index_get(s, 2)) == c2 && lower(*slice_index_get(s, 3)) == c3 && lower(*slice_index_get(s, 4)) == c4 && lower(*slice_index_get(s, 5)) == c5
}

/// The operation a mnemonic names, case-insensitively, if any.
pub open spec fn spec_operation_from_name(s: Seq<u8>) -> Option<Operation> {
    if spec_name_is3(s, 0x6d, 0x6f, 0x76) {
        Some(Operation::Mov)
    } else
    if spec_name_is4(s, 0x70, 0x75, 0x73, 0x68) {
        Some(Operation::Push)
    } else
    if spec_name_is3(s, 0x70, 0x6f, 0x70) {
        Some(Operation::Pop)
    } else
    if spec_name_is4(s, 0x78, 0x63, 0x68, 0x67) {
        Some(Operation::Xchg)
    } else
    if spec_name_is2(s, 0x69, 0x6e) {
        Some(Operation::In)
    } else
    if spec_name_is3(s, 0x6f, 0x75, 0x74) {
        Some(Operation::Out)
    } else
    if spec_name_is4(s, 0x78, 0x6c, 0x61, 0x74) {
        Some(Operation::Xlat)
    } else
    if spec_name_is3(s, 0x6c, 0x65, 0x61) {
        Some(Operation::Lea)
    } else
    if spec_name_is3(s, 0x6c, 0x64, 0x73) {
        Some(Operation::Lds)
    } else
    if spec_name_is3(s, 0x6c, 0x65, 0x73) {
        Some(Operation::Les)
    } else
    if spec_name_is4(s, 0x6c, 0x61, 0x68, 0x66) {
        Some(Operation::Lahf)
    } else
    if spec_name_is4(s, 0x73, 0x61, 0x68, 0x66) {
        Some(Operation::Sahf)
    } else
    if spec_name_is5(s, 0x70, 0x75, 0x73, 0x68, 0x66) {
        Some(Operation::Pushf)
    } else
    if spec_name_is4(s, 0x70, 0x6f, 0x70, 0x66) {
        Some(Operation::Popf)
    } else
    if spec_name_is3(s, 0x61, 0x64, 0x64) {
        Some(Operation::Add)
    } else
    if spec_name_is3(s, 0x61, 0x64, 0x63) {
        Some(Operation::Adc)
    } else
    if spec_name_is3(s, 0x69, 0x6e, 0x63) {
        Some(Operation::Inc)
    } else
    if spec_name_is3(s, 0x61, 0x61, 0x61) {
        Some(Operation::Aaa)
    } else
    if spec_name_is3(s, 0x62, 0x61, 0x61) {
        Some(Operation::Baa)
    } else
    if spec_name_is3(s, 0x73, 0x75, 0x62) {
        Some(Operation::Sub)
    } else
    if spec_name_is3(s, 0x73, 0x62, 0x62) {
        Some(Operation::Sbb)
    } else
    if spec_name_is3(s, 0x64, 0x65, 0x63) {
        Some(Operation::Dec)
    } else
    if spec_name_is3(s, 0x6e, 0x65, 0x67) {
        Some(Operation::Neg)
    } else
    if spec_name_is3(s, 0x63, 0x6d, 0x70) {
        Some(Operation::Cmp)
    } else
    if spec_name_is3(s, 0x61, 0x61, 0x73) {
        Some(Operation::Aas)
    } else
    if spec_name_is3(s, 0x64, 0x61, 0x73) {
        Some(Operation::Das)
    } else
    if spec_name_is3(s, 0x6d, 0x75, 0x6c) {
        Some(Operation::Mul)
    } else
    if spec_name_is4(s, 0x69, 0x6d, 0x75, 0x6c) {
        Some(Operation::Imul)
    } else
    if spec_name_is3(s, 0x61, 0x61, 0x6d) {
        Some(Operation::Aam)
    } else
    if spec_name_is3(s, 0x64, 0x69, 0x76) {
        Some(Operation::Div)
    } else
    if spec_name_is4(s, 0x69, 0x64, 0x69, 0x76) {
        Some(Operation::Idiv)
    } else
    if spec_name_is3(s, 0x61, 0x61, 0x64) {
        Some(Operation::Aad)
    } else
    if spec_name_is3(s, 0x63, 0x62, 0x77) {
        Some(Operation::Cbw)
    } else
    if spec_name_is3(s, 0x63, 0x77, 0x64) {
        Some(Operation::Cwd)
    } else
    if spec_name_is3(s, 0x6e, 0x6f, 0x74) {
        Some(Operation::Not)
    } else
    if spec_name_is3(s, 0x73, 0x68, 0x6c) {
        Some(Operation::Shl)
    } else
    if spec_name_is3(s, 0x73, 0x68, 0x72) {
        Some(Operation::Shr)
    } else
    if spec_name_is3(s, 0x73, 0x61, 0x72) {
        Some(Operation::Sar)
    } else
    if spec_name_is3(s, 0x72, 0x6f, 0x6c) {
        Some(Operation::Rol)
    } else
    if spec_name_is3(s, 0x72, 0x6f, 0x72) {
        Some(Operation::Ror)
    } else
    if spec_name_is3(s, 0x72, 0x63, 0x6c) {
        Some(Operation::Rcl)
    } else
    if spec_name_is3(s, 0x72, 0x63, 0x72) {
        Some(Operation::Rcr)
    } else
    if spec_name_is3(s, 0x61, 0x6e, 0x64) {
        Some(Operation::And)
    } else
    if spec_name_is4(s, 0x74, 0x65, 0x73, 0x74) {
        Some(Operation::Test)
    } else
    if spec_name_is2(s, 0x6f, 0x72) {
        Some(Operation::Or)
    } else
    if spec_name_is3(s, 0x78, 0x6f, 0x72) {
        Some(Operation::Xor)
    } else
    if spec_name_is5(s, 0x63, 0x6d, 0x70, 0x73, 0x62) {
        Some(Operation::Cmpsb)
    } else
    if spec_name_is5(s, 0x63, 0x6d, 0x70, 0x73, 0x77) {
        Some(Operation::Cmpsw)
    } else
    if spec_name_is5(s, 0x6c, 0x6f, 0x64, 0x73, 0x62) {
        Some(Operation::Lodsb)
    } else
    if spec_name_is5(s, 0x6c, 0x6f, 0x64, 0x73, 0x77) {
        Some(Operation::Lodsw)
    } else
    if spec_name_is5(s, 0x6d, 0x6f, 0x76, 0x73, 0x62) {
        Some(Operation::Movsb)
    } else
    if spec_name_is5(s, 0x6d, 0x6f, 0x76, 0x73, 0x77) {
        Some(Operation::Movsw)
    } else
    if spec_name_is5(s, 0x73, 0x63, 0x61, 0x73, 0x62) {
        Some(Operation::Scasb)
    } else
    if spec_name_is5(s, 0x73, 0x63, 0x61, 0x73, 0x77) {
        Some(Operation::Scasw)
    } else
    if spec_name_is5(s, 0x73, 0x74, 0x6f, 0x73, 0x62) {
        Some(Operation::Stosb)
    } else
    if spec_name_is5(s, 0x73, 0x74, 0x6f, 0x73, 0x77) {
        Some(Operation::Stosw)
    } else
    if spec_name_is4(s, 0x63, 0x61, 0x6c, 0x6c) {
        Some(Operation::Call)
    } else
    if spec_name_is3(s, 0x6a, 0x6d, 0x70) {
        Some(Operation::Jmp)
    } else
    if spec_name_is3(s, 0x72, 0x65, 0x74) {
        Some(Operation::Ret)
    } else
    if spec_name_is2(s, 0x6a, 0x65) {
        Some(Operation::Je)
    } else
    if spec_name_is2(s, 0x6a, 0x6c) {
        Some(Operation::Jl)
    } else
    if spec_name_is3(s, 0x6a, 0x6c, 0x65) {
        Some(Operation::Jle)
    } else
    if spec_name_is2(s, 0x6a, 0x62) {
        Some(Operation::Jb)
    } else
    if spec_name_is3(s, 0x6a, 0x62, 0x65) {
        Some(Operation::Jbe)
    } else
    if spec_name_is2(s, 0x6a, 0x70) {
        Some(Operation::Jp)
    } else
    if spec_name_is2(s, 0x6a, 0x6f) {
        Some(Operation::Jo)
    } else
    if spec_name_is2(s, 0x6a, 0x73) {
        Some(Operation::Js)
    } else
    if spec_name_is3(s, 0x6a, 0x6e, 0x65) {
        Some(Operation::Jne)
    } else
    if spec_name_is3(s, 0x6a, 0x6e, 0x6c) {
        Some(Operation::Jnl)
    } else
    if spec_name_is4(s, 0x6a, 0x6e, 0x6c, 0x65) {
        Some(Operation::Jnle)
    } else
    if spec_name_is3(s, 0x6a, 0x6e, 0x62) {
        Some(Operation::Jnb)
    } else
    if spec_name_is4(s, 0x6a, 0x6e, 0x62, 0x65) {
        Some(Operation::Jnbe)
    } else
    if spec_name_is3(s, 0x6a, 0x6e, 0x70) {
        Some(Operation::Jnp)
    } else
    if spec_name_is3(s, 0x6a, 0x6e, 0x6f) {
        Some(Operation::Jno)
    } else
    if spec_name_is3(s, 0x6a, 0x6e, 0x73) {
        Some(Operation::Jns)
    } else
    if spec_name_is4(s, 0x6c, 0x6f, 0x6f, 0x70) {
        Some(Operation::Loop)
    } else
    if spec_name_is5(s, 0x6c, 0x6f, 0x6f, 0x70, 0x7a) {
        Some(Operation::Loopz)
    } else
    if spec_name_is6(s, 0x6c, 0x6f, 0x6f, 0x70, 0x6e, 0x7a) {
        Some(Operation::Loopnz)
    } else
    if spec_name_is4(s, 0x6a, 0x63, 0x78, 0x7a) {
        Some(Operation::Jcxz)
    } else
    if spec_name_is3(s, 0x69, 0x6e, 0x74) {
        Some(Operation::Int)
    } else
    if spec_name_is4(s, 0x69, 0x6e, 0x74, 0x6f) {
        Some(Operation::Into)
    } else
    if spec_name_is4(s, 0x69, 0x72, 0x65, 0x74) {
        Some(Operation::IRet)
    } else
    if spec_name_is3(s, 0x63, 0x6c, 0x63) {
        Some(Operation::Clc)
    } else
    if spec_name_is3(s, 0x63, 0x6d, 0x63) {
        Some(Operation::Cmc)
    } else
    if spec_name_is3(s, 0x73, 0x74, 0x63) {
        Some(Operation::Stc)
    } else
    if spec_name_is3(s, 0x63, 0x6c, 0x64) {
        Some(Operation::Cld)
    } else
    if spec_name_is3(s, 0x73, 0x74, 0x64) {
        Some(Operation::Std)
    } else
    if spec_name_is3(s, 0x63, 0x6c, 0x69) {
        Some(Operation::Cli)
    } else
    if spec_name_is3(s, 0x73, 0x74, 0x69) {
        Some(Operation::Sti)
    } else
    if spec_name_is3(s, 0x68, 0x6c, 0x74) {
        Some(Operation::Hlt)
    } else
    if spec_name_is4(s, 0x77, 0x61, 0x69, 0x74) {
        Some(Operation::Wait)
    } else
    if spec_name_is3(s, 0x65, 0x73, 0x63) {
        Some(Operation::Esc)
    } else
    if spec_name_is4(s, 0x6c, 0x6f, 0x63, 0x6b) {
        Some(Operation::Lock)
    } else {
        None
    }
}

/// The operation a mnemonic names, case-insensitively.
pub fn operation_from_name(s: &[u8]) -> (r: Option<Operation>)
    ensures
        r == spec_operation_from_name(s@),
{
    if name_is3(s, 0x6d, 0x6f, 0x76) {
        return Some(Operation::Mov);
    }
    if name_is4(s, 0x70, 0x75, 0x73, 0x68) {
        return Some(Operation::Push);
    }
    if name_is3(s, 0x70, 0x6f, 0x70) {
        return Some(Operation::Pop);
    }
    if name_is4(s, 0x78, 0x63, 0x68, 0x67) {
        return Some(Operation::Xchg);
    }
    if name_is2(s, 0x69, 0x6e) {
        return Some(Operation::In);
    }
    if name_is3(s, 0x6f, 0x75, 0x74) {
        return Some(Operation::Out);
    }
    if name_is4(s, 0x78, 0x6c, 0x61, 0x74) {
        return Some(Operation::Xlat);
    }
    if name_is3(s, 0x6c, 0x65, 0x61) {
        return Some(Operation::Lea);
    }
    if name_is3(s, 0x6c, 0x64, 0x73) {
        return Some(Operation::Lds);
    }
    if name_is3(s, 0x6c, 0x65, 0x73) {
        return Some(Operation::Les);
    }
    if name_is4(s, 0x6c, 0x61, 0x68, 0x66) {
        return Some(Operation::Lahf);
    }
    if name_is4(s, 0x73, 0x61, 0x68, 0x66) {
        return Some(Operation::Sahf);
    }
    if name_is5(s, 0x70, 0x75, 0x73, 0x68, 0x66) {
        return Some(Operation::Pushf);
    }
    if name_is4(s, 0x70, 0x6f, 0x70, 0x66) {
        return Some(Operation::Popf);
    }
    if name_is3(s, 0x61, 0x64, 0x64) {
        return Some(Operation::Add);
    }
    if name_is3(s, 0x61, 0x64, 0x63) {
        return Some(Operation::Adc);
    }
    if name_is3(s, 0x69, 0x6e, 0x63) {
        return Some(Operation::Inc);
    }
    if name_is3(s, 0x61, 0x61, 0x61) {
        return Some(Operation::Aaa);
    }
    if name_is3(s, 0x62, 0x61, 0x61) {
        return Some(Operation::Baa);
    }
    if name_is3(s, 0x73, 0x75, 0x62) {
        return Some(Operation::Sub);
    }
    if name_is3(s, 0x73, 0x62, 0x62) {
        return Some(Operation::Sbb);
    }
    if name_is3(s, 0x64, 0x65, 0x63) {
        return Some(Operation::Dec);
    }
    if name_is3(s, 0x6e, 0x65, 0x67) {
        return Some(Operation::Neg);
    }
    if name_is3(s, 0x63, 0x6d, 0x70) {
        return Some(Operation::Cmp);
    }
    if name_is3(s, 0x61, 0x61, 0x73) {
        return Some(Operation::Aas);
    }
    if name_is3(s, 0x64, 0x61, 0x73) {
        return Some(Operation::Das);
    }
    if name_is3(s, 0x6d, 0x75, 0x6c) {
        return Some(Operation::Mul);
    }
    if name_is4(s, 0x69, 0x6d, 0x75, 0x6c) {
        return Some(Operation::Imul);
    }
    if name_is3(s, 0x61, 0x61, 0x6d) {
        return Some(Operation::Aam);
    }
    if name_is3(s, 0x64, 0x69, 0x76) {
        return Some(Operation::Div);
    }
    if name_is4(s, 0x69, 0x64, 0x69, 0x76) {
        return Some(Operation::Idiv);
    }
    if name_is3(s, 0x61, 0x61, 0x64) {
        return Some(Operation::Aad);
    }
    if name_is3(s, 0x63, 0x62, 0x77) {
        return Some(Operation::Cbw);
    }
    if name_is3(s, 0x63, 0x77, 0x64) {
        return Some(Operation::Cwd);
    }
    if name_is3(s, 0x6e, 0x6f, 0x74) {
        return Some(Operation::Not);
    }
    if name_is3(s, 0x73, 0x68, 0x6c) {
        return Some(Operation::Shl);
    }
    if name_is3(s, 0x73, 0x68, 0x72) {
        return Some(Operation::Shr);
    }
    if name_is3(s, 0x73, 0x61, 0x72) {
        return Some(Operation::Sar);
    }
    if name_is3(s, 0x72, 0x6f, 0x6c) {
        return Some(Operation::Rol);
    }
    if name_is3(s, 0x72, 0x6f, 0x72) {
        return Some(Operation::Ror);
    }
    if name_is3(s, 0x72, 0x63, 0x6c) {
        return Some(Operation::Rcl);
    }
    if name_is3(s, 0x72, 0x63, 0x72) {
        return Some(Operation::Rcr);
    }
    if name_is3(s, 0x61, 0x6e, 0x64) {
        return Some(Operation::And);
    }
    if name_is4(s, 0x74, 0x65, 0x73, 0x74) {
        return Some(Operation::Test);
    }
    if name_is2(s, 0x6f, 0x72) {
        return Some(Operation::Or);
    }
    if name_is3(s, 0x78, 0x6f, 0x72) {
        return Some(Operation::Xor);
    }
    if name_is5(s, 0x63, 0x6d, 0x70, 0x73, 0x62) {
        return Some(Operation::Cmpsb);
    }
    if name_is5(s, 0x63, 0x6d, 0x70, 0x73, 0x77) {
        return Some(Operation::Cmpsw);
    }
    if name_is5(s, 0x6c, 0x6f, 0x64, 0x73, 0x62) {
        return Some(Operation::Lodsb);
    }
    if name_is5(s, 0x6c, 0x6f, 0x64, 0x73, 0x77) {
        return Some(Operation::Lodsw);
    }
    if name_is5(s, 0x6d, 0x6f, 0x76, 0x73, 0x62) {
        return Some(Operation::Movsb);
    }
    if name_is5(s, 0x6d, 0x6f, 0x76, 0x73, 0x77) {
        return Some(Operation::Movsw);
    }
    if name_is5(s, 0x73, 0x63, 0x61, 0x73, 0x62) {
        return Some(Operation::Scasb);
    }
    if name_is5(s, 0x73, 0x63, 0x61, 0x73, 0x77) {
        return Some(Operation::Scasw);
    }
    if name_is5(s, 0x73, 0x74, 0x6f, 0x73, 0x62) {
        return Some(Operation::Stosb);
    }
    if name_is5(s, 0x73, 0x74, 0x6f, 0x73, 0x77) {
        return Some(Operation::Stosw);
    }
    if name_is4(s, 0x63, 0x61, 0x6c, 0x6c) {
        return Some(Operation::Call);
    }
    if name_is3(s, 0x6a, 0x6d, 0x70) {
        return Some(Operation::Jmp);
    }
    if name_is3(s, 0x72, 0x65, 0x74) {
        return Some(Operation::Ret);
    }
    if name_is2(s, 0x6a, 0x65) {
        return Some(Operation::Je);
    }
    if name_is2(s, 0x6a, 0x6c) {
        return Some(Operation::Jl);
    }
    if name_is3(s, 0x6a, 0x6c, 0x65) {
        return Some(Operation::Jle);
    }
    if name_is2(s, 0x6a, 0x62) {
        return Some(Operation::Jb);
    }
    if name_is3(s, 0x6a, 0x62, 0x65) {
        return Some(Operation::Jbe);
    }
    if name_is2(s, 0x6a, 0x70) {
        return Some(Operation::Jp);
    }
    if name_is2(s, 0x6a, 0x6f) {
        return Some(Operation::Jo);
    }
    if name_is2(s, 0x6a, 0x73) {
        return Some(Operation::Js);
    }
    if name_is3(s, 0x6a, 0x6e, 0x65) {
        return Some(Operation::Jne);
    }
    if name_is3(s, 0x6a, 0x6e, 0x6c) {
        return Some(Operation::Jnl);
    }
    if name_is4(s, 0x6a, 0x6e, 0x6c, 0x65) {
        return Some(Operation::Jnle);
    }
    if name_is3(s, 0x6a, 0x6e, 0x62) {
        return Some(Operation::Jnb);
    }
    if name_is4(s, 0x6a, 0x6e, 0x62, 0x65) {
        return Some(Operation::Jnbe);
    }
    if name_is3(s, 0x6a, 0x6e, 0x70) {
        return Some(Operation::Jnp);
    }
    if name_is3(s, 0x6a, 0x6e, 0x6f) {
        return Some(Operation::Jno);
    }
    if name_is3(s, 0x6a, 0x6e, 0x73) {
        return Some(Operation::Jns);
    }
    if name_is4(s, 0x6c, 0x6f, 0x6f, 0x70) {
        return Some(Operation::Loop);
    }
    if name_is5(s, 0x6c, 0x6f, 0x6f, 0x70, 0x7a) {
        return Some(Operation::Loopz);
    }
    if name_is6(s, 0x6c, 0x6f, 0x6f, 0x70, 0x6e, 0x7a) {
        return Some(Operation::Loopnz);
    }
    if name_is4(s, 0x6a, 0x63, 0x78, 0x7a) {
        return Some(Operation::Jcxz);
    }
    if name_is3(s, 0x69, 0x6e, 0x74) {
        return Some(Operation::Int);
    }
    if name_is4(s, 0x69, 0x6e, 0x74, 0x6f) {
        return Some(Operation::Into);
    }
    if name_is4(s, 0x69, 0x72, 0x65, 0x74) {
        return Some(Operation::IRet);
    }
    if name_is3(s, 0x63, 0x6c, 0x63) {
        return Some(Operation::Clc);
    }
    if name_is3(s, 0x63, 0x6d, 0x63) {
        return Some(Operation::Cmc);
    }
    if name_is3(s, 0x73, 0x74, 0x63) {
        return Some(Operation::Stc);
    }
    if name_is3(s, 0x63, 0x6c, 0x64) {
        return Some(Operation::Cld);
    }
    if name_is3(s, 0x73, 0x74, 0x64) {
        return Some(Operation::Std);
    }
    if name_is3(s, 0x63, 0x6c, 0x69) {
        return Some(Operation::Cli);
    }
    if name_is3(s, 0x73, 0x74, 0x69) {
        return Some(Operation::Sti);
    }
    if name_is3(s, 0x68, 0x6c, 0x74) {
        return Some(Operation::Hlt);
    }
    if name_is4(s, 0x77, 0x61, 0x69, 0x74) {
        return Some(Operation::Wait);
    }
    if name_is3(s, 0x65, 0x73, 0x63) {
        return Some(Operation::Esc);
    }
    if name_is4(s, 0x6c, 0x6f, 0x63, 0x6b) {
        return Some(Operation::Lock);
    }
    None
}

/// The register operand at `pos`, if an identifier naming a register
/// starts there.
pub open spec fn spec_register_operand(input: Seq<u8>, pos: int) -> Option<(OperandView, int)> {
    match spec_identifier(input, pos) {
        Some(end) => match spec_register_from_name(input.subrange(pos, end)) {
            Some(r) => Some(
                (
                    OperandView::Register(Span { start: pos as usize, end: end as usize }, r),
                    end,
                ),
            ),
            None => None,
        },
        None => None,
    }
}

/// The register operand at `pos`.
pub fn register_operand(input: &[u8], pos: usize) -> (r: Option<(Operand, usize)>)
    requires
        pos <= input@.len(),
        input@.len() <= MAX_SOURCE,
    ensures
        ({
            match r {
                Some((o, p)) => spec_register_operand(input@, pos as int) == Some(
                    (operand_view(o), p as int),
                ) && pos < p <= input@.len(),
                None => spec_register_operand(input@, pos as int) is None,
            }
        }),
{
    match identifier(input, pos) {
        Some(end) => {
            let name = copy_range(input, pos, end);
            match Register::from_name(name.as_slice()) {
                Some(reg) => Some((Operand::Register(Span { start: pos, end }, reg), end)),
                None => None,
            }
        },
        None => None,
    }
}

/// The segment-register operand at `pos`, if an identifier naming one
/// starts there.
pub open spec fn spec_segment_operand(input: Seq<u8>, pos: int) -> Option<(OperandView, int)> {
    match spec_identifier(input, pos) {
        Some(end) => match spec_segment_from_name(input.subrange(pos, end)) {
            Some(s) => Some(
                (OperandView::Segment(Span { start: pos as usize, end: end as usize }, s), end),
            ),
            None => None,
        },
        None => None,
    }
}

/// The segment-register operand at `pos`.
pub fn segment_operand(input: &[u8], pos: usize) -> (r: Option<(Operand, usize)>)
    requires
        pos <= input@.len(),
        input@.len() <= MAX_SOURCE,
    ensures
        ({
            match r {
                Some((o, p)) => spec_segment_operand(input@, pos as int) == Some(
                    (operand_view(o), p as int),
                ) && pos < p <= input@.len(),
                None => spec_segment_operand(input@, pos as int) is None,
            }
        }),
{
    match identifier(input, pos) {
        Some(end) => {
            let name = copy_range(input, pos, end);
            match Segment::from_name(name.as_slice()) {
                Some(seg) => Some((Operand::Segment(Span { start: pos, end }, seg), end)),
                None => None,
            }
        },
        None => None,
    }
}

/// The immediate operand at `pos`: any expression.
pub open spec fn spec_immediate_operand(input: Seq<u8>, pos: int) -> Option<(OperandView, int)> {
    match spec_parse_add(input, pos) {
        Some((e, end)) => Some((OperandView::Immediate(e.span_of(), e), end)),
        None => None,
    }
}

/// The immediate operand at `pos`.
pub fn immediate_operand(input: &[u8], pos: usize) -> (r: Option<(Operand, usize)>)
    requires
        pos <= input@.len(),
        input@.len() <= MAX_SOURCE,
    ensures
        ({
            match r {
                Some((o, p)) => spec_immediate_operand(input@, pos as int) == Some(
                    (operand_view(o), p as int),
                ) && pos < p <= input@.len(),
                None => spec_immediate_operand(input@, pos as int) is None,
            }
        }),
{
    match parse_expression(input, pos) {
        Some((e, end)) => {
            let span = e.span();
            proof {
                lemma_expr_span_view(e);
            }
            Some((Operand::Immediate(span, e), end))
        },
        None => None,
    }
}

/// The explicit operand width at `pos`, if the identifier `byte` or
/// `word` starts there.
pub open spec fn spec_operand_size(input: Seq<u8>, pos: int) -> Option<(DataSize, int)> {
    match spec_identifier(input, pos) {
        Some(end) => match spec_data_size_from_name(input.subrange(pos, end)) {
            Some(ds) => Some((ds, end)),
            None => None,
        },
        None => None,
    }
}

/// The explicit operand width at `pos`.
pub fn operand_size(input: &[u8], pos: usize) -> (r: Option<(DataSize, usize)>)
    requires
        pos <= input@.len(),
        input@.len() <= MAX_SOURCE,
    ensures
        ({
            match r {
                Some((ds, p)) => spec_operand_size(input@, pos as int) == Some((ds, p as int))
                    && pos < p <= input@.len(),
                None => spec_operand_size(input@, pos as int) is None,
            }
        }),
{
    match identifier(input, pos) {
        Some(end) => {
            let name = copy_range(input, pos, end);
            match DataSize::from_name(name.as_slice()) {
                Some(ds) => Some((ds, end)),
                None => None,
            }
        },
        None => None,
    }
}

/// The bracket interior of an address operand: any expression; register
/// combinations such as `bx+si` read as register terms of it.
pub fn direct_or_indirect(input: &[u8], pos: usize) -> (r: Option<(Expression, usize)>)
    requires
        pos <= input@.len(),
        input@.len() <= MAX_SOURCE,
    ensures
        ({
            match r {
                Some((e, p)) => spec_parse_add(input@, pos as int) == Some(
                    (expression_view(e), p as int),
                ) && pos < p <= input@.len(),
                None => spec_parse_add(input@, pos as int) is None,
            }
        }),
{
    parse_expression(input, pos)
}

/// The address operand at `pos`: an optional width, an optional segment
/// override, and a bracketed expression.
pub open spec fn spec_address_operand(input: Seq<u8>, pos: int) -> Option<(OperandView, int)> {
    let (size, p1) = match spec_operand_size(input, pos) {
        Some((ds, e)) => (Some(ds), no_back(pos, no_back(e, spec_skip_blank(input, e)))),
        None => (None, pos),
    };
    let (seg, p2) = match spec_identifier(input, p1) {
        Some(e2) => {
            if e2 < input.len() && input[e2] == 0x3A {
                match spec_segment_from_name(input.subrange(p1, e2)) {
                    Some(s) => (
                        Some(s),
                        no_back(p1, no_back(e2 + 1, spec_skip_blank(input, e2 + 1))),
                    ),
                    None => (None, p1),
                }
            } else {
                (None, p1)
            }
        },
        None => (None, p1),
    };
    if 0 <= p2 && p2 < input.len() && input[p2] == 0x5B && p2 + 1 <= input.len() {
        match spec_parse_add(input, p2 + 1) {
            Some((e, end0)) => {
                let end = no_back(p2 + 1, end0);
                let q = no_back(end, spec_skip_blank(input, end));
                if q < input.len() && input[q] == 0x5D {
                    Some(
                        (
                            OperandView::Address(
                                Span { start: pos as usize, end: (q + 1) as usize },
                                e,
                                size,
                                seg,
                            ),
                            q + 1,
                        ),
                    )
                } else {
                    None
                }
            },
            None => None,
        }
    } else {
        None
    }
}

/// The address operand at `pos`.
pub fn direct_or_indirect_operand(input: &[u8], pos: usize) -> (r: Option<(Operand, usize)>)
    requires
        pos <= input@.len(),
        input@.len() <= MAX_SOURCE,
    ensures
        ({
            match r {
                Some((o, p)) => spec_address_operand(input@, pos as int) == Some(
                    (operand_view(o), p as int),
                ) && pos < p <= input@.len(),
                None => spec_address_operand(input@, pos as int) is None,
            }
        }),
{
    let (size, p1) = match operand_size(input, pos) {
        Some((ds, e)) => (Some(ds), skip_blank(input, e)),
        None => (None, pos),
    };
    let (seg, p2) = match identifier(input, p1) {
        Some(e2) => {
            if e2 < input.len() && *slice_index_get(input, e2) == 0x3A {
                let name = copy_range(input, p1, e2);
                match Segment::from_name(name.as_slice()) {
                    Some(s) => (Some(s), skip_blank(input, e2 + 1)),
                    None => (None, p1),
                }
            } else {
                (None, p1)
            }
        },
        None => (None, p1),
    };
    if p2 < input.len() && *slice_index_get(input, p2) == 0x5B {
        match parse_expression(input, p2 + 1) {
            Some((e, end)) => {
                let q = skip_blank(input, end);
                if q < input.len() && *slice_index_get(input, q) == 0x5D {
                    proof {
                        lemma_expr_span_view(e);
                    }
                    Some((Operand::Address(Span { start: pos, end: q + 1 }, e, size, seg), q + 1))
                } else {
                    None
                }
            },
            None => None,
        }
    } else {
        None
    }
}

/// One operand: an address, a register, a segment register, or an
/// immediate expression, tried in that order.
pub open spec fn spec_operand(input: Seq<u8>, pos: int) -> Option<(OperandView, int)> {
    match spec_address_operand(input, pos) {
        Some(r) => Some(r),
        None => match spec_register_operand(input, pos) {
            Some(r) => Some(r),
            None => match spec_segment_operand(input, pos) {
                Some(r) => Some(r),
                None => spec_immediate_operand(input, pos),
            },
        },
    }
}

/// One operand.
pub fn operand(input: &[u8], pos: usize) -> (r: Option<(Operand, usize)>)
    requires
        pos <= input@.len(),
        input@.len() <= MAX_SOURCE,
    ensures
        ({
            match r {
                Some((o, p)) => spec_operand(input@, pos as int) == Some(
                    (operand_view(o), p as int),
                ) && pos < p <= input@.len(),
                None => spec_operand(input@, pos as int) is None,
            }
        }),
{
    if let Some(r) = direct_or_indirect_operand(input, pos) {
        return Some(r);
    }
    if let Some(r) = register_operand(input, pos) {
        return Some(r);
    }
    if let Some(r) = segment_operand(input, pos) {
        return Some(r);
    }
    immediate_operand(input, pos)
}

/// The operand set of one instruction: nothing, one operand, or a
/// destination and a source separated by a comma.
pub open spec fn spec_operand_set(input: Seq<u8>, pos: int) -> Option<(OperandsView, int)> {
    let p0 = no_back(pos, spec_skip_blank(input, pos));
    match spec_operand(input, p0) {
        None => Some(
            (OperandsView::Empty(Span { start: p0 as usize, end: p0 as usize }), p0),
        ),
        Some((dst, p)) => {
            let q = no_back(p, spec_skip_blank(input, p));
            if q < input.len() && input[q] == 0x2C {
                match spec_operand(input, no_back(q + 1, spec_skip_blank(input, q + 1))) {
                    Some((src, p2)) => Some(
                        (
                            OperandsView::DestinationAndSource(
                                Span { start: p0 as usize, end: p2 as usize },
                                dst,
                                src,
                            ),
                            p2,
                        ),
                    ),
                    None => None,
                }
            } else {
                Some((OperandsView::Destination(Span { start: p0 as usize, end: p as usize }, dst), p))
            }
        },
    }
}

/// The operand set of one instruction.
pub fn operand_set(input: &[u8], pos: usize) -> (r: Option<(Operands, usize)>)
    requires
        pos <= input@.len(),
        input@.len() <= MAX_SOURCE,
    ensures
        ({
            match r {
                Some((o, p)) => spec_operand_set(input@, pos as int) == Some(
                    (operands_view(o), p as int),
                ) && pos <= p <= input@.len(),
                None => spec_operand_set(input@, pos as int) is None,
            }
        }),
{
    let p0 = skip_blank(input, pos);
    match operand(input, p0) {
        None => Some((Operands::Empty(Span { start: p0, end: p0 }), p0)),
        Some((dst, p)) => {
            let q = skip_blank(input, p);
            if q < input.len() && *slice_index_get(input, q) == 0x2C {
                let p1 = skip_blank(input, q + 1);
                match operand(input, p1) {
                    Some((src, p2)) => Some(
                        (
                            Operands::DestinationAndSource(Span { start: p0, end: p2 }, dst, src),
                            p2,
                        ),
                    ),
                    None => None,
                }
            } else {
                Some((Operands::Destination(Span { start: p0, end: p }, dst), p))
            }
        },
    }
}

/// The instruction at `pos`: a mnemonic and its operand set.
pub open spec fn spec_instruction(input: Seq<u8>, pos: int) -> Option<(InstructionView, int)> {
    match spec_identifier(input, pos) {
        Some(end) => match spec_operation_from_name(input.subrange(pos, end)) {
            Some(operation) => match spec_operand_set(input, end) {
                Some((operands, p)) => Some(
                    (
                        InstructionView {
                            span: Span { start: pos as usize, end: p as usize },
                            operation,
                            operands,
                        },
                        p,
                    ),
                ),
                None => None,
            },
            None => None,
        },
        None => None,
    }
}

/// The instruction at `pos`.
pub fn instruction(input: &[u8], pos: usize) -> (r: Option<(Instruction, usize)>)
    requires
        pos <= input@.len(),
        input@.len() <= MAX_SOURCE,
    ensures
        ({
            match r {
                Some((i, p)) => spec_instruction(input@, pos as int) == Some(
                    (instruction_view(i), p as int),
                ) && pos < p <= input@.len(),
                None => spec_instruction(input@, pos as int) is None,
            }
        }),
{
    match identifier(input, pos) {
        Some(end) => {
            let name = copy_range(input, pos, end);
            match operation_from_name(name.as_slice()) {
                Some(operation) => {
                    match operand_set(input, end) {
                        Some((operands, p)) => Some(
                            (
                                Instruction { span: Span { start: pos, end: p }, operation, operands },
                                p,
                            ),
                        ),
                        None => None,
                    }
                },
                None => None,
            }
        },
        None => None,
    }
}

/// The label at `pos`: an identifier followed by a colon.
pub open spec fn spec_parse_label(input: Seq<u8>, pos: int) -> Option<(LabelView, int)> {
    match spec_identifier(input, pos) {
        Some(end) => {
            let q = no_back(end, spec_skip_blank(input, end));
            if q < input.len() && input[q] == 0x3A {
                Some(
                    (
                        LabelView {
                            span: Span { start: pos as usize, end: end as usize },
                            name: input.subrange(pos, end),
                        },
                        q + 1,
                    ),
                )
            } else {
                None
            }
        },
        None => None,
    }
}

/// The label at `pos`.
pub fn label(input: &[u8], pos: usize) -> (r: Option<(Label, usize)>)
    requires
        pos <= input@.len(),
        input@.len() <= MAX_SOURCE,
    ensures
        ({
            match r {
                Some((l, p)) => spec_parse_label(input@, pos as int) == Some(
                    (label_view(l), p as int),
                ) && pos < p <= input@.len(),
                None => spec_parse_label(input@, pos as int) is None,
            }
        }),
{
    match identifier(input, pos) {
        Some(end) => {
            let q = skip_blank(input, end);
            if q < input.len() && *slice_index_get(input, q) == 0x3A {
                let name = copy_range(input, pos, end);
                Some((Label(Span { start: pos, end }, name), q + 1))
            } else {
                None
            }
        },
        None => None,
    }
}

/// One data item of a `db` directive: a byte-sized constant.
pub open spec fn spec_db_items(input: Seq<u8>, pos: int) -> Option<(Seq<u8>, int)>
    decreases input.len() - pos,
    when 0 <= pos <= input.len()
{
    let p = no_back(pos, spec_skip_blank(input, pos));
    match spec_value_or_label(input, p) {
        Some((ValueView::Constant(v), end)) => {
            let b = (v as int % 256 + 256) % 256;
            let q = no_back(end, spec_skip_blank(input, end));
            if q < input.len() && input[q] == 0x2C {
                match spec_db_items(input, step_to(input.len() as int, pos, q + 1)) {
                    Some((rest, fin)) => Some((seq![b as u8] + rest, fin)),
                    None => None,
                }
            } else {
                Some((seq![b as u8], end))
            }
        },
        _ => None,
    }
}

/// The data items of a `db` directive.
fn db_items(input: &[u8], pos: usize) -> (r: Option<(Vec<u8>, usize)>)
    requires
        pos <= input@.len(),
        input@.len() <= MAX_SOURCE,
    ensures
        ({
            match r {
                Some((bytes, p)) => spec_db_items(input@, pos as int) == Some(
                    (bytes@, p as int),
                ) && pos < p <= input@.len(),
                None => spec_db_items(input@, pos as int) is None,
            }
        }),
    decreases input@.len() - pos,
{
    let p = skip_blank(input, pos);
    match value_or_label(input, p) {
        Some((Value::Constant(v), end)) => {
            let b = (v % 256 + 256) % 256;
            let q = skip_blank(input, end);
            if q < input.len() && *slice_index_get(input, q) == 0x2C {
                match db_items(input, q + 1) {
                    Some((rest, fin)) => {
                        let mut bytes: Vec<u8> = Vec::new();
                        bytes.push(b as u8);
                        let mut tail = rest;
                        bytes.append(&mut tail);
                        proof {
                            if let Some((rest_seq, _p)) = spec_db_items(input@, (q + 1) as int) {
                                assert(bytes@ =~= seq![(((v as int % 256 + 256) % 256)) as u8]
                                    + rest_seq);
                            }
                        }
                        Some((bytes, fin))
                    },
                    None => None,
                }
            } else {
                let mut bytes: Vec<u8> = Vec::new();
                bytes.push(b as u8);
                proof {
                    assert(bytes@ =~= seq![(((v as int % 256 + 256) % 256)) as u8]);
                }
                Some((bytes, end))
            }
        },
        Some((_, _)) => None,
        None => None,
    }
}

/// The content of one line after any label: a `db`, `equ` or `times`
/// directive, or an instruction.
pub open spec fn spec_line_content(input: Seq<u8>, pos: int) -> Option<(LineContentView, int)>
    decreases input.len() - pos,
    when 0 <= pos <= input.len()
{
    match spec_identifier(input, pos) {
        Some(end) => {
            let name = input.subrange(pos, end);
            if spec_name_is2(name, 0x64, 0x62) {
                match spec_db_items(input, end) {
                    Some((bytes, p)) => Some(
                        (
                            LineContentView::Data(
                                Span { start: pos as usize, end: p as usize },
                                bytes,
                            ),
                            p,
                        ),
                    ),
                    None => None,
                }
            } else if spec_name_is3(name, 0x65, 0x71, 0x75) {
                match spec_parse_add(input, end) {
                    Some((e, p)) => Some(
                        (
                            LineContentView::Constant(
                                Span { start: pos as usize, end: p as usize },
                                e,
                            ),
                            p,
                        ),
                    ),
                    None => None,
                }
            } else if spec_name_is5(name, 0x74, 0x69, 0x6D, 0x65, 0x73) {
                match spec_parse_add(input, end) {
                    Some((e, p0)) => {
                        let q0 = step_to(input.len() as int, pos, p0);
                        let p1 = no_back(q0, spec_skip_blank(input, q0));
                        match spec_line_content(
                            input,
                            step_to(input.len() as int, pos, p1),
                        ) {
                            Some((inner, p2)) => Some(
                                (
                                    LineContentView::Times(
                                        Span { start: pos as usize, end: p2 as usize },
                                        e,
                                        Box::new(inner),
                                    ),
                                    p2,
                                ),
                            ),
                            None => None,
                        }
                    },
                    None => None,
                }
            } else {
                match spec_instruction(input, pos) {
                    Some((i, p)) => Some((LineContentView::Instruction(i), p)),
                    None => None,
                }
            }
        },
        None => None,
    }
}

/// The content of one line after any label.
#[verifier::rlimit(100)]
#[verifier::spinoff_prover]
pub fn line_content(input: &[u8], pos: usize) -> (r: Option<(LineContent, usize)>)
    requires
        pos <= input@.len(),
        input@.len() <= MAX_SOURCE,
    ensures
        ({
            match r {
                Some((c, p)) => spec_line_content(input@, pos as int) == Some(
                    (line_content_view(c), p as int),
                ) && pos < p <= input@.len(),
                None => spec_line_content(input@, pos as int) is None,
            }
        }),
    decreases input@.len() - pos,
{
    match identifier(input, pos) {
        Some(end) => {
            let name = copy_range(input, pos, end);
            if name_is2(name.as_slice(), 0x64, 0x62) {
                match db_items(input, end) {
                    Some((bytes, p)) => Some(
                        (LineContent::Data(Span { start: pos, end: p }, bytes), p),
                    ),
                    None => None,
                }
            } else if name_is3(name.as_slice(), 0x65, 0x71, 0x75) {
                match parse_expression(input, end) {
                    Some((e, p)) => Some(
                        (LineContent::Constant(Span { start: pos, end: p }, e), p),
                    ),
                    None => None,
                }
            } else if name_is5(name.as_slice(), 0x74, 0x69, 0x6D, 0x65, 0x73) {
                match parse_expression(input, end) {
                    Some((e, p0)) => {
                        let p1 = skip_blank(input, p0);
                        match line_content(input, p1) {
                            Some((inner, p2)) => Some(
                                (
                                    LineContent::Times(
                                        Span { start: pos, end: p2 },
                                        e,
                                        Box::new(inner),
                                    ),
                                    p2,
                                ),
                            ),
                            None => None,
                        }
                    },
                    None => None,
                }
            } else {
                match instruction(input, pos) {
                    Some((i, p)) => Some((LineContent::Instruction(i), p)),
                    None => None,
                }
            }
        },
        None => None,
    }
}

/// One source line: blanks, an optional label, optional content, and the
/// line end.
pub open spec fn spec_line(input: Seq<u8>, pos: int) -> Option<(LineView, int)> {
    let p = no_back(pos, spec_skip_blank(input, pos));
    let (lab, p1) = match spec_parse_label(input, p) {
        Some((l, e)) => (
            Some(l),
            no_back(p, no_back(e, spec_skip_blank(input, e))),
        ),
        None => (None, p),
    };
    let (content, p2) = match spec_line_content(input, p1) {
        Some((c, e)) => (c, no_back(p1, no_back(e, spec_skip_blank(input, e)))),
        None => (LineContentView::Empty, p1),
    };
    if p2 < input.len() && input[p2] == 0x0A {
        Some((LineView { label: lab, content }, p2 + 1))
    } else if p2 >= input.len() {
        Some((LineView { label: lab, content }, p2))
    } else if lab is Some || !(content is Empty) {
        Some((LineView { label: lab, content }, p2))
    } else {
        None
    }
}

/// One source line.
pub fn line(input: &[u8], pos: usize) -> (r: Option<(Line, usize)>)
    requires
        pos <= input@.len(),
        input@.len() <= MAX_SOURCE,
    ensures
        ({
            match r {
                Some((l, p)) => spec_line(input@, pos as int) == Some((line_view(l), p as int))
                    && pos <= p <= input@.len() && (pos < input@.len() ==> pos < p),
                None => spec_line(input@, pos as int) is None,
            }
        }),
{
    let p = skip_blank(input, pos);
    let (lab, p1) = match label(input, p) {
        Some((l, e)) => (Some(l), skip_blank(input, e)),
        None => (None, p),
    };
    let (content, p2) = match line_content(input, p1) {
        Some((c, e)) => (c, skip_blank(input, e)),
        None => (LineContent::Empty, p1),
    };
    if p2 < input.len() && *slice_index_get(input, p2) == 0x0A {
        Some((Line { label: lab, content }, p2 + 1))
    } else if p2 >= input.len() {
        Some((Line { label: lab, content }, p2))
    } else if lab.is_some() || !matches!(content, LineContent::Empty) {
        Some((Line { label: lab, content }, p2))
    } else {
        None
    }
}

/// The whole program: lines until the input ends or fails to parse; the
/// returned position tells how far parsing got.
pub open spec fn spec_program(input: Seq<u8>, pos: int) -> (Seq<LineView>, int)
    decreases input.len() - pos,
    when 0 <= pos <= input.len()
{
    if pos >= input.len() {
        (Seq::empty(), pos)
    } else {
        match spec_line(input, pos) {
            None => (Seq::empty(), pos),
            Some((l, e)) => {
                let e2 = step_to(input.len() as int, pos, e);
                let (rest, fin) = spec_program(input, e2);
                (seq![l] + rest, fin)
            },
        }
    }
}

/// The whole program, and how far parsing got; a position short of the
/// input end means a parse error there.
pub fn program(input: &[u8], pos: usize) -> (r: (Vec<Line>, usize))
    requires
        pos <= input@.len(),
        input@.len() <= MAX_SOURCE,
    ensures
        ({
            let (lines, fin) = spec_program(input@, pos as int);
            r.0@.map_values(|l: Line| line_view(l)) == lines && r.1 as int == fin && pos <= r.1
                <= input@.len()
        }),
    decreases input@.len() - pos,
{
    if pos >= input.len() {
        let r: Vec<Line> = Vec::new();
        proof {
            assert(r@.map_values(|l: Line| line_view(l)) =~= Seq::<LineView>::empty());
        }
        return (r, pos);
    }
    match line(input, pos) {
        None => {
            let r: Vec<Line> = Vec::new();
            proof {
                assert(r@.map_values(|l: Line| line_view(l)) =~= Seq::<LineView>::empty());
            }
            (r, pos)
        },
        Some((l, e)) => {
            let (mut rest, fin) = program(input, e);
            rest.insert(0, l);
            proof {
                assert(rest@.map_values(|x: Line| line_view(x)) =~= seq![line_view(l)]
                    + spec_program(input@, e as int).0);
            }
            (rest, fin)
        },
    }
}

} // verus!
