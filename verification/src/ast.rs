//! The assembler's view of a program: labeled lines holding instructions,
//! data, constants or repeats, with an expression sub-language, every node
//! carrying the source span it came from.

use vstd::prelude::*;

use crate::x86::Operation;
use vstd::slice::slice_index_get;

verus! {

/// A half-open byte range in the source text.
#[derive(Clone, Copy, Debug, PartialEq, Eq, Structural)]
pub struct Span {
    pub start: usize,
    pub end: usize,
}

/// A label: its source span and its name as bytes of source text.
#[derive(Debug, PartialEq, Eq)]
pub struct Label(pub Span, pub Vec<u8>);

/// The ASCII letter lowered into lower case; everything else unchanged.
pub open spec fn spec_lower(b: u8) -> u8 {
    if 0x41 <= b <= 0x5A {
        (b + 0x20) as u8
    } else {
        b
    }
}

/// Lower-case an ASCII letter.
pub fn lower(b: u8) -> (r: u8)
    ensures
        r == spec_lower(b),
{
    if 0x41 <= b && b <= 0x5A {
        b + 0x20
    } else {
        b
    }
}

/// One of the eight byte registers.
#[derive(Clone, Copy, Debug, PartialEq, Eq, Structural)]
pub enum ByteRegister {
    Al,
    Cl,
    Dl,
    Bl,
    Ah,
    Ch,
    Dh,
    Bh,
}

/// The wire code of a byte register.
pub open spec fn byte_register_encoding(r: ByteRegister) -> u8 {
    match r {
        ByteRegister::Al => 0,
        ByteRegister::Cl => 1,
        ByteRegister::Dl => 2,
        ByteRegister::Bl => 3,
        ByteRegister::Ah => 4,
        ByteRegister::Ch => 5,
        ByteRegister::Dh => 6,
        ByteRegister::Bh => 7,
    }
}

/// The byte register a name denotes, case-insensitively, if any.
pub open spec fn spec_byte_register_from_name(s: Seq<u8>) -> Option<ByteRegister> {
    if s.len() != 2 {
        None
    } else {
        let a = spec_lower(s[0]);
        let b = spec_lower(s[1]);
        if b == 0x6C {
            if a == 0x61 {
                Some(ByteRegister::Al)
            } else if a == 0x63 {
                Some(ByteRegister::Cl)
            } else if a == 0x64 {
                Some(ByteRegister::Dl)
            } else if a == 0x62 {
                Some(ByteRegister::Bl)
            } else {
                None
            }
        } else if b == 0x68 {
            if a == 0x61 {
                Some(ByteRegister::Ah)
            } else if a == 0x63 {
                Some(ByteRegister::Ch)
            } else if a == 0x64 {
                Some(ByteRegister::Dh)
            } else if a == 0x62 {
                Some(ByteRegister::Bh)
            } else {
                None
            }
        } else {
            None
        }
    }
}

impl ByteRegister {
    /// The 3-bit wire code of this register.
    pub fn encoding(&self) -> (r: u8)
        ensures
            r == byte_register_encoding(*self),
    {
        match self {
            ByteRegister::Al => 0,
            ByteRegister::Cl => 1,
            ByteRegister::Dl => 2,
            ByteRegister::Bl => 3,
            ByteRegister::Ah => 4,
            ByteRegister::Ch => 5,
            ByteRegister::Dh => 6,
            ByteRegister::Bh => 7,
        }
    }

    /// The byte register a name denotes, case-insensitively.
    pub fn from_name(s: &[u8]) -> (r: Option<Self>)
        ensures
            r == spec_byte_register_from_name(s@),
    {
        if s.len() != 2 {
            return None;
        }
        let a = lower(*slice_index_get(s, 0));
        let b = lower(*slice_index_get(s, 1));
        if b == 0x6C {
            if a == 0x61 {
                Some(ByteRegister::Al)
            } else if a == 0x63 {
                Some(ByteRegister::Cl)
            } else if a == 0x64 {
                Some(ByteRegister::Dl)
            } else if a == 0x62 {
                Some(ByteRegister::Bl)
            } else {
                None
            }
        } else if b == 0x68 {
            if a == 0x61 {
                Some(ByteRegister::Ah)
            } else if a == 0x63 {
                Some(ByteRegister::Ch)
            } else if a == 0x64 {
                Some(ByteRegister::Dh)
            } else if a == 0x62 {
                Some(ByteRegister::Bh)
            } else {
                None
            }
        } else {
            None
        }
    }
}

/// One of the eight word registers.
#[derive(Clone, Copy, Debug, PartialEq, Eq, Structural)]
pub enum WordRegister {
    Ax,
    Cx,
    Dx,
    Bx,
    Sp,
    Bp,
    Si,
    Di,
}

/// The wire code of a word register.
pub open spec fn word_register_encoding(r: WordRegister) -> u8 {
    match r {
        WordRegister::Ax => 0,
        WordRegister::Cx => 1,
        WordRegister::Dx => 2,
        WordRegister::Bx => 3,
        WordRegister::Sp => 4,
        WordRegister::Bp => 5,
        WordRegister::Si => 6,
        WordRegister::Di => 7,
    }
}

/// The word register a name denotes, case-insensitively, if any.
pub open spec fn spec_word_register_from_name(s: Seq<u8>) -> Option<WordRegister> {
    if s.len() != 2 {
        None
    } else {
        let a = spec_lower(s[0]);
        let b = spec_lower(s[1]);
        if b == 0x78 {
            if a == 0x61 {
                Some(WordRegister::Ax)
            } else if a == 0x63 {
                Some(WordRegister::Cx)
            } else if a == 0x64 {
                Some(WordRegister::Dx)
            } else if a == 0x62 {
                Some(WordRegister::Bx)
            } else {
                None
            }
        } else if a == 0x73 && b == 0x70 {
            Some(WordRegister::Sp)
        } else if a == 0x62 && b == 0x70 {
            Some(WordRegister::Bp)
        } else if a == 0x73 && b == 0x69 {
            Some(WordRegister::Si)
        } else if a == 0x64 && b == 0x69 {
            Some(WordRegister::Di)
        } else {
            None
        }
    }
}

impl WordRegister {
    /// The 3-bit wire code of this register.
    pub fn encoding(&self) -> (r: u8)
        ensures
            r == word_register_encoding(*self),
    {
        match self {
            WordRegister::Ax => 0,
            WordRegister::Cx => 1,
            WordRegister::Dx => 2,
            WordRegister::Bx => 3,
            WordRegister::Sp => 4,
            WordRegister::Bp => 5,
            WordRegister::Si => 6,
            WordRegister::Di => 7,
        }
    }

    /// The word register a name denotes, case-insensitively.
    pub fn from_name(s: &[u8]) -> (r: Option<Self>)
        ensures
            r == spec_word_register_from_name(s@),
    {
        if s.len() != 2 {
            return None;
        }
        let a = lower(*slice_index_get(s, 0));
        let b = lower(*slice_index_get(s, 1));
        if b == 0x78 {
            if a == 0x61 {
                Some(WordRegister::Ax)
            } else if a == 0x63 {
                Some(WordRegister::Cx)
            } else if a == 0x64 {
                Some(WordRegister::Dx)
            } else if a == 0x62 {
                Some(WordRegister::Bx)
            } else {
                None
            }
        } else if a == 0x73 && b == 0x70 {
            Some(WordRegister::Sp)
        } else if a == 0x62 && b == 0x70 {
            Some(WordRegister::Bp)
        } else if a == 0x73 && b == 0x69 {
            Some(WordRegister::Si)
        } else if a == 0x64 && b == 0x69 {
            Some(WordRegister::Di)
        } else {
            None
        }
    }
}

/// A register of either width.
#[derive(Clone, Copy, Debug, PartialEq, Eq, Structural)]
pub enum Register {
    Byte(ByteRegister),
    Word(WordRegister),
}

/// The register of either width a name denotes, byte registers first.
pub open spec fn spec_register_from_name(s: Seq<u8>) -> Option<Register> {
    match spec_byte_register_from_name(s) {
        Some(r) => Some(Register::Byte(r)),
        None => match spec_word_register_from_name(s) {
            Some(r) => Some(Register::Word(r)),
            None => None,
        },
    }
}

impl Register {
    /// The 3-bit wire code of this register.
    pub fn encoding(&self) -> (r: u8)
        ensures
            (*self matches Register::Byte(b) ==> r == byte_register_encoding(b)),
            (*self matches Register::Word(w) ==> r == word_register_encoding(w)),
    {
        match self {
            Register::Byte(r) => r.encoding(),
            Register::Word(r) => r.encoding(),
        }
    }

    /// The register a name denotes, case-insensitively.
    pub fn from_name(s: &[u8]) -> (r: Option<Self>)
        ensures
            r == spec_register_from_name(s@),
    {
        if let Some(byte_register) = ByteRegister::from_name(s) {
            Some(Register::Byte(byte_register))
        } else if let Some(word_register) = WordRegister::from_name(s) {
            Some(Register::Word(word_register))
        } else {
            None
        }
    }
}

/// A segment register name.
#[derive(Clone, Copy, Debug, PartialEq, Eq, Structural)]
pub enum Segment {
    ES,
    CS,
    SS,
    DS,
}

/// The wire code of a segment register.
pub open spec fn ast_segment_encoding(s: Segment) -> u8 {
    match s {
        Segment::ES => 0,
        Segment::CS => 1,
        Segment::SS => 2,
        Segment::DS => 3,
    }
}

/// The segment register a name denotes, case-insensitively, if any.
pub open spec fn spec_segment_from_name(s: Seq<u8>) -> Option<Segment> {
    if s.len() != 2 {
        None
    } else {
        let a = spec_lower(s[0]);
        let b = spec_lower(s[1]);
        if a == 0x65 && b == 0x73 {
            Some(Segment::ES)
        } else if a == 0x63 && b == 0x73 {
            Some(Segment::CS)
        } else if a == 0x73 && b == 0x73 {
            Some(Segment::SS)
        } else if a == 0x64 && b == 0x73 {
            Some(Segment::DS)
        } else {
            None
        }
    }
}

impl Segment {
    /// The 2-bit wire code of this segment register.
    pub fn encoding(&self) -> (r: u8)
        ensures
            r == ast_segment_encoding(*self),
    {
        match self {
            Segment::ES => 0,
            Segment::CS => 1,
            Segment::SS => 2,
            Segment::DS => 3,
        }
    }

    /// The segment register a name denotes, case-insensitively.
    pub fn from_name(s: &[u8]) -> (r: Option<Self>)
        ensures
            r == spec_segment_from_name(s@),
    {
        if s.len() != 2 {
            return None;
        }
        let a = lower(*slice_index_get(s, 0));
        let b = lower(*slice_index_get(s, 1));
        if a == 0x65 && b == 0x73 {
            Some(Segment::ES)
        } else if a == 0x63 && b == 0x73 {
            Some(Segment::CS)
        } else if a == 0x73 && b == 0x73 {
            Some(Segment::SS)
        } else if a == 0x64 && b == 0x73 {
            Some(Segment::DS)
        } else {
            None
        }
    }
}

/// An explicit operand width written in the source.
#[derive(Clone, Copy, Debug, PartialEq, Eq, Structural)]
pub enum DataSize {
    Byte,
    Word,
}

/// The data size a name denotes, case-insensitively, if any.
pub open spec fn spec_data_size_from_name(s: Seq<u8>) -> Option<DataSize> {
    if s.len() == 4 && spec_lower(s[0]) == 0x62 && spec_lower(s[1]) == 0x79 && spec_lower(s[2])
        == 0x74 && spec_lower(s[3]) == 0x65 {
        Some(DataSize::Byte)
    } else if s.len() == 4 && spec_lower(s[0]) == 0x77 && spec_lower(s[1]) == 0x6F && spec_lower(
        s[2],
    ) == 0x72 && spec_lower(s[3]) == 0x64 {
        Some(DataSize::Word)
    } else {
        None
    }
}

impl DataSize {
    /// The data size a name denotes: `byte` or `word`, case-insensitively.
    pub fn from_name(s: &[u8]) -> (r: Option<Self>)
        ensures
            r == spec_data_size_from_name(s@),
    {
        if s.len() != 4 {
            return None;
        }
        let a = lower(*slice_index_get(s, 0));
        let b = lower(*slice_index_get(s, 1));
        let c = lower(*slice_index_get(s, 2));
        let d = lower(*slice_index_get(s, 3));
        if a == 0x62 && b == 0x79 && c == 0x74 && d == 0x65 {
            Some(DataSize::Byte)
        } else if a == 0x77 && b == 0x6F && c == 0x72 && d == 0x64 {
            Some(DataSize::Word)
        } else {
            None
        }
    }
}

/// A leaf of the expression language.
#[derive(Debug, PartialEq, Eq)]
pub enum Value {
    Constant(i32),
    Label(Label),
    Register(Register),
}

/// An arithmetic operator of the expression language.
#[derive(Clone, Copy, Debug, PartialEq, Eq, Structural)]
pub enum Operator {
    Add,
    Subtract,
    Multiply,
    Divide,
}

/// An expression: a tree of prefix and infix operators over terms.
#[derive(Debug, PartialEq, Eq)]
pub enum Expression {
    PrefixOperator(Span, Operator, Box<Expression>),
    InfixOperator(Span, Operator, Box<Expression>, Box<Expression>),
    Term(Span, Value),
}

impl Expression {
    /// The source span this expression covers.
    pub fn span(&self) -> (r: Span)
        ensures
            r == spec_expression_span(*self),
    {
        match self {
            Expression::PrefixOperator(span, _, _) => *span,
            Expression::InfixOperator(span, _, _, _) => *span,
            Expression::Term(span, _) => *span,
        }
    }
}

/// The source span of an expression.
pub open spec fn spec_expression_span(e: Expression) -> Span {
    match e {
        Expression::PrefixOperator(span, _, _) => span,
        Expression::InfixOperator(span, _, _, _) => span,
        Expression::Term(span, _) => span,
    }
}

/// One operand as written in the source.
#[derive(Debug, PartialEq, Eq)]
pub enum Operand {
    Immediate(Span, Expression),
    Address(Span, Expression, Option<DataSize>, Option<Segment>),
    Register(Span, Register),
    Segment(Span, Segment),
}

impl Operand {
    /// The source span this operand covers.
    pub fn span(&self) -> (r: Span)
        ensures
            r == spec_operand_span(*self),
    {
        match self {
            Operand::Immediate(span, _) => *span,
            Operand::Address(span, _, _, _) => *span,
            Operand::Register(span, _) => *span,
            Operand::Segment(span, _) => *span,
        }
    }
}

/// The source span of an operand.
pub open spec fn spec_operand_span(o: Operand) -> Span {
    match o {
        Operand::Immediate(span, _) => span,
        Operand::Address(span, _, _, _) => span,
        Operand::Register(span, _) => span,
        Operand::Segment(span, _) => span,
    }
}

/// The operands of one source instruction.
#[derive(Debug, PartialEq, Eq)]
pub enum Operands {
    Empty(Span),
    Destination(Span, Operand),
    DestinationAndSource(Span, Operand, Operand),
}

impl Operands {
    /// The source span these operands cover.
    pub fn span(&self) -> (r: Span)
        ensures
            r == spec_operands_span(*self),
    {
        match self {
            Operands::Empty(span) => *span,
            Operands::Destination(span, _) => *span,
            Operands::DestinationAndSource(span, _, _) => *span,
        }
    }
}

/// The source span of an operand set.
pub open spec fn spec_operands_span(o: Operands) -> Span {
    match o {
        Operands::Empty(span) => span,
        Operands::Destination(span, _) => span,
        Operands::DestinationAndSource(span, _, _) => span,
    }
}

/// One source instruction: a mnemonic with its operands.
#[derive(Debug, PartialEq, Eq)]
pub struct Instruction {
    pub span: Span,
    pub operation: Operation,
    pub operands: Operands,
}

/// What one source line holds.
#[derive(Debug, PartialEq, Eq)]
pub enum LineContent {
    Empty,
    Instruction(Instruction),
    Data(Span, Vec<u8>),
    Constant(Span, Expression),
    Times(Span, Expression, Box<LineContent>),
}

impl LineContent {
    /// The source span this content covers; an empty line has none.
    pub fn span(&self) -> (r: Span)
        requires
            !(self is Empty),
        ensures
            r == spec_line_content_span(*self),
    {
        match self {
            LineContent::Empty => Span { start: 0, end: 0 },
            LineContent::Instruction(instruction) => instruction.span,
            LineContent::Data(span, _) => *span,
            LineContent::Constant(span, _) => *span,
            LineContent::Times(span, _, _) => *span,
        }
    }
}

/// The source span of a line's content.
pub open spec fn spec_line_content_span(c: LineContent) -> Span {
    match c {
        LineContent::Empty => Span { start: 0, end: 0 },
        LineContent::Instruction(instruction) => instruction.span,
        LineContent::Data(span, _) => span,
        LineContent::Constant(span, _) => span,
        LineContent::Times(span, _, _) => span,
    }
}

/// One source line: an optional label and the line's content.
#[derive(Debug, PartialEq, Eq)]
pub struct Line {
    pub label: Option<Label>,
    pub content: LineContent,
}

/// The ghost image of a label: its span and its name bytes.
pub struct LabelView {
    pub span: Span,
    pub name: Seq<u8>,
}

/// The ghost image of a label.
pub open spec fn label_view(l: Label) -> LabelView {
    LabelView { span: l.0, name: l.1@ }
}

/// The ghost image of a value.
pub enum ValueView {
    Constant(i32),
    Label(LabelView),
    Register(Register),
}

/// The ghost image of a value.
pub open spec fn value_view(v: Value) -> ValueView {
    match v {
        Value::Constant(c) => ValueView::Constant(c),
        Value::Label(l) => ValueView::Label(label_view(l)),
        Value::Register(r) => ValueView::Register(r),
    }
}

/// The ghost image of an expression.
pub enum ExpressionView {
    PrefixOperator(Span, Operator, Box<ExpressionView>),
    InfixOperator(Span, Operator, Box<ExpressionView>, Box<ExpressionView>),
    Term(Span, ValueView),
}

impl ExpressionView {
    /// The source span this expression covers.
    pub open spec fn span_of(self) -> Span {
        match self {
            ExpressionView::PrefixOperator(span, _, _) => span,
            ExpressionView::InfixOperator(span, _, _, _) => span,
            ExpressionView::Term(span, _) => span,
        }
    }
}

/// The ghost image of an expression.
pub open spec fn expression_view(e: Expression) -> ExpressionView
    decreases e,
{
    match e {
        Expression::PrefixOperator(span, op, inner) => ExpressionView::PrefixOperator(
            span,
            op,
            Box::new(expression_view(*inner)),
        ),
        Expression::InfixOperator(span, op, l, r) => ExpressionView::InfixOperator(
            span,
            op,
            Box::new(expression_view(*l)),
            Box::new(expression_view(*r)),
        ),
        Expression::Term(span, v) => ExpressionView::Term(span, value_view(v)),
    }
}

/// The ghost image of an operand.
pub enum OperandView {
    Immediate(Span, ExpressionView),
    Address(Span, ExpressionView, Option<DataSize>, Option<Segment>),
    Register(Span, Register),
    Segment(Span, Segment),
}

/// The ghost image of an operand.
pub open spec fn operand_view(o: Operand) -> OperandView {
    match o {
        Operand::Immediate(span, e) => OperandView::Immediate(span, expression_view(e)),
        Operand::Address(span, e, size, seg) => OperandView::Address(
            span,
            expression_view(e),
            size,
            seg,
        ),
        Operand::Register(span, r) => OperandView::Register(span, r),
        Operand::Segment(span, s) => OperandView::Segment(span, s),
    }
}

/// The ghost image of an operand set.
pub enum OperandsView {
    Empty(Span),
    Destination(Span, OperandView),
    DestinationAndSource(Span, OperandView, OperandView),
}

/// The ghost image of an operand set.
pub open spec fn operands_view(o: Operands) -> OperandsView {
    match o {
        Operands::Empty(span) => OperandsView::Empty(span),
        Operands::Destination(span, d) => OperandsView::Destination(span, operand_view(d)),
        Operands::DestinationAndSource(span, d, s) => OperandsView::DestinationAndSource(
            span,
            operand_view(d),
            operand_view(s),
        ),
    }
}

/// The ghost image of a source instruction.
pub struct InstructionView {
    pub span: Span,
    pub operation: Operation,
    pub operands: OperandsView,
}

/// The ghost image of a source instruction.
pub open spec fn instruction_view(i: Instruction) -> InstructionView {
    InstructionView { span: i.span, operation: i.operation, operands: operands_view(i.operands) }
}

/// The ghost image of a line's content.
pub enum LineContentView {
    Empty,
    Instruction(InstructionView),
    Data(Span, Seq<u8>),
    Constant(Span, ExpressionView),
    Times(Span, ExpressionView, Box<LineContentView>),
}

/// The ghost image of a line's content.
pub open spec fn line_content_view(c: LineContent) -> LineContentView
    decreases c,
{
    match c {
        LineContent::Empty => LineContentView::Empty,
        LineContent::Instruction(i) => LineContentView::Instruction(instruction_view(i)),
        LineContent::Data(span, bytes) => LineContentView::Data(span, bytes@),
        LineContent::Constant(span, e) => LineContentView::Constant(span, expression_view(e)),
        LineContent::Times(span, e, inner) => LineContentView::Times(
            span,
            expression_view(e),
            Box::new(line_content_view(*inner)),
        ),
    }
}

/// The ghost image of a source line.
pub struct LineView {
    pub label: Option<LabelView>,
    pub content: LineContentView,
}

/// The ghost image of a source line.
pub open spec fn line_view(l: Line) -> LineView {
    LineView {
        label: match l.label {
            Some(lab) => Some(label_view(lab)),
            None => None,
        },
        content: line_content_view(l.content),
    }
}


} // verus!
