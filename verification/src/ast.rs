//! The program tree produced by the parser and consumed by the assembler.

use vstd::prelude::*;
use crate::text::text_eq;

verus! {

/// One of the eight general registers GR0..GR7.
#[derive(Debug, Clone, Copy, PartialEq, Eq, Structural)]
pub enum Register {
    Gr0,
    Gr1,
    Gr2,
    Gr3,
    Gr4,
    Gr5,
    Gr6,
    Gr7,
}

impl Register {
    /// The register with a given number, if the number is at most 7.
    pub open spec fn spec_from_u8(n: u8) -> Option<Register> {
        if n == 0 {
            Some(Register::Gr0)
        } else if n == 1 {
            Some(Register::Gr1)
        } else if n == 2 {
            Some(Register::Gr2)
        } else if n == 3 {
            Some(Register::Gr3)
        } else if n == 4 {
            Some(Register::Gr4)
        } else if n == 5 {
            Some(Register::Gr5)
        } else if n == 6 {
            Some(Register::Gr6)
        } else if n == 7 {
            Some(Register::Gr7)
        } else {
            None
        }
    }

    /// The number of a register, between 0 and 7.
    pub open spec fn spec_to_u8(self) -> u8 {
        match self {
            Register::Gr0 => 0,
            Register::Gr1 => 1,
            Register::Gr2 => 2,
            Register::Gr3 => 3,
            Register::Gr4 => 4,
            Register::Gr5 => 5,
            Register::Gr6 => 6,
            Register::Gr7 => 7,
        }
    }

    /// The register with a given number, if the number is at most 7.
    pub fn from_u8(n: u8) -> (r: Option<Register>)
        ensures
            r == Self::spec_from_u8(n),
            r is Some <==> n <= 7,
            r is Some ==> r->0.spec_to_u8() == n,
    {
        match n {
            0 => Some(Register::Gr0),
            1 => Some(Register::Gr1),
            2 => Some(Register::Gr2),
            3 => Some(Register::Gr3),
            4 => Some(Register::Gr4),
            5 => Some(Register::Gr5),
            6 => Some(Register::Gr6),
            7 => Some(Register::Gr7),
            _ => None,
        }
    }

    /// The number of the register.
    pub fn to_u8(&self) -> (n: u8)
        ensures
            n == self.spec_to_u8(),
            n <= 7,
            Self::spec_from_u8(n) == Some(*self),
    {
        match self {
            Register::Gr0 => 0,
            Register::Gr1 => 1,
            Register::Gr2 => 2,
            Register::Gr3 => 3,
            Register::Gr4 => 4,
            Register::Gr5 => 5,
            Register::Gr6 => 6,
            Register::Gr7 => 7,
        }
    }
}

/// The number of an optional index register; 0 stands for "no index".
pub open spec fn index_number(index: Option<Register>) -> u8 {
    match index {
        Some(r) => r.spec_to_u8(),
        None => 0,
    }
}

/// The instructions without operands.
#[derive(Debug, Clone, Copy, PartialEq, Eq, Structural)]
pub enum NoOperandInst {
    Nop,
    Ret,
}

/// The instructions with one register as their operand.
#[derive(Debug, Clone, Copy, PartialEq, Eq, Structural)]
pub enum OneRegInst {
    Pop,
}

/// The instructions with a register, an address and an optional index
/// register as their operands.
#[derive(Debug, Clone, Copy, PartialEq, Eq, Structural)]
pub enum RegAddrInst {
    Ld,
    St,
    Lad,
    Adda,
    Suba,
    Addl,
    Subl,
    Mula,
    Diva,
    Mull,
    Divl,
    And,
    Or,
    Xor,
    Cpa,
    Cpl,
    Sla,
    Sra,
    Sll,
    Srl,
}

/// The instructions with an address and an optional index register as
/// their operands.
#[derive(Debug, Clone, Copy, PartialEq, Eq, Structural)]
pub enum AddrInst {
    Jmi,
    Jnz,
    Jze,
    Jump,
    Jpl,
    Jov,
    Push,
    Call,
    Svc,
}

/// The instructions with two registers as their operands.
#[derive(Debug, Clone, Copy, PartialEq, Eq, Structural)]
pub enum TwoRegInst {
    Ld,
    Adda,
    Suba,
    Addl,
    Subl,
    Mula,
    Diva,
    Mull,
    Divl,
    And,
    Or,
    Xor,
    Cpa,
    Cpl,
}

impl RegAddrInst {
    /// The register-address instruction that an upper-case mnemonic names.
    pub open spec fn spec_from_str(s: Seq<char>) -> Option<RegAddrInst> {
        if s == "LD"@ {
            Some(RegAddrInst::Ld)
        } else if s == "ST"@ {
            Some(RegAddrInst::St)
        } else if s == "LAD"@ {
            Some(RegAddrInst::Lad)
        } else if s == "ADDA"@ {
            Some(RegAddrInst::Adda)
        } else if s == "SUBA"@ {
            Some(RegAddrInst::Suba)
        } else if s == "ADDL"@ {
            Some(RegAddrInst::Addl)
        } else if s == "SUBL"@ {
            Some(RegAddrInst::Subl)
        } else if s == "MULA"@ {
            Some(RegAddrInst::Mula)
        } else if s == "DIVA"@ {
            Some(RegAddrInst::Diva)
        } else if s == "MULL"@ {
            Some(RegAddrInst::Mull)
        } else if s == "DIVL"@ {
            Some(RegAddrInst::Divl)
        } else if s == "AND"@ {
            Some(RegAddrInst::And)
        } else if s == "OR"@ {
            Some(RegAddrInst::Or)
        } else if s == "XOR"@ {
            Some(RegAddrInst::Xor)
        } else if s == "CPA"@ {
            Some(RegAddrInst::Cpa)
        } else if s == "CPL"@ {
            Some(RegAddrInst::Cpl)
        } else if s == "SLA"@ {
            Some(RegAddrInst::Sla)
        } else if s == "SRA"@ {
            Some(RegAddrInst::Sra)
        } else if s == "SLL"@ {
            Some(RegAddrInst::Sll)
        } else if s == "SRL"@ {
            Some(RegAddrInst::Srl)
        } else {
            None
        }
    }

    /// The register-address instruction that an upper-case mnemonic names.
    pub fn from_str(s: &str) -> (r: Option<RegAddrInst>)
        ensures
            r == Self::spec_from_str(s@),
    {
        if text_eq(s, "LD") {
            Some(RegAddrInst::Ld)
        } else if text_eq(s, "ST") {
            Some(RegAddrInst::St)
        } else if text_eq(s, "LAD") {
            Some(RegAddrInst::Lad)
        } else if text_eq(s, "ADDA") {
            Some(RegAddrInst::Adda)
        } else if text_eq(s, "SUBA") {
            Some(RegAddrInst::Suba)
        } else if text_eq(s, "ADDL") {
            Some(RegAddrInst::Addl)
        } else if text_eq(s, "SUBL") {
            Some(RegAddrInst::Subl)
        } else if text_eq(s, "MULA") {
            Some(RegAddrInst::Mula)
        } else if text_eq(s, "DIVA") {
            Some(RegAddrInst::Diva)
        } else if text_eq(s, "MULL") {
            Some(RegAddrInst::Mull)
        } else if text_eq(s, "DIVL") {
            Some(RegAddrInst::Divl)
        } else if text_eq(s, "AND") {
            Some(RegAddrInst::And)
        } else if text_eq(s, "OR") {
            Some(RegAddrInst::Or)
        } else if text_eq(s, "XOR") {
            Some(RegAddrInst::Xor)
        } else if text_eq(s, "CPA") {
            Some(RegAddrInst::Cpa)
        } else if text_eq(s, "CPL") {
            Some(RegAddrInst::Cpl)
        } else if text_eq(s, "SLA") {
            Some(RegAddrInst::Sla)
        } else if text_eq(s, "SRA") {
            Some(RegAddrInst::Sra)
        } else if text_eq(s, "SLL") {
            Some(RegAddrInst::Sll)
        } else if text_eq(s, "SRL") {
            Some(RegAddrInst::Srl)
        } else {
            None
        }
    }

    /// Whether the instruction also has a register-register form: all but
    /// `ST`, `LAD` and the four shifts.
    pub open spec fn spec_can_be_two_reg(self) -> bool {
        !(self is St || self is Lad || self is Sla || self is Sra || self is Sll || self is Srl)
    }

    /// Whether the instruction also has a register-register form.
    pub fn can_be_two_reg(&self) -> (b: bool)
        ensures
            b == self.spec_can_be_two_reg(),
            b == (TwoRegInst::spec_from_reg_addr(*self) is Some),
    {
        match self {
            RegAddrInst::St | RegAddrInst::Lad | RegAddrInst::Sla | RegAddrInst::Sra
            | RegAddrInst::Sll | RegAddrInst::Srl => false,
            _ => true,
        }
    }
}

impl TwoRegInst {
    /// The register-register form of a register-address instruction.
    pub open spec fn spec_from_reg_addr(inst: RegAddrInst) -> Option<TwoRegInst> {
        match inst {
            RegAddrInst::Ld => Some(TwoRegInst::Ld),
            RegAddrInst::Adda => Some(TwoRegInst::Adda),
            RegAddrInst::Suba => Some(TwoRegInst::Suba),
            RegAddrInst::Addl => Some(TwoRegInst::Addl),
            RegAddrInst::Subl => Some(TwoRegInst::Subl),
            RegAddrInst::Mula => Some(TwoRegInst::Mula),
            RegAddrInst::Diva => Some(TwoRegInst::Diva),
            RegAddrInst::Mull => Some(TwoRegInst::Mull),
            RegAddrInst::Divl => Some(TwoRegInst::Divl),
            RegAddrInst::And => Some(TwoRegInst::And),
            RegAddrInst::Or => Some(TwoRegInst::Or),
            RegAddrInst::Xor => Some(TwoRegInst::Xor),
            RegAddrInst::Cpa => Some(TwoRegInst::Cpa),
            RegAddrInst::Cpl => Some(TwoRegInst::Cpl),
            _ => None,
        }
    }

    /// The register-register form of a register-address instruction.
    pub fn from_reg_addr(inst: RegAddrInst) -> (r: Option<TwoRegInst>)
        ensures
            r == Self::spec_from_reg_addr(inst),
            r is Some <==> inst.spec_can_be_two_reg(),
    {
        match inst {
            RegAddrInst::Ld => Some(TwoRegInst::Ld),
            RegAddrInst::Adda => Some(TwoRegInst::Adda),
            RegAddrInst::Suba => Some(TwoRegInst::Suba),
            RegAddrInst::Addl => Some(TwoRegInst::Addl),
            RegAddrInst::Subl => Some(TwoRegInst::Subl),
            RegAddrInst::Mula => Some(TwoRegInst::Mula),
            RegAddrInst::Diva => Some(TwoRegInst::Diva),
            RegAddrInst::Mull => Some(TwoRegInst::Mull),
            RegAddrInst::Divl => Some(TwoRegInst::Divl),
            RegAddrInst::And => Some(TwoRegInst::And),
            RegAddrInst::Or => Some(TwoRegInst::Or),
            RegAddrInst::Xor => Some(TwoRegInst::Xor),
            RegAddrInst::Cpa => Some(TwoRegInst::Cpa),
            RegAddrInst::Cpl => Some(TwoRegInst::Cpl),
            _ => None,
        }
    }
}

impl AddrInst {
    /// The address instruction that an upper-case mnemonic names.
    pub open spec fn spec_from_str(s: Seq<char>) -> Option<AddrInst> {
        if s == "JMI"@ {
            Some(AddrInst::Jmi)
        } else if s == "JNZ"@ {
            Some(AddrInst::Jnz)
        } else if s == "JZE"@ {
            Some(AddrInst::Jze)
        } else if s == "JUMP"@ {
            Some(AddrInst::Jump)
        } else if s == "JPL"@ {
            Some(AddrInst::Jpl)
        } else if s == "JOV"@ {
            Some(AddrInst::Jov)
        } else if s == "PUSH"@ {
            Some(AddrInst::Push)
        } else if s == "CALL"@ {
            Some(AddrInst::Call)
        } else if s == "SVC"@ {
            Some(AddrInst::Svc)
        } else {
            None
        }
    }

    /// The address instruction that an upper-case mnemonic names.
    pub fn from_str(s: &str) -> (r: Option<AddrInst>)
        ensures
            r == Self::spec_from_str(s@),
    {
        if text_eq(s, "JMI") {
            Some(AddrInst::Jmi)
        } else if text_eq(s, "JNZ") {
            Some(AddrInst::Jnz)
        } else if text_eq(s, "JZE") {
            Some(AddrInst::Jze)
        } else if text_eq(s, "JUMP") {
            Some(AddrInst::Jump)
        } else if text_eq(s, "JPL") {
            Some(AddrInst::Jpl)
        } else if text_eq(s, "JOV") {
            Some(AddrInst::Jov)
        } else if text_eq(s, "PUSH") {
            Some(AddrInst::Push)
        } else if text_eq(s, "CALL") {
            Some(AddrInst::Call)
        } else if text_eq(s, "SVC") {
            Some(AddrInst::Svc)
        } else {
            None
        }
    }
}

/// An address operand.
#[derive(Debug, Clone, PartialEq)]
pub enum Address {
    Label(String),
    Number(i32),
    Immediate(u16),
    /// A reference into the literal pool, by the text that follows `=`.
    Literal(String),
}

/// What an [`Address`] holds, with texts as character sequences.
pub enum AddressView {
    Label(Seq<char>),
    Number(i32),
    Immediate(u16),
    Literal(Seq<char>),
}

impl View for Address {
    type V = AddressView;

    open spec fn view(&self) -> AddressView {
        match *self {
            Address::Label(s) => AddressView::Label(s@),
            Address::Number(n) => AddressView::Number(n),
            Address::Immediate(w) => AddressView::Immediate(w),
            Address::Literal(s) => AddressView::Literal(s@),
        }
    }
}

/// One value of a `DC` line.
#[derive(Debug, Clone, PartialEq)]
pub enum DcValue {
    Number(i32),
    String(String),
    Label(String),
    Immediate(u16),
}

/// What a [`DcValue`] holds, with texts as character sequences.
pub enum DcValueView {
    Number(i32),
    String(Seq<char>),
    Label(Seq<char>),
    Immediate(u16),
}

impl View for DcValue {
    type V = DcValueView;

    open spec fn view(&self) -> DcValueView {
        match *self {
            DcValue::Number(n) => DcValueView::Number(n),
            DcValue::String(s) => DcValueView::String(s@),
            DcValue::Label(s) => DcValueView::Label(s@),
            DcValue::Immediate(w) => DcValueView::Immediate(w),
        }
    }
}

/// The views of a list of `DC` values, in order.
pub open spec fn dc_values_view(values: Seq<DcValue>) -> Seq<DcValueView> {
    Seq::new(values.len(), |i: int| values[i]@)
}

/// The view of an optional text.
pub open spec fn opt_text_view(text: Option<String>) -> Option<Seq<char>> {
    match text {
        Some(s) => Some(s@),
        None => None,
    }
}

/// An instruction: a machine instruction, a pseudo instruction or a macro.
#[derive(Debug, Clone, PartialEq)]
pub enum Instruction {
    NoOperand(NoOperandInst),
    OneReg(OneRegInst, Register),
    RegAddr(RegAddrInst, Register, Address, Option<Register>),
    Addr(AddrInst, Address, Option<Register>),
    TwoReg(TwoRegInst, Register, Register),
    /// `START`, with the optional entry label.
    Start(Option<String>),
    End,
    /// `DS`, with the word count as written.
    Ds(i32),
    Dc(Vec<DcValue>),
    /// `IN`, with the buffer label and the length label.
    In(String, String),
    /// `OUT`, with the buffer label and the length label.
    Out(String, String),
    Rpush,
    Rpop,
}

/// What an [`Instruction`] holds, with texts as character sequences.
pub enum InstructionView {
    NoOperand(NoOperandInst),
    OneReg(OneRegInst, Register),
    RegAddr(RegAddrInst, Register, AddressView, Option<Register>),
    Addr(AddrInst, AddressView, Option<Register>),
    TwoReg(TwoRegInst, Register, Register),
    Start(Option<Seq<char>>),
    End,
    Ds(i32),
    Dc(Seq<DcValueView>),
    In(Seq<char>, Seq<char>),
    Out(Seq<char>, Seq<char>),
    Rpush,
    Rpop,
}

impl View for Instruction {
    type V = InstructionView;

    open spec fn view(&self) -> InstructionView {
        match *self {
            Instruction::NoOperand(op) => InstructionView::NoOperand(op),
            Instruction::OneReg(op, r) => InstructionView::OneReg(op, r),
            Instruction::RegAddr(op, r, a, x) => InstructionView::RegAddr(op, r, a@, x),
            Instruction::Addr(op, a, x) => InstructionView::Addr(op, a@, x),
            Instruction::TwoReg(op, r1, r2) => InstructionView::TwoReg(op, r1, r2),
            Instruction::Start(entry) => InstructionView::Start(opt_text_view(entry)),
            Instruction::End => InstructionView::End,
            Instruction::Ds(n) => InstructionView::Ds(n),
            Instruction::Dc(values) => InstructionView::Dc(dc_values_view(values@)),
            Instruction::In(buf, len) => InstructionView::In(buf@, len@),
            Instruction::Out(buf, len) => InstructionView::Out(buf@, len@),
            Instruction::Rpush => InstructionView::Rpush,
            Instruction::Rpop => InstructionView::Rpop,
        }
    }
}

/// One line of a program: an optional label, an optional instruction, and
/// the number of the source line it came from.
#[derive(Debug, Clone, PartialEq)]
pub struct Line {
    pub label: Option<String>,
    pub instruction: Option<Instruction>,
    pub line_number: usize,
}

/// What a [`Line`] holds, with texts as character sequences.
pub struct LineView {
    pub label: Option<Seq<char>>,
    pub instruction: Option<InstructionView>,
    pub line_number: usize,
}

impl View for Line {
    type V = LineView;

    open spec fn view(&self) -> LineView {
        LineView {
            label: opt_text_view(self.label),
            instruction: match self.instruction {
                Some(i) => Some(i@),
                None => None,
            },
            line_number: self.line_number,
        }
    }
}

/// The views of a list of lines, in order.
pub open spec fn lines_view(lines: Seq<Line>) -> Seq<LineView> {
    Seq::new(lines.len(), |i: int| lines[i]@)
}

/// A program: its lines in source order.
#[derive(Debug, Clone, PartialEq)]
pub struct Program {
    pub lines: Vec<Line>,
}

impl View for Program {
    type V = Seq<LineView>;

    open spec fn view(&self) -> Seq<LineView> {
        lines_view(self.lines@)
    }
}

} // verus!
