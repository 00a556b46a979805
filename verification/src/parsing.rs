//! The mathematical model of the parser: which program tree a sequence of
//! tokens stands for.

use vstd::prelude::*;
use crate::ast::{
    AddrInst, AddressView, DcValueView, InstructionView, LineView, NoOperandInst, OneRegInst,
    RegAddrInst, Register, TwoRegInst,
};
use crate::lexing::TokenView;

verus! {

/// Why a sequence of tokens is no program.
#[derive(Debug, Clone, Copy, PartialEq, Eq, Structural)]
pub enum ParseErrorKind {
    /// A register was expected.
    ExpectedRegister,
    /// A register token with a number above 7.
    InvalidRegister,
    /// An address was expected: a label, a number, an immediate or a
    /// literal.
    ExpectedAddress,
    /// A label was expected.
    ExpectedLabel,
    /// A number was expected.
    ExpectedNumber,
    /// A value of a `DC` was expected: a number, a string, a label or an
    /// immediate.
    ExpectedDcValue,
    /// A comma was expected.
    ExpectedComma,
    /// An instruction token whose name is no mnemonic.
    UnknownInstruction,
    /// A token that can neither start nor continue a line.
    UnexpectedToken,
}

/// A syntax error and the source line at fault.
#[derive(Debug, Clone, Copy, PartialEq, Eq, Structural)]
pub struct ParseError {
    pub kind: ParseErrorKind,
    pub line_number: usize,
}

/// What a kind of syntax error is called in a message.
pub open spec fn parse_error_text(kind: ParseErrorKind) -> Seq<char> {
    match kind {
        ParseErrorKind::ExpectedRegister => "Expected register"@,
        ParseErrorKind::InvalidRegister => "Invalid register number"@,
        ParseErrorKind::ExpectedAddress => "Expected address"@,
        ParseErrorKind::ExpectedLabel => "Expected label"@,
        ParseErrorKind::ExpectedNumber => "Expected number"@,
        ParseErrorKind::ExpectedDcValue => "Expected DC value"@,
        ParseErrorKind::ExpectedComma => "Expected comma"@,
        ParseErrorKind::UnknownInstruction => "Unknown instruction"@,
        ParseErrorKind::UnexpectedToken => "Unexpected token"@,
    }
}

/// The message of a syntax error: its line, and what it is called.
pub open spec fn parse_error_message(error: ParseError) -> Seq<char> {
    "Line "@ + crate::text::decimal_text(error.line_number as nat) + ": "@ + parse_error_text(
        error.kind,
    )
}

/// A syntax error, and the position at which the parser is left.
pub struct Failure {
    pub error: ParseError,
    pub at: int,
}

/// The tokens of a text, each with the number of its line.
pub type Tokens = Seq<(TokenView, usize)>;

/// The token at `pos`, if there is one.
pub open spec fn peek(tokens: Tokens, pos: int) -> Option<TokenView> {
    if 0 <= pos < tokens.len() {
        Some(tokens[pos].0)
    } else {
        None
    }
}

/// The position behind the token at `pos`, if there is one.
pub open spec fn after(tokens: Tokens, pos: int) -> int {
    if 0 <= pos < tokens.len() {
        pos + 1
    } else {
        pos
    }
}

/// The line that a parser at `pos` is on: that of the token before `pos`,
/// or of the first token at the start, or 0 where there is no token.
pub open spec fn current_line(tokens: Tokens, pos: int) -> usize {
    if 0 < pos <= tokens.len() {
        tokens[pos - 1].1
    } else if 0 <= pos < tokens.len() {
        tokens[pos].1
    } else {
        0
    }
}

/// The line of the token at `pos`, or where there is none that of the
/// last token.
pub open spec fn line_of(tokens: Tokens, pos: int) -> usize {
    current_line(tokens, after(tokens, pos))
}

/// The error of a parser that has read the token at `pos`, if there is
/// one, and found it to be the wrong one.
pub open spec fn error_after(tokens: Tokens, pos: int, kind: ParseErrorKind) -> Failure {
    Failure { error: ParseError { kind, line_number: line_of(tokens, pos) }, at: after(tokens, pos) }
}

/// The error of a parser that has looked at the token at `pos` without
/// reading it.
pub open spec fn error_at(tokens: Tokens, pos: int, kind: ParseErrorKind) -> Failure {
    Failure { error: ParseError { kind, line_number: current_line(tokens, pos) }, at: pos }
}

/// A register token.
pub open spec fn spec_parse_register(tokens: Tokens, pos: int) -> Result<
    (Register, int),
    Failure,
> {
    match peek(tokens, pos) {
        Some(TokenView::Register(n)) => match Register::spec_from_u8(n) {
            Some(r) => Ok((r, pos + 1)),
            None => Err(error_after(tokens, pos, ParseErrorKind::InvalidRegister)),
        },
        _ => Err(error_after(tokens, pos, ParseErrorKind::ExpectedRegister)),
    }
}

/// A label token.
pub open spec fn spec_parse_label(tokens: Tokens, pos: int) -> Result<(Seq<char>, int), Failure> {
    match peek(tokens, pos) {
        Some(TokenView::Label(name)) => Ok((name, pos + 1)),
        _ => Err(error_after(tokens, pos, ParseErrorKind::ExpectedLabel)),
    }
}

/// A number token.
pub open spec fn spec_parse_number(tokens: Tokens, pos: int) -> Result<(i32, int), Failure> {
    match peek(tokens, pos) {
        Some(TokenView::Number(n)) => Ok((n, pos + 1)),
        _ => Err(error_after(tokens, pos, ParseErrorKind::ExpectedNumber)),
    }
}

/// A comma token.
pub open spec fn spec_expect_comma(tokens: Tokens, pos: int) -> Result<int, Failure> {
    match peek(tokens, pos) {
        Some(TokenView::Comma) => Ok(pos + 1),
        _ => Err(error_after(tokens, pos, ParseErrorKind::ExpectedComma)),
    }
}

/// An address operand: a label, a number, an immediate or a literal.
pub open spec fn spec_parse_address(tokens: Tokens, pos: int) -> Result<
    (AddressView, int),
    Failure,
> {
    match peek(tokens, pos) {
        Some(TokenView::Label(name)) => Ok((AddressView::Label(name), pos + 1)),
        Some(TokenView::Number(n)) => Ok((AddressView::Number(n), pos + 1)),
        Some(TokenView::Immediate(w)) => Ok((AddressView::Immediate(w), pos + 1)),
        Some(TokenView::Literal(lit)) => Ok((AddressView::Literal(lit), pos + 1)),
        _ => Err(error_at(tokens, pos, ParseErrorKind::ExpectedAddress)),
    }
}

/// The optional index register behind an address: a comma and a register,
/// or nothing.
pub open spec fn spec_parse_index(tokens: Tokens, pos: int) -> Result<
    (Option<Register>, int),
    Failure,
> {
    match peek(tokens, pos) {
        Some(TokenView::Comma) => match spec_parse_register(tokens, pos + 1) {
            Ok((r, next)) => Ok((Some(r), next)),
            Err(e) => Err(e),
        },
        _ => Ok((None, pos)),
    }
}

/// One value of a `DC`.
pub open spec fn spec_parse_dc_value(tokens: Tokens, pos: int) -> Result<
    (DcValueView, int),
    Failure,
> {
    match peek(tokens, pos) {
        Some(TokenView::Number(n)) => Ok((DcValueView::Number(n), pos + 1)),
        Some(TokenView::String(s)) => Ok((DcValueView::String(s), pos + 1)),
        Some(TokenView::Label(name)) => Ok((DcValueView::Label(name), pos + 1)),
        Some(TokenView::Immediate(w)) => Ok((DcValueView::Immediate(w), pos + 1)),
        _ => Err(error_at(tokens, pos, ParseErrorKind::ExpectedDcValue)),
    }
}

/// `acc` followed by the values of a `DC` from `pos` on: one value, and
/// for every comma that follows one more.
pub open spec fn spec_parse_dc_values(tokens: Tokens, pos: int, acc: Seq<DcValueView>) -> Result<
    (Seq<DcValueView>, int),
    Failure,
>
    decreases tokens.len() - pos,
{
    match spec_parse_dc_value(tokens, pos) {
        Err(e) => Err(e),
        Ok((value, next)) => match peek(tokens, next) {
            Some(TokenView::Comma) => spec_parse_dc_values(tokens, next + 1, acc.push(value)),
            _ => Ok((acc.push(value), next)),
        },
    }
}

/// The operands of an address instruction.
pub open spec fn spec_parse_addr_operands(tokens: Tokens, op: AddrInst, pos: int) -> Result<
    (InstructionView, int),
    Failure,
> {
    match spec_parse_address(tokens, pos) {
        Err(e) => Err(e),
        Ok((addr, next)) => match spec_parse_index(tokens, next) {
            Err(e) => Err(e),
            Ok((index, end)) => Ok((InstructionView::Addr(op, addr, index), end)),
        },
    }
}

/// The operands of an instruction that starts with a register: where it
/// has a register-register form and a register follows the comma, that
/// form; else an address and an optional index.
pub open spec fn spec_parse_reg_operands(tokens: Tokens, op: RegAddrInst, pos: int) -> Result<
    (InstructionView, int),
    Failure,
> {
    match spec_parse_register(tokens, pos) {
        Err(e) => Err(e),
        Ok((r1, p1)) => match spec_expect_comma(tokens, p1) {
            Err(e) => Err(e),
            Ok(p2) => if peek(tokens, p2) is Some && peek(tokens, p2)->0 is Register
                && TwoRegInst::spec_from_reg_addr(op) is Some {
                match spec_parse_register(tokens, p2) {
                    Err(e) => Err(e),
                    Ok((r2, end)) => Ok(
                        (InstructionView::TwoReg(TwoRegInst::spec_from_reg_addr(op)->0, r1, r2), end),
                    ),
                }
            } else {
                match spec_parse_address(tokens, p2) {
                    Err(e) => Err(e),
                    Ok((addr, p3)) => match spec_parse_index(tokens, p3) {
                        Err(e) => Err(e),
                        Ok((index, end)) => Ok((InstructionView::RegAddr(op, r1, addr, index), end)),
                    },
                }
            },
        },
    }
}

/// The two labels of `IN` and `OUT`, with a comma between them.
pub open spec fn spec_parse_two_labels(tokens: Tokens, pos: int) -> Result<
    (Seq<char>, Seq<char>, int),
    Failure,
> {
    match spec_parse_label(tokens, pos) {
        Err(e) => Err(e),
        Ok((buf, p1)) => match spec_expect_comma(tokens, p1) {
            Err(e) => Err(e),
            Ok(p2) => match spec_parse_label(tokens, p2) {
                Err(e) => Err(e),
                Ok((len, end)) => Ok((buf, len, end)),
            },
        },
    }
}

/// The instruction with the mnemonic `name`, whose operands start at
/// `pos`.
pub open spec fn spec_parse_instruction(tokens: Tokens, name: Seq<char>, pos: int) -> Result<
    (InstructionView, int),
    Failure,
> {
    if name == "NOP"@ {
        Ok((InstructionView::NoOperand(NoOperandInst::Nop), pos))
    } else if name == "RET"@ {
        Ok((InstructionView::NoOperand(NoOperandInst::Ret), pos))
    } else if name == "POP"@ {
        match spec_parse_register(tokens, pos) {
            Err(e) => Err(e),
            Ok((r, next)) => Ok((InstructionView::OneReg(OneRegInst::Pop, r), next)),
        }
    } else if name == "START"@ {
        match peek(tokens, pos) {
            Some(TokenView::Label(entry)) => Ok((InstructionView::Start(Some(entry)), pos + 1)),
            _ => Ok((InstructionView::Start(None), pos)),
        }
    } else if name == "END"@ {
        Ok((InstructionView::End, pos))
    } else if name == "DS"@ {
        match spec_parse_number(tokens, pos) {
            Err(e) => Err(e),
            Ok((n, next)) => Ok((InstructionView::Ds(n), next)),
        }
    } else if name == "DC"@ {
        match spec_parse_dc_values(tokens, pos, Seq::empty()) {
            Err(e) => Err(e),
            Ok((values, next)) => Ok((InstructionView::Dc(values), next)),
        }
    } else if name == "IN"@ {
        match spec_parse_two_labels(tokens, pos) {
            Err(e) => Err(e),
            Ok((buf, len, next)) => Ok((InstructionView::In(buf, len), next)),
        }
    } else if name == "OUT"@ {
        match spec_parse_two_labels(tokens, pos) {
            Err(e) => Err(e),
            Ok((buf, len, next)) => Ok((InstructionView::Out(buf, len), next)),
        }
    } else if name == "RPUSH"@ {
        Ok((InstructionView::Rpush, pos))
    } else if name == "RPOP"@ {
        Ok((InstructionView::Rpop, pos))
    } else if AddrInst::spec_from_str(name) is Some {
        spec_parse_addr_operands(tokens, AddrInst::spec_from_str(name)->0, pos)
    } else if RegAddrInst::spec_from_str(name) is Some {
        spec_parse_reg_operands(tokens, RegAddrInst::spec_from_str(name)->0, pos)
    } else {
        Err(error_at(tokens, pos, ParseErrorKind::UnknownInstruction))
    }
}

/// The first position from `pos` on that holds no comment.
pub open spec fn skip_comments(tokens: Tokens, pos: int) -> int
    decreases tokens.len() - pos,
{
    if 0 <= pos < tokens.len() && tokens[pos].0 is Comment {
        skip_comments(tokens, pos + 1)
    } else {
        pos
    }
}

/// The first position from `pos` on that holds neither a newline nor a
/// comment.
pub open spec fn skip_newlines(tokens: Tokens, pos: int) -> int
    decreases tokens.len() - pos,
{
    if 0 <= pos < tokens.len() && (tokens[pos].0 is Newline || tokens[pos].0 is Comment) {
        skip_newlines(tokens, pos + 1)
    } else {
        pos
    }
}

/// Whether the token at `pos` ends a line that holds only a label: a
/// newline, a comment, or the end of the tokens.
pub open spec fn ends_label_line(tokens: Tokens, pos: int) -> bool {
    match peek(tokens, pos) {
        Some(TokenView::Newline) => true,
        Some(TokenView::Comment(_)) => true,
        None => true,
        _ => false,
    }
}

/// The position behind the end of a line whose instruction ends at `pos`:
/// behind the comments that follow and the newline behind them, if there
/// is one.
pub open spec fn line_end(tokens: Tokens, pos: int) -> int {
    let p = skip_comments(tokens, pos);
    match peek(tokens, p) {
        Some(TokenView::Newline) => p + 1,
        _ => p,
    }
}

/// The line that starts at `pos`: comments, an optional label, and an
/// optional instruction with its operands, up to the end of the line. Its
/// number is that of the source line of its first token. A line that holds
/// only a label ends before its newline. A token that neither starts a line
/// nor ends one is an error.
pub open spec fn spec_parse_line(tokens: Tokens, pos: int) -> Result<(LineView, int), Failure> {
    let line_number = line_of(tokens, pos);
    let p1 = skip_comments(tokens, pos);
    let label = match peek(tokens, p1) {
        Some(TokenView::Label(name)) => Some(name),
        _ => None,
    };
    let p2 = if label is Some {
        p1 + 1
    } else {
        p1
    };
    if label is Some && ends_label_line(tokens, p2) {
        Ok((LineView { label, instruction: None, line_number }, p2))
    } else {
        match peek(tokens, p2) {
            Some(TokenView::Instruction(name)) => match spec_parse_instruction(
                tokens,
                name,
                p2 + 1,
            ) {
                Err(e) => Err(e),
                Ok((instruction, p3)) => Ok(
                    (
                        LineView { label, instruction: Some(instruction), line_number },
                        line_end(tokens, p3),
                    ),
                ),
            },
            _ => if line_end(tokens, p2) == pos {
                Err(error_after(tokens, pos, ParseErrorKind::UnexpectedToken))
            } else {
                Ok((LineView { label, instruction: None, line_number }, line_end(tokens, p2)))
            },
        }
    }
}

/// Whether the tokens end at `pos`: with the end-of-input token, or with
/// no token at all.
pub open spec fn at_end(tokens: Tokens, pos: int) -> bool {
    match peek(tokens, pos) {
        Some(TokenView::Eof) => true,
        None => true,
        _ => false,
    }
}

/// `acc` followed by the lines from `pos` on, up to the end of the tokens,
/// and the position of that end. Newlines and comments between lines are
/// passed over, and so is a line with neither label nor instruction. (A
/// line is at least one token long and ends within the tokens: see
/// `lemma_line_advances`.)
pub open spec fn spec_parse(tokens: Tokens, pos: int, acc: Seq<LineView>) -> Result<
    (Seq<LineView>, int),
    Failure,
>
    decreases tokens.len() - pos,
{
    let start = skip_newlines(tokens, pos);
    if at_end(tokens, start) {
        Ok((acc, start))
    } else {
        match spec_parse_line(tokens, start) {
            Err(e) => Err(e),
            Ok((line, next)) => if pos < next <= tokens.len() {
                spec_parse(
                    tokens,
                    next,
                    if line.label is Some || line.instruction is Some {
                        acc.push(line)
                    } else {
                        acc
                    },
                )
            } else {
                Ok((acc, next))
            },
        }
    }
}


/// Comments and newlines are passed over within the tokens.
pub proof fn lemma_skip_bounds(tokens: Tokens, pos: int)
    requires
        0 <= pos <= tokens.len(),
    ensures
        pos <= skip_comments(tokens, pos) <= tokens.len(),
        pos <= skip_newlines(tokens, pos) <= tokens.len(),
        pos <= line_end(tokens, pos) <= tokens.len(),
    decreases tokens.len() - pos,
{
    if pos < tokens.len() {
        lemma_skip_bounds(tokens, pos + 1);
    }
}

/// The values of a `DC` are at least one token long and end within the
/// tokens.
pub proof fn lemma_dc_values_bounds(tokens: Tokens, pos: int, acc: Seq<DcValueView>)
    requires
        0 <= pos <= tokens.len(),
    ensures
        match spec_parse_dc_values(tokens, pos, acc) {
            Ok((_, next)) => pos < next <= tokens.len(),
            Err(f) => pos <= f.at <= tokens.len(),
        },
    decreases tokens.len() - pos,
{
    match spec_parse_dc_value(tokens, pos) {
        Err(_) => {},
        Ok((value, next)) => {
            match peek(tokens, next) {
                Some(TokenView::Comma) => {
                    lemma_dc_values_bounds(tokens, next + 1, acc.push(value));
                },
                _ => {},
            }
        },
    }
}

/// The operands of an instruction end within the tokens.
pub proof fn lemma_instruction_bounds(tokens: Tokens, name: Seq<char>, pos: int)
    requires
        0 <= pos <= tokens.len(),
    ensures
        match spec_parse_instruction(tokens, name, pos) {
            Ok((_, next)) => pos <= next <= tokens.len(),
            Err(f) => pos <= f.at <= tokens.len(),
        },
{
    lemma_dc_values_bounds(tokens, pos, Seq::empty());
}

/// A line is at least one token long and ends within the tokens; an error
/// is found within the tokens.
pub proof fn lemma_line_advances(tokens: Tokens, pos: int)
    requires
        0 <= pos <= tokens.len(),
    ensures
        match spec_parse_line(tokens, pos) {
            Ok((_, next)) => pos < next <= tokens.len(),
            Err(f) => pos <= f.at <= tokens.len(),
        },
{
    lemma_skip_bounds(tokens, pos);
    let p1 = skip_comments(tokens, pos);
    if p1 < tokens.len() {
        lemma_skip_bounds(tokens, p1 + 1);
        match peek(tokens, p1 + 1) {
            Some(TokenView::Instruction(name)) => {
                lemma_instruction_bounds(tokens, name, p1 + 2);
                match spec_parse_instruction(tokens, name, p1 + 2) {
                    Ok((_, p3)) => {
                        lemma_skip_bounds(tokens, p3);
                    },
                    Err(_) => {},
                }
            },
            _ => {},
        }
    }
    lemma_skip_bounds(tokens, p1);
    match peek(tokens, p1) {
        Some(TokenView::Instruction(name)) => {
            lemma_instruction_bounds(tokens, name, p1 + 1);
            match spec_parse_instruction(tokens, name, p1 + 1) {
                Ok((_, p3)) => {
                    lemma_skip_bounds(tokens, p3);
                },
                Err(_) => {},
            }
        },
        _ => {},
    }
}

} // verus!
