//! The parser: from tokens to a program tree.

use vstd::prelude::*;
use vstd::string::*;
use crate::ast::{
    dc_values_view, lines_view, AddrInst, Address, DcValue, Instruction, Line, LineView,
    NoOperandInst, OneRegInst, Program, RegAddrInst, Register, TwoRegInst,
};
use crate::lexer::{tokens_view, Token};
use crate::parsing::{
    after, current_line, error_after, error_at, line_end, line_of, parse_error_message, peek,
    skip_comments, skip_newlines, spec_expect_comma, spec_parse, spec_parse_addr_operands,
    spec_parse_address, spec_parse_dc_value, spec_parse_dc_values, spec_parse_index,
    spec_parse_instruction, spec_parse_label, spec_parse_line, spec_parse_number,
    spec_parse_reg_operands, spec_parse_register, spec_parse_two_labels, ParseError, ParseErrorKind,
    Tokens,
};
use crate::text::{push_decimal, text_eq};

verus! {

/// A copy of a token.
pub fn clone_token(token: &Token) -> (copy: Token)
    ensures
        copy@ == token@,
{
    match token {
        Token::Label(s) => Token::Label(s.clone()),
        Token::Instruction(s) => Token::Instruction(s.clone()),
        Token::Register(n) => Token::Register(*n),
        Token::Number(n) => Token::Number(*n),
        Token::Immediate(w) => Token::Immediate(*w),
        Token::String(s) => Token::String(s.clone()),
        Token::Literal(s) => Token::Literal(s.clone()),
        Token::Comma => Token::Comma,
        Token::Colon => Token::Colon,
        Token::Comment(s) => Token::Comment(s.clone()),
        Token::Newline => Token::Newline,
        Token::Eof => Token::Eof,
    }
}

impl ParseError {
    /// The message of the error: its line, and what it is called.
    pub fn message(&self) -> (text: String)
        ensures
            text@ == parse_error_message(*self),
    {
        let name: &str = match self.kind {
            ParseErrorKind::ExpectedRegister => "Expected register",
            ParseErrorKind::InvalidRegister => "Invalid register number",
            ParseErrorKind::ExpectedAddress => "Expected address",
            ParseErrorKind::ExpectedLabel => "Expected label",
            ParseErrorKind::ExpectedNumber => "Expected number",
            ParseErrorKind::ExpectedDcValue => "Expected DC value",
            ParseErrorKind::ExpectedComma => "Expected comma",
            ParseErrorKind::UnknownInstruction => "Unknown instruction",
            ParseErrorKind::UnexpectedToken => "Unexpected token",
        };
        let mut text = String::new();
        text.append("Line ");
        push_decimal(&mut text, self.line_number as u64);
        text.append(": ");
        text.append(name);
        text
    }
}

/// A parser over the tokens of one source text.
pub struct Parser {
    tokens: Vec<(Token, usize)>,
    pos: usize,
}

/// What a parser is: its tokens, and the position of the next one.
pub struct ParserView {
    pub tokens: Tokens,
    pub pos: int,
}

impl View for Parser {
    type V = ParserView;

    closed spec fn view(&self) -> ParserView {
        ParserView { tokens: tokens_view(self.tokens@), pos: self.pos as int }
    }
}

impl Parser {
    #[verifier::type_invariant]
    spec fn inv(self) -> bool {
        self.pos <= self.tokens.len()
    }

    /// A parser at the first of the tokens.
    pub fn new(tokens: Vec<(Token, usize)>) -> (parser: Parser)
        ensures
            parser@ == (ParserView { tokens: tokens_view(tokens@), pos: 0 }),
    {
        Parser { tokens, pos: 0 }
    }

    /// The next token, if there is one.
    pub fn peek(&self) -> (token: Option<&Token>)
        ensures
            0 <= self@.pos <= self@.tokens.len(),
            match token {
                Some(t) => peek(self@.tokens, self@.pos) == Some(t@),
                None => peek(self@.tokens, self@.pos) is None,
            },
    {
        proof {
            use_type_invariant(self);
        }
        if self.pos < self.tokens.len() {
            Some(&self.tokens[self.pos].0)
        } else {
            None
        }
    }

    /// Passes over the next token, if there is one.
    fn bump(&mut self)
        ensures
            final(self)@.tokens == old(self)@.tokens,
            final(self)@.pos == after(old(self)@.tokens, old(self)@.pos),
            old(self)@.pos <= final(self)@.pos <= old(self)@.tokens.len(),
    {
        proof {
            use_type_invariant(&*self);
        }
        if self.pos < self.tokens.len() {
            self.pos = self.pos + 1;
        }
    }

    /// Reads the next token, if there is one.
    pub fn advance(&mut self) -> (token: Option<Token>)
        ensures
            final(self)@.tokens == old(self)@.tokens,
            final(self)@.pos == after(old(self)@.tokens, old(self)@.pos),
            old(self)@.pos <= final(self)@.pos <= old(self)@.tokens.len(),
            match token {
                Some(t) => peek(old(self)@.tokens, old(self)@.pos) == Some(t@),
                None => peek(old(self)@.tokens, old(self)@.pos) is None,
            },
    {
        let token = match self.peek() {
            Some(t) => Some(clone_token(t)),
            None => None,
        };
        self.bump();
        token
    }

    /// The line that the parser is on.
    pub fn current_line(&self) -> (line: usize)
        ensures
            line == current_line(self@.tokens, self@.pos),
    {
        proof {
            use_type_invariant(self);
        }
        if self.pos > 0 && self.pos <= self.tokens.len() {
            self.tokens[self.pos - 1].1
        } else if self.pos < self.tokens.len() {
            self.tokens[self.pos].1
        } else {
            0
        }
    }

    /// The line of the next token, or where there is none that of the
    /// last one.
    fn line_of_next(&self) -> (line: usize)
        ensures
            0 <= self@.pos <= self@.tokens.len(),
            line == line_of(self@.tokens, self@.pos),
    {
        proof {
            use_type_invariant(self);
        }
        if self.pos < self.tokens.len() {
            self.tokens[self.pos].1
        } else {
            self.current_line()
        }
    }

    /// The error of a parser that has read the token it found wrong.
    fn fail_after<T>(&mut self, kind: ParseErrorKind) -> (r: Result<T, ParseError>)
        ensures
            final(self)@.tokens == old(self)@.tokens,
            old(self)@.pos <= final(self)@.pos <= old(self)@.tokens.len(),
            r == Err::<T, ParseError>(error_after(old(self)@.tokens, old(self)@.pos, kind).error),
            final(self)@.pos == error_after(old(self)@.tokens, old(self)@.pos, kind).at,
    {
        self.bump();
        Err(ParseError { kind, line_number: self.current_line() })
    }

    /// The error of a parser that has not read the token it found wrong.
    fn fail_at<T>(&self, kind: ParseErrorKind) -> (r: Result<T, ParseError>)
        ensures
            0 <= self@.pos <= self@.tokens.len(),
            r == Err::<T, ParseError>(error_at(self@.tokens, self@.pos, kind).error),
            self@.pos == error_at(self@.tokens, self@.pos, kind).at,
    {
        proof {
            use_type_invariant(self);
        }
        Err(ParseError { kind, line_number: self.current_line() })
    }

    /// Passes over newlines and comments.
    pub fn skip_newlines(&mut self)
        ensures
            final(self)@.tokens == old(self)@.tokens,
            final(self)@.pos == skip_newlines(old(self)@.tokens, old(self)@.pos),
            old(self)@.pos <= final(self)@.pos <= old(self)@.tokens.len(),
    {
        let ghost start = self@;
        proof {
            use_type_invariant(&*self);
        }
        loop
            invariant
                self@.tokens == start.tokens,
                0 <= start.pos <= self@.pos <= start.tokens.len(),
                skip_newlines(start.tokens, start.pos) == skip_newlines(start.tokens, self@.pos),
            ensures
                self@.tokens == start.tokens,
                start.pos <= self@.pos <= start.tokens.len(),
                self@.pos == skip_newlines(start.tokens, start.pos),
            decreases self@.tokens.len() - self@.pos,
        {
            let skip = match self.peek() {
                Some(Token::Newline) => true,
                Some(Token::Comment(_)) => true,
                _ => false,
            };
            if !skip {
                break ;
            }
            self.bump();
        }
    }

    /// Passes over comments.
    fn skip_comments(&mut self)
        ensures
            final(self)@.tokens == old(self)@.tokens,
            final(self)@.pos == skip_comments(old(self)@.tokens, old(self)@.pos),
            old(self)@.pos <= final(self)@.pos <= old(self)@.tokens.len(),
    {
        let ghost start = self@;
        proof {
            use_type_invariant(&*self);
        }
        loop
            invariant
                self@.tokens == start.tokens,
                0 <= start.pos <= self@.pos <= start.tokens.len(),
                skip_comments(start.tokens, start.pos) == skip_comments(start.tokens, self@.pos),
            ensures
                self@.tokens == start.tokens,
                start.pos <= self@.pos <= start.tokens.len(),
                self@.pos == skip_comments(start.tokens, start.pos),
            decreases self@.tokens.len() - self@.pos,
        {
            let skip = match self.peek() {
                Some(Token::Comment(_)) => true,
                _ => false,
            };
            if !skip {
                break ;
            }
            self.bump();
        }
    }

    /// Passes over the comments at the end of a line and its newline.
    fn finish_line(&mut self)
        ensures
            final(self)@.tokens == old(self)@.tokens,
            final(self)@.pos == line_end(old(self)@.tokens, old(self)@.pos),
            old(self)@.pos <= final(self)@.pos <= old(self)@.tokens.len(),
    {
        self.skip_comments();
        let newline = match self.peek() {
            Some(Token::Newline) => true,
            _ => false,
        };
        if newline {
            self.bump();
        }
    }

    /// Parses a register.
    pub fn parse_register(&mut self) -> (r: Result<Register, ParseError>)
        ensures
            final(self)@.tokens == old(self)@.tokens,
            old(self)@.pos <= final(self)@.pos <= old(self)@.tokens.len(),
            match spec_parse_register(old(self)@.tokens, old(self)@.pos) {
                Ok((reg, next)) => r == Ok::<Register, ParseError>(reg) && final(self)@.pos == next,
                Err(f) => r == Err::<Register, ParseError>(f.error) && final(self)@.pos == f.at,
            },
    {
        let number: Option<u8> = match self.peek() {
            Some(Token::Register(n)) => Some(*n),
            _ => None,
        };
        match number {
            Some(n) => match Register::from_u8(n) {
                Some(reg) => {
                    self.bump();
                    Ok(reg)
                },
                None => self.fail_after(ParseErrorKind::InvalidRegister),
            },
            None => self.fail_after(ParseErrorKind::ExpectedRegister),
        }
    }

    /// Parses an address operand.
    pub fn parse_address(&mut self) -> (r: Result<Address, ParseError>)
        ensures
            final(self)@.tokens == old(self)@.tokens,
            old(self)@.pos <= final(self)@.pos <= old(self)@.tokens.len(),
            match spec_parse_address(old(self)@.tokens, old(self)@.pos) {
                Ok((addr, next)) => r is Ok && r->Ok_0@ == addr && final(self)@.pos == next,
                Err(f) => r == Err::<Address, ParseError>(f.error) && final(self)@.pos == f.at,
            },
    {
        let address: Option<Address> = match self.peek() {
            Some(Token::Label(name)) => Some(Address::Label(name.clone())),
            Some(Token::Number(n)) => Some(Address::Number(*n)),
            Some(Token::Immediate(w)) => Some(Address::Immediate(*w)),
            Some(Token::Literal(lit)) => Some(Address::Literal(lit.clone())),
            _ => None,
        };
        match address {
            Some(address) => {
                self.bump();
                Ok(address)
            },
            None => self.fail_at(ParseErrorKind::ExpectedAddress),
        }
    }

    /// Parses a label.
    pub fn parse_label(&mut self) -> (r: Result<String, ParseError>)
        ensures
            final(self)@.tokens == old(self)@.tokens,
            old(self)@.pos <= final(self)@.pos <= old(self)@.tokens.len(),
            match spec_parse_label(old(self)@.tokens, old(self)@.pos) {
                Ok((name, next)) => r is Ok && r->Ok_0@ == name && final(self)@.pos == next,
                Err(f) => r == Err::<String, ParseError>(f.error) && final(self)@.pos == f.at,
            },
    {
        let label: Option<String> = match self.peek() {
            Some(Token::Label(name)) => Some(name.clone()),
            _ => None,
        };
        match label {
            Some(label) => {
                self.bump();
                Ok(label)
            },
            None => self.fail_after(ParseErrorKind::ExpectedLabel),
        }
    }

    /// Parses a number.
    pub fn parse_number(&mut self) -> (r: Result<i32, ParseError>)
        ensures
            final(self)@.tokens == old(self)@.tokens,
            old(self)@.pos <= final(self)@.pos <= old(self)@.tokens.len(),
            match spec_parse_number(old(self)@.tokens, old(self)@.pos) {
                Ok((n, next)) => r == Ok::<i32, ParseError>(n) && final(self)@.pos == next,
                Err(f) => r == Err::<i32, ParseError>(f.error) && final(self)@.pos == f.at,
            },
    {
        let number: Option<i32> = match self.peek() {
            Some(Token::Number(n)) => Some(*n),
            _ => None,
        };
        match number {
            Some(n) => {
                self.bump();
                Ok(n)
            },
            None => self.fail_after(ParseErrorKind::ExpectedNumber),
        }
    }

    /// Parses a comma.
    pub fn expect_comma(&mut self) -> (r: Result<(), ParseError>)
        ensures
            final(self)@.tokens == old(self)@.tokens,
            old(self)@.pos <= final(self)@.pos <= old(self)@.tokens.len(),
            match spec_expect_comma(old(self)@.tokens, old(self)@.pos) {
                Ok(next) => r is Ok && final(self)@.pos == next,
                Err(f) => r == Err::<(), ParseError>(f.error) && final(self)@.pos == f.at,
            },
    {
        let comma = match self.peek() {
            Some(Token::Comma) => true,
            _ => false,
        };
        if comma {
            self.bump();
            Ok(())
        } else {
            self.fail_after(ParseErrorKind::ExpectedComma)
        }
    }

    /// Parses the optional index register behind an address.
    fn parse_index(&mut self) -> (r: Result<Option<Register>, ParseError>)
        ensures
            final(self)@.tokens == old(self)@.tokens,
            old(self)@.pos <= final(self)@.pos <= old(self)@.tokens.len(),
            match spec_parse_index(old(self)@.tokens, old(self)@.pos) {
                Ok((index, next)) => r == Ok::<Option<Register>, ParseError>(index) && final(self)@.pos == next,
                Err(f) => r == Err::<Option<Register>, ParseError>(f.error) && final(self)@.pos == f.at,
            },
    {
        let comma = match self.peek() {
            Some(Token::Comma) => true,
            _ => false,
        };
        if comma {
            self.bump();
            match self.parse_register() {
                Ok(reg) => Ok(Some(reg)),
                Err(e) => Err(e),
            }
        } else {
            Ok(None)
        }
    }

    /// Parses one value of a `DC`.
    fn parse_dc_value(&mut self) -> (r: Result<DcValue, ParseError>)
        ensures
            final(self)@.tokens == old(self)@.tokens,
            old(self)@.pos <= final(self)@.pos <= old(self)@.tokens.len(),
            match spec_parse_dc_value(old(self)@.tokens, old(self)@.pos) {
                Ok((value, next)) => r is Ok && r->Ok_0@ == value && final(self)@.pos == next
                    && old(self)@.pos < next,
                Err(f) => r == Err::<DcValue, ParseError>(f.error) && final(self)@.pos == f.at,
            },
    {
        let value: Option<DcValue> = match self.peek() {
            Some(Token::Number(n)) => Some(DcValue::Number(*n)),
            Some(Token::String(s)) => Some(DcValue::String(s.clone())),
            Some(Token::Label(name)) => Some(DcValue::Label(name.clone())),
            Some(Token::Immediate(w)) => Some(DcValue::Immediate(*w)),
            _ => None,
        };
        match value {
            Some(value) => {
                self.bump();
                Ok(value)
            },
            None => self.fail_at(ParseErrorKind::ExpectedDcValue),
        }
    }

    /// Parses the values of a `DC`.
    pub fn parse_dc_values(&mut self) -> (r: Result<Vec<DcValue>, ParseError>)
        ensures
            final(self)@.tokens == old(self)@.tokens,
            old(self)@.pos <= final(self)@.pos <= old(self)@.tokens.len(),
            match spec_parse_dc_values(old(self)@.tokens, old(self)@.pos, Seq::empty()) {
                Ok((values, next)) => r is Ok && dc_values_view(r->Ok_0@) == values && final(self)@.pos == next,
                Err(f) => r == Err::<Vec<DcValue>, ParseError>(f.error) && final(self)@.pos == f.at,
            },
    {
        let ghost start = self@;
        let mut values: Vec<DcValue> = Vec::new();
        proof {
            use_type_invariant(&*self);
            assert(dc_values_view(values@) == Seq::<crate::ast::DcValueView>::empty());
        }
        loop
            invariant
                start == old(self)@,
                self@.tokens == start.tokens,
                0 <= start.pos <= self@.pos <= start.tokens.len(),
                spec_parse_dc_values(start.tokens, start.pos, Seq::empty())
                    == spec_parse_dc_values(start.tokens, self@.pos, dc_values_view(values@)),
            decreases self@.tokens.len() - self@.pos,
        {
            let ghost before = dc_values_view(values@);
            match self.parse_dc_value() {
                Err(e) => {
                    return Err(e);
                },
                Ok(value) => {
                    let ghost view = value@;
                    values.push(value);
                    assert(dc_values_view(values@) == before.push(view));
                },
            }
            let comma = match self.peek() {
                Some(Token::Comma) => true,
                _ => false,
            };
            if comma {
                self.bump();
            } else {
                return Ok(values);
            }
        }
    }

    /// Parses the operands of an address instruction.
    fn parse_addr_operands(&mut self, op: AddrInst) -> (r: Result<Instruction, ParseError>)
        ensures
            final(self)@.tokens == old(self)@.tokens,
            old(self)@.pos <= final(self)@.pos <= old(self)@.tokens.len(),
            match spec_parse_addr_operands(old(self)@.tokens, op, old(self)@.pos) {
                Ok((instr, next)) => r is Ok && r->Ok_0@ == instr && final(self)@.pos == next,
                Err(f) => r == Err::<Instruction, ParseError>(f.error) && final(self)@.pos == f.at,
            },
    {
        let addr = match self.parse_address() {
            Ok(addr) => addr,
            Err(e) => {
                return Err(e);
            },
        };
        let index = match self.parse_index() {
            Ok(index) => index,
            Err(e) => {
                return Err(e);
            },
        };
        Ok(Instruction::Addr(op, addr, index))
    }

    /// Parses the operands of an instruction that starts with a register.
    fn parse_reg_operands(&mut self, op: RegAddrInst) -> (r: Result<Instruction, ParseError>)
        ensures
            final(self)@.tokens == old(self)@.tokens,
            old(self)@.pos <= final(self)@.pos <= old(self)@.tokens.len(),
            match spec_parse_reg_operands(old(self)@.tokens, op, old(self)@.pos) {
                Ok((instr, next)) => r is Ok && r->Ok_0@ == instr && final(self)@.pos == next,
                Err(f) => r == Err::<Instruction, ParseError>(f.error) && final(self)@.pos == f.at,
            },
    {
        let r1 = match self.parse_register() {
            Ok(r1) => r1,
            Err(e) => {
                return Err(e);
            },
        };
        match self.expect_comma() {
            Ok(_) => {},
            Err(e) => {
                return Err(e);
            },
        }
        let register_next = match self.peek() {
            Some(Token::Register(_)) => true,
            _ => false,
        };
        let two_reg = if register_next {
            TwoRegInst::from_reg_addr(op)
        } else {
            None
        };
        match two_reg {
            Some(two_reg_op) => {
                let r2 = match self.parse_register() {
                    Ok(r2) => r2,
                    Err(e) => {
                        return Err(e);
                    },
                };
                Ok(Instruction::TwoReg(two_reg_op, r1, r2))
            },
            None => {
                let addr = match self.parse_address() {
                    Ok(addr) => addr,
                    Err(e) => {
                        return Err(e);
                    },
                };
                let index = match self.parse_index() {
                    Ok(index) => index,
                    Err(e) => {
                        return Err(e);
                    },
                };
                Ok(Instruction::RegAddr(op, r1, addr, index))
            },
        }
    }

    /// Parses the two labels of `IN` and `OUT`.
    fn parse_two_labels(&mut self) -> (r: Result<(String, String), ParseError>)
        ensures
            final(self)@.tokens == old(self)@.tokens,
            old(self)@.pos <= final(self)@.pos <= old(self)@.tokens.len(),
            match spec_parse_two_labels(old(self)@.tokens, old(self)@.pos) {
                Ok((buf, len, next)) => r is Ok && r->Ok_0.0@ == buf && r->Ok_0.1@ == len && final(self)@.pos == next,
                Err(f) => r == Err::<(String, String), ParseError>(f.error) && final(self)@.pos == f.at,
            },
    {
        let buf = match self.parse_label() {
            Ok(buf) => buf,
            Err(e) => {
                return Err(e);
            },
        };
        match self.expect_comma() {
            Ok(_) => {},
            Err(e) => {
                return Err(e);
            },
        }
        let len = match self.parse_label() {
            Ok(len) => len,
            Err(e) => {
                return Err(e);
            },
        };
        Ok((buf, len))
    }

    /// Parses the operands of the instruction with the mnemonic `name`.
    pub fn parse_instruction(&mut self, name: &str) -> (r: Result<Instruction, ParseError>)
        ensures
            final(self)@.tokens == old(self)@.tokens,
            old(self)@.pos <= final(self)@.pos <= old(self)@.tokens.len(),
            match spec_parse_instruction(old(self)@.tokens, name@, old(self)@.pos) {
                Ok((instr, next)) => r is Ok && r->Ok_0@ == instr && final(self)@.pos == next,
                Err(f) => r == Err::<Instruction, ParseError>(f.error) && final(self)@.pos == f.at,
            },
    {
        proof {
            use_type_invariant(&*self);
        }
        if text_eq(name, "NOP") {
            Ok(Instruction::NoOperand(NoOperandInst::Nop))
        } else if text_eq(name, "RET") {
            Ok(Instruction::NoOperand(NoOperandInst::Ret))
        } else if text_eq(name, "POP") {
            match self.parse_register() {
                Ok(reg) => Ok(Instruction::OneReg(OneRegInst::Pop, reg)),
                Err(e) => Err(e),
            }
        } else if text_eq(name, "START") {
            let entry: Option<String> = match self.peek() {
                Some(Token::Label(entry)) => Some(entry.clone()),
                _ => None,
            };
            if entry.is_some() {
                self.bump();
            }
            Ok(Instruction::Start(entry))
        } else if text_eq(name, "END") {
            Ok(Instruction::End)
        } else if text_eq(name, "DS") {
            match self.parse_number() {
                Ok(n) => Ok(Instruction::Ds(n)),
                Err(e) => Err(e),
            }
        } else if text_eq(name, "DC") {
            match self.parse_dc_values() {
                Ok(values) => Ok(Instruction::Dc(values)),
                Err(e) => Err(e),
            }
        } else if text_eq(name, "IN") {
            match self.parse_two_labels() {
                Ok((buf, len)) => Ok(Instruction::In(buf, len)),
                Err(e) => Err(e),
            }
        } else if text_eq(name, "OUT") {
            match self.parse_two_labels() {
                Ok((buf, len)) => Ok(Instruction::Out(buf, len)),
                Err(e) => Err(e),
            }
        } else if text_eq(name, "RPUSH") {
            Ok(Instruction::Rpush)
        } else if text_eq(name, "RPOP") {
            Ok(Instruction::Rpop)
        } else {
            match AddrInst::from_str(name) {
                Some(op) => self.parse_addr_operands(op),
                None => match RegAddrInst::from_str(name) {
                    Some(op) => self.parse_reg_operands(op),
                    None => self.fail_at(ParseErrorKind::UnknownInstruction),
                },
            }
        }
    }

    /// Parses one line.
    pub fn parse_line(&mut self) -> (r: Result<Line, ParseError>)
        ensures
            final(self)@.tokens == old(self)@.tokens,
            old(self)@.pos <= final(self)@.pos <= old(self)@.tokens.len(),
            match spec_parse_line(old(self)@.tokens, old(self)@.pos) {
                Ok((line, next)) => r is Ok && r->Ok_0@ == line && final(self)@.pos == next && old(self)@.pos < next,
                Err(f) => r == Err::<Line, ParseError>(f.error) && final(self)@.pos == f.at,
            },
    {
        let start: usize = self.pos;
        let line_number: usize = self.line_of_next();
        self.skip_comments();
        let label: Option<String> = match self.peek() {
            Some(Token::Label(name)) => Some(name.clone()),
            _ => None,
        };
        if label.is_some() {
            self.bump();
            let ends = match self.peek() {
                Some(Token::Newline) => true,
                Some(Token::Comment(_)) => true,
                None => true,
                _ => false,
            };
            if ends {
                return Ok(Line { label, instruction: None, line_number });
            }
        }
        let name: Option<String> = match self.peek() {
            Some(Token::Instruction(name)) => Some(name.clone()),
            _ => None,
        };
        match name {
            Some(name) => {
                self.bump();
                match self.parse_instruction(name.as_str()) {
                    Err(e) => Err(e),
                    Ok(instruction) => {
                        self.finish_line();
                        Ok(Line { label, instruction: Some(instruction), line_number })
                    },
                }
            },
            None => {
                self.finish_line();
                if self.pos == start {
                    self.fail_after(ParseErrorKind::UnexpectedToken)
                } else {
                    Ok(Line { label, instruction: None, line_number })
                }
            },
        }
    }

    /// Parses the lines up to the end of the tokens.
    pub fn parse(&mut self) -> (r: Result<Program, ParseError>)
        ensures
            final(self)@.tokens == old(self)@.tokens,
            old(self)@.pos <= final(self)@.pos <= old(self)@.tokens.len(),
            match spec_parse(old(self)@.tokens, old(self)@.pos, Seq::empty()) {
                Ok((lines, end)) => r is Ok && r->Ok_0@ == lines && final(self)@.pos == end,
                Err(f) => r == Err::<Program, ParseError>(f.error) && final(self)@.pos == f.at,
            },
    {
        let ghost start = self@;
        let mut lines: Vec<Line> = Vec::new();
        proof {
            use_type_invariant(&*self);
            assert(lines_view(lines@) == Seq::<LineView>::empty());
        }
        loop
            invariant
                start == old(self)@,
                self@.tokens == start.tokens,
                0 <= start.pos <= self@.pos <= start.tokens.len(),
                spec_parse(start.tokens, start.pos, Seq::empty()) == spec_parse(
                    start.tokens,
                    self@.pos,
                    lines_view(lines@),
                ),
            decreases self@.tokens.len() - self@.pos,
        {
            self.skip_newlines();
            let done = match self.peek() {
                Some(Token::Eof) => true,
                None => true,
                _ => false,
            };
            if done {
                return Ok(Program { lines });
            }
            let ghost before = lines_view(lines@);
            match self.parse_line() {
                Err(e) => {
                    return Err(e);
                },
                Ok(line) => {
                    if line.label.is_some() || line.instruction.is_some() {
                        let ghost view = line@;
                        lines.push(line);
                        assert(lines_view(lines@) == before.push(view));
                    }
                },
            }
        }
    }
}

} // verus!
