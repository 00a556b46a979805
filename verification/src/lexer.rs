//! The lexer: from source text to tokens.

use vstd::prelude::*;
use vstd::string::*;
use crate::lexing::{
    classify_name, comment_end, digits_end, is_label_char, is_label_start, is_mnemonic, is_space,
    label_end, lex_all, lex_error, lex_error_message, lex_literal, lex_token, line_number_at,
    newlines_before, scan_hex_digits, scan_immediate, scan_number, scan_string, spaces_end,
    to_upper, token_text, upper_text, LexError, LexErrorKind, LexResult, TokenView,
};
use crate::text::{
    char_is_digit, char_is_hex_digit, chars_of, is_hex_digit, parse_hex_u16, parse_i32,
    push_decimal, push_hex4, push_int, text_eq,
};

verus! {

/// A token of the source text.
#[derive(Debug, Clone, PartialEq)]
pub enum Token {
    /// A name that is neither a register nor a mnemonic, as written.
    Label(String),
    /// A mnemonic, in upper case.
    Instruction(String),
    /// A register, by its number from 0 to 7.
    Register(u8),
    /// A decimal number.
    Number(i32),
    /// `#` and four hexadecimal digits.
    Immediate(u16),
    /// A string, without its quotes.
    String(String),
    /// What follows `=`, in canonical form.
    Literal(String),
    Comma,
    Colon,
    /// A comment, without its semicolon.
    Comment(String),
    Newline,
    Eof,
}

impl View for Token {
    type V = TokenView;

    open spec fn view(&self) -> TokenView {
        match *self {
            Token::Label(s) => TokenView::Label(s@),
            Token::Instruction(s) => TokenView::Instruction(s@),
            Token::Register(n) => TokenView::Register(n),
            Token::Number(n) => TokenView::Number(n),
            Token::Immediate(w) => TokenView::Immediate(w),
            Token::String(s) => TokenView::String(s@),
            Token::Literal(s) => TokenView::Literal(s@),
            Token::Comma => TokenView::Comma,
            Token::Colon => TokenView::Colon,
            Token::Comment(s) => TokenView::Comment(s@),
            Token::Newline => TokenView::Newline,
            Token::Eof => TokenView::Eof,
        }
    }
}

impl Token {
    /// The token written out, as in a listing.
    pub fn to_string(&self) -> (text: String)
        ensures
            text@ == token_text(self@),
    {
        let mut text = String::new();
        match self {
            Token::Label(s) => {
                text.append("Label(");
                text.append(s.as_str());
                text.append(")");
            },
            Token::Instruction(s) => {
                text.append("Instruction(");
                text.append(s.as_str());
                text.append(")");
            },
            Token::Register(r) => {
                text.append("GR");
                push_decimal(&mut text, *r as u64);
            },
            Token::Number(n) => {
                text.append("Number(");
                push_int(&mut text, *n);
                text.append(")");
            },
            Token::Immediate(w) => {
                text.append("#");
                push_hex4(&mut text, *w);
            },
            Token::String(s) => {
                text.append("String('");
                text.append(s.as_str());
                text.append("')");
            },
            Token::Literal(s) => {
                text.append("Literal(");
                text.append(s.as_str());
                text.append(")");
            },
            Token::Comma => {
                text.append(",");
            },
            Token::Colon => {
                text.append(":");
            },
            Token::Comment(s) => {
                text.append("Comment(;");
                text.append(s.as_str());
                text.append(")");
            },
            Token::Newline => {
                text.append("\\n");
            },
            Token::Eof => {
                text.append("EOF");
            },
        }
        text
    }
}

impl LexError {
    /// The message of the error: what it is called, and its line.
    pub fn message(&self) -> (text: String)
        ensures
            text@ == lex_error_message(*self),
    {
        let error = self;
        let name: &str = match error.kind {
            LexErrorKind::ExpectedDigit => "Expected digit after sign",
            LexErrorKind::NumberOutOfRange => "Number out of range",
            LexErrorKind::IncompleteImmediate => "Incomplete immediate value",
            LexErrorKind::ExpectedHexDigit => "Expected hex digit in immediate value",
            LexErrorKind::UnterminatedString => "Unterminated string",
            LexErrorKind::InvalidLiteral => "Invalid literal",
            LexErrorKind::UnexpectedCharacter => "Unexpected character",
        };
        let mut text = String::new();
        text.append(name);
        text.append(" at line ");
        push_decimal(&mut text, error.line_number as u64);
        text
    }
}

/// The views of a list of tokens with their line numbers, in order.
pub open spec fn tokens_view(tokens: Seq<(Token, usize)>) -> Seq<(TokenView, usize)> {
    Seq::new(tokens.len(), |i: int| (tokens[i].0@, tokens[i].1))
}

/// Among the first `pos` characters there are at most `pos` newlines.
pub proof fn lemma_newlines_bound(s: Seq<char>, pos: int)
    requires
        0 <= pos,
    ensures
        newlines_before(s, pos) <= pos,
    decreases pos,
{
    if pos > 0 {
        lemma_newlines_bound(s, pos - 1);
    }
}

/// Where the lexer stands in its text.
struct Cursor {
    /// The index of the next character.
    pos: usize,
    /// The number of newlines before it.
    newlines: usize,
}

/// A lexer over one source text.
pub struct Lexer {
    input: Vec<char>,
    cursor: Cursor,
}

/// What a lexer is: its text, and the position of the next character.
pub struct LexerView {
    pub input: Seq<char>,
    pub pos: int,
}

impl View for Lexer {
    type V = LexerView;

    closed spec fn view(&self) -> LexerView {
        LexerView { input: self.input@, pos: self.cursor.pos as int }
    }
}

/// Whether a character is a space, a tab or a carriage return.
pub fn char_is_space(c: char) -> (b: bool)
    ensures
        b == is_space(c),
{
    c == ' ' || c == '\t' || c == '\r'
}

/// The capital of a small letter; any other character itself.
pub fn upper_char(c: char) -> (u: char)
    ensures
        u == to_upper(c),
{
    if 'a' <= c && c <= 'z' {
        (c as u8 - 32) as char
    } else {
        c
    }
}

/// A text with every small letter replaced by its capital.
pub fn upper_case(s: &str) -> (upper: String)
    ensures
        upper@ == upper_text(s@),
{
    let chars = chars_of(s);
    let mut upper = String::new();
    let mut i: usize = 0;
    while i < chars.len()
        invariant
            i <= chars.len(),
            chars@ == s@,
            upper@ == upper_text(s@).subrange(0, i as int),
        decreases chars.len() - i,
    {
        upper.push(upper_char(chars[i]));
        i += 1;
    }
    upper
}

/// Whether an upper-case name is a mnemonic.
pub fn is_mnemonic_text(upper: &str) -> (b: bool)
    ensures
        b == is_mnemonic(upper@),
{
    text_eq(upper, "NOP")
        || text_eq(upper, "LD")
        || text_eq(upper, "ST")
        || text_eq(upper, "LAD")
        || text_eq(upper, "ADDA")
        || text_eq(upper, "SUBA")
        || text_eq(upper, "ADDL")
        || text_eq(upper, "SUBL")
        || text_eq(upper, "MULA")
        || text_eq(upper, "DIVA")
        || text_eq(upper, "MULL")
        || text_eq(upper, "DIVL")
        || text_eq(upper, "AND")
        || text_eq(upper, "OR")
        || text_eq(upper, "XOR")
        || text_eq(upper, "CPA")
        || text_eq(upper, "CPL")
        || text_eq(upper, "SLA")
        || text_eq(upper, "SRA")
        || text_eq(upper, "SLL")
        || text_eq(upper, "SRL")
        || text_eq(upper, "JMI")
        || text_eq(upper, "JNZ")
        || text_eq(upper, "JZE")
        || text_eq(upper, "JUMP")
        || text_eq(upper, "JPL")
        || text_eq(upper, "JOV")
        || text_eq(upper, "PUSH")
        || text_eq(upper, "POP")
        || text_eq(upper, "CALL")
        || text_eq(upper, "RET")
        || text_eq(upper, "SVC")
        || text_eq(upper, "START")
        || text_eq(upper, "END")
        || text_eq(upper, "DS")
        || text_eq(upper, "DC")
        || text_eq(upper, "IN")
        || text_eq(upper, "OUT")
        || text_eq(upper, "RPUSH")
        || text_eq(upper, "RPOP")
}

/// The token that a name is.
pub fn classify(name: String) -> (token: Token)
    ensures
        token@ == classify_name(name@),
{
    let upper = upper_case(name.as_str());
    let chars = chars_of(upper.as_str());
    if chars.len() == 3 && chars[0] == 'G' && chars[1] == 'R' && '0' <= chars[2] && chars[2]
        <= '7' {
        return Token::Register(chars[2] as u8 - 48);
    }
    if is_mnemonic_text(upper.as_str()) {
        Token::Instruction(upper)
    } else {
        Token::Label(name)
    }
}

impl Lexer {
    #[verifier::type_invariant]
    spec fn inv(self) -> bool {
        &&& self.cursor.pos <= self.input.len()
        &&& self.cursor.newlines == newlines_before(self.input@, self.cursor.pos as int)
    }

    /// A lexer at the start of a text.
    pub fn new(input: &str) -> (lexer: Lexer)
        ensures
            lexer@ == (LexerView { input: input@, pos: 0 }),
    {
        Lexer { input: chars_of(input), cursor: Cursor { pos: 0, newlines: 0 } }
    }

    /// The number of the line that the next character is on.
    pub fn current_line(&self) -> (line: usize)
        ensures
            line == line_number_at(self@.input, self@.pos),
    {
        proof {
            use_type_invariant(self);
        }
        if self.cursor.newlines == usize::MAX {
            usize::MAX
        } else {
            self.cursor.newlines + 1
        }
    }

    fn error<T>(&self, kind: LexErrorKind) -> (r: Result<T, LexError>)
        ensures
            r == Err::<T, LexError>(lex_error(self@.input, kind, self@.pos)),
    {
        Err(LexError { kind, line_number: self.current_line() })
    }

    /// The next character, if there is one.
    pub fn peek(&self) -> (c: Option<char>)
        ensures
            0 <= self@.pos <= self@.input.len(),
            c == if self@.pos < self@.input.len() {
                Some(self@.input[self@.pos])
            } else {
                None
            },
    {
        proof {
            use_type_invariant(self);
        }
        if self.cursor.pos < self.input.len() {
            Some(self.input[self.cursor.pos])
        } else {
            None
        }
    }

    /// The character `n` places behind the next one, if there is one.
    pub fn peek_ahead(&self, n: usize) -> (c: Option<char>)
        ensures
            c == if self@.pos + n < self@.input.len() {
                Some(self@.input[self@.pos + n])
            } else {
                None
            },
    {
        proof {
            use_type_invariant(self);
        }
        if n < self.input.len() - self.cursor.pos {
            Some(self.input[self.cursor.pos + n])
        } else {
            None
        }
    }

    /// Reads the next character, if there is one.
    pub fn advance(&mut self) -> (c: Option<char>)
        ensures
            final(self)@.input == old(self)@.input,
            0 <= old(self)@.pos <= old(self)@.input.len(),
            if old(self)@.pos < old(self)@.input.len() {
                c == Some(old(self)@.input[old(self)@.pos]) && final(self)@.pos == old(self)@.pos
                    + 1
            } else {
                c is None && final(self)@.pos == old(self)@.pos
            },
    {
        proof {
            use_type_invariant(&*self);
            lemma_newlines_bound(self.input@, self.cursor.pos as int);
        }
        if self.cursor.pos < self.input.len() {
            let ch = self.input[self.cursor.pos];
            let newlines: usize = if ch == '\n' {
                self.cursor.newlines + 1
            } else {
                self.cursor.newlines
            };
            self.cursor = Cursor { pos: self.cursor.pos + 1, newlines };
            Some(ch)
        } else {
            None
        }
    }

    /// Reads the spaces, tabs and carriage returns that come next.
    pub fn skip_whitespace(&mut self)
        ensures
            final(self)@.input == old(self)@.input,
            final(self)@.pos == spaces_end(old(self)@.input, old(self)@.pos),
            old(self)@.pos <= final(self)@.pos <= old(self)@.input.len(),
            line_number_at(final(self)@.input, final(self)@.pos) == line_number_at(
                old(self)@.input,
                old(self)@.pos,
            ),
    {
        let ghost start = self@;
        loop
            invariant
                self@.input == start.input,
                start.pos <= self@.pos,
                spaces_end(start.input, start.pos) == spaces_end(start.input, self@.pos),
                newlines_before(start.input, start.pos) == newlines_before(start.input, self@.pos),
            ensures
                self@.input == start.input,
                start.pos <= self@.pos <= start.input.len(),
                self@.pos == spaces_end(start.input, start.pos),
                newlines_before(start.input, start.pos) == newlines_before(start.input, self@.pos),
            decreases self@.input.len() - self@.pos,
        {
            match self.peek() {
                Some(ch) => {
                    if char_is_space(ch) {
                        self.advance();
                    } else {
                        break ;
                    }
                },
                None => {
                    break ;
                },
            }
        }
    }

    /// Whether a label may start with a character.
    pub fn is_label_start(ch: char) -> (b: bool)
        ensures
            b == is_label_start(ch),
    {
        ('a' <= ch && ch <= 'z') || ('A' <= ch && ch <= 'Z') || ch == '$' || ch == '%' || ch == '_'
            || ch == '.'
    }

    /// Whether a label may go on with a character.
    pub fn is_label_char(ch: char) -> (b: bool)
        ensures
            b == is_label_char(ch),
    {
        Self::is_label_start(ch) || char_is_digit(ch)
    }

    /// Reads the label characters that come next.
    pub fn read_identifier(&mut self) -> (name: String)
        ensures
            final(self)@.input == old(self)@.input,
            final(self)@.pos == label_end(old(self)@.input, old(self)@.pos),
            old(self)@.pos <= final(self)@.pos <= old(self)@.input.len(),
            name@ == old(self)@.input.subrange(old(self)@.pos, final(self)@.pos),
            newlines_before(final(self)@.input, final(self)@.pos) == newlines_before(
                old(self)@.input,
                old(self)@.pos,
            ),
    {
        let ghost start = self@;
        let mut name = String::new();
        proof {
            use_type_invariant(&*self);
        }
        loop
            invariant
                self@.input == start.input,
                0 <= start.pos <= self@.pos <= start.input.len(),
                label_end(start.input, start.pos) == label_end(start.input, self@.pos),
                name@ == start.input.subrange(start.pos, self@.pos),
                newlines_before(start.input, start.pos) == newlines_before(start.input, self@.pos),
            ensures
                self@.input == start.input,
                start.pos <= self@.pos <= start.input.len(),
                self@.pos == label_end(start.input, start.pos),
                name@ == start.input.subrange(start.pos, self@.pos),
                newlines_before(start.input, start.pos) == newlines_before(start.input, self@.pos),
            decreases self@.input.len() - self@.pos,
        {
            match self.peek() {
                Some(ch) => {
                    if Self::is_label_char(ch) {
                        name.push(ch);
                        self.advance();
                    } else {
                        break ;
                    }
                },
                None => {
                    break ;
                },
            }
        }
        name
    }

    /// Reads the digits that come next.
    fn skip_digits(&mut self)
        ensures
            final(self)@.input == old(self)@.input,
            final(self)@.pos == digits_end(old(self)@.input, old(self)@.pos),
            old(self)@.pos <= final(self)@.pos <= old(self)@.input.len(),
            newlines_before(final(self)@.input, final(self)@.pos) == newlines_before(
                old(self)@.input,
                old(self)@.pos,
            ),
    {
        let ghost start = self@;
        proof {
            use_type_invariant(&*self);
        }
        loop
            invariant
                self@.input == start.input,
                0 <= start.pos <= self@.pos <= start.input.len(),
                digits_end(start.input, start.pos) == digits_end(start.input, self@.pos),
                newlines_before(start.input, start.pos) == newlines_before(start.input, self@.pos),
            ensures
                self@.input == start.input,
                start.pos <= self@.pos <= start.input.len(),
                self@.pos == digits_end(start.input, start.pos),
                newlines_before(start.input, start.pos) == newlines_before(start.input, self@.pos),
            decreases self@.input.len() - self@.pos,
        {
            match self.peek() {
                Some(ch) => {
                    if char_is_digit(ch) {
                        self.advance();
                    } else {
                        break ;
                    }
                },
                None => {
                    break ;
                },
            }
        }
    }

    /// Reads a decimal number with an optional sign.
    pub fn read_number(&mut self) -> (r: Result<i32, LexError>)
        ensures
            final(self)@.input == old(self)@.input,
            old(self)@.pos <= final(self)@.pos <= old(self)@.input.len(),
            match scan_number(old(self)@.input, old(self)@.pos) {
                Ok((n, end)) => r == Ok::<i32, LexError>(n) && final(self)@.pos == end && old(self)@.pos < end,
                Err((kind, at)) => r == Err::<i32, LexError>(lex_error(old(self)@.input, kind, at))
                    && final(self)@.pos == at,
            },
            newlines_before(final(self)@.input, final(self)@.pos) == newlines_before(
                old(self)@.input,
                old(self)@.pos,
            ),
    {
        let start: usize = self.cursor.pos;
        match self.peek() {
            Some(ch) => {
                if ch == '+' || ch == '-' {
                    self.advance();
                }
            },
            None => {},
        }
        let digits: usize = self.cursor.pos;
        self.skip_digits();
        let end: usize = self.cursor.pos;
        if end == digits {
            return self.error(LexErrorKind::ExpectedDigit);
        }
        match parse_i32(&self.input, start, end) {
            Some(n) => Ok(n),
            None => self.error(LexErrorKind::NumberOutOfRange),
        }
    }

    /// Reads the four hexadecimal digits of an immediate, whose `#` was
    /// read.
    pub fn read_immediate(&mut self) -> (r: Result<u16, LexError>)
        ensures
            final(self)@.input == old(self)@.input,
            old(self)@.pos <= final(self)@.pos <= old(self)@.input.len(),
            match scan_immediate(old(self)@.input, old(self)@.pos) {
                Ok((w, end)) => r == Ok::<u16, LexError>(w) && final(self)@.pos == end,
                Err((kind, at)) => r == Err::<u16, LexError>(lex_error(old(self)@.input, kind, at))
                    && final(self)@.pos == at,
            },
            newlines_before(final(self)@.input, final(self)@.pos) == newlines_before(
                old(self)@.input,
                old(self)@.pos,
            ),
    {
        let ghost s = self@.input;
        let start: usize = self.cursor.pos;
        proof {
            use_type_invariant(&*self);
        }
        let mut k: usize = 0;
        while k < 4
            invariant
                k <= 4,
                s == old(self)@.input,
                start == old(self)@.pos,
                self@.input == s,
                self@.pos == start + k,
                start + k <= s.len(),
                scan_hex_digits(s, start as int, 4) == scan_hex_digits(
                    s,
                    start + k,
                    (4 - k) as nat,
                ),
                forall|j: int| start <= j < start + k ==> is_hex_digit(#[trigger] s[j]),
                newlines_before(s, start as int) == newlines_before(s, self@.pos),
            decreases 4 - k,
        {
            match self.peek() {
                Some(ch) => {
                    if char_is_hex_digit(ch) {
                        self.advance();
                    } else {
                        return self.error(LexErrorKind::ExpectedHexDigit);
                    }
                },
                None => {
                    return self.error(LexErrorKind::IncompleteImmediate);
                },
            }
            k += 1;
        }
        let ghost digits = s.subrange(start as int, start + 4);
        proof {
            crate::text::lemma_hex4_bound(digits);
        }
        Ok(parse_hex_u16(&self.input, start, start + 4).unwrap())
    }

    /// Reads the rest of a string, whose opening quote was read.
    pub fn read_string(&mut self) -> (r: Result<String, LexError>)
        ensures
            final(self)@.input == old(self)@.input,
            old(self)@.pos <= final(self)@.pos <= old(self)@.input.len(),
            match scan_string(old(self)@.input, old(self)@.pos, Seq::empty()) {
                Some((content, end)) => r is Ok && r->Ok_0@ == content && final(self)@.pos == end
                    && old(self)@.pos < end,
                None => r == Err::<String, LexError>(
                    lex_error(
                        old(self)@.input,
                        LexErrorKind::UnterminatedString,
                        old(self)@.input.len() as int,
                    ),
                ) && final(self)@.pos == old(self)@.input.len(),
            },
    {
        let ghost start = self@;
        let mut content = String::new();
        proof {
            use_type_invariant(&*self);
        }
        loop
            invariant
                start == old(self)@,
                self@.input == start.input,
                0 <= start.pos <= self@.pos <= start.input.len(),
                scan_string(start.input, start.pos, Seq::empty()) == scan_string(
                    start.input,
                    self@.pos,
                    content@,
                ),
            decreases self@.input.len() - self@.pos,
        {
            match self.advance() {
                Some(ch) => {
                    if ch == '\'' {
                        match self.peek() {
                            Some(next) => {
                                if next == '\'' {
                                    content.push('\'');
                                    self.advance();
                                } else {
                                    return Ok(content);
                                }
                            },
                            None => {
                                return Ok(content);
                            },
                        }
                    } else {
                        content.push(ch);
                    }
                },
                None => {
                    return self.error(LexErrorKind::UnterminatedString);
                },
            }
        }
    }

    /// Reads the rest of a comment, up to the end of its line.
    pub fn read_comment(&mut self) -> (comment: String)
        ensures
            final(self)@.input == old(self)@.input,
            final(self)@.pos == comment_end(old(self)@.input, old(self)@.pos),
            old(self)@.pos <= final(self)@.pos <= old(self)@.input.len(),
            comment@ == old(self)@.input.subrange(old(self)@.pos, final(self)@.pos),
    {
        let ghost start = self@;
        let mut comment = String::new();
        proof {
            use_type_invariant(&*self);
        }
        loop
            invariant
                self@.input == start.input,
                0 <= start.pos <= self@.pos <= start.input.len(),
                comment_end(start.input, start.pos) == comment_end(start.input, self@.pos),
                comment@ == start.input.subrange(start.pos, self@.pos),
            ensures
                self@.input == start.input,
                start.pos <= self@.pos <= start.input.len(),
                self@.pos == comment_end(start.input, start.pos),
                comment@ == start.input.subrange(start.pos, self@.pos),
            decreases self@.input.len() - self@.pos,
        {
            match self.peek() {
                Some(ch) => {
                    if ch == '\n' {
                        break ;
                    }
                    comment.push(ch);
                    self.advance();
                },
                None => {
                    break ;
                },
            }
        }
        comment
    }

    /// Reads what follows `=` and the spaces behind it.
    fn read_literal(&mut self) -> (r: Result<Token, LexError>)
        ensures
            final(self)@.input == old(self)@.input,
            old(self)@.pos <= final(self)@.pos <= old(self)@.input.len(),
            match lex_literal(old(self)@.input, old(self)@.pos) {
                LexResult::Token { token, next } => r is Ok && r->Ok_0@ == token && final(self)@.pos == next,
                LexResult::Error { kind, at } => r == Err::<Token, LexError>(
                    lex_error(old(self)@.input, kind, at),
                ) && final(self)@.pos == at,
            },
    {
        match self.peek() {
            Some(ch) => {
                if ch == '\'' {
                    self.advance();
                    match self.read_string() {
                        Ok(content) => {
                            let mut text = String::new();
                            text.push('\'');
                            text.append(content.as_str());
                            text.push('\'');
                            assert(text@ == seq!['\''] + content@ + seq!['\'']);
                            Ok(Token::Literal(text))
                        },
                        Err(e) => Err(e),
                    }
                } else if ch == '#' {
                    self.advance();
                    match self.read_immediate() {
                        Ok(w) => {
                            let mut text = String::new();
                            text.push('#');
                            push_hex4(&mut text, w);
                            Ok(Token::Literal(text))
                        },
                        Err(e) => Err(e),
                    }
                } else if ch == '+' || ch == '-' || char_is_digit(ch) {
                    match self.read_number() {
                        Ok(n) => {
                            let mut text = String::new();
                            push_int(&mut text, n);
                            Ok(Token::Literal(text))
                        },
                        Err(e) => Err(e),
                    }
                } else {
                    self.error(LexErrorKind::InvalidLiteral)
                }
            },
            None => self.error(LexErrorKind::InvalidLiteral),
        }
    }

    /// Reads the next token.
    pub fn next_token(&mut self) -> (r: Result<Token, LexError>)
        ensures
            final(self)@.input == old(self)@.input,
            old(self)@.pos <= final(self)@.pos <= old(self)@.input.len(),
            match lex_token(old(self)@.input, old(self)@.pos) {
                LexResult::Token { token, next } => r is Ok && r->Ok_0@ == token && final(self)@.pos == next,
                LexResult::Error { kind, at } => r == Err::<Token, LexError>(
                    lex_error(old(self)@.input, kind, at),
                ) && final(self)@.pos == at,
            },
            r is Ok && !(r->Ok_0@ is Eof) ==> old(self)@.pos < final(self)@.pos,
            r is Ok && r->Ok_0@ is Eof ==> final(self)@.pos == old(self)@.input.len(),
    {
        proof {
            use_type_invariant(&*self);
            crate::lexing::lemma_token_advances(self@.input, self@.pos);
        }
        self.skip_whitespace();
        match self.peek() {
            None => Ok(Token::Eof),
            Some(ch) => {
                if ch == '\n' {
                    self.advance();
                    Ok(Token::Newline)
                } else if ch == ',' {
                    self.advance();
                    Ok(Token::Comma)
                } else if ch == ':' {
                    self.advance();
                    Ok(Token::Colon)
                } else if ch == ';' {
                    self.advance();
                    let comment = self.read_comment();
                    Ok(Token::Comment(comment))
                } else if ch == '\'' {
                    self.advance();
                    match self.read_string() {
                        Ok(content) => Ok(Token::String(content)),
                        Err(e) => Err(e),
                    }
                } else if ch == '#' {
                    self.advance();
                    match self.read_immediate() {
                        Ok(w) => Ok(Token::Immediate(w)),
                        Err(e) => Err(e),
                    }
                } else if ch == '=' {
                    self.advance();
                    self.skip_whitespace();
                    self.read_literal()
                } else if ch == '+' || ch == '-' || char_is_digit(ch) {
                    match self.read_number() {
                        Ok(n) => Ok(Token::Number(n)),
                        Err(e) => Err(e),
                    }
                } else if Self::is_label_start(ch) {
                    let name = self.read_identifier();
                    Ok(classify(name))
                } else {
                    self.error(LexErrorKind::UnexpectedCharacter)
                }
            },
        }
    }

    /// Reads all the tokens up to the end of the text. Each comes with the
    /// number of the line it starts on; the last one is `Eof`.
    pub fn tokenize(&mut self) -> (r: Result<Vec<(Token, usize)>, LexError>)
        ensures
            final(self)@.input == old(self)@.input,
            old(self)@.pos <= final(self)@.pos <= old(self)@.input.len(),
            match lex_all(old(self)@.input, old(self)@.pos, Seq::empty()) {
                Ok(tokens) => r is Ok && tokens_view(r->Ok_0@) == tokens && final(self)@.pos
                    == old(self)@.input.len(),
                Err(f) => r == Err::<Vec<(Token, usize)>, LexError>(f.error) && final(self)@.pos
                    == f.at,
            },
    {
        let ghost start = self@;
        let mut tokens: Vec<(Token, usize)> = Vec::new();
        proof {
            use_type_invariant(&*self);
            assert(tokens_view(tokens@) == Seq::<(TokenView, usize)>::empty());
        }
        loop
            invariant
                start == old(self)@,
                self@.input == start.input,
                0 <= start.pos <= self@.pos <= start.input.len(),
                lex_all(start.input, start.pos, Seq::empty()) == lex_all(
                    start.input,
                    self@.pos,
                    tokens_view(tokens@),
                ),
            decreases self@.input.len() - self@.pos,
        {
            let line: usize = self.current_line();
            let ghost before = tokens_view(tokens@);
            match self.next_token() {
                Err(e) => {
                    return Err(e);
                },
                Ok(token) => {
                    let done = match &token {
                        Token::Eof => true,
                        _ => false,
                    };
                    let ghost view = token@;
                    tokens.push((token, line));
                    assert(tokens_view(tokens@) == before.push((view, line)));
                    if done {
                        return Ok(tokens);
                    }
                },
            }
        }
    }
}

} // verus!
