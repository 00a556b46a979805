//! The mathematical model of the lexer: which token stands at a position of
//! a text, and where the next one starts.

use vstd::prelude::*;
use crate::text::{
    decimal_text, hex4_text, hex_value, int_text, is_digit, is_hex_digit, spec_parse_i32,
};

verus! {

/// What a token holds, with texts as character sequences.
pub enum TokenView {
    Label(Seq<char>),
    Instruction(Seq<char>),
    Register(u8),
    Number(i32),
    Immediate(u16),
    String(Seq<char>),
    Literal(Seq<char>),
    Comma,
    Colon,
    Comment(Seq<char>),
    Newline,
    Eof,
}

/// Why a text could not be split into tokens.
#[derive(Debug, Clone, Copy, PartialEq, Eq, Structural)]
pub enum LexErrorKind {
    /// A sign that no digit follows.
    ExpectedDigit,
    /// A decimal number that does not fit in 32 bits.
    NumberOutOfRange,
    /// `#` followed by fewer than four characters.
    IncompleteImmediate,
    /// `#` with something else than a hexadecimal digit among the four
    /// characters that follow.
    ExpectedHexDigit,
    /// A string whose closing quote is missing.
    UnterminatedString,
    /// `=` that neither a string, an immediate nor a number follows.
    InvalidLiteral,
    /// A character that starts no token.
    UnexpectedCharacter,
}

/// A lexical error and the source line at fault.
#[derive(Debug, Clone, Copy, PartialEq, Eq, Structural)]
pub struct LexError {
    pub kind: LexErrorKind,
    pub line_number: usize,
}

/// What a kind of lexical error is called in a message.
pub open spec fn lex_error_text(kind: LexErrorKind) -> Seq<char> {
    match kind {
        LexErrorKind::ExpectedDigit => "Expected digit after sign"@,
        LexErrorKind::NumberOutOfRange => "Number out of range"@,
        LexErrorKind::IncompleteImmediate => "Incomplete immediate value"@,
        LexErrorKind::ExpectedHexDigit => "Expected hex digit in immediate value"@,
        LexErrorKind::UnterminatedString => "Unterminated string"@,
        LexErrorKind::InvalidLiteral => "Invalid literal"@,
        LexErrorKind::UnexpectedCharacter => "Unexpected character"@,
    }
}

/// The message of a lexical error: what it is called, and its line.
pub open spec fn lex_error_message(error: LexError) -> Seq<char> {
    lex_error_text(error.kind) + " at line "@ + decimal_text(error.line_number as nat)
}

/// A token written out, as in a listing.
pub open spec fn token_text(token: TokenView) -> Seq<char> {
    match token {
        TokenView::Label(s) => "Label("@ + s + ")"@,
        TokenView::Instruction(s) => "Instruction("@ + s + ")"@,
        TokenView::Register(r) => "GR"@ + decimal_text(r as nat),
        TokenView::Number(n) => "Number("@ + int_text(n as int) + ")"@,
        TokenView::Immediate(w) => "#"@ + hex4_text(w),
        TokenView::String(s) => "String('"@ + s + "')"@,
        TokenView::Literal(s) => "Literal("@ + s + ")"@,
        TokenView::Comma => ","@,
        TokenView::Colon => ":"@,
        TokenView::Comment(s) => "Comment(;"@ + s + ")"@,
        TokenView::Newline => "\\n"@,
        TokenView::Eof => "EOF"@,
    }
}

/// Space, tab and carriage return separate tokens; a newline is a token.
pub open spec fn is_space(c: char) -> bool {
    c == ' ' || c == '\t' || c == '\r'
}

/// The letters of a label: `a` to `z` and `A` to `Z`.
pub open spec fn is_letter(c: char) -> bool {
    ('a' <= c && c <= 'z') || ('A' <= c && c <= 'Z')
}

/// A label starts with a letter or one of `$ % _ .`.
pub open spec fn is_label_start(c: char) -> bool {
    is_letter(c) || c == '$' || c == '%' || c == '_' || c == '.'
}

/// A label goes on with letters, digits and `$ % _ .`.
pub open spec fn is_label_char(c: char) -> bool {
    is_label_start(c) || is_digit(c)
}

/// A small letter's capital; any other character itself.
pub open spec fn to_upper(c: char) -> char {
    if 'a' <= c && c <= 'z' {
        ((c as u8 - 32) as u8) as char
    } else {
        c
    }
}

/// A text with every small letter replaced by its capital.
pub open spec fn upper_text(s: Seq<char>) -> Seq<char> {
    Seq::new(s.len(), |i: int| to_upper(s[i]))
}

/// The number of newlines among the first `pos` characters.
pub open spec fn newlines_before(s: Seq<char>, pos: int) -> nat
    decreases pos,
{
    if pos <= 0 {
        0
    } else {
        newlines_before(s, pos - 1) + if s[pos - 1] == '\n' {
            1nat
        } else {
            0nat
        }
    }
}

/// The number of the line that position `pos` is on, counted from 1 (and
/// held at `usize::MAX` should it ever pass it).
pub open spec fn line_number_at(s: Seq<char>, pos: int) -> usize {
    if newlines_before(s, pos) >= usize::MAX {
        usize::MAX
    } else {
        (newlines_before(s, pos) + 1) as usize
    }
}

/// The first position from `pos` on that holds no space.
pub open spec fn spaces_end(s: Seq<char>, pos: int) -> int
    decreases s.len() - pos,
{
    if 0 <= pos < s.len() && is_space(s[pos]) {
        spaces_end(s, pos + 1)
    } else {
        pos
    }
}

/// The first position from `pos` on that holds no label character.
pub open spec fn label_end(s: Seq<char>, pos: int) -> int
    decreases s.len() - pos,
{
    if 0 <= pos < s.len() && is_label_char(s[pos]) {
        label_end(s, pos + 1)
    } else {
        pos
    }
}

/// The first position from `pos` on that holds no digit.
pub open spec fn digits_end(s: Seq<char>, pos: int) -> int
    decreases s.len() - pos,
{
    if 0 <= pos < s.len() && is_digit(s[pos]) {
        digits_end(s, pos + 1)
    } else {
        pos
    }
}

/// The first position from `pos` on that holds a newline, or the end of
/// the text.
pub open spec fn comment_end(s: Seq<char>, pos: int) -> int
    decreases s.len() - pos,
{
    if 0 <= pos < s.len() && s[pos] != '\n' {
        comment_end(s, pos + 1)
    } else {
        pos
    }
}

/// The rest of a string whose opening quote was read and whose content up
/// to `pos` is `acc`: the content and the position behind the closing
/// quote. Two quotes in a row stand for one quote of the content. `None`
/// where the text ends before the string does.
pub open spec fn scan_string(s: Seq<char>, pos: int, acc: Seq<char>) -> Option<(Seq<char>, int)>
    decreases s.len() - pos,
{
    if pos < 0 || pos >= s.len() {
        None
    } else if s[pos] == '\'' {
        if pos + 1 < s.len() && s[pos + 1] == '\'' {
            scan_string(s, pos + 2, acc.push('\''))
        } else {
            Some((acc, pos + 1))
        }
    } else {
        scan_string(s, pos + 1, acc.push(s[pos]))
    }
}

/// A token, or an error, with the position at which the lexer is left.
pub enum LexResult {
    Token { token: TokenView, next: int },
    Error { kind: LexErrorKind, at: int },
}

/// The position behind `remaining` hexadecimal digits from `pos` on, or
/// the first position that holds none.
pub open spec fn scan_hex_digits(s: Seq<char>, pos: int, remaining: nat) -> Result<
    int,
    (LexErrorKind, int),
>
    decreases remaining,
{
    if remaining == 0 {
        Ok(pos)
    } else if pos < 0 || pos >= s.len() {
        Err((LexErrorKind::IncompleteImmediate, pos))
    } else if !is_hex_digit(s[pos]) {
        Err((LexErrorKind::ExpectedHexDigit, pos))
    } else {
        scan_hex_digits(s, pos + 1, (remaining - 1) as nat)
    }
}

/// The immediate whose four hexadecimal digits start at `pos`, and the
/// position behind them.
pub open spec fn scan_immediate(s: Seq<char>, pos: int) -> Result<(u16, int), (LexErrorKind, int)> {
    match scan_hex_digits(s, pos, 4) {
        Err(e) => Err(e),
        Ok(end) => Ok((hex_value(s.subrange(pos, end)) as u16, end)),
    }
}

/// The position behind an optional sign at `pos`.
pub open spec fn sign_end(s: Seq<char>, pos: int) -> int {
    if 0 <= pos < s.len() && (s[pos] == '+' || s[pos] == '-') {
        pos + 1
    } else {
        pos
    }
}

/// The decimal number that starts at `pos` with an optional sign, and the
/// position behind its digits.
pub open spec fn scan_number(s: Seq<char>, pos: int) -> Result<(i32, int), (LexErrorKind, int)> {
    let digits = sign_end(s, pos);
    let end = digits_end(s, digits);
    if end == digits {
        Err((LexErrorKind::ExpectedDigit, end))
    } else {
        match spec_parse_i32(s.subrange(pos, end)) {
            Some(n) => Ok((n, end)),
            None => Err((LexErrorKind::NumberOutOfRange, end)),
        }
    }
}

/// The number of the register that an upper-case name names: `GR0` to
/// `GR7`.
pub open spec fn register_number(upper: Seq<char>) -> Option<u8> {
    if upper.len() == 3 && upper[0] == 'G' && upper[1] == 'R' && '0' <= upper[2] && upper[2]
        <= '7' {
        Some((upper[2] as u8 - 48) as u8)
    } else {
        None
    }
}

/// Whether an upper-case name is one of the forty mnemonics.
pub open spec fn is_mnemonic(upper: Seq<char>) -> bool {
    ||| upper == "NOP"@
    ||| upper == "LD"@
    ||| upper == "ST"@
    ||| upper == "LAD"@
    ||| upper == "ADDA"@
    ||| upper == "SUBA"@
    ||| upper == "ADDL"@
    ||| upper == "SUBL"@
    ||| upper == "MULA"@
    ||| upper == "DIVA"@
    ||| upper == "MULL"@
    ||| upper == "DIVL"@
    ||| upper == "AND"@
    ||| upper == "OR"@
    ||| upper == "XOR"@
    ||| upper == "CPA"@
    ||| upper == "CPL"@
    ||| upper == "SLA"@
    ||| upper == "SRA"@
    ||| upper == "SLL"@
    ||| upper == "SRL"@
    ||| upper == "JMI"@
    ||| upper == "JNZ"@
    ||| upper == "JZE"@
    ||| upper == "JUMP"@
    ||| upper == "JPL"@
    ||| upper == "JOV"@
    ||| upper == "PUSH"@
    ||| upper == "POP"@
    ||| upper == "CALL"@
    ||| upper == "RET"@
    ||| upper == "SVC"@
    ||| upper == "START"@
    ||| upper == "END"@
    ||| upper == "DS"@
    ||| upper == "DC"@
    ||| upper == "IN"@
    ||| upper == "OUT"@
    ||| upper == "RPUSH"@
    ||| upper == "RPOP"@
}

/// The token that a name is: a register, a mnemonic in upper case, or a
/// label in the case it was written in.
pub open spec fn classify_name(name: Seq<char>) -> TokenView {
    let upper = upper_text(name);
    match register_number(upper) {
        Some(n) => TokenView::Register(n),
        None => if is_mnemonic(upper) {
            TokenView::Instruction(upper)
        } else {
            TokenView::Label(name)
        },
    }
}

/// The literal that follows `=`, from the first position behind the spaces
/// that follow it: a string in its quotes, an immediate as `#` and four
/// capital hexadecimal digits, or a number in decimal.
pub open spec fn lex_literal(s: Seq<char>, pos: int) -> LexResult {
    if pos < 0 || pos >= s.len() {
        LexResult::Error { kind: LexErrorKind::InvalidLiteral, at: pos }
    } else if s[pos] == '\'' {
        match scan_string(s, pos + 1, Seq::empty()) {
            Some((content, next)) => LexResult::Token {
                token: TokenView::Literal(seq!['\''] + content + seq!['\'']),
                next,
            },
            None => LexResult::Error {
                kind: LexErrorKind::UnterminatedString,
                at: s.len() as int,
            },
        }
    } else if s[pos] == '#' {
        match scan_immediate(s, pos + 1) {
            Ok((w, next)) => LexResult::Token {
                token: TokenView::Literal(seq!['#'] + hex4_text(w)),
                next,
            },
            Err((kind, at)) => LexResult::Error { kind, at },
        }
    } else if s[pos] == '+' || s[pos] == '-' || is_digit(s[pos]) {
        match scan_number(s, pos) {
            Ok((n, next)) => LexResult::Token { token: TokenView::Literal(int_text(n as int)), next },
            Err((kind, at)) => LexResult::Error { kind, at },
        }
    } else {
        LexResult::Error { kind: LexErrorKind::InvalidLiteral, at: pos }
    }
}

/// The token that starts at `pos`, which holds no space.
pub open spec fn lex_at(s: Seq<char>, pos: int) -> LexResult {
    if pos < 0 || pos >= s.len() {
        LexResult::Token { token: TokenView::Eof, next: pos }
    } else if s[pos] == '\n' {
        LexResult::Token { token: TokenView::Newline, next: pos + 1 }
    } else if s[pos] == ',' {
        LexResult::Token { token: TokenView::Comma, next: pos + 1 }
    } else if s[pos] == ':' {
        LexResult::Token { token: TokenView::Colon, next: pos + 1 }
    } else if s[pos] == ';' {
        LexResult::Token {
            token: TokenView::Comment(s.subrange(pos + 1, comment_end(s, pos + 1))),
            next: comment_end(s, pos + 1),
        }
    } else if s[pos] == '\'' {
        match scan_string(s, pos + 1, Seq::empty()) {
            Some((content, next)) => LexResult::Token { token: TokenView::String(content), next },
            None => LexResult::Error {
                kind: LexErrorKind::UnterminatedString,
                at: s.len() as int,
            },
        }
    } else if s[pos] == '#' {
        match scan_immediate(s, pos + 1) {
            Ok((w, next)) => LexResult::Token { token: TokenView::Immediate(w), next },
            Err((kind, at)) => LexResult::Error { kind, at },
        }
    } else if s[pos] == '=' {
        lex_literal(s, spaces_end(s, pos + 1))
    } else if s[pos] == '+' || s[pos] == '-' || is_digit(s[pos]) {
        match scan_number(s, pos) {
            Ok((n, next)) => LexResult::Token { token: TokenView::Number(n), next },
            Err((kind, at)) => LexResult::Error { kind, at },
        }
    } else if is_label_start(s[pos]) {
        LexResult::Token {
            token: classify_name(s.subrange(pos, label_end(s, pos))),
            next: label_end(s, pos),
        }
    } else {
        LexResult::Error { kind: LexErrorKind::UnexpectedCharacter, at: pos }
    }
}

/// The next token from `pos` on, behind any spaces.
pub open spec fn lex_token(s: Seq<char>, pos: int) -> LexResult {
    lex_at(s, spaces_end(s, pos))
}

/// A lexical error, and the position at which the lexer is left.
pub struct LexFailure {
    pub error: LexError,
    pub at: int,
}

/// The error that the lexer reports when it fails at position `at`.
pub open spec fn lex_error(s: Seq<char>, kind: LexErrorKind, at: int) -> LexError {
    LexError { kind, line_number: line_number_at(s, at) }
}

/// `acc` followed by the tokens from `pos` on, each with the number of the
/// line it starts on, up to and with the end-of-input token; or the first
/// error. (A token other than end-of-input is at least one character long
/// and ends within the text: see `lemma_token_advances`.)
pub open spec fn lex_all(s: Seq<char>, pos: int, acc: Seq<(TokenView, usize)>) -> Result<
    Seq<(TokenView, usize)>,
    LexFailure,
>
    decreases s.len() - pos,
{
    match lex_token(s, pos) {
        LexResult::Error { kind, at } => Err(LexFailure { error: lex_error(s, kind, at), at }),
        LexResult::Token { token, next } => {
            let tokens = acc.push((token, line_number_at(s, pos)));
            if !(token is Eof) && pos < next <= s.len() {
                lex_all(s, next, tokens)
            } else {
                Ok(tokens)
            }
        },
    }
}


/// The scanners stop within the text, at or behind where they start.
pub proof fn lemma_scan_bounds(s: Seq<char>, pos: int)
    requires
        0 <= pos <= s.len(),
    ensures
        pos <= spaces_end(s, pos) <= s.len(),
        pos <= label_end(s, pos) <= s.len(),
        pos <= digits_end(s, pos) <= s.len(),
        pos <= comment_end(s, pos) <= s.len(),
    decreases s.len() - pos,
{
    if pos < s.len() {
        lemma_scan_bounds(s, pos + 1);
    }
}

/// A string ends within the text, behind where its content starts.
pub proof fn lemma_scan_string_bounds(s: Seq<char>, pos: int, acc: Seq<char>)
    requires
        0 <= pos <= s.len(),
    ensures
        match scan_string(s, pos, acc) {
            Some((_, end)) => pos < end <= s.len(),
            None => true,
        },
    decreases s.len() - pos,
{
    if pos < s.len() {
        if s[pos] == '\'' {
            if pos + 1 < s.len() && s[pos + 1] == '\'' {
                lemma_scan_string_bounds(s, pos + 2, acc.push('\''));
            }
        } else {
            lemma_scan_string_bounds(s, pos + 1, acc.push(s[pos]));
        }
    }
}

/// Hexadecimal digits are read, or an error found, within the text.
pub proof fn lemma_scan_hex_bounds(s: Seq<char>, pos: int, remaining: nat)
    requires
        0 <= pos <= s.len(),
    ensures
        match scan_hex_digits(s, pos, remaining) {
            Ok(end) => end == pos + remaining && end <= s.len(),
            Err((_, at)) => pos <= at <= s.len(),
        },
    decreases remaining,
{
    if remaining > 0 && pos < s.len() && is_hex_digit(s[pos]) {
        lemma_scan_hex_bounds(s, pos + 1, (remaining - 1) as nat);
    }
}

/// A token ends within the text; a token other than end-of-input is at
/// least one character long, and end-of-input stands at the end of the
/// text. An error is found within the text.
pub proof fn lemma_token_advances(s: Seq<char>, pos: int)
    requires
        0 <= pos <= s.len(),
    ensures
        match lex_token(s, pos) {
            LexResult::Token { token, next } => pos <= next <= s.len() && (!(token is Eof) ==> pos
                < next) && (token is Eof ==> next == s.len()),
            LexResult::Error { kind, at } => pos <= at <= s.len(),
        },
{
    lemma_scan_bounds(s, pos);
    let start = spaces_end(s, pos);
    if start < s.len() {
        lemma_scan_bounds(s, start + 1);
        lemma_scan_string_bounds(s, start + 1, Seq::empty());
        lemma_scan_hex_bounds(s, start + 1, 4);
        lemma_scan_bounds(s, sign_end(s, start));
        if s[start] == '=' {
            let lit = spaces_end(s, start + 1);
            if lit < s.len() {
                lemma_scan_string_bounds(s, lit + 1, Seq::empty());
                lemma_scan_hex_bounds(s, lit + 1, 4);
                lemma_scan_bounds(s, sign_end(s, lit));
            }
        }
    }
}

} // verus!
