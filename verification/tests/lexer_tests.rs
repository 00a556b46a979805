use c2c2::lexer::{Lexer, Token};
use c2c2::lexing::{LexError, LexErrorKind};

#[test]
fn test_label() {
    let mut lexer = Lexer::new("MAIN");
    assert_eq!(lexer.next_token().unwrap(), Token::Label("MAIN".to_string()));

    let mut lexer = Lexer::new("_test123");
    assert_eq!(lexer.next_token().unwrap(), Token::Label("_test123".to_string()));

    let mut lexer = Lexer::new("$var");
    assert_eq!(lexer.next_token().unwrap(), Token::Label("$var".to_string()));
}

#[test]
fn test_instruction() {
    let mut lexer = Lexer::new("LD");
    assert_eq!(lexer.next_token().unwrap(), Token::Instruction("LD".to_string()));

    let mut lexer = Lexer::new("START");
    assert_eq!(lexer.next_token().unwrap(), Token::Instruction("START".to_string()));

    let mut lexer = Lexer::new("RPUSH");
    assert_eq!(lexer.next_token().unwrap(), Token::Instruction("RPUSH".to_string()));
}

#[test]
fn test_register() {
    let mut lexer = Lexer::new("GR0");
    assert_eq!(lexer.next_token().unwrap(), Token::Register(0));

    let mut lexer = Lexer::new("GR7");
    assert_eq!(lexer.next_token().unwrap(), Token::Register(7));

    // A bare digit is a number, not a register.
    let mut lexer = Lexer::new("3");
    assert_eq!(lexer.next_token().unwrap(), Token::Number(3));
}

#[test]
fn test_number() {
    let mut lexer = Lexer::new("42");
    assert_eq!(lexer.next_token().unwrap(), Token::Number(42));

    let mut lexer = Lexer::new("+123");
    assert_eq!(lexer.next_token().unwrap(), Token::Number(123));

    let mut lexer = Lexer::new("-456");
    assert_eq!(lexer.next_token().unwrap(), Token::Number(-456));
}

#[test]
fn test_immediate() {
    let mut lexer = Lexer::new("#0000");
    assert_eq!(lexer.next_token().unwrap(), Token::Immediate(0x0000));

    let mut lexer = Lexer::new("#1234");
    assert_eq!(lexer.next_token().unwrap(), Token::Immediate(0x1234));

    let mut lexer = Lexer::new("#FFFF");
    assert_eq!(lexer.next_token().unwrap(), Token::Immediate(0xFFFF));

    let mut lexer = Lexer::new("#abcd");
    assert_eq!(lexer.next_token().unwrap(), Token::Immediate(0xabcd));
}

#[test]
fn test_string() {
    let mut lexer = Lexer::new("'Hello'");
    assert_eq!(lexer.next_token().unwrap(), Token::String("Hello".to_string()));

    let mut lexer = Lexer::new("'Hello''World'");
    assert_eq!(lexer.next_token().unwrap(), Token::String("Hello'World".to_string()));

    let mut lexer = Lexer::new("''");
    assert_eq!(lexer.next_token().unwrap(), Token::String("".to_string()));
}

#[test]
fn test_literal() {
    let mut lexer = Lexer::new("=10");
    assert_eq!(lexer.next_token().unwrap(), Token::Literal("10".to_string()));

    let mut lexer = Lexer::new("='test'");
    assert_eq!(lexer.next_token().unwrap(), Token::Literal("'test'".to_string()));

    let mut lexer = Lexer::new("=#1234");
    assert_eq!(lexer.next_token().unwrap(), Token::Literal("#1234".to_string()));
}

#[test]
fn test_comment() {
    let mut lexer = Lexer::new("; This is a comment");
    assert_eq!(lexer.next_token().unwrap(), Token::Comment(" This is a comment".to_string()));
}

#[test]
fn test_separators() {
    let mut lexer = Lexer::new(",");
    assert_eq!(lexer.next_token().unwrap(), Token::Comma);

    let mut lexer = Lexer::new(":");
    assert_eq!(lexer.next_token().unwrap(), Token::Colon);
}

#[test]
fn test_complete_line() {
    let input = "MAIN START\n  LD GR1, DATA\n  RET\n; comment\nDATA DC 10\n  END";
    let mut lexer = Lexer::new(input);
    let tokens = lexer.tokenize().unwrap();

    assert!(tokens.len() > 10);
    assert_eq!(tokens[0].0, Token::Label("MAIN".to_string()));
    assert_eq!(tokens[1].0, Token::Instruction("START".to_string()));
}

#[test]
fn test_instruction_with_operands() {
    let input = "LD GR1, DATA, GR2";
    let mut lexer = Lexer::new(input);

    assert_eq!(lexer.next_token().unwrap(), Token::Instruction("LD".to_string()));
    assert_eq!(lexer.next_token().unwrap(), Token::Register(1));
    assert_eq!(lexer.next_token().unwrap(), Token::Comma);
    assert_eq!(lexer.next_token().unwrap(), Token::Label("DATA".to_string()));
    assert_eq!(lexer.next_token().unwrap(), Token::Comma);
    assert_eq!(lexer.next_token().unwrap(), Token::Register(2));
}

#[test]
fn test_dc_instruction() {
    let input = "DC 'Hello', 10, #FFFF";
    let mut lexer = Lexer::new(input);

    assert_eq!(lexer.next_token().unwrap(), Token::Instruction("DC".to_string()));
    assert_eq!(lexer.next_token().unwrap(), Token::String("Hello".to_string()));
    assert_eq!(lexer.next_token().unwrap(), Token::Comma);
    assert_eq!(lexer.next_token().unwrap(), Token::Number(10));
    assert_eq!(lexer.next_token().unwrap(), Token::Comma);
    assert_eq!(lexer.next_token().unwrap(), Token::Immediate(0xFFFF));
}

#[test]
fn test_whitespace_handling() {
    let input = "  LD   GR1  ,  DATA  ";
    let mut lexer = Lexer::new(input);

    assert_eq!(lexer.next_token().unwrap(), Token::Instruction("LD".to_string()));
    assert_eq!(lexer.next_token().unwrap(), Token::Register(1));
    assert_eq!(lexer.next_token().unwrap(), Token::Comma);
    assert_eq!(lexer.next_token().unwrap(), Token::Label("DATA".to_string()));
}

#[test]
fn test_line_tracking() {
    let input = "MAIN\nLD GR1, 10\nRET";
    let mut lexer = Lexer::new(input);
    let tokens = lexer.tokenize().unwrap();

    assert_eq!(tokens[0].1, 1);
    assert!(tokens.iter().any(|(_, line)| *line == 2));
    assert!(tokens.iter().any(|(_, line)| *line == 3));
}

fn lex_error(input: &str) -> LexError {
    let mut lexer = Lexer::new(input);
    lexer.tokenize().unwrap_err()
}

#[test]
fn test_tokenize_exact_sequence() {
    let mut lexer = Lexer::new("A ld gr3,=-7 ;x\n'it''s'");
    let tokens = lexer.tokenize().unwrap();
    let expected = vec![
        (Token::Label("A".to_string()), 1),
        (Token::Instruction("LD".to_string()), 1),
        (Token::Register(3), 1),
        (Token::Comma, 1),
        (Token::Literal("-7".to_string()), 1),
        (Token::Comment("x".to_string()), 1),
        (Token::Newline, 1),
        (Token::String("it's".to_string()), 2),
        (Token::Eof, 2),
    ];
    assert_eq!(tokens, expected);
}

#[test]
fn test_empty_input_is_eof() {
    let mut lexer = Lexer::new("");
    assert_eq!(lexer.tokenize().unwrap(), vec![(Token::Eof, 1)]);
    assert_eq!(lexer.next_token().unwrap(), Token::Eof);
}

#[test]
fn test_mnemonics_any_case_labels_keep_case() {
    let mut lexer = Lexer::new("rpop Start gr7 Gr8 main");
    assert_eq!(lexer.next_token().unwrap(), Token::Instruction("RPOP".to_string()));
    assert_eq!(lexer.next_token().unwrap(), Token::Instruction("START".to_string()));
    assert_eq!(lexer.next_token().unwrap(), Token::Register(7));
    assert_eq!(lexer.next_token().unwrap(), Token::Label("Gr8".to_string()));
    assert_eq!(lexer.next_token().unwrap(), Token::Label("main".to_string()));
}

#[test]
fn test_literal_canonical_forms() {
    let mut lexer = Lexer::new("=#00ff");
    assert_eq!(lexer.next_token().unwrap(), Token::Literal("#00FF".to_string()));
    let mut lexer = Lexer::new("= +007");
    assert_eq!(lexer.next_token().unwrap(), Token::Literal("7".to_string()));
    let mut lexer = Lexer::new("=-2147483648");
    assert_eq!(lexer.next_token().unwrap(), Token::Literal("-2147483648".to_string()));
    let mut lexer = Lexer::new("=''''");
    assert_eq!(lexer.next_token().unwrap(), Token::Literal("'''".to_string()));
    let mut lexer = Lexer::new("=0");
    assert_eq!(lexer.next_token().unwrap(), Token::Literal("0".to_string()));
}

#[test]
fn test_number_limits() {
    let mut lexer = Lexer::new("2147483647 -2147483648");
    assert_eq!(lexer.next_token().unwrap(), Token::Number(2147483647));
    assert_eq!(lexer.next_token().unwrap(), Token::Number(-2147483648));
    assert_eq!(
        lex_error("2147483648"),
        LexError { kind: LexErrorKind::NumberOutOfRange, line_number: 1 }
    );
    assert_eq!(
        lex_error("\n-2147483649"),
        LexError { kind: LexErrorKind::NumberOutOfRange, line_number: 2 }
    );
}

#[test]
fn test_lex_errors_name_kind_and_line() {
    assert_eq!(
        lex_error("A\n'abc\nB"),
        LexError { kind: LexErrorKind::UnterminatedString, line_number: 3 }
    );
    assert_eq!(
        lex_error("\n\n#12"),
        LexError { kind: LexErrorKind::IncompleteImmediate, line_number: 3 }
    );
    assert_eq!(
        lex_error("#12G4"),
        LexError { kind: LexErrorKind::ExpectedHexDigit, line_number: 1 }
    );
    assert_eq!(lex_error("NOP\n+ 1"), LexError { kind: LexErrorKind::ExpectedDigit, line_number: 2 });
    assert_eq!(lex_error("=x"), LexError { kind: LexErrorKind::InvalidLiteral, line_number: 1 });
    assert_eq!(lex_error("="), LexError { kind: LexErrorKind::InvalidLiteral, line_number: 1 });
    assert_eq!(
        lex_error("NOP\nNOP @"),
        LexError { kind: LexErrorKind::UnexpectedCharacter, line_number: 2 }
    );
}

#[test]
fn test_current_line_and_peek() {
    let mut lexer = Lexer::new("A\nB");
    assert_eq!(lexer.current_line(), 1);
    assert_eq!(lexer.peek(), Some('A'));
    assert_eq!(lexer.peek_ahead(2), Some('B'));
    assert_eq!(lexer.peek_ahead(3), None);
    assert_eq!(lexer.advance(), Some('A'));
    assert_eq!(lexer.advance(), Some('\n'));
    assert_eq!(lexer.current_line(), 2);
    assert_eq!(lexer.advance(), Some('B'));
    assert_eq!(lexer.advance(), None);
    assert_eq!(lexer.current_line(), 2);
}

#[test]
fn test_comment_stops_before_newline() {
    let mut lexer = Lexer::new(";one\n;two");
    assert_eq!(lexer.next_token().unwrap(), Token::Comment("one".to_string()));
    assert_eq!(lexer.next_token().unwrap(), Token::Newline);
    assert_eq!(lexer.next_token().unwrap(), Token::Comment("two".to_string()));
    assert_eq!(lexer.next_token().unwrap(), Token::Eof);
}

#[test]
fn test_carriage_return_is_space() {
    let mut lexer = Lexer::new("NOP\r\n\tRET");
    assert_eq!(lexer.next_token().unwrap(), Token::Instruction("NOP".to_string()));
    assert_eq!(lexer.next_token().unwrap(), Token::Newline);
    assert_eq!(lexer.next_token().unwrap(), Token::Instruction("RET".to_string()));
}
