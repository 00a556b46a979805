use c2c2::ast::{
    AddrInst, Address, DcValue, Instruction, Line, NoOperandInst, OneRegInst, Program,
    RegAddrInst, Register, TwoRegInst,
};
use c2c2::lexer::{Lexer, Token};
use c2c2::parser::Parser;
use c2c2::parsing::{ParseError, ParseErrorKind};

fn parse_input(input: &str) -> Program {
    let mut lexer = Lexer::new(input);
    let tokens = lexer.tokenize().unwrap();
    let mut parser = Parser::new(tokens);
    parser.parse().unwrap()
}

fn parse_error(input: &str) -> ParseError {
    let mut lexer = Lexer::new(input);
    let tokens = lexer.tokenize().unwrap();
    let mut parser = Parser::new(tokens);
    parser.parse().unwrap_err()
}

#[test]
fn test_parse_start_end() {
    let program = parse_input("MAIN START\n  END");
    assert_eq!(program.lines.len(), 2);
    assert_eq!(program.lines[0].label, Some("MAIN".to_string()));
    assert!(matches!(program.lines[0].instruction, Some(Instruction::Start(None))));
    assert!(matches!(program.lines[1].instruction, Some(Instruction::End)));
}

#[test]
fn test_parse_start_with_entry() {
    let program = parse_input("MAIN START BEGIN\n  END");
    assert_eq!(program.lines[0].label, Some("MAIN".to_string()));
    assert!(matches!(program.lines[0].instruction,
        Some(Instruction::Start(Some(ref s))) if s == "BEGIN"));
}

#[test]
fn test_parse_no_operand() {
    let program = parse_input("  NOP\n  RET\n  END");
    assert!(matches!(program.lines[0].instruction, Some(Instruction::NoOperand(_))));
    assert!(matches!(program.lines[1].instruction, Some(Instruction::NoOperand(_))));
}

#[test]
fn test_parse_pop() {
    let program = parse_input("  POP GR1\n  END");
    match &program.lines[0].instruction {
        Some(Instruction::OneReg(_, reg)) => {
            assert_eq!(reg.to_u8(), 1);
        }
        _ => panic!("Expected OneReg instruction"),
    }
}

#[test]
fn test_parse_ld_reg_addr() {
    let program = parse_input("  LD GR1, DATA\n  END");
    match &program.lines[0].instruction {
        Some(Instruction::RegAddr(_, reg, addr, idx)) => {
            assert_eq!(reg.to_u8(), 1);
            assert!(matches!(addr, Address::Label(_)));
            assert!(idx.is_none());
        }
        _ => panic!("Expected RegAddr instruction"),
    }
}

#[test]
fn test_parse_ld_with_index() {
    let program = parse_input("  LD GR1, DATA, GR2\n  END");
    match &program.lines[0].instruction {
        Some(Instruction::RegAddr(_, reg, _, Some(idx))) => {
            assert_eq!(reg.to_u8(), 1);
            assert_eq!(idx.to_u8(), 2);
        }
        _ => panic!("Expected RegAddr with index"),
    }
}

#[test]
fn test_parse_ld_two_reg() {
    let program = parse_input("  LD GR1, GR2\n  END");
    match &program.lines[0].instruction {
        Some(Instruction::TwoReg(_, reg1, reg2)) => {
            assert_eq!(reg1.to_u8(), 1);
            assert_eq!(reg2.to_u8(), 2);
        }
        _ => panic!("Expected TwoReg instruction"),
    }
}

#[test]
fn test_parse_immediate() {
    let program = parse_input("  LAD GR1, #1234\n  END");
    match &program.lines[0].instruction {
        Some(Instruction::RegAddr(_, _, Address::Immediate(imm), _)) => {
            assert_eq!(*imm, 0x1234);
        }
        _ => panic!("Expected immediate address"),
    }
}

#[test]
fn test_parse_literal() {
    let program = parse_input("  LD GR1, =10\n  END");
    match &program.lines[0].instruction {
        Some(Instruction::RegAddr(_, _, Address::Literal(lit), _)) => {
            assert_eq!(lit, "10");
        }
        _ => panic!("Expected literal address"),
    }
}

#[test]
fn test_parse_jump() {
    let program = parse_input("  JUMP LABEL\n  END");
    match &program.lines[0].instruction {
        Some(Instruction::Addr(_, addr, idx)) => {
            assert!(matches!(addr, Address::Label(_)));
            assert!(idx.is_none());
        }
        _ => panic!("Expected Addr instruction"),
    }
}

#[test]
fn test_parse_ds() {
    let program = parse_input("BUF DS 10\n  END");
    assert_eq!(program.lines[0].label, Some("BUF".to_string()));
    match &program.lines[0].instruction {
        Some(Instruction::Ds(count)) => {
            assert_eq!(*count, 10);
        }
        _ => panic!("Expected DS instruction"),
    }
}

#[test]
fn test_parse_dc_numbers() {
    let program = parse_input("DATA DC 10, 20, -5\n  END");
    match &program.lines[0].instruction {
        Some(Instruction::Dc(values)) => {
            assert_eq!(values.len(), 3);
            assert!(matches!(values[0], DcValue::Number(10)));
            assert!(matches!(values[1], DcValue::Number(20)));
            assert!(matches!(values[2], DcValue::Number(-5)));
        }
        _ => panic!("Expected DC instruction"),
    }
}

#[test]
fn test_parse_dc_string() {
    let program = parse_input("MSG DC 'Hello'\n  END");
    match &program.lines[0].instruction {
        Some(Instruction::Dc(values)) => {
            assert_eq!(values.len(), 1);
            match &values[0] {
                DcValue::String(s) => assert_eq!(s, "Hello"),
                _ => panic!("Expected string value"),
            }
        }
        _ => panic!("Expected DC instruction"),
    }
}

#[test]
fn test_parse_dc_mixed() {
    let program = parse_input("DATA DC 10, 'test', #FFFF\n  END");
    match &program.lines[0].instruction {
        Some(Instruction::Dc(values)) => {
            assert_eq!(values.len(), 3);
            assert!(matches!(values[0], DcValue::Number(10)));
            assert!(matches!(values[1], DcValue::String(_)));
            assert!(matches!(values[2], DcValue::Immediate(0xFFFF)));
        }
        _ => panic!("Expected DC instruction"),
    }
}

#[test]
fn test_parse_in_out() {
    let program = parse_input("  IN BUF, LEN\n  OUT BUF, LEN\n  END");
    match &program.lines[0].instruction {
        Some(Instruction::In(buf, len)) => {
            assert_eq!(buf, "BUF");
            assert_eq!(len, "LEN");
        }
        _ => panic!("Expected IN instruction"),
    }
    match &program.lines[1].instruction {
        Some(Instruction::Out(buf, len)) => {
            assert_eq!(buf, "BUF");
            assert_eq!(len, "LEN");
        }
        _ => panic!("Expected OUT instruction"),
    }
}

#[test]
fn test_parse_rpush_rpop() {
    let program = parse_input("  RPUSH\n  RPOP\n  END");
    assert!(matches!(program.lines[0].instruction, Some(Instruction::Rpush)));
    assert!(matches!(program.lines[1].instruction, Some(Instruction::Rpop)));
}

#[test]
fn test_parse_label_only() {
    let program = parse_input("LOOP\n  NOP\n  END");
    assert_eq!(program.lines[0].label, Some("LOOP".to_string()));
    assert!(program.lines[0].instruction.is_none());
}

#[test]
fn test_parse_with_comments() {
    let program = parse_input("; Comment\nMAIN START ; inline comment\n  RET\n  END");
    assert_eq!(program.lines[0].label, Some("MAIN".to_string()));
    assert!(program.lines.len() >= 3);
}

#[test]
fn test_parse_complete_program() {
    let input = r#"
MAIN START
  LAD GR1, 10
  LAD GR2, 20
  ADDA GR1, GR2
  ST GR1, SUM
  RET
SUM DC 0
  END
"#;
    let program = parse_input(input);
    assert!(program.lines.len() >= 6);
    assert_eq!(program.lines[0].label, Some("MAIN".to_string()));
}

#[test]
fn test_parse_exact_tree() {
    let program = parse_input("; head\nMAIN START\nL1 ADDA GR1, =5, GR2 ; add\n\n  CPL GR3,GR4\n END");
    let expected = Program {
        lines: vec![
            Line {
                label: Some("MAIN".to_string()),
                instruction: Some(Instruction::Start(None)),
                line_number: 2,
            },
            Line {
                label: Some("L1".to_string()),
                instruction: Some(Instruction::RegAddr(
                    RegAddrInst::Adda,
                    Register::Gr1,
                    Address::Literal("5".to_string()),
                    Some(Register::Gr2),
                )),
                line_number: 3,
            },
            Line {
                label: None,
                instruction: Some(Instruction::TwoReg(
                    TwoRegInst::Cpl,
                    Register::Gr3,
                    Register::Gr4,
                )),
                line_number: 5,
            },
            Line { label: None, instruction: Some(Instruction::End), line_number: 6 },
        ],
    };
    assert_eq!(program, expected);
}

#[test]
fn test_shift_is_always_register_address() {
    let program = parse_input("  SLA GR1, 3\n  ST GR2, BUF, GR3");
    assert_eq!(
        program.lines[0].instruction,
        Some(Instruction::RegAddr(RegAddrInst::Sla, Register::Gr1, Address::Number(3), None))
    );
    assert_eq!(
        program.lines[1].instruction,
        Some(Instruction::RegAddr(
            RegAddrInst::St,
            Register::Gr2,
            Address::Label("BUF".to_string()),
            Some(Register::Gr3)
        ))
    );
    // A shift has no register-register form: a register is no address.
    assert_eq!(
        parse_error("  SLA GR1, GR2"),
        ParseError { kind: ParseErrorKind::ExpectedAddress, line_number: 1 }
    );
}

#[test]
fn test_address_instructions() {
    let program = parse_input("  PUSH 0, GR1\n  SVC #FFF0\n  CALL SUB");
    assert_eq!(
        program.lines[0].instruction,
        Some(Instruction::Addr(AddrInst::Push, Address::Number(0), Some(Register::Gr1)))
    );
    assert_eq!(
        program.lines[1].instruction,
        Some(Instruction::Addr(AddrInst::Svc, Address::Immediate(0xfff0), None))
    );
    assert_eq!(
        program.lines[2].instruction,
        Some(Instruction::Addr(AddrInst::Call, Address::Label("SUB".to_string()), None))
    );
}

#[test]
fn test_parse_errors_name_kind_and_line() {
    assert_eq!(
        parse_error("NOP\n  POP"),
        ParseError { kind: ParseErrorKind::ExpectedRegister, line_number: 2 }
    );
    assert_eq!(
        parse_error("  LD GR1 DATA"),
        ParseError { kind: ParseErrorKind::ExpectedComma, line_number: 1 }
    );
    assert_eq!(
        parse_error("\n\n  JUMP ,"),
        ParseError { kind: ParseErrorKind::ExpectedAddress, line_number: 3 }
    );
    assert_eq!(
        parse_error("  IN 5, LEN"),
        ParseError { kind: ParseErrorKind::ExpectedLabel, line_number: 1 }
    );
    assert_eq!(
        parse_error("  DS X"),
        ParseError { kind: ParseErrorKind::ExpectedNumber, line_number: 1 }
    );
    assert_eq!(
        parse_error("  DC 1, ,"),
        ParseError { kind: ParseErrorKind::ExpectedDcValue, line_number: 1 }
    );
    assert_eq!(
        parse_error("NOP\n, NOP"),
        ParseError { kind: ParseErrorKind::UnexpectedToken, line_number: 2 }
    );
    assert_eq!(
        parse_error("RET GR1"),
        ParseError { kind: ParseErrorKind::UnexpectedToken, line_number: 1 }
    );
    assert_eq!(
        parse_error("A:"),
        ParseError { kind: ParseErrorKind::UnexpectedToken, line_number: 1 }
    );
}

#[test]
fn test_parse_errors_from_hand_made_tokens() {
    let mut parser = Parser::new(vec![
        (Token::Instruction("POP".to_string()), 4),
        (Token::Register(9), 4),
        (Token::Eof, 4),
    ]);
    assert_eq!(
        parser.parse().unwrap_err(),
        ParseError { kind: ParseErrorKind::InvalidRegister, line_number: 4 }
    );
    let mut parser =
        Parser::new(vec![(Token::Instruction("FOO".to_string()), 7), (Token::Eof, 7)]);
    assert_eq!(
        parser.parse().unwrap_err(),
        ParseError { kind: ParseErrorKind::UnknownInstruction, line_number: 7 }
    );
}

#[test]
fn test_parse_empty_and_without_eof() {
    assert_eq!(parse_input("").lines.len(), 0);
    assert_eq!(parse_input("\n; only a comment\n\n").lines.len(), 0);
    let mut parser = Parser::new(vec![(Token::Instruction("NOP".to_string()), 1)]);
    let program = parser.parse().unwrap();
    assert_eq!(
        program.lines,
        vec![Line {
            label: None,
            instruction: Some(Instruction::NoOperand(NoOperandInst::Nop)),
            line_number: 1
        }]
    );
    let mut parser = Parser::new(vec![
        (Token::Instruction("POP".to_string()), 1),
        (Token::Register(2), 1),
    ]);
    assert_eq!(
        parser.parse().unwrap().lines[0].instruction,
        Some(Instruction::OneReg(OneRegInst::Pop, Register::Gr2))
    );
}

#[test]
fn test_two_labels_in_a_row_are_two_lines() {
    let program = parse_input("A B\n NOP");
    assert_eq!(program.lines.len(), 3);
    assert_eq!(program.lines[0].label, Some("A".to_string()));
    assert_eq!(program.lines[0].instruction, None);
    assert_eq!(program.lines[1].label, Some("B".to_string()));
    assert_eq!(program.lines[1].instruction, None);
}

#[test]
fn test_ast_tables() {
    assert_eq!(Register::from_u8(0), Some(Register::Gr0));
    assert_eq!(Register::from_u8(7), Some(Register::Gr7));
    assert_eq!(Register::from_u8(8), None);
    assert_eq!(Register::Gr5.to_u8(), 5);
    assert_eq!(RegAddrInst::from_str("LAD"), Some(RegAddrInst::Lad));
    assert_eq!(RegAddrInst::from_str("SRL"), Some(RegAddrInst::Srl));
    assert_eq!(RegAddrInst::from_str("lad"), None);
    assert_eq!(RegAddrInst::from_str("JUMP"), None);
    assert_eq!(AddrInst::from_str("SVC"), Some(AddrInst::Svc));
    assert_eq!(AddrInst::from_str("JPL"), Some(AddrInst::Jpl));
    assert_eq!(AddrInst::from_str("LD"), None);
    assert!(RegAddrInst::Cpl.can_be_two_reg());
    assert!(!RegAddrInst::St.can_be_two_reg());
    assert!(!RegAddrInst::Lad.can_be_two_reg());
    assert!(!RegAddrInst::Sll.can_be_two_reg());
    assert_eq!(TwoRegInst::from_reg_addr(RegAddrInst::Xor), Some(TwoRegInst::Xor));
    assert_eq!(TwoRegInst::from_reg_addr(RegAddrInst::Sra), None);
}
