use c2c2::assembler::Assembler;
use c2c2::ast::{
    AddrInst, Address, DcValue, Instruction, Line, NoOperandInst, OneRegInst, Program,
    RegAddrInst, TwoRegInst,
};
use c2c2::layout::{AsmError, AsmErrorKind, Symbol};
use c2c2::lexer::Lexer;
use c2c2::parser::Parser;

fn program(source: &str) -> Program {
    let tokens = Lexer::new(source).tokenize().unwrap();
    Parser::new(tokens).parse().unwrap()
}

fn assemble(source: &str) -> Result<(Vec<u16>, u16, u16), AsmError> {
    Assembler::new(program(source)).assemble()
}

fn image(source: &str) -> Vec<u16> {
    assemble(source).unwrap().0
}

fn error(source: &str) -> AsmError {
    assemble(source).unwrap_err()
}

fn line(label: Option<&str>, instruction: Option<Instruction>, line_number: usize) -> Line {
    Line { label: label.map(|s| s.to_string()), instruction, line_number }
}

#[test]
fn test_empty_terminator() {
    let (binary, entry, size) = assemble("MAIN START\n  RET\n  END").unwrap();
    assert_eq!(entry, 0);
    assert_eq!(binary, vec![0x8100]);
    assert_eq!(size, 1);
}

#[test]
fn test_start_end_only() {
    let (binary, entry, size) = assemble("MAIN START\n  END").unwrap();
    assert_eq!(binary, Vec::<u16>::new());
    assert_eq!(entry, 0);
    assert_eq!(size, 0);
    assert_eq!(assemble("").unwrap(), (Vec::<u16>::new(), 0, 0));
}

#[test]
fn test_instruction_encoding() {
    let binary = image(
        "MAIN START\n NOP\n LD GR1, DATA, GR2\n ADDA GR1, GR2\n POP GR3\n JUMP DATA\n \
         PUSH 5, GR7\n ST GR4, #00FF\n LAD GR5, -1\n SVC 2\n RET\nDATA DC 7\n END",
    );
    assert_eq!(
        binary,
        vec![
            0x0000, 0x1012, 16, 0x2412, 0x7130, 0x6400, 16, 0x7007, 5, 0x1140, 0x00ff, 0x1250,
            0xffff, 0xf000, 2, 0x8100, 7
        ]
    );
}

#[test]
fn test_every_opcode() {
    let memory_forms = [
        ("LD", 0x10), ("ST", 0x11), ("LAD", 0x12), ("ADDA", 0x20), ("SUBA", 0x21),
        ("ADDL", 0x22), ("SUBL", 0x23), ("MULA", 0x28), ("DIVA", 0x29), ("MULL", 0x2a),
        ("DIVL", 0x2b), ("AND", 0x30), ("OR", 0x31), ("XOR", 0x32), ("CPA", 0x40),
        ("CPL", 0x41), ("SLA", 0x50), ("SRA", 0x51), ("SLL", 0x52), ("SRL", 0x53),
    ];
    for (name, opcode) in memory_forms {
        let binary = image(&format!(" {} GR3, 9, GR4", name));
        assert_eq!(binary, vec![(opcode << 8) | 0x34, 9]);
    }
    let register_forms = [
        ("LD", 0x14), ("ADDA", 0x24), ("SUBA", 0x25), ("ADDL", 0x26), ("SUBL", 0x27),
        ("MULA", 0x2c), ("DIVA", 0x2d), ("MULL", 0x2e), ("DIVL", 0x2f), ("AND", 0x34),
        ("OR", 0x35), ("XOR", 0x36), ("CPA", 0x44), ("CPL", 0x45),
    ];
    for (name, opcode) in register_forms {
        let binary = image(&format!(" {} GR6, GR1", name));
        assert_eq!(binary, vec![(opcode << 8) | 0x61]);
    }
    let address_forms = [
        ("JMI", 0x61), ("JNZ", 0x62), ("JZE", 0x63), ("JUMP", 0x64), ("JPL", 0x65),
        ("JOV", 0x66), ("PUSH", 0x70), ("CALL", 0x80), ("SVC", 0xf0),
    ];
    for (name, opcode) in address_forms {
        let binary = image(&format!(" {} #1234, GR2", name));
        assert_eq!(binary, vec![(opcode << 8) | 0x02, 0x1234]);
    }
    assert_eq!(image(" NOP\n RET\n POP GR7"), vec![0x0000, 0x8100, 0x7170]);
}

#[test]
fn test_opcode_functions() {
    assert_eq!(Assembler::opcode_no_operand(&NoOperandInst::Ret), 0x81);
    assert_eq!(Assembler::opcode_one_reg(&OneRegInst::Pop), 0x71);
    assert_eq!(Assembler::opcode_addr(&AddrInst::Svc), 0xf0);
    assert_eq!(Assembler::opcode_reg_addr(&RegAddrInst::Srl), 0x53);
    assert_eq!(Assembler::opcode_two_reg(&TwoRegInst::Divl), 0x2f);
}

#[test]
fn test_ds_and_dc() {
    assert_eq!(image("A DS 0\nB DC 1\n"), vec![1]);
    assert_eq!(image("A DS 3\nB DC 1\n"), vec![0, 0, 0, 1]);
    assert_eq!(image(" DC 'A'"), vec![65]);
    assert_eq!(image(" DC 'AB', 'c'"), vec![65, 66, 99]);
    assert_eq!(image(" DC ''"), Vec::<u16>::new());
    assert_eq!(image(" DC -1, 32768, 65536, #ABCD"), vec![0xffff, 0x8000, 0, 0xabcd]);
    assert_eq!(image("S START\n NOP\nX DC X, S\n END"), vec![0, 1, 0]);
}

#[test]
fn test_dc_character_beyond_16_bits_keeps_low_bits() {
    let source = Program {
        lines: vec![line(
            None,
            Some(Instruction::Dc(vec![DcValue::String("\u{1F600}\u{3042}".to_string())])),
            1,
        )],
    };
    let (binary, _, size) = Assembler::new(source).assemble().unwrap();
    assert_eq!(binary, vec![0xf600, 0x3042]);
    assert_eq!(size, 2);
}

#[test]
fn test_dc_single_character_sits_at_its_address() {
    let source = "M START\n LD GR1, C\n RET\nC DC 'x'\nD DC 'yz'\n END";
    let assembler = Assembler::new(program(source));
    let layout = assembler.pass1().unwrap();
    let binary = assembler.pass2(&layout).unwrap();
    let c = layout.symbol_address("M:C").unwrap();
    assert_eq!(c, 3);
    assert_eq!(binary[c as usize], 'x' as u16);
    assert_eq!(layout.symbol_address("M:D"), Some(4));
    assert_eq!(layout.symbol_address("M:E"), None);
    assert_eq!(layout.symbol("M:D"), Some(Symbol { address: 4, line_number: 5 }));
    assert_eq!(layout.symbol("M:M"), Some(Symbol { address: 0, line_number: 1 }));
    assert_eq!(layout.symbol("D"), None);
}

#[test]
fn test_macros() {
    let binary = image("M START\n IN B, L\n OUT B, L\n RPUSH\n RPOP\nB DS 2\nL DC 2\n END");
    let b = 12 + 12 + 14 + 7;
    let l = b + 2;
    let mut expected = vec![
        0x7001, 0, 0x7002, 0, 0x1210, b, 0x1220, l, 0xf000, 0xfff0, 0x7120, 0x7110,
        0x7001, 0, 0x7002, 0, 0x1210, b, 0x1220, l, 0xf000, 0xfff2, 0x7120, 0x7110,
        0x7001, 0, 0x7002, 0, 0x7003, 0, 0x7004, 0, 0x7005, 0, 0x7006, 0, 0x7007, 0,
        0x7170, 0x7160, 0x7150, 0x7140, 0x7130, 0x7120, 0x7110,
    ];
    expected.extend([0, 0, 2]);
    assert_eq!(binary, expected);
}

#[test]
fn test_literal_pool_before_end() {
    let (binary, entry, size) = assemble(
        "M START\n LD GR1, =1\n ADDA GR1, =1\n LD GR2, ='A'\n PUSH =#00ff\n RET\n END",
    )
    .unwrap();
    // Three different literals, one word each, in the order of first use.
    assert_eq!(
        binary,
        vec![0x1010, 9, 0x2010, 9, 0x1020, 10, 0x7000, 11, 0x8100, 1, 65, 0x00ff]
    );
    assert_eq!(entry, 0);
    assert_eq!(size, 12);
}

#[test]
fn test_literal_pools_are_per_scope() {
    let binary = image("A START\n LD GR1, =7\n END\nB START\n LD GR1, =7\n LD GR2, =-7\n END");
    assert_eq!(binary, vec![0x1010, 2, 7, 0x1010, 7, 0x1020, 8, 7, 0xfff9]);
    let assembler = Assembler::new(program(
        "A START\n LD GR1, =7\n END\nB START\n LD GR1, =7\n LD GR2, =-7\n END",
    ));
    let layout = assembler.pass1().unwrap();
    assert_eq!(layout.symbol_address("A:_LIT0"), Some(2));
    assert_eq!(layout.symbol_address("B:_LIT1"), Some(7));
    assert_eq!(layout.symbol_address("B:_LIT2"), Some(8));
    assert_eq!(layout.symbol_address("B:_LIT3"), None);
    assert_eq!(layout.size(), 9);
}

#[test]
fn test_many_literals_get_decimal_labels() {
    let mut source = String::from("M START\n");
    for n in 0..12 {
        source.push_str(&format!(" LD GR1, ={}\n", n));
    }
    source.push_str(" END");
    let assembler = Assembler::new(program(&source));
    let layout = assembler.pass1().unwrap();
    assert_eq!(layout.symbol_address("M:_LIT9"), Some(33));
    assert_eq!(layout.symbol_address("M:_LIT10"), Some(34));
    assert_eq!(layout.symbol_address("M:_LIT11"), Some(35));
}

#[test]
fn test_labels_are_scoped() {
    let binary = image("A START\nX DC 1\n END\nB START\nX DC 2\n LD GR1, X\n END");
    assert_eq!(binary, vec![1, 2, 0x1010, 1]);
    assert_eq!(
        error("A START\nX DC 1\n END\nB START\n LD GR1, X\n END"),
        AsmError { kind: AsmErrorKind::UndefinedLabel, line_number: 5 }
    );
}

#[test]
fn test_entry_address() {
    // The first block is the entry block ...
    assert_eq!(assemble(" NOP\nA START\n RET\n END\nB START\n RET\n END").unwrap().1, 1);
    // ... unless a later START has an entry operand; the entry address is
    // that of the block's own label.
    assert_eq!(
        assemble(" NOP\nA START\n RET\n END\nB START X\n NOP\nX RET\n END").unwrap().1,
        2
    );
    assert_eq!(assemble("A START\n NOP\n END\nB START B\n RET\n END\nC START\n END").unwrap().1, 1);
    // Without any block execution starts at 0.
    assert_eq!(assemble(" NOP\n RET").unwrap(), (vec![0x0000, 0x8100], 0, 2));
}

#[test]
fn test_both_passes_count_the_same_words() {
    let source = "M START\n IN B, L\n LD GR1, =5\n DS 4\n DC 'abc', 1\n RPUSH\n RPOP\n \
                  OUT B, L\n ADDA GR1, GR2\n JUMP M\nB DS 3\nL DC 3\n END";
    let assembler = Assembler::new(program(source));
    let layout = assembler.pass1().unwrap();
    let binary = assembler.pass2(&layout).unwrap();
    assert_eq!(binary.len(), layout.size() as usize);
    assert_eq!(binary.len(), 12 + 2 + 4 + 4 + 14 + 7 + 12 + 1 + 2 + 3 + 1 + 1);
    let (image, _, size) = Assembler::new(program(source)).assemble().unwrap();
    assert_eq!(image, binary);
    assert_eq!(size as usize, binary.len());
}

#[test]
fn test_assembly_errors() {
    assert_eq!(
        error("A START\nB START\n END"),
        AsmError { kind: AsmErrorKind::NestedStart, line_number: 2 }
    );
    assert_eq!(
        error("\n  START\n END"),
        AsmError { kind: AsmErrorKind::StartWithoutLabel, line_number: 2 }
    );
    assert_eq!(
        error(" NOP\n END"),
        AsmError { kind: AsmErrorKind::EndWithoutStart, line_number: 2 }
    );
    assert_eq!(error("A START\n RET"), AsmError { kind: AsmErrorKind::MissingEnd, line_number: 0 });
    assert_eq!(
        error("A START\nB DS -1\n END"),
        AsmError { kind: AsmErrorKind::NegativeDs, line_number: 2 }
    );
    assert_eq!(
        error("A START\n\n JUMP NOWHERE\n END"),
        AsmError { kind: AsmErrorKind::UndefinedLabel, line_number: 3 }
    );
    assert_eq!(
        error("A START\n OUT B, L\nB DS 1\n END"),
        AsmError { kind: AsmErrorKind::UndefinedLabel, line_number: 2 }
    );
    assert_eq!(
        error("A START\n DC 1, Q\n END"),
        AsmError { kind: AsmErrorKind::UndefinedLabel, line_number: 2 }
    );
    assert_eq!(
        error("A START\n LD GR1, ='AB'\n RET\n END"),
        AsmError { kind: AsmErrorKind::MalformedLiteral, line_number: 4 }
    );
    // A literal outside any block never gets a place in a pool.
    assert_eq!(
        error(" LD GR1, =1"),
        AsmError { kind: AsmErrorKind::LiteralNotRegistered, line_number: 1 }
    );
}

#[test]
fn test_image_too_large() {
    assert_eq!(image(" DS 65535").len(), 65535);
    assert_eq!(
        error(" NOP\n DS 65535"),
        AsmError { kind: AsmErrorKind::ImageTooLarge, line_number: 2 }
    );
    assert_eq!(
        error(" DS 2147483647"),
        AsmError { kind: AsmErrorKind::ImageTooLarge, line_number: 1 }
    );
    assert_eq!(
        error("A START\n DS 65534\n LD GR1, =1\n END"),
        AsmError { kind: AsmErrorKind::ImageTooLarge, line_number: 3 }
    );
    assert_eq!(
        error("A START\n DS 65533\n LD GR1, =1\n END"),
        AsmError { kind: AsmErrorKind::ImageTooLarge, line_number: 4 }
    );
    assert_eq!(image("A START\n DS 65532\n LD GR1, =1\n END").len(), 65535);
}

#[test]
fn test_literal_values() {
    assert_eq!(Assembler::parse_literal_value("10", 1), Ok(10));
    assert_eq!(Assembler::parse_literal_value("-1", 1), Ok(0xffff));
    assert_eq!(Assembler::parse_literal_value("+70000", 1), Ok(4464));
    assert_eq!(Assembler::parse_literal_value("'A'", 1), Ok(65));
    assert_eq!(Assembler::parse_literal_value("'''", 1), Ok(39));
    assert_eq!(Assembler::parse_literal_value("#FFFF", 1), Ok(0xffff));
    assert_eq!(Assembler::parse_literal_value("#1f", 1), Ok(0x1f));
    let malformed = Err(AsmError { kind: AsmErrorKind::MalformedLiteral, line_number: 9 });
    for text in ["", "'", "''", "'AB'", "#", "#10000", "#12G4", "1x", "-", "2147483648", " 1"] {
        assert_eq!(Assembler::parse_literal_value(text, 9), malformed);
    }
}

#[test]
fn test_resolving() {
    let source = "M START\nA LD GR1, =3\nB RET\n END";
    let assembler = Assembler::new(program(source));
    let layout = assembler.pass1().unwrap();
    assert_eq!(layout.entry(), 0);
    assert_eq!(Assembler::resolve_label(&layout, "M", "B", 1), Ok(2));
    assert_eq!(
        Assembler::resolve_label(&layout, "", "B", 6),
        Err(AsmError { kind: AsmErrorKind::UndefinedLabel, line_number: 6 })
    );
    assert_eq!(Assembler::resolve_address(&layout, "M", &Address::Number(-2), 1), Ok(0xfffe));
    assert_eq!(Assembler::resolve_address(&layout, "M", &Address::Immediate(9), 1), Ok(9));
    assert_eq!(
        Assembler::resolve_address(&layout, "M", &Address::Label("A".to_string()), 1),
        Ok(0)
    );
    assert_eq!(
        Assembler::resolve_address(&layout, "M", &Address::Literal("3".to_string()), 1),
        Ok(3)
    );
    assert_eq!(
        Assembler::resolve_address(&layout, "M", &Address::Literal("4".to_string()), 2),
        Err(AsmError { kind: AsmErrorKind::LiteralNotRegistered, line_number: 2 })
    );
    let mut words = vec![5];
    for value in [
        DcValue::Number(65537),
        DcValue::Immediate(8),
        DcValue::Label("B".to_string()),
        DcValue::String("hi".to_string()),
    ] {
        assert_eq!(Assembler::resolve_dc_value(&layout, "M", &value, 1, &mut words), Ok(()));
    }
    assert_eq!(words, vec![5, 1, 8, 2, 104, 105]);
    assert_eq!(
        Assembler::resolve_dc_value(&layout, "M", &DcValue::Label("Z".to_string()), 4, &mut words),
        Err(AsmError { kind: AsmErrorKind::UndefinedLabel, line_number: 4 })
    );
    assert_eq!(words.len(), 6);
}

#[test]
fn test_emit_single_instruction() {
    let assembler = Assembler::new(program("M START\nA NOP\n END"));
    let layout = assembler.pass1().unwrap();
    let mut binary = vec![1, 2];
    let instr = Instruction::Addr(AddrInst::Call, Address::Label("A".to_string()), None);
    assert_eq!(Assembler::emit_instruction(&layout, "M", &instr, 1, &mut binary), Ok(()));
    assert_eq!(binary, vec![1, 2, 0x8000, 0]);
    assert_eq!(
        Assembler::emit_instruction(&layout, "X", &instr, 3, &mut binary),
        Err(AsmError { kind: AsmErrorKind::UndefinedLabel, line_number: 3 })
    );
    // A DC that fails at its third value appends nothing.
    let dc = Instruction::Dc(vec![
        DcValue::Number(1),
        DcValue::String("ab".to_string()),
        DcValue::Label("NONE".to_string()),
    ]);
    assert_eq!(
        Assembler::emit_instruction(&layout, "M", &dc, 8, &mut binary),
        Err(AsmError { kind: AsmErrorKind::UndefinedLabel, line_number: 8 })
    );
    assert_eq!(binary, vec![1, 2, 0x8000, 0]);
}
