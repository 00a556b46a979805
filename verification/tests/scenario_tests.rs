use c2c2::assembler::Assembler;
use c2c2::ast::Register;
use c2c2::emulator::Comet2;
use c2c2::lexer::Lexer;
use c2c2::machine::{Flags, Halt, RunStatus, Step};
use c2c2::parser::Parser;

fn assemble(source: &str) -> (Vec<u16>, u16, u16) {
    let tokens = Lexer::new(source).tokenize().unwrap();
    let program = Parser::new(tokens).parse().unwrap();
    Assembler::new(program).assemble().unwrap()
}

fn load(source: &str, inputs: &[&str], quiet: bool) -> Comet2 {
    let (binary, entry, _) = assemble(source);
    let inputs: Vec<String> = inputs.iter().map(|s| s.to_string()).collect();
    Comet2::new(&binary, entry, &inputs, quiet)
}

#[test]
fn scenario_empty_terminator() {
    let (binary, entry, _) = assemble("MAIN START\n  RET\n  END");
    assert_eq!(entry, 0);
    assert_eq!(binary[0], 0x8100);
    let mut m = Comet2::new(&binary, entry, &[], true);
    assert_eq!(m.step(), Ok(Step::Halt(Halt::Return)));
}

#[test]
fn scenario_lad_st_out() {
    let source = "MAIN START\n  LAD GR1, 65\n  ST GR1, BUF\n  OUT BUF, LEN\n  RET\n\
                  BUF DS 1\nLEN DC 1\n  END";
    let mut m = load(source, &[], true);
    assert_eq!(m.run(), Ok(Halt::Return));
    assert_eq!(m.get_output(), "A\n");
    // OUT leaves GR1 and the stack as they were.
    assert_eq!(m.register(Register::Gr1), 65);
    assert_eq!(m.sp(), 0xff00);
}

#[test]
fn scenario_signed_overflow() {
    let mut m = load("MAIN START\n  LAD GR1, #7FFF\n  ADDA GR1, =1\n  RET\n  END", &[], true);
    assert_eq!(m.run(), Ok(Halt::Return));
    assert_eq!(m.register(Register::Gr1), 0x8000);
    assert_eq!(m.flags(), Flags { sign: true, zero: false, overflow: true });
}

#[test]
fn scenario_division_by_zero() {
    let mut m = load("MAIN START\n  LAD GR1, 5\n  DIVA GR1, =0\n  RET\n  END", &[], true);
    assert_eq!(m.step(), Ok(Step::Advance));
    assert_eq!(m.step(), Ok(Step::Advance));
    assert_eq!(m.register(Register::Gr1), 5);
    assert_eq!(m.flags(), Flags { sign: false, zero: false, overflow: false });
    // Execution goes on with the next instruction.
    assert_eq!(m.pc(), 4);
    assert_eq!(m.step(), Ok(Step::Halt(Halt::Return)));
}

#[test]
fn scenario_call_return() {
    let mut m = load("MAIN START\n  CALL SUB\n  RET\nSUB RET\n  END", &[], true);
    assert_eq!(m.step(), Ok(Step::Jump));
    assert_eq!(m.pc(), 3);
    assert_eq!(m.sp(), 0xfeff);
    assert_eq!(m.step(), Ok(Step::Jump));
    assert_eq!(m.sp(), 0xff00);
    assert_eq!(m.pc(), 2);
    assert_eq!(m.step(), Ok(Step::Halt(Halt::Return)));
}

#[test]
fn scenario_in_out_echo() {
    let source = "MAIN START\n  IN BUF, LEN\n  OUT BUF, LEN\n  RET\nBUF DS 10\nLEN DC 10\n  END";
    let (binary, entry, _) = assemble(source);
    let buf: u16 = 25;
    let len: u16 = 35;
    assert_eq!(binary[5], buf);
    assert_eq!(binary[7], len);
    let mut m = Comet2::new(&binary, entry, &["HI".to_string()], true);
    // IN is seven instructions.
    assert_eq!(m.run_for(7), Ok(RunStatus::OutOfSteps));
    assert_eq!(m.memory_word(buf), 'H' as u16);
    assert_eq!(m.memory_word(buf + 1), 'I' as u16);
    assert_eq!(m.memory_word(len), 2);
    assert_eq!(m.run(), Ok(Halt::Return));
    assert_eq!(m.get_output(), "HI\n");

    let mut m = load(source, &["HI"], false);
    assert_eq!(m.run(), Ok(Halt::Return));
    assert_eq!(m.get_output(), "IN> HI\nOUT> HI\n");
}

#[test]
fn scenario_same_source_same_output() {
    let source = "MAIN START\n  LAD GR1, 3\nLOOP OUT MSG, LEN\n  SUBA GR1, =1\n  JNZ LOOP\n  RET\n\
                  MSG DC 'ab'\nLEN DC 2\n  END";
    let first = assemble(source);
    let second = assemble(source);
    assert_eq!(first, second);
    let mut a = Comet2::new(&first.0, first.1, &[], true);
    let mut b = Comet2::new(&second.0, second.1, &[], true);
    assert_eq!(a.run(), Ok(Halt::Return));
    assert_eq!(b.run(), Ok(Halt::Return));
    assert_eq!(a.get_output(), "ab\nab\nab\n");
    assert_eq!(a.get_output(), b.get_output());
}

#[test]
fn scenario_every_step_is_of_one_kind() {
    let source = "MAIN START\n  LAD GR1, 2\nLOOP SUBA GR1, =1\n  JNZ LOOP\n  CALL SUB\n  SVC 0\n\
                  SUB NOP\n  RET\n  END";
    let mut m = load(source, &[], true);
    let mut trace = Vec::new();
    loop {
        let before = m.pc();
        let step = m.step().unwrap();
        trace.push((before, step, m.pc()));
        if matches!(step, Step::Halt(_)) {
            break;
        }
    }
    assert_eq!(
        trace,
        vec![
            (0, Step::Advance, 2),
            (2, Step::Advance, 4),
            (4, Step::Jump, 2),
            (2, Step::Advance, 4),
            (4, Step::Advance, 6),
            (6, Step::Jump, 10),
            (10, Step::Advance, 11),
            (11, Step::Jump, 8),
            (8, Step::Halt(Halt::Normal), 10),
        ]
    );
}

#[test]
fn scenario_rpush_rpop_restore_registers() {
    let source = "MAIN START\n  LAD GR1, 1\n  LAD GR7, 7\n  RPUSH\n  LAD GR1, 100\n  LAD GR7, 700\n\
                  \n  RPOP\n  RET\n  END";
    let mut m = load(source, &[], true);
    assert_eq!(m.run(), Ok(Halt::Return));
    assert_eq!(m.register(Register::Gr1), 1);
    assert_eq!(m.register(Register::Gr7), 7);
    assert_eq!(m.sp(), 0xff00);
}
