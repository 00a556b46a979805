use c2c2::alu::{compute, shift_left_by, shift_right_by, shift_right_signed_by, to_signed, to_word};
use c2c2::ast::Register;
use c2c2::emulator::Comet2;
use c2c2::machine::{AluOp, Flags, Halt, RunStatus, RuntimeError, Step};

fn machine(binary: &[u16]) -> Comet2 {
    Comet2::new(binary, 0, &[], true)
}

fn flags(sign: bool, zero: bool, overflow: bool) -> Flags {
    Flags { sign, zero, overflow }
}

/// The register value and the flags that an operation gives.
fn op(op: AluOp, a: u16, b: u16) -> (u16, Flags) {
    let computed = compute(op, a, b);
    let mut m = machine(&[]);
    if computed.signed {
        m.set_flags_arithmetic(computed.flag_word);
    } else {
        m.set_flags_logical(computed.flag_word);
    }
    if computed.overflow {
        m.set_overflow();
    }
    (computed.value, m.flags())
}

#[test]
fn test_new_machine() {
    let m = Comet2::new(&[7, 8, 9], 2, &["x".to_string()], false);
    assert_eq!(m.pc(), 2);
    assert_eq!(m.sp(), 0xff00);
    assert_eq!(m.flags(), flags(false, false, false));
    assert_eq!(m.register(Register::Gr0), 0);
    assert_eq!(m.register(Register::Gr7), 0);
    assert_eq!(m.memory_word(0), 7);
    assert_eq!(m.memory_word(2), 9);
    assert_eq!(m.memory_word(3), 0);
    assert_eq!(m.memory_word(0xffff), 0);
    assert_eq!(m.get_output(), "");
}

#[test]
fn test_signed_and_word() {
    assert_eq!(to_signed(0), 0);
    assert_eq!(to_signed(0x7fff), 32767);
    assert_eq!(to_signed(0x8000), -32768);
    assert_eq!(to_signed(0xffff), -1);
    assert_eq!(to_word(-1), 0xffff);
    assert_eq!(to_word(65536 + 5), 5);
    assert_eq!(to_word(-32768), 0x8000);
}

#[test]
fn test_adda_suba() {
    assert_eq!(op(AluOp::Adda, 1, 2), (3, flags(false, false, false)));
    assert_eq!(op(AluOp::Adda, 0x7fff, 1), (0x8000, flags(true, false, true)));
    assert_eq!(op(AluOp::Adda, 0x8000, 0xffff), (0x7fff, flags(false, false, true)));
    assert_eq!(op(AluOp::Adda, 0x8000, 0x8000), (0, flags(false, true, true)));
    assert_eq!(op(AluOp::Adda, 0xffff, 1), (0, flags(false, true, false)));
    assert_eq!(op(AluOp::Suba, 5, 7), (0xfffe, flags(true, false, false)));
    assert_eq!(op(AluOp::Suba, 0x8000, 1), (0x7fff, flags(false, false, true)));
    assert_eq!(op(AluOp::Suba, 0x7fff, 0xffff), (0x8000, flags(true, false, true)));
    assert_eq!(op(AluOp::Suba, 9, 9), (0, flags(false, true, false)));
}

#[test]
fn test_addl_subl() {
    assert_eq!(op(AluOp::Addl, 0x7fff, 1), (0x8000, flags(true, false, false)));
    assert_eq!(op(AluOp::Addl, 0xffff, 1), (0, flags(false, true, true)));
    assert_eq!(op(AluOp::Addl, 0xffff, 0xffff), (0xfffe, flags(true, false, true)));
    assert_eq!(op(AluOp::Subl, 5, 7), (0xfffe, flags(true, false, true)));
    assert_eq!(op(AluOp::Subl, 7, 5), (2, flags(false, false, false)));
    assert_eq!(op(AluOp::Subl, 0, 0), (0, flags(false, true, false)));
}

#[test]
fn test_overflow_matches_the_canonical_predicates() {
    let samples = [0u16, 1, 2, 0x7ffe, 0x7fff, 0x8000, 0x8001, 0xfffe, 0xffff, 0x1234, 0xedcb];
    for a in samples {
        for b in samples {
            let (sum, f) = op(AluOp::Adda, a, b);
            let same_sign = (a ^ b) & 0x8000 == 0;
            assert_eq!(f.overflow, same_sign && (a ^ sum) & 0x8000 != 0);
            assert_eq!(sum, a.wrapping_add(b));
            let (diff, f) = op(AluOp::Suba, a, b);
            assert_eq!(f.overflow, !same_sign && (a ^ diff) & 0x8000 != 0);
            assert_eq!(diff, a.wrapping_sub(b));
            let (_, f) = op(AluOp::Addl, a, b);
            assert_eq!(f.overflow, a.checked_add(b).is_none());
            let (_, f) = op(AluOp::Subl, a, b);
            assert_eq!(f.overflow, a < b);
        }
    }
}

#[test]
fn test_sign_and_zero_never_both() {
    let ops = [
        AluOp::Adda, AluOp::Suba, AluOp::Addl, AluOp::Subl, AluOp::Mula, AluOp::Diva,
        AluOp::Mull, AluOp::Divl, AluOp::And, AluOp::Or, AluOp::Xor, AluOp::Cpa, AluOp::Cpl,
        AluOp::Sla, AluOp::Sra, AluOp::Sll, AluOp::Srl,
    ];
    let samples = [0u16, 1, 15, 16, 0x7fff, 0x8000, 0xfff0, 0xffff];
    for o in ops {
        for a in samples {
            for b in samples {
                let (_, f) = op(o, a, b);
                assert!(!(f.sign && f.zero));
            }
        }
    }
}

#[test]
fn test_multiplication() {
    assert_eq!(op(AluOp::Mula, 3, 0xfffe), (0xfffa, flags(true, false, false)));
    assert_eq!(op(AluOp::Mula, 0x4000, 2), (0x8000, flags(true, false, true)));
    assert_eq!(op(AluOp::Mula, 0x8000, 0x8000), (0, flags(false, true, true)));
    assert_eq!(op(AluOp::Mula, 0x8000, 0xffff), (0x8000, flags(true, false, true)));
    assert_eq!(op(AluOp::Mull, 0x100, 0x100), (0, flags(false, true, true)));
    assert_eq!(op(AluOp::Mull, 0xffff, 0xffff), (1, flags(false, false, true)));
    assert_eq!(op(AluOp::Mull, 0x8000, 1), (0x8000, flags(true, false, false)));
}

#[test]
fn test_division() {
    assert_eq!(op(AluOp::Diva, 7, 2), (3, flags(false, false, false)));
    assert_eq!(op(AluOp::Diva, 0xfff9, 2), (0xfffd, flags(true, false, false)));
    assert_eq!(op(AluOp::Diva, 7, 0xfffe), (0xfffd, flags(true, false, false)));
    assert_eq!(op(AluOp::Diva, 0xfff9, 0xfffe), (3, flags(false, false, false)));
    assert_eq!(op(AluOp::Diva, 1, 2), (0, flags(false, true, false)));
    assert_eq!(op(AluOp::Diva, 0x8000, 0xffff), (0x8000, flags(true, false, true)));
    assert_eq!(op(AluOp::Divl, 0xfff9, 2), (0x7ffc, flags(false, false, false)));
    assert_eq!(op(AluOp::Divl, 0xffff, 1), (0xffff, flags(true, false, false)));
}

#[test]
fn test_division_by_zero_leaves_the_register() {
    assert_eq!(op(AluOp::Diva, 5, 0), (5, flags(false, false, false)));
    assert_eq!(op(AluOp::Diva, 0xfffb, 0), (0xfffb, flags(true, false, false)));
    assert_eq!(op(AluOp::Diva, 0, 0), (0, flags(false, true, false)));
    assert_eq!(op(AluOp::Divl, 0x8005, 0), (0x8005, flags(true, false, false)));
}

#[test]
fn test_logic_and_compare() {
    assert_eq!(op(AluOp::And, 0xf0f0, 0x3c3c), (0x3030, flags(false, false, false)));
    assert_eq!(op(AluOp::And, 0xf0f0, 0x0f0f), (0, flags(false, true, false)));
    assert_eq!(op(AluOp::Or, 0xf0f0, 0x0f0f), (0xffff, flags(true, false, false)));
    assert_eq!(op(AluOp::Xor, 0xff00, 0xf0f0), (0x0ff0, flags(false, false, false)));
    assert_eq!(op(AluOp::Cpa, 5, 7), (5, flags(true, false, false)));
    assert_eq!(op(AluOp::Cpa, 7, 7), (7, flags(false, true, false)));
    assert_eq!(op(AluOp::Cpa, 0xffff, 1), (0xffff, flags(true, false, false)));
    assert_eq!(op(AluOp::Cpa, 0x7fff, 0xffff), (0x7fff, flags(true, false, false)));
    assert_eq!(op(AluOp::Cpl, 0xffff, 1), (0xffff, flags(true, false, false)));
    assert_eq!(op(AluOp::Cpl, 1, 0xffff), (1, flags(false, false, false)));
    assert_eq!(op(AluOp::Cpl, 3, 3), (3, flags(false, true, false)));
}

#[test]
fn test_shifts() {
    // by 0
    assert_eq!(op(AluOp::Sla, 0x8001, 0), (0x8001, flags(true, false, false)));
    assert_eq!(op(AluOp::Srl, 0x8001, 0), (0x8001, flags(true, false, false)));
    // by 15
    assert_eq!(op(AluOp::Sla, 1, 15), (0x8000, flags(true, false, false)));
    assert_eq!(op(AluOp::Sll, 3, 15), (0x8000, flags(true, false, false)));
    assert_eq!(op(AluOp::Sra, 0x8000, 15), (0xffff, flags(true, false, false)));
    assert_eq!(op(AluOp::Sra, 0x4000, 15), (0, flags(false, true, false)));
    assert_eq!(op(AluOp::Srl, 0x8000, 15), (1, flags(false, false, false)));
    // by a negative count: the other way
    assert_eq!(op(AluOp::Sla, 0xfff0, 0xfffe), (0xfffc, flags(true, false, false)));
    assert_eq!(op(AluOp::Sra, 0x0003, 0xfffe), (0x000c, flags(false, false, false)));
    assert_eq!(op(AluOp::Sll, 0xfff0, 0xfffe), (0x3ffc, flags(false, false, false)));
    assert_eq!(op(AluOp::Srl, 0x4001, 0xffff), (0x8002, flags(true, false, false)));
    // by 16 and more
    assert_eq!(op(AluOp::Sll, 0xffff, 16), (0, flags(false, true, false)));
    assert_eq!(op(AluOp::Srl, 0xffff, 0x7fff), (0, flags(false, true, false)));
    assert_eq!(op(AluOp::Sra, 0x8000, 16), (0xffff, flags(true, false, false)));
    assert_eq!(op(AluOp::Sra, 0x7fff, 0x7fff), (0, flags(false, true, false)));
    assert_eq!(op(AluOp::Sla, 0x8000, 0x8000), (0xffff, flags(true, false, false)));
    // in the middle
    assert_eq!(op(AluOp::Sla, 0x00ff, 4), (0x0ff0, flags(false, false, false)));
    assert_eq!(op(AluOp::Sra, 0xff00, 4), (0xfff0, flags(true, false, false)));
    assert_eq!(op(AluOp::Srl, 0xff00, 4), (0x0ff0, flags(false, false, false)));
    assert_eq!(shift_left_by(0x1234, 4), 0x2340);
    assert_eq!(shift_right_by(0x1234, 4), 0x0123);
    assert_eq!(shift_right_signed_by(0x9234, 4), 0xf923);
    assert_eq!(shift_right_signed_by(0xffff, 40000), 0xffff);
}

#[test]
fn test_ld_st_lad() {
    // LAD GR1, 5; LAD GR2, 3, GR1; ST GR2, 100; LD GR3, 95, GR1; LD GR4, GR3
    let mut m = machine(&[0x1210, 5, 0x1221, 3, 0x1120, 100, 0x1031, 95, 0x1443]);
    assert_eq!(m.step(), Ok(Step::Advance));
    assert_eq!(m.register(Register::Gr1), 5);
    assert_eq!(m.pc(), 2);
    assert_eq!(m.step(), Ok(Step::Advance));
    assert_eq!(m.register(Register::Gr2), 8);
    assert_eq!(m.step(), Ok(Step::Advance));
    assert_eq!(m.memory_word(100), 8);
    assert_eq!(m.step(), Ok(Step::Advance));
    assert_eq!(m.register(Register::Gr3), 8);
    assert_eq!(m.pc(), 8);
    assert_eq!(m.step(), Ok(Step::Advance));
    assert_eq!(m.register(Register::Gr4), 8);
    assert_eq!(m.pc(), 9);
    // None of them touches the flags.
    assert_eq!(m.flags(), flags(false, false, false));
}

#[test]
fn test_effective_address_wraps() {
    // LAD GR1, #FFFF; LAD GR2, 2, GR1
    let mut m = machine(&[0x1210, 0xffff, 0x1221, 2]);
    m.step().unwrap();
    m.step().unwrap();
    assert_eq!(m.register(Register::Gr2), 1);
}

#[test]
fn test_memory_operand_instruction() {
    // LAD GR1, #7FFF; ADDA GR1, 4; (data) 1
    let mut m = machine(&[0x1210, 0x7fff, 0x2010, 4, 1]);
    m.step().unwrap();
    assert_eq!(m.step(), Ok(Step::Advance));
    assert_eq!(m.register(Register::Gr1), 0x8000);
    assert_eq!(m.flags(), flags(true, false, true));
    assert_eq!(m.pc(), 4);
}

#[test]
fn test_compare_leaves_registers() {
    // LAD GR1, 5; LAD GR2, 7; CPA GR1, GR2; CPL GR2, GR1
    let mut m = machine(&[0x1210, 5, 0x1220, 7, 0x4412, 0x4521]);
    m.step().unwrap();
    m.step().unwrap();
    assert_eq!(m.step(), Ok(Step::Advance));
    assert_eq!(m.register(Register::Gr1), 5);
    assert_eq!(m.register(Register::Gr2), 7);
    assert_eq!(m.flags(), flags(true, false, false));
    m.step().unwrap();
    assert_eq!(m.flags(), flags(false, false, false));
    assert_eq!(m.pc(), 6);
}

#[test]
fn test_jumps() {
    // Flags all clear: JMI, JZE, JOV fall through; JNZ, JPL, JUMP jump.
    let mut m = machine(&[0x6100, 50, 0x6300, 50, 0x6600, 50, 0x6200, 10]);
    assert_eq!(m.step(), Ok(Step::Advance));
    assert_eq!(m.pc(), 2);
    assert_eq!(m.step(), Ok(Step::Advance));
    assert_eq!(m.step(), Ok(Step::Advance));
    assert_eq!(m.pc(), 6);
    assert_eq!(m.step(), Ok(Step::Jump));
    assert_eq!(m.pc(), 10);
    let mut m = machine(&[0x6500, 20]);
    assert_eq!(m.step(), Ok(Step::Jump));
    assert_eq!(m.pc(), 20);
    // LAD GR1, 4; JUMP 6, GR1
    let mut m = machine(&[0x1210, 4, 0x6401, 6]);
    m.step().unwrap();
    assert_eq!(m.step(), Ok(Step::Jump));
    assert_eq!(m.pc(), 10);
}

#[test]
fn test_jumps_on_flags() {
    // SUBA GR1, GR2 with 0 - 0 sets Z: JZE jumps, JNZ and JPL do not.
    let mut m = machine(&[0x2512, 0x6200, 9, 0x6500, 9, 0x6300, 9]);
    m.step().unwrap();
    assert_eq!(m.flags(), flags(false, true, false));
    assert_eq!(m.step(), Ok(Step::Advance));
    assert_eq!(m.step(), Ok(Step::Advance));
    assert_eq!(m.step(), Ok(Step::Jump));
    assert_eq!(m.pc(), 9);
    // LAD GR1, #8000; ADDA GR1, GR1 sets Z and O: JOV jumps; S comes next.
    let mut m = machine(&[0x1210, 0x8000, 0x2411, 0x6600, 6, 0, 0x1220, 1, 0x2512, 0x6100, 0]);
    m.step().unwrap();
    m.step().unwrap();
    assert_eq!(m.flags(), flags(false, true, true));
    assert_eq!(m.step(), Ok(Step::Jump));
    assert_eq!(m.pc(), 6);
    m.step().unwrap();
    m.step().unwrap();
    assert_eq!(m.flags(), flags(true, false, false));
    assert_eq!(m.step(), Ok(Step::Jump));
    assert_eq!(m.pc(), 0);
}

#[test]
fn test_push_pop() {
    // LAD GR1, 3; PUSH 4, GR1; POP GR2
    let mut m = machine(&[0x1210, 3, 0x7001, 4, 0x7120]);
    m.step().unwrap();
    assert_eq!(m.step(), Ok(Step::Advance));
    assert_eq!(m.sp(), 0xfeff);
    assert_eq!(m.memory_word(0xfeff), 7);
    assert_eq!(m.step(), Ok(Step::Advance));
    assert_eq!(m.sp(), 0xff00);
    assert_eq!(m.register(Register::Gr2), 7);
    assert_eq!(m.pc(), 5);
}

#[test]
fn test_call_and_return() {
    // 0: CALL 3; 2: RET; 3: RET
    let mut m = machine(&[0x8000, 3, 0x8100, 0x8100]);
    assert_eq!(m.step(), Ok(Step::Jump));
    assert_eq!(m.pc(), 3);
    assert_eq!(m.sp(), 0xfeff);
    assert_eq!(m.memory_word(0xfeff), 2);
    assert_eq!(m.step(), Ok(Step::Jump));
    assert_eq!(m.pc(), 2);
    assert_eq!(m.sp(), 0xff00);
    assert_eq!(m.step(), Ok(Step::Halt(Halt::Return)));
    assert_eq!(m.pc(), 3);
    assert_eq!(m.sp(), 0xff00);
}

#[test]
fn test_ret_with_empty_stack_stops() {
    let mut m = machine(&[0x8100]);
    assert_eq!(m.run(), Ok(Halt::Return));
    assert_eq!(m.sp(), 0xff00);
    assert_eq!(m.pc(), 1);
}

#[test]
fn test_supervisor_stops() {
    assert_eq!(machine(&[0xf000, 0]).run(), Ok(Halt::Normal));
    assert_eq!(machine(&[0xf000, 1]).run(), Ok(Halt::Overflow));
    assert_eq!(machine(&[0xf000, 2]).run(), Ok(Halt::ZeroDivide));
    assert_eq!(machine(&[0xf000, 3]).run(), Ok(Halt::RangeOver));
    let mut m = machine(&[0, 0xf000, 0]);
    assert_eq!(m.run_for(1), Ok(RunStatus::OutOfSteps));
    assert_eq!(m.run_for(5), Ok(RunStatus::Halted(Halt::Normal)));
    assert_eq!(m.pc(), 3);
}

#[test]
fn test_faults() {
    assert_eq!(
        machine(&[0, 0xf000, 4]).run(),
        Err(RuntimeError::UnknownSvc { code: 4, pc: 2 })
    );
    assert_eq!(
        machine(&[0, 0, 0xff12]).run(),
        Err(RuntimeError::UnknownOpcode { opcode: 0xff, pc: 2 })
    );
    assert_eq!(machine(&[0x1300]).run(), Err(RuntimeError::UnknownOpcode { opcode: 0x13, pc: 0 }));
    assert_eq!(machine(&[0x1080, 0]).run(), Err(RuntimeError::InvalidRegister { pc: 0 }));
    assert_eq!(machine(&[0, 0x6408, 0]).run(), Err(RuntimeError::InvalidRegister { pc: 1 }));
    assert_eq!(machine(&[0x2419]).run(), Err(RuntimeError::InvalidRegister { pc: 0 }));
    // Register fields that an instruction does not read may hold anything.
    assert_eq!(machine(&[0x00ff, 0x64f0, 3, 0x81ff]).run(), Ok(Halt::Return));
}

#[test]
fn test_running_off_the_end_of_memory() {
    // JUMP #FFFF; the NOP there is the last word of the memory.
    let mut m = machine(&[0x6400, 0xffff]);
    assert_eq!(m.step(), Ok(Step::Jump));
    assert_eq!(m.step(), Ok(Step::Advance));
    assert_eq!(m.pc(), 0x10000);
    assert_eq!(m.step(), Err(RuntimeError::PcOutOfBounds { pc: 0x10000 }));
    assert_eq!(m.run(), Err(RuntimeError::PcOutOfBounds { pc: 0x10000 }));
    // An instruction whose address word would lie behind the memory.
    let mut binary = vec![0u16; 0x10000];
    binary[0xffff] = 0x1210;
    let mut m = Comet2::new(&binary, 0xffff, &[], true);
    assert_eq!(m.step(), Err(RuntimeError::PcOutOfBounds { pc: 0x10000 }));
}

#[test]
fn test_out_of_steps() {
    // JUMP 0
    let mut m = machine(&[0x6400, 0]);
    assert_eq!(m.run_for(1000), Ok(RunStatus::OutOfSteps));
    assert_eq!(m.pc(), 0);
    assert_eq!(m.run_for(0), Ok(RunStatus::OutOfSteps));
}

/// A machine that calls one service with GR1 = 10 and GR2 = 8, where the
/// length word at 8 holds `length` and the buffer from 10 on holds `buffer`.
fn io_machine(service: u16, length: u16, buffer: &[u16], inputs: &[&str], quiet: bool) -> Comet2 {
    // LAD GR1, 10; LAD GR2, 8; SVC service; SVC 0; length; (unused); buffer ...
    let mut binary = vec![0x1210, 10, 0x1220, 8, 0xf000, service, 0xf000, 0, length, 0];
    binary.extend_from_slice(buffer);
    let inputs: Vec<String> = inputs.iter().map(|s| s.to_string()).collect();
    Comet2::new(&binary, 0, &inputs, quiet)
}

#[test]
fn test_in_stores_the_line() {
    let mut m = io_machine(0xfff0, 10, &[], &["HI", "x"], true);
    assert_eq!(m.run(), Ok(Halt::Normal));
    assert_eq!(m.memory_word(10), 'H' as u16);
    assert_eq!(m.memory_word(11), 'I' as u16);
    assert_eq!(m.memory_word(12), 0);
    assert_eq!(m.memory_word(8), 2);
    assert_eq!(m.get_output(), "");
}

#[test]
fn test_in_cuts_the_line_at_the_length() {
    let mut m = io_machine(0xfff0, 3, &[9, 9, 9, 9, 9], &["HELLO"], true);
    assert_eq!(m.run(), Ok(Halt::Normal));
    assert_eq!(m.memory_word(10), 'H' as u16);
    assert_eq!(m.memory_word(12), 'L' as u16);
    assert_eq!(m.memory_word(13), 9);
    assert_eq!(m.memory_word(8), 3);
    let mut m = io_machine(0xfff0, 0, &[9], &["HELLO"], true);
    assert_eq!(m.run(), Ok(Halt::Normal));
    assert_eq!(m.memory_word(10), 9);
    assert_eq!(m.memory_word(8), 0);
}

#[test]
fn test_in_without_input_sets_length_zero() {
    let mut m = io_machine(0xfff0, 10, &[9], &[], true);
    assert_eq!(m.run(), Ok(Halt::Normal));
    assert_eq!(m.memory_word(8), 0);
    assert_eq!(m.memory_word(10), 9);
    // Each IN takes one line: the second IN finds none left.
    let binary = [0x1210, 20, 0x1220, 19, 0xf000, 0xfff0, 0xf000, 0xfff0, 0xf000, 0];
    let mut memory = binary.to_vec();
    memory.resize(20, 0);
    memory[19] = 5;
    let mut m = Comet2::new(&memory, 0, &["ab".to_string()], true);
    assert_eq!(m.run_for(3), Ok(RunStatus::OutOfSteps));
    assert_eq!(m.memory_word(19), 2);
    assert_eq!(m.memory_word(20), 'a' as u16);
    assert_eq!(m.run(), Ok(Halt::Normal));
    assert_eq!(m.memory_word(19), 0);
    assert_eq!(m.memory_word(20), 'a' as u16);
}

#[test]
fn test_in_keeps_the_low_16_bits_of_a_character() {
    let mut m = io_machine(0xfff0, 10, &[], &["\u{3042}\u{1F600}"], true);
    assert_eq!(m.run(), Ok(Halt::Normal));
    assert_eq!(m.memory_word(10), 0x3042);
    assert_eq!(m.memory_word(11), 0xf600);
    assert_eq!(m.memory_word(8), 2);
}

#[test]
fn test_out_writes_the_buffer() {
    let mut m = io_machine(0xfff2, 3, &[72, 73, 33, 63], &[], true);
    assert_eq!(m.run(), Ok(Halt::Normal));
    assert_eq!(m.get_output(), "HI!\n");
}

#[test]
fn test_out_stops_at_a_zero_word() {
    let mut m = io_machine(0xfff2, 5, &[72, 0, 73], &[], true);
    assert_eq!(m.run(), Ok(Halt::Normal));
    assert_eq!(m.get_output(), "H\n");
    let mut m = io_machine(0xfff2, 0, &[72], &[], true);
    assert_eq!(m.run(), Ok(Halt::Normal));
    assert_eq!(m.get_output(), "\n");
}

#[test]
fn test_out_takes_the_low_byte() {
    let mut m = io_machine(0xfff2, 2, &[0x0141, 0x00e9], &[], true);
    assert_eq!(m.run(), Ok(Halt::Normal));
    assert_eq!(m.get_output(), "A\u{e9}\n");
}

#[test]
fn test_annotations_unless_quiet() {
    let mut m = io_machine(0xfff0, 10, &[], &["HI"], false);
    assert_eq!(m.run(), Ok(Halt::Normal));
    assert_eq!(m.get_output(), "IN> HI\n");
    let mut m = io_machine(0xfff2, 2, &[72, 73], &[], false);
    assert_eq!(m.run(), Ok(Halt::Normal));
    assert_eq!(m.get_output(), "OUT> HI\n");
    // With no line left there is nothing to note.
    let mut m = io_machine(0xfff0, 10, &[], &[], false);
    assert_eq!(m.run(), Ok(Halt::Normal));
    assert_eq!(m.get_output(), "");
}

#[test]
fn test_buffer_wraps_around_the_memory() {
    // LAD GR1, #FFFF; LAD GR2, 8; SVC IN; SVC OUT; length 2
    let binary = [0x1210, 0xffff, 0x1220, 8, 0xf000, 0xfff0, 0xf000, 0xfff2, 2];
    let mut m = Comet2::new(&binary, 0, &["Z".to_string()], true);
    assert_eq!(m.run_for(3), Ok(RunStatus::OutOfSteps));
    assert_eq!(m.memory_word(0xffff), 'Z' as u16);
    assert_eq!(m.memory_word(8), 1);
    // Two words from #FFFF on: the last word of the memory and the first.
    let binary = [0x0041, 0x1210, 0xffff, 0x1220, 9, 0xf000, 0xfff2, 0xf000, 0, 2];
    let mut memory = binary.to_vec();
    memory.resize(0x10000, 0);
    memory[0xffff] = 0x42;
    let mut m = Comet2::new(&memory, 1, &[], true);
    assert_eq!(m.run(), Ok(Halt::Normal));
    assert_eq!(m.get_output(), "BA\n");
}

#[test]
fn test_single_instruction_functions() {
    let mut m = machine(&[5, 2, 0xfffe]);
    assert_eq!(m.lad(1, 0), Ok(Step::Advance));
    assert_eq!(m.register(Register::Gr1), 5);
    assert_eq!(m.ld_rr(2, 1), Ok(Step::Advance));
    assert_eq!(m.adda_rr(2, 1), Ok(Step::Advance));
    assert_eq!(m.register(Register::Gr2), 10);
    assert_eq!(m.mula_ra(2, 0), Ok(Step::Advance));
    assert_eq!(m.register(Register::Gr2), 0xffec);
    assert_eq!(m.flags(), flags(true, false, false));
    assert_eq!(m.pc(), 2);
    assert_eq!(m.jmi(0), Ok(Step::Jump));
    assert_eq!(m.pc(), 0xfffe);
    assert_eq!(m.nop(), Ok(Step::Advance));
    assert_eq!(m.fetch(), Ok(0));
    assert_eq!(m.effective_address(1), Ok(5));
    assert_eq!(m.pc(), 0x10000);
    assert_eq!(m.fetch(), Err(RuntimeError::PcOutOfBounds { pc: 0x10000 }));
}
