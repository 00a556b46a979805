//! The mathematical model of the COMET II machine: its state, its
//! arithmetic, and what one instruction does to the state.

use vstd::prelude::*;
use crate::text::{char_word, decimal_text, int_word};

verus! {

/// The flag register: sign, zero and overflow, three independent bits.
#[derive(Debug, Clone, Copy, PartialEq, Eq, Structural)]
pub struct Flags {
    pub sign: bool,
    pub zero: bool,
    pub overflow: bool,
}

/// Why the machine stopped of its own accord.
#[derive(Debug, Clone, Copy, PartialEq, Eq, Structural)]
pub enum Halt {
    /// `RET` with an empty stack.
    Return,
    /// Supervisor call 0: normal termination.
    Normal,
    /// Supervisor call 1: overflow.
    Overflow,
    /// Supervisor call 2: division by zero.
    ZeroDivide,
    /// Supervisor call 3: array index out of range.
    RangeOver,
}

/// What one instruction did to the program counter.
#[derive(Debug, Clone, Copy, PartialEq, Eq, Structural)]
pub enum Step {
    /// The program counter moved on by the instruction's length.
    Advance,
    /// A jump, a call or a return put a new address into the program
    /// counter.
    Jump,
    /// The machine stopped.
    Halt(Halt),
}

/// Why the machine could not go on. Each fault names the address of the
/// word it was found at.
#[derive(Debug, Clone, Copy, PartialEq, Eq, Structural)]
pub enum RuntimeError {
    /// A word was to be fetched from behind the end of the memory.
    PcOutOfBounds { pc: u32 },
    /// An instruction word whose high byte is no opcode.
    UnknownOpcode { opcode: u8, pc: u32 },
    /// An instruction word that names a register above GR7.
    InvalidRegister { pc: u32 },
    /// A supervisor call with a code that is no service.
    UnknownSvc { code: u16, pc: u32 },
    /// `run` made as many steps as it may make and the machine went on.
    StepLimit,
}

/// How a bounded run ended.
#[derive(Debug, Clone, Copy, PartialEq, Eq, Structural)]
pub enum RunStatus {
    Halted(Halt),
    /// The machine has made all the steps it was given and not stopped.
    OutOfSteps,
}

/// The message of a fault: what it is, and the numbers it carries in
/// decimal.
pub open spec fn runtime_error_message(error: RuntimeError) -> Seq<char> {
    match error {
        RuntimeError::PcOutOfBounds { pc } => "PC out of bounds: "@ + decimal_text(pc as nat),
        RuntimeError::UnknownOpcode { opcode, pc } => "Unknown opcode "@ + decimal_text(
            opcode as nat,
        ) + " at PC="@ + decimal_text(pc as nat),
        RuntimeError::InvalidRegister { pc } => "Invalid register at PC="@ + decimal_text(
            pc as nat,
        ),
        RuntimeError::UnknownSvc { code, pc } => "Unknown SVC code "@ + decimal_text(code as nat)
            + " at PC="@ + decimal_text(pc as nat),
        RuntimeError::StepLimit => "Step limit reached"@,
    }
}

/// The line that tells why the machine stopped; for a return with an
/// empty stack there is none, and the text is empty.
pub open spec fn halt_message(halt: Halt) -> Seq<char> {
    match halt {
        Halt::Return => Seq::empty(),
        Halt::Normal => "Program terminated normally."@,
        Halt::Overflow => "***** Run-Time Error : Overflow *****"@,
        Halt::ZeroDivide => "***** Run-Time Error : Zero-Divide *****"@,
        Halt::RangeOver => "***** Run-Time Error : Range-Over in Array Index *****"@,
    }
}

/// The number of words of the memory.
pub open spec fn memory_words() -> int {
    0x10000
}

/// The value of the stack pointer when the stack is empty.
pub open spec fn stack_top() -> u16 {
    0xff00
}

/// The state of the machine.
#[verifier::ext_equal]
pub struct Machine {
    /// GR0 to GR7.
    pub gr: Seq<u16>,
    /// The program counter: the address of the next word to fetch, or
    /// 65536 when the last word of the memory was fetched.
    pub pc: int,
    pub sp: u16,
    pub flags: Flags,
    pub memory: Seq<u16>,
    /// The input lines, one for each `IN`.
    pub inputs: Seq<Seq<char>>,
    /// The number of input lines read so far.
    pub cursor: int,
    /// The captured output.
    pub output: Seq<char>,
    /// Whether the `IN> ` and `OUT> ` annotations are left out of the
    /// output.
    pub quiet: bool,
}

impl Machine {
    /// Eight registers, 65536 words of memory, the program counter at
    /// most one behind the last word, and no more input read than there
    /// is.
    pub open spec fn wf(self) -> bool {
        &&& self.gr.len() == 8
        &&& self.memory.len() == memory_words()
        &&& 0 <= self.pc <= memory_words()
        &&& 0 <= self.cursor <= self.inputs.len()
    }
}

/// The memory with an image loaded at address 0: the words of the image,
/// and zeros behind them.
pub open spec fn loaded_memory(binary: Seq<u16>) -> Seq<u16> {
    Seq::new(
        memory_words() as nat,
        |i: int|
            if i < binary.len() {
                binary[i]
            } else {
                0u16
            },
    )
}

/// The machine as it is made: registers and flags cleared, the stack
/// empty, the image in memory, no input read and no output written.
pub open spec fn initial_machine(
    binary: Seq<u16>,
    start_address: u16,
    inputs: Seq<Seq<char>>,
    quiet: bool,
) -> Machine {
    Machine {
        gr: Seq::new(8, |i: int| 0u16),
        pc: start_address as int,
        sp: stack_top(),
        flags: Flags { sign: false, zero: false, overflow: false },
        memory: loaded_memory(binary),
        inputs,
        cursor: 0,
        output: Seq::empty(),
        quiet,
    }
}

/// The number that a word stands for in two's complement.
pub open spec fn signed(w: u16) -> int {
    if w >= 0x8000 {
        w - 0x10000
    } else {
        w as int
    }
}

/// Whether a number fits in a word in two's complement.
pub open spec fn fits_signed(n: int) -> bool {
    -0x8000 <= n <= 0x7fff
}

/// The flags after a signed operation: sign where the result is negative,
/// zero where it is zero.
pub open spec fn arithmetic_flags(result: u16, overflow: bool) -> Flags {
    Flags { sign: signed(result) < 0, zero: result == 0, overflow }
}

/// The flags after an unsigned operation: zero where the result is zero,
/// else sign where its top bit is set.
pub open spec fn logical_flags(result: u16, overflow: bool) -> Flags {
    Flags { sign: result != 0 && result >= 0x8000, zero: result == 0, overflow }
}

/// The quotient of a division that rounds towards zero.
pub open spec fn truncated_quotient(a: int, b: int) -> int {
    let q = (if a < 0 {
        -a
    } else {
        a
    }) / (if b < 0 {
        -b
    } else {
        b
    });
    if (a < 0) != (b < 0) {
        -q
    } else {
        q
    }
}

/// A word shifted left by one bit; the top bit is lost.
pub open spec fn shift_left_once(w: u16) -> u16 {
    int_word(2 * w)
}

/// A word shifted right by one bit, with a zero coming in at the top.
pub open spec fn shift_right_once(w: u16) -> u16 {
    w / 2
}

/// A word shifted right by one bit, with the sign bit kept: the half of the
/// number it stands for, rounded down.
pub open spec fn shift_right_signed_once(w: u16) -> u16 {
    int_word(signed(w) / 2)
}

/// A word shifted left by `n` bits.
pub open spec fn shift_left(w: u16, n: nat) -> u16
    decreases n,
{
    if n == 0 {
        w
    } else {
        shift_left(shift_left_once(w), (n - 1) as nat)
    }
}

/// A word shifted right by `n` bits, with zeros coming in.
pub open spec fn shift_right(w: u16, n: nat) -> u16
    decreases n,
{
    if n == 0 {
        w
    } else {
        shift_right(shift_right_once(w), (n - 1) as nat)
    }
}

/// A word shifted right by `n` bits, with the sign bit kept.
pub open spec fn shift_right_signed(w: u16, n: nat) -> u16
    decreases n,
{
    if n == 0 {
        w
    } else {
        shift_right_signed(shift_right_signed_once(w), (n - 1) as nat)
    }
}

/// The operations that compute on a register and a second operand.
#[derive(Debug, Clone, Copy, PartialEq, Eq, Structural)]
pub enum AluOp {
    Adda,
    Suba,
    Addl,
    Subl,
    Mula,
    Diva,
    Mull,
    Divl,
    And,
    Or,
    Xor,
    Cpa,
    Cpl,
    Sla,
    Sra,
    Sll,
    Srl,
}

/// What an operation gives: the new value of the register and the flags.
pub struct AluResult {
    pub value: u16,
    pub flags: Flags,
}

/// The result of a signed operation whose exact result is `exact`: the
/// result narrowed to a word, and overflow where it did not fit.
pub open spec fn signed_result(exact: int) -> AluResult {
    AluResult {
        value: int_word(exact),
        flags: arithmetic_flags(int_word(exact), !fits_signed(exact)),
    }
}

/// The result of an unsigned operation whose exact result is `exact`: the
/// result narrowed to a word, and overflow where it did not fit.
pub open spec fn unsigned_result(exact: int) -> AluResult {
    AluResult {
        value: int_word(exact),
        flags: logical_flags(int_word(exact), exact < 0 || exact > 0xffff),
    }
}

/// An arithmetic shift by a count that may be negative: left for `left`
/// and a count of zero or more, and in the other direction for a negative
/// count.
pub open spec fn arithmetic_shift(w: u16, count: int, left: bool) -> u16 {
    if (count >= 0) == left {
        shift_left(w, (if count >= 0 {
            count
        } else {
            -count
        }) as nat)
    } else {
        shift_right_signed(w, (if count >= 0 {
            count
        } else {
            -count
        }) as nat)
    }
}

/// A logical shift by a count that may be negative.
pub open spec fn logical_shift(w: u16, count: int, left: bool) -> u16 {
    if (count >= 0) == left {
        shift_left(w, (if count >= 0 {
            count
        } else {
            -count
        }) as nat)
    } else {
        shift_right(w, (if count >= 0 {
            count
        } else {
            -count
        }) as nat)
    }
}

/// What an operation computes from the register's value `a` and the second
/// operand `b`.
///
/// The signed operations take both as two's-complement numbers, the
/// unsigned ones as they are. A division by zero leaves the register as it
/// is and sets the flags by it. The comparisons leave the register as it is
/// and set the flags by the difference narrowed to a word. The shifts take
/// `b` as a signed count.
pub open spec fn alu(op: AluOp, a: u16, b: u16) -> AluResult {
    match op {
        AluOp::Adda => signed_result(signed(a) + signed(b)),
        AluOp::Suba => signed_result(signed(a) - signed(b)),
        AluOp::Addl => unsigned_result(a + b),
        AluOp::Subl => unsigned_result(a - b),
        AluOp::Mula => signed_result(signed(a) * signed(b)),
        AluOp::Mull => unsigned_result(a * b),
        AluOp::Diva => if b == 0 {
            AluResult { value: a, flags: arithmetic_flags(a, false) }
        } else {
            signed_result(truncated_quotient(signed(a), signed(b)))
        },
        AluOp::Divl => if b == 0 {
            AluResult { value: a, flags: logical_flags(a, false) }
        } else {
            unsigned_result(a as int / b as int)
        },
        AluOp::And => AluResult { value: a & b, flags: logical_flags(a & b, false) },
        AluOp::Or => AluResult { value: a | b, flags: logical_flags(a | b, false) },
        AluOp::Xor => AluResult { value: a ^ b, flags: logical_flags(a ^ b, false) },
        AluOp::Cpa => AluResult {
            value: a,
            flags: arithmetic_flags(int_word(signed(a) - signed(b)), false),
        },
        AluOp::Cpl => AluResult { value: a, flags: logical_flags(int_word(a - b), false) },
        AluOp::Sla => AluResult {
            value: arithmetic_shift(a, signed(b), true),
            flags: arithmetic_flags(arithmetic_shift(a, signed(b), true), false),
        },
        AluOp::Sra => AluResult {
            value: arithmetic_shift(a, signed(b), false),
            flags: arithmetic_flags(arithmetic_shift(a, signed(b), false), false),
        },
        AluOp::Sll => AluResult {
            value: logical_shift(a, signed(b), true),
            flags: logical_flags(logical_shift(a, signed(b), true), false),
        },
        AluOp::Srl => AluResult {
            value: logical_shift(a, signed(b), false),
            flags: logical_flags(logical_shift(a, signed(b), false), false),
        },
    }
}

/// A machine after an instruction, or a part of one, and what came of it.
#[verifier::ext_equal]
pub struct Stepped {
    pub machine: Machine,
    pub result: Result<Step, RuntimeError>,
}

/// The machine as it is, with a fault.
pub open spec fn fault(m: Machine, error: RuntimeError) -> Stepped {
    Stepped { machine: m, result: Err(error) }
}

/// The machine with the next instruction in turn.
pub open spec fn advance(m: Machine) -> Stepped {
    Stepped { machine: m, result: Ok(Step::Advance) }
}

/// Whether there is no word to fetch at the program counter.
pub open spec fn pc_fault(m: Machine) -> bool {
    m.pc < 0 || m.pc >= memory_words()
}

/// The fault of a machine with no word to fetch.
pub open spec fn pc_error(m: Machine) -> RuntimeError {
    RuntimeError::PcOutOfBounds { pc: m.pc as u32 }
}

/// The machine with the program counter moved on by one word.
pub open spec fn after_fetch(m: Machine) -> Machine {
    Machine { pc: m.pc + 1, ..m }
}

/// The address that the word at the program counter and the index
/// register `x` give: the word itself where `x` is 0, else the word plus
/// the register, with wrap-around.
pub open spec fn effective_address(m: Machine, x: int) -> u16 {
    if x == 0 {
        m.memory[m.pc]
    } else {
        int_word(m.memory[m.pc] + m.gr[x])
    }
}

/// The machine with a value in a register.
pub open spec fn set_register(m: Machine, r: int, value: u16) -> Machine {
    Machine { gr: m.gr.update(r, value), ..m }
}

/// `LD r,adr,x`: the word at the effective address goes into the register.
/// The flags stay as they are.
pub open spec fn spec_ld_ra(m: Machine, r: int, x: int) -> Stepped {
    if pc_fault(m) {
        fault(m, pc_error(m))
    } else {
        advance(set_register(after_fetch(m), r, m.memory[effective_address(m, x) as int]))
    }
}

/// `LD r1,r2`: the second register goes into the first.
pub open spec fn spec_ld_rr(m: Machine, r1: int, r2: int) -> Stepped {
    advance(set_register(m, r1, m.gr[r2]))
}

/// `ST r,adr,x`: the register goes into the word at the effective address.
pub open spec fn spec_st(m: Machine, r: int, x: int) -> Stepped {
    if pc_fault(m) {
        fault(m, pc_error(m))
    } else {
        advance(
            Machine {
                memory: m.memory.update(effective_address(m, x) as int, m.gr[r]),
                ..after_fetch(m)
            },
        )
    }
}

/// `LAD r,adr,x`: the effective address itself goes into the register.
pub open spec fn spec_lad(m: Machine, r: int, x: int) -> Stepped {
    if pc_fault(m) {
        fault(m, pc_error(m))
    } else {
        advance(set_register(after_fetch(m), r, effective_address(m, x)))
    }
}

/// The machine with the result of an operation on the register `r` and the
/// operand `b`.
pub open spec fn apply_alu(m: Machine, op: AluOp, r: int, b: u16) -> Machine {
    Machine { gr: m.gr.update(r, alu(op, m.gr[r], b).value), flags: alu(op, m.gr[r], b).flags, ..m }
}

/// An operation on a register and the word at the effective address.
pub open spec fn spec_alu_ra(m: Machine, op: AluOp, r: int, x: int) -> Stepped {
    if pc_fault(m) {
        fault(m, pc_error(m))
    } else {
        advance(apply_alu(after_fetch(m), op, r, m.memory[effective_address(m, x) as int]))
    }
}

/// An operation on two registers.
pub open spec fn spec_alu_rr(m: Machine, op: AluOp, r1: int, r2: int) -> Stepped {
    advance(apply_alu(m, op, r1, m.gr[r2]))
}

/// The conditions of the jump instructions.
#[derive(Debug, Clone, Copy, PartialEq, Eq, Structural)]
pub enum JumpKind {
    Jmi,
    Jnz,
    Jze,
    Jump,
    Jpl,
    Jov,
}

/// Whether a jump is taken: `JMI` on sign, `JZE` on zero, `JNZ` on not
/// zero, `JPL` on neither sign nor zero, `JOV` on overflow, `JUMP` always.
pub open spec fn jump_taken(kind: JumpKind, flags: Flags) -> bool {
    match kind {
        JumpKind::Jmi => flags.sign,
        JumpKind::Jnz => !flags.zero,
        JumpKind::Jze => flags.zero,
        JumpKind::Jump => true,
        JumpKind::Jpl => !flags.sign && !flags.zero,
        JumpKind::Jov => flags.overflow,
    }
}

/// A jump: where it is taken the effective address goes into the program
/// counter, else the program counter moves past the address word.
pub open spec fn spec_jump(m: Machine, kind: JumpKind, x: int) -> Stepped {
    if pc_fault(m) {
        fault(m, pc_error(m))
    } else if jump_taken(kind, m.flags) {
        Stepped {
            machine: Machine { pc: effective_address(m, x) as int, ..m },
            result: Ok(Step::Jump),
        }
    } else {
        advance(after_fetch(m))
    }
}

/// The stack pointer moved down by one word, with wrap-around.
pub open spec fn pushed_sp(sp: u16) -> u16 {
    int_word(sp - 1)
}

/// The stack pointer moved up by one word, with wrap-around.
pub open spec fn popped_sp(sp: u16) -> u16 {
    int_word(sp + 1)
}

/// `PUSH adr,x`: the stack pointer moves down and the effective address
/// itself goes onto the stack.
pub open spec fn spec_push(m: Machine, x: int) -> Stepped {
    if pc_fault(m) {
        fault(m, pc_error(m))
    } else {
        advance(
            Machine {
                sp: pushed_sp(m.sp),
                memory: m.memory.update(pushed_sp(m.sp) as int, effective_address(m, x)),
                ..after_fetch(m)
            },
        )
    }
}

/// `POP r`: the word on top of the stack goes into the register and the
/// stack pointer moves up.
pub open spec fn spec_pop(m: Machine, r: int) -> Stepped {
    advance(Machine { sp: popped_sp(m.sp), ..set_register(m, r, m.memory[m.sp as int]) })
}

/// `CALL adr,x`: the address behind the instruction goes onto the stack
/// (its low 16 bits) and the effective address into the program counter.
pub open spec fn spec_call(m: Machine, x: int) -> Stepped {
    if pc_fault(m) {
        fault(m, pc_error(m))
    } else {
        Stepped {
            machine: Machine {
                pc: effective_address(m, x) as int,
                sp: pushed_sp(m.sp),
                memory: m.memory.update(pushed_sp(m.sp) as int, int_word(m.pc + 1)),
                ..m
            },
            result: Ok(Step::Jump),
        }
    }
}

/// `RET`: with an empty stack the machine stops; else the word on top of
/// the stack goes into the program counter and the stack pointer moves up.
pub open spec fn spec_ret(m: Machine) -> Stepped {
    if m.sp >= stack_top() {
        Stepped { machine: m, result: Ok(Step::Halt(Halt::Return)) }
    } else {
        Stepped {
            machine: Machine { pc: m.memory[m.sp as int] as int, sp: popped_sp(m.sp), ..m },
            result: Ok(Step::Jump),
        }
    }
}

/// The address `i` words behind `base`, with wrap-around.
pub open spec fn offset_address(base: u16, i: int) -> int {
    (base + i) % memory_words()
}

/// The memory with the characters of `line` from index `i` up to `n`
/// stored from `base + i` on, one for each word.
pub open spec fn store_chars(memory: Seq<u16>, base: u16, line: Seq<char>, i: int, n: int) -> Seq<
    u16,
>
    decreases n - i,
{
    if i < 0 || i >= n {
        memory
    } else {
        store_chars(
            memory.update(offset_address(base, i), char_word(line[i])),
            base,
            line,
            i + 1,
            n,
        )
    }
}

/// What stands before an input line in the output: `IN> `.
pub open spec fn in_prefix() -> Seq<char> {
    seq!['I', 'N', '>', ' ']
}

/// What stands before an output line in the output: `OUT> `.
pub open spec fn out_prefix() -> Seq<char> {
    seq!['O', 'U', 'T', '>', ' ']
}

/// The supervisor call `IN`: GR1 holds the address of a buffer, GR2 that of
/// a length word. The next input line is read; as many of its characters
/// as the length word allows are stored in the buffer, and their number in
/// the length word. With no line left the length word becomes 0. Unless
/// the machine is quiet, the line is noted in the output behind `IN> `.
pub open spec fn spec_svc_in(m: Machine) -> Machine {
    let buffer = m.gr[1];
    let length_at = m.gr[2] as int;
    if m.cursor < m.inputs.len() {
        let line = m.inputs[m.cursor];
        let limit = m.memory[length_at] as int;
        let count = if line.len() <= limit {
            line.len() as int
        } else {
            limit
        };
        Machine {
            memory: store_chars(m.memory, buffer, line, 0, count).update(length_at, count as u16),
            cursor: m.cursor + 1,
            output: if m.quiet {
                m.output
            } else {
                m.output + in_prefix() + line + seq!['\n']
            },
            ..m
        }
    } else {
        Machine { memory: m.memory.update(length_at, 0), ..m }
    }
}

/// The character that `OUT` writes for a word: the one whose code is the
/// word's low byte.
pub open spec fn byte_char(w: u16) -> char {
    ((w % 256) as u8) as char
}

/// `acc` followed by the characters of the words from `base + i` up to
/// `base + n`, up to the first zero word.
pub open spec fn out_chars(memory: Seq<u16>, base: u16, i: int, n: int, acc: Seq<char>) -> Seq<
    char,
>
    decreases n - i,
{
    if i < 0 || i >= n || memory[offset_address(base, i)] == 0 {
        acc
    } else {
        out_chars(memory, base, i + 1, n, acc.push(byte_char(memory[offset_address(base, i)])))
    }
}

/// The supervisor call `OUT`: GR1 holds the address of a buffer, GR2 that
/// of a length word. As many words of the buffer as the length word says,
/// up to the first zero word, are written to the output as characters,
/// and a newline behind them. Unless the machine is quiet, `OUT> ` stands
/// before them.
pub open spec fn spec_svc_out(m: Machine) -> Machine {
    let buffer = m.gr[1];
    let length = m.memory[m.gr[2] as int] as int;
    let start = if m.quiet {
        m.output
    } else {
        m.output + out_prefix()
    };
    Machine { output: out_chars(m.memory, buffer, 0, length, start).push('\n'), ..m }
}

/// A supervisor call, whose code is the word behind the opcode word: 0 to 3
/// stop the machine, `0xfff0` is `IN`, `0xfff2` is `OUT`.
pub open spec fn spec_svc(m: Machine) -> Stepped {
    if pc_fault(m) {
        fault(m, pc_error(m))
    } else {
        let code = m.memory[m.pc];
        let next = after_fetch(m);
        if code == 0 {
            Stepped { machine: next, result: Ok(Step::Halt(Halt::Normal)) }
        } else if code == 1 {
            Stepped { machine: next, result: Ok(Step::Halt(Halt::Overflow)) }
        } else if code == 2 {
            Stepped { machine: next, result: Ok(Step::Halt(Halt::ZeroDivide)) }
        } else if code == 3 {
            Stepped { machine: next, result: Ok(Step::Halt(Halt::RangeOver)) }
        } else if code == 0xfff0 {
            advance(spec_svc_in(next))
        } else if code == 0xfff2 {
            advance(spec_svc_out(next))
        } else {
            fault(next, RuntimeError::UnknownSvc { code, pc: m.pc as u32 })
        }
    }
}

/// The operation of an opcode that works on a register and a word of
/// memory.
pub open spec fn memory_operation(opcode: int) -> Option<AluOp> {
    if opcode == 0x20 {
        Some(AluOp::Adda)
    } else if opcode == 0x21 {
        Some(AluOp::Suba)
    } else if opcode == 0x22 {
        Some(AluOp::Addl)
    } else if opcode == 0x23 {
        Some(AluOp::Subl)
    } else if opcode == 0x28 {
        Some(AluOp::Mula)
    } else if opcode == 0x29 {
        Some(AluOp::Diva)
    } else if opcode == 0x2a {
        Some(AluOp::Mull)
    } else if opcode == 0x2b {
        Some(AluOp::Divl)
    } else if opcode == 0x30 {
        Some(AluOp::And)
    } else if opcode == 0x31 {
        Some(AluOp::Or)
    } else if opcode == 0x32 {
        Some(AluOp::Xor)
    } else if opcode == 0x40 {
        Some(AluOp::Cpa)
    } else if opcode == 0x41 {
        Some(AluOp::Cpl)
    } else if opcode == 0x50 {
        Some(AluOp::Sla)
    } else if opcode == 0x51 {
        Some(AluOp::Sra)
    } else if opcode == 0x52 {
        Some(AluOp::Sll)
    } else if opcode == 0x53 {
        Some(AluOp::Srl)
    } else {
        None
    }
}

/// The operation of an opcode that works on two registers.
pub open spec fn register_operation(opcode: int) -> Option<AluOp> {
    if opcode == 0x24 {
        Some(AluOp::Adda)
    } else if opcode == 0x25 {
        Some(AluOp::Suba)
    } else if opcode == 0x26 {
        Some(AluOp::Addl)
    } else if opcode == 0x27 {
        Some(AluOp::Subl)
    } else if opcode == 0x2c {
        Some(AluOp::Mula)
    } else if opcode == 0x2d {
        Some(AluOp::Diva)
    } else if opcode == 0x2e {
        Some(AluOp::Mull)
    } else if opcode == 0x2f {
        Some(AluOp::Divl)
    } else if opcode == 0x34 {
        Some(AluOp::And)
    } else if opcode == 0x35 {
        Some(AluOp::Or)
    } else if opcode == 0x36 {
        Some(AluOp::Xor)
    } else if opcode == 0x44 {
        Some(AluOp::Cpa)
    } else if opcode == 0x45 {
        Some(AluOp::Cpl)
    } else {
        None
    }
}

/// The jump of an opcode.
pub open spec fn jump_kind(opcode: int) -> Option<JumpKind> {
    if opcode == 0x61 {
        Some(JumpKind::Jmi)
    } else if opcode == 0x62 {
        Some(JumpKind::Jnz)
    } else if opcode == 0x63 {
        Some(JumpKind::Jze)
    } else if opcode == 0x64 {
        Some(JumpKind::Jump)
    } else if opcode == 0x65 {
        Some(JumpKind::Jpl)
    } else if opcode == 0x66 {
        Some(JumpKind::Jov)
    } else {
        None
    }
}

/// Whether an opcode's instruction reads the register field `r`.
pub open spec fn uses_r(opcode: int) -> bool {
    opcode == 0x10 || opcode == 0x11 || opcode == 0x12 || opcode == 0x14 || opcode == 0x71
        || memory_operation(opcode) is Some || register_operation(opcode) is Some
}

/// Whether an opcode's instruction reads the register field `x`.
pub open spec fn uses_x(opcode: int) -> bool {
    opcode == 0x10 || opcode == 0x11 || opcode == 0x12 || opcode == 0x14 || opcode == 0x70
        || opcode == 0x80 || memory_operation(opcode) is Some || register_operation(opcode)
        is Some || jump_kind(opcode) is Some
}

/// Whether a number is an opcode.
pub open spec fn known_opcode(opcode: int) -> bool {
    opcode == 0x00 || opcode == 0x81 || opcode == 0xf0 || uses_r(opcode) || uses_x(opcode)
}

/// The number of words of an opcode's instruction.
pub open spec fn instruction_words(opcode: int) -> int {
    if opcode == 0x00 || opcode == 0x14 || opcode == 0x71 || opcode == 0x81 || register_operation(
        opcode,
    ) is Some {
        1
    } else {
        2
    }
}

/// Whether the register fields that an opcode's instruction reads name
/// registers.
pub open spec fn registers_valid(opcode: int, r: int, x: int) -> bool {
    (uses_r(opcode) ==> r < 8) && (uses_x(opcode) ==> x < 8)
}

/// What the instruction with the given opcode and register fields does to
/// a machine whose program counter stands behind the opcode word.
pub open spec fn execute(m: Machine, opcode: int, r: int, x: int) -> Stepped
    recommends
        known_opcode(opcode),
        registers_valid(opcode, r, x),
{
    if opcode == 0x00 {
        advance(m)
    } else if opcode == 0x10 {
        spec_ld_ra(m, r, x)
    } else if opcode == 0x11 {
        spec_st(m, r, x)
    } else if opcode == 0x12 {
        spec_lad(m, r, x)
    } else if opcode == 0x14 {
        spec_ld_rr(m, r, x)
    } else if memory_operation(opcode) is Some {
        spec_alu_ra(m, memory_operation(opcode)->0, r, x)
    } else if register_operation(opcode) is Some {
        spec_alu_rr(m, register_operation(opcode)->0, r, x)
    } else if jump_kind(opcode) is Some {
        spec_jump(m, jump_kind(opcode)->0, x)
    } else if opcode == 0x70 {
        spec_push(m, x)
    } else if opcode == 0x71 {
        spec_pop(m, r)
    } else if opcode == 0x80 {
        spec_call(m, x)
    } else if opcode == 0x81 {
        spec_ret(m)
    } else {
        spec_svc(m)
    }
}

/// The opcode of an instruction word: its high byte.
pub open spec fn opcode_of(word: u16) -> int {
    word as int / 256
}

/// The field `r` of an instruction word: its bits 7 to 4.
pub open spec fn r_of(word: u16) -> int {
    word as int / 16 % 16
}

/// The field `x` of an instruction word: its bits 3 to 0.
pub open spec fn x_of(word: u16) -> int {
    word as int % 16
}

/// One instruction: the word at the program counter is fetched and split
/// into opcode, `r` and `x`; a word that is no instruction is a fault, any
/// other is executed.
pub open spec fn spec_step(m: Machine) -> Stepped {
    if pc_fault(m) {
        fault(m, pc_error(m))
    } else {
        let word = m.memory[m.pc];
        if !known_opcode(opcode_of(word)) {
            fault(
                after_fetch(m),
                RuntimeError::UnknownOpcode { opcode: opcode_of(word) as u8, pc: m.pc as u32 },
            )
        } else if !registers_valid(opcode_of(word), r_of(word), x_of(word)) {
            fault(after_fetch(m), RuntimeError::InvalidRegister { pc: m.pc as u32 })
        } else {
            execute(after_fetch(m), opcode_of(word), r_of(word), x_of(word))
        }
    }
}

/// A machine after a run, and how the run ended.
#[verifier::ext_equal]
pub struct Ran {
    pub machine: Machine,
    pub result: Result<RunStatus, RuntimeError>,
}

/// At most `steps` instructions, one after the other, up to the first that
/// stops the machine or faults.
pub open spec fn spec_run(m: Machine, steps: nat) -> Ran
    decreases steps,
{
    if steps == 0 {
        Ran { machine: m, result: Ok(RunStatus::OutOfSteps) }
    } else {
        let stepped = spec_step(m);
        match stepped.result {
            Err(e) => Ran { machine: stepped.machine, result: Err(e) },
            Ok(Step::Halt(halt)) => Ran {
                machine: stepped.machine,
                result: Ok(RunStatus::Halted(halt)),
            },
            Ok(_) => spec_run(stepped.machine, (steps - 1) as nat),
        }
    }
}

} // verus!
