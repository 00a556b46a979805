//! The COMET II machine.

use vstd::prelude::*;
use vstd::string::*;
use crate::alu::compute;
use crate::ast::Register;
use crate::machine::{
    advance, after_fetch, apply_alu, arithmetic_flags, effective_address, execute, fault,
    halt_message, initial_machine, logical_flags, out_chars, out_prefix, pc_error, pc_fault,
    popped_sp, pushed_sp, runtime_error_message, spec_alu_ra, spec_alu_rr, spec_call, spec_jump,
    spec_lad, spec_ld_ra, spec_ld_rr, spec_pop, spec_push, spec_ret, spec_run, spec_st, spec_step,
    spec_svc, spec_svc_in, spec_svc_out, store_chars, uses_r, uses_x, AluOp, Flags, Halt, JumpKind,
    Machine, RunStatus, RuntimeError, Step, Stepped,
};
use crate::text::{chars_of, push_decimal, texts_view, word_of_char};

verus! {

/// A COMET II machine: eight registers, program counter, stack pointer,
/// flags, 65536 words of memory, the input lines and the captured output.
pub struct Comet2 {
    gr: [u16; 8],
    pc: u32,
    sp: u16,
    flags: Flags,
    memory: Vec<u16>,
    input_lines: Vec<String>,
    current_input: usize,
    output_buffer: String,
    quiet: bool,
}

impl View for Comet2 {
    type V = Machine;

    closed spec fn view(&self) -> Machine {
        Machine {
            gr: self.gr@,
            pc: self.pc as int,
            sp: self.sp,
            flags: self.flags,
            memory: self.memory@,
            inputs: texts_view(self.input_lines@),
            cursor: self.current_input as int,
            output: self.output_buffer@,
            quiet: self.quiet,
        }
    }
}

impl RuntimeError {
    /// The message of the fault.
    pub fn message(&self) -> (text: String)
        ensures
            text@ == runtime_error_message(*self),
    {
        let mut text = String::new();
        match self {
            RuntimeError::PcOutOfBounds { pc } => {
                text.append("PC out of bounds: ");
                push_decimal(&mut text, *pc as u64);
            },
            RuntimeError::UnknownOpcode { opcode, pc } => {
                text.append("Unknown opcode ");
                push_decimal(&mut text, *opcode as u64);
                text.append(" at PC=");
                push_decimal(&mut text, *pc as u64);
            },
            RuntimeError::InvalidRegister { pc } => {
                text.append("Invalid register at PC=");
                push_decimal(&mut text, *pc as u64);
            },
            RuntimeError::UnknownSvc { code, pc } => {
                text.append("Unknown SVC code ");
                push_decimal(&mut text, *code as u64);
                text.append(" at PC=");
                push_decimal(&mut text, *pc as u64);
            },
            RuntimeError::StepLimit => {
                text.append("Step limit reached");
            },
        }
        text
    }
}

impl Halt {
    /// The line that tells why the machine stopped; empty for a return
    /// with an empty stack.
    pub fn message(&self) -> (text: String)
        ensures
            text@ == halt_message(*self),
    {
        let mut text = String::new();
        match self {
            Halt::Return => {},
            Halt::Normal => {
                text.append("Program terminated normally.");
            },
            Halt::Overflow => {
                text.append("***** Run-Time Error : Overflow *****");
            },
            Halt::ZeroDivide => {
                text.append("***** Run-Time Error : Zero-Divide *****");
            },
            Halt::RangeOver => {
                text.append("***** Run-Time Error : Range-Over in Array Index *****");
            },
        }
        text
    }
}

/// Whether an opcode's instruction reads the register field `r`.
pub fn opcode_uses_r(opcode: u8) -> (b: bool)
    ensures
        b == uses_r(opcode as int),
{
    match opcode {
        0x10 | 0x11 | 0x12 | 0x14 | 0x20 | 0x21 | 0x22 | 0x23 | 0x24 | 0x25 | 0x26 | 0x27 |
        0x28 | 0x29 | 0x2a | 0x2b | 0x2c | 0x2d | 0x2e | 0x2f | 0x30 | 0x31 | 0x32 | 0x34 |
        0x35 | 0x36 | 0x40 | 0x41 | 0x44 | 0x45 | 0x50 | 0x51 | 0x52 | 0x53 | 0x71 => true,
        _ => false,
    }
}

/// Whether an opcode's instruction reads the register field `x`.
pub fn opcode_uses_x(opcode: u8) -> (b: bool)
    ensures
        b == uses_x(opcode as int),
{
    match opcode {
        0x10 | 0x11 | 0x12 | 0x14 | 0x20 | 0x21 | 0x22 | 0x23 | 0x24 | 0x25 | 0x26 | 0x27 |
        0x28 | 0x29 | 0x2a | 0x2b | 0x2c | 0x2d | 0x2e | 0x2f | 0x30 | 0x31 | 0x32 | 0x34 |
        0x35 | 0x36 | 0x40 | 0x41 | 0x44 | 0x45 | 0x50 | 0x51 | 0x52 | 0x53 | 0x61 | 0x62 |
        0x63 | 0x64 | 0x65 | 0x66 | 0x70 | 0x80 => true,
        _ => false,
    }
}

impl Comet2 {
    /// The memory has its 65536 words, the program counter is at most one
    /// behind the last of them, and no more input lines were read than
    /// there are.
    pub closed spec fn wf(&self) -> bool {
        &&& self.memory.len() == 0x10000
        &&& self.pc <= 0x10000
        &&& self.current_input <= self.input_lines.len()
    }

    /// The machine is well formed and in the state `expected.machine`, and
    /// `res` is `expected.result`.
    pub open spec fn did(&self, res: Result<Step, RuntimeError>, expected: Stepped) -> bool {
        &&& self.wf()
        &&& self@ == expected.machine
        &&& res == expected.result
    }

    /// A well-formed machine has a well-formed state.
    pub proof fn lemma_view_wf(&self)
        requires
            self.wf(),
        ensures
            self@.wf(),
    {
    }

    /// A machine with the image `binary` loaded at address 0, about to
    /// execute the word at `start_address`.
    pub fn new(binary: &[u16], start_address: u16, inputs: &[String], quiet: bool) -> (machine:
        Comet2)
        requires
            binary@.len() <= 0x10000,
        ensures
            machine.wf(),
            machine@ == initial_machine(binary@, start_address, texts_view(inputs@), quiet),
    {
        let mut memory: Vec<u16> = vec![0u16; 65536];
        let mut i: usize = 0;
        while i < binary.len()
            invariant
                i <= binary@.len() <= 0x10000,
                memory.len() == 0x10000,
                forall|j: int| 0 <= j < i ==> memory@[j] == binary@[j],
                forall|j: int| i <= j < 0x10000 ==> memory@[j] == 0,
            decreases binary@.len() - i,
        {
            memory.set(i, binary[i]);
            i += 1;
        }
        let mut input_lines: Vec<String> = Vec::new();
        let mut k: usize = 0;
        while k < inputs.len()
            invariant
                k <= inputs@.len(),
                texts_view(input_lines@) == texts_view(inputs@).subrange(0, k as int),
            decreases inputs@.len() - k,
        {
            let line = inputs[k].clone();
            let ghost read = texts_view(input_lines@);
            input_lines.push(line);
            assert(texts_view(input_lines@) == read.push(inputs@[k as int]@));
            k += 1;
        }
        let machine = Comet2 {
            gr: [0; 8],
            pc: start_address as u32,
            sp: 0xff00,
            flags: Flags { sign: false, zero: false, overflow: false },
            memory,
            input_lines,
            current_input: 0,
            output_buffer: String::new(),
            quiet,
        };
        machine
    }

    /// The captured output.
    pub fn get_output(&self) -> (output: String)
        ensures
            output@ == self@.output,
    {
        self.output_buffer.clone()
    }

    /// The value of a register.
    pub fn register(&self, r: Register) -> (value: u16)
        ensures
            value == self@.gr[r.spec_to_u8() as int],
    {
        self.gr[r.to_u8() as usize]
    }

    /// The program counter.
    pub fn pc(&self) -> (pc: u32)
        ensures
            pc == self@.pc,
    {
        self.pc
    }

    /// The stack pointer.
    pub fn sp(&self) -> (sp: u16)
        ensures
            sp == self@.sp,
    {
        self.sp
    }

    /// The flags.
    pub fn flags(&self) -> (flags: Flags)
        ensures
            flags == self@.flags,
    {
        self.flags
    }

    /// The word of memory at an address.
    pub fn memory_word(&self, address: u16) -> (word: u16)
        requires
            self.wf(),
        ensures
            word == self@.memory[address as int],
    {
        self.memory[address as usize]
    }

    /// Fetches the word at the program counter and moves the program
    /// counter on.
    pub fn fetch(&mut self) -> (res: Result<u16, RuntimeError>)
        requires
            old(self).wf(),
        ensures
            final(self).wf(),
            if pc_fault(old(self)@) {
                res == Err::<u16, RuntimeError>(pc_error(old(self)@)) && final(self)@ == old(self)@
            } else {
                res == Ok::<u16, RuntimeError>(old(self)@.memory[old(self)@.pc]) && final(self)@
                    == after_fetch(old(self)@)
            },
    {
        if self.pc >= 0x10000 {
            return Err(RuntimeError::PcOutOfBounds { pc: self.pc });
        }
        let word = self.memory[self.pc as usize];
        self.pc = self.pc + 1;
        Ok(word)
    }

    /// Fetches the address word and adds the index register to it, where
    /// there is one.
    pub fn effective_address(&mut self, x: u8) -> (res: Result<u16, RuntimeError>)
        requires
            old(self).wf(),
            x < 8,
        ensures
            final(self).wf(),
            if pc_fault(old(self)@) {
                res == Err::<u16, RuntimeError>(pc_error(old(self)@)) && final(self)@ == old(self)@
            } else {
                res == Ok::<u16, RuntimeError>(effective_address(old(self)@, x as int)) && final(self)@ == after_fetch(old(self)@)
            },
    {
        match self.fetch() {
            Err(e) => Err(e),
            Ok(adr) => {
                if x == 0 {
                    Ok(adr)
                } else {
                    Ok(((adr as u32 + self.gr[x as usize] as u32) % 0x10000) as u16)
                }
            },
        }
    }

    /// Sets the sign and zero flags by the result of a signed operation,
    /// and clears the overflow flag.
    pub fn set_flags_arithmetic(&mut self, result: u16)
        requires
            old(self).wf(),
        ensures
            final(self).wf(),
            final(self)@ == (Machine { flags: arithmetic_flags(result, false), ..old(self)@ }),
    {
        self.flags = Flags { sign: result >= 0x8000, zero: result == 0, overflow: false };
    }

    /// Sets the sign and zero flags by the result of an unsigned
    /// operation, and clears the overflow flag.
    pub fn set_flags_logical(&mut self, result: u16)
        requires
            old(self).wf(),
        ensures
            final(self).wf(),
            final(self)@ == (Machine { flags: logical_flags(result, false), ..old(self)@ }),
    {
        if result == 0 {
            self.flags = Flags { sign: false, zero: true, overflow: false };
        } else {
            self.flags = Flags { sign: result >= 0x8000, zero: false, overflow: false };
        }
    }

    /// Sets the overflow flag.
    pub fn set_overflow(&mut self)
        requires
            old(self).wf(),
        ensures
            final(self).wf(),
            final(self)@ == (Machine {
                flags: Flags { overflow: true, ..old(self)@.flags },
                ..old(self)@
            }),
    {
        self.flags = Flags { sign: self.flags.sign, zero: self.flags.zero, overflow: true };
    }

    /// Puts the result of an operation on the register `r` and the operand
    /// `b` into the register and the flags.
    fn apply(&mut self, op: AluOp, r: u8, b: u16)
        requires
            old(self).wf(),
            r < 8,
        ensures
            final(self).wf(),
            final(self)@ == apply_alu(old(self)@, op, r as int, b),
    {
        let computed = compute(op, self.gr[r as usize], b);
        self.gr[r as usize] = computed.value;
        if computed.signed {
            self.set_flags_arithmetic(computed.flag_word);
        } else {
            self.set_flags_logical(computed.flag_word);
        }
        if computed.overflow {
            self.set_overflow();
        }
    }

    fn operate_ra(&mut self, op: AluOp, r: u8, x: u8) -> (res: Result<Step, RuntimeError>)
        requires
            old(self).wf(),
            r < 8,
            x < 8,
        ensures
            final(self).did(res, spec_alu_ra(old(self)@, op, r as int, x as int)),
    {
        match self.effective_address(x) {
            Err(e) => Err(e),
            Ok(ea) => {
                let b = self.memory[ea as usize];
                self.apply(op, r, b);
                Ok(Step::Advance)
            },
        }
    }

    fn operate_rr(&mut self, op: AluOp, r1: u8, r2: u8) -> (res: Result<Step, RuntimeError>)
        requires
            old(self).wf(),
            r1 < 8,
            r2 < 8,
        ensures
            final(self).did(res, spec_alu_rr(old(self)@, op, r1 as int, r2 as int)),
    {
        let b = self.gr[r2 as usize];
        self.apply(op, r1, b);
        Ok(Step::Advance)
    }

    fn jump_if(&mut self, kind: JumpKind, x: u8) -> (res: Result<Step, RuntimeError>)
        requires
            old(self).wf(),
            x < 8,
        ensures
            final(self).did(res, spec_jump(old(self)@, kind, x as int)),
    {
        let taken = match kind {
            JumpKind::Jmi => self.flags.sign,
            JumpKind::Jnz => !self.flags.zero,
            JumpKind::Jze => self.flags.zero,
            JumpKind::Jump => true,
            JumpKind::Jpl => !self.flags.sign && !self.flags.zero,
            JumpKind::Jov => self.flags.overflow,
        };
        match self.effective_address(x) {
            Err(e) => Err(e),
            Ok(ea) => {
                if taken {
                    self.pc = ea as u32;
                    Ok(Step::Jump)
                } else {
                    Ok(Step::Advance)
                }
            },
        }
    }

    /// `NOP`.
    pub fn nop(&mut self) -> (res: Result<Step, RuntimeError>)
        requires
            old(self).wf(),
        ensures
            final(self).did(res, advance(old(self)@)),
    {
        Ok(Step::Advance)
    }

    /// `LD r,adr,x`.
    pub fn ld_ra(&mut self, r: u8, x: u8) -> (res: Result<Step, RuntimeError>)
        requires
            old(self).wf(),
            r < 8,
            x < 8,
        ensures
            final(self).did(res, spec_ld_ra(old(self)@, r as int, x as int)),
    {
        match self.effective_address(x) {
            Err(e) => Err(e),
            Ok(ea) => {
                self.gr[r as usize] = self.memory[ea as usize];
                Ok(Step::Advance)
            },
        }
    }

    /// `LD r1,r2`.
    pub fn ld_rr(&mut self, r1: u8, r2: u8) -> (res: Result<Step, RuntimeError>)
        requires
            old(self).wf(),
            r1 < 8,
            r2 < 8,
        ensures
            final(self).did(res, spec_ld_rr(old(self)@, r1 as int, r2 as int)),
    {
        self.gr[r1 as usize] = self.gr[r2 as usize];
        Ok(Step::Advance)
    }

    /// `ST r,adr,x`.
    pub fn st(&mut self, r: u8, x: u8) -> (res: Result<Step, RuntimeError>)
        requires
            old(self).wf(),
            r < 8,
            x < 8,
        ensures
            final(self).did(res, spec_st(old(self)@, r as int, x as int)),
    {
        match self.effective_address(x) {
            Err(e) => Err(e),
            Ok(ea) => {
                let value = self.gr[r as usize];
                self.memory.set(ea as usize, value);
                Ok(Step::Advance)
            },
        }
    }

    /// `LAD r,adr,x`.
    pub fn lad(&mut self, r: u8, x: u8) -> (res: Result<Step, RuntimeError>)
        requires
            old(self).wf(),
            r < 8,
            x < 8,
        ensures
            final(self).did(res, spec_lad(old(self)@, r as int, x as int)),
    {
        match self.effective_address(x) {
            Err(e) => Err(e),
            Ok(ea) => {
                self.gr[r as usize] = ea;
                Ok(Step::Advance)
            },
        }
    }

    /// `ADDA r,adr,x`.
    pub fn adda_ra(&mut self, r: u8, x: u8) -> (res: Result<Step, RuntimeError>)
        requires
            old(self).wf(),
            r < 8,
            x < 8,
        ensures
            final(self).did(res, spec_alu_ra(old(self)@, AluOp::Adda, r as int, x as int)),
    {
        self.operate_ra(AluOp::Adda, r, x)
    }

    /// `SUBA r,adr,x`.
    pub fn suba_ra(&mut self, r: u8, x: u8) -> (res: Result<Step, RuntimeError>)
        requires
            old(self).wf(),
            r < 8,
            x < 8,
        ensures
            final(self).did(res, spec_alu_ra(old(self)@, AluOp::Suba, r as int, x as int)),
    {
        self.operate_ra(AluOp::Suba, r, x)
    }

    /// `ADDL r,adr,x`.
    pub fn addl_ra(&mut self, r: u8, x: u8) -> (res: Result<Step, RuntimeError>)
        requires
            old(self).wf(),
            r < 8,
            x < 8,
        ensures
            final(self).did(res, spec_alu_ra(old(self)@, AluOp::Addl, r as int, x as int)),
    {
        self.operate_ra(AluOp::Addl, r, x)
    }

    /// `SUBL r,adr,x`.
    pub fn subl_ra(&mut self, r: u8, x: u8) -> (res: Result<Step, RuntimeError>)
        requires
            old(self).wf(),
            r < 8,
            x < 8,
        ensures
            final(self).did(res, spec_alu_ra(old(self)@, AluOp::Subl, r as int, x as int)),
    {
        self.operate_ra(AluOp::Subl, r, x)
    }

    /// `MULA r,adr,x`.
    pub fn mula_ra(&mut self, r: u8, x: u8) -> (res: Result<Step, RuntimeError>)
        requires
            old(self).wf(),
            r < 8,
            x < 8,
        ensures
            final(self).did(res, spec_alu_ra(old(self)@, AluOp::Mula, r as int, x as int)),
    {
        self.operate_ra(AluOp::Mula, r, x)
    }

    /// `DIVA r,adr,x`.
    pub fn diva_ra(&mut self, r: u8, x: u8) -> (res: Result<Step, RuntimeError>)
        requires
            old(self).wf(),
            r < 8,
            x < 8,
        ensures
            final(self).did(res, spec_alu_ra(old(self)@, AluOp::Diva, r as int, x as int)),
    {
        self.operate_ra(AluOp::Diva, r, x)
    }

    /// `MULL r,adr,x`.
    pub fn mull_ra(&mut self, r: u8, x: u8) -> (res: Result<Step, RuntimeError>)
        requires
            old(self).wf(),
            r < 8,
            x < 8,
        ensures
            final(self).did(res, spec_alu_ra(old(self)@, AluOp::Mull, r as int, x as int)),
    {
        self.operate_ra(AluOp::Mull, r, x)
    }

    /// `DIVL r,adr,x`.
    pub fn divl_ra(&mut self, r: u8, x: u8) -> (res: Result<Step, RuntimeError>)
        requires
            old(self).wf(),
            r < 8,
            x < 8,
        ensures
            final(self).did(res, spec_alu_ra(old(self)@, AluOp::Divl, r as int, x as int)),
    {
        self.operate_ra(AluOp::Divl, r, x)
    }

    /// `AND r,adr,x`.
    pub fn and_ra(&mut self, r: u8, x: u8) -> (res: Result<Step, RuntimeError>)
        requires
            old(self).wf(),
            r < 8,
            x < 8,
        ensures
            final(self).did(res, spec_alu_ra(old(self)@, AluOp::And, r as int, x as int)),
    {
        self.operate_ra(AluOp::And, r, x)
    }

    /// `OR r,adr,x`.
    pub fn or_ra(&mut self, r: u8, x: u8) -> (res: Result<Step, RuntimeError>)
        requires
            old(self).wf(),
            r < 8,
            x < 8,
        ensures
            final(self).did(res, spec_alu_ra(old(self)@, AluOp::Or, r as int, x as int)),
    {
        self.operate_ra(AluOp::Or, r, x)
    }

    /// `XOR r,adr,x`.
    pub fn xor_ra(&mut self, r: u8, x: u8) -> (res: Result<Step, RuntimeError>)
        requires
            old(self).wf(),
            r < 8,
            x < 8,
        ensures
            final(self).did(res, spec_alu_ra(old(self)@, AluOp::Xor, r as int, x as int)),
    {
        self.operate_ra(AluOp::Xor, r, x)
    }

    /// `CPA r,adr,x`.
    pub fn cpa_ra(&mut self, r: u8, x: u8) -> (res: Result<Step, RuntimeError>)
        requires
            old(self).wf(),
            r < 8,
            x < 8,
        ensures
            final(self).did(res, spec_alu_ra(old(self)@, AluOp::Cpa, r as int, x as int)),
    {
        self.operate_ra(AluOp::Cpa, r, x)
    }

    /// `CPL r,adr,x`.
    pub fn cpl_ra(&mut self, r: u8, x: u8) -> (res: Result<Step, RuntimeError>)
        requires
            old(self).wf(),
            r < 8,
            x < 8,
        ensures
            final(self).did(res, spec_alu_ra(old(self)@, AluOp::Cpl, r as int, x as int)),
    {
        self.operate_ra(AluOp::Cpl, r, x)
    }

    /// `SLA r,adr,x`.
    pub fn sla(&mut self, r: u8, x: u8) -> (res: Result<Step, RuntimeError>)
        requires
            old(self).wf(),
            r < 8,
            x < 8,
        ensures
            final(self).did(res, spec_alu_ra(old(self)@, AluOp::Sla, r as int, x as int)),
    {
        self.operate_ra(AluOp::Sla, r, x)
    }

    /// `SRA r,adr,x`.
    pub fn sra(&mut self, r: u8, x: u8) -> (res: Result<Step, RuntimeError>)
        requires
            old(self).wf(),
            r < 8,
            x < 8,
        ensures
            final(self).did(res, spec_alu_ra(old(self)@, AluOp::Sra, r as int, x as int)),
    {
        self.operate_ra(AluOp::Sra, r, x)
    }

    /// `SLL r,adr,x`.
    pub fn sll(&mut self, r: u8, x: u8) -> (res: Result<Step, RuntimeError>)
        requires
            old(self).wf(),
            r < 8,
            x < 8,
        ensures
            final(self).did(res, spec_alu_ra(old(self)@, AluOp::Sll, r as int, x as int)),
    {
        self.operate_ra(AluOp::Sll, r, x)
    }

    /// `SRL r,adr,x`.
    pub fn srl(&mut self, r: u8, x: u8) -> (res: Result<Step, RuntimeError>)
        requires
            old(self).wf(),
            r < 8,
            x < 8,
        ensures
            final(self).did(res, spec_alu_ra(old(self)@, AluOp::Srl, r as int, x as int)),
    {
        self.operate_ra(AluOp::Srl, r, x)
    }

    /// `ADDA r1,r2`.
    pub fn adda_rr(&mut self, r1: u8, r2: u8) -> (res: Result<Step, RuntimeError>)
        requires
            old(self).wf(),
            r1 < 8,
            r2 < 8,
        ensures
            final(self).did(res, spec_alu_rr(old(self)@, AluOp::Adda, r1 as int, r2 as int)),
    {
        self.operate_rr(AluOp::Adda, r1, r2)
    }

    /// `SUBA r1,r2`.
    pub fn suba_rr(&mut self, r1: u8, r2: u8) -> (res: Result<Step, RuntimeError>)
        requires
            old(self).wf(),
            r1 < 8,
            r2 < 8,
        ensures
            final(self).did(res, spec_alu_rr(old(self)@, AluOp::Suba, r1 as int, r2 as int)),
    {
        self.operate_rr(AluOp::Suba, r1, r2)
    }

    /// `ADDL r1,r2`.
    pub fn addl_rr(&mut self, r1: u8, r2: u8) -> (res: Result<Step, RuntimeError>)
        requires
            old(self).wf(),
            r1 < 8,
            r2 < 8,
        ensures
            final(self).did(res, spec_alu_rr(old(self)@, AluOp::Addl, r1 as int, r2 as int)),
    {
        self.operate_rr(AluOp::Addl, r1, r2)
    }

    /// `SUBL r1,r2`.
    pub fn subl_rr(&mut self, r1: u8, r2: u8) -> (res: Result<Step, RuntimeError>)
        requires
            old(self).wf(),
            r1 < 8,
            r2 < 8,
        ensures
            final(self).did(res, spec_alu_rr(old(self)@, AluOp::Subl, r1 as int, r2 as int)),
    {
        self.operate_rr(AluOp::Subl, r1, r2)
    }

    /// `MULA r1,r2`.
    pub fn mula_rr(&mut self, r1: u8, r2: u8) -> (res: Result<Step, RuntimeError>)
        requires
            old(self).wf(),
            r1 < 8,
            r2 < 8,
        ensures
            final(self).did(res, spec_alu_rr(old(self)@, AluOp::Mula, r1 as int, r2 as int)),
    {
        self.operate_rr(AluOp::Mula, r1, r2)
    }

    /// `DIVA r1,r2`.
    pub fn diva_rr(&mut self, r1: u8, r2: u8) -> (res: Result<Step, RuntimeError>)
        requires
            old(self).wf(),
            r1 < 8,
            r2 < 8,
        ensures
            final(self).did(res, spec_alu_rr(old(self)@, AluOp::Diva, r1 as int, r2 as int)),
    {
        self.operate_rr(AluOp::Diva, r1, r2)
    }

    /// `MULL r1,r2`.
    pub fn mull_rr(&mut self, r1: u8, r2: u8) -> (res: Result<Step, RuntimeError>)
        requires
            old(self).wf(),
            r1 < 8,
            r2 < 8,
        ensures
            final(self).did(res, spec_alu_rr(old(self)@, AluOp::Mull, r1 as int, r2 as int)),
    {
        self.operate_rr(AluOp::Mull, r1, r2)
    }

    /// `DIVL r1,r2`.
    pub fn divl_rr(&mut self, r1: u8, r2: u8) -> (res: Result<Step, RuntimeError>)
        requires
            old(self).wf(),
            r1 < 8,
            r2 < 8,
        ensures
            final(self).did(res, spec_alu_rr(old(self)@, AluOp::Divl, r1 as int, r2 as int)),
    {
        self.operate_rr(AluOp::Divl, r1, r2)
    }

    /// `AND r1,r2`.
    pub fn and_rr(&mut self, r1: u8, r2: u8) -> (res: Result<Step, RuntimeError>)
        requires
            old(self).wf(),
            r1 < 8,
            r2 < 8,
        ensures
            final(self).did(res, spec_alu_rr(old(self)@, AluOp::And, r1 as int, r2 as int)),
    {
        self.operate_rr(AluOp::And, r1, r2)
    }

    /// `OR r1,r2`.
    pub fn or_rr(&mut self, r1: u8, r2: u8) -> (res: Result<Step, RuntimeError>)
        requires
            old(self).wf(),
            r1 < 8,
            r2 < 8,
        ensures
            final(self).did(res, spec_alu_rr(old(self)@, AluOp::Or, r1 as int, r2 as int)),
    {
        self.operate_rr(AluOp::Or, r1, r2)
    }

    /// `XOR r1,r2`.
    pub fn xor_rr(&mut self, r1: u8, r2: u8) -> (res: Result<Step, RuntimeError>)
        requires
            old(self).wf(),
            r1 < 8,
            r2 < 8,
        ensures
            final(self).did(res, spec_alu_rr(old(self)@, AluOp::Xor, r1 as int, r2 as int)),
    {
        self.operate_rr(AluOp::Xor, r1, r2)
    }

    /// `CPA r1,r2`.
    pub fn cpa_rr(&mut self, r1: u8, r2: u8) -> (res: Result<Step, RuntimeError>)
        requires
            old(self).wf(),
            r1 < 8,
            r2 < 8,
        ensures
            final(self).did(res, spec_alu_rr(old(self)@, AluOp::Cpa, r1 as int, r2 as int)),
    {
        self.operate_rr(AluOp::Cpa, r1, r2)
    }

    /// `CPL r1,r2`.
    pub fn cpl_rr(&mut self, r1: u8, r2: u8) -> (res: Result<Step, RuntimeError>)
        requires
            old(self).wf(),
            r1 < 8,
            r2 < 8,
        ensures
            final(self).did(res, spec_alu_rr(old(self)@, AluOp::Cpl, r1 as int, r2 as int)),
    {
        self.operate_rr(AluOp::Cpl, r1, r2)
    }

    /// `JMI adr,x`.
    pub fn jmi(&mut self, x: u8) -> (res: Result<Step, RuntimeError>)
        requires
            old(self).wf(),
            x < 8,
        ensures
            final(self).did(res, spec_jump(old(self)@, JumpKind::Jmi, x as int)),
    {
        self.jump_if(JumpKind::Jmi, x)
    }

    /// `JNZ adr,x`.
    pub fn jnz(&mut self, x: u8) -> (res: Result<Step, RuntimeError>)
        requires
            old(self).wf(),
            x < 8,
        ensures
            final(self).did(res, spec_jump(old(self)@, JumpKind::Jnz, x as int)),
    {
        self.jump_if(JumpKind::Jnz, x)
    }

    /// `JZE adr,x`.
    pub fn jze(&mut self, x: u8) -> (res: Result<Step, RuntimeError>)
        requires
            old(self).wf(),
            x < 8,
        ensures
            final(self).did(res, spec_jump(old(self)@, JumpKind::Jze, x as int)),
    {
        self.jump_if(JumpKind::Jze, x)
    }

    /// `JUMP adr,x`.
    pub fn jump(&mut self, x: u8) -> (res: Result<Step, RuntimeError>)
        requires
            old(self).wf(),
            x < 8,
        ensures
            final(self).did(res, spec_jump(old(self)@, JumpKind::Jump, x as int)),
    {
        self.jump_if(JumpKind::Jump, x)
    }

    /// `JPL adr,x`.
    pub fn jpl(&mut self, x: u8) -> (res: Result<Step, RuntimeError>)
        requires
            old(self).wf(),
            x < 8,
        ensures
            final(self).did(res, spec_jump(old(self)@, JumpKind::Jpl, x as int)),
    {
        self.jump_if(JumpKind::Jpl, x)
    }

    /// `JOV adr,x`.
    pub fn jov(&mut self, x: u8) -> (res: Result<Step, RuntimeError>)
        requires
            old(self).wf(),
            x < 8,
        ensures
            final(self).did(res, spec_jump(old(self)@, JumpKind::Jov, x as int)),
    {
        self.jump_if(JumpKind::Jov, x)
    }

    /// `PUSH adr,x`.
    pub fn push(&mut self, x: u8) -> (res: Result<Step, RuntimeError>)
        requires
            old(self).wf(),
            x < 8,
        ensures
            final(self).did(res, spec_push(old(self)@, x as int)),
    {
        match self.effective_address(x) {
            Err(e) => Err(e),
            Ok(ea) => {
                self.sp = Self::stack_down(self.sp);
                self.memory.set(self.sp as usize, ea);
                Ok(Step::Advance)
            },
        }
    }

    /// `POP r`.
    pub fn pop(&mut self, r: u8) -> (res: Result<Step, RuntimeError>)
        requires
            old(self).wf(),
            r < 8,
        ensures
            final(self).did(res, spec_pop(old(self)@, r as int)),
    {
        self.gr[r as usize] = self.memory[self.sp as usize];
        self.sp = Self::stack_up(self.sp);
        Ok(Step::Advance)
    }

    /// `CALL adr,x`.
    pub fn call(&mut self, x: u8) -> (res: Result<Step, RuntimeError>)
        requires
            old(self).wf(),
            x < 8,
        ensures
            final(self).did(res, spec_call(old(self)@, x as int)),
    {
        match self.effective_address(x) {
            Err(e) => Err(e),
            Ok(ea) => {
                self.sp = Self::stack_down(self.sp);
                let return_address: u16 = (self.pc % 0x10000) as u16;
                self.memory.set(self.sp as usize, return_address);
                self.pc = ea as u32;
                Ok(Step::Jump)
            },
        }
    }

    /// `RET`.
    pub fn ret(&mut self) -> (res: Result<Step, RuntimeError>)
        requires
            old(self).wf(),
        ensures
            final(self).did(res, spec_ret(old(self)@)),
    {
        if self.sp >= 0xff00 {
            return Ok(Step::Halt(Halt::Return));
        }
        self.pc = self.memory[self.sp as usize] as u32;
        self.sp = Self::stack_up(self.sp);
        Ok(Step::Jump)
    }

    fn stack_down(sp: u16) -> (r: u16)
        ensures
            r == pushed_sp(sp),
    {
        if sp == 0 {
            0xffff
        } else {
            sp - 1
        }
    }

    fn stack_up(sp: u16) -> (r: u16)
        ensures
            r == popped_sp(sp),
    {
        if sp == 0xffff {
            0
        } else {
            sp + 1
        }
    }

    /// The supervisor call `IN`.
    pub fn svc_in(&mut self)
        requires
            old(self).wf(),
        ensures
            final(self).wf(),
            final(self)@ == spec_svc_in(old(self)@),
    {
        let buffer: u16 = self.gr[1];
        let length_at: usize = self.gr[2] as usize;
        if self.current_input < self.input_lines.len() {
            let chars = chars_of(self.input_lines[self.current_input].as_str());
            let ghost line = chars@;
            if !self.quiet {
                self.output_buffer.push('I');
                self.output_buffer.push('N');
                self.output_buffer.push('>');
                self.output_buffer.push(' ');
                self.output_buffer.append(self.input_lines[self.current_input].as_str());
                self.output_buffer.push('\n');
            }
            self.current_input = self.current_input + 1;
            let limit: usize = self.memory[length_at] as usize;
            let count: usize = if chars.len() <= limit {
                chars.len()
            } else {
                limit
            };
            let ghost before = self@;
            let mut i: usize = 0;
            while i < count
                invariant
                    i <= count <= chars.len(),
                    count <= 0xffff,
                    chars@ == line,
                    self.wf(),
                    self@ == (Machine { memory: self.memory@, ..before }),
                    store_chars(before.memory, buffer, line, 0, count as int) == store_chars(
                        self.memory@,
                        buffer,
                        line,
                        i as int,
                        count as int,
                    ),
                decreases count - i,
            {
                let address: usize = (buffer as usize + i) % 0x10000;
                self.memory.set(address, word_of_char(chars[i]));
                i += 1;
            }
            self.memory.set(length_at, count as u16);
        } else {
            self.memory.set(length_at, 0);
        }
    }

    /// The supervisor call `OUT`.
    pub fn svc_out(&mut self)
        requires
            old(self).wf(),
        ensures
            final(self).wf(),
            final(self)@ == spec_svc_out(old(self)@),
    {
        let buffer: u16 = self.gr[1];
        let length: usize = self.memory[self.gr[2] as usize] as usize;
        if !self.quiet {
            self.output_buffer.push('O');
            self.output_buffer.push('U');
            self.output_buffer.push('T');
            self.output_buffer.push('>');
            self.output_buffer.push(' ');
            assert(self.output_buffer@ == old(self)@.output + out_prefix());
        }
        let ghost before = self@;
        let mut i: usize = 0;
        let mut done = false;
        while i < length && !done
            invariant
                i <= length <= 0xffff,
                self.wf(),
                self@ == (Machine { output: self.output_buffer@, ..before }),
                out_chars(before.memory, buffer, 0, length as int, before.output) == if done {
                    self.output_buffer@
                } else {
                    out_chars(before.memory, buffer, i as int, length as int, self.output_buffer@)
                },
            decreases length - i + if done {
                0int
            } else {
                1int
            },
        {
            let word: u16 = self.memory[(buffer as usize + i) % 0x10000];
            if word == 0 {
                done = true;
            } else {
                self.output_buffer.push(((word % 256) as u8) as char);
                i += 1;
            }
        }
        self.output_buffer.push('\n');
    }

    /// `SVC`: fetches the service code and performs the service.
    pub fn svc(&mut self) -> (res: Result<Step, RuntimeError>)
        requires
            old(self).wf(),
        ensures
            final(self).did(res, spec_svc(old(self)@)),
    {
        let at: u32 = self.pc;
        match self.fetch() {
            Err(e) => Err(e),
            Ok(code) => {
                match code {
                    0 => Ok(Step::Halt(Halt::Normal)),
                    1 => Ok(Step::Halt(Halt::Overflow)),
                    2 => Ok(Step::Halt(Halt::ZeroDivide)),
                    3 => Ok(Step::Halt(Halt::RangeOver)),
                    0xfff0 => {
                        self.svc_in();
                        Ok(Step::Advance)
                    },
                    0xfff2 => {
                        self.svc_out();
                        Ok(Step::Advance)
                    },
                    _ => Err(RuntimeError::UnknownSvc { code, pc: at }),
                }
            },
        }
    }

    /// Executes one instruction.
    pub fn step(&mut self) -> (res: Result<Step, RuntimeError>)
        requires
            old(self).wf(),
        ensures
            final(self).did(res, spec_step(old(self)@)),
    {
        let at: u32 = self.pc;
        let word: u16 = match self.fetch() {
            Err(e) => {
                return Err(e);
            },
            Ok(word) => word,
        };
        let opcode: u8 = (word / 256) as u8;
        let r: u8 = (word / 16 % 16) as u8;
        let x: u8 = (word % 16) as u8;
        if (opcode_uses_r(opcode) && r >= 8) || (opcode_uses_x(opcode) && x >= 8) {
            return Err(RuntimeError::InvalidRegister { pc: at });
        }
        match opcode {
            0x00 => self.nop(),
            0x10 => self.ld_ra(r, x),
            0x11 => self.st(r, x),
            0x12 => self.lad(r, x),
            0x14 => self.ld_rr(r, x),
            0x20 => self.adda_ra(r, x),
            0x21 => self.suba_ra(r, x),
            0x22 => self.addl_ra(r, x),
            0x23 => self.subl_ra(r, x),
            0x24 => self.adda_rr(r, x),
            0x25 => self.suba_rr(r, x),
            0x26 => self.addl_rr(r, x),
            0x27 => self.subl_rr(r, x),
            0x28 => self.mula_ra(r, x),
            0x29 => self.diva_ra(r, x),
            0x2a => self.mull_ra(r, x),
            0x2b => self.divl_ra(r, x),
            0x2c => self.mula_rr(r, x),
            0x2d => self.diva_rr(r, x),
            0x2e => self.mull_rr(r, x),
            0x2f => self.divl_rr(r, x),
            0x30 => self.and_ra(r, x),
            0x31 => self.or_ra(r, x),
            0x32 => self.xor_ra(r, x),
            0x34 => self.and_rr(r, x),
            0x35 => self.or_rr(r, x),
            0x36 => self.xor_rr(r, x),
            0x40 => self.cpa_ra(r, x),
            0x41 => self.cpl_ra(r, x),
            0x44 => self.cpa_rr(r, x),
            0x45 => self.cpl_rr(r, x),
            0x50 => self.sla(r, x),
            0x51 => self.sra(r, x),
            0x52 => self.sll(r, x),
            0x53 => self.srl(r, x),
            0x61 => self.jmi(x),
            0x62 => self.jnz(x),
            0x63 => self.jze(x),
            0x64 => self.jump(x),
            0x65 => self.jpl(x),
            0x66 => self.jov(x),
            0x70 => self.push(x),
            0x71 => self.pop(r),
            0x80 => self.call(x),
            0x81 => self.ret(),
            0xf0 => self.svc(),
            _ => Err(RuntimeError::UnknownOpcode { opcode, pc: at }),
        }
    }

    /// Executes at most `max_steps` instructions, up to the first that
    /// stops the machine or faults.
    pub fn run_for(&mut self, max_steps: u64) -> (res: Result<RunStatus, RuntimeError>)
        requires
            old(self).wf(),
        ensures
            final(self).wf(),
            final(self)@ == spec_run(old(self)@, max_steps as nat).machine,
            res == spec_run(old(self)@, max_steps as nat).result,
    {
        let mut remaining: u64 = max_steps;
        while remaining > 0
            invariant
                self.wf(),
                spec_run(old(self)@, max_steps as nat) == spec_run(self@, remaining as nat),
            decreases remaining,
        {
            match self.step() {
                Err(e) => {
                    return Err(e);
                },
                Ok(Step::Halt(halt)) => {
                    return Ok(RunStatus::Halted(halt));
                },
                Ok(_) => {},
            }
            remaining -= 1;
        }
        Ok(RunStatus::OutOfSteps)
    }

    /// Runs the machine until it stops or faults. After `u64::MAX`
    /// instructions it gives up with `StepLimit`.
    pub fn run(&mut self) -> (res: Result<Halt, RuntimeError>)
        requires
            old(self).wf(),
        ensures
            final(self).wf(),
            final(self)@ == spec_run(old(self)@, u64::MAX as nat).machine,
            res == match spec_run(old(self)@, u64::MAX as nat).result {
                Ok(RunStatus::Halted(halt)) => Ok::<Halt, RuntimeError>(halt),
                Ok(RunStatus::OutOfSteps) => Err::<Halt, RuntimeError>(RuntimeError::StepLimit),
                Err(e) => Err::<Halt, RuntimeError>(e),
            },
    {
        match self.run_for(u64::MAX) {
            Ok(RunStatus::Halted(halt)) => Ok(halt),
            Ok(RunStatus::OutOfSteps) => Err(RuntimeError::StepLimit),
            Err(e) => Err(e),
        }
    }
}

} // verus!
