//! Laws of the machine's model: what a step does to the program counter,
//! to the stack pointer and to the flags, and that a step keeps a machine
//! well formed.

use vstd::prelude::*;
use vstd::arithmetic::div_mod::lemma_fundamental_div_mod_converse;
use crate::machine::{
    after_fetch, effective_address, initial_machine, instruction_words, jump_kind, jump_taken,
    memory_operation, opcode_of, pc_fault, popped_sp, pushed_sp, r_of, register_operation, spec_run,
    spec_step, stack_top, store_chars, x_of, Halt, Machine, RunStatus, Step,
};

verus! {

/// Storing characters leaves the memory as long as it was.
pub proof fn lemma_store_chars_len(memory: Seq<u16>, base: u16, line: Seq<char>, i: int, n: int)
    requires
        memory.len() == 0x10000,
        0 <= i,
    ensures
        store_chars(memory, base, line, i, n).len() == 0x10000,
    decreases n - i,
{
    if i < n {
        lemma_store_chars_len(
            memory.update((base + i) % 0x10000, crate::text::char_word(line[i])),
            base,
            line,
            i + 1,
            n,
        );
    }
}

/// A step leaves a well-formed machine well formed.
pub proof fn lemma_step_wf(m: Machine)
    requires
        m.wf(),
    ensures
        spec_step(m).machine.wf(),
{
    if !pc_fault(m) {
        let next = after_fetch(m);
        if opcode_of(m.memory[m.pc]) == 0xf0 && !pc_fault(next) {
            let called = after_fetch(next);
            let line = called.inputs[called.cursor];
            let limit = called.memory[called.gr[2] as int] as int;
            let count = if line.len() <= limit {
                line.len() as int
            } else {
                limit
            };
            if called.cursor < called.inputs.len() {
                lemma_store_chars_len(called.memory, called.gr[1], line, 0, count);
            }
        }
    }
}

/// A run leaves a well-formed machine well formed.
pub proof fn lemma_run_wf(m: Machine, steps: nat)
    requires
        m.wf(),
    ensures
        spec_run(m, steps).machine.wf(),
    decreases steps,
{
    if steps > 0 {
        lemma_step_wf(m);
        lemma_run_wf(spec_step(m).machine, (steps - 1) as nat);
    }
}

/// Every step that is no fault does exactly one of three things, and its
/// result says which.
///
/// `Advance`: the program counter has moved on by the number of words of
/// the instruction, which was no jump that was taken, no call and no
/// return. `Jump`: the instruction was a jump whose condition held, or a
/// call, and the program counter holds the effective address; or it was a
/// return and the program counter holds the word that was on top of the
/// stack. `Halt`: the instruction was a return with an empty stack or a
/// supervisor call with a code from 0 to 3.
pub proof fn lemma_step_kinds(m: Machine)
    requires
        m.wf(),
        spec_step(m).result is Ok,
    ensures
        ({
            let opcode = opcode_of(m.memory[m.pc]);
            let x = x_of(m.memory[m.pc]);
            let after = spec_step(m).machine;
            match spec_step(m).result->Ok_0 {
                Step::Advance => {
                    &&& after.pc == m.pc + instruction_words(opcode)
                    &&& opcode != 0x80 && opcode != 0x81
                    &&& jump_kind(opcode) is Some ==> !jump_taken(jump_kind(opcode)->0, m.flags)
                },
                Step::Jump => {
                    ||| jump_kind(opcode) is Some && jump_taken(jump_kind(opcode)->0, m.flags)
                        && after.pc == effective_address(after_fetch(m), x)
                    ||| opcode == 0x80 && after.pc == effective_address(after_fetch(m), x)
                    ||| opcode == 0x81 && m.sp < stack_top() && after.pc == m.memory[m.sp as int]
                },
                Step::Halt(halt) => {
                    ||| opcode == 0x81 && halt == Halt::Return && m.sp >= stack_top()
                    ||| opcode == 0xf0 && m.memory[m.pc + 1] <= 3
                },
            }
        }),
{
}

/// The stack pointer moves down by one word on a push and a call, up by
/// one word on a pop and a return, and with no other instruction.
pub proof fn lemma_step_stack(m: Machine)
    requires
        m.wf(),
        spec_step(m).result is Ok,
    ensures
        ({
            let opcode = opcode_of(m.memory[m.pc]);
            let after = spec_step(m).machine;
            if opcode == 0x70 || opcode == 0x80 {
                after.sp == pushed_sp(m.sp)
            } else if opcode == 0x71 || (opcode == 0x81 && m.sp < stack_top()) {
                after.sp == popped_sp(m.sp)
            } else {
                after.sp == m.sp
            }
        }),
{
}

/// After a step that computes (an arithmetic, logical, comparing or
/// shifting instruction) the sign flag and the zero flag are not both set.
pub proof fn lemma_flags_exclusive_after_step(m: Machine)
    requires
        m.wf(),
        spec_step(m).result is Ok,
        memory_operation(opcode_of(m.memory[m.pc])) is Some || register_operation(
            opcode_of(m.memory[m.pc]),
        ) is Some,
    ensures
        !(spec_step(m).machine.flags.sign && spec_step(m).machine.flags.zero),
{
    let opcode = opcode_of(m.memory[m.pc]);
    let r = r_of(m.memory[m.pc]);
    let x = x_of(m.memory[m.pc]);
    let next = after_fetch(m);
    if memory_operation(opcode) is Some {
        crate::alu::lemma_sign_zero_exclusive(
            memory_operation(opcode)->0,
            next.gr[r],
            next.memory[effective_address(next, x) as int],
        );
    } else {
        crate::alu::lemma_sign_zero_exclusive(register_operation(opcode)->0, next.gr[r], next.gr[x]);
    }
}

/// A run is determined by the image, the entry address, the input lines
/// and the mode: two machines made alike end alike, with the same output.
pub proof fn lemma_run_determined(
    binary: Seq<u16>,
    start_address: u16,
    inputs: Seq<Seq<char>>,
    quiet: bool,
    steps: nat,
    first: Machine,
    second: Machine,
)
    requires
        first == initial_machine(binary, start_address, inputs, quiet),
        second == initial_machine(binary, start_address, inputs, quiet),
    ensures
        spec_run(first, steps).machine.output == spec_run(second, steps).machine.output,
        spec_run(first, steps) == spec_run(second, steps),
{
}

/// A run that was given more steps than it needed to stop ends as the
/// shorter run did.
pub proof fn lemma_run_more_steps(m: Machine, steps: nat, more: nat)
    requires
        steps <= more,
        !(spec_run(m, steps).result matches Ok(RunStatus::OutOfSteps)),
    ensures
        spec_run(m, more) == spec_run(m, steps),
    decreases steps,
{
    if steps > 0 {
        let stepped = spec_step(m);
        match stepped.result {
            Ok(Step::Advance) => {
                lemma_run_more_steps(stepped.machine, (steps - 1) as nat, (more - 1) as nat);
            },
            Ok(Step::Jump) => {
                lemma_run_more_steps(stepped.machine, (steps - 1) as nat, (more - 1) as nat);
            },
            _ => {},
        }
    }
}

/// An instruction word is split into the opcode and the register fields
/// it was put together from.
pub proof fn lemma_instruction_word_fields(opcode: u16, r: u8, x: u8)
    requires
        opcode <= 0xff,
        r <= 15,
        x <= 15,
    ensures
        opcode_of(crate::layout::instruction_word(opcode, r, x)) == opcode,
        r_of(crate::layout::instruction_word(opcode, r, x)) == r,
        x_of(crate::layout::instruction_word(opcode, r, x)) == x,
{
    let word = opcode * 256 + r * 16 + x;
    lemma_fundamental_div_mod_converse(word, 256, opcode as int, r * 16 + x);
    lemma_fundamental_div_mod_converse(word, 16, opcode * 16 + r, x as int);
    lemma_fundamental_div_mod_converse(opcode * 16 + r, 16, opcode as int, r as int);
}

} // verus!
