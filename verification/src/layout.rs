//! The mathematical model of the two-pass assembler: what each pass does to
//! a program tree, as functions on sequences and maps.
//!
//! Pass 1 walks the lines and assigns an address to every label and to every
//! literal of a scope's pool. Pass 2 walks them again and writes the words.
//! Both are folds over the lines; `pass1_prefix` and `pass2_prefix` give the
//! state after the first `n` lines.

use vstd::prelude::*;
use crate::ast::{
    index_number, AddrInst, AddressView, DcValueView, InstructionView, LineView, NoOperandInst,
    OneRegInst, RegAddrInst, TwoRegInst,
};
use crate::text::{char_word, decimal_text, int_word, spec_parse_hex_u16, spec_parse_i32};

verus! {

/// Why a program could not be assembled.
#[derive(Debug, Clone, Copy, PartialEq, Eq, Structural)]
pub enum AsmErrorKind {
    /// `START` inside a `START`/`END` block.
    NestedStart,
    /// `START` on a line without a label.
    StartWithoutLabel,
    /// `END` outside a `START`/`END` block.
    EndWithoutStart,
    /// The input ended inside a `START`/`END` block.
    MissingEnd,
    /// `DS` with a negative count.
    NegativeDs,
    /// The image would have more than 65535 words.
    ImageTooLarge,
    /// A label is referenced that its scope does not define.
    UndefinedLabel,
    /// A literal that is neither `'c'`, `#` and hexadecimal digits, nor a
    /// signed decimal number.
    MalformedLiteral,
    /// A literal is referenced that pass 1 did not put in its scope's pool.
    LiteralNotRegistered,
}

/// An assembly error and the source line at fault. `MissingEnd` belongs to
/// no line and carries line 0.
#[derive(Debug, Clone, Copy, PartialEq, Eq, Structural)]
pub struct AsmError {
    pub kind: AsmErrorKind,
    pub line_number: usize,
}

/// What a kind of assembly error is called in a message.
pub open spec fn asm_error_text(kind: AsmErrorKind) -> Seq<char> {
    match kind {
        AsmErrorKind::NestedStart => "Nested START not allowed"@,
        AsmErrorKind::StartWithoutLabel => "START must have a label"@,
        AsmErrorKind::EndWithoutStart => "END without START"@,
        AsmErrorKind::MissingEnd => "Missing END instruction"@,
        AsmErrorKind::NegativeDs => "DS count must be non-negative"@,
        AsmErrorKind::ImageTooLarge => "Program does not fit in memory"@,
        AsmErrorKind::UndefinedLabel => "Undefined label"@,
        AsmErrorKind::MalformedLiteral => "Malformed literal"@,
        AsmErrorKind::LiteralNotRegistered => "Literal not registered in its scope"@,
    }
}

/// The message of an assembly error: its line, unless that is 0, and what
/// it is called.
pub open spec fn asm_error_message(error: AsmError) -> Seq<char> {
    if error.line_number == 0 {
        asm_error_text(error.kind)
    } else {
        "Line "@ + decimal_text(error.line_number as nat) + ": "@ + asm_error_text(error.kind)
    }
}

/// What the symbol table holds for a name: its address and the line that
/// defined it.
#[derive(Debug, Clone, Copy, PartialEq, Eq, Structural)]
pub struct Symbol {
    pub address: u16,
    pub line_number: usize,
}

/// The largest number of words an image may have.
pub open spec fn max_image_words() -> nat {
    0xffff
}

/// The key under which `name` of scope `scope` stands in the tables:
/// the scope, a colon, the name.
pub open spec fn scoped_key(scope: Seq<char>, name: Seq<char>) -> Seq<char> {
    scope + seq![':'] + name
}

/// The name of the `n`-th synthetic label: `_LIT` and `n` in decimal.
pub open spec fn literal_label(n: nat) -> Seq<char> {
    seq!['_', 'L', 'I', 'T'] + decimal_text(n)
}

/// The symbol table and the literal table. The literal table maps the scoped
/// key of a literal's text to the scoped key of its synthetic label.
#[verifier::ext_equal]
pub struct Tables {
    pub symbols: Map<Seq<char>, Symbol>,
    pub literals: Map<Seq<char>, Seq<char>>,
}

/// Whether the synthetic label of every literal of the literal table is in
/// the symbol table. This holds of the tables of pass 1: see
/// `lemma_literals_bound`.
pub open spec fn literals_bound(tables: Tables) -> bool {
    forall|key: Seq<char>|
        tables.literals.contains_key(key) ==> tables.symbols.contains_key(
            #[trigger] tables.literals[key],
        )
}

/// The literal text that an instruction refers to, if it has one.
pub open spec fn literal_of(instr: InstructionView) -> Option<Seq<char>> {
    match instr {
        InstructionView::Addr(_, AddressView::Literal(lit), _) => Some(lit),
        InstructionView::RegAddr(_, _, AddressView::Literal(lit), _) => Some(lit),
        _ => None,
    }
}

/// A pool with `lit` in it: unchanged if it is there already, else with
/// `lit` added at the end.
pub open spec fn pool_insert(pool: Seq<Seq<char>>, lit: Seq<char>) -> Seq<Seq<char>> {
    if pool.contains(lit) {
        pool
    } else {
        pool.push(lit)
    }
}

/// The pool after an instruction.
pub open spec fn pool_note(pool: Seq<Seq<char>>, instr: InstructionView) -> Seq<Seq<char>> {
    match literal_of(instr) {
        Some(lit) => pool_insert(pool, lit),
        None => pool,
    }
}

/// The number of words a `DC` value takes: one, or for a string one for
/// each character.
pub open spec fn dc_value_size(value: DcValueView) -> nat {
    match value {
        DcValueView::String(s) => s.len(),
        _ => 1,
    }
}

/// The number of words the values of a `DC` take together.
pub open spec fn dc_size(values: Seq<DcValueView>) -> nat
    decreases values.len(),
{
    if values.len() == 0 {
        0
    } else {
        dc_size(values.drop_last()) + dc_value_size(values.last())
    }
}

/// The number of words that pass 1 reserves for an instruction. `START` and
/// `END` take none themselves (the pool that `END` flushes is counted
/// apart).
pub open spec fn instruction_size(instr: InstructionView) -> nat {
    match instr {
        InstructionView::NoOperand(_) => 1,
        InstructionView::OneReg(_, _) => 1,
        InstructionView::RegAddr(_, _, _, _) => 2,
        InstructionView::Addr(_, _, _) => 2,
        InstructionView::TwoReg(_, _, _) => 1,
        InstructionView::Start(_) => 0,
        InstructionView::End => 0,
        InstructionView::Ds(n) => if n > 0 {
            n as nat
        } else {
            0
        },
        InstructionView::Dc(values) => dc_size(values),
        InstructionView::In(_, _) => 12,
        InstructionView::Out(_, _) => 12,
        InstructionView::Rpush => 14,
        InstructionView::Rpop => 7,
    }
}

/// The state of pass 1 between two lines.
#[verifier::ext_equal]
pub struct Pass1State {
    /// The address of the next word.
    pub address: nat,
    /// Whether a `START`/`END` block is open.
    pub in_program: bool,
    /// The label of the open block's `START`; empty outside a block.
    pub scope: Seq<char>,
    /// The scope whose label is the entry point, once there is one.
    pub entry_scope: Option<Seq<char>>,
    /// The literals of the open block, in the order of their first use.
    pub pool: Seq<Seq<char>>,
    /// The number of synthetic labels handed out so far.
    pub literal_counter: nat,
    pub tables: Tables,
}

/// The state of pass 1 before the first line.
pub open spec fn pass1_initial() -> Pass1State {
    Pass1State {
        address: 0,
        in_program: false,
        scope: Seq::empty(),
        entry_scope: None,
        pool: Seq::empty(),
        literal_counter: 0,
        tables: Tables { symbols: Map::empty(), literals: Map::empty() },
    }
}

/// An error of a kind on a line.
pub open spec fn asm_error(kind: AsmErrorKind, line_number: usize) -> AsmError {
    AsmError { kind, line_number }
}

/// What `START` does before the line's label is bound: it opens the block,
/// names the scope after the line's label, and makes that scope the entry
/// block if it is the first block or has an entry operand.
pub open spec fn pass1_start(st: Pass1State, line: LineView) -> Result<Pass1State, AsmError> {
    match line.instruction {
        Some(InstructionView::Start(entry)) => {
            if st.in_program {
                Err(asm_error(AsmErrorKind::NestedStart, line.line_number))
            } else {
                match line.label {
                    None => Err(asm_error(AsmErrorKind::StartWithoutLabel, line.line_number)),
                    Some(label) => Ok(
                        Pass1State {
                            in_program: true,
                            scope: label,
                            entry_scope: if entry is Some || st.entry_scope is None {
                                Some(label)
                            } else {
                                st.entry_scope
                            },
                            ..st
                        },
                    ),
                }
            }
        },
        _ => Ok(st),
    }
}

/// Binds the line's label, if it has one, to the current address.
pub open spec fn pass1_label(st: Pass1State, line: LineView) -> Pass1State {
    match line.label {
        Some(label) => Pass1State {
            tables: Tables {
                symbols: st.tables.symbols.insert(
                    scoped_key(st.scope, label),
                    Symbol { address: st.address as u16, line_number: line.line_number },
                ),
                literals: st.tables.literals,
            },
            ..st
        },
        None => st,
    }
}

/// The tables after the literal `lit` of `scope` got the synthetic label
/// number `counter` at `address`.
pub open spec fn register_literal(
    tables: Tables,
    scope: Seq<char>,
    lit: Seq<char>,
    counter: nat,
    address: nat,
    line_number: usize,
) -> Tables {
    let label = scoped_key(scope, literal_label(counter));
    Tables {
        symbols: tables.symbols.insert(label, Symbol { address: address as u16, line_number }),
        literals: tables.literals.insert(scoped_key(scope, lit), label),
    }
}

/// The tables after the literals of `pool` from index `i` on were
/// registered, one after the other: the one at index `k` with label number
/// `counter + k` at `address + k`.
pub open spec fn flush_tables(
    tables: Tables,
    scope: Seq<char>,
    pool: Seq<Seq<char>>,
    counter: nat,
    address: nat,
    line_number: usize,
    i: int,
) -> Tables
    decreases pool.len() - i,
{
    if i < 0 || i >= pool.len() {
        tables
    } else {
        flush_tables(
            register_literal(
                tables,
                scope,
                pool[i],
                (counter + i) as nat,
                (address + i) as nat,
                line_number,
            ),
            scope,
            pool,
            counter,
            address,
            line_number,
            i + 1,
        )
    }
}

/// Moves the address on by `words`, unless the image would grow too large.
pub open spec fn pass1_advance(st: Pass1State, words: nat, line_number: usize) -> Result<
    Pass1State,
    AsmError,
> {
    if st.address + words > max_image_words() {
        Err(asm_error(AsmErrorKind::ImageTooLarge, line_number))
    } else {
        Ok(Pass1State { address: st.address + words, ..st })
    }
}

/// What `END` does: every literal of the pool gets a synthetic label and
/// one word, in pool order; the pool is emptied and the block closed.
pub open spec fn pass1_end(st: Pass1State, line_number: usize) -> Result<Pass1State, AsmError> {
    if !st.in_program {
        Err(asm_error(AsmErrorKind::EndWithoutStart, line_number))
    } else if st.address + st.pool.len() > max_image_words() {
        Err(asm_error(AsmErrorKind::ImageTooLarge, line_number))
    } else {
        Ok(
            Pass1State {
                address: st.address + st.pool.len(),
                in_program: false,
                scope: Seq::empty(),
                entry_scope: st.entry_scope,
                pool: Seq::empty(),
                literal_counter: st.literal_counter + st.pool.len(),
                tables: flush_tables(
                    st.tables,
                    st.scope,
                    st.pool,
                    st.literal_counter,
                    st.address,
                    line_number,
                    0,
                ),
            },
        )
    }
}

/// What the line's instruction does, after `START` and the label.
pub open spec fn pass1_instruction(st: Pass1State, line: LineView) -> Result<
    Pass1State,
    AsmError,
> {
    match line.instruction {
        None => Ok(st),
        Some(InstructionView::Start(_)) => Ok(st),
        Some(InstructionView::End) => pass1_end(st, line.line_number),
        Some(InstructionView::Ds(n)) => {
            if n < 0 {
                Err(asm_error(AsmErrorKind::NegativeDs, line.line_number))
            } else {
                pass1_advance(st, n as nat, line.line_number)
            }
        },
        Some(instr) => pass1_advance(
            Pass1State { pool: pool_note(st.pool, instr), ..st },
            instruction_size(instr),
            line.line_number,
        ),
    }
}

/// Pass 1 on one line.
pub open spec fn pass1_line(st: Pass1State, line: LineView) -> Result<Pass1State, AsmError> {
    match pass1_start(st, line) {
        Err(e) => Err(e),
        Ok(started) => pass1_instruction(pass1_label(started, line), line),
    }
}

/// The state of pass 1 after the first `n` lines, or the first error among
/// them.
pub open spec fn pass1_prefix(lines: Seq<LineView>, n: int) -> Result<Pass1State, AsmError>
    decreases n,
{
    if n <= 0 {
        Ok(pass1_initial())
    } else {
        match pass1_prefix(lines, n - 1) {
            Err(e) => Err(e),
            Ok(st) => pass1_line(st, lines[n - 1]),
        }
    }
}

/// What pass 1 hands to pass 2: the tables, the entry address and the
/// number of words of the image.
#[verifier::ext_equal]
pub struct LayoutView {
    pub tables: Tables,
    pub entry: u16,
    pub size: u16,
}

/// The entry address: that of the entry block's scope label, or 0 where
/// the program has no block. (The label of a block is bound by the line of
/// its `START`: see `lemma_entry_bound`.)
pub open spec fn entry_address(st: Pass1State) -> u16 {
    match st.entry_scope {
        None => 0,
        Some(scope) => st.tables.symbols[scoped_key(scope, scope)].address,
    }
}

/// The end of pass 1: no block may be open.
pub open spec fn pass1_finish(st: Pass1State) -> Result<LayoutView, AsmError> {
    if st.in_program {
        Err(asm_error(AsmErrorKind::MissingEnd, 0))
    } else {
        Ok(LayoutView { tables: st.tables, entry: entry_address(st), size: st.address as u16 })
    }
}

/// Pass 1 on a whole program.
pub open spec fn spec_pass1(lines: Seq<LineView>) -> Result<LayoutView, AsmError> {
    match pass1_prefix(lines, lines.len() as int) {
        Err(e) => Err(e),
        Ok(st) => pass1_finish(st),
    }
}

/// The address of a label of a scope.
pub open spec fn spec_resolve_label(
    tables: Tables,
    scope: Seq<char>,
    name: Seq<char>,
    line_number: usize,
) -> Result<u16, AsmError> {
    let key = scoped_key(scope, name);
    if tables.symbols.contains_key(key) {
        Ok(tables.symbols[key].address)
    } else {
        Err(asm_error(AsmErrorKind::UndefinedLabel, line_number))
    }
}

/// The word an address operand stands for: a number narrowed to 16 bits, an
/// immediate as it is, a label's address, or the address of a literal's
/// synthetic label.
pub open spec fn spec_resolve_address(
    tables: Tables,
    scope: Seq<char>,
    addr: AddressView,
    line_number: usize,
) -> Result<u16, AsmError> {
    match addr {
        AddressView::Number(n) => Ok(int_word(n as int)),
        AddressView::Immediate(w) => Ok(w),
        AddressView::Label(name) => spec_resolve_label(tables, scope, name, line_number),
        AddressView::Literal(lit) => {
            let key = scoped_key(scope, lit);
            if tables.literals.contains_key(key) {
                Ok(tables.symbols[tables.literals[key]].address)
            } else {
                Err(asm_error(AsmErrorKind::LiteralNotRegistered, line_number))
            }
        },
    }
}

/// The word a literal's text stands for: `'c'` is the code point of `c`,
/// `#` and hexadecimal digits a word, anything else a signed decimal number
/// narrowed to 16 bits.
pub open spec fn spec_parse_literal(lit: Seq<char>) -> Option<u16> {
    if lit.len() > 0 && lit[0] == '\'' && lit.last() == '\'' {
        if lit.len() == 3 {
            Some(char_word(lit[1]))
        } else {
            None
        }
    } else if lit.len() > 0 && lit[0] == '#' {
        spec_parse_hex_u16(lit.skip(1))
    } else {
        match spec_parse_i32(lit) {
            Some(n) => Some(int_word(n as int)),
            None => None,
        }
    }
}

/// The opcode of an instruction without operands.
pub open spec fn spec_opcode_no_operand(op: NoOperandInst) -> u16 {
    match op {
        NoOperandInst::Nop => 0x00,
        NoOperandInst::Ret => 0x81,
    }
}

/// The opcode of an instruction with one register.
pub open spec fn spec_opcode_one_reg(op: OneRegInst) -> u16 {
    match op {
        OneRegInst::Pop => 0x71,
    }
}

/// The opcode of an address instruction.
pub open spec fn spec_opcode_addr(op: AddrInst) -> u16 {
    match op {
        AddrInst::Jmi => 0x61,
        AddrInst::Jnz => 0x62,
        AddrInst::Jze => 0x63,
        AddrInst::Jump => 0x64,
        AddrInst::Jpl => 0x65,
        AddrInst::Jov => 0x66,
        AddrInst::Push => 0x70,
        AddrInst::Call => 0x80,
        AddrInst::Svc => 0xf0,
    }
}

/// The opcode of a register-address instruction.
pub open spec fn spec_opcode_reg_addr(op: RegAddrInst) -> u16 {
    match op {
        RegAddrInst::Ld => 0x10,
        RegAddrInst::St => 0x11,
        RegAddrInst::Lad => 0x12,
        RegAddrInst::Adda => 0x20,
        RegAddrInst::Suba => 0x21,
        RegAddrInst::Addl => 0x22,
        RegAddrInst::Subl => 0x23,
        RegAddrInst::Mula => 0x28,
        RegAddrInst::Diva => 0x29,
        RegAddrInst::Mull => 0x2a,
        RegAddrInst::Divl => 0x2b,
        RegAddrInst::And => 0x30,
        RegAddrInst::Or => 0x31,
        RegAddrInst::Xor => 0x32,
        RegAddrInst::Cpa => 0x40,
        RegAddrInst::Cpl => 0x41,
        RegAddrInst::Sla => 0x50,
        RegAddrInst::Sra => 0x51,
        RegAddrInst::Sll => 0x52,
        RegAddrInst::Srl => 0x53,
    }
}

/// The opcode of a register-register instruction.
pub open spec fn spec_opcode_two_reg(op: TwoRegInst) -> u16 {
    match op {
        TwoRegInst::Ld => 0x14,
        TwoRegInst::Adda => 0x24,
        TwoRegInst::Suba => 0x25,
        TwoRegInst::Addl => 0x26,
        TwoRegInst::Subl => 0x27,
        TwoRegInst::Mula => 0x2c,
        TwoRegInst::Diva => 0x2d,
        TwoRegInst::Mull => 0x2e,
        TwoRegInst::Divl => 0x2f,
        TwoRegInst::And => 0x34,
        TwoRegInst::Or => 0x35,
        TwoRegInst::Xor => 0x36,
        TwoRegInst::Cpa => 0x44,
        TwoRegInst::Cpl => 0x45,
    }
}

/// The first word of an instruction: the opcode in the high byte, `r` in
/// bits 7 to 4 and `x` in bits 3 to 0.
pub open spec fn instruction_word(opcode: u16, r: u8, x: u8) -> u16 {
    (opcode * 256 + r * 16 + x) as u16
}

/// The twelve words of `IN` and `OUT`: `PUSH 0,GR1` and `PUSH 0,GR2` save
/// the two registers, `LAD` loads the two addresses into them, `SVC` calls
/// the supervisor with `code`, `POP GR2` and `POP GR1` restore them.
pub open spec fn io_macro_words(code: u16, buf: u16, len: u16) -> Seq<u16> {
    seq![0x7001, 0, 0x7002, 0, 0x1210, buf, 0x1220, len, 0xf000, code, 0x7120, 0x7110]
}

/// The fourteen words of `RPUSH`: `PUSH 0,GRn` for each of GR1 to GR7.
pub open spec fn rpush_words() -> Seq<u16> {
    seq![0x7001, 0, 0x7002, 0, 0x7003, 0, 0x7004, 0, 0x7005, 0, 0x7006, 0, 0x7007, 0]
}

/// The seven words of `RPOP`: `POP GRn` for each of GR7 down to GR1.
pub open spec fn rpop_words() -> Seq<u16> {
    seq![0x7170, 0x7160, 0x7150, 0x7140, 0x7130, 0x7120, 0x7110]
}

/// The words of a string: the low 16 bits of each character's code point.
pub open spec fn string_words(s: Seq<char>) -> Seq<u16> {
    Seq::new(s.len(), |i: int| char_word(s[i]))
}

/// `acc` followed by the words of one `DC` value: a number narrowed to 16
/// bits, an immediate as it is, a label's address, or the words of a
/// string.
pub open spec fn dc_value_words(
    tables: Tables,
    scope: Seq<char>,
    value: DcValueView,
    line_number: usize,
    acc: Seq<u16>,
) -> Result<Seq<u16>, AsmError> {
    match value {
        DcValueView::String(s) => Ok(acc + string_words(s)),
        DcValueView::Number(n) => Ok(acc.push(int_word(n as int))),
        DcValueView::Immediate(w) => Ok(acc.push(w)),
        DcValueView::Label(name) => match spec_resolve_label(tables, scope, name, line_number) {
            Ok(a) => Ok(acc.push(a)),
            Err(e) => Err(e),
        },
    }
}

/// `acc` followed by the words of the `DC` values from index `i` on, or the
/// error of the first value among them that has one.
pub open spec fn dc_words(
    tables: Tables,
    scope: Seq<char>,
    values: Seq<DcValueView>,
    line_number: usize,
    i: int,
    acc: Seq<u16>,
) -> Result<Seq<u16>, AsmError>
    decreases values.len() - i,
{
    if i < 0 || i >= values.len() {
        Ok(acc)
    } else {
        match dc_value_words(tables, scope, values[i], line_number, acc) {
            Err(e) => Err(e),
            Ok(next) => dc_words(tables, scope, values, line_number, i + 1, next),
        }
    }
}

/// `acc` followed by one word for each literal of the pool from index `i`
/// on; `None` if one of them is malformed.
pub open spec fn literal_words(pool: Seq<Seq<char>>, i: int, acc: Seq<u16>) -> Option<Seq<u16>>
    decreases pool.len() - i,
{
    if i < 0 || i >= pool.len() {
        Some(acc)
    } else {
        match spec_parse_literal(pool[i]) {
            None => None,
            Some(w) => literal_words(pool, i + 1, acc.push(w)),
        }
    }
}

/// A row of `n` zero words.
pub open spec fn zero_words(n: nat) -> Seq<u16> {
    Seq::new(n, |i: int| 0u16)
}

/// `acc` followed by the words of an instruction, in the scope `scope`.
/// `START` and `END` write nothing here.
pub open spec fn emit(
    tables: Tables,
    scope: Seq<char>,
    instr: InstructionView,
    line_number: usize,
    acc: Seq<u16>,
) -> Result<Seq<u16>, AsmError> {
    match instr {
        InstructionView::NoOperand(op) => Ok(
            acc.push(instruction_word(spec_opcode_no_operand(op), 0, 0)),
        ),
        InstructionView::OneReg(op, r) => Ok(
            acc.push(instruction_word(spec_opcode_one_reg(op), r.spec_to_u8(), 0)),
        ),
        InstructionView::TwoReg(op, r1, r2) => Ok(
            acc.push(instruction_word(spec_opcode_two_reg(op), r1.spec_to_u8(), r2.spec_to_u8())),
        ),
        InstructionView::Addr(op, addr, x) => match spec_resolve_address(
            tables,
            scope,
            addr,
            line_number,
        ) {
            Ok(a) => Ok(
                acc.push(instruction_word(spec_opcode_addr(op), 0, index_number(x))).push(a),
            ),
            Err(e) => Err(e),
        },
        InstructionView::RegAddr(op, r, addr, x) => match spec_resolve_address(
            tables,
            scope,
            addr,
            line_number,
        ) {
            Ok(a) => Ok(
                acc.push(
                    instruction_word(spec_opcode_reg_addr(op), r.spec_to_u8(), index_number(x)),
                ).push(a),
            ),
            Err(e) => Err(e),
        },
        InstructionView::Start(_) => Ok(acc),
        InstructionView::End => Ok(acc),
        InstructionView::Ds(n) => Ok(acc + zero_words(instruction_size(instr))),
        InstructionView::Dc(values) => dc_words(tables, scope, values, line_number, 0, acc),
        InstructionView::In(buf, len) => match spec_resolve_label(
            tables,
            scope,
            buf,
            line_number,
        ) {
            Err(e) => Err(e),
            Ok(b) => match spec_resolve_label(tables, scope, len, line_number) {
                Err(e) => Err(e),
                Ok(l) => Ok(acc + io_macro_words(0xfff0, b, l)),
            },
        },
        InstructionView::Out(buf, len) => match spec_resolve_label(
            tables,
            scope,
            buf,
            line_number,
        ) {
            Err(e) => Err(e),
            Ok(b) => match spec_resolve_label(tables, scope, len, line_number) {
                Err(e) => Err(e),
                Ok(l) => Ok(acc + io_macro_words(0xfff2, b, l)),
            },
        },
        InstructionView::Rpush => Ok(acc + rpush_words()),
        InstructionView::Rpop => Ok(acc + rpop_words()),
    }
}

/// The state of pass 2 between two lines.
#[verifier::ext_equal]
pub struct Pass2State {
    /// The words written so far.
    pub binary: Seq<u16>,
    /// The label of the open block's `START`; empty outside a block.
    pub scope: Seq<char>,
    /// The literals of the open block, in the order of their first use.
    pub pool: Seq<Seq<char>>,
}

/// The state of pass 2 before the first line.
pub open spec fn pass2_initial() -> Pass2State {
    Pass2State { binary: Seq::empty(), scope: Seq::empty(), pool: Seq::empty() }
}

/// Pass 2 on one line: `START` names the scope, `END` writes the pool and
/// closes the scope, every other instruction writes its words.
pub open spec fn pass2_line(tables: Tables, st: Pass2State, line: LineView) -> Result<
    Pass2State,
    AsmError,
> {
    match line.instruction {
        None => Ok(st),
        Some(InstructionView::Start(_)) => Ok(
            Pass2State {
                scope: match line.label {
                    Some(label) => label,
                    None => st.scope,
                },
                ..st
            },
        ),
        Some(InstructionView::End) => match literal_words(st.pool, 0, st.binary) {
            None => Err(asm_error(AsmErrorKind::MalformedLiteral, line.line_number)),
            Some(binary) => Ok(Pass2State { binary, scope: Seq::empty(), pool: Seq::empty() }),
        },
        Some(instr) => match emit(tables, st.scope, instr, line.line_number, st.binary) {
            Err(e) => Err(e),
            Ok(binary) => Ok(
                Pass2State { binary, scope: st.scope, pool: pool_note(st.pool, instr) },
            ),
        },
    }
}

/// The state of pass 2 after the first `n` lines, or the first error among
/// them.
pub open spec fn pass2_prefix(tables: Tables, lines: Seq<LineView>, n: int) -> Result<
    Pass2State,
    AsmError,
>
    decreases n,
{
    if n <= 0 {
        Ok(pass2_initial())
    } else {
        match pass2_prefix(tables, lines, n - 1) {
            Err(e) => Err(e),
            Ok(st) => pass2_line(tables, st, lines[n - 1]),
        }
    }
}

/// Pass 2 on a whole program: the image.
pub open spec fn spec_pass2(tables: Tables, lines: Seq<LineView>) -> Result<Seq<u16>, AsmError> {
    match pass2_prefix(tables, lines, lines.len() as int) {
        Err(e) => Err(e),
        Ok(st) => Ok(st.binary),
    }
}

/// What assembling a program gives.
#[verifier::ext_equal]
pub struct ImageView {
    /// The words of the image, from address 0.
    pub binary: Seq<u16>,
    /// The address at which execution starts.
    pub entry: u16,
    /// The number of words of the image.
    pub size: u16,
}

/// Assembling a program: pass 1, and pass 2 with the tables of pass 1.
pub open spec fn spec_assemble(lines: Seq<LineView>) -> Result<ImageView, AsmError> {
    match spec_pass1(lines) {
        Err(e) => Err(e),
        Ok(layout) => match spec_pass2(layout.tables, lines) {
            Err(e) => Err(e),
            Ok(binary) => Ok(ImageView { binary, entry: layout.entry, size: layout.size }),
        },
    }
}

} // verus!
