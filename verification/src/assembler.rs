//! The two-pass assembler: from a program tree to a word image.

use vstd::prelude::*;
use vstd::string::*;
use vstd::hash_map::StringHashMap;
use crate::ast::{
    dc_values_view, index_number, lines_view, AddrInst, Address, DcValue, Instruction, Line,
    NoOperandInst, OneRegInst, Program, RegAddrInst, Register, TwoRegInst,
};
use crate::layout::{
    asm_error, asm_error_message, dc_size, dc_value_words, dc_words, emit, flush_tables,
    instruction_size, instruction_word, io_macro_words, literal_label, literal_words,
    literals_bound, max_image_words, pass1_end, pass1_finish, pass1_initial, pass1_instruction,
    pass1_label, pass1_line, pass1_prefix, pass1_start, pass2_initial, pass2_line, pass2_prefix,
    pool_note, register_literal, rpop_words, rpush_words, scoped_key, spec_assemble,
    spec_opcode_addr, spec_opcode_no_operand, spec_opcode_one_reg, spec_opcode_reg_addr,
    spec_opcode_two_reg, spec_parse_literal, spec_pass1, spec_pass2, spec_resolve_address,
    spec_resolve_label, string_words, zero_words, AsmError, AsmErrorKind, LayoutView, Pass1State,
    Pass2State, Symbol, Tables,
};
use crate::text::{
    chars_of, parse_hex_u16, parse_i32, push_decimal, text_eq, texts_view, word_of_char,
    word_of_i32,
};

verus! {

/// A map to texts, with each text taken by its view.
pub open spec fn text_map_view(m: Map<Seq<char>, String>) -> Map<Seq<char>, Seq<char>> {
    Map::new(|k: Seq<char>| m.contains_key(k), |k: Seq<char>| m[k]@)
}

impl AsmError {
    /// The message of the error: its line, unless that is 0, and what it
    /// is called.
    pub fn message(&self) -> (text: String)
        ensures
            text@ == asm_error_message(*self),
    {
        let name: &str = match self.kind {
            AsmErrorKind::NestedStart => "Nested START not allowed",
            AsmErrorKind::StartWithoutLabel => "START must have a label",
            AsmErrorKind::EndWithoutStart => "END without START",
            AsmErrorKind::MissingEnd => "Missing END instruction",
            AsmErrorKind::NegativeDs => "DS count must be non-negative",
            AsmErrorKind::ImageTooLarge => "Program does not fit in memory",
            AsmErrorKind::UndefinedLabel => "Undefined label",
            AsmErrorKind::MalformedLiteral => "Malformed literal",
            AsmErrorKind::LiteralNotRegistered => "Literal not registered in its scope",
        };
        let mut text = String::new();
        if self.line_number != 0 {
            text.append("Line ");
            push_decimal(&mut text, self.line_number as u64);
            text.append(": ");
        }
        text.append(name);
        text
    }
}

/// The symbol table and the literal table.
pub struct SymbolTables {
    symbols: StringHashMap<Symbol>,
    literals: StringHashMap<String>,
}

impl View for SymbolTables {
    type V = Tables;

    closed spec fn view(&self) -> Tables {
        Tables { symbols: self.symbols@, literals: text_map_view(self.literals@) }
    }
}

/// What pass 1 hands to pass 2.
pub struct Layout {
    tables: SymbolTables,
    entry: u16,
    size: u16,
}

impl View for Layout {
    type V = LayoutView;

    closed spec fn view(&self) -> LayoutView {
        LayoutView { tables: self.tables@, entry: self.entry, size: self.size }
    }
}

impl Layout {
    /// The synthetic label of every literal is in the symbol table.
    #[verifier::type_invariant]
    spec fn inv(self) -> bool {
        literals_bound(self.tables@)
    }

    /// The address at which execution starts.
    pub fn entry(&self) -> (a: u16)
        ensures
            a == self@.entry,
    {
        self.entry
    }

    /// The number of words of the image.
    pub fn size(&self) -> (n: u16)
        ensures
            n == self@.size,
    {
        self.size
    }

    /// The symbol with the given scoped key, if there is one: its address
    /// and the line that defined it.
    pub fn symbol(&self, key: &str) -> (r: Option<Symbol>)
        ensures
            r == if self@.tables.symbols.contains_key(key@) {
                Some(self@.tables.symbols[key@])
            } else {
                None
            },
    {
        match self.tables.symbols.get(key) {
            Some(symbol) => Some(*symbol),
            None => None,
        }
    }

    /// The address of the symbol with the given scoped key, if there is
    /// one.
    pub fn symbol_address(&self, key: &str) -> (r: Option<u16>)
        ensures
            r == if self@.tables.symbols.contains_key(key@) {
                Some(self@.tables.symbols[key@].address)
            } else {
                None
            },
    {
        match self.tables.symbols.get(key) {
            Some(symbol) => Some(symbol.address),
            None => None,
        }
    }
}

fn make_error<T>(kind: AsmErrorKind, line_number: usize) -> (r: Result<T, AsmError>)
    ensures
        r == Err::<T, AsmError>(asm_error(kind, line_number)),
{
    Err(AsmError { kind, line_number })
}

/// Builds [`scoped_key`]: the scope, a colon, the name.
fn make_scoped_key(scope: &str, name: &str) -> (key: String)
    ensures
        key@ == scoped_key(scope@, name@),
{
    let mut key = String::new();
    key.append(scope);
    key.push(':');
    key.append(name);
    key
}

/// Builds [`literal_label`].
fn make_literal_label(n: usize) -> (name: String)
    ensures
        name@ == literal_label(n as nat),
{
    let mut name = String::new();
    name.push('_');
    name.push('L');
    name.push('I');
    name.push('T');
    push_decimal(&mut name, n as u64);
    name
}

fn pool_contains(pool: &Vec<String>, lit: &str) -> (found: bool)
    ensures
        found == texts_view(pool@).contains(lit@),
{
    let mut i: usize = 0;
    while i < pool.len()
        invariant
            i <= pool.len(),
            forall|j: int| 0 <= j < i ==> texts_view(pool@)[j] != lit@,
        decreases pool.len() - i,
    {
        if text_eq(pool[i].as_str(), lit) {
            assert(texts_view(pool@)[i as int] == lit@);
            return true;
        }
        i += 1;
    }
    false
}

/// Puts the literal that an instruction refers to, if any, into the pool,
/// unless it is there already.
fn note_literal(pool: &mut Vec<String>, instr: &Instruction)
    ensures
        texts_view(final(pool)@) == pool_note(texts_view(old(pool)@), instr@),
{
    let lit: Option<&String> = match instr {
        Instruction::Addr(_, Address::Literal(lit), _) => Some(lit),
        Instruction::RegAddr(_, _, Address::Literal(lit), _) => Some(lit),
        _ => None,
    };
    match lit {
        Some(lit) => {
            if !pool_contains(pool, lit.as_str()) {
                pool.push(lit.clone());
            }
        },
        None => {},
    }
}

/// `dc_size` of a longer list is no smaller.
proof fn lemma_dc_size_grows(values: Seq<crate::ast::DcValueView>, k: int)
    requires
        0 <= k <= values.len(),
    ensures
        dc_size(values.subrange(0, k)) <= dc_size(values),
    decreases values.len() - k,
{
    if k == values.len() {
        assert(values.subrange(0, k) == values);
    } else {
        lemma_dc_size_grows(values, k + 1);
        assert(values.subrange(0, k + 1).drop_last() == values.subrange(0, k));
    }
}

/// The number of words of a `DC`, as long as it is at most `limit`.
fn dc_words_within(values: &Vec<DcValue>, limit: usize) -> (r: Option<usize>)
    ensures
        r == if dc_size(dc_values_view(values@)) <= limit {
            Some(dc_size(dc_values_view(values@)) as usize)
        } else {
            None
        },
{
    let ghost all = dc_values_view(values@);
    let mut total: usize = 0;
    let mut i: usize = 0;
    while i < values.len()
        invariant
            i <= values.len(),
            all == dc_values_view(values@),
            total == dc_size(all.subrange(0, i as int)),
            total <= limit,
        decreases values.len() - i,
    {
        let size: usize = match &values[i] {
            DcValue::String(s) => s.as_str().unicode_len(),
            _ => 1,
        };
        proof {
            assert(all.subrange(0, i + 1).drop_last() == all.subrange(0, i as int));
            lemma_dc_size_grows(all, i + 1);
        }
        if size > limit - total {
            return None;
        }
        total += size;
        i += 1;
    }
    assert(all.subrange(0, i as int) == all);
    Some(total)
}

/// A number of words, as long as it is at most `limit`.
fn within(words: usize, limit: usize) -> (r: Option<usize>)
    ensures
        r == if words <= limit {
            Some(words)
        } else {
            None
        },
{
    if words <= limit {
        Some(words)
    } else {
        None
    }
}

/// The number of words that pass 1 reserves for an instruction, as long as
/// it is at most `limit`.
fn size_within(instr: &Instruction, limit: usize) -> (r: Option<usize>)
    ensures
        r == if instruction_size(instr@) <= limit {
            Some(instruction_size(instr@) as usize)
        } else {
            None
        },
{
    match instr {
        Instruction::NoOperand(_) => within(1, limit),
        Instruction::OneReg(_, _) => within(1, limit),
        Instruction::RegAddr(_, _, _, _) => within(2, limit),
        Instruction::Addr(_, _, _) => within(2, limit),
        Instruction::TwoReg(_, _, _) => within(1, limit),
        Instruction::Start(_) => Some(0),
        Instruction::End => Some(0),
        Instruction::Ds(n) => {
            if *n <= 0 {
                Some(0)
            } else if *n as u32 as usize > limit {
                None
            } else {
                Some(*n as usize)
            }
        },
        Instruction::Dc(values) => dc_words_within(values, limit),
        Instruction::In(_, _) => within(12, limit),
        Instruction::Out(_, _) => within(12, limit),
        Instruction::Rpush => within(14, limit),
        Instruction::Rpop => within(7, limit),
    }
}

/// The state of pass 1 between two lines.
struct Pass1 {
    address: u16,
    in_program: bool,
    scope: String,
    entry_scope: Option<String>,
    pool: Vec<String>,
    literal_counter: usize,
    tables: SymbolTables,
}

impl View for Pass1 {
    type V = Pass1State;

    closed spec fn view(&self) -> Pass1State {
        Pass1State {
            address: self.address as nat,
            in_program: self.in_program,
            scope: self.scope@,
            entry_scope: crate::ast::opt_text_view(self.entry_scope),
            pool: texts_view(self.pool@),
            literal_counter: self.literal_counter as nat,
            tables: self.tables@,
        }
    }
}

impl Pass1 {
    /// No more synthetic labels were handed out than words were laid out.
    spec fn wf(&self) -> bool {
        self.literal_counter <= self.address
    }

    fn new() -> (st: Pass1)
        ensures
            st@ == pass1_initial(),
            st.wf(),
    {
        let st = Pass1 {
            address: 0,
            in_program: false,
            scope: String::new(),
            entry_scope: None,
            pool: Vec::new(),
            literal_counter: 0,
            tables: SymbolTables { symbols: StringHashMap::new(), literals: StringHashMap::new() },
        };
        st
    }

    fn start(&mut self, line: &Line) -> (r: Result<(), AsmError>)
        requires
            old(self).wf(),
        ensures
            match pass1_start(old(self)@, line@) {
                Ok(st) => r is Ok && final(self)@ == st && final(self).wf(),
                Err(e) => r == Err::<(), AsmError>(e),
            },
    {
        match &line.instruction {
            Some(Instruction::Start(entry)) => {
                if self.in_program {
                    return make_error(AsmErrorKind::NestedStart, line.line_number);
                }
                match &line.label {
                    None => {
                        return make_error(AsmErrorKind::StartWithoutLabel, line.line_number);
                    },
                    Some(label) => {
                        self.in_program = true;
                        self.scope = label.clone();
                        if entry.is_some() || self.entry_scope.is_none() {
                            self.entry_scope = Some(label.clone());
                        }
                    },
                }
                Ok(())
            },
            _ => Ok(()),
        }
    }

    fn label(&mut self, line: &Line)
        requires
            old(self).wf(),
        ensures
            final(self)@ == pass1_label(old(self)@, line@),
            final(self).wf(),
    {
        match &line.label {
            Some(label) => {
                let key = make_scoped_key(self.scope.as_str(), label.as_str());
                self.tables.symbols.insert(
                    key,
                    Symbol { address: self.address, line_number: line.line_number },
                );
            },
            None => {},
        }
    }

    fn advance(&mut self, words: Option<usize>, line_number: usize) -> (r: Result<(), AsmError>)
        requires
            old(self).wf(),
            words is Some ==> old(self).address + words->0 <= max_image_words(),
        ensures
            match words {
                Some(n) => r is Ok && final(self)@ == (Pass1State {
                    address: old(self)@.address + n as nat,
                    ..old(self)@
                }) && final(self).wf(),
                None => r == Err::<(), AsmError>(
                    asm_error(AsmErrorKind::ImageTooLarge, line_number),
                ),
            },
    {
        match words {
            Some(n) => {
                self.address = self.address + n as u16;
                Ok(())
            },
            None => make_error(AsmErrorKind::ImageTooLarge, line_number),
        }
    }

    fn end(&mut self, line_number: usize) -> (r: Result<(), AsmError>)
        requires
            old(self).wf(),
        ensures
            match pass1_end(old(self)@, line_number) {
                Ok(st) => r is Ok && final(self)@ == st && final(self).wf(),
                Err(e) => r == Err::<(), AsmError>(e),
            },
    {
        if !self.in_program {
            return make_error(AsmErrorKind::EndWithoutStart, line_number);
        }
        if self.pool.len() > 0xffff - self.address as usize {
            return make_error(AsmErrorKind::ImageTooLarge, line_number);
        }
        let ghost before = self@;
        let mut i: usize = 0;
        while i < self.pool.len()
            invariant
                i <= self.pool.len(),
                before.address + before.pool.len() <= 0xffff,
                before.literal_counter <= before.address,
                texts_view(self.pool@) == before.pool,
                self.scope@ == before.scope,
                self.in_program == before.in_program,
                crate::ast::opt_text_view(self.entry_scope) == before.entry_scope,
                self.address == before.address + i,
                self.literal_counter == before.literal_counter + i,
                flush_tables(
                    before.tables,
                    before.scope,
                    before.pool,
                    before.literal_counter,
                    before.address,
                    line_number,
                    0,
                ) == flush_tables(
                    self.tables@,
                    before.scope,
                    before.pool,
                    before.literal_counter,
                    before.address,
                    line_number,
                    i as int,
                ),
            decreases self.pool.len() - i,
        {
            let name = make_literal_label(self.literal_counter);
            let label = make_scoped_key(self.scope.as_str(), name.as_str());
            let key = make_scoped_key(self.scope.as_str(), self.pool[i].as_str());
            let ghost tables = self.tables@;
            self.tables.literals.insert(key, label.clone());
            self.tables.symbols.insert(label, Symbol { address: self.address, line_number });
            assert(self.tables@ =~= register_literal(
                tables,
                before.scope,
                before.pool[i as int],
                (before.literal_counter + i) as nat,
                (before.address + i) as nat,
                line_number,
            ));
            self.address = self.address + 1;
            self.literal_counter = self.literal_counter + 1;
            i += 1;
        }
        self.pool = Vec::new();
        self.in_program = false;
        self.scope = String::new();
        Ok(())
    }

    fn instruction(&mut self, line: &Line) -> (r: Result<(), AsmError>)
        requires
            old(self).wf(),
        ensures
            match pass1_instruction(old(self)@, line@) {
                Ok(st) => r is Ok && final(self)@ == st && final(self).wf(),
                Err(e) => r == Err::<(), AsmError>(e),
            },
    {
        match &line.instruction {
            None => Ok(()),
            Some(Instruction::Start(_)) => Ok(()),
            Some(Instruction::End) => self.end(line.line_number),
            Some(instr) => {
                match instr {
                    Instruction::Ds(n) => {
                        if *n < 0 {
                            return make_error(AsmErrorKind::NegativeDs, line.line_number);
                        }
                    },
                    _ => {
                        note_literal(&mut self.pool, instr);
                    },
                }
                let room: usize = 0xffff - self.address as usize;
                let words = size_within(instr, room);
                self.advance(words, line.line_number)
            },
        }
    }

    fn line(&mut self, line: &Line) -> (r: Result<(), AsmError>)
        requires
            old(self).wf(),
        ensures
            match pass1_line(old(self)@, line@) {
                Ok(st) => r is Ok && final(self)@ == st && final(self).wf(),
                Err(e) => r == Err::<(), AsmError>(e),
            },
    {
        match self.start(line) {
            Err(e) => {
                return Err(e);
            },
            Ok(_) => {},
        }
        self.label(line);
        self.instruction(line)
    }

    fn finish(self) -> (r: Result<Layout, AsmError>)
        requires
            self@.entry_scope is Some ==> self@.tables.symbols.contains_key(
                scoped_key(self@.entry_scope->0, self@.entry_scope->0),
            ),
            literals_bound(self@.tables),
        ensures
            match pass1_finish(self@) {
                Ok(layout) => r is Ok && r->Ok_0@ == layout,
                Err(e) => r == Err::<Layout, AsmError>(e),
            },
    {
        if self.in_program {
            return make_error(AsmErrorKind::MissingEnd, 0);
        }
        let entry: u16 = match &self.entry_scope {
            None => 0,
            Some(scope) => {
                let key = make_scoped_key(scope.as_str(), scope.as_str());
                self.tables.symbols.get(key.as_str()).unwrap().address
            },
        };
        Ok(Layout { tables: self.tables, entry, size: self.address })
    }
}

fn make_word(opcode: u16, r: u8, x: u8) -> (w: u16)
    requires
        opcode <= 0xff,
        r <= 15,
        x <= 15,
    ensures
        w == instruction_word(opcode, r, x),
{
    opcode * 256 + r as u16 * 16 + x as u16
}

fn index_of(x: &Option<Register>) -> (n: u8)
    ensures
        n == index_number(*x),
        n <= 7,
{
    match x {
        Some(r) => r.to_u8(),
        None => 0,
    }
}

fn push_io_macro(binary: &mut Vec<u16>, code: u16, buf: u16, len: u16)
    ensures
        final(binary)@ == old(binary)@ + io_macro_words(code, buf, len),
{
    binary.push(0x7001);
    binary.push(0);
    binary.push(0x7002);
    binary.push(0);
    binary.push(0x1210);
    binary.push(buf);
    binary.push(0x1220);
    binary.push(len);
    binary.push(0xf000);
    binary.push(code);
    binary.push(0x7120);
    binary.push(0x7110);
}

fn push_rpush(binary: &mut Vec<u16>)
    ensures
        final(binary)@ == old(binary)@ + rpush_words(),
{
    let mut reg: u16 = 1;
    while reg <= 7
        invariant
            1 <= reg <= 8,
            binary@ == old(binary)@ + rpush_words().subrange(0, 2 * (reg - 1)),
        decreases 8 - reg,
    {
        binary.push(0x7000 + reg);
        binary.push(0);
        reg += 1;
    }
}

fn push_rpop(binary: &mut Vec<u16>)
    ensures
        final(binary)@ == old(binary)@ + rpop_words(),
{
    let mut reg: u16 = 7;
    while reg >= 1
        invariant
            0 <= reg <= 7,
            binary@ == old(binary)@ + rpop_words().subrange(0, 7 - reg),
        decreases reg,
    {
        binary.push(0x7100 + reg * 16);
        reg -= 1;
    }
}

fn push_zeros(binary: &mut Vec<u16>, n: usize)
    ensures
        final(binary)@ == old(binary)@ + zero_words(n as nat),
{
    let mut i: usize = 0;
    while i < n
        invariant
            i <= n,
            binary@ == old(binary)@ + zero_words(i as nat),
        decreases n - i,
    {
        binary.push(0);
        i += 1;
    }
}

fn push_string(binary: &mut Vec<u16>, s: &str)
    ensures
        final(binary)@ == old(binary)@ + string_words(s@),
{
    let chars = chars_of(s);
    let mut i: usize = 0;
    while i < chars.len()
        invariant
            i <= chars.len(),
            chars@ == s@,
            binary@ == old(binary)@ + string_words(s@).subrange(0, i as int),
        decreases chars.len() - i,
    {
        binary.push(word_of_char(chars[i]));
        i += 1;
    }
}

/// The state of pass 2 between two lines.
struct Pass2 {
    binary: Vec<u16>,
    scope: String,
    pool: Vec<String>,
}

impl View for Pass2 {
    type V = Pass2State;

    closed spec fn view(&self) -> Pass2State {
        Pass2State { binary: self.binary@, scope: self.scope@, pool: texts_view(self.pool@) }
    }
}

impl Pass2 {
    fn new() -> (st: Pass2)
        ensures
            st@ == pass2_initial(),
    {
        let st = Pass2 { binary: Vec::new(), scope: String::new(), pool: Vec::new() };
        st
    }

    fn end(&mut self, line_number: usize) -> (r: Result<(), AsmError>)
        ensures
            match literal_words(old(self)@.pool, 0, old(self)@.binary) {
                Some(binary) => r is Ok && final(self)@ == (Pass2State {
                    binary,
                    scope: Seq::empty(),
                    pool: Seq::empty(),
                }),
                None => r == Err::<(), AsmError>(
                    asm_error(AsmErrorKind::MalformedLiteral, line_number),
                ),
            },
    {
        let ghost before = self@;
        let mut i: usize = 0;
        while i < self.pool.len()
            invariant
                i <= self.pool.len(),
                before == old(self)@,
                texts_view(self.pool@) == before.pool,
                literal_words(before.pool, 0, before.binary) == literal_words(
                    before.pool,
                    i as int,
                    self.binary@,
                ),
            decreases self.pool.len() - i,
        {
            match Assembler::parse_literal_value(self.pool[i].as_str(), line_number) {
                Ok(w) => {
                    self.binary.push(w);
                },
                Err(e) => {
                    return Err(e);
                },
            }
            i += 1;
        }
        self.pool = Vec::new();
        self.scope = String::new();
        Ok(())
    }

    fn line(&mut self, layout: &Layout, line: &Line) -> (r: Result<(), AsmError>)
        ensures
            match pass2_line(layout@.tables, old(self)@, line@) {
                Ok(st) => r is Ok && final(self)@ == st,
                Err(e) => r == Err::<(), AsmError>(e),
            },
    {
        match &line.instruction {
            None => Ok(()),
            Some(Instruction::Start(_)) => {
                match &line.label {
                    Some(label) => {
                        self.scope = label.clone();
                    },
                    None => {},
                }
                Ok(())
            },
            Some(Instruction::End) => self.end(line.line_number),
            Some(instr) => {
                note_literal(&mut self.pool, instr);
                Assembler::emit_instruction(
                    layout,
                    self.scope.as_str(),
                    instr,
                    line.line_number,
                    &mut self.binary,
                )
            },
        }
    }
}

/// A two-pass assembler for one program.
pub struct Assembler {
    program: Program,
}

impl View for Assembler {
    type V = Seq<crate::ast::LineView>;

    closed spec fn view(&self) -> Seq<crate::ast::LineView> {
        self.program@
    }
}

impl Assembler {
    /// An assembler for a program.
    pub fn new(program: Program) -> (assembler: Assembler)
        ensures
            assembler@ == program@,
    {
        Assembler { program }
    }

    /// Assembles the program: the words of the image, the entry address
    /// and the number of words.
    pub fn assemble(self) -> (r: Result<(Vec<u16>, u16, u16), AsmError>)
        ensures
            match spec_assemble(self@) {
                Ok(image) => r is Ok && r->Ok_0.0@ == image.binary && r->Ok_0.1 == image.entry
                    && r->Ok_0.2 == image.size && image.size == image.binary.len(),
                Err(e) => r == Err::<(Vec<u16>, u16, u16), AsmError>(e),
            },
    {
        let layout = match self.pass1() {
            Ok(layout) => layout,
            Err(e) => {
                return Err(e);
            },
        };
        let binary = match self.pass2(&layout) {
            Ok(binary) => binary,
            Err(e) => {
                return Err(e);
            },
        };
        proof {
            crate::layout_laws::lemma_image_size(self@);
        }
        Ok((binary, layout.entry, layout.size))
    }

    /// Pass 1: lays the program out and fills the tables.
    pub fn pass1(&self) -> (r: Result<Layout, AsmError>)
        ensures
            match spec_pass1(self@) {
                Ok(layout) => r is Ok && r->Ok_0@ == layout,
                Err(e) => r == Err::<Layout, AsmError>(e),
            },
    {
        let ghost lines = self@;
        let mut state = Pass1::new();
        let mut i: usize = 0;
        while i < self.program.lines.len()
            invariant
                i <= self.program.lines.len(),
                lines == lines_view(self.program.lines@),
                pass1_prefix(lines, i as int) == Ok::<Pass1State, AsmError>(state@),
                state.wf(),
            decreases self.program.lines.len() - i,
        {
            match state.line(&self.program.lines[i]) {
                Err(e) => {
                    proof {
                        lemma_pass1_error_sticks(lines, i + 1, lines.len() as int);
                    }
                    return Err(e);
                },
                Ok(_) => {},
            }
            i += 1;
        }
        proof {
            if state@.entry_scope is Some {
                crate::layout_laws::lemma_entry_bound(lines, lines.len() as int);
            }
            crate::layout_laws::lemma_literals_bound(lines, lines.len() as int);
        }
        state.finish()
    }

    /// Pass 2: writes the words of the program, with the tables of pass 1.
    pub fn pass2(&self, layout: &Layout) -> (r: Result<Vec<u16>, AsmError>)
        ensures
            match spec_pass2(layout@.tables, self@) {
                Ok(binary) => r is Ok && r->Ok_0@ == binary,
                Err(e) => r == Err::<Vec<u16>, AsmError>(e),
            },
    {
        let ghost lines = self@;
        let mut state = Pass2::new();
        let mut i: usize = 0;
        while i < self.program.lines.len()
            invariant
                i <= self.program.lines.len(),
                lines == lines_view(self.program.lines@),
                pass2_prefix(layout@.tables, lines, i as int) == Ok::<Pass2State, AsmError>(
                    state@,
                ),
            decreases self.program.lines.len() - i,
        {
            match state.line(layout, &self.program.lines[i]) {
                Err(e) => {
                    proof {
                        lemma_pass2_error_sticks(layout@.tables, lines, i + 1, lines.len() as int);
                    }
                    return Err(e);
                },
                Ok(_) => {},
            }
            i += 1;
        }
        Ok(state.binary)
    }

    /// The address of the label `label` of the scope `scope`.
    pub fn resolve_label(layout: &Layout, scope: &str, label: &str, line_number: usize) -> (r:
        Result<u16, AsmError>)
        ensures
            r == spec_resolve_label(layout@.tables, scope@, label@, line_number),
    {
        let key = make_scoped_key(scope, label);
        match layout.tables.symbols.get(key.as_str()) {
            Some(symbol) => Ok(symbol.address),
            None => make_error(AsmErrorKind::UndefinedLabel, line_number),
        }
    }

    /// The word that an address operand stands for in the scope `scope`.
    pub fn resolve_address(layout: &Layout, scope: &str, addr: &Address, line_number: usize) -> (r:
        Result<u16, AsmError>)
        ensures
            r == spec_resolve_address(layout@.tables, scope@, addr@, line_number),
    {
        match addr {
            Address::Number(n) => Ok(word_of_i32(*n)),
            Address::Immediate(w) => Ok(*w),
            Address::Label(label) => Self::resolve_label(
                layout,
                scope,
                label.as_str(),
                line_number,
            ),
            Address::Literal(lit) => {
                proof {
                    use_type_invariant(layout);
                }
                let key = make_scoped_key(scope, lit.as_str());
                match layout.tables.literals.get(key.as_str()) {
                    None => make_error(AsmErrorKind::LiteralNotRegistered, line_number),
                    Some(label) => {
                        Ok(layout.tables.symbols.get(label.as_str()).unwrap().address)
                    },
                }
            },
        }
    }

    /// Appends the words of one `DC` value.
    pub fn resolve_dc_value(
        layout: &Layout,
        scope: &str,
        value: &DcValue,
        line_number: usize,
        binary: &mut Vec<u16>,
    ) -> (r: Result<(), AsmError>)
        ensures
            match dc_value_words(layout@.tables, scope@, value@, line_number, old(binary)@) {
                Ok(words) => r is Ok && final(binary)@ == words,
                Err(e) => r == Err::<(), AsmError>(e) && final(binary)@ == old(binary)@,
            },
    {
        match value {
            DcValue::String(s) => {
                push_string(binary, s.as_str());
                Ok(())
            },
            DcValue::Number(n) => {
                binary.push(word_of_i32(*n));
                Ok(())
            },
            DcValue::Immediate(w) => {
                binary.push(*w);
                Ok(())
            },
            DcValue::Label(label) => {
                match Self::resolve_label(layout, scope, label.as_str(), line_number) {
                    Ok(a) => {
                        binary.push(a);
                        Ok(())
                    },
                    Err(e) => Err(e),
                }
            },
        }
    }

    /// The word that a literal's text stands for.
    pub fn parse_literal_value(lit: &str, line_number: usize) -> (r: Result<u16, AsmError>)
        ensures
            r == match spec_parse_literal(lit@) {
                Some(w) => Ok::<u16, AsmError>(w),
                None => Err::<u16, AsmError>(
                    asm_error(AsmErrorKind::MalformedLiteral, line_number),
                ),
            },
    {
        let chars = chars_of(lit);
        let n: usize = chars.len();
        let parsed: Option<u16> = if n > 0 && chars[0] == '\'' && chars[n - 1] == '\'' {
            if n == 3 {
                Some(word_of_char(chars[1]))
            } else {
                None
            }
        } else if n > 0 && chars[0] == '#' {
            parse_hex_u16(&chars, 1, n)
        } else {
            assert(chars@.subrange(0, n as int) == lit@);
            match parse_i32(&chars, 0, n) {
                Some(v) => Some(word_of_i32(v)),
                None => None,
            }
        };
        match parsed {
            Some(w) => Ok(w),
            None => make_error(AsmErrorKind::MalformedLiteral, line_number),
        }
    }

    /// The opcode of an instruction without operands.
    pub fn opcode_no_operand(op: &NoOperandInst) -> (code: u16)
        ensures
            code == spec_opcode_no_operand(*op),
            code <= 0xff,
    {
        match op {
            NoOperandInst::Nop => 0x00,
            NoOperandInst::Ret => 0x81,
        }
    }

    /// The opcode of an instruction with one register.
    pub fn opcode_one_reg(op: &OneRegInst) -> (code: u16)
        ensures
            code == spec_opcode_one_reg(*op),
            code <= 0xff,
    {
        match op {
            OneRegInst::Pop => 0x71,
        }
    }

    /// The opcode of an address instruction.
    pub fn opcode_addr(op: &AddrInst) -> (code: u16)
        ensures
            code == spec_opcode_addr(*op),
            code <= 0xff,
    {
        match op {
            AddrInst::Jmi => 0x61,
            AddrInst::Jnz => 0x62,
            AddrInst::Jze => 0x63,
            AddrInst::Jump => 0x64,
            AddrInst::Jpl => 0x65,
            AddrInst::Jov => 0x66,
            AddrInst::Push => 0x70,
            AddrInst::Call => 0x80,
            AddrInst::Svc => 0xf0,
        }
    }

    /// The opcode of a register-address instruction.
    pub fn opcode_reg_addr(op: &RegAddrInst) -> (code: u16)
        ensures
            code == spec_opcode_reg_addr(*op),
            code <= 0xff,
    {
        match op {
            RegAddrInst::Ld => 0x10,
            RegAddrInst::St => 0x11,
            RegAddrInst::Lad => 0x12,
            RegAddrInst::Adda => 0x20,
            RegAddrInst::Suba => 0x21,
            RegAddrInst::Addl => 0x22,
            RegAddrInst::Subl => 0x23,
            RegAddrInst::Mula => 0x28,
            RegAddrInst::Diva => 0x29,
            RegAddrInst::Mull => 0x2a,
            RegAddrInst::Divl => 0x2b,
            RegAddrInst::And => 0x30,
            RegAddrInst::Or => 0x31,
            RegAddrInst::Xor => 0x32,
            RegAddrInst::Cpa => 0x40,
            RegAddrInst::Cpl => 0x41,
            RegAddrInst::Sla => 0x50,
            RegAddrInst::Sra => 0x51,
            RegAddrInst::Sll => 0x52,
            RegAddrInst::Srl => 0x53,
        }
    }

    /// The opcode of a register-register instruction.
    pub fn opcode_two_reg(op: &TwoRegInst) -> (code: u16)
        ensures
            code == spec_opcode_two_reg(*op),
            code <= 0xff,
    {
        match op {
            TwoRegInst::Ld => 0x14,
            TwoRegInst::Adda => 0x24,
            TwoRegInst::Suba => 0x25,
            TwoRegInst::Addl => 0x26,
            TwoRegInst::Subl => 0x27,
            TwoRegInst::Mula => 0x2c,
            TwoRegInst::Diva => 0x2d,
            TwoRegInst::Mull => 0x2e,
            TwoRegInst::Divl => 0x2f,
            TwoRegInst::And => 0x34,
            TwoRegInst::Or => 0x35,
            TwoRegInst::Xor => 0x36,
            TwoRegInst::Cpa => 0x44,
            TwoRegInst::Cpl => 0x45,
        }
    }

    /// Appends the words of the values of a `DC`; where a value has an
    /// error, nothing is appended.
    fn emit_dc(
        layout: &Layout,
        scope: &str,
        values: &Vec<DcValue>,
        line_number: usize,
        binary: &mut Vec<u16>,
    ) -> (r: Result<(), AsmError>)
        ensures
            match dc_words(
                layout@.tables,
                scope@,
                dc_values_view(values@),
                line_number,
                0,
                old(binary)@,
            ) {
                Ok(words) => r is Ok && final(binary)@ == words,
                Err(e) => r == Err::<(), AsmError>(e) && final(binary)@ == old(binary)@,
            },
    {
        let ghost all = dc_values_view(values@);
        let start: usize = binary.len();
        let mut i: usize = 0;
        while i < values.len()
            invariant
                i <= values.len(),
                all == dc_values_view(values@),
                start == old(binary)@.len(),
                old(binary)@.is_prefix_of(binary@),
                dc_words(layout@.tables, scope@, all, line_number, 0, old(binary)@) == dc_words(
                    layout@.tables,
                    scope@,
                    all,
                    line_number,
                    i as int,
                    binary@,
                ),
            decreases values.len() - i,
        {
            match Self::resolve_dc_value(layout, scope, &values[i], line_number, binary) {
                Ok(_) => {},
                Err(e) => {
                    binary.truncate(start);
                    return Err(e);
                },
            }
            i += 1;
        }
        Ok(())
    }

    /// Appends the words of an instruction written in the scope `scope`;
    /// where the instruction has an error, nothing is appended.
    pub fn emit_instruction(
        layout: &Layout,
        scope: &str,
        instr: &Instruction,
        line_number: usize,
        binary: &mut Vec<u16>,
    ) -> (r: Result<(), AsmError>)
        ensures
            match emit(layout@.tables, scope@, instr@, line_number, old(binary)@) {
                Ok(words) => r is Ok && final(binary)@ == words,
                Err(e) => r == Err::<(), AsmError>(e) && final(binary)@ == old(binary)@,
            },
    {
        match instr {
            Instruction::NoOperand(op) => {
                binary.push(make_word(Self::opcode_no_operand(op), 0, 0));
                Ok(())
            },
            Instruction::OneReg(op, r) => {
                binary.push(make_word(Self::opcode_one_reg(op), r.to_u8(), 0));
                Ok(())
            },
            Instruction::TwoReg(op, r1, r2) => {
                binary.push(make_word(Self::opcode_two_reg(op), r1.to_u8(), r2.to_u8()));
                Ok(())
            },
            Instruction::Addr(op, addr, x) => {
                match Self::resolve_address(layout, scope, addr, line_number) {
                    Ok(a) => {
                        binary.push(make_word(Self::opcode_addr(op), 0, index_of(x)));
                        binary.push(a);
                        Ok(())
                    },
                    Err(e) => Err(e),
                }
            },
            Instruction::RegAddr(op, r, addr, x) => {
                match Self::resolve_address(layout, scope, addr, line_number) {
                    Ok(a) => {
                        binary.push(make_word(Self::opcode_reg_addr(op), r.to_u8(), index_of(x)));
                        binary.push(a);
                        Ok(())
                    },
                    Err(e) => Err(e),
                }
            },
            Instruction::Start(_) => Ok(()),
            Instruction::End => Ok(()),
            Instruction::Ds(n) => {
                let count: usize = if *n > 0 {
                    *n as usize
                } else {
                    0
                };
                push_zeros(binary, count);
                Ok(())
            },
            Instruction::Dc(values) => Self::emit_dc(layout, scope, values, line_number, binary),
            Instruction::In(buf, len) => {
                match Self::resolve_label(layout, scope, buf.as_str(), line_number) {
                    Err(e) => Err(e),
                    Ok(b) => match Self::resolve_label(layout, scope, len.as_str(), line_number) {
                        Err(e) => Err(e),
                        Ok(l) => {
                            push_io_macro(binary, 0xfff0, b, l);
                            Ok(())
                        },
                    },
                }
            },
            Instruction::Out(buf, len) => {
                match Self::resolve_label(layout, scope, buf.as_str(), line_number) {
                    Err(e) => Err(e),
                    Ok(b) => match Self::resolve_label(layout, scope, len.as_str(), line_number) {
                        Err(e) => Err(e),
                        Ok(l) => {
                            push_io_macro(binary, 0xfff2, b, l);
                            Ok(())
                        },
                    },
                }
            },
            Instruction::Rpush => {
                push_rpush(binary);
                Ok(())
            },
            Instruction::Rpop => {
                push_rpop(binary);
                Ok(())
            },
        }
    }
}

/// Once pass 2 has failed on a prefix of the lines, it has failed with the
/// same error on every longer prefix.
pub proof fn lemma_pass2_error_sticks(
    tables: Tables,
    lines: Seq<crate::ast::LineView>,
    n: int,
    m: int,
)
    requires
        0 <= n <= m,
        pass2_prefix(tables, lines, n) is Err,
    ensures
        pass2_prefix(tables, lines, m) == pass2_prefix(tables, lines, n),
    decreases m - n,
{
    if n < m {
        lemma_pass2_error_sticks(tables, lines, n, m - 1);
    }
}

/// Once pass 1 has failed on a prefix of the lines, it has failed with the
/// same error on every longer prefix.
pub proof fn lemma_pass1_error_sticks(lines: Seq<crate::ast::LineView>, n: int, m: int)
    requires
        0 <= n <= m,
        pass1_prefix(lines, n) is Err,
    ensures
        pass1_prefix(lines, m) == pass1_prefix(lines, n),
    decreases m - n,
{
    if n < m {
        lemma_pass1_error_sticks(lines, n, m - 1);
    }
}

} // verus!
