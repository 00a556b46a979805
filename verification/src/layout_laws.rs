//! Laws of the assembler's model: both passes agree on every size and
//! address, a pool never holds a literal twice, and what pass 2 has written
//! stays where it is.

use vstd::prelude::*;
use crate::ast::{AddressView, DcValueView, InstructionView, LineView};
use crate::layout::{
    dc_size, dc_value_size, dc_value_words, dc_words, emit, flush_tables, instruction_size,
    literal_words, literals_bound, pass1_label, pass1_prefix, pass1_start, pass2_line, pass2_prefix,
    pool_insert, register_literal, scoped_key, spec_assemble, spec_parse_literal, spec_pass1,
    spec_pass2, AsmError, Pass2State, Tables,
};
use crate::text::{
    char_word, hex4_text, int_text, int_word, lemma_decimal_text_value, lemma_hex4_text_parses,
    lemma_int_text_parses,
};

verus! {

/// The size of a list of `DC` values with one more value at its end.
pub proof fn lemma_dc_size_step(values: Seq<DcValueView>, i: int)
    requires
        0 <= i < values.len(),
    ensures
        dc_size(values.subrange(0, i + 1)) == dc_size(values.subrange(0, i)) + dc_value_size(
            values[i],
        ),
{
    assert(values.subrange(0, i + 1).drop_last() == values.subrange(0, i));
}

/// The values of a `DC` from index `i` on add as many words as pass 1
/// counts for them, behind what was written before.
pub proof fn lemma_dc_words_size(
    tables: Tables,
    scope: Seq<char>,
    values: Seq<DcValueView>,
    line_number: usize,
    i: int,
    acc: Seq<u16>,
)
    requires
        0 <= i <= values.len(),
        dc_words(tables, scope, values, line_number, i, acc) is Ok,
    ensures
        dc_words(tables, scope, values, line_number, i, acc)->Ok_0.len() == acc.len() + dc_size(
            values,
        ) - dc_size(values.subrange(0, i)),
        acc.is_prefix_of(dc_words(tables, scope, values, line_number, i, acc)->Ok_0),
    decreases values.len() - i,
{
    if i == values.len() {
        assert(values.subrange(0, i) == values);
    } else {
        let next = dc_value_words(tables, scope, values[i], line_number, acc)->Ok_0;
        lemma_dc_words_size(tables, scope, values, line_number, i + 1, next);
        lemma_dc_size_step(values, i);
    }
}

/// The literals of a pool from index `i` on add one word each, behind what
/// was written before.
pub proof fn lemma_literal_words_size(pool: Seq<Seq<char>>, i: int, acc: Seq<u16>)
    requires
        0 <= i <= pool.len(),
        literal_words(pool, i, acc) is Some,
    ensures
        literal_words(pool, i, acc)->0.len() == acc.len() + pool.len() - i,
        acc.is_prefix_of(literal_words(pool, i, acc)->0),
    decreases pool.len() - i,
{
    if i < pool.len() {
        let w = crate::layout::spec_parse_literal(pool[i])->0;
        lemma_literal_words_size(pool, i + 1, acc.push(w));
    }
}

/// Pass 2 writes for every instruction exactly as many words as pass 1
/// reserves for it, and leaves the words before them as they are.
pub proof fn lemma_emit_size(
    tables: Tables,
    scope: Seq<char>,
    instr: InstructionView,
    line_number: usize,
    acc: Seq<u16>,
)
    requires
        emit(tables, scope, instr, line_number, acc) is Ok,
    ensures
        emit(tables, scope, instr, line_number, acc)->Ok_0.len() == acc.len() + instruction_size(
            instr,
        ),
        acc.is_prefix_of(emit(tables, scope, instr, line_number, acc)->Ok_0),
{
    match instr {
        InstructionView::Dc(values) => {
            lemma_dc_words_size(tables, scope, values, line_number, 0, acc);
        },
        _ => {},
    }
}

/// Pass 2 on one line leaves the words written before it as they are.
pub proof fn lemma_pass2_line_extends(tables: Tables, st: Pass2State, line: LineView)
    requires
        pass2_line(tables, st, line) is Ok,
    ensures
        st.binary.is_prefix_of(pass2_line(tables, st, line)->Ok_0.binary),
{
    match line.instruction {
        None => {},
        Some(InstructionView::Start(_)) => {},
        Some(InstructionView::End) => {
            lemma_literal_words_size(st.pool, 0, st.binary);
        },
        Some(instr) => {
            lemma_emit_size(tables, st.scope, instr, line.line_number, st.binary);
        },
    }
}

/// Where pass 2 gets through the first `m` lines it gets through the first
/// `n` of them, and what it wrote for those stays at the front of the
/// image.
pub proof fn lemma_pass2_prefix_extends(tables: Tables, lines: Seq<LineView>, n: int, m: int)
    requires
        0 <= n <= m,
        pass2_prefix(tables, lines, m) is Ok,
    ensures
        pass2_prefix(tables, lines, n) is Ok,
        pass2_prefix(tables, lines, n)->Ok_0.binary.is_prefix_of(
            pass2_prefix(tables, lines, m)->Ok_0.binary,
        ),
    decreases m - n,
{
    if n < m {
        let before = pass2_prefix(tables, lines, m - 1);
        lemma_pass2_prefix_extends(tables, lines, n, m - 1);
        lemma_pass2_line_extends(tables, before->Ok_0, lines[m - 1]);
    }
}

/// Both passes agree after every line: the address that pass 1 has reached
/// is the number of words that pass 2 has written, and they are in the same
/// scope with the same pool. This holds whatever tables pass 2 is given.
pub proof fn lemma_passes_agree(lines: Seq<LineView>, tables: Tables, n: int)
    requires
        0 <= n <= lines.len(),
        pass1_prefix(lines, n) is Ok,
        pass2_prefix(tables, lines, n) is Ok,
    ensures
        pass1_prefix(lines, n)->Ok_0.address == pass2_prefix(tables, lines, n)->Ok_0.binary.len(),
        pass1_prefix(lines, n)->Ok_0.scope == pass2_prefix(tables, lines, n)->Ok_0.scope,
        pass1_prefix(lines, n)->Ok_0.pool == pass2_prefix(tables, lines, n)->Ok_0.pool,
    decreases n,
{
    if n > 0 {
        lemma_passes_agree(lines, tables, n - 1);
        let s2 = pass2_prefix(tables, lines, n - 1)->Ok_0;
        let line = lines[n - 1];
        match line.instruction {
            None => {},
            Some(InstructionView::Start(_)) => {},
            Some(InstructionView::End) => {
                lemma_literal_words_size(s2.pool, 0, s2.binary);
            },
            Some(instr) => {
                lemma_emit_size(tables, s2.scope, instr, line.line_number, s2.binary);
            },
        }
    }
}

/// The image of an assembled program has as many words as pass 1 laid out:
/// the size that comes with the image is its length.
pub proof fn lemma_image_size(lines: Seq<LineView>)
    requires
        spec_assemble(lines) is Ok,
    ensures
        spec_assemble(lines)->Ok_0.size == spec_assemble(lines)->Ok_0.binary.len(),
        spec_assemble(lines)->Ok_0.binary.len() <= 0xffff,
{
    let tables = spec_pass1(lines)->Ok_0.tables;
    lemma_passes_agree(lines, tables, lines.len() as int);
    lemma_pass1_address_bound(lines, lines.len() as int);
}

/// Pass 1 never lays out more than 65535 words.
pub proof fn lemma_pass1_address_bound(lines: Seq<LineView>, n: int)
    requires
        0 <= n <= lines.len(),
        pass1_prefix(lines, n) is Ok,
    ensures
        pass1_prefix(lines, n)->Ok_0.address <= 0xffff,
    decreases n,
{
    if n > 0 {
        lemma_pass1_address_bound(lines, n - 1);
    }
}

/// Flushing a pool takes no symbol out of the symbol table.
pub proof fn lemma_flush_keeps_symbols(
    tables: Tables,
    scope: Seq<char>,
    pool: Seq<Seq<char>>,
    counter: nat,
    address: nat,
    line_number: usize,
    i: int,
    key: Seq<char>,
)
    requires
        0 <= i,
        tables.symbols.contains_key(key),
    ensures
        flush_tables(tables, scope, pool, counter, address, line_number, i).symbols.contains_key(
            key,
        ),
    decreases pool.len() - i,
{
    if i < pool.len() {
        lemma_flush_keeps_symbols(
            register_literal(
                tables,
                scope,
                pool[i],
                (counter + i) as nat,
                (address + i) as nat,
                line_number,
            ),
            scope,
            pool,
            counter,
            address,
            line_number,
            i + 1,
            key,
        );
    }
}

/// Flushing a pool leaves the synthetic label of every literal in the
/// symbol table.
pub proof fn lemma_flush_keeps_literals_bound(
    tables: Tables,
    scope: Seq<char>,
    pool: Seq<Seq<char>>,
    counter: nat,
    address: nat,
    line_number: usize,
    i: int,
)
    requires
        0 <= i,
        literals_bound(tables),
    ensures
        literals_bound(flush_tables(tables, scope, pool, counter, address, line_number, i)),
    decreases pool.len() - i,
{
    if i < pool.len() {
        let next = register_literal(
            tables,
            scope,
            pool[i],
            (counter + i) as nat,
            (address + i) as nat,
            line_number,
        );
        lemma_flush_keeps_literals_bound(next, scope, pool, counter, address, line_number, i + 1);
    }
}

/// After every line of pass 1 the synthetic label of every literal of the
/// literal table is in the symbol table.
pub proof fn lemma_literals_bound(lines: Seq<LineView>, n: int)
    requires
        0 <= n <= lines.len(),
        pass1_prefix(lines, n) is Ok,
    ensures
        literals_bound(pass1_prefix(lines, n)->Ok_0.tables),
    decreases n,
{
    if n > 0 {
        lemma_literals_bound(lines, n - 1);
        let before = pass1_prefix(lines, n - 1)->Ok_0;
        let line = lines[n - 1];
        let started = pass1_start(before, line)->Ok_0;
        let labelled = pass1_label(started, line);
        match line.instruction {
            Some(InstructionView::End) => {
                lemma_flush_keeps_literals_bound(
                    labelled.tables,
                    labelled.scope,
                    labelled.pool,
                    labelled.literal_counter,
                    labelled.address,
                    line.line_number,
                    0,
                );
            },
            _ => {},
        }
    }
}

/// After every line of pass 1 the scope label of the entry block is bound
/// in the symbol table: the line of a `START` binds it, and no later line
/// takes it out.
pub proof fn lemma_entry_bound(lines: Seq<LineView>, n: int)
    requires
        0 <= n <= lines.len(),
        pass1_prefix(lines, n) is Ok,
        pass1_prefix(lines, n)->Ok_0.entry_scope is Some,
    ensures
        pass1_prefix(lines, n)->Ok_0.tables.symbols.contains_key(
            scoped_key(
                pass1_prefix(lines, n)->Ok_0.entry_scope->0,
                pass1_prefix(lines, n)->Ok_0.entry_scope->0,
            ),
        ),
    decreases n,
{
    if n > 0 {
        let before = pass1_prefix(lines, n - 1)->Ok_0;
        let line = lines[n - 1];
        let started = pass1_start(before, line)->Ok_0;
        let labelled = pass1_label(started, line);
        let entry = labelled.entry_scope->0;
        let key = scoped_key(entry, entry);
        if before.entry_scope is Some && before.entry_scope == started.entry_scope {
            lemma_entry_bound(lines, n - 1);
        }
        match line.instruction {
            Some(InstructionView::End) => {
                lemma_flush_keeps_symbols(
                    labelled.tables,
                    labelled.scope,
                    labelled.pool,
                    labelled.literal_counter,
                    labelled.address,
                    line.line_number,
                    0,
                    key,
                );
            },
            _ => {},
        }
    }
}

/// A pool that holds no literal twice still holds none twice after a
/// literal was put in, and it holds that literal.
pub proof fn lemma_pool_insert_unique(pool: Seq<Seq<char>>, lit: Seq<char>)
    requires
        pool.no_duplicates(),
    ensures
        pool_insert(pool, lit).no_duplicates(),
        pool_insert(pool, lit).contains(lit),
        pool.is_prefix_of(pool_insert(pool, lit)),
{
    let after = pool_insert(pool, lit);
    if !pool.contains(lit) {
        assert(after[pool.len() as int] == lit);
    }
}

/// After every line of pass 1 the pool of the open scope holds no literal
/// twice.
pub proof fn lemma_pool_unique(lines: Seq<LineView>, n: int)
    requires
        0 <= n <= lines.len(),
        pass1_prefix(lines, n) is Ok,
    ensures
        pass1_prefix(lines, n)->Ok_0.pool.no_duplicates(),
    decreases n,
{
    if n > 0 {
        lemma_pool_unique(lines, n - 1);
        let st = pass1_prefix(lines, n - 1)->Ok_0;
        match lines[n - 1].instruction {
            Some(InstructionView::Addr(_, AddressView::Literal(lit), _)) => {
                lemma_pool_insert_unique(st.pool, lit);
            },
            Some(InstructionView::RegAddr(_, _, AddressView::Literal(lit), _)) => {
                lemma_pool_insert_unique(st.pool, lit);
            },
            _ => {},
        }
    }
}

/// Whether an instruction refers to the label `name`: as its address
/// operand, as a value of a `DC`, or as a label of `IN` or `OUT`.
pub open spec fn refers_to_label(instr: InstructionView, name: Seq<char>) -> bool {
    match instr {
        InstructionView::Addr(_, AddressView::Label(l), _) => l == name,
        InstructionView::RegAddr(_, _, AddressView::Label(l), _) => l == name,
        InstructionView::Dc(values) => exists|i: int|
            0 <= i < values.len() && #[trigger] values[i] == DcValueView::Label(name),
        InstructionView::In(buf, len) => buf == name || len == name,
        InstructionView::Out(buf, len) => buf == name || len == name,
        _ => false,
    }
}

proof fn lemma_dc_labels_bound(
    tables: Tables,
    scope: Seq<char>,
    values: Seq<DcValueView>,
    line_number: usize,
    i: int,
    acc: Seq<u16>,
    k: int,
)
    requires
        0 <= i <= k < values.len(),
        values[k] is Label,
        dc_words(tables, scope, values, line_number, i, acc) is Ok,
    ensures
        tables.symbols.contains_key(scoped_key(scope, values[k]->Label_0)),
    decreases values.len() - i,
{
    if i < k {
        let next = dc_value_words(tables, scope, values[i], line_number, acc)->Ok_0;
        lemma_dc_labels_bound(tables, scope, values, line_number, i + 1, next, k);
    }
}

/// Where pass 2 writes an instruction, every label that the instruction
/// refers to is bound in the symbol table, under the scope it is written
/// in.
pub proof fn lemma_referenced_label_is_bound(
    tables: Tables,
    scope: Seq<char>,
    instr: InstructionView,
    line_number: usize,
    acc: Seq<u16>,
    name: Seq<char>,
)
    requires
        emit(tables, scope, instr, line_number, acc) is Ok,
        refers_to_label(instr, name),
    ensures
        tables.symbols.contains_key(scoped_key(scope, name)),
{
    match instr {
        InstructionView::Dc(values) => {
            let k = choose|i: int|
                0 <= i < values.len() && #[trigger] values[i] == DcValueView::Label(name);
            lemma_dc_labels_bound(tables, scope, values, line_number, 0, acc, k);
        },
        _ => {},
    }
}

/// In a program that pass 2 gets through, every label that a line's
/// instruction refers to is bound in the symbol table under the scope of
/// that line.
pub proof fn lemma_labels_bound(tables: Tables, lines: Seq<LineView>, n: int, name: Seq<char>)
    requires
        0 <= n < lines.len(),
        spec_pass2(tables, lines) is Ok,
        lines[n].instruction is Some,
        refers_to_label(lines[n].instruction->0, name),
    ensures
        pass2_prefix(tables, lines, n) is Ok,
        tables.symbols.contains_key(
            scoped_key(pass2_prefix(tables, lines, n)->Ok_0.scope, name),
        ),
{
    lemma_pass2_prefix_extends(tables, lines, n, lines.len() as int);
    lemma_pass2_prefix_extends(tables, lines, n + 1, lines.len() as int);
    let before = pass2_prefix(tables, lines, n)->Ok_0;
    lemma_referenced_label_is_bound(
        tables,
        before.scope,
        lines[n].instruction->0,
        lines[n].line_number,
        before.binary,
        name,
    );
}

/// Where pass 1 gets through the first `m` lines it gets through the first
/// `n` of them.
pub proof fn lemma_pass1_prefix_ok(lines: Seq<LineView>, n: int, m: int)
    requires
        0 <= n <= m,
        pass1_prefix(lines, m) is Ok,
    ensures
        pass1_prefix(lines, n) is Ok,
    decreases m - n,
{
    if n < m {
        lemma_pass1_prefix_ok(lines, n, m - 1);
    }
}

/// In an assembled program, the word at the address of a `DC` with one
/// string of one character holds the low 16 bits of that character's code
/// point. The address of line `n` is the number of words written before
/// it.
pub proof fn lemma_dc_char_word(tables: Tables, lines: Seq<LineView>, n: int, c: char)
    requires
        0 <= n < lines.len(),
        lines[n].instruction == Some(InstructionView::Dc(seq![DcValueView::String(seq![c])])),
        spec_pass2(tables, lines) is Ok,
    ensures
        pass2_prefix(tables, lines, n) is Ok,
        pass2_prefix(tables, lines, n)->Ok_0.binary.len() < spec_pass2(tables, lines)->Ok_0.len(),
        spec_pass2(tables, lines)->Ok_0[pass2_prefix(tables, lines, n)->Ok_0.binary.len() as int]
            == char_word(c),
{
    lemma_pass2_prefix_extends(tables, lines, n, lines.len() as int);
    lemma_pass2_prefix_extends(tables, lines, n + 1, lines.len() as int);
    let before = pass2_prefix(tables, lines, n)->Ok_0;
    let values = seq![DcValueView::String(seq![c])];
    let line_number = lines[n].line_number;
    let first = dc_value_words(tables, before.scope, values[0], line_number, before.binary)->Ok_0;
    assert(dc_words(tables, before.scope, values, line_number, 1, first) == Ok::<
        Seq<u16>,
        AsmError,
    >(first));
    assert(first[before.binary.len() as int] == char_word(c));
}

/// The canonical texts of literals stand for what they were written for:
/// a number in decimal for the number narrowed to a word, `#` and four
/// hexadecimal digits for their word, and a character in quotes for the
/// low 16 bits of its code point.
pub proof fn lemma_canonical_literals(n: i32, w: u16, c: char)
    ensures
        spec_parse_literal(int_text(n as int)) == Some(int_word(n as int)),
        spec_parse_literal(seq!['#'] + hex4_text(w)) == Some(w),
        spec_parse_literal(seq!['\''] + seq![c] + seq!['\'']) == Some(char_word(c)),
{
    lemma_int_text_parses(n);
    lemma_decimal_text_value((if n < 0 {
        -n
    } else {
        n as int
    }) as nat);
    lemma_hex4_text_parses(w);
    let immediate = seq!['#'] + hex4_text(w);
    assert(immediate.skip(1) == hex4_text(w));
}

} // verus!
