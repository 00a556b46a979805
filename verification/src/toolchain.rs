//! The whole way from source text to an image, and from an image to its
//! output.

use vstd::prelude::*;
use vstd::string::*;
use crate::assembler::Assembler;
use crate::ast::{DcValueView, InstructionView, LineView};
use crate::emulator::Comet2;
use crate::layout::{
    asm_error_message, pass1_prefix, spec_assemble, spec_pass1, AsmError, ImageView,
};
use crate::layout_laws::{
    lemma_dc_char_word, lemma_image_size, lemma_pass1_prefix_ok, lemma_passes_agree,
};
use crate::lexer::Lexer;
use crate::lexing::{lex_all, lex_error_message, LexError};
use crate::machine::{initial_machine, spec_run, Halt, RunStatus, RuntimeError};
use crate::parser::Parser;
use crate::parsing::{parse_error_message, spec_parse, ParseError};
use crate::text::{char_word, texts_view};

verus! {

/// Why a source text gave no image: the error of the stage that failed.
#[derive(Debug, Clone, Copy, PartialEq, Eq, Structural)]
pub enum AssembleError {
    Lexer(LexError),
    Parser(ParseError),
    Assembler(AsmError),
}

/// The message of an error: the stage that failed, and the message of its
/// error.
pub open spec fn assemble_error_message(error: AssembleError) -> Seq<char> {
    match error {
        AssembleError::Lexer(e) => "Lexer error: "@ + lex_error_message(e),
        AssembleError::Parser(e) => "Parser error: "@ + parse_error_message(e),
        AssembleError::Assembler(e) => "Assembler error: "@ + asm_error_message(e),
    }
}

impl AssembleError {
    /// The message of the error.
    pub fn message(&self) -> (text: String)
        ensures
            text@ == assemble_error_message(*self),
    {
        let mut text = String::new();
        match self {
            AssembleError::Lexer(e) => {
                text.append("Lexer error: ");
                text.append(e.message().as_str());
            },
            AssembleError::Parser(e) => {
                text.append("Parser error: ");
                text.append(e.message().as_str());
            },
            AssembleError::Assembler(e) => {
                text.append("Assembler error: ");
                text.append(e.message().as_str());
            },
        }
        text
    }
}

/// The image of a source text: its tokens, the program tree of the tokens,
/// and the image of the tree; or the error of the first stage that fails.
pub open spec fn spec_assemble_source(source: Seq<char>) -> Result<ImageView, AssembleError> {
    match lex_all(source, 0, Seq::empty()) {
        Err(f) => Err(AssembleError::Lexer(f.error)),
        Ok(tokens) => match spec_parse(tokens, 0, Seq::empty()) {
            Err(f) => Err(AssembleError::Parser(f.error)),
            Ok((lines, _)) => match spec_assemble(lines) {
                Err(e) => Err(AssembleError::Assembler(e)),
                Ok(image) => Ok(image),
            },
        },
    }
}

/// Assembles a source text: the words of the image, the entry address and
/// the number of words.
pub fn assemble(source: &str) -> (r: Result<(Vec<u16>, u16, u16), AssembleError>)
    ensures
        match spec_assemble_source(source@) {
            Ok(image) => r is Ok && r->Ok_0.0@ == image.binary && r->Ok_0.1 == image.entry
                && r->Ok_0.2 == image.size && image.size == image.binary.len(),
            Err(e) => r == Err::<(Vec<u16>, u16, u16), AssembleError>(e),
        },
{
    let mut lexer = Lexer::new(source);
    let tokens = match lexer.tokenize() {
        Ok(tokens) => tokens,
        Err(e) => {
            return Err(AssembleError::Lexer(e));
        },
    };
    let mut parser = Parser::new(tokens);
    let program = match parser.parse() {
        Ok(program) => program,
        Err(e) => {
            return Err(AssembleError::Parser(e));
        },
    };
    match Assembler::new(program).assemble() {
        Ok(image) => Ok(image),
        Err(e) => Err(AssembleError::Assembler(e)),
    }
}

/// How a machine with the given image and input ends, when it is run from
/// the entry address: why it stopped or faulted, and its output.
pub open spec fn spec_execute(
    memory: Seq<u16>,
    start_address: u16,
    inputs: Seq<Seq<char>>,
    quiet: bool,
) -> (Result<Halt, RuntimeError>, Seq<char>) {
    let ran = spec_run(initial_machine(memory, start_address, inputs, quiet), u64::MAX as nat);
    (
        match ran.result {
            Ok(RunStatus::Halted(halt)) => Ok(halt),
            Ok(RunStatus::OutOfSteps) => Err(RuntimeError::StepLimit),
            Err(e) => Err(e),
        },
        ran.machine.output,
    )
}

/// Runs an image from its entry address with the given input lines: why
/// the machine stopped or faulted, and the captured output.
pub fn execute(memory: &[u16], start_address: u16, inputs: &[String], quiet: bool) -> (r: (
    Result<Halt, RuntimeError>,
    String,
))
    requires
        memory@.len() <= 0x10000,
    ensures
        r.0 == spec_execute(memory@, start_address, texts_view(inputs@), quiet).0,
        r.1@ == spec_execute(memory@, start_address, texts_view(inputs@), quiet).1,
{
    let mut machine = Comet2::new(memory, start_address, inputs, quiet);
    let result = machine.run();
    (result, machine.get_output())
}

/// In the memory of a machine that is loaded with an assembled program, the
/// word at the address of a `DC` with one string of one character holds
/// the low 16 bits of that character's code point. The address of a line
/// is the one that pass 1 has reached before it.
pub proof fn lemma_dc_char_in_memory(
    lines: Seq<LineView>,
    n: int,
    c: char,
    inputs: Seq<Seq<char>>,
    quiet: bool,
)
    requires
        0 <= n < lines.len(),
        lines[n].instruction == Some(InstructionView::Dc(seq![DcValueView::String(seq![c])])),
        spec_assemble(lines) is Ok,
    ensures
        pass1_prefix(lines, n) is Ok,
        pass1_prefix(lines, n)->Ok_0.address < 0xffff,
        initial_machine(
            spec_assemble(lines)->Ok_0.binary,
            spec_assemble(lines)->Ok_0.entry,
            inputs,
            quiet,
        ).memory[pass1_prefix(lines, n)->Ok_0.address as int] == char_word(c),
{
    let tables = spec_pass1(lines)->Ok_0.tables;
    lemma_pass1_prefix_ok(lines, n, lines.len() as int);
    lemma_dc_char_word(tables, lines, n, c);
    lemma_passes_agree(lines, tables, n);
    lemma_image_size(lines);
}

/// Assembling a source text and running its image with no input ends the
/// same way with the same output, whenever it is done: the outcome is a
/// function of the text and the mode alone.
pub proof fn lemma_same_source_same_output(first: Seq<char>, second: Seq<char>, quiet: bool)
    requires
        first == second,
        spec_assemble_source(first) is Ok,
    ensures
        spec_assemble_source(first) == spec_assemble_source(second),
        spec_execute(
            spec_assemble_source(first)->Ok_0.binary,
            spec_assemble_source(first)->Ok_0.entry,
            Seq::empty(),
            quiet,
        ) == spec_execute(
            spec_assemble_source(second)->Ok_0.binary,
            spec_assemble_source(second)->Ok_0.entry,
            Seq::empty(),
            quiet,
        ),
{
}

} // verus!
