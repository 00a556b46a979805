//! A CASL II assembler and a COMET II virtual machine.
//!
//! Source text is turned into tokens by [`lexer`], into a program tree by
//! [`parser`], into an image of 16-bit words by [`assembler`], and the image
//! is executed by [`emulator`]; [`toolchain`] goes the whole way.
//!
//! Every stage has a mathematical model, over sequences of characters,
//! tokens and words: [`lexing`], [`parsing`], [`layout`] and [`machine`].
//! Each executable function is proved to compute exactly what the model
//! says, and [`layout_laws`] and [`machine_laws`] prove what holds of the
//! models themselves.

pub mod text;
pub mod ast;
pub mod lexing;
pub mod lexer;
pub mod parsing;
pub mod parser;
pub mod layout;
pub mod layout_laws;
pub mod assembler;
pub mod machine;
pub mod machine_laws;
pub mod alu;
pub mod emulator;
pub mod toolchain;
