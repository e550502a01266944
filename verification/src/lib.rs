//! Cortex: a small dynamically typed scripting language.
//!
//! Source text is split into tokens ([`lexer`]), the tokens are parsed into a
//! syntax tree ([`parser`], after the [`grammar`]), and the tree is run by an
//! interpreter that works in steps ([`interpreter`], after the [`machine`]).
//!
//! The library computes on integers, booleans and text only. Numbers of the
//! language are floating point numbers; the library carries them as bit
//! patterns ([`value`]) and asks its host to do the arithmetic and the
//! printing ([`protocol`]). A host calls [`interpreter::Interpreter::step`]
//! until the program is finished, and answers what each step asks for.
//!
//! What holds of every program is collected in [`laws`].

pub mod ast;
pub mod debugger;
pub mod error;
pub mod format;
pub mod grammar;
pub mod interpreter;
pub mod laws;
pub mod lexer;
pub mod machine;
pub mod parser;
pub mod project;
pub mod protocol;
pub mod security;
pub mod text;
pub mod token;
pub mod value;
pub mod visitor;
