//! The keyword front end of the query language: its own tokens, a lexer
//! whose tokens carry their text, a parser and a compiler that stops after
//! parsing.
pub mod token;
pub mod lexer;
pub mod parser;
pub mod compiler;
