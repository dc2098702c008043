//! The query language: tokens, lexer, parser, semantic analysis, SQL
//! generation and the compiler driving them.
pub mod token;
pub mod lexer;
pub mod words;
pub mod parser;
pub mod semantic;
pub mod params;
pub mod codegen;
pub mod compiler;
