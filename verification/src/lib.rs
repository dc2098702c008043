//! A natural-language query language for course schedules: lexer, parser,
//! semantic analysis and SQL generation.
pub mod text;
pub mod tui;
pub mod dsl;
pub mod data;
pub mod compiler;
