//! Wazi: a small language that compiles to WebAssembly.
//!
//! The pipeline is `lexer::lex` -> `parser::parse` -> `sema::check` ->
//! `lower::lower` -> `codegen::emit`, chained by `compile::compile_source`. Every stage is a total function from
//! plain values to plain values whose result is pinned down by a contract.
pub mod common;
pub mod lexer;
pub mod parser;
pub mod sema;
pub mod lower;
pub mod codegen;
pub mod compile;
