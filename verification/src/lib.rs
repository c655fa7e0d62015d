//! A verified interpreter pipeline for a small imperative scripting
//! language: lexer, recursive-descent parser, binder (scope and type
//! resolution) and tree-walking evaluator, with a shared diagnostics log
//! and an explicit variable store.

pub mod binder;
pub mod bound_tree;
pub mod compile;
pub mod evaluator;
pub mod laws;
pub mod lexer;
pub mod literals;
pub mod parser;
pub mod reports;
pub mod symbol_table;
pub mod syntax_kind;
pub mod syntax_token;
pub mod syntax_tree;
pub mod text;
pub mod variable_symbol;
