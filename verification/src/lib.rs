//! Deterministic synthesis of multi-line diagnostic templates for error
//! type declarations: a parser for the `desc` / `fmt` annotation argument
//! grammar, a three-level (root / case / field) formatting-mode resolver,
//! and a line-oriented template renderer.

pub mod args;
pub mod engine;
pub mod digits;
pub mod fmt;
pub mod output;
pub mod tokens;
