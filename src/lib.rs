//! Lua parsing with structured, span-accurate diagnostics.
//!
//! Lexing and parsing are done by `full_moon`; this crate classifies what it
//! reports into a closed diagnostic taxonomy, collects diagnostics without
//! exact repeats, and decides the outcome of a parse.
use vstd::prelude::*;
use full_moon::ast::Ast;
use crate::moon::{error_count_of, error_display, parse_source};

pub mod span;
pub mod moon;
pub mod diagnostic;
pub mod collector;
pub mod outcome;

verus! {

/// The answer handed across the host boundary: the tree, or the first error
/// together with its human-readable report.
pub enum ResultOutput {
    Parsed { ast: Ast },
    Failed { error: full_moon::Error, display: String },
}

/// Builds the answer from the parser's tree and errors: the tree when there is
/// no error, else the first error.
pub fn result_output(ast: Ast, errors: Vec<full_moon::Error>) -> (r: ResultOutput)
    ensures
        errors@.len() == 0 ==> r == (ResultOutput::Parsed { ast }),
        errors@.len() > 0 ==> (r matches ResultOutput::Failed { error, .. } && error == errors@[0]),
{
    if errors.len() == 0 {
        ResultOutput::Parsed { ast }
    } else {
        let mut errors = errors;
        let error = errors.swap_remove(0);
        let display = error_display(&error);
        ResultOutput::Failed { error, display }
    }
}

/// Parses Lua source text: the tree when it holds no error, else the first
/// error met.
pub fn parse(code: &str) -> (r: ResultOutput)
    ensures
        r is Parsed <==> error_count_of(code@) == 0,
{
    let parsed = parse_source(code);
    result_output(parsed.ast, parsed.errors)
}

} // verus!
