//! What this crate relies on from `full_moon`.
use vstd::prelude::*;
use crate::span::{Position, Span};
use full_moon::tokenizer::Position as FmPosition;
use full_moon::tokenizer::TokenizerErrorType as T;
use crate::diagnostic::{report_view, RawReport, RawSource, ReportView};

verus! {

#[verifier::external_type_specification]
#[verifier::external_body]
pub struct ExAst(full_moon::ast::Ast);

#[verifier::external_type_specification]
#[verifier::external_body]
pub struct ExError(full_moon::Error);

/// Number of errors that `full_moon` reports for a source text.
pub uninterp spec fn error_count_of(code: Seq<char>) -> nat;

/// The errors that `full_moon` reports for a source text, in order, as plain values.
pub uninterp spec fn reports_of(code: Seq<char>) -> Seq<ReportView>;

/// Number of statements in the top-level block `full_moon` builds for a source
/// text, not counting a trailing `return` or `break`.
pub uninterp spec fn statement_count_of(code: Seq<char>) -> nat;

/// Whether the top-level block `full_moon` builds for a source text ends in a
/// `return` or `break`.
pub uninterp spec fn has_last_statement_of(code: Seq<char>) -> bool;

/// What `full_moon` made of a source text.
pub struct SourceParse {
    pub ast: full_moon::ast::Ast,
    pub errors: Vec<full_moon::Error>,
    pub reports: Vec<RawReport>,
    pub statements: usize,
    pub last_statement: bool,
}

/// Relies on `full_moon::parse_fallible` with the default Lua version: it
/// always yields a tree (rebuilt where errors were found) and every error met;
/// on `full_moon::ast::Block::stmts` and `Block::last_stmt` for the top-level
/// block; and on `report_of_error` for each error.
#[verifier::external_body]
pub(crate) fn parse_source(code: &str) -> (r: SourceParse)
    ensures
        r.errors@.len() == error_count_of(code@),
        r.reports@.map_values(|x: RawReport| report_view(x)) == reports_of(code@),
        r.reports@.len() == r.errors@.len(),
        r.statements == statement_count_of(code@),
        r.last_statement == has_last_statement_of(code@),
{
    let result = full_moon::parse_fallible(code, full_moon::LuaVersion::new());
    let errors = result.errors().to_vec();
    let reports = errors.iter().map(report_of_error).collect();
    let statements = result.ast().nodes().stmts().count();
    let last_statement = result.ast().nodes().last_stmt().is_some();
    SourceParse { ast: result.into_ast(), errors, reports, statements, last_statement }
}

/// Relies on `full_moon::Error::range`, `Error::error_message`, the variants of
/// `full_moon::Error` and `full_moon::tokenizer::TokenizerErrorType`, and, for a
/// syntax error, `AstError::token` with the `Display` of its token: one error
/// in plain values. Only `parse_source` calls it, which states what it yields.
#[verifier::external_body]
fn report_of_error(e: &full_moon::Error) -> (r: RawReport) {
    let (start, end) = e.range();
    let at = |p: FmPosition| Position { bytes: p.bytes(), line: p.line(), character: p.character() };
    let (source, found) = match e {
        full_moon::Error::AstError(a) => (RawSource::Syntax, Some(a.token().to_string())),
        full_moon::Error::TokenizerError(t) => (match t.error() {
            T::UnclosedComment => RawSource::UnclosedComment,
            T::UnclosedString => RawSource::UnclosedString,
            T::InvalidNumber => RawSource::InvalidNumber,
            T::UnexpectedToken(_) => RawSource::UnexpectedCharacter,
            T::InvalidSymbol(_) => RawSource::InvalidSymbol,
        }, None),
    };
    RawReport { source, span: Span { start: at(start), end: at(end) }, message: e.error_message().into_owned(), found }
}

/// Relies on the `Display` of `full_moon::Error`: the human-readable report.
#[verifier::external_body]
pub(crate) fn error_display(e: &full_moon::Error) -> (r: String) {
    e.to_string()
}

} // verus!
