//! The result of one parse: a clean tree, a recovered tree with its
//! diagnostics, or diagnostics alone.
use vstd::prelude::*;
use full_moon::ast::Ast;
use vstd::string::StringSliceAdditionalSpecFns;
use crate::collector::{collect_reports, collected, no_repeats};
use crate::diagnostic::{error_view, is_lexical, DiagnosticView, ParseError};
use crate::moon::{has_last_statement_of, parse_source, reports_of, statement_count_of};

verus! {

/// What one parse produced.
pub enum ParseOutcome {
    /// A tree, with no diagnostic.
    Complete(Ast),
    /// A best-effort tree, with the diagnostics met on the way.
    Recovered(Ast, Vec<ParseError>),
    /// No meaningful tree: nothing was parsed and the tokenizer failed.
    Fatal(Vec<ParseError>),
}

/// Some diagnostic of `s` was raised while tokenizing.
pub open spec fn any_lexical(s: Seq<ParseError>) -> bool {
    exists|i: int| 0 <= i < s.len() && is_lexical(#[trigger] s[i].kind)
}

/// A parse is fatal when it reported a lexical error and kept no statement.
pub open spec fn is_fatal(has_statements: bool, s: Seq<ParseError>) -> bool {
    !has_statements && any_lexical(s)
}

impl ParseOutcome {
    /// Diagnostics held by the outcome; none for a complete one.
    pub open spec fn diagnostics_view(self) -> Seq<ParseError> {
        match self {
            ParseOutcome::Complete(_) => Seq::empty(),
            ParseOutcome::Recovered(_, d) => d@,
            ParseOutcome::Fatal(d) => d@,
        }
    }

    /// Recovered and fatal outcomes hold at least one diagnostic, and no
    /// outcome holds two of the same kind and span.
    pub open spec fn well_formed(self) -> bool {
        &&& !(self is Complete) ==> self.diagnostics_view().len() > 0
        &&& no_repeats(self.diagnostics_view())
        &&& self is Fatal ==> any_lexical(self.diagnostics_view())
        &&& forall|i: int|
            0 <= i < self.diagnostics_view().len() ==> (#[trigger] self.diagnostics_view()[i]).well_formed()
    }

    /// Whether the parse met no error.
    pub fn is_complete(&self) -> (r: bool)
        ensures
            r == (self is Complete),
    {
        match self {
            ParseOutcome::Complete(_) => true,
            _ => false,
        }
    }

    /// Number of diagnostics held.
    pub fn diagnostic_count(&self) -> (r: usize)
        ensures
            r == self.diagnostics_view().len(),
    {
        match self {
            ParseOutcome::Complete(_) => 0,
            ParseOutcome::Recovered(_, d) => d.len(),
            ParseOutcome::Fatal(d) => d.len(),
        }
    }
}

/// Whether some diagnostic was raised while tokenizing.
pub fn has_lexical(s: &Vec<ParseError>) -> (r: bool)
    ensures
        r == any_lexical(s@),
{
    let mut i: usize = 0;
    while i < s.len()
        invariant
            i <= s@.len(),
            forall|k: int| 0 <= k < i ==> !is_lexical(#[trigger] s@[k].kind),
        decreases s.len() - i,
    {
        match s[i].kind {
            crate::diagnostic::ErrorKind::UnexpectedSymbol
            | crate::diagnostic::ErrorKind::UnterminatedString
            | crate::diagnostic::ErrorKind::UnterminatedLongString
            | crate::diagnostic::ErrorKind::MalformedNumber => {
                return true;
            },
            _ => {},
        }
        i = i + 1;
    }
    false
}

/// Decides the outcome from the tree, whether it kept any statement, and the
/// diagnostics collected: complete without diagnostics, fatal when a lexical
/// error left no statement, recovered otherwise.
pub fn assemble(ast: Ast, has_statements: bool, diagnostics: Vec<ParseError>) -> (r: ParseOutcome)
    ensures
        diagnostics@.len() == 0 ==> r == ParseOutcome::Complete(ast),
        diagnostics@.len() > 0 && is_fatal(has_statements, diagnostics@) ==> r
            == ParseOutcome::Fatal(diagnostics),
        diagnostics@.len() > 0 && !is_fatal(has_statements, diagnostics@) ==> r
            == ParseOutcome::Recovered(ast, diagnostics),
{
    if diagnostics.len() == 0 {
        ParseOutcome::Complete(ast)
    } else if !has_statements && has_lexical(&diagnostics) {
        ParseOutcome::Fatal(diagnostics)
    } else {
        ParseOutcome::Recovered(ast, diagnostics)
    }
}

/// Whether the tree built for `code` keeps any statement.
pub open spec fn has_statements_of(code: Seq<char>) -> bool {
    statement_count_of(code) > 0 || has_last_statement_of(code)
}

/// The diagnostics that parsing `code` yields: each error the parser reports,
/// classified, without repeats of kind and span.
pub open spec fn diagnostics_of(code: &str) -> Seq<DiagnosticView> {
    collected(code.spec_bytes(), reports_of(code@))
}

proof fn lemma_collected_empty(bytes: Seq<u8>, rs: Seq<crate::diagnostic::ReportView>)
    ensures
        (collected(bytes, rs).len() == 0) == (rs.len() == 0),
{
    if rs.len() > 0 {
        let prev = collected(bytes, rs.drop_last());
        let d = crate::diagnostic::diagnose(bytes, rs.last());
        if crate::collector::view_reported(prev, d) {
            assert(prev.len() > 0);
        }
    }
}

/// Parsing the same text twice yields the same diagnostics, in the same order,
/// and the same decision between a complete, recovered and fatal outcome.
pub proof fn lemma_parse_is_deterministic(a: &str, b: &str)
    requires
        a@ == b@,
    ensures
        diagnostics_of(a) == diagnostics_of(b),
        reports_of(a@) == reports_of(b@),
        has_statements_of(a@) == has_statements_of(b@),
{
}

/// Parses Lua source text into an outcome with classified diagnostics.
pub fn parse_outcome(code: &str) -> (r: ParseOutcome)
    ensures
        r is Complete <==> reports_of(code@).len() == 0,
        r.diagnostics_view().map_values(|x: ParseError| error_view(x)) == diagnostics_of(code),
        r is Fatal <==> (reports_of(code@).len() > 0 && is_fatal(
            has_statements_of(code@),
            r.diagnostics_view(),
        )),
        r.well_formed(),
{
    let parsed = parse_source(code);
    let diagnostics = collect_reports(code.as_bytes(), &parsed.reports);
    proof {
        lemma_collected_empty(code.spec_bytes(), reports_of(code@));
        assert(diagnostics@.len() == diagnostics@.map_values(|x: ParseError| error_view(x)).len());
    }
    let has_statements = parsed.statements > 0 || parsed.last_statement;
    assemble(parsed.ast, has_statements, diagnostics)
}

} // verus!
