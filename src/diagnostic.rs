//! The diagnostic taxonomy and how a reported error is classified into it.
use vstd::prelude::*;
use vstd::string::StrSliceExecFns;
use crate::span::Span;

verus! {

/// What went wrong, lexically or syntactically.
#[derive(Clone, Copy, Debug, PartialEq, Eq, Structural)]
pub enum ErrorKind {
    /// A character or symbol that starts no token.
    UnexpectedSymbol,
    /// A quoted string that is not closed before the end of its line or input.
    UnterminatedString,
    /// A long bracket (`[[ ... ]]` string or `--[[ ... ]]` comment) that is not
    /// closed before the end of input.
    UnterminatedLongString,
    /// A numeric literal with an invalid digit sequence.
    MalformedNumber,
    /// A token that no rule of the grammar accepts where it stands.
    UnexpectedToken,
    /// A required token (`end`, `then`, ...) that is absent.
    MissingExpectedToken,
    /// The input ended where the grammar needed more.
    UnexpectedEndOfInput,
}

/// The stage and variant of an error as the parser reports it.
#[derive(Clone, Copy, Debug, PartialEq, Eq, Structural)]
pub enum RawSource {
    /// Reported while building the tree.
    Syntax,
    /// An unclosed multi-line comment.
    UnclosedComment,
    /// An unclosed string.
    UnclosedString,
    /// An invalid number.
    InvalidNumber,
    /// A character that starts no token.
    UnexpectedCharacter,
    /// A symbol that is not valid.
    InvalidSymbol,
}

/// One error as the parser reports it, in plain values.
#[derive(Clone, Debug)]
pub struct RawReport {
    pub source: RawSource,
    pub span: Span,
    pub message: String,
    /// The text of the token a syntax error names (empty at end of input).
    pub found: Option<String>,
}

/// A reported error: source, span, message and token found.
pub type ReportView = (RawSource, Span, Seq<char>, Option<Seq<char>>);

/// A diagnostic: kind, span, expected token, token found and message.
pub type DiagnosticView = (ErrorKind, Span, Option<Seq<char>>, Option<Seq<char>>, Seq<char>);

pub open spec fn report_view(r: RawReport) -> ReportView {
    (r.source, r.span, r.message@, opt_view(r.found))
}

pub open spec fn error_view(e: ParseError) -> DiagnosticView {
    (e.kind, e.span, opt_view(e.expected), opt_view(e.found), e.message@)
}

/// Whether the byte at offset `at` of the source opens a long bracket.
pub open spec fn opens_long_bracket(bytes: Seq<u8>, at: usize) -> bool {
    at < bytes.len() && bytes[at as int] == 91u8
}

/// The diagnostic made of a reported error; `bytes` is the source text.
pub open spec fn diagnose(bytes: Seq<u8>, r: ReportView) -> DiagnosticView {
    (
        kind_of(r.0, r.2, r.3, opens_long_bracket(bytes, r.1.start.bytes)),
        r.1,
        if r.0 == RawSource::Syntax {
            expected_token(r.2)
        } else {
            None
        },
        r.3,
        r.2,
    )
}

/// One diagnostic of a parse.
#[derive(Clone, Debug)]
pub struct ParseError {
    pub kind: ErrorKind,
    pub span: Span,
    /// The token that was required, for a missing token.
    pub expected: Option<String>,
    /// The text of the offending token, where the parser names one.
    pub found: Option<String>,
    /// The parser's own description of the problem.
    pub message: String,
}

impl ParseError {
    /// A diagnostic names an expected token exactly when it reports a missing
    /// one, and that token is the one its message names.
    pub open spec fn well_formed(self) -> bool {
        &&& (self.kind == ErrorKind::MissingExpectedToken) == (self.expected is Some)
        &&& self.expected is Some ==> opt_view(self.expected) == expected_token(self.message@)
    }
}

/// Lexical kinds: those raised while tokenizing.
pub open spec fn is_lexical(k: ErrorKind) -> bool {
    match k {
        ErrorKind::UnexpectedSymbol
        | ErrorKind::UnterminatedString
        | ErrorKind::UnterminatedLongString
        | ErrorKind::MalformedNumber => true,
        _ => false,
    }
}

/// The text an optional string holds, if any.
pub open spec fn opt_view(o: Option<String>) -> Option<Seq<char>> {
    match o {
        Some(s) => Some(s@),
        None => None,
    }
}

/// The words that open a message about a missing token.
pub open spec fn expected_prefix() -> Seq<char> {
    seq!['e', 'x', 'p', 'e', 'c', 't', 'e', 'd', ' ', '`']
}

/// Index of the first backtick in `s` at or after `i`.
pub open spec fn backtick_from(s: Seq<char>, i: int) -> Option<int>
    decreases s.len() - i,
{
    if i < 0 || i >= s.len() {
        None
    } else if s[i] == '`' {
        Some(i)
    } else {
        backtick_from(s, i + 1)
    }
}

/// The token named by a message of the form "expected `tok` ...", if any.
pub open spec fn expected_token(msg: Seq<char>) -> Option<Seq<char>> {
    let n = expected_prefix().len() as int;
    if msg.len() >= n && msg.subrange(0, n) == expected_prefix() {
        match backtick_from(msg, n) {
            Some(j) => if j > n {
                Some(msg.subrange(n, j))
            } else {
                None
            },
            None => None,
        }
    } else {
        None
    }
}

/// The kind of an error, from its source, its message, the token found, and
/// whether the error starts at a long bracket.
pub open spec fn kind_of(
    source: RawSource,
    msg: Seq<char>,
    found: Option<Seq<char>>,
    long_bracket: bool,
) -> ErrorKind {
    match source {
        RawSource::Syntax => if expected_token(msg) is Some {
            ErrorKind::MissingExpectedToken
        } else if found == Some(Seq::<char>::empty()) {
            ErrorKind::UnexpectedEndOfInput
        } else {
            ErrorKind::UnexpectedToken
        },
        RawSource::UnclosedComment => ErrorKind::UnterminatedLongString,
        RawSource::UnclosedString => if long_bracket {
            ErrorKind::UnterminatedLongString
        } else {
            ErrorKind::UnterminatedString
        },
        RawSource::InvalidNumber => ErrorKind::MalformedNumber,
        RawSource::UnexpectedCharacter | RawSource::InvalidSymbol => ErrorKind::UnexpectedSymbol,
    }
}

proof fn lemma_backtick_skip(s: Seq<char>, from: int, i: int)
    requires
        0 <= from <= i,
        forall|k: int| from <= k < i && k < s.len() ==> s[k] != '`',
    ensures
        backtick_from(s, from) == backtick_from(s, i),
    decreases i - from,
{
    if from < i {
        lemma_backtick_skip(s, from + 1, i);
    }
}

/// Index of the first backtick of `s` at or after `from`.
fn find_backtick(s: &str, from: usize) -> (r: Option<usize>)
    ensures
        match r {
            Some(j) => backtick_from(s@, from as int) == Some(j as int) && j < s@.len(),
            None => backtick_from(s@, from as int) is None,
        },
{
    let n = s.unicode_len();
    let mut i = from;
    while i < n
        invariant
            n == s@.len(),
            from <= i,
            forall|k: int| from <= k < i && k < s@.len() ==> s@[k] != '`',
        decreases n - i,
    {
        if s.get_char(i) == '`' {
            proof {
                lemma_backtick_skip(s@, from as int, i as int);
            }
            return Some(i);
        }
        i = i + 1;
    }
    proof {
        lemma_backtick_skip(s@, from as int, i as int);
    }
    None
}

/// Whether `msg` opens with "expected `".
fn has_expected_prefix(msg: &str) -> (r: bool)
    ensures
        r == (msg@.len() >= expected_prefix().len()
            && msg@.subrange(0, expected_prefix().len() as int) == expected_prefix()),
{
    let p = "expected `";
    proof {
        reveal_strlit("expected `");
        assert(p@ =~= expected_prefix());
    }
    let n = msg.unicode_len();
    if n < 10 {
        return false;
    }
    let mut i: usize = 0;
    while i < 10
        invariant
            n == msg@.len(),
            n >= 10,
            p@ == expected_prefix(),
            i <= 10,
            forall|k: int| 0 <= k < i ==> msg@[k] == p@[k],
        decreases 10 - i,
    {
        if msg.get_char(i) != p.get_char(i) {
            assert(msg@.subrange(0, 10)[i as int] != expected_prefix()[i as int]);
            return false;
        }
        i = i + 1;
    }
    assert(msg@.subrange(0, 10) =~= expected_prefix());
    true
}

/// The token that a message says is missing, if it says so.
pub fn expected_token_of(msg: &str) -> (r: Option<String>)
    ensures
        opt_view(r) == expected_token(msg@),
{
    if !has_expected_prefix(msg) {
        return None;
    }
    match find_backtick(msg, 10) {
        Some(j) => if j > 10 {
            Some(msg.substring_char(10, j).to_owned())
        } else {
            None
        },
        None => None,
    }
}

/// Classifies an error from its source, its message and the token found.
pub fn classify(source: RawSource, msg: &str, found: &Option<String>, long_bracket: bool) -> (k: ErrorKind)
    ensures
        k == kind_of(source, msg@, opt_view(*found), long_bracket),
{
    match source {
        RawSource::Syntax => {
            if expected_token_of(msg).is_some() {
                ErrorKind::MissingExpectedToken
            } else {
                let at_end = match found {
                    Some(t) => t.as_str().unicode_len() == 0,
                    None => false,
                };
                proof {
                    if found is Some && found->0@.len() == 0 {
                        assert(found->0@ =~= Seq::<char>::empty());
                    }
                }
                if at_end {
                    ErrorKind::UnexpectedEndOfInput
                } else {
                    ErrorKind::UnexpectedToken
                }
            }
        },
        RawSource::UnclosedComment => ErrorKind::UnterminatedLongString,
        RawSource::UnclosedString => if long_bracket {
            ErrorKind::UnterminatedLongString
        } else {
            ErrorKind::UnterminatedString
        },
        RawSource::InvalidNumber => ErrorKind::MalformedNumber,
        RawSource::UnexpectedCharacter | RawSource::InvalidSymbol => ErrorKind::UnexpectedSymbol,
    }
}

/// Builds a diagnostic from what the parser reported about one error, where
/// `long_bracket` says whether the error starts at a long bracket.
pub fn diagnostic(
    source: RawSource,
    span: Span,
    message: String,
    found: Option<String>,
    long_bracket: bool,
) -> (e: ParseError)
    ensures
        e.kind == kind_of(source, message@, opt_view(found), long_bracket),
        e.span == span,
        opt_view(e.expected) == (if source == RawSource::Syntax {
            expected_token(message@)
        } else {
            None
        }),
        opt_view(e.found) == opt_view(found),
        e.message@ == message@,
        e.well_formed(),
{
    let kind = classify(source, message.as_str(), &found, long_bracket);
    let expected = match source {
        RawSource::Syntax => expected_token_of(message.as_str()),
        _ => None,
    };
    ParseError { kind, span, expected, found, message }
}

} // verus!
