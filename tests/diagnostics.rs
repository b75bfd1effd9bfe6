use moonparse::collector::{collect_reports, Diagnostics};
use moonparse::diagnostic::{classify, diagnostic, expected_token_of, ErrorKind, ParseError, RawReport, RawSource};
use moonparse::outcome::{assemble, has_lexical, ParseOutcome};
use moonparse::span::{Position, Span};

fn span(start: usize, end: usize) -> Span {
    Span {
        start: Position { bytes: start, line: 1, character: start + 1 },
        end: Position { bytes: end, line: 1, character: end + 1 },
    }
}

fn report(kind: ErrorKind, start: usize, end: usize, message: &str) -> ParseError {
    ParseError { kind, span: span(start, end), expected: None, found: None, message: message.to_string() }
}

fn empty_ast() -> full_moon::ast::Ast {
    full_moon::parse("").unwrap()
}

#[test]
fn expected_token_is_read_from_the_message() {
    assert_eq!(expected_token_of("expected `end` to close if block").as_deref(), Some("end"));
    assert_eq!(expected_token_of("expected `then` after condition").as_deref(), Some("then"));
    assert_eq!(expected_token_of("expected `::` after label").as_deref(), Some("::"));
    assert_eq!(expected_token_of("expected ``").as_deref(), None);
    assert_eq!(expected_token_of("expected `end").as_deref(), None);
    assert_eq!(expected_token_of("expected an expression after `=`").as_deref(), None);
    assert_eq!(expected_token_of("unexpected token, this needs to be a statement"), None);
    assert_eq!(expected_token_of(""), None);
}

#[test]
fn syntax_errors_are_classified() {
    let at_end = Some(String::new());
    let at_token = Some("=".to_string());
    assert_eq!(classify(RawSource::Syntax, "expected `end` to close if block", &at_end, false), ErrorKind::MissingExpectedToken);
    assert_eq!(classify(RawSource::Syntax, "expected an expression after `=`", &at_end, false), ErrorKind::UnexpectedEndOfInput);
    assert_eq!(classify(RawSource::Syntax, "expected an expression after `=`", &at_token, false), ErrorKind::UnexpectedToken);
    assert_eq!(classify(RawSource::Syntax, "unexpected token", &None, false), ErrorKind::UnexpectedToken);
}

#[test]
fn lexical_errors_are_classified() {
    assert_eq!(classify(RawSource::UnclosedComment, "unclosed comment", &None, false), ErrorKind::UnterminatedLongString);
    assert_eq!(classify(RawSource::UnclosedString, "unclosed string", &None, false), ErrorKind::UnterminatedString);
    assert_eq!(classify(RawSource::InvalidNumber, "invalid number", &None, false), ErrorKind::MalformedNumber);
    assert_eq!(classify(RawSource::UnexpectedCharacter, "unexpected character $", &None, false), ErrorKind::UnexpectedSymbol);
    assert_eq!(classify(RawSource::InvalidSymbol, "invalid symbol", &None, false), ErrorKind::UnexpectedSymbol);
    assert_eq!(classify(RawSource::UnclosedString, "expected `end`", &None, false), ErrorKind::UnterminatedString);
}

#[test]
fn diagnostic_keeps_what_it_was_given() {
    let e = diagnostic(RawSource::Syntax, span(3, 7), "expected `then` after condition".to_string(), Some("x".to_string()), false);
    assert_eq!(e.kind, ErrorKind::MissingExpectedToken);
    assert_eq!(e.span, span(3, 7));
    assert_eq!(e.expected.as_deref(), Some("then"));
    assert_eq!(e.found.as_deref(), Some("x"));
    assert_eq!(e.message, "expected `then` after condition");
    let lexical = diagnostic(RawSource::UnclosedString, span(0, 4), "expected `end`".to_string(), None, false);
    assert_eq!(lexical.kind, ErrorKind::UnterminatedString);
    assert_eq!(lexical.expected, None);
}

#[test]
fn collector_drops_exact_repeats_only() {
    let mut d = Diagnostics::new();
    assert_eq!(d.len(), 0);
    d.push(report(ErrorKind::UnexpectedToken, 0, 1, "first"));
    d.push(report(ErrorKind::UnexpectedToken, 0, 1, "same kind and span"));
    assert_eq!(d.len(), 1);
    d.push(report(ErrorKind::MissingExpectedToken, 0, 1, "other kind"));
    d.push(report(ErrorKind::UnexpectedToken, 0, 2, "other span"));
    assert_eq!(d.len(), 3);
    assert!(d.contains_report(&report(ErrorKind::UnexpectedToken, 0, 2, "")));
    assert!(!d.contains_report(&report(ErrorKind::MalformedNumber, 0, 2, "")));
    let all = d.into_vec();
    let messages: Vec<&str> = all.iter().map(|e| e.message.as_str()).collect();
    assert_eq!(messages, vec!["first", "other kind", "other span"]);
}

#[test]
fn lexical_diagnostics_are_found() {
    assert!(!has_lexical(&vec![]));
    assert!(!has_lexical(&vec![report(ErrorKind::UnexpectedToken, 0, 1, "")]));
    assert!(has_lexical(&vec![
        report(ErrorKind::UnexpectedToken, 0, 1, ""),
        report(ErrorKind::MalformedNumber, 2, 3, ""),
    ]));
}

#[test]
fn no_diagnostic_means_complete() {
    assert!(matches!(assemble(empty_ast(), false, vec![]), ParseOutcome::Complete(_)));
    assert!(matches!(assemble(empty_ast(), true, vec![]), ParseOutcome::Complete(_)));
}

#[test]
fn lexical_failure_without_statements_is_fatal() {
    let d = vec![report(ErrorKind::UnterminatedString, 0, 4, "unclosed string")];
    match assemble(empty_ast(), false, d) {
        ParseOutcome::Fatal(d) => assert_eq!(d.len(), 1),
        _ => panic!("expected a fatal outcome"),
    }
}

#[test]
fn syntax_failure_or_kept_statements_is_recovered() {
    let lexical = vec![report(ErrorKind::UnterminatedString, 0, 4, "")];
    assert!(matches!(assemble(empty_ast(), true, lexical), ParseOutcome::Recovered(_, _)));
    let syntax = vec![report(ErrorKind::UnexpectedToken, 0, 1, "")];
    match assemble(empty_ast(), false, syntax) {
        ParseOutcome::Recovered(_, d) => assert_eq!(d[0].kind, ErrorKind::UnexpectedToken),
        _ => panic!("expected a recovered outcome"),
    }
}

#[test]
fn span_length_in_bytes() {
    assert_eq!(span(3, 10).byte_len(), 7);
    assert_eq!(span(4, 4).byte_len(), 0);
    assert_eq!(span(9, 2).byte_len(), 0);
}


#[test]
fn unclosed_string_at_a_long_bracket_is_a_long_string() {
    assert_eq!(classify(RawSource::UnclosedString, "unclosed string", &None, true), ErrorKind::UnterminatedLongString);
    assert_eq!(classify(RawSource::InvalidNumber, "invalid number", &None, true), ErrorKind::MalformedNumber);
}

fn raw(source: RawSource, start: usize, end: usize, message: &str, found: Option<&str>) -> RawReport {
    RawReport { source, span: span(start, end), message: message.to_string(), found: found.map(|f| f.to_string()) }
}

#[test]
fn reports_are_classified_in_order_without_repeats() {
    let source = b"x = [[abc 'q";
    let reports = vec![
        raw(RawSource::Syntax, 2, 3, "expected `end` to close if block", Some("=")),
        raw(RawSource::UnclosedString, 4, 12, "unclosed string", None),
        raw(RawSource::Syntax, 2, 3, "expected `then` after condition", Some("x")),
        raw(RawSource::UnclosedString, 10, 12, "unclosed string", None),
        raw(RawSource::Syntax, 12, 12, "expected an expression after `=`", Some("")),
    ];
    let d = collect_reports(source, &reports);
    assert_eq!(d.len(), 4);
    assert_eq!(d[0].kind, ErrorKind::MissingExpectedToken);
    assert_eq!(d[0].expected.as_deref(), Some("end"));
    assert_eq!(d[0].found.as_deref(), Some("="));
    assert_eq!(d[1].kind, ErrorKind::UnterminatedLongString);
    assert_eq!(d[1].span, span(4, 12));
    assert_eq!(d[2].kind, ErrorKind::UnterminatedString);
    assert_eq!(d[3].kind, ErrorKind::UnexpectedEndOfInput);
    assert_eq!(d[3].message, "expected an expression after `=`");
    assert!(collect_reports(b"", &vec![]).is_empty());
}
