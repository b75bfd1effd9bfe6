//! An append-only, ordered collection of diagnostics without exact repeats.
use vstd::prelude::*;
use crate::diagnostic::{
    diagnose, diagnostic, error_view, report_view, DiagnosticView, ParseError, RawReport, RawSource,
    ReportView,
};

verus! {

/// Two diagnostics repeat each other when kind and span agree.
pub open spec fn same_report(a: ParseError, b: ParseError) -> bool {
    a.kind == b.kind && a.span == b.span
}

/// No two entries of `s` share kind and span.
pub open spec fn no_repeats(s: Seq<ParseError>) -> bool {
    forall|i: int, j: int| 0 <= i < j < s.len() ==> !same_report(#[trigger] s[i], #[trigger] s[j])
}

/// Some entry of `s` shares kind and span with `e`.
pub open spec fn reported(s: Seq<ParseError>, e: ParseError) -> bool {
    exists|i: int| 0 <= i < s.len() && same_report(#[trigger] s[i], e)
}

/// `s` after reporting `e`: unchanged if `e` repeats an entry, else extended by it.
pub open spec fn pushed(s: Seq<ParseError>, e: ParseError) -> Seq<ParseError> {
    if reported(s, e) {
        s
    } else {
        s.push(e)
    }
}

/// Reporting a diagnostic a second time, as resynchronization may do, changes
/// nothing: a collection without repeats keeps one entry per kind and span.
pub proof fn lemma_repeat_report_is_dropped(s: Seq<ParseError>, e: ParseError)
    requires
        no_repeats(s),
    ensures
        no_repeats(pushed(s, e)),
        reported(pushed(s, e), e),
        pushed(pushed(s, e), e) == pushed(s, e),
{
    if !reported(s, e) {
        let t = s.push(e);
        assert(same_report(t[s.len() as int], e));
        assert forall|i: int, j: int| 0 <= i < j < t.len() implies !same_report(
            #[trigger] t[i],
            #[trigger] t[j],
        ) by {
            if j == s.len() && same_report(t[i], t[j]) {
                assert(same_report(s[i], e));
            }
        }
    } else {
        let i = choose|i: int| 0 <= i < s.len() && same_report(#[trigger] s[i], e);
        assert(same_report(s[i], e));
    }
}

/// Diagnostics in the order they were reported.
pub struct Diagnostics {
    errors: Vec<ParseError>,
}

impl View for Diagnostics {
    type V = Seq<ParseError>;

    closed spec fn view(&self) -> Seq<ParseError> {
        self.errors@
    }
}

impl Diagnostics {
    pub closed spec fn well_formed(&self) -> bool {
        no_repeats(self.errors@)
    }

    /// An empty collection.
    pub fn new() -> (r: Diagnostics)
        ensures
            r@ == Seq::<ParseError>::empty(),
            r.well_formed(),
    {
        Diagnostics { errors: Vec::new() }
    }

    /// Number of diagnostics held.
    pub fn len(&self) -> (r: usize)
        ensures
            r == self@.len(),
    {
        self.errors.len()
    }

    /// Whether a diagnostic with the kind and span of `e` is held.
    pub fn contains_report(&self, e: &ParseError) -> (r: bool)
        ensures
            r == reported(self@, *e),
    {
        let mut i: usize = 0;
        while i < self.errors.len()
            invariant
                i <= self.errors@.len(),
                forall|k: int| 0 <= k < i ==> !same_report(#[trigger] self.errors@[k], *e),
            decreases self.errors.len() - i,
        {
            if self.errors[i].kind == e.kind && self.errors[i].span == e.span {
                return true;
            }
            i = i + 1;
        }
        false
    }

    /// Appends `e`, unless a diagnostic of the same kind and span is held.
    pub fn push(&mut self, e: ParseError)
        requires
            old(self).well_formed(),
        ensures
            final(self).well_formed(),
            final(self)@ == pushed(old(self)@, e),
    {
        if !self.contains_report(&e) {
            self.errors.push(e);
            proof {
                let s = self.errors@;
                assert forall|i: int, j: int| 0 <= i < j < s.len() implies !same_report(
                    #[trigger] s[i],
                    #[trigger] s[j],
                ) by {
                    if j == s.len() - 1 {
                        if same_report(s[i], s[j]) {
                            assert(same_report(old(self).errors@[i], e));
                        }
                    }
                }
            }
        }
    }

    /// The diagnostics, in order.
    pub fn into_vec(self) -> (r: Vec<ParseError>)
        ensures
            r@ == self@,
            self.well_formed() ==> no_repeats(r@),
    {
        self.errors
    }
}

/// Some entry of `s` has the kind and span of `d`.
pub open spec fn view_reported(s: Seq<DiagnosticView>, d: DiagnosticView) -> bool {
    exists|i: int| 0 <= i < s.len() && (#[trigger] s[i]).0 == d.0 && s[i].1 == d.1
}

/// The diagnostics made of `rs`, in order, leaving out each one whose kind and
/// span an earlier one already has; `bytes` is the source text.
pub open spec fn collected(bytes: Seq<u8>, rs: Seq<ReportView>) -> Seq<DiagnosticView>
    decreases rs.len(),
{
    if rs.len() == 0 {
        Seq::empty()
    } else {
        let prev = collected(bytes, rs.drop_last());
        let d = diagnose(bytes, rs.last());
        if view_reported(prev, d) {
            prev
        } else {
            prev.push(d)
        }
    }
}

proof fn lemma_reported_view(s: Seq<ParseError>, e: ParseError)
    ensures
        reported(s, e) == view_reported(s.map_values(|x: ParseError| error_view(x)), error_view(e)),
{
    let v = s.map_values(|x: ParseError| error_view(x));
    if reported(s, e) {
        let i = choose|i: int| 0 <= i < s.len() && same_report(#[trigger] s[i], e);
        assert(v[i].0 == error_view(e).0 && v[i].1 == error_view(e).1);
    }
    if view_reported(v, error_view(e)) {
        let i = choose|i: int| 0 <= i < v.len() && (#[trigger] v[i]).0 == error_view(e).0 && v[i].1 == error_view(e).1;
        assert(same_report(s[i], e));
    }
}

/// Classifies the reported errors of a parse of `source`, in order, and keeps
/// the first of each group that shares kind and span.
pub fn collect_reports(source: &[u8], reports: &Vec<RawReport>) -> (r: Vec<ParseError>)
    ensures
        r@.map_values(|x: ParseError| error_view(x)) == collected(
            source@,
            reports@.map_values(|x: RawReport| report_view(x)),
        ),
        no_repeats(r@),
        forall|k: int| 0 <= k < r@.len() ==> (#[trigger] r@[k]).well_formed(),
{
    let ghost rv = reports@.map_values(|x: RawReport| report_view(x));
    let mut d = Diagnostics::new();
    let mut i: usize = 0;
    while i < reports.len()
        invariant
            i <= reports@.len(),
            rv == reports@.map_values(|x: RawReport| report_view(x)),
            d.well_formed(),
            d@.map_values(|x: ParseError| error_view(x)) == collected(source@, rv.subrange(0, i as int)),
            forall|k: int| 0 <= k < d@.len() ==> (#[trigger] d@[k]).well_formed(),
        decreases reports.len() - i,
    {
        let report = &reports[i];
        let at = report.span.start.bytes;
        let long_bracket = match report.source {
            RawSource::UnclosedString => at < source.len() && source[at] == 91u8,
            _ => false,
        };
        let found = match &report.found {
            Some(f) => Some(f.clone()),
            None => None,
        };
        let e = diagnostic(report.source, report.span, report.message.clone(), found, long_bracket);
        let ghost old_d = d@;
        proof {
            assert(rv.subrange(0, i + 1).drop_last() =~= rv.subrange(0, i as int));
            assert(rv.subrange(0, i + 1).last() == rv[i as int]);
            assert(error_view(e) == diagnose(source@, rv[i as int]));
            lemma_reported_view(old_d, e);
        }
        d.push(e);
        proof {
            if !reported(old_d, e) {
                assert(old_d.push(e).map_values(|x: ParseError| error_view(x)) =~= old_d.map_values(
                    |x: ParseError| error_view(x),
                ).push(error_view(e)));
            }
        }
        i = i + 1;
    }
    assert(rv.subrange(0, reports@.len() as int) =~= rv);
    let r = d.into_vec();
    r
}

} // verus!
