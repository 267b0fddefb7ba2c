//! Diagnostics attached to compiler output, and the structured output
//! document that carries them between pipeline stages.

use vstd::prelude::*;

verus! {

/// Severity of a compiler diagnostic: every diagnostic is either an
/// informational warning or a hard error.
#[derive(Clone, Copy, PartialEq, Eq, Structural, Debug)]
pub enum Severity {
    Warning,
    Error,
}

/// Optional source location attached to a diagnostic.
#[derive(Clone, Debug)]
pub struct SourceLocation {
    pub file: String,
    pub line: u64,
    pub column: u64,
}

/// A structured compiler message, tagged with a severity and an optional
/// source location.
#[derive(Clone, Debug)]
pub struct Diagnostic {
    pub severity: Severity,
    pub message: String,
    pub location: Option<SourceLocation>,
}

pub open spec fn has_severity(d: Diagnostic, sev: Severity) -> bool {
    d.severity == sev
}

/// The subsequence of diagnostics carrying the given severity, in order.
pub open spec fn of_severity(s: Seq<Diagnostic>, sev: Severity) -> Seq<Diagnostic>
    decreases s.len(),
{
    if s.len() == 0 {
        Seq::empty()
    } else if has_severity(s[0], sev) {
        seq![s[0]] + of_severity(s.drop_first(), sev)
    } else {
        of_severity(s.drop_first(), sev)
    }
}

/// True when at least one diagnostic in the sequence is an error.
pub open spec fn has_error(s: Seq<Diagnostic>) -> bool {
    exists|i: int| 0 <= i < s.len() && s[i].severity == Severity::Error
}

/// Every diagnostic kept by the severity filter carries that severity.
pub proof fn lemma_of_severity_elements(s: Seq<Diagnostic>, sev: Severity)
    ensures
        forall|i: int|
            0 <= i < of_severity(s, sev).len() ==> (#[trigger] of_severity(s, sev)[i]).severity
                == sev,
    decreases s.len(),
{
    if s.len() > 0 {
        lemma_of_severity_elements(s.drop_first(), sev);
    }
}

/// A sequence holds an error exactly when its error subsequence is non-empty.
pub proof fn lemma_has_error_iff_errors_nonempty(s: Seq<Diagnostic>)
    ensures
        has_error(s) <==> of_severity(s, Severity::Error).len() > 0,
    decreases s.len(),
{
    if s.len() > 0 {
        lemma_has_error_iff_errors_nonempty(s.drop_first());
        if has_error(s.drop_first()) {
            let i = choose|i: int|
                0 <= i < s.drop_first().len() && s.drop_first()[i].severity == Severity::Error;
            assert(s[i + 1].severity == Severity::Error);
        }
        if !has_severity(s[0], Severity::Error) && has_error(s) {
            let i = choose|i: int| 0 <= i < s.len() && s[i].severity == Severity::Error;
            assert(s.drop_first()[i - 1].severity == Severity::Error);
        }
    }
}

} // verus!
