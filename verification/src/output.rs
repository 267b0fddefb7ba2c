//! The structured output document: diagnostics plus at most one artifact
//! payload, appended to by successive stages and fresh for every iteration.

use vstd::prelude::*;
use crate::diagnostics::{Diagnostic, Severity, of_severity, has_error};
use crate::outcome::PipelineError;
use crate::version::ParsedVersion;

verus! {

/// Hash algorithm computing a build artifact's content identifier.
#[derive(Clone, Copy, PartialEq, Eq, Structural, Debug)]
pub enum HashKind {
    Ipfs,
    Keccak256,
}

/// Bytecode for one compilation unit plus its content-hash metadata.
#[derive(Debug)]
pub struct BuildArtifact {
    pub contract: String,
    pub bytecode: Vec<u8>,
    pub hash: String,
    pub hash_kind: HashKind,
}

/// The artifact payload, tagged with frontend and backend version metadata.
#[derive(Debug)]
pub struct OutputPayload {
    pub artifacts: Vec<BuildArtifact>,
    pub frontend_version: ParsedVersion,
    pub backend_version: ParsedVersion,
}

/// The structured output document.
#[derive(Debug)]
pub struct StandardOutput {
    pub diagnostics: Vec<Diagnostic>,
    pub payload: Option<OutputPayload>,
}

impl StandardOutput {
    /// Removes and returns the warning diagnostics, in order, for immediate
    /// emission on the informational channel; the error diagnostics stay,
    /// in order, and the payload is untouched.
    pub fn take_warnings(&mut self) -> (w: Vec<Diagnostic>)
        ensures
            final(self).diagnostics@ == of_severity(old(self).diagnostics@, Severity::Error),
            w@ == of_severity(old(self).diagnostics@, Severity::Warning),
            final(self).payload == old(self).payload,
    {
        let mut pending: Vec<Diagnostic> = Vec::new();
        core::mem::swap(&mut pending, &mut self.diagnostics);
        let ghost orig = pending@;
        let mut warns: Vec<Diagnostic> = Vec::new();
        let mut errs: Vec<Diagnostic> = Vec::new();
        while pending.len() > 0
            invariant
                of_severity(orig, Severity::Warning) == warns@ + of_severity(
                    pending@,
                    Severity::Warning,
                ),
                of_severity(orig, Severity::Error) == errs@ + of_severity(
                    pending@,
                    Severity::Error,
                ),
            decreases pending@.len(),
        {
            let ghost before = pending@;
            let d = pending.remove(0);
            proof {
                assert(pending@ =~= before.drop_first());
            }
            match d.severity {
                Severity::Warning => {
                    let ghost w0 = warns@;
                    warns.push(d);
                    proof {
                        assert(of_severity(before, Severity::Error) == of_severity(
                            pending@,
                            Severity::Error,
                        ));
                        assert(of_severity(before, Severity::Warning) == seq![d] + of_severity(
                            pending@,
                            Severity::Warning,
                        ));
                        assert(w0 + (seq![d] + of_severity(pending@, Severity::Warning)) =~= warns@
                            + of_severity(pending@, Severity::Warning));
                    }
                },
                Severity::Error => {
                    let ghost e0 = errs@;
                    errs.push(d);
                    proof {
                        assert(of_severity(before, Severity::Warning) == of_severity(
                            pending@,
                            Severity::Warning,
                        ));
                        assert(of_severity(before, Severity::Error) == seq![d] + of_severity(
                            pending@,
                            Severity::Error,
                        ));
                        assert(e0 + (seq![d] + of_severity(pending@, Severity::Error)) =~= errs@
                            + of_severity(pending@, Severity::Error));
                    }
                },
            }
        }
        proof {
            assert(warns@ + of_severity(pending@, Severity::Warning) =~= warns@);
            assert(errs@ + of_severity(pending@, Severity::Error) =~= errs@);
        }
        self.diagnostics = errs;
        warns
    }

    /// The error gate: passes the output through untouched when no
    /// error-severity diagnostic is present, and otherwise short-circuits
    /// with a compilation failure carrying the whole diagnostic list — an
    /// expected, recoverable termination.
    pub fn collect_errors(self) -> (r: Result<StandardOutput, PipelineError>)
        ensures
            r is Ok <==> !has_error(self.diagnostics@),
            r matches Ok(out) ==> out == self,
            r matches Err(e) ==> e matches PipelineError::Compilation(d) && d == self.diagnostics
                && has_error(d@),
    {
        if has_error_in(&self.diagnostics) {
            Err(PipelineError::Compilation(self.diagnostics))
        } else {
            Ok(self)
        }
    }
}

/// Scans a diagnostic list for an error-severity entry.
pub fn has_error_in(diags: &Vec<Diagnostic>) -> (r: bool)
    ensures
        r == has_error(diags@),
{
    let n = diags.len();
    let mut i: usize = 0;
    while i < n
        invariant
            i <= n,
            n == diags@.len(),
            forall|k: int| 0 <= k < i ==> (#[trigger] diags@[k]).severity != Severity::Error,
        decreases n - i,
    {
        match diags[i].severity {
            Severity::Error => {
                return true;
            },
            Severity::Warning => {},
        }
        i = i + 1;
    }
    false
}

/// The output writer: a pure merge of the build artifacts into the output
/// under the payload slot, tagged with frontend and backend version
/// metadata. Diagnostics are untouched; there is no failure path.
pub fn write_artifacts(
    out: &mut StandardOutput,
    artifacts: Vec<BuildArtifact>,
    frontend_version: ParsedVersion,
    backend_version: ParsedVersion,
)
    ensures
        final(out).diagnostics == old(out).diagnostics,
        final(out).payload matches Some(p) && p.artifacts == artifacts && p.frontend_version
            == frontend_version && p.backend_version == backend_version,
{
    out.payload = Some(OutputPayload { artifacts, frontend_version, backend_version });
}

} // verus!
