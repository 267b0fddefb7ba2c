//! Orchestration of one fuzz iteration: a pure function from the delivered
//! buffer, the per-run settings and the external collaborators' responses
//! to a classified outcome and a structured output.

use vstd::prelude::*;
use crate::codegen::{
    all_units_succeeded, artifacts_correspond, generate_code, some_unit_failed_with,
    BackendInitGuard, BackendUnitOutcome,
};
use crate::config::{
    build_standard_input, config_accepted, ContractLibraries, OptimizerSettings,
    PipelineSelection,
};
use crate::diagnostics::{
    has_error, lemma_has_error_iff_errors_nonempty, lemma_of_severity_elements, of_severity,
    Diagnostic, Severity,
};
use crate::frontend::{output_of_response, resolve_tool, FrontendResponse, ToolStatus};
use crate::outcome::{classify_error, spec_outcome, Outcome, PipelineError};
use crate::output::{write_artifacts, HashKind, StandardOutput};
use crate::project::{
    all_contracts_support, assemble_project, unsupported_contract_named, Project,
};
use crate::source::adapt;
use crate::version::{semver_parse, tool_file_name_bytes, ParsedVersion};

verus! {

/// Per-run settings delivered beside the buffer: the frontend version
/// identifier, the pipeline selection, optimizer settings, remappings, the
/// platform suffix of the executable name, the hash-algorithm selector and
/// the backend version used to tag the output.
pub struct RunSettings {
    pub version_text: String,
    pub selection: PipelineSelection,
    pub optimizer: OptimizerSettings,
    pub libraries: Vec<ContractLibraries>,
    pub remappings: Option<Vec<String>>,
    pub tool_suffix: Vec<u8>,
    pub hash_kind: HashKind,
    pub backend_version: ParsedVersion,
}

/// Everything the external collaborators answered during one iteration:
/// what the host found at the resolved tool path, the frontend's response
/// document, and the backend's per-unit results. The pipeline's contract
/// states what holds for every possible answer.
pub struct ExternalWorld {
    pub tool: ToolStatus,
    pub frontend: FrontendResponse,
    pub backend: Vec<BackendUnitOutcome>,
}

impl ExternalWorld {
    /// The backend answers exactly one result per reported contract.
    pub open spec fn wf(self) -> bool {
        self.backend@.len() == self.frontend.contracts@.len()
    }
}

/// Whether configuration and tool resolution pass, so the frontend is
/// actually invoked and its diagnostics are seen.
pub open spec fn reaches_frontend(s: RunSettings, w: ExternalWorld) -> bool {
    config_accepted(s.version_text@, s.optimizer) && w.tool is Available
}

/// The classification every iteration reaches, decided stage by stage:
/// configuration, tool resolution, the error gate on the frontend's
/// diagnostics, project assembly, code generation — and success otherwise.
pub open spec fn classify_spec(s: RunSettings, w: ExternalWorld) -> Outcome {
    if !config_accepted(s.version_text@, s.optimizer) {
        Outcome::ConfigurationError
    } else if !(w.tool is Available) {
        Outcome::ToolResolutionError
    } else if has_error(w.frontend.diagnostics@) {
        Outcome::CompilationError
    } else if !all_contracts_support(w.frontend.contracts@, s.selection) {
        Outcome::AssemblyError
    } else if !all_units_succeeded(w.backend@) {
        Outcome::CodeGenError
    } else {
        Outcome::Success
    }
}

/// What one iteration hands back: the warning diagnostics for the
/// informational channel — preserved whatever the terminating outcome —
/// and the final output or the classified stage failure.
pub struct IterationReport {
    pub warnings: Vec<Diagnostic>,
    pub result: Result<StandardOutput, PipelineError>,
}

impl IterationReport {
    pub open spec fn outcome(self) -> Outcome {
        spec_outcome(self.result)
    }

    /// The classification of this report.
    pub fn classify(&self) -> (o: Outcome)
        ensures
            o == self.outcome(),
    {
        match &self.result {
            Ok(_) => Outcome::Success,
            Err(e) => classify_error(e),
        }
    }
}

/// Each classified failure carries what its stage knew when it gave up.
pub open spec fn error_details_match(e: PipelineError, s: RunSettings, w: ExternalWorld) -> bool {
    match e {
        PipelineError::Configuration => true,
        PipelineError::ToolResolution(f) => exists|v: ParsedVersion|
            Some(#[trigger] v.parts()) == semver_parse(s.version_text@) && f@
                == tool_file_name_bytes(v, s.tool_suffix@),
        PipelineError::Compilation(d) => d@ == of_severity(
            w.frontend.diagnostics@,
            Severity::Error,
        ) && d@.len() > 0,
        PipelineError::Assembly(name) => unsupported_contract_named(
            w.frontend.contracts@,
            s.selection,
            name,
        ),
        PipelineError::CodeGen(m) => some_unit_failed_with(w.backend@, m),
    }
}

/// The full contract of one iteration: the outcome is the classification;
/// the warnings channel carries exactly the frontend's warning diagnostics
/// once the frontend was reached; a successful output is diagnostics-clean
/// and owns one artifact per compilation unit, tagged with the frontend and
/// backend versions; a failure carries its stage's evidence.
pub open spec fn report_matches(r: IterationReport, s: RunSettings, w: ExternalWorld) -> bool {
    &&& r.outcome() == classify_spec(s, w)
    &&& (reaches_frontend(s, w) ==> r.warnings@ == of_severity(
        w.frontend.diagnostics@,
        Severity::Warning,
    ))
    &&& (!reaches_frontend(s, w) ==> r.warnings@.len() == 0)
    &&& (r.result matches Ok(out) ==> {
        &&& out.diagnostics@.len() == 0
        &&& out.payload matches Some(p) && artifacts_correspond(
            p.artifacts@,
            w.frontend.contracts@,
            w.backend@,
            s.hash_kind,
        ) && Some(p.frontend_version.parts()) == semver_parse(s.version_text@)
            && p.backend_version == s.backend_version
    })
    &&& (r.result matches Err(e) ==> error_details_match(e, s, w))
}

/// Runs one full iteration over the delivered buffer: input adaptation,
/// configuration, tool resolution, the error gate on the frontend's
/// response, project assembly, code generation and the output writer.
/// Each stage fails fast with a classified error; there is no retry.
pub fn run_iteration(
    data: &Vec<u8>,
    settings: RunSettings,
    world: ExternalWorld,
    guard: &BackendInitGuard,
) -> (r: IterationReport)
    requires
        guard.initialized,
        world.wf(),
    ensures
        report_matches(r, settings, world),
{
    let ghost g_diags = world.frontend.diagnostics@;
    let ghost g_contracts = world.frontend.contracts@;
    let ghost g_backend = world.backend@;
    let RunSettings {
        version_text,
        selection,
        optimizer,
        libraries,
        remappings,
        tool_suffix,
        hash_kind,
        backend_version,
    } = settings;
    let sources = adapt(data);
    let mut input = match build_standard_input(
        sources,
        libraries,
        remappings,
        version_text.as_str(),
        selection,
        optimizer,
    ) {
        Ok(inp) => inp,
        Err(e) => {
            return IterationReport { warnings: Vec::new(), result: Err(e) };
        },
    };
    let tool_file = match resolve_tool(&input.version, &tool_suffix, world.tool) {
        Ok(f) => f,
        Err(e) => {
            proof {
                assert(Some(input.version.parts()) == semver_parse(settings.version_text@));
            }
            return IterationReport { warnings: Vec::new(), result: Err(e) };
        },
    };
    input.attach_dispatch(tool_file);
    let ExternalWorld { tool: _, frontend, backend } = world;
    let (mut out, contracts) = output_of_response(frontend);
    let warnings = out.take_warnings();
    proof {
        lemma_of_severity_elements(g_diags, Severity::Error);
        lemma_has_error_iff_errors_nonempty(g_diags);
        assert(has_error(of_severity(g_diags, Severity::Error)) == has_error(g_diags)) by {
            if of_severity(g_diags, Severity::Error).len() > 0 {
                assert(of_severity(g_diags, Severity::Error)[0].severity == Severity::Error);
            }
        };
    }
    let mut out = match out.collect_errors() {
        Ok(o) => o,
        Err(e) => {
            return IterationReport { warnings, result: Err(e) };
        },
    };
    let project = match assemble_project(contracts, input.libraries, selection, input.version) {
        Ok(p) => p,
        Err(e) => {
            return IterationReport { warnings, result: Err(e) };
        },
    };
    let artifacts = match generate_code(&project, hash_kind, backend, guard) {
        Ok(a) => a,
        Err(e) => {
            return IterationReport { warnings, result: Err(e) };
        },
    };
    let Project { frontend_version, .. } = project;
    write_artifacts(&mut out, artifacts, frontend_version, backend_version);
    IterationReport { warnings, result: Ok(out) }
}

/// Totality of classification: whatever the buffer, the settings and the
/// external answers, the iteration terminates in exactly one of the six
/// classified outcomes. An unclassified termination cannot be produced by
/// the pipeline; observing one is the defect signal fuzzing targets.
pub proof fn lemma_every_iteration_classified(s: RunSettings, w: ExternalWorld)
    ensures
        classify_spec(s, w) is Success || classify_spec(s, w) is ConfigurationError
            || classify_spec(s, w) is ToolResolutionError || classify_spec(s, w)
            is CompilationError || classify_spec(s, w) is AssemblyError || classify_spec(s, w)
            is CodeGenError,
{
}

/// Cross-iteration isolation: identical buffers with identical settings and
/// identical external answers classify identically in separate, fresh
/// iterations — no state crosses from one iteration to the next, so any
/// discovered defect is reproducible from its buffer alone.
pub proof fn lemma_iteration_deterministic(
    data1: Seq<u8>,
    s1: RunSettings,
    w1: ExternalWorld,
    data2: Seq<u8>,
    s2: RunSettings,
    w2: ExternalWorld,
)
    requires
        data1 == data2,
        s1 == s2,
        w1 == w2,
    ensures
        classify_spec(s1, w1) == classify_spec(s2, w2),
{
}

/// Success exactly when every stage is clean: the configuration is
/// accepted, the tool is available, the frontend reports no error-severity
/// diagnostic, every contract carries the selected pipeline's schema field,
/// and every backend unit is lowered. With default settings and a minimal
/// well-formed source unit, a clean world therefore reaches success with a
/// diagnostics-free output owning one artifact per unit.
pub proof fn lemma_success_iff_all_stages_clean(s: RunSettings, w: ExternalWorld)
    ensures
        classify_spec(s, w) == Outcome::Success <==> {
            &&& reaches_frontend(s, w)
            &&& !has_error(w.frontend.diagnostics@)
            &&& all_contracts_support(w.frontend.contracts@, s.selection)
            &&& all_units_succeeded(w.backend@)
        },
{
}

/// The error gate short-circuits: when configuration and tool resolution
/// pass and the frontend reports at least one error-severity diagnostic,
/// the iteration classifies as a compilation error — project assembly and
/// code generation are never consulted, and a successful payload is never
/// produced.
pub proof fn lemma_error_gate_short_circuits(s: RunSettings, w: ExternalWorld)
    requires
        reaches_frontend(s, w),
        has_error(w.frontend.diagnostics@),
    ensures
        classify_spec(s, w) == Outcome::CompilationError,
{
}

} // verus!
