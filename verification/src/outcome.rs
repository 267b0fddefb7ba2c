//! The classified outcomes of one fuzz iteration and the error taxonomy
//! shared by all pipeline stages.

use vstd::prelude::*;
use crate::diagnostics::Diagnostic;

verus! {

/// Exactly one of these classifies every iteration. Anything else — an
/// unclassified termination — is the defect signal fuzzing looks for.
#[derive(Clone, Copy, PartialEq, Eq, Structural, Debug)]
pub enum Outcome {
    Success,
    ConfigurationError,
    ToolResolutionError,
    CompilationError,
    AssemblyError,
    CodeGenError,
}

/// A classified stage failure, carrying what the failing stage knew.
#[derive(Debug)]
pub enum PipelineError {
    /// The version identifier was malformed or a settings field was
    /// structurally invalid.
    Configuration,
    /// The frontend executable was absent or not executable; carries the
    /// file name that was looked for.
    ToolResolution(Vec<u8>),
    /// The frontend reported error-severity diagnostics; carries them.
    Compilation(Vec<Diagnostic>),
    /// A response contract lacked the schema field expected for the selected
    /// pipeline, signalling version skew or a malformed response; carries
    /// the contract name.
    Assembly(String),
    /// The backend failed on a compilation unit; carries its message.
    CodeGen(String),
}

/// The classification that each stage failure terminates with.
pub open spec fn outcome_of_error(e: PipelineError) -> Outcome {
    match e {
        PipelineError::Configuration => Outcome::ConfigurationError,
        PipelineError::ToolResolution(_) => Outcome::ToolResolutionError,
        PipelineError::Compilation(_) => Outcome::CompilationError,
        PipelineError::Assembly(_) => Outcome::AssemblyError,
        PipelineError::CodeGen(_) => Outcome::CodeGenError,
    }
}

/// The classification of a stage result: success, or the failure's class.
pub open spec fn spec_outcome<T>(r: Result<T, PipelineError>) -> Outcome {
    match r {
        Ok(_) => Outcome::Success,
        Err(e) => outcome_of_error(e),
    }
}

/// Maps a stage failure to its classification.
pub fn classify_error(e: &PipelineError) -> (o: Outcome)
    ensures
        o == outcome_of_error(*e),
{
    match e {
        PipelineError::Configuration => Outcome::ConfigurationError,
        PipelineError::ToolResolution(_) => Outcome::ToolResolutionError,
        PipelineError::Compilation(_) => Outcome::CompilationError,
        PipelineError::Assembly(_) => Outcome::AssemblyError,
        PipelineError::CodeGen(_) => Outcome::CodeGenError,
    }
}

} // verus!
