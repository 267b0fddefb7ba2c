//! The frontend invocation stage: resolving the external executable by its
//! deterministic name, and receiving the structured response.

use vstd::prelude::*;
use crate::diagnostics::Diagnostic;
use crate::outcome::PipelineError;
use crate::output::StandardOutput;
use crate::version::{ParsedVersion, tool_file_name, tool_file_name_bytes};

verus! {

/// What the host found at the resolved executable path.
#[derive(Clone, Copy, PartialEq, Eq, Structural, Debug)]
pub enum ToolStatus {
    Available,
    Absent,
    NotExecutable,
}

/// Per-contract slice of the frontend's structured response: the contract
/// name and which intermediate-representation fields the response carries.
#[derive(Debug)]
pub struct ContractReport {
    pub name: String,
    pub has_evm_assembly: bool,
    pub has_ir: bool,
}

/// The frontend's structured response document: per-contract reports and
/// diagnostics tagged with a severity.
#[derive(Debug)]
pub struct FrontendResponse {
    pub diagnostics: Vec<Diagnostic>,
    pub contracts: Vec<ContractReport>,
}

/// Tool resolution: the executable resource is named by the deterministic
/// convention; the stage fails exactly when the resource is absent or not
/// executable, carrying the file name it looked for.
pub fn resolve_tool(v: &ParsedVersion, suffix: &Vec<u8>, status: ToolStatus) -> (r: Result<
    Vec<u8>,
    PipelineError,
>)
    ensures
        r is Ok <==> status is Available,
        r matches Ok(f) ==> f@ == tool_file_name_bytes(*v, suffix@),
        r matches Err(e) ==> e matches PipelineError::ToolResolution(f) && f@
            == tool_file_name_bytes(*v, suffix@),
{
    let name = tool_file_name(v, suffix);
    match status {
        ToolStatus::Available => Ok(name),
        ToolStatus::Absent => Err(PipelineError::ToolResolution(name)),
        ToolStatus::NotExecutable => Err(PipelineError::ToolResolution(name)),
    }
}

/// Receives the frontend's response: a fresh output document owning the
/// response diagnostics and no payload yet, beside the contract reports.
pub fn output_of_response(response: FrontendResponse) -> (r: (StandardOutput, Vec<ContractReport>))
    ensures
        r.0.diagnostics == response.diagnostics,
        r.0.payload is None,
        r.1 == response.contracts,
{
    let FrontendResponse { diagnostics, contracts } = response;
    (StandardOutput { diagnostics, payload: None }, contracts)
}

} // verus!
