//! The project assembly stage: a diagnostics-clean response becomes the
//! transient project that code generation consumes.

use vstd::prelude::*;
use crate::config::{ContractLibraries, PipelineSelection};
use crate::frontend::ContractReport;
use crate::outcome::PipelineError;
use crate::version::ParsedVersion;

verus! {

/// The intermediate project: contracts, their library remappings, the
/// selected pipeline and the frontend version descriptor. Owned exclusively
/// by code generation and discarded within the iteration.
#[derive(Debug)]
pub struct Project {
    pub contracts: Vec<ContractReport>,
    pub libraries: Vec<ContractLibraries>,
    pub selection: PipelineSelection,
    pub frontend_version: ParsedVersion,
}

/// True when the response carries, for this contract, the schema field that
/// the selected pipeline consumes downstream.
pub open spec fn contract_supports(c: ContractReport, selection: PipelineSelection) -> bool {
    match selection {
        PipelineSelection::EvmAssembly => c.has_evm_assembly,
        PipelineSelection::Yul => c.has_ir,
    }
}

pub open spec fn all_contracts_support(
    cs: Seq<ContractReport>,
    selection: PipelineSelection,
) -> bool {
    forall|i: int| 0 <= i < cs.len() ==> contract_supports(#[trigger] cs[i], selection)
}

/// True when some contract carrying this name lacks the schema field for
/// the selected pipeline.
pub open spec fn unsupported_contract_named(
    cs: Seq<ContractReport>,
    selection: PipelineSelection,
    name: String,
) -> bool {
    exists|i: int|
        0 <= i < cs.len() && !contract_supports(#[trigger] cs[i], selection) && cs[i].name@
            == name@
}

/// Assembles the project. Fails exactly when some contract report lacks the
/// schema field expected for the selected pipeline — signalling frontend
/// version skew or a malformed response, classified apart from compilation
/// errors — and then names such a contract.
pub fn assemble_project(
    contracts: Vec<ContractReport>,
    libraries: Vec<ContractLibraries>,
    selection: PipelineSelection,
    frontend_version: ParsedVersion,
) -> (r: Result<Project, PipelineError>)
    ensures
        r is Ok <==> all_contracts_support(contracts@, selection),
        r matches Ok(p) ==> p == (Project { contracts, libraries, selection, frontend_version }),
        r matches Err(e) ==> e matches PipelineError::Assembly(name) && unsupported_contract_named(
            contracts@,
            selection,
            name,
        ),
{
    let n = contracts.len();
    let mut i: usize = 0;
    while i < n
        invariant
            i <= n,
            n == contracts@.len(),
            forall|k: int| 0 <= k < i ==> contract_supports(#[trigger] contracts@[k], selection),
        decreases n - i,
    {
        let supported = match selection {
            PipelineSelection::EvmAssembly => contracts[i].has_evm_assembly,
            PipelineSelection::Yul => contracts[i].has_ir,
        };
        if !supported {
            let name = contracts[i].name.clone();
            proof {
                assert(!contract_supports(contracts@[i as int], selection));
                assert(unsupported_contract_named(contracts@, selection, name));
            }
            return Err(PipelineError::Assembly(name));
        }
        i = i + 1;
    }
    Ok(Project { contracts, libraries, selection, frontend_version })
}

} // verus!
