//! The configuration builder: pure construction and validation of the
//! structured compiler request.

use vstd::prelude::*;
use crate::outcome::PipelineError;
use crate::source::SourceSet;
use crate::version::{ParsedVersion, parse_version, semver_parse};

verus! {

/// The intermediate-representation strategy, deciding the downstream
/// code-generation branch.
#[derive(Clone, Copy, PartialEq, Eq, Structural, Debug)]
pub enum PipelineSelection {
    EvmAssembly,
    Yul,
}

pub const MAX_AGGRESSIVENESS: u8 = 3;

/// Optimizer settings, an immutable record built once per run.
#[derive(Clone, Copy, PartialEq, Eq, Structural, Debug)]
pub struct OptimizerSettings {
    pub enabled: bool,
    /// Aggressiveness level, `0` through `MAX_AGGRESSIVENESS`.
    pub aggressiveness: u8,
    /// Fall back to optimizing for size when a unit grows too large.
    pub fallback_to_size: bool,
}

impl OptimizerSettings {
    pub open spec fn wf(self) -> bool {
        self.aggressiveness <= MAX_AGGRESSIVENESS
    }

    /// The most aggressive settings, tuned for run-time performance.
    pub fn cycles() -> (r: OptimizerSettings)
        ensures
            r == (OptimizerSettings { enabled: true, aggressiveness: 3, fallback_to_size: false }),
            r.wf(),
    {
        OptimizerSettings { enabled: true, aggressiveness: 3, fallback_to_size: false }
    }
}

/// One placeholder symbol of a library contract, resolved to an address.
#[derive(Clone, Debug)]
pub struct LibrarySymbol {
    pub placeholder: String,
    pub address: String,
}

/// The library remappings of one contract.
#[derive(Clone, Debug)]
pub struct ContractLibraries {
    pub contract: String,
    pub symbols: Vec<LibrarySymbol>,
}

/// Metadata attached when the request is dispatched to the frontend.
#[derive(Clone, Debug)]
pub struct DispatchMetadata {
    pub tool_file: Vec<u8>,
}

/// The structured compiler request. It owns a copy of the source set, the
/// remappings, the selection and the optimizer settings; only the frontend
/// invocation stage attaches dispatch metadata.
#[derive(Debug)]
pub struct StandardInput {
    pub sources: SourceSet,
    pub libraries: Vec<ContractLibraries>,
    pub remappings: Option<Vec<String>>,
    pub selection: PipelineSelection,
    pub optimizer: OptimizerSettings,
    pub version: ParsedVersion,
    pub dispatch: Option<DispatchMetadata>,
}

impl StandardInput {
    pub open spec fn wf(self) -> bool {
        self.sources.wf() && self.optimizer.wf()
    }

    /// Attaches dispatch metadata. Reserved to the frontend invocation
    /// stage; everything else about the request is left unchanged.
    pub fn attach_dispatch(&mut self, tool_file: Vec<u8>)
        ensures
            *final(self) == (StandardInput {
                dispatch: Some(DispatchMetadata { tool_file: tool_file }),
                ..*old(self)
            }),
    {
        self.dispatch = Some(DispatchMetadata { tool_file });
    }
}

/// True when the configuration builder accepts these inputs: the version
/// identifier parses as a semantic version and the optimizer record is
/// structurally valid.
pub open spec fn config_accepted(version_text: Seq<char>, optimizer: OptimizerSettings) -> bool {
    semver_parse(version_text) is Some && optimizer.wf()
}

/// Builds the structured request. Pure construction: it fails with a
/// configuration failure exactly when the version identifier is not a valid
/// semantic version or the optimizer settings are structurally invalid.
pub fn build_standard_input(
    sources: SourceSet,
    libraries: Vec<ContractLibraries>,
    remappings: Option<Vec<String>>,
    version_text: &str,
    selection: PipelineSelection,
    optimizer: OptimizerSettings,
) -> (r: Result<StandardInput, PipelineError>)
    requires
        sources.wf(),
    ensures
        r is Ok <==> config_accepted(version_text@, optimizer),
        r matches Ok(inp) ==> {
            &&& inp.wf()
            &&& inp.sources == sources
            &&& inp.libraries == libraries
            &&& inp.remappings == remappings
            &&& inp.selection == selection
            &&& inp.optimizer == optimizer
            &&& Some(inp.version.parts()) == semver_parse(version_text@)
            &&& inp.dispatch is None
        },
        r matches Err(e) ==> e is Configuration,
{
    if optimizer.aggressiveness > MAX_AGGRESSIVENESS {
        return Err(PipelineError::Configuration);
    }
    match parse_version(version_text) {
        Some(version) => Ok(
            StandardInput {
                sources,
                libraries,
                remappings,
                selection,
                optimizer,
                version,
                dispatch: None,
            },
        ),
        None => Err(PipelineError::Configuration),
    }
}

} // verus!
