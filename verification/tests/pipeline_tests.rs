use solfuzz::codegen::{BackendInitGuard, BackendUnitOutcome, TargetSelection};
use solfuzz::config::{build_standard_input, OptimizerSettings, PipelineSelection};
use solfuzz::diagnostics::{Diagnostic, Severity, SourceLocation};
use solfuzz::driver::{Driver, DriverState};
use solfuzz::frontend::{resolve_tool, ContractReport, FrontendResponse, ToolStatus};
use solfuzz::outcome::{Outcome, PipelineError};
use solfuzz::output::HashKind;
use solfuzz::pipeline::{run_iteration, ExternalWorld, RunSettings};
use solfuzz::project::assemble_project;
use solfuzz::source::adapt;
use solfuzz::version::parse_version;

const MAIN_CODE: &str = r#"
// SPDX-License-Identifier: MIT

pragma solidity >=0.4.12;

contract Test {
    uint256 value;

    function set(uint256 x) external {
        value = x;
    }

    function get() external view returns(uint256) {
        return value;
    }
}
"#;

fn warning(text: &str) -> Diagnostic {
    Diagnostic { severity: Severity::Warning, message: text.to_owned(), location: None }
}

fn error_at(text: &str, line: u64) -> Diagnostic {
    Diagnostic {
        severity: Severity::Error,
        message: text.to_owned(),
        location: Some(SourceLocation { file: "main.sol".to_owned(), line, column: 1 }),
    }
}

fn default_settings() -> RunSettings {
    RunSettings {
        version_text: "0.8.27".to_owned(),
        selection: PipelineSelection::EvmAssembly,
        optimizer: OptimizerSettings::cycles(),
        libraries: Vec::new(),
        remappings: None,
        tool_suffix: Vec::new(),
        hash_kind: HashKind::Ipfs,
        backend_version: parse_version("1.5.0").unwrap(),
    }
}

fn clean_world() -> ExternalWorld {
    ExternalWorld {
        tool: ToolStatus::Available,
        frontend: FrontendResponse {
            diagnostics: vec![warning("unused variable")],
            contracts: vec![ContractReport {
                name: "Test".to_owned(),
                has_evm_assembly: true,
                has_ir: true,
            }],
        },
        backend: vec![BackendUnitOutcome::Code {
            bytecode: vec![0x60, 0x80, 0x60, 0x40],
            hash: "QmArtifact".to_owned(),
        }],
    }
}

fn ready_guard() -> BackendInitGuard {
    let mut guard = BackendInitGuard::new(TargetSelection::EraVm);
    let must = guard.require_init();
    assert!(must);
    guard
}

#[test]
fn minimal_source_reaches_success() {
    let data = MAIN_CODE.as_bytes().to_vec();
    let guard = ready_guard();
    let report = run_iteration(&data, default_settings(), clean_world(), &guard);
    assert_eq!(report.classify(), Outcome::Success);
    let out = report.result.expect("success");
    assert!(out.diagnostics.is_empty());
    let payload = out.payload.expect("payload");
    assert_eq!(payload.artifacts.len(), 1);
    assert_eq!(payload.artifacts[0].contract, "Test");
    assert!(!payload.artifacts[0].bytecode.is_empty());
    assert_eq!(payload.artifacts[0].hash, "QmArtifact");
    assert_eq!(payload.frontend_version.minor, 8);
    assert_eq!(payload.backend_version.minor, 5);
    // the warning was forwarded on the informational channel
    assert_eq!(report.warnings.len(), 1);
    assert_eq!(report.warnings[0].message, "unused variable");
}

#[test]
fn empty_buffer_reaches_compilation_error() {
    let data = Vec::new();
    assert_eq!(adapt(&data).unit_count(), 1);
    let world = ExternalWorld {
        tool: ToolStatus::Available,
        frontend: FrontendResponse {
            diagnostics: vec![error_at("no contract found", 1)],
            contracts: Vec::new(),
        },
        backend: Vec::new(),
    };
    let guard = ready_guard();
    let report = run_iteration(&data, default_settings(), world, &guard);
    assert_eq!(report.classify(), Outcome::CompilationError);
    match report.result {
        Err(PipelineError::Compilation(diags)) => {
            assert_eq!(diags.len(), 1);
            assert_eq!(diags[0].message, "no contract found");
        }
        _ => panic!("expected a compilation failure"),
    }
}

#[test]
fn malformed_tokens_short_circuit_before_assembly() {
    let data = b"{{{".to_vec();
    let world = ExternalWorld {
        tool: ToolStatus::Available,
        frontend: FrontendResponse {
            diagnostics: vec![warning("pragma missing"), error_at("unmatched brace", 1)],
            contracts: Vec::new(),
        },
        backend: Vec::new(),
    };
    let guard = ready_guard();
    let report = run_iteration(&data, default_settings(), world, &guard);
    assert_eq!(report.classify(), Outcome::CompilationError);
    // warnings were still emitted, and no payload was ever produced
    assert_eq!(report.warnings.len(), 1);
    assert_eq!(report.warnings[0].message, "pragma missing");
    assert!(report.result.is_err());
}

#[test]
fn undecodable_buffer_still_classifies() {
    let data = vec![0xff, 0xfe, 0x80];
    assert_eq!(adapt(&data).unit_count(), 0);
    let world = ExternalWorld {
        tool: ToolStatus::Available,
        frontend: FrontendResponse {
            diagnostics: vec![error_at("no sources given", 1)],
            contracts: Vec::new(),
        },
        backend: Vec::new(),
    };
    let guard = ready_guard();
    let report = run_iteration(&data, default_settings(), world, &guard);
    assert_eq!(report.classify(), Outcome::CompilationError);
}

#[test]
fn malformed_version_reaches_configuration_error() {
    let mut settings = default_settings();
    settings.version_text = "banana".to_owned();
    let guard = ready_guard();
    let report = run_iteration(&b"x".to_vec(), settings, clean_world(), &guard);
    assert_eq!(report.classify(), Outcome::ConfigurationError);
    assert!(report.warnings.is_empty());
}

#[test]
fn invalid_optimizer_reaches_configuration_error() {
    let mut settings = default_settings();
    settings.optimizer =
        OptimizerSettings { enabled: true, aggressiveness: 9, fallback_to_size: false };
    let guard = ready_guard();
    let report = run_iteration(&b"x".to_vec(), settings, clean_world(), &guard);
    assert_eq!(report.classify(), Outcome::ConfigurationError);
}

#[test]
fn absent_tool_reaches_tool_resolution_error() {
    let mut world = clean_world();
    world.tool = ToolStatus::Absent;
    let guard = ready_guard();
    let report = run_iteration(&b"x".to_vec(), default_settings(), world, &guard);
    assert_eq!(report.classify(), Outcome::ToolResolutionError);
    match report.result {
        Err(PipelineError::ToolResolution(file)) => assert_eq!(file, b"solc-0.8.27".to_vec()),
        _ => panic!("expected a tool resolution failure"),
    }
}

#[test]
fn missing_schema_field_reaches_assembly_error() {
    let mut world = clean_world();
    world.frontend.contracts[0].has_evm_assembly = false;
    let guard = ready_guard();
    let report = run_iteration(&b"x".to_vec(), default_settings(), world, &guard);
    assert_eq!(report.classify(), Outcome::AssemblyError);
    match report.result {
        Err(PipelineError::Assembly(name)) => assert_eq!(name, "Test"),
        _ => panic!("expected an assembly failure"),
    }
}

#[test]
fn yul_selection_reads_the_ir_field() {
    let mut settings = default_settings();
    settings.selection = PipelineSelection::Yul;
    let mut world = clean_world();
    world.frontend.contracts[0].has_evm_assembly = false;
    world.frontend.contracts[0].has_ir = true;
    let guard = ready_guard();
    let report = run_iteration(&b"x".to_vec(), settings, world, &guard);
    assert_eq!(report.classify(), Outcome::Success);
}

#[test]
fn backend_failure_reaches_code_gen_error() {
    let mut world = clean_world();
    world.backend =
        vec![BackendUnitOutcome::Failure { message: "internal lowering fault".to_owned() }];
    let guard = ready_guard();
    let report = run_iteration(&b"x".to_vec(), default_settings(), world, &guard);
    assert_eq!(report.classify(), Outcome::CodeGenError);
    match report.result {
        Err(PipelineError::CodeGen(message)) => assert_eq!(message, "internal lowering fault"),
        _ => panic!("expected a code generation failure"),
    }
}

#[test]
fn identical_buffers_classify_identically() {
    let data = MAIN_CODE.as_bytes().to_vec();
    let guard = ready_guard();
    let first = run_iteration(&data, default_settings(), clean_world(), &guard);
    let second = run_iteration(&data, default_settings(), clean_world(), &guard);
    assert_eq!(first.classify(), second.classify());

    let bad = b"{{{".to_vec();
    let bad_world = || ExternalWorld {
        tool: ToolStatus::Available,
        frontend: FrontendResponse {
            diagnostics: vec![error_at("unmatched brace", 1)],
            contracts: Vec::new(),
        },
        backend: Vec::new(),
    };
    let third = run_iteration(&bad, default_settings(), bad_world(), &guard);
    let fourth = run_iteration(&bad, default_settings(), bad_world(), &guard);
    assert_eq!(third.classify(), fourth.classify());
}

#[test]
fn driver_completes_on_graceful_outcomes() {
    let mut driver = Driver::new();
    assert_eq!(driver.state, DriverState::Idle);
    let guard = ready_guard();
    let report =
        driver.run_buffer(&MAIN_CODE.as_bytes().to_vec(), default_settings(), clean_world(), &guard);
    assert_eq!(report.classify(), Outcome::Success);
    assert_eq!(driver.state, DriverState::Completed(Outcome::Success));
    driver.reset();
    assert_eq!(driver.state, DriverState::Idle);

    let mut world = clean_world();
    world.tool = ToolStatus::NotExecutable;
    driver.run_buffer(&b"x".to_vec(), default_settings(), world, &guard);
    assert_eq!(driver.state, DriverState::Completed(Outcome::ToolResolutionError));
}

#[test]
fn driver_crashes_on_backend_failure() {
    let mut driver = Driver::new();
    let guard = ready_guard();
    let mut world = clean_world();
    world.backend = vec![BackendUnitOutcome::Failure { message: "fault".to_owned() }];
    let report = driver.run_buffer(&b"x".to_vec(), default_settings(), world, &guard);
    assert_eq!(report.classify(), Outcome::CodeGenError);
    assert_eq!(driver.state, DriverState::Crashed(Outcome::CodeGenError));
    driver.reset();
    assert_eq!(driver.state, DriverState::Idle);
}

#[test]
fn init_guard_is_idempotent() {
    let mut guard = BackendInitGuard::new(TargetSelection::EraVm);
    assert!(!guard.initialized);
    assert!(guard.require_init());
    assert!(guard.initialized);
    assert!(!guard.require_init());
    assert!(guard.initialized);
}

#[test]
fn builder_keeps_request_fields() {
    let sources = adapt(&MAIN_CODE.as_bytes().to_vec());
    let input = build_standard_input(
        sources,
        Vec::new(),
        Some(vec!["lib/=node_modules/lib/".to_owned()]),
        "0.8.27",
        PipelineSelection::EvmAssembly,
        OptimizerSettings::cycles(),
    )
    .expect("accepted");
    assert_eq!(input.sources.unit_count(), 1);
    assert_eq!(input.version.major, 0);
    assert_eq!(input.version.patch, 27);
    assert_eq!(input.remappings, Some(vec!["lib/=node_modules/lib/".to_owned()]));
    assert!(input.dispatch.is_none());
}

#[test]
fn resolve_tool_reports_both_failure_kinds() {
    let v = parse_version("0.8.27").unwrap();
    assert!(resolve_tool(&v, &Vec::new(), ToolStatus::Available).is_ok());
    assert!(matches!(
        resolve_tool(&v, &Vec::new(), ToolStatus::Absent),
        Err(PipelineError::ToolResolution(_))
    ));
    assert!(matches!(
        resolve_tool(&v, &Vec::new(), ToolStatus::NotExecutable),
        Err(PipelineError::ToolResolution(_))
    ));
}

#[test]
fn assembly_names_the_offending_contract() {
    let contracts = vec![
        ContractReport { name: "A".to_owned(), has_evm_assembly: true, has_ir: false },
        ContractReport { name: "B".to_owned(), has_evm_assembly: false, has_ir: true },
    ];
    let v = parse_version("0.8.27").unwrap();
    match assemble_project(contracts, Vec::new(), PipelineSelection::EvmAssembly, v) {
        Err(PipelineError::Assembly(name)) => assert_eq!(name, "B"),
        _ => panic!("expected an assembly failure"),
    }
}
