//! The code generation stage: per-unit backend results become build
//! artifacts, behind a process-wide initialize-once guard.

use vstd::prelude::*;
use crate::frontend::ContractReport;
use crate::outcome::PipelineError;
use crate::output::{BuildArtifact, HashKind};
use crate::project::Project;

verus! {

/// The backend target being initialized and lowered to.
#[derive(Clone, Copy, PartialEq, Eq, Structural, Debug)]
pub enum TargetSelection {
    EraVm,
    Evm,
}

/// Process-wide, initialize-once state of the target backend: explicit
/// guard, not a hidden singleton. Initialization happens at most once and
/// the guard is read-only afterwards.
#[derive(Clone, Copy, PartialEq, Eq, Structural, Debug)]
pub struct BackendInitGuard {
    pub target: TargetSelection,
    pub initialized: bool,
}

impl BackendInitGuard {
    pub fn new(target: TargetSelection) -> (r: BackendInitGuard)
        ensures
            r.target == target,
            !r.initialized,
    {
        BackendInitGuard { target, initialized: false }
    }

    /// One-time-execution guard: returns whether the caller must perform
    /// the process-wide initialization now. Idempotent: after the first
    /// call the guard stays initialized and no further call asks for work.
    pub fn require_init(&mut self) -> (perform: bool)
        ensures
            final(self).target == old(self).target,
            final(self).initialized,
            perform == !old(self).initialized,
    {
        let perform = !self.initialized;
        self.initialized = true;
        perform
    }
}

/// What the backend returned for one compilation unit.
#[derive(Debug)]
pub enum BackendUnitOutcome {
    Code { bytecode: Vec<u8>, hash: String },
    Failure { message: String },
}

pub open spec fn unit_succeeded(u: BackendUnitOutcome) -> bool {
    u is Code
}

/// True when the unit result is a failure carrying exactly this message.
pub open spec fn failure_with(u: BackendUnitOutcome, m: String) -> bool {
    match u {
        BackendUnitOutcome::Failure { message } => message == m,
        BackendUnitOutcome::Code { .. } => false,
    }
}

/// The artifact that a successful backend result for a contract must yield:
/// the contract's name, the returned bytecode and content hash, and the
/// selected hash algorithm.
pub open spec fn artifact_matches(
    a: BuildArtifact,
    c: ContractReport,
    u: BackendUnitOutcome,
    k: HashKind,
) -> bool {
    match u {
        BackendUnitOutcome::Code { bytecode, hash } => a.contract@ == c.name@ && a.bytecode
            == bytecode && a.hash == hash && a.hash_kind == k,
        BackendUnitOutcome::Failure { .. } => false,
    }
}

pub open spec fn all_units_succeeded(rs: Seq<BackendUnitOutcome>) -> bool {
    forall|i: int| 0 <= i < rs.len() ==> unit_succeeded(#[trigger] rs[i])
}

pub open spec fn some_unit_failed_with(rs: Seq<BackendUnitOutcome>, m: String) -> bool {
    exists|i: int| 0 <= i < rs.len() && failure_with(#[trigger] rs[i], m)
}

/// One artifact per unit: each in the position of its contract, built from
/// that contract's backend result.
pub open spec fn artifacts_correspond(
    arts: Seq<BuildArtifact>,
    cs: Seq<ContractReport>,
    rs: Seq<BackendUnitOutcome>,
    k: HashKind,
) -> bool {
    arts.len() == rs.len() && (forall|i: int|
        0 <= i < rs.len() ==> artifact_matches(#[trigger] arts[i], cs[i], rs[i], k))
}

/// Folds the backend's per-unit results into one build artifact per
/// compilation unit. Requires the target backend to have been initialized.
/// Fails exactly when some unit failed — rare on well-formed projects, and
/// itself a high-value finding under fuzzing — carrying that unit's message.
pub fn generate_code(
    project: &Project,
    hash_kind: HashKind,
    results: Vec<BackendUnitOutcome>,
    guard: &BackendInitGuard,
) -> (r: Result<Vec<BuildArtifact>, PipelineError>)
    requires
        guard.initialized,
        results@.len() == project.contracts@.len(),
    ensures
        r is Ok <==> all_units_succeeded(results@),
        r matches Ok(arts) ==> artifacts_correspond(
            arts@,
            project.contracts@,
            results@,
            hash_kind,
        ),
        r matches Err(e) ==> e matches PipelineError::CodeGen(m) && some_unit_failed_with(
            results@,
            m,
        ),
{
    let ghost all = results@;
    let n = results.len();
    let mut rem = results;
    let mut arts: Vec<BuildArtifact> = Vec::new();
    let mut idx: usize = 0;
    #[verifier::loop_isolation(false)]
    while rem.len() > 0
        invariant
            idx == arts@.len(),
            idx + rem@.len() == n,
            rem@ == all.skip(idx as int),
            forall|k: int|
                0 <= k < idx ==> unit_succeeded(#[trigger] all[k]) && artifact_matches(
                    arts@[k],
                    project.contracts@[k],
                    all[k],
                    hash_kind,
                ),
        decreases rem@.len(),
    {
        let ghost before = rem@;
        let u = rem.remove(0);
        proof {
            assert(rem@ =~= before.drop_first());
            assert(u == all[idx as int]);
            assert(rem@ =~= all.skip(idx as int + 1));
        }
        match u {
            BackendUnitOutcome::Code { bytecode, hash } => {
                let name = project.contracts[idx].name.clone();
                arts.push(BuildArtifact { contract: name, bytecode, hash, hash_kind });
            },
            BackendUnitOutcome::Failure { message } => {
                proof {
                    assert(failure_with(all[idx as int], message));
                    assert(some_unit_failed_with(all, message));
                    assert(!all_units_succeeded(all));
                }
                return Err(PipelineError::CodeGen(message));
            },
        }
        idx = idx + 1;
    }
    Ok(arts)
}

} // verus!
