//! The fuzz harness driver: one byte buffer per invocation, one full
//! pipeline run, one classified conclusion — then back to idle.

use vstd::prelude::*;
use crate::codegen::BackendInitGuard;
use crate::outcome::Outcome;
use crate::pipeline::{classify_spec, report_matches, run_iteration, ExternalWorld,
    IterationReport, RunSettings};

verus! {

/// The driver's life around one iteration. Completed and Crashed record the
/// classified outcome the iteration concluded with.
#[derive(Clone, Copy, PartialEq, Eq, Structural, Debug)]
pub enum DriverState {
    Idle,
    Running,
    Completed(Outcome),
    Crashed(Outcome),
}

/// Fatal outcomes crash the driver so the fuzz engine reports the buffer:
/// an internal backend failure on diagnostics-clean input is itself a
/// finding, while the other classified errors are expected, recoverable
/// rejections of malformed input — the goal is finding defects in the
/// compiler, not flagging well-formed rejections.
pub open spec fn is_fatal(o: Outcome) -> bool {
    o is CodeGenError
}

/// The driver. Everything it touches is created and discarded within one
/// iteration; only its state survives, and it is reset before the next
/// buffer.
pub struct Driver {
    pub state: DriverState,
}

impl Driver {
    pub fn new() -> (r: Driver)
        ensures
            r.state is Idle,
    {
        Driver { state: DriverState::Idle }
    }

    /// A delivered buffer moves an idle driver to running.
    pub fn begin(&mut self)
        requires
            old(self).state is Idle,
        ensures
            final(self).state is Running,
    {
        self.state = DriverState::Running;
    }

    /// A classified outcome concludes the running iteration: completed for
    /// graceful outcomes — success and the expected rejections alike — and
    /// crashed for fatal ones.
    pub fn conclude(&mut self, outcome: Outcome)
        requires
            old(self).state is Running,
        ensures
            is_fatal(outcome) ==> final(self).state == DriverState::Crashed(outcome),
            !is_fatal(outcome) ==> final(self).state == DriverState::Completed(outcome),
    {
        match outcome {
            Outcome::CodeGenError => {
                self.state = DriverState::Crashed(outcome);
            },
            _ => {
                self.state = DriverState::Completed(outcome);
            },
        }
    }

    /// Back to idle before the next buffer is delivered.
    pub fn reset(&mut self)
        requires
            old(self).state is Completed || old(self).state is Crashed,
        ensures
            final(self).state is Idle,
    {
        self.state = DriverState::Idle;
    }

    /// Drives the full pipeline once for one delivered buffer and concludes
    /// with its classification. The conclusion depends only on the buffer,
    /// the settings and the external answers — never on earlier iterations.
    pub fn run_buffer(
        &mut self,
        data: &Vec<u8>,
        settings: RunSettings,
        world: ExternalWorld,
        guard: &BackendInitGuard,
    ) -> (r: IterationReport)
        requires
            old(self).state is Idle,
            guard.initialized,
            world.wf(),
        ensures
            report_matches(r, settings, world),
            is_fatal(classify_spec(settings, world)) ==> final(self).state == DriverState::Crashed(
                classify_spec(settings, world),
            ),
            !is_fatal(classify_spec(settings, world)) ==> final(self).state
                == DriverState::Completed(classify_spec(settings, world)),
    {
        self.begin();
        let report = run_iteration(data, settings, world, guard);
        let outcome = report.classify();
        self.conclude(outcome);
        report
    }
}

} // verus!
