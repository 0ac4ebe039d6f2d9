//! Verification Pipeline: the staged validation run once per surviving
//! candidate — compile-check, then release build, then documentation-example
//! compilation.  The stages run outside the library; this module owes the
//! routing: which stage comes next, and which outcome a failure yields.

use vstd::prelude::*;
use crate::outcome::VerificationOutcome;

verus! {

/// The stage whose result the run is waiting for.
#[derive(Clone, Copy, Debug, PartialEq, Eq, Structural)]
pub enum Stage {
    Check,
    Build,
    DocTest,
}

/// One staged verification run.  `doc_testable` is false for modules with no
/// documentation-testable library target; their documentation stage is
/// skipped entirely.
#[derive(Clone, Copy, Debug, PartialEq, Eq, Structural)]
pub struct PipelineRun {
    pub all_features: bool,
    pub doc_testable: bool,
    pub stage: Stage,
}

/// What one stage result leads to: the next stage to run, or the run's end.
#[derive(Debug)]
pub enum PipelineStep {
    Continue(PipelineRun),
    Done(VerificationOutcome),
}

/// The routing rule: a failing stage aborts the run with that stage's outcome
/// kind, a passing stage moves to the next applicable one, and the run
/// succeeds after its last applicable stage.  No stage is retried.
pub open spec fn spec_on_result(run: PipelineRun, ok: bool, detail: String) -> PipelineStep {
    match run.stage {
        Stage::Check => if !ok {
            PipelineStep::Done(VerificationOutcome::CheckFailed(detail))
        } else {
            PipelineStep::Continue(PipelineRun { stage: Stage::Build, ..run })
        },
        Stage::Build => if !ok {
            PipelineStep::Done(VerificationOutcome::BuildFailed(detail))
        } else if run.doc_testable {
            PipelineStep::Continue(PipelineRun { stage: Stage::DocTest, ..run })
        } else {
            PipelineStep::Done(VerificationOutcome::Success)
        },
        Stage::DocTest => if !ok {
            PipelineStep::Done(VerificationOutcome::DocCompileFailed(detail))
        } else {
            PipelineStep::Done(VerificationOutcome::Success)
        },
    }
}

impl PipelineRun {
    /// A fresh run under the session's feature mode, at the compile-check
    /// stage.
    pub fn start(all_features: bool, doc_testable: bool) -> (r: PipelineRun)
        ensures
            r == (PipelineRun { all_features, doc_testable, stage: Stage::Check }),
    {
        PipelineRun { all_features, doc_testable, stage: Stage::Check }
    }

    /// Routes one stage's result.
    pub fn on_result(self, ok: bool, detail: String) -> (r: PipelineStep)
        ensures
            r == spec_on_result(self, ok, detail),
    {
        match self.stage {
            Stage::Check => if !ok {
                PipelineStep::Done(VerificationOutcome::CheckFailed(detail))
            } else {
                PipelineStep::Continue(
                    PipelineRun {
                        all_features: self.all_features,
                        doc_testable: self.doc_testable,
                        stage: Stage::Build,
                    },
                )
            },
            Stage::Build => if !ok {
                PipelineStep::Done(VerificationOutcome::BuildFailed(detail))
            } else if self.doc_testable {
                PipelineStep::Continue(
                    PipelineRun {
                        all_features: self.all_features,
                        doc_testable: self.doc_testable,
                        stage: Stage::DocTest,
                    },
                )
            } else {
                PipelineStep::Done(VerificationOutcome::Success)
            },
            Stage::DocTest => if !ok {
                PipelineStep::Done(VerificationOutcome::DocCompileFailed(detail))
            } else {
                PipelineStep::Done(VerificationOutcome::Success)
            },
        }
    }
}

/// A run ends in `Success` only on a passing result at its last applicable
/// stage, and a run continues only on a passing result — so an outcome of
/// `Success` is reached only through a pass of every applicable stage.
pub proof fn lemma_success_needs_passes(run: PipelineRun, ok: bool, detail: String)
    ensures
        (spec_on_result(run, ok, detail) matches PipelineStep::Done(o) && o is Success) ==> (ok && (
        (run.stage is Build && !run.doc_testable) || run.stage is DocTest)),
        spec_on_result(run, ok, detail) is Continue ==> ok,
        (spec_on_result(run, ok, detail) matches PipelineStep::Continue(r2) ==> r2.all_features
            == run.all_features && r2.doc_testable == run.doc_testable),
{
}

/// The outcome of feeding a whole sequence of stage results to a run, one by
/// one: `None` when the sequence is too short or goes past the run's end.
pub open spec fn spec_run_outcome(run: PipelineRun, results: Seq<(bool, String)>) -> Option<
    VerificationOutcome,
>
    decreases results.len(),
{
    if results.len() == 0 {
        None
    } else {
        match spec_on_result(run, results[0].0, results[0].1) {
            PipelineStep::Done(o) => if results.len() == 1 {
                Some(o)
            } else {
                None
            },
            PipelineStep::Continue(r2) => spec_run_outcome(
                r2,
                results.subrange(1, results.len() as int),
            ),
        }
    }
}

/// A whole run ends in `Success` only when every stage result it consumed —
/// that is, every applicable stage — passed.
pub proof fn lemma_run_success_means_all_passed(run: PipelineRun, results: Seq<(bool, String)>)
    requires
        spec_run_outcome(run, results) matches Some(o) && o is Success,
    ensures
        forall|i: int| 0 <= i < results.len() ==> (#[trigger] results[i]).0,
    decreases results.len(),
{
    match spec_on_result(run, results[0].0, results[0].1) {
        PipelineStep::Done(o) => {
        },
        PipelineStep::Continue(r2) => {
            let rest = results.subrange(1, results.len() as int);
            lemma_run_success_means_all_passed(r2, rest);
            assert forall|i: int| 0 <= i < results.len() implies (#[trigger] results[i]).0 by {
                if i > 0 {
                    assert(rest[i - 1] == results[i]);
                }
            }
        },
    }
}

} // verus!
