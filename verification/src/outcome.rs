//! The tagged result of one speculative candidate's verification.

use vstd::prelude::*;

verus! {

/// How one verification attempt ended.  Any failure is candidate-local and
/// decisive: the candidate is abandoned, never retried.
#[derive(Debug)]
pub enum VerificationOutcome {
    Success,
    CheckFailed(String),
    BuildFailed(String),
    DocCompileFailed(String),
    ToolingError(String),
}

} // verus!
