//! The result of evaluating one snippet, and the failure taxonomy.

use vstd::prelude::*;

verus! {

/// The success value produced by running one compiled unit to completion.
#[derive(Debug, Copy, Clone, PartialEq, Eq, Structural)]
pub struct MiriReturn {
    pub value: usize,
}

/// How a single evaluation failed once the backend actually ran,
/// or why the host gave up on it.
#[derive(Debug, Copy, Clone, PartialEq, Eq, Structural)]
pub enum FailureKind {
    /// The backend rejected the unit before running it.
    RejectedAtBuild,
    /// The unit started but aborted (panic or similar) during execution.
    Aborted,
    /// The backend's validation detected undefined behavior in the unit.
    UndefinedBehaviorDetected,
    /// The evaluation exceeded the configured timeout.
    TimedOut,
    /// The caller cancelled the evaluation before it completed.
    Cancelled,
    /// Any other backend-reported condition.
    Other,
}

/// Everything that can go wrong in one iteration of the evaluation loop.
#[derive(Debug)]
pub enum EvalError {
    /// Reserved for future input validation; never produced today.
    TransformError,
    /// No execution backend could be resolved; the message carries
    /// remediation guidance (which override variables may be set).
    BackendUnavailable(String),
    /// The backend ran but the snippet itself failed.
    EvaluationFailure(FailureKind, String),
    /// The snippet source was unreadable or an artifact unwritable.
    IoFailure(String),
}

/// Mathematical image of an [`EvalError`]: the same shape over `Seq<char>`.
pub enum EvalErrorView {
    TransformError,
    BackendUnavailable(Seq<char>),
    EvaluationFailure(FailureKind, Seq<char>),
    IoFailure(Seq<char>),
}

impl View for EvalError {
    type V = EvalErrorView;

    open spec fn view(&self) -> EvalErrorView {
        match self {
            EvalError::TransformError => EvalErrorView::TransformError,
            EvalError::BackendUnavailable(m) => EvalErrorView::BackendUnavailable(m@),
            EvalError::EvaluationFailure(k, m) => EvalErrorView::EvaluationFailure(*k, m@),
            EvalError::IoFailure(m) => EvalErrorView::IoFailure(m@),
        }
    }
}

/// The outcome of one evaluation: a success value or a failure descriptor.
pub type EvaluationOutcome = Result<MiriReturn, EvalError>;

/// Mathematical image of an [`EvaluationOutcome`].
pub type OutcomeView = Result<MiriReturn, EvalErrorView>;

pub open spec fn outcome_view(o: &EvaluationOutcome) -> OutcomeView {
    match o {
        Ok(r) => Ok(*r),
        Err(e) => Err(e@),
    }
}

/// An outcome may be memoized only when it reflects the program itself:
/// a completed run, or a failure of the unit that the backend reported.
/// Timeouts reflect the configured budget and cancellations reflect
/// caller-side impatience, so neither is ever cached; loop-level errors
/// (no backend, unreadable source) never reach the cache at all.
pub open spec fn cacheable(o: OutcomeView) -> bool {
    match o {
        Ok(_) => true,
        Err(EvalErrorView::EvaluationFailure(k, _)) => k != FailureKind::TimedOut
            && k != FailureKind::Cancelled,
        Err(_) => false,
    }
}

/// An owned copy of an error, with the same mathematical image.
pub fn dup_error(e: &EvalError) -> (r: EvalError)
    ensures
        r@ == e@,
{
    match e {
        EvalError::TransformError => EvalError::TransformError,
        EvalError::BackendUnavailable(m) => EvalError::BackendUnavailable(m.clone()),
        EvalError::EvaluationFailure(k, m) => EvalError::EvaluationFailure(*k, m.clone()),
        EvalError::IoFailure(m) => EvalError::IoFailure(m.clone()),
    }
}

/// An owned copy of an outcome, with the same mathematical image.
pub fn dup_outcome(o: &EvaluationOutcome) -> (r: EvaluationOutcome)
    ensures
        outcome_view(&r) == outcome_view(o),
{
    match o {
        Ok(v) => Ok(*v),
        Err(e) => Err(dup_error(e)),
    }
}

} // verus!
