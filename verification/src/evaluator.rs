//! The sandboxed evaluator's boundary: the invocation request handed to the
//! host, and the translation of whatever the backend reports back into an
//! evaluation outcome.
//!
//! The backend runs outside this library (as a subordinate process or an
//! in-process call); the host materializes the request's artifact, invokes
//! the backend under the request's arguments and timeout, and hands back a
//! [`BackendResponse`]. Interpreting that response is verified here, for
//! every value the host may hand back.

use vstd::prelude::*;

use crate::outcome::EvalError;
use crate::outcome::EvalErrorView;
use crate::outcome::EvaluationOutcome;
use crate::outcome::FailureKind;
use crate::outcome::MiriReturn;
use crate::outcome::OutcomeView;
use crate::outcome::outcome_view;
use crate::resolver::BackendHandle;

verus! {

/// One backend invocation, fully determined by the compiled unit, the
/// resolved backend root, the strictness flag and the configured timeout.
pub struct BackendRequest {
    /// The name of the ephemeral artifact the unit is materialized to.
    /// Fixed, so each invocation deterministically overwrites the last
    /// artifact and never appends to stale state.
    pub artifact_name: String,
    /// The compiled unit to write into the artifact.
    pub contents: String,
    /// The arguments of the backend invocation.
    pub args: Vec<String>,
    /// The budget after which the host abandons the evaluation.
    pub timeout_ms: u64,
}

/// Mathematical image of a [`BackendRequest`].
pub struct RequestView {
    pub artifact_name: Seq<char>,
    pub contents: Seq<char>,
    pub args: Seq<Seq<char>>,
    pub timeout_ms: u64,
}

/// The mathematical image of a list of strings.
pub open spec fn strings_view(v: Seq<String>) -> Seq<Seq<char>> {
    v.map_values(|s: String| s@)
}

impl View for BackendRequest {
    type V = RequestView;

    open spec fn view(&self) -> RequestView {
        RequestView {
            artifact_name: self.artifact_name@,
            contents: self.contents@,
            args: strings_view(self.args@),
            timeout_ms: self.timeout_ms,
        }
    }
}

/// The name of the ephemeral artifact.
pub open spec fn artifact_name_spec() -> Seq<char> {
    "autogen_0.rs"@
}

/// The arguments of a backend invocation on the artifact, given the
/// resolved root: the driver name, the artifact, the backend root, and —
/// only when strictness is off — the flag that suppresses the backend's
/// undefined-behavior validation.
pub open spec fn request_args(root: Seq<char>, strict: bool) -> Seq<Seq<char>> {
    let base = seq![
        "rustc"@,
        artifact_name_spec(),
        "--sysroot"@,
        root,
        "--"@,
    ];
    if strict {
        base
    } else {
        base.push("-Zmiri-disable-validation"@)
    }
}

/// The full request for evaluating a compiled unit under a backend root,
/// strictness flag and timeout.
pub open spec fn request_spec(
    unit: Seq<char>,
    root: Seq<char>,
    strict: bool,
    timeout_ms: u64,
) -> RequestView {
    RequestView {
        artifact_name: artifact_name_spec(),
        contents: unit,
        args: request_args(root, strict),
        timeout_ms,
    }
}

/// Build the invocation request for a compiled unit.
pub fn build_request(unit: String, handle: &BackendHandle, strict: bool, timeout_ms: u64) -> (r:
    BackendRequest)
    ensures
        r@ == request_spec(unit@, handle.root@, strict, timeout_ms),
{
    let mut args: Vec<String> = Vec::new();
    args.push(String::from_str("rustc"));
    args.push(String::from_str("autogen_0.rs"));
    args.push(String::from_str("--sysroot"));
    args.push(handle.root.clone());
    args.push(String::from_str("--"));
    if !strict {
        args.push(String::from_str("-Zmiri-disable-validation"));
    }
    let r = BackendRequest {
        artifact_name: String::from_str("autogen_0.rs"),
        contents: unit,
        args,
        timeout_ms,
    };
    proof {
        assert(strings_view(r.args@) =~= request_args(handle.root@, strict));
        assert(r@ =~= request_spec(unit@, handle.root@, strict, timeout_ms));
    }
    r
}

/// What the host reports back from one backend invocation, at the isolation
/// boundary: either the unit ran to completion with a value, or the backend
/// reported a structured violation (including an abort the host translated
/// into an error rather than letting it crash the loop).
pub enum BackendResponse {
    Completed(usize),
    Failed(FailureKind, String),
}

/// Mathematical image of a [`BackendResponse`].
pub enum ResponseView {
    Completed(usize),
    Failed(FailureKind, Seq<char>),
}

impl View for BackendResponse {
    type V = ResponseView;

    open spec fn view(&self) -> ResponseView {
        match self {
            BackendResponse::Completed(v) => ResponseView::Completed(*v),
            BackendResponse::Failed(k, m) => ResponseView::Failed(*k, m@),
        }
    }
}

/// Whether an outcome reports detected undefined behavior.
pub open spec fn reports_undefined_behavior(o: OutcomeView) -> bool {
    match o {
        Err(EvalErrorView::EvaluationFailure(k, _)) => k
            == FailureKind::UndefinedBehaviorDetected,
        _ => false,
    }
}

/// The outcome a backend response stands for under a strictness flag.
/// With strictness off, undefined-behavior validation was suppressed in
/// the request, so a detection report cannot be trusted to mean validation
/// ran: it is normalized to an abort.
pub open spec fn interpret_spec(r: ResponseView, strict: bool) -> OutcomeView {
    match r {
        ResponseView::Completed(v) => Ok(MiriReturn { value: v }),
        ResponseView::Failed(k, m) => if !strict && k == FailureKind::UndefinedBehaviorDetected {
            Err(EvalErrorView::EvaluationFailure(FailureKind::Aborted, m))
        } else {
            Err(EvalErrorView::EvaluationFailure(k, m))
        },
    }
}

/// Translate a backend response into this iteration's outcome.
pub fn interpret_response(resp: BackendResponse, strict: bool) -> (r: EvaluationOutcome)
    ensures
        outcome_view(&r) == interpret_spec(resp@, strict),
        !strict ==> !reports_undefined_behavior(outcome_view(&r)),
{
    match resp {
        BackendResponse::Completed(v) => Ok(MiriReturn { value: v }),
        BackendResponse::Failed(k, m) => {
            if !strict && k == FailureKind::UndefinedBehaviorDetected {
                Err(EvalError::EvaluationFailure(FailureKind::Aborted, m))
            } else {
                Err(EvalError::EvaluationFailure(k, m))
            }
        },
    }
}

/// Law: with strictness off, no response ever yields an outcome of detected
/// undefined behavior — the validation was suppressed, so nothing may claim
/// its result.
pub proof fn lemma_no_detection_without_validation(r: ResponseView)
    ensures
        !reports_undefined_behavior(interpret_spec(r, false)),
{
}

} // verus!
