//! The evaluation loop's state machine.
//!
//! The engine has two states: idle between iterations, and evaluating while
//! one snippet is in flight. On each tick the host hands it the snippet it
//! read (or the fact that reading failed) and an environment snapshot; the
//! engine transforms, fingerprints, consults the cache, resolves the
//! backend, and answers with the one action the host must take: report an
//! outcome, or invoke the backend. When an invocation completes or is
//! cancelled the host hands the result back and the engine produces the
//! iteration's report, memoizing it when the outcome reflects the program
//! itself. Every step is total: the loop can always take its next tick.

use vstd::prelude::*;

use crate::cache::ResultCache;
use crate::evaluator::interpret_spec;
use crate::evaluator::interpret_response;
use crate::evaluator::build_request;
use crate::evaluator::request_spec;
use crate::evaluator::BackendRequest;
use crate::evaluator::BackendResponse;
use crate::evaluator::RequestView;
use crate::evaluator::ResponseView;
use crate::fingerprint::fingerprint_key;
use crate::fingerprint::Fingerprint;
use crate::outcome::cacheable;
use crate::outcome::dup_outcome;
use crate::outcome::outcome_view;
use crate::outcome::EvalError;
use crate::outcome::EvalErrorView;
use crate::outcome::EvaluationOutcome;
use crate::outcome::FailureKind;
use crate::outcome::MiriReturn;
use crate::outcome::OutcomeView;
use crate::resolver::opt_str_view;
use crate::resolver::resolve_backend;
use crate::resolver::resolved_root;
use crate::resolver::unavailable_guidance;
use crate::resolver::EnvSnapshot;
use crate::resolver::EnvView;
use crate::transform::fixup_code;
use crate::transform::transformed;
use vstd::pervasive::unreached;

verus! {

/// The loop's two states.
pub enum LoopState {
    /// Between iterations.
    Idle,
    /// One snippet in flight, remembered by its fingerprint.
    Evaluating(Fingerprint),
}

/// Mathematical image of a [`LoopState`].
pub enum StateView {
    Idle,
    Evaluating((Seq<char>, bool)),
}

/// What the host must do next.
pub enum Action {
    /// Emit this iteration's one report line for this outcome.
    Report(EvaluationOutcome),
    /// Materialize the request's artifact and invoke the backend.
    Invoke(BackendRequest),
}

/// Mathematical image of an [`Action`].
pub enum ActionView {
    Report(OutcomeView),
    Invoke(RequestView),
}

impl View for Action {
    type V = ActionView;

    open spec fn view(&self) -> ActionView {
        match self {
            Action::Report(o) => ActionView::Report(outcome_view(o)),
            Action::Invoke(r) => ActionView::Invoke(r@),
        }
    }
}

/// The note reported when the snippet source could not be read.
pub open spec fn read_failure_note() -> Seq<char> {
    "could not read the snippet source"@
}

/// The note reported when the caller cancels an evaluation in flight.
pub open spec fn cancelled_note() -> Seq<char> {
    "evaluation cancelled by the caller"@
}

/// The model of the cache: fingerprint key to outcome.
pub type CacheModel = Map<(Seq<char>, bool), OutcomeView>;

/// What one idle tick decides: the action taken and the state entered.
/// The cache is never changed by a tick.
pub struct IdleStep {
    pub action: ActionView,
    pub state: StateView,
}

/// The decision of one tick taken in the idle state: an unreadable source
/// is reported as an I/O failure; a cached fingerprint is reported from the
/// cache without touching the backend; otherwise the backend is resolved
/// and, if available, invoked on the transformed snippet, else the
/// resolution failure is reported.
pub open spec fn idle_step_spec(
    cache: CacheModel,
    strict: bool,
    timeout_ms: u64,
    snippet: Option<Seq<char>>,
    env: EnvView,
) -> IdleStep {
    match snippet {
        None => IdleStep {
            action: ActionView::Report(Err(EvalErrorView::IoFailure(read_failure_note()))),
            state: StateView::Idle,
        },
        Some(s) => {
            let key = fingerprint_key(s, strict);
            if cache.contains_key(key) {
                IdleStep { action: ActionView::Report(cache[key]), state: StateView::Idle }
            } else {
                match resolved_root(env) {
                    None => IdleStep {
                        action: ActionView::Report(
                            Err(EvalErrorView::BackendUnavailable(unavailable_guidance())),
                        ),
                        state: StateView::Idle,
                    },
                    Some(root) => IdleStep {
                        action: ActionView::Invoke(
                            request_spec(transformed(s), root, strict, timeout_ms),
                        ),
                        state: StateView::Evaluating(key),
                    },
                }
            }
        },
    }
}

/// What completing an evaluation decides: the report, and the cache after
/// memoization. Only an outcome that reflects the program itself is stored,
/// and only if its fingerprint holds nothing yet (write-once).
pub struct DoneStep {
    pub report: OutcomeView,
    pub cache: CacheModel,
}

pub open spec fn done_step_spec(
    cache: CacheModel,
    strict: bool,
    key: (Seq<char>, bool),
    resp: ResponseView,
) -> DoneStep {
    let o = interpret_spec(resp, strict);
    DoneStep {
        report: o,
        cache: if cacheable(o) && !cache.contains_key(key) {
            cache.insert(key, o)
        } else {
            cache
        },
    }
}

/// The sandboxed, cached evaluation engine: strictness and timeout
/// configuration, the result cache, and the loop state.
pub struct Engine {
    strict: bool,
    timeout_ms: u64,
    cache: ResultCache,
    state: LoopState,
}

impl Engine {
    /// The cache never holds two outcomes for one fingerprint.
    pub closed spec fn wf(&self) -> bool {
        self.cache.wf()
    }

    /// The strictness flag the engine evaluates under.
    pub closed spec fn strictness(&self) -> bool {
        self.strict
    }

    /// The configured evaluation timeout, in milliseconds.
    pub closed spec fn timeout(&self) -> u64 {
        self.timeout_ms
    }

    /// The outcomes memoized so far.
    pub closed spec fn cache_model(&self) -> CacheModel {
        self.cache@
    }

    /// The loop state.
    pub closed spec fn state_model(&self) -> StateView {
        match self.state {
            LoopState::Idle => StateView::Idle,
            LoopState::Evaluating(fp) => StateView::Evaluating(fp@),
        }
    }

    /// A fresh engine: idle, with an empty cache.
    pub fn new(strict: bool, timeout_ms: u64) -> (r: Engine)
        ensures
            r.wf(),
            r.strictness() == strict,
            r.timeout() == timeout_ms,
            r.cache_model() == Map::<(Seq<char>, bool), OutcomeView>::empty(),
            r.state_model() is Idle,
    {
        Engine { strict, timeout_ms, cache: ResultCache::new(), state: LoopState::Idle }
    }

    /// One tick of the idle loop: decide this iteration's action from the
    /// snippet the host read (or failed to read) and the environment
    /// snapshot. The cache and the configuration are unchanged; the state
    /// and the action are exactly what [`idle_step_spec`] decides.
    pub fn step_idle(&mut self, snippet: Option<String>, env: &EnvSnapshot) -> (action: Action)
        requires
            old(self).wf(),
            old(self).state_model() is Idle,
        ensures
            final(self).wf(),
            final(self).strictness() == old(self).strictness(),
            final(self).timeout() == old(self).timeout(),
            final(self).cache_model() == old(self).cache_model(),
            ({
                let step = idle_step_spec(
                    old(self).cache_model(),
                    old(self).strictness(),
                    old(self).timeout(),
                    opt_str_view(&snippet),
                    env@,
                );
                action@ == step.action && final(self).state_model() == step.state
            }),
    {
        match snippet {
            None => Action::Report(
                Err(EvalError::IoFailure(String::from_str("could not read the snippet source"))),
            ),
            Some(s) => {
                let fp = Fingerprint::new(s.clone(), self.strict);
                let cached = match self.cache.lookup(&fp) {
                    Some(o) => Some(dup_outcome(o)),
                    None => None,
                };
                match cached {
                    Some(o) => Action::Report(o),
                    None => {
                        match resolve_backend(env) {
                            Err(e) => Action::Report(Err(e)),
                            Ok(h) => {
                                let unit = fixup_code(s);
                                let req = build_request(unit, &h, self.strict, self.timeout_ms);
                                self.state = LoopState::Evaluating(fp);
                                Action::Invoke(req)
                            },
                        }
                    },
                }
            },
        }
    }

    /// Completion of the evaluation in flight: translate the backend's
    /// response into this iteration's report, memoize it when it reflects
    /// the program itself, and return to idle. The report and the new cache
    /// are exactly what [`done_step_spec`] decides.
    pub fn step_completed(&mut self, resp: BackendResponse) -> (report: EvaluationOutcome)
        requires
            old(self).wf(),
            old(self).state_model() is Evaluating,
        ensures
            final(self).wf(),
            final(self).strictness() == old(self).strictness(),
            final(self).timeout() == old(self).timeout(),
            final(self).state_model() is Idle,
            ({
                match old(self).state_model() {
                    StateView::Evaluating(key) => {
                        let step = done_step_spec(
                            old(self).cache_model(),
                            old(self).strictness(),
                            key,
                            resp@,
                        );
                        outcome_view(&report) == step.report && final(self).cache_model()
                            == step.cache
                    },
                    StateView::Idle => true,
                }
            }),
    {
        let fp = match &self.state {
            LoopState::Evaluating(fp) => fp.dup(),
            LoopState::Idle => unreached(),
        };
        let report = interpret_response(resp, self.strict);
        if is_cacheable(&report) {
            self.cache.store(fp, dup_outcome(&report));
        }
        self.state = LoopState::Idle;
        report
    }

    /// Cancellation of the evaluation in flight: the report is a cancelled
    /// failure, nothing is memoized (cancellation reflects caller-side
    /// impatience, not program behavior), and the engine returns to idle.
    pub fn step_cancelled(&mut self) -> (report: EvaluationOutcome)
        requires
            old(self).wf(),
            old(self).state_model() is Evaluating,
        ensures
            final(self).wf(),
            final(self).strictness() == old(self).strictness(),
            final(self).timeout() == old(self).timeout(),
            final(self).cache_model() == old(self).cache_model(),
            final(self).state_model() is Idle,
            outcome_view(&report) == Err::<MiriReturn, EvalErrorView>(
                EvalErrorView::EvaluationFailure(FailureKind::Cancelled, cancelled_note()),
            ),
    {
        self.state = LoopState::Idle;
        Err(
            EvalError::EvaluationFailure(
                FailureKind::Cancelled,
                String::from_str("evaluation cancelled by the caller"),
            ),
        )
    }
}

/// Whether an outcome may be memoized.
fn is_cacheable(o: &EvaluationOutcome) -> (r: bool)
    ensures
        r == cacheable(outcome_view(o)),
{
    match o {
        Ok(_) => true,
        Err(EvalError::EvaluationFailure(k, _)) => !(*k == FailureKind::TimedOut || *k
            == FailureKind::Cancelled),
        Err(_) => false,
    }
}

/// Law: a snippet is evaluated at most once. If a first evaluation of a
/// snippet completes with an outcome that reflects the program (so it is
/// memoized), then a second tick for the same snippet under the same
/// strictness reports that very outcome from the cache and does not invoke
/// the backend — whatever the environment looks like by then.
pub proof fn lemma_second_evaluation_hits_cache(
    cache: CacheModel,
    strict: bool,
    timeout_ms: u64,
    s: Seq<char>,
    resp: ResponseView,
    env: EnvView,
)
    requires
        !cache.contains_key(fingerprint_key(s, strict)),
        cacheable(interpret_spec(resp, strict)),
    ensures
        ({
            let done = done_step_spec(cache, strict, fingerprint_key(s, strict), resp);
            let second = idle_step_spec(done.cache, strict, timeout_ms, Some(s), env);
            second.action == ActionView::Report(done.report) && second.state is Idle
        }),
{
}

/// Law: while no backend root resolves, every iteration of the loop reports
/// `BackendUnavailable` and leaves the engine exactly as it was — idle,
/// cache untouched — so the next tick behaves the same way until the
/// environment changes. No step of the engine can panic the host: every
/// step is a total, verified function.
pub proof fn lemma_unavailable_backend_reported_every_iteration(
    cache: CacheModel,
    strict: bool,
    timeout_ms: u64,
    s: Seq<char>,
    env: EnvView,
)
    requires
        resolved_root(env) is None,
        !cache.contains_key(fingerprint_key(s, strict)),
    ensures
        ({
            let step = idle_step_spec(cache, strict, timeout_ms, Some(s), env);
            step.action == ActionView::Report(
                Err(EvalErrorView::BackendUnavailable(unavailable_guidance())),
            ) && step.state is Idle
        }),
{
}

/// Law: a timed-out evaluation is reported as such, is never memoized, and
/// leaves no trace: every following tick decides exactly as it would have
/// before the timed-out iteration.
pub proof fn lemma_timeout_not_cached(
    cache: CacheModel,
    strict: bool,
    timeout_ms: u64,
    key: (Seq<char>, bool),
    message: Seq<char>,
)
    ensures
        ({
            let done = done_step_spec(
                cache,
                strict,
                key,
                ResponseView::Failed(FailureKind::TimedOut, message),
            );
            done.report == Err::<MiriReturn, EvalErrorView>(
                EvalErrorView::EvaluationFailure(FailureKind::TimedOut, message),
            ) && done.cache == cache && forall|snippet: Option<Seq<char>>, env: EnvView|
                idle_step_spec(done.cache, strict, timeout_ms, snippet, env) == idle_step_spec(
                    cache,
                    strict,
                    timeout_ms,
                    snippet,
                    env,
                )
        }),
{
}

} // verus!
