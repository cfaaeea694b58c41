//! A sandboxed, cached script-evaluation engine.
//!
//! The engine repeatedly turns a raw snippet of code into a runnable unit,
//! resolves an execution backend from an environment snapshot, asks the host
//! to invoke that backend under a chosen strictness mode, and caches each
//! completed outcome under a content-addressed fingerprint so that the same
//! snippet is never executed twice.

pub mod cache;
pub mod engine;
pub mod evaluator;
pub mod fingerprint;
pub mod outcome;
pub mod resolver;
pub mod toolchain;
pub mod transform;

pub use outcome::EvalError;
pub use outcome::EvaluationOutcome;
pub use outcome::FailureKind;
pub use outcome::MiriReturn;
