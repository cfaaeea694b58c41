use hotload::engine::Action;
use hotload::engine::Engine;
use hotload::evaluator::interpret_response;
use hotload::evaluator::BackendRequest;
use hotload::evaluator::BackendResponse;
use hotload::outcome::EvalError;
use hotload::outcome::EvaluationOutcome;
use hotload::outcome::FailureKind;
use hotload::resolver::EnvSnapshot;
use hotload::transform::fixup_code;

fn resolved_env() -> EnvSnapshot {
    EnvSnapshot {
        override_root: Some(String::from("/backend/root")),
        install_home: None,
        alt_install_home: None,
        active_toolchain: None,
        alt_active_toolchain: None,
        baked_root: None,
    }
}

fn bare_env() -> EnvSnapshot {
    EnvSnapshot {
        override_root: None,
        install_home: None,
        alt_install_home: None,
        active_toolchain: None,
        alt_active_toolchain: None,
        baked_root: None,
    }
}

fn expect_invoke(action: Action) -> BackendRequest {
    match action {
        Action::Invoke(req) => req,
        Action::Report(_) => panic!("expected a backend invocation"),
    }
}

fn expect_report(action: Action) -> EvaluationOutcome {
    match action {
        Action::Report(o) => o,
        Action::Invoke(_) => panic!("expected a report"),
    }
}

#[test]
fn strict_request_carries_unit_and_args() {
    let mut engine = Engine::new(true, 1000);
    let action = engine.step_idle(Some(String::from("let x = 1 + 1;")), &resolved_env());
    let req = expect_invoke(action);
    assert_eq!(req.artifact_name, "autogen_0.rs");
    assert_eq!(req.contents, fixup_code(String::from("let x = 1 + 1;")));
    assert_eq!(req.timeout_ms, 1000);
    assert_eq!(
        req.args,
        vec![
            String::from("rustc"),
            String::from("autogen_0.rs"),
            String::from("--sysroot"),
            String::from("/backend/root"),
            String::from("--"),
        ]
    );
}

#[test]
fn lenient_request_suppresses_validation() {
    let mut engine = Engine::new(false, 1000);
    let action = engine.step_idle(Some(String::from("let x = 1 + 1;")), &resolved_env());
    let req = expect_invoke(action);
    assert_eq!(
        req.args.last().map(String::as_str),
        Some("-Zmiri-disable-validation")
    );
}

#[test]
fn successful_evaluation_reports_defined_value() {
    let mut engine = Engine::new(true, 1000);
    let action = engine.step_idle(Some(String::from("let x = 1 + 1;")), &resolved_env());
    expect_invoke(action);
    let report = engine.step_completed(BackendResponse::Completed(2));
    match report {
        Ok(r) => assert_eq!(r.value, 2),
        Err(_) => panic!("expected a success"),
    }
}

#[test]
fn second_evaluation_hits_cache_without_invoking() {
    let mut engine = Engine::new(true, 1000);
    let first = engine.step_idle(Some(String::from("let x = 1 + 1;")), &resolved_env());
    expect_invoke(first);
    engine.step_completed(BackendResponse::Completed(2));
    let second = engine.step_idle(Some(String::from("let x = 1 + 1;")), &resolved_env());
    match expect_report(second) {
        Ok(r) => assert_eq!(r.value, 2),
        Err(_) => panic!("expected the cached success"),
    }
}

#[test]
fn different_snippet_is_not_a_cache_hit() {
    let mut engine = Engine::new(true, 1000);
    expect_invoke(engine.step_idle(Some(String::from("let x = 1;")), &resolved_env()));
    engine.step_completed(BackendResponse::Completed(1));
    let action = engine.step_idle(Some(String::from("let x = 2;")), &resolved_env());
    expect_invoke(action);
}

#[test]
fn strict_detection_is_reported() {
    let report = interpret_response(
        BackendResponse::Failed(
            FailureKind::UndefinedBehaviorDetected,
            String::from("out-of-bounds access"),
        ),
        true,
    );
    match report {
        Err(EvalError::EvaluationFailure(kind, _)) => {
            assert_eq!(kind, FailureKind::UndefinedBehaviorDetected)
        }
        _ => panic!("expected an evaluation failure"),
    }
}

#[test]
fn suppressed_validation_never_reports_detection() {
    let report = interpret_response(
        BackendResponse::Failed(
            FailureKind::UndefinedBehaviorDetected,
            String::from("out-of-bounds access"),
        ),
        false,
    );
    match report {
        Err(EvalError::EvaluationFailure(kind, _)) => assert_eq!(kind, FailureKind::Aborted),
        _ => panic!("expected an evaluation failure"),
    }
}

#[test]
fn unavailable_backend_reported_every_iteration() {
    let mut engine = Engine::new(true, 1000);
    for _ in 0..3 {
        let action = engine.step_idle(Some(String::from("let x = 1;")), &bare_env());
        match expect_report(action) {
            Err(EvalError::BackendUnavailable(msg)) => assert!(!msg.is_empty()),
            _ => panic!("expected BackendUnavailable"),
        }
    }
}

#[test]
fn timeout_reported_and_not_cached() {
    let mut engine = Engine::new(true, 1000);
    expect_invoke(engine.step_idle(Some(String::from("loop {}")), &resolved_env()));
    let report = engine.step_completed(BackendResponse::Failed(
        FailureKind::TimedOut,
        String::from("budget exceeded"),
    ));
    match report {
        Err(EvalError::EvaluationFailure(kind, _)) => assert_eq!(kind, FailureKind::TimedOut),
        _ => panic!("expected a timeout failure"),
    }
    let next = engine.step_idle(Some(String::from("loop {}")), &resolved_env());
    expect_invoke(next);
}

#[test]
fn cancellation_reported_and_not_cached() {
    let mut engine = Engine::new(true, 1000);
    expect_invoke(engine.step_idle(Some(String::from("loop {}")), &resolved_env()));
    let report = engine.step_cancelled();
    match report {
        Err(EvalError::EvaluationFailure(kind, _)) => assert_eq!(kind, FailureKind::Cancelled),
        _ => panic!("expected a cancellation failure"),
    }
    expect_invoke(engine.step_idle(Some(String::from("loop {}")), &resolved_env()));
}

#[test]
fn program_failure_is_cached() {
    let mut engine = Engine::new(true, 1000);
    expect_invoke(engine.step_idle(Some(String::from("let b = [0]; b[1]")), &resolved_env()));
    engine.step_completed(BackendResponse::Failed(
        FailureKind::UndefinedBehaviorDetected,
        String::from("out-of-bounds access"),
    ));
    let second = engine.step_idle(Some(String::from("let b = [0]; b[1]")), &resolved_env());
    match expect_report(second) {
        Err(EvalError::EvaluationFailure(kind, _)) => {
            assert_eq!(kind, FailureKind::UndefinedBehaviorDetected)
        }
        _ => panic!("expected the cached failure"),
    }
}

#[test]
fn unreadable_source_reported_as_io_failure() {
    let mut engine = Engine::new(true, 1000);
    let action = engine.step_idle(None, &resolved_env());
    match expect_report(action) {
        Err(EvalError::IoFailure(msg)) => assert!(!msg.is_empty()),
        _ => panic!("expected an I/O failure"),
    }
}
