use std::time::Duration;

use auraed::error::Code;
use auraed::executables::{Executables, ExecutablesError};
use auraed::isolation::{Isolation, IsolationControls, IsolationStep};
use auraed::retry::{
    classify_call_error, classify_dial_error, next_action, AttemptOutcome, Retry, RetryAction,
    MAX_ELAPSED_MS,
};

fn controls(process: bool, network: bool) -> IsolationControls {
    IsolationControls { isolate_process: process, isolate_network: network }
}

#[test]
fn isolation_is_a_no_op_without_flags() {
    let iso = Isolation::new("alpha");
    let off = controls(false, false);
    assert!(iso.setup(&off).is_empty());
    assert!(iso.isolate_process(&off).is_empty());
    assert!(iso.isolate_network(&controls(false, true)).is_empty());
    assert!(iso.plan(&off).is_empty());
    let ns = controls(false, true).namespaces();
    assert!(ns.network && !ns.mount && !ns.pid && !ns.uts);
}

#[test]
fn process_isolation_steps_in_order() {
    let iso = Isolation::new("alpha");
    let plan = iso.plan(&controls(true, false));
    assert_eq!(plan.len(), 4);
    assert!(matches!(plan[0], IsolationStep::BindRootPrivate));
    assert!(matches!(plan[1], IsolationStep::MountProc));
    assert!(matches!(&plan[2], IsolationStep::SetHostname { name } if name == "alpha"));
    assert!(matches!(&plan[3], IsolationStep::SetDomainname { name } if name == "alpha"));
    let ns = controls(true, false).namespaces();
    assert!(ns.mount && ns.pid && ns.uts && !ns.network);
}

#[test]
fn transport_errors_are_transient() {
    assert_eq!(classify_call_error(Code::Unknown, "transport error"), AttemptOutcome::Transient);
    assert_eq!(classify_call_error(Code::Unknown, "transport errors"), AttemptOutcome::Permanent);
    assert_eq!(classify_call_error(Code::Unknown, "other"), AttemptOutcome::Permanent);
    assert_eq!(classify_call_error(Code::Internal, "transport error"), AttemptOutcome::Permanent);
    assert_eq!(classify_dial_error(true), AttemptOutcome::Transient);
    assert_eq!(classify_dial_error(false), AttemptOutcome::Permanent);
}

#[test]
fn retry_decisions() {
    assert_eq!(next_action(0, AttemptOutcome::Succeeded, 10, None), (RetryAction::Done, 0));
    assert_eq!(next_action(5, AttemptOutcome::Permanent, 10, Some(1)), (RetryAction::Fail, 5));
    assert_eq!(
        next_action(100, AttemptOutcome::Transient, 10, Some(50)),
        (RetryAction::Retry { delay_ms: 50 }, 160)
    );
    assert_eq!(next_action(100, AttemptOutcome::Transient, 10, None), (RetryAction::GiveUp, 100));
    assert_eq!(
        next_action(19_950, AttemptOutcome::Transient, 10, Some(40)),
        (RetryAction::Retry { delay_ms: 40 }, MAX_ELAPSED_MS)
    );
    assert_eq!(next_action(19_950, AttemptOutcome::Transient, 10, Some(41)), (RetryAction::GiveUp, 19_950));
    assert_eq!(next_action(0, AttemptOutcome::Transient, u64::MAX, Some(u64::MAX)), (RetryAction::GiveUp, 0));
}

fn backoff() -> backoff::ExponentialBackoff {
    backoff::ExponentialBackoffBuilder::new()
        .with_initial_interval(Duration::from_millis(50))
        .with_multiplier(10.0)
        .with_randomization_factor(0.5)
        .with_max_interval(Duration::from_secs(3))
        .with_max_elapsed_time(Some(Duration::from_secs(20)))
        .build()
}

#[test]
fn transient_failure_then_success() {
    let mut retry = Retry::new(backoff());
    let first = retry.on_attempt(AttemptOutcome::Transient, 5);
    match first {
        RetryAction::Retry { delay_ms } => {
            assert!((25..=75).contains(&delay_ms), "{delay_ms}");
            assert_eq!(retry.elapsed_ms(), 5 + delay_ms);
        }
        other => panic!("unexpected {other:?}"),
    }
    let spent = retry.elapsed_ms();
    assert_eq!(retry.on_attempt(AttemptOutcome::Succeeded, 5), RetryAction::Done);
    assert_eq!(retry.elapsed_ms(), spent);
}

#[test]
fn retries_stop_within_budget() {
    let mut retry = Retry::new(backoff());
    let mut n = 0;
    loop {
        match retry.on_attempt(AttemptOutcome::Transient, 1000) {
            RetryAction::Retry { .. } => n += 1,
            RetryAction::GiveUp => break,
            other => panic!("unexpected {other:?}"),
        }
        assert!(retry.elapsed_ms() <= MAX_ELAPSED_MS);
        assert!(n < 100);
    }
    assert!(n >= 1);
}

#[test]
fn executable_table_names_are_unique() {
    let mut table = Executables::new();
    assert_eq!(table.check_start(&"sleeper".to_string()), Ok(()));
    table.start("sleeper".to_string(), 42).unwrap();
    assert_eq!(
        table.start("sleeper".to_string(), 43),
        Err(ExecutablesError::ExecutableExists { name: "sleeper".to_string() })
    );
    assert!(table.check_start(&"sleeper".to_string()).is_err());
    assert_eq!(
        table.stop(&"other".to_string()),
        Err(ExecutablesError::ExecutableNotFound { name: "other".to_string() })
    );
    assert_eq!(table.stop(&"sleeper".to_string()), Ok(42));
    assert!(table.stop(&"sleeper".to_string()).is_err());
}
