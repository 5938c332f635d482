//! Terminal outcomes and the cell that holds them.
use kameo::actor::{
    ActorLifecycle, ActorStateAbsence, ActorTerminalOutcome, ActorTerminalReason,
};
use kameo::error::{ActorStopReason, PanicError};

fn stop_reasons() -> Vec<(ActorStopReason, ActorTerminalReason)> {
    vec![
        (ActorStopReason::Normal, ActorTerminalReason::Stopped),
        (ActorStopReason::SupervisorRestart, ActorTerminalReason::SupervisorRestart),
        (ActorStopReason::Killed, ActorTerminalReason::Killed),
        (
            ActorStopReason::Panicked(PanicError { message: String::from("boom") }),
            ActorTerminalReason::Panicked,
        ),
        (
            ActorStopReason::LinkDied { id: 7, reason: Box::new(ActorStopReason::Killed) },
            ActorTerminalReason::LinkDied,
        ),
        (ActorStopReason::PeerDisconnected, ActorTerminalReason::PeerDisconnected),
    ]
}

#[test]
fn terminal_reason_follows_stop_reason() {
    for (stop, terminal) in stop_reasons() {
        assert_eq!(ActorTerminalReason::from_stop_reason(&stop), terminal);
    }
}

#[test]
fn only_stopped_and_supervisor_restart_are_normal() {
    assert!(ActorTerminalReason::Stopped.is_normal());
    assert!(ActorTerminalReason::SupervisorRestart.is_normal());
    for reason in [
        ActorTerminalReason::StartupFailed,
        ActorTerminalReason::Killed,
        ActorTerminalReason::Panicked,
        ActorTerminalReason::LinkDied,
        ActorTerminalReason::CleanupFailed,
        ActorTerminalReason::PeerDisconnected,
    ] {
        assert!(!reason.is_normal(), "{reason:?}");
    }
}

#[test]
fn dropped_outcome_keeps_the_reason() {
    for (stop, terminal) in stop_reasons() {
        let outcome = ActorTerminalOutcome::dropped(stop);
        assert_eq!(outcome.state, ActorStateAbsence::Dropped);
        assert_eq!(outcome.reason, terminal);
    }
}

#[test]
fn startup_failure_outcome_was_never_allocated() {
    let outcome = ActorTerminalOutcome::startup_failed();
    assert_eq!(outcome.state, ActorStateAbsence::NeverAllocated);
    assert_eq!(outcome.reason, ActorTerminalReason::StartupFailed);
}

#[test]
fn cleanup_failure_outcome_is_dropped() {
    let outcome = ActorTerminalOutcome::cleanup_failed();
    assert_eq!(outcome.state, ActorStateAbsence::Dropped);
    assert_eq!(outcome.reason, ActorTerminalReason::CleanupFailed);
}

#[test]
fn peer_disconnect_outcome_is_dropped() {
    let outcome = ActorTerminalOutcome::peer_disconnected();
    assert_eq!(outcome.state, ActorStateAbsence::Dropped);
    assert_eq!(outcome.reason, ActorTerminalReason::PeerDisconnected);
}

#[test]
fn stop_reason_clone_keeps_nested_reasons() {
    let reason = ActorStopReason::LinkDied {
        id: 3,
        reason: Box::new(ActorStopReason::Panicked(PanicError { message: String::from("inner") })),
    };
    match reason.clone() {
        ActorStopReason::LinkDied { id, reason } => {
            assert_eq!(id, 3);
            match *reason {
                ActorStopReason::Panicked(error) => assert_eq!(error.message, "inner"),
                other => panic!("unexpected inner reason {other:?}"),
            }
        }
        other => panic!("unexpected reason {other:?}"),
    }
}

#[test]
fn new_lifecycle_has_no_outcome() {
    let lifecycle = ActorLifecycle::new();
    assert!(!lifecycle.is_terminated());
    assert_eq!(lifecycle.terminal_outcome(), None);
    assert!(lifecycle.outcome_cell().get().is_none());
}

#[test]
fn published_outcome_is_shown_to_clones() {
    let lifecycle = ActorLifecycle::new();
    let clone = lifecycle.clone();
    let outcome = ActorTerminalOutcome::dropped(ActorStopReason::Normal);
    assert_eq!(lifecycle.set_terminal_outcome(outcome), Ok(()));
    assert!(clone.is_terminated());
    assert_eq!(clone.terminal_outcome(), Some(outcome));
    assert_eq!(clone.outcome_cell().get(), Some(&outcome));
}

#[test]
fn second_outcome_is_handed_back() {
    let lifecycle = ActorLifecycle::new();
    let first = ActorTerminalOutcome::cleanup_failed();
    let second = ActorTerminalOutcome::startup_failed();
    assert_eq!(lifecycle.set_terminal_outcome(first), Ok(()));
    assert_eq!(lifecycle.clone().set_terminal_outcome(second), Err(second));
    assert_eq!(lifecycle.terminal_outcome(), Some(first));
}

#[test]
fn equal_second_outcome_is_handed_back_too() {
    let lifecycle = ActorLifecycle::new();
    let outcome = ActorTerminalOutcome::peer_disconnected();
    assert_eq!(lifecycle.set_terminal_outcome(outcome), Ok(()));
    assert_eq!(lifecycle.set_terminal_outcome(outcome), Err(outcome));
    assert!(lifecycle.is_terminated());
    assert_eq!(lifecycle.terminal_outcome(), Some(outcome));
}

#[test]
fn waiting_for_shutdown_returns_the_published_outcome() {
    let runtime = tokio::runtime::Builder::new_current_thread()
        .enable_all()
        .build()
        .expect("runtime builds");
    let lifecycle = ActorLifecycle::new();
    let waiting = lifecycle.clone();
    let outcome = ActorTerminalOutcome::dropped(ActorStopReason::Killed);
    let seen = runtime.block_on(async move {
        let waiter = tokio::spawn(async move { *waiting.outcome_cell().wait().await });
        tokio::task::yield_now().await;
        assert!(!waiter.is_finished());
        assert_eq!(lifecycle.set_terminal_outcome(outcome), Ok(()));
        waiter.await.expect("waiter does not panic")
    });
    assert_eq!(seen, outcome);
}
