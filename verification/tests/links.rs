//! Links, death notices and restarts.
use std::collections::{BTreeMap, HashMap};
use std::ops::ControlFlow;
use std::sync::atomic::{AtomicBool, Ordering};
use std::sync::{Arc, Mutex};
use std::time::{Duration, Instant};

use kameo::actor::{ActorId, ActorStateAbsence, ActorTerminalOutcome, ActorTerminalReason};
use kameo::error::{ActorStopReason, SignalError};
use kameo::links::{
    ErasedChildSpec, Link, LinkNotification, LinksInner, NoRestartReason, NotifyStep,
};
use kameo::mailbox::SignalMailbox;
use kameo::supervision::RestartPolicy;

/// A death notice: the dead actor, its receiver, and its siblings.
type Notice = (ActorId, Option<u16>, Option<Vec<ActorId>>);

#[derive(Clone)]
struct Recorder {
    answer: Result<(), SignalError>,
    notices: Arc<Mutex<Vec<Notice>>>,
}

impl Recorder {
    fn new(answer: Result<(), SignalError>) -> Self {
        Recorder { answer, notices: Arc::new(Mutex::new(Vec::new())) }
    }

    fn notices(&self) -> Vec<Notice> {
        self.notices.lock().expect("not poisoned").clone()
    }
}

impl SignalMailbox for Recorder {
    type Receiver = u16;
    type Handle = Recorder;

    fn signal_startup_finished(&self) -> Result<(), SignalError> {
        self.answer
    }

    fn signal_link_died(
        &self,
        id: ActorId,
        reason: ActorStopReason,
        outcome: ActorTerminalOutcome,
        mailbox_rx: Option<u16>,
        dead_actor_sibblings: Option<HashMap<ActorId, Link<Recorder>>>,
    ) -> Result<(), SignalError> {
        assert!(matches!(reason, ActorStopReason::Killed));
        assert_eq!(outcome, killed());
        let siblings = dead_actor_sibblings.map(|siblings| {
            let mut ids: Vec<ActorId> = siblings.keys().copied().collect();
            ids.sort();
            ids
        });
        self.notices.lock().expect("not poisoned").push((id, mailbox_rx, siblings));
        self.answer
    }

    fn signal_stop(&self) -> Result<(), SignalError> {
        self.answer
    }
}

type Links = LinksInner<&'static str, &'static str, Recorder>;

type Child = ErasedChildSpec<&'static str, &'static str, Recorder>;

fn killed() -> ActorTerminalOutcome {
    ActorTerminalOutcome::dropped(ActorStopReason::Killed)
}

fn outcome(reason: ActorTerminalReason) -> ActorTerminalOutcome {
    ActorTerminalOutcome { state: ActorStateAbsence::Dropped, reason }
}

fn child(restart_policy: RestartPolicy, max_restarts: u32, last_restart: Instant) -> Child {
    ErasedChildSpec {
        factory: Arc::new("factory"),
        shutdown: Arc::new("shutdown"),
        signal_mailbox: Recorder::new(Ok(())),
        parent_shutdown: Arc::new(AtomicBool::new(false)),
        restart_policy,
        restart_count: 0,
        last_restart,
        max_restarts,
        restart_window: Duration::from_secs(5),
    }
}

#[test]
fn new_links_are_empty() {
    let links = Links::default();
    assert!(links.parent.is_none());
    assert!(links.sibblings.is_empty());
    assert!(links.children.is_empty());
    assert!(!links.parent_shutdown.load(Ordering::SeqCst));
}

#[test]
fn parent_gets_the_mailbox_and_the_siblings() {
    let parent = Recorder::new(Ok(()));
    let mut links = Links::default();
    links.parent = Some((1, Link::Local(parent.clone())));
    links.sibblings.insert(2, Link::Local(Recorder::new(Ok(()))));
    links.sibblings.insert(3, Link::Remote(String::from("three")));
    let notification =
        links.take_link_notification(9, ActorStopReason::Killed, killed(), 44u16);
    assert!(links.sibblings.is_empty());
    assert!(links.parent.is_some());
    match &notification {
        LinkNotification::Parent { link_actor_id, dead_actor_id, .. } => {
            assert_eq!(*link_actor_id, 1);
            assert_eq!(*dead_actor_id, 9);
        }
        LinkNotification::Siblings { .. } => panic!("there is a parent"),
    }
    let steps = notification.dispatch();
    assert_eq!(steps.len(), 1);
    assert!(matches!(steps[0], NotifyStep::Done));
    assert_eq!(parent.notices(), vec![(9, Some(44), Some(vec![2, 3]))]);
}

#[test]
fn parent_in_shutdown_gets_the_bare_notice() {
    let parent = Recorder::new(Ok(()));
    let mut links = Links::default();
    links.parent = Some((1, Link::Local(parent.clone())));
    links.sibblings.insert(2, Link::Local(Recorder::new(Ok(()))));
    links.parent_shutdown.store(true, Ordering::SeqCst);
    links.take_link_notification(9, ActorStopReason::Killed, killed(), 44u16).dispatch();
    assert!(links.sibblings.is_empty());
    assert_eq!(parent.notices(), vec![(9, None, None)]);
}

#[test]
fn shutdown_flag_decides_what_the_parent_gets() {
    for (shutting_down, notice) in [(true, (9, None, None)), (false, (9, Some(44), Some(vec![2])))]
    {
        let parent = Recorder::new(Ok(()));
        let mut links = Links::default();
        links.parent = Some((1, Link::Local(parent.clone())));
        links.sibblings.insert(2, Link::Local(Recorder::new(Ok(()))));
        links
            .take_link_notification_when(
                9,
                ActorStopReason::Killed,
                killed(),
                44u16,
                shutting_down,
            )
            .dispatch();
        assert_eq!(parent.notices(), vec![notice]);
    }
}

#[test]
fn every_sibling_is_notified_once_without_the_mailbox() {
    let siblings: BTreeMap<ActorId, Recorder> =
        (1..=5).map(|id| (id, Recorder::new(Ok(())))).collect();
    let mut links = Links::default();
    for (id, recorder) in &siblings {
        links.sibblings.insert(*id, Link::Local(recorder.clone()));
    }
    let steps =
        links.take_link_notification(9, ActorStopReason::Killed, killed(), 44u16).dispatch();
    assert_eq!(steps.len(), 5);
    assert!(steps.iter().all(|step| matches!(step, NotifyStep::Done)));
    for recorder in siblings.values() {
        assert_eq!(recorder.notices(), vec![(9, None, None)]);
    }
    let again =
        links.take_link_notification(9, ActorStopReason::Killed, killed(), 44u16).dispatch();
    assert!(again.is_empty());
}

#[test]
fn dead_siblings_are_passed_over_and_other_failures_reported() {
    let not_running = Link::Local(Recorder::new(Err(SignalError::ActorNotRunning)));
    let step = not_running.notify(1, 9, ActorStopReason::Killed, killed(), None, None);
    assert!(matches!(step, NotifyStep::Done));
    let full = Link::Local(Recorder::new(Err(SignalError::MailboxFull)));
    let step = full.notify(1, 9, ActorStopReason::Killed, killed(), None, None);
    assert!(matches!(step, NotifyStep::Report(SignalError::MailboxFull)));
}

#[test]
fn remote_links_are_handed_back() {
    let link: Link<Recorder> = Link::Remote(String::from("peer/actor"));
    match link.clone().notify(1, 9, ActorStopReason::Killed, killed(), Some(5), None) {
        NotifyStep::Send(notice) => {
            assert_eq!(notice.dead_actor_id, 9);
            assert_eq!(notice.link_actor_id, 1);
            assert_eq!(notice.notified_actor_remote_id, "peer/actor");
            assert!(matches!(notice.reason, ActorStopReason::Killed));
            assert_eq!(notice.outcome, killed());
        }
        _ => panic!("a remote link has to be sent"),
    }
}

#[test]
fn children_are_told_of_the_shutdown() {
    let mut links = Links::default();
    let now = Instant::now();
    for id in 1..=3 {
        links.children.insert(id, child(RestartPolicy::Permanent, 1, now));
    }
    links.set_children_parent_shutdown();
    for spec in links.children.values() {
        assert!(spec.parent_shutdown.load(Ordering::SeqCst));
    }
    assert!(!links.parent_shutdown.load(Ordering::SeqCst));
}

#[test]
fn child_with_the_shared_flag_keeps_its_mailbox_back() {
    let mut parent_links = Links::default();
    let spec = child(RestartPolicy::Permanent, 1, Instant::now());
    let parent = Recorder::new(Ok(()));
    let mut child_links = Links::default();
    child_links.parent = Some((1, Link::Local(parent.clone())));
    child_links.parent_shutdown = spec.parent_shutdown.clone();
    parent_links.children.insert(9, spec);
    parent_links.set_children_parent_shutdown();
    parent_links.set_children_parent_shutdown();
    assert!(!parent_links.parent_shutdown.load(Ordering::SeqCst));
    child_links.take_link_notification(9, ActorStopReason::Killed, killed(), 44u16).dispatch();
    assert_eq!(parent.notices(), vec![(9, None, None)]);
}

#[test]
fn children_are_listed_once() {
    let mut links = Links::default();
    let now = Instant::now();
    let names = ["one", "two", "three"];
    for (id, name) in names.iter().enumerate() {
        let mut spec = child(RestartPolicy::Permanent, 1, now);
        spec.shutdown = Arc::new(*name);
        links.children.insert(id as u64, spec);
    }
    let mut shutdowns: Vec<&str> =
        links.children_shutdowns().iter().map(|shutdown| **shutdown).collect();
    shutdowns.sort();
    assert_eq!(shutdowns, vec!["one", "three", "two"]);
    let mailboxes = links.children_mailboxes();
    assert_eq!(mailboxes.len(), 3);
    for mailbox in &mailboxes {
        let known = links
            .children
            .values()
            .any(|spec| Arc::ptr_eq(&spec.signal_mailbox.notices, &mailbox.notices));
        assert!(known);
    }
}

#[test]
fn cloned_child_shares_its_handles() {
    let spec = child(RestartPolicy::Transient, 4, Instant::now());
    let clone = spec.clone();
    assert!(Arc::ptr_eq(&spec.factory, &clone.factory));
    assert!(Arc::ptr_eq(&spec.shutdown, &clone.shutdown));
    assert!(Arc::ptr_eq(&spec.parent_shutdown, &clone.parent_shutdown));
    assert!(Arc::ptr_eq(&spec.signal_mailbox.notices, &clone.signal_mailbox.notices));
    assert_eq!(clone.restart_policy, RestartPolicy::Transient);
    assert_eq!(clone.restart_count, 0);
    assert_eq!(clone.max_restarts, 4);
    assert_eq!(clone.last_restart, spec.last_restart);
    assert_eq!(clone.restart_window, Duration::from_secs(5));
}

#[test]
fn never_policy_comes_first() {
    let now = Instant::now();
    let mut spec = child(RestartPolicy::Never, 10, now);
    for reason in [ActorTerminalReason::SupervisorRestart, ActorTerminalReason::Panicked] {
        assert_eq!(
            spec.should_restart(&outcome(reason)),
            ControlFlow::Break(NoRestartReason::NeverPolicy)
        );
    }
    assert_eq!(spec.restart_count, 0);
    assert_eq!(spec.last_restart, now);
}

#[test]
fn supervisor_restart_is_not_counted() {
    let now = Instant::now();
    for policy in [RestartPolicy::Permanent, RestartPolicy::Transient] {
        let mut spec = child(policy, 0, now);
        for _ in 0..3 {
            assert_eq!(
                spec.should_restart(&outcome(ActorTerminalReason::SupervisorRestart)),
                ControlFlow::Continue(())
            );
        }
        assert_eq!(spec.restart_count, 0);
        assert_eq!(spec.last_restart, now);
    }
}

#[test]
fn transient_child_is_restarted_only_after_failures() {
    let mut spec = child(RestartPolicy::Transient, 10, Instant::now());
    assert_eq!(
        spec.should_restart(&outcome(ActorTerminalReason::Stopped)),
        ControlFlow::Break(NoRestartReason::NormalExitUnderTransientPolicy)
    );
    assert_eq!(spec.restart_count, 0);
    assert_eq!(
        spec.should_restart(&outcome(ActorTerminalReason::Panicked)),
        ControlFlow::Continue(())
    );
    assert_eq!(spec.restart_count, 1);
}

#[test]
fn permanent_child_is_restarted_after_a_normal_exit() {
    let before = Instant::now();
    let mut spec = child(RestartPolicy::Permanent, 10, before);
    assert_eq!(
        spec.should_restart(&outcome(ActorTerminalReason::Stopped)),
        ControlFlow::Continue(())
    );
    assert_eq!(spec.restart_count, 1);
    assert!(spec.last_restart >= before);
}

#[test]
fn restarts_within_the_window_are_limited() {
    let start = Instant::now();
    let mut spec = child(RestartPolicy::Permanent, 2, start);
    let mut restarts = 0;
    for step in 1..=6 {
        let now = start + Duration::from_secs(step);
        match spec.should_restart_at(&outcome(ActorTerminalReason::Panicked), now) {
            ControlFlow::Continue(()) => {
                restarts += 1;
                assert_eq!(spec.last_restart, now);
            }
            ControlFlow::Break(reason) => assert_eq!(
                reason,
                NoRestartReason::MaxRestartsExceeded { restart_count: 2, max_restarts: 2 }
            ),
        }
    }
    assert_eq!(restarts, 2);
    assert_eq!(spec.restart_count, 2);
    assert_eq!(spec.last_restart, start + Duration::from_secs(2));
}

#[test]
fn window_starts_anew_only_after_it_has_passed() {
    let start = Instant::now();
    let mut spec = child(RestartPolicy::Permanent, 1, start);
    spec.restart_count = 1;
    let at_the_end = start + Duration::from_secs(5);
    assert_eq!(
        spec.should_restart_at(&outcome(ActorTerminalReason::Killed), at_the_end),
        ControlFlow::Break(NoRestartReason::MaxRestartsExceeded {
            restart_count: 1,
            max_restarts: 1
        })
    );
    let past_the_end = at_the_end + Duration::from_nanos(1);
    assert_eq!(
        spec.should_restart_at(&outcome(ActorTerminalReason::Killed), past_the_end),
        ControlFlow::Continue(())
    );
    assert_eq!(spec.restart_count, 1);
    assert_eq!(spec.last_restart, past_the_end);
}

#[test]
fn clock_that_went_back_keeps_the_count() {
    let start = Instant::now() + Duration::from_secs(60);
    let mut spec = child(RestartPolicy::Permanent, 1, start);
    spec.restart_count = 1;
    let earlier = start - Duration::from_secs(30);
    assert_eq!(
        spec.should_restart_at(&outcome(ActorTerminalReason::Killed), earlier),
        ControlFlow::Break(NoRestartReason::MaxRestartsExceeded {
            restart_count: 1,
            max_restarts: 1
        })
    );
}

#[test]
fn expired_count_is_forgotten_even_without_a_restart() {
    let start = Instant::now();
    let mut spec = child(RestartPolicy::Permanent, 0, start);
    spec.restart_count = 3;
    let late = start + Duration::from_secs(6);
    assert_eq!(
        spec.should_restart_at(&outcome(ActorTerminalReason::Killed), late),
        ControlFlow::Break(NoRestartReason::MaxRestartsExceeded {
            restart_count: 0,
            max_restarts: 0
        })
    );
    assert_eq!(spec.restart_count, 0);
    assert_eq!(spec.last_restart, start);
}

#[test]
fn reasons_are_put_in_words() {
    assert_eq!(
        NoRestartReason::NormalExitUnderTransientPolicy.describe(),
        "normal exit under transient policy"
    );
    assert_eq!(NoRestartReason::NeverPolicy.describe(), "never restart policy");
    let exceeded = NoRestartReason::MaxRestartsExceeded { restart_count: 5, max_restarts: 3 };
    assert_eq!(exceeded.describe(), "max restarts exceeded (5 >= 3)");
    let exceeded = NoRestartReason::MaxRestartsExceeded {
        restart_count: u32::MAX,
        max_restarts: 1080,
    };
    assert_eq!(exceeded.describe(), "max restarts exceeded (4294967295 >= 1080)");
    let exceeded = NoRestartReason::MaxRestartsExceeded { restart_count: 0, max_restarts: 0 };
    assert_eq!(exceeded.describe(), "max restarts exceeded (0 >= 0)");
}
