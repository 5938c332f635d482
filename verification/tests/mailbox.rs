//! Mailboxes, with messages and control signals on their two lanes.
use std::collections::HashMap;
use std::sync::atomic::{AtomicU64, AtomicUsize, Ordering};
use std::sync::Arc;
use std::task::{Context, Poll, Wake, Waker};
use std::time::Duration;

use kameo::actor::{Actor, ActorTerminalOutcome};
use kameo::error::{ActorStopReason, SignalError};
use kameo::links::Link;
use kameo::mailbox::{
    bounded, unbounded, Arrival, Attempted, MailboxReceiver, MailboxSender, MailboxSenderInner,
    RecvStep, SendStep, Signal, SignalKind, SignalMailbox, WeakMailboxSender,
};
use tokio::sync::mpsc::error::{SendError, SendTimeoutError, TryRecvError, TrySendError};

struct Probe;

impl Actor for Probe {
    type Message = u32;
    type ActorRef = &'static str;
    type ReplySender = u8;
    type CallerSpan = char;
    type MailboxReceiver = u16;
    type SignalMailbox = &'static str;
}

fn message(number: u32) -> Signal<Probe> {
    Signal::Message {
        message: number,
        actor_ref: "probe",
        reply: Some(9),
        sent_within_actor: false,
        message_name: "number",
        caller_span: 's',
    }
}

fn number(signal: Signal<Probe>) -> u32 {
    match signal {
        Signal::Message { message, actor_ref, reply, sent_within_actor, message_name, caller_span } => {
            assert_eq!(actor_ref, "probe");
            assert_eq!(reply, Some(9));
            assert!(!sent_within_actor);
            assert_eq!(message_name, "number");
            assert_eq!(caller_span, 's');
            message
        }
        _ => panic!("not a message"),
    }
}

fn link_died() -> Signal<Probe> {
    Signal::LinkDied {
        id: 4,
        reason: ActorStopReason::Killed,
        outcome: ActorTerminalOutcome::dropped(ActorStopReason::Killed),
        mailbox_rx: None,
        dead_actor_sibblings: None,
    }
}

fn mailboxes() -> Vec<(MailboxSender<Probe>, MailboxReceiver<Probe>)> {
    vec![bounded(8), unbounded()]
}

struct Count(AtomicUsize);

impl Wake for Count {
    fn wake(self: Arc<Self>) {
        self.0.fetch_add(1, Ordering::SeqCst);
    }
}

fn counting_waker() -> (Arc<Count>, Waker) {
    let count = Arc::new(Count(AtomicUsize::new(0)));
    let waker = Waker::from(count.clone());
    (count, waker)
}

fn runtime() -> tokio::runtime::Runtime {
    tokio::runtime::Builder::new_multi_thread()
        .worker_threads(2)
        .enable_all()
        .build()
        .expect("runtime builds")
}

#[test]
fn messages_arrive_in_order() {
    for (sender, mut receiver) in mailboxes() {
        for n in 1..=3 {
            assert!(sender.try_send(message(n)).is_ok());
        }
        assert_eq!(receiver.len(), 3);
        for n in 1..=3 {
            assert_eq!(number(receiver.try_recv().expect("a message")), n);
        }
        assert!(receiver.is_empty());
        assert!(matches!(receiver.try_recv(), Err(TryRecvError::Empty)));
    }
}

#[test]
fn control_signal_wins_over_queued_messages() {
    for (sender, mut receiver) in mailboxes() {
        assert!(sender.try_send(message(1)).is_ok());
        assert!(sender.try_send(Signal::Stop).is_ok());
        assert!(sender.try_send(Signal::SupervisorRestart).is_ok());
        assert_eq!(receiver.len(), 3);
        assert!(matches!(receiver.try_recv(), Ok(Signal::Stop)));
        assert!(matches!(receiver.try_recv(), Ok(Signal::SupervisorRestart)));
        assert_eq!(number(receiver.try_recv().expect("a message")), 1);
    }
}

#[test]
fn full_mailbox_hands_the_message_back() {
    let (sender, mut receiver) = bounded::<Probe>(1);
    assert_eq!(sender.capacity(), Some(1));
    assert!(sender.try_send(message(1)).is_ok());
    assert_eq!(sender.capacity(), Some(0));
    match sender.try_send(message(2)) {
        Err(TrySendError::Full(signal)) => assert_eq!(number(signal), 2),
        _ => panic!("the mailbox is full"),
    }
    assert_eq!(number(receiver.try_recv().expect("a message")), 1);
    assert_eq!(sender.capacity(), Some(1));
}

#[test]
fn control_signals_need_no_capacity() {
    let (sender, mut receiver) = bounded::<Probe>(1);
    assert!(sender.try_send(message(1)).is_ok());
    assert!(sender.try_send(Signal::StartupFinished).is_ok());
    assert!(matches!(sender.begin_send(Signal::Stop), SendStep::Done(Ok(()))));
    assert!(sender.try_send(link_died()).is_ok());
    assert!(matches!(receiver.try_recv(), Ok(Signal::StartupFinished)));
    assert!(matches!(receiver.try_recv(), Ok(Signal::Stop)));
    assert!(matches!(receiver.try_recv(), Ok(Signal::LinkDied { id: 4, .. })));
    assert_eq!(number(receiver.try_recv().expect("a message")), 1);
}

#[test]
fn unbounded_mailbox_has_no_capacity_limit() {
    let (sender, receiver) = unbounded::<Probe>();
    assert_eq!(sender.capacity(), None);
    for n in 0..100 {
        assert!(sender.try_send(message(n)).is_ok());
    }
    assert_eq!(receiver.len(), 100);
}

#[test]
fn dropped_receiver_hands_every_signal_back() {
    for (sender, receiver) in mailboxes() {
        drop(receiver);
        assert!(sender.is_closed());
        match sender.try_send(message(5)) {
            Err(TrySendError::Closed(signal)) => assert_eq!(number(signal), 5),
            _ => panic!("the mailbox is closed"),
        }
        assert!(matches!(
            sender.try_send(Signal::Stop),
            Err(TrySendError::Closed(Signal::Stop))
        ));
        assert!(matches!(
            sender.begin_send(Signal::StartupFinished),
            SendStep::Done(Err(SendError(Signal::StartupFinished)))
        ));
    }
}

#[test]
fn closed_admission_refuses_messages_but_no_control_signals() {
    for (sender, mut receiver) in mailboxes() {
        let weak = sender.downgrade();
        assert!(sender.is_accepting_messages());
        weak.stop_message_admission();
        assert!(!sender.is_accepting_messages());
        assert!(!weak.is_accepting_messages());
        match sender.try_send(message(6)) {
            Err(TrySendError::Closed(signal)) => assert_eq!(number(signal), 6),
            _ => panic!("messages are not admitted"),
        }
        match sender.begin_send(message(7)) {
            SendStep::Done(Err(SendError(signal))) => assert_eq!(number(signal), 7),
            _ => panic!("messages are not admitted"),
        }
        assert!(sender.try_send(Signal::Stop).is_ok());
        assert!(!sender.is_closed());
        assert!(matches!(receiver.try_recv(), Ok(Signal::Stop)));
        assert!(matches!(receiver.try_recv(), Err(TryRecvError::Empty)));
    }
}

#[test]
fn stop_discards_queued_messages() {
    for (sender, mut receiver) in mailboxes() {
        assert!(sender.try_send(message(1)).is_ok());
        assert!(sender.try_send(message(2)).is_ok());
        sender.downgrade().stop_message_admission();
        assert_eq!(receiver.len(), 2);
        assert!(matches!(receiver.try_recv(), Err(TryRecvError::Empty)));
        assert_eq!(receiver.len(), 0);
    }
}

#[test]
fn reopened_mailbox_delivers_only_new_messages() {
    for (sender, mut receiver) in mailboxes() {
        assert!(sender.try_send(message(1)).is_ok());
        sender.downgrade().stop_message_admission();
        sender.open_message_admission();
        assert!(sender.is_accepting_messages());
        assert!(sender.try_send(message(2)).is_ok());
        assert_eq!(number(receiver.try_recv().expect("a message")), 2);
        assert!(matches!(receiver.try_recv(), Err(TryRecvError::Empty)));
    }
}

#[test]
fn stamp_is_accepted_only_in_its_open_generation() {
    for (sender, _receiver) in mailboxes() {
        assert!(sender.accepts_message_generation(0));
        assert!(!sender.accepts_message_generation(1));
        sender.downgrade().stop_message_admission();
        assert!(!sender.accepts_message_generation(0));
        assert!(!sender.accepts_message_generation(1));
        sender.open_message_admission();
        assert!(!sender.accepts_message_generation(0));
        assert!(sender.accepts_message_generation(1));
    }
}

#[test]
fn queued_message_is_held_against_the_generation() {
    let (sender, _receiver) = unbounded::<Probe>();
    let generation = AtomicU64::new(4);
    let queued = sender.queued_message(4, message(1));
    let accepted = MailboxReceiver::<Probe>::accept_queued_message(&generation, queued);
    assert_eq!(accepted.map(number), Some(1));
    let queued = sender.queued_message(3, message(2));
    assert!(MailboxReceiver::<Probe>::accept_queued_message(&generation, queued).is_none());
    generation.store(u64::MAX, Ordering::SeqCst);
    generation.fetch_add(1, Ordering::SeqCst);
    let queued = sender.queued_message(0, message(3));
    let accepted = MailboxReceiver::<Probe>::accept_queued_message(&generation, queued);
    assert_eq!(accepted.map(number), Some(3));
}

#[test]
fn no_message_crosses_a_stop_while_others_send() {
    let runtime = runtime();
    for _ in 0..100 {
        for (sender, mut receiver) in mailboxes() {
            let tasks: Vec<_> = (0..2)
                .map(|_| {
                    let sender = sender.clone();
                    runtime.spawn(async move {
                        for n in 0..20 {
                            let _ = sender.try_send(message(n));
                        }
                    })
                })
                .collect();
            sender.downgrade().stop_message_admission();
            sender.open_message_admission();
            sender.downgrade().stop_message_admission();
            assert!(receiver.try_recv().is_err());
            for task in tasks {
                runtime.block_on(task).expect("the sender does not panic");
            }
            assert!(receiver.try_recv().is_err());
            assert!(receiver.is_empty());
        }
    }
}

#[test]
fn only_control_signals_exceed_the_buffer() {
    let (sender, mut receiver) = bounded::<Probe>(2);
    assert!(sender.try_send(message(1)).is_ok());
    assert!(sender.try_send(message(2)).is_ok());
    assert!(sender.try_send(message(3)).is_err());
    assert_eq!(receiver.len(), 2);
    for _ in 0..3 {
        assert!(sender.try_send(Signal::Stop).is_ok());
    }
    assert_eq!(receiver.len(), 5);
    receiver.close();
    assert_eq!(receiver.len(), 5);
    drop(sender);
    assert_eq!(receiver.len(), 5);
}

#[test]
fn attempt_asks_to_be_repeated_after_a_discarded_message() {
    for (sender, mut receiver) in mailboxes() {
        assert!(sender.try_send(message(1)).is_ok());
        sender.downgrade().stop_message_admission();
        sender.open_message_admission();
        assert!(sender.try_send(message(2)).is_ok());
        assert!(matches!(receiver.attempt(), Attempted::Again));
        match receiver.attempt() {
            Attempted::Settled(Ok(signal)) => assert_eq!(number(signal), 2),
            _ => panic!("a message is left"),
        }
        assert!(matches!(receiver.attempt(), Attempted::Settled(Err(TryRecvError::Empty))));
    }
}

#[test]
fn waiting_message_is_sent_into_its_slot() {
    let runtime = runtime();
    let (sender, mut receiver) = bounded::<Probe>(1);
    match sender.begin_send(message(3)) {
        SendStep::Reserve { messages, generation, signal } => {
            let reserved = runtime.block_on(messages.reserve());
            assert!(sender.finish_send(generation, signal, reserved).is_ok());
        }
        SendStep::Done(_) => panic!("a bounded mailbox reserves a slot"),
    }
    assert_eq!(number(receiver.try_recv().expect("a message")), 3);
}

#[test]
fn waiting_message_cannot_cross_closed_admission() {
    let runtime = runtime();
    let (sender, mut receiver) = bounded::<Probe>(1);
    assert!(sender.try_send(message(1)).is_ok());
    let pending_sender = sender.clone();
    let pending = runtime.spawn(async move {
        match pending_sender.begin_send(message(2)) {
            SendStep::Reserve { messages, generation, signal } => {
                let reserved = messages.reserve().await;
                pending_sender.finish_send(generation, signal, reserved)
            }
            SendStep::Done(res) => res,
        }
    });
    runtime.block_on(async { tokio::time::sleep(Duration::from_millis(50)).await });
    assert!(!pending.is_finished());
    sender.downgrade().stop_message_admission();
    assert!(matches!(receiver.try_recv(), Err(TryRecvError::Empty)));
    let res = runtime
        .block_on(async { tokio::time::timeout(Duration::from_secs(5), pending).await })
        .expect("the send resolves")
        .expect("the send does not panic");
    match res {
        Err(SendError(signal)) => assert_eq!(number(signal), 2),
        Ok(()) => panic!("the message crossed closed admission"),
    }
    assert!(receiver.is_empty());
}

#[test]
fn waiting_message_cannot_enter_another_generation() {
    let runtime = runtime();
    let (sender, receiver) = bounded::<Probe>(1);
    match sender.begin_send(message(2)) {
        SendStep::Reserve { messages, generation, signal } => {
            sender.downgrade().stop_message_admission();
            sender.open_message_admission();
            let reserved = runtime.block_on(messages.reserve());
            match sender.finish_send(generation, signal, reserved) {
                Err(SendError(signal)) => assert_eq!(number(signal), 2),
                Ok(()) => panic!("the message entered another generation"),
            }
        }
        SendStep::Done(_) => panic!("a bounded mailbox reserves a slot"),
    }
    assert!(receiver.is_empty());
    assert_eq!(sender.capacity(), Some(1));
}

#[test]
fn waiting_message_comes_back_when_the_mailbox_closes() {
    let runtime = runtime();
    let (sender, mut receiver) = bounded::<Probe>(1);
    match sender.begin_send(message(2)) {
        SendStep::Reserve { messages, generation, signal } => {
            receiver.close();
            let reserved = runtime.block_on(messages.reserve());
            assert!(reserved.is_err());
            match sender.finish_send(generation, signal, reserved) {
                Err(SendError(signal)) => assert_eq!(number(signal), 2),
                Ok(()) => panic!("the mailbox is closed"),
            }
        }
        SendStep::Done(_) => panic!("a bounded mailbox reserves a slot"),
    }
}

#[test]
fn timed_send_tells_timeout_from_closed() {
    let runtime = runtime();
    let (sender, mut receiver) = bounded::<Probe>(1);
    match sender.finish_send_timeout(0, message(1), None) {
        Err(SendTimeoutError::Timeout(signal)) => assert_eq!(number(signal), 1),
        _ => panic!("the time was up"),
    }
    match sender.begin_send(message(2)) {
        SendStep::Reserve { messages, generation, signal } => {
            let reserved = runtime.block_on(messages.reserve());
            assert!(sender.finish_send_timeout(generation, signal, Some(reserved)).is_ok());
        }
        SendStep::Done(_) => panic!("a bounded mailbox reserves a slot"),
    }
    assert_eq!(number(receiver.try_recv().expect("a message")), 2);
    match sender.begin_send(message(3)) {
        SendStep::Reserve { messages, generation, signal } => {
            sender.downgrade().stop_message_admission();
            let reserved = runtime.block_on(messages.reserve());
            match sender.finish_send_timeout(generation, signal, Some(reserved)) {
                Err(SendTimeoutError::Closed(signal)) => assert_eq!(number(signal), 3),
                _ => panic!("messages are not admitted"),
            }
        }
        SendStep::Done(_) => panic!("a bounded mailbox reserves a slot"),
    }
    receiver.close();
    match sender.lanes() {
        MailboxSenderInner::Bounded { messages, .. } => {
            let reserved = runtime.block_on(messages.reserve());
            match sender.finish_send_timeout(0, message(4), Some(reserved)) {
                Err(SendTimeoutError::Closed(signal)) => assert_eq!(number(signal), 4),
                _ => panic!("the mailbox is closed"),
            }
        }
        MailboxSenderInner::Unbounded { .. } => panic!("the mailbox is bounded"),
    }
}

#[test]
fn settled_sends_keep_the_refused_signal() {
    let (sender, _receiver) = bounded::<Probe>(1);
    let queued = sender.queued_message(3, message(8));
    assert_eq!(queued.generation, 3);
    match MailboxSender::<Probe>::settle_send(Err(SendError(queued))) {
        Err(SendError(signal)) => assert_eq!(number(signal), 8),
        Ok(()) => panic!("the send failed"),
    }
    assert!(MailboxSender::<Probe>::settle_send(Ok(())).is_ok());
    match MailboxSender::<Probe>::settle_send_timeout(Err(SendError(message(9)))) {
        Err(SendTimeoutError::Closed(signal)) => assert_eq!(number(signal), 9),
        _ => panic!("the send failed"),
    }
    assert!(MailboxSender::<Probe>::settle_send_timeout(Ok(())).is_ok());
}

#[test]
fn unbounded_send_needs_no_slot() {
    let (sender, mut receiver) = unbounded::<Probe>();
    assert!(matches!(sender.begin_send(message(4)), SendStep::Done(Ok(()))));
    assert_eq!(number(receiver.try_recv().expect("a message")), 4);
    drop(receiver);
    match sender.begin_send(message(5)) {
        SendStep::Done(Err(SendError(signal))) => assert_eq!(number(signal), 5),
        _ => panic!("the mailbox is closed"),
    }
}

#[test]
fn handles_are_counted() {
    for (sender, receiver) in mailboxes() {
        assert_eq!(sender.strong_count(), 1);
        assert_eq!(sender.weak_count(), 0);
        let clone = sender.clone();
        let weak = clone.downgrade();
        let weak_clone = weak.clone();
        assert_eq!(sender.strong_count(), 2);
        assert_eq!(sender.weak_count(), 2);
        assert_eq!(weak.strong_count(), 2);
        assert_eq!(weak_clone.weak_count(), 2);
        assert_eq!(receiver.sender_strong_count(), 2);
        assert_eq!(receiver.sender_weak_count(), 2);
    }
}

#[test]
fn clones_and_upgrades_feed_the_same_channel() {
    for (sender, mut receiver) in mailboxes() {
        let clone = sender.clone();
        assert!(sender.same_channel(&clone));
        let upgraded = sender.downgrade().upgrade().expect("a sender is alive");
        assert!(upgraded.same_channel(&sender));
        assert!(clone.try_send(message(1)).is_ok());
        assert!(upgraded.try_send(message(2)).is_ok());
        assert_eq!(number(receiver.try_recv().expect("a message")), 1);
        assert_eq!(number(receiver.try_recv().expect("a message")), 2);
        upgraded.downgrade().stop_message_admission();
        assert!(!clone.is_accepting_messages());
    }
}

#[test]
fn other_mailboxes_are_other_channels() {
    let (first, _first_receiver) = bounded::<Probe>(1);
    let (second, _second_receiver) = bounded::<Probe>(1);
    let (third, _third_receiver) = unbounded::<Probe>();
    let (fourth, _fourth_receiver) = unbounded::<Probe>();
    assert!(!first.same_channel(&second));
    assert!(!first.same_channel(&third));
    assert!(!third.same_channel(&first));
    assert!(!third.same_channel(&fourth));
}

#[test]
fn weak_handle_does_not_outlive_the_senders() {
    for (sender, mut receiver) in mailboxes() {
        let weak = sender.downgrade();
        drop(sender);
        assert!(weak.upgrade().is_none());
        assert_eq!(weak.strong_count(), 0);
        assert!(receiver.is_closed());
        assert!(matches!(receiver.try_recv(), Err(TryRecvError::Disconnected)));
    }
}

#[test]
fn closed_mailbox_drains_and_stays_closed() {
    for (sender, mut receiver) in mailboxes() {
        assert!(!receiver.is_closed());
        assert!(sender.try_send(message(1)).is_ok());
        assert!(sender.try_send(Signal::Stop).is_ok());
        receiver.close();
        assert!(receiver.is_closed());
        assert!(sender.is_closed());
        assert!(sender.try_send(message(2)).is_err());
        assert!(matches!(receiver.try_recv(), Ok(Signal::Stop)));
        assert!(receiver.is_closed());
        assert_eq!(number(receiver.try_recv().expect("a message")), 1);
        assert!(matches!(receiver.try_recv(), Err(TryRecvError::Disconnected)));
        assert!(receiver.is_closed());
    }
}

#[test]
fn poll_waits_and_wakes() {
    let _guard = runtime();
    for (sender, mut receiver) in mailboxes() {
        let (count, waker) = counting_waker();
        let mut cx = Context::from_waker(&waker);
        assert!(receiver.poll_recv(&mut cx).is_pending());
        assert_eq!(count.0.load(Ordering::SeqCst), 0);
        assert!(sender.try_send(message(1)).is_ok());
        assert_eq!(count.0.load(Ordering::SeqCst), 1);
        match receiver.poll_recv(&mut cx) {
            Poll::Ready(Some(signal)) => assert_eq!(number(signal), 1),
            _ => panic!("a message is ready"),
        }
        assert!(receiver.poll_recv(&mut cx).is_pending());
        assert!(sender.try_send(Signal::Stop).is_ok());
        assert!(matches!(receiver.poll_recv(&mut cx), Poll::Ready(Some(Signal::Stop))));
    }
}

#[test]
fn poll_discards_a_stale_message_and_wakes_the_task() {
    for (sender, mut receiver) in mailboxes() {
        let (count, waker) = counting_waker();
        let mut cx = Context::from_waker(&waker);
        assert!(sender.try_send(message(1)).is_ok());
        sender.downgrade().stop_message_admission();
        assert!(receiver.poll_recv(&mut cx).is_pending());
        assert_eq!(count.0.load(Ordering::SeqCst), 1);
        assert!(receiver.is_empty());
    }
}

#[test]
fn poll_reports_the_end() {
    for (sender, mut receiver) in mailboxes() {
        let (_count, waker) = counting_waker();
        let mut cx = Context::from_waker(&waker);
        drop(sender);
        assert!(matches!(receiver.poll_recv(&mut cx), Poll::Ready(None)));
        assert!(matches!(receiver.poll_lanes(&mut cx), Poll::Ready(Arrival::Closed)));
        assert!(matches!(receiver.recv_step(&mut cx), Poll::Ready(RecvStep::Finished)));
    }
}

#[test]
fn recv_step_tells_what_to_do() {
    for (sender, mut receiver) in mailboxes() {
        let (_count, waker) = counting_waker();
        let mut cx = Context::from_waker(&waker);
        assert!(receiver.recv_step(&mut cx).is_pending());
        assert!(sender.try_send(message(1)).is_ok());
        match receiver.recv_step(&mut cx) {
            Poll::Ready(RecvStep::Deliver(signal)) => assert_eq!(number(signal), 1),
            _ => panic!("a message is ready"),
        }
        assert!(sender.try_send(message(2)).is_ok());
        sender.downgrade().stop_message_admission();
        assert!(matches!(receiver.recv_step(&mut cx), Poll::Ready(RecvStep::Again)));
        assert!(receiver.recv_step(&mut cx).is_pending());
        sender.open_message_admission();
        assert!(sender.try_send(message(3)).is_ok());
        sender.downgrade().stop_message_admission();
        receiver.close();
        assert!(matches!(receiver.recv_step(&mut cx), Poll::Ready(RecvStep::Finished)));
    }
}

#[test]
fn waiting_receiver_wakes_for_a_late_control_signal() {
    let runtime = runtime();
    let (sender, mut receiver) = bounded::<Probe>(1);
    let waiting = runtime.spawn(async move {
        std::future::poll_fn(move |cx| receiver.recv_step(cx)).await
    });
    runtime.block_on(async { tokio::time::sleep(Duration::from_millis(50)).await });
    assert!(!waiting.is_finished());
    assert!(matches!(sender.begin_send(Signal::Stop), SendStep::Done(Ok(()))));
    let step = runtime
        .block_on(async { tokio::time::timeout(Duration::from_secs(5), waiting).await })
        .expect("the receiver wakes")
        .expect("the receiver does not panic");
    assert!(matches!(step, RecvStep::Deliver(Signal::Stop)));
}

#[test]
fn collecting_stops_at_the_limit() {
    for (sender, mut receiver) in mailboxes() {
        for n in 1..=4 {
            assert!(sender.try_send(message(n)).is_ok());
        }
        let mut buffer = vec![message(90)];
        let first = receiver.try_recv().ok();
        assert_eq!(receiver.collect_ready(first, &mut buffer, 3), 3);
        let numbers: Vec<u32> = buffer.into_iter().map(number).collect();
        assert_eq!(numbers, vec![90, 1, 2, 3]);
        assert_eq!(receiver.len(), 1);
    }
}

#[test]
fn collecting_stops_when_nothing_is_ready() {
    for (sender, mut receiver) in mailboxes() {
        assert!(sender.try_send(message(1)).is_ok());
        sender.downgrade().stop_message_admission();
        sender.open_message_admission();
        assert!(sender.try_send(message(2)).is_ok());
        let mut buffer = Vec::new();
        assert_eq!(receiver.collect_ready(Some(message(50)), &mut buffer, 10), 2);
        let numbers: Vec<u32> = buffer.into_iter().map(number).collect();
        assert_eq!(numbers, vec![50, 2]);
        assert!(receiver.is_empty());
    }
}

#[test]
fn collecting_nothing_after_the_end() {
    for (sender, mut receiver) in mailboxes() {
        assert!(sender.try_send(message(1)).is_ok());
        let mut buffer = Vec::new();
        assert_eq!(receiver.collect_ready(None, &mut buffer, 10), 0);
        assert!(buffer.is_empty());
        assert_eq!(receiver.len(), 1);
    }
}

#[test]
fn polling_many_extends_the_buffer() {
    for (sender, mut receiver) in mailboxes() {
        let (_count, waker) = counting_waker();
        let mut cx = Context::from_waker(&waker);
        let mut buffer = Vec::new();
        assert!(sender.try_send(message(1)).is_ok());
        assert!(matches!(receiver.poll_recv_many(&mut cx, &mut buffer, 0), Poll::Ready(0)));
        assert!(buffer.is_empty());
        assert!(sender.try_send(message(2)).is_ok());
        assert!(sender.try_send(message(3)).is_ok());
        assert!(matches!(receiver.poll_recv_many(&mut cx, &mut buffer, 2), Poll::Ready(2)));
        assert!(matches!(receiver.poll_recv_many(&mut cx, &mut buffer, 2), Poll::Ready(1)));
        assert!(receiver.poll_recv_many(&mut cx, &mut buffer, 2).is_pending());
        drop(sender);
        assert!(matches!(receiver.poll_recv_many(&mut cx, &mut buffer, 2), Poll::Ready(0)));
        let numbers: Vec<u32> = buffer.into_iter().map(number).collect();
        assert_eq!(numbers, vec![1, 2, 3]);
    }
}

#[test]
fn receiving_up_to_zero_is_done_at_once() {
    assert_eq!(MailboxReceiver::<Probe>::begin_recv_many(0), Some(0));
    assert_eq!(MailboxReceiver::<Probe>::begin_recv_many(1), None);
    assert_eq!(MailboxReceiver::<Probe>::begin_recv_many(usize::MAX), None);
}

#[test]
fn closed_mailbox_refuses_every_later_signal() {
    for (sender, mut receiver) in mailboxes() {
        assert!(sender.try_send(message(1)).is_ok());
        receiver.close();
        receiver.close();
        assert_eq!(receiver.len(), 1);
        assert!(sender.is_closed());
        assert!(matches!(
            sender.try_send(Signal::Stop),
            Err(TrySendError::Closed(Signal::Stop))
        ));
        assert!(matches!(sender.try_send(message(2)), Err(TrySendError::Closed(_))));
        assert_eq!(send_all_signals(&sender), vec![Err(SignalError::ActorNotRunning); 3]);
        assert_eq!(number(receiver.try_recv().expect("a message")), 1);
    }
}

#[test]
fn message_sent_into_an_owned_slot_is_delivered() {
    let (sender, mut receiver) = bounded::<Probe>(1);
    match sender.lanes() {
        MailboxSenderInner::Bounded { messages, .. } => {
            let permit = messages.clone().try_reserve_owned().expect("a slot is free");
            let returned = permit.send(sender.queued_message(0, message(6)));
            assert!(returned.same_channel(messages));
        }
        MailboxSenderInner::Unbounded { .. } => panic!("the mailbox is bounded"),
    }
    assert_eq!(number(receiver.try_recv().expect("a message")), 6);
}

#[test]
fn signals_are_counted_by_kind() {
    assert_eq!(SignalKind::from(&message(1)), SignalKind::Message);
    assert_eq!(SignalKind::from(&link_died()), SignalKind::LinkDied);
    assert_eq!(SignalKind::from(&Signal::<Probe>::StartupFinished), SignalKind::Lifecycle);
    assert_eq!(SignalKind::from(&Signal::<Probe>::Stop), SignalKind::Lifecycle);
    assert_eq!(SignalKind::from(&Signal::<Probe>::SupervisorRestart), SignalKind::Lifecycle);
}

#[test]
fn only_messages_carry_a_message() {
    assert_eq!(message(12).into_message(), Some(12));
    assert_eq!(Signal::<Probe>::Stop.into_message(), None);
    assert_eq!(link_died().into_message(), None);
}

fn send_all_signals<M>(mailbox: &M) -> Vec<Result<(), SignalError>>
where
    M: SignalMailbox<Receiver = u16, Handle = &'static str>,
{
    let mut siblings = HashMap::new();
    siblings.insert(2u64, Link::Local("two"));
    vec![
        mailbox.signal_startup_finished(),
        mailbox.signal_link_died(
            11,
            ActorStopReason::Normal,
            ActorTerminalOutcome::dropped(ActorStopReason::Normal),
            Some(77),
            Some(siblings),
        ),
        mailbox.signal_stop(),
    ]
}

fn receive_all_signals(receiver: &mut MailboxReceiver<Probe>) {
    assert!(matches!(receiver.try_recv(), Ok(Signal::StartupFinished)));
    match receiver.try_recv() {
        Ok(Signal::LinkDied { id, reason, outcome, mailbox_rx, dead_actor_sibblings }) => {
            assert_eq!(id, 11);
            assert!(matches!(reason, ActorStopReason::Normal));
            assert_eq!(outcome, ActorTerminalOutcome::dropped(ActorStopReason::Normal));
            assert_eq!(mailbox_rx, Some(77));
            let siblings = dead_actor_sibblings.expect("the siblings are passed on");
            assert_eq!(siblings.len(), 1);
            assert!(matches!(siblings.get(&2), Some(Link::Local("two"))));
        }
        _ => panic!("the link death is next"),
    }
    assert!(matches!(receiver.try_recv(), Ok(Signal::Stop)));
}

#[test]
fn signals_reach_the_mailbox() {
    for (sender, mut receiver) in mailboxes() {
        assert_eq!(send_all_signals(&sender), vec![Ok(()), Ok(()), Ok(())]);
        receive_all_signals(&mut receiver);
        let weak: WeakMailboxSender<Probe> = sender.downgrade();
        assert_eq!(send_all_signals(&weak), vec![Ok(()), Ok(()), Ok(())]);
        receive_all_signals(&mut receiver);
    }
}

#[test]
fn signals_do_not_wait_for_a_full_mailbox() {
    let (sender, mut receiver) = bounded::<Probe>(1);
    assert!(sender.try_send(message(1)).is_ok());
    sender.downgrade().stop_message_admission();
    assert_eq!(send_all_signals(&sender), vec![Ok(()), Ok(()), Ok(())]);
    receive_all_signals(&mut receiver);
}

#[test]
fn signals_to_a_dead_actor_fail() {
    let not_running = Err(SignalError::ActorNotRunning);
    for (sender, receiver) in mailboxes() {
        let weak = sender.downgrade();
        drop(receiver);
        assert_eq!(send_all_signals(&sender), vec![not_running; 3]);
        assert_eq!(send_all_signals(&weak), vec![not_running; 3]);
    }
    for (sender, _receiver) in mailboxes() {
        let weak = sender.downgrade();
        drop(sender);
        assert_eq!(send_all_signals(&weak), vec![not_running; 3]);
    }
}
