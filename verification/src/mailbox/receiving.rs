//! What receiving comes to, by what the lanes answered.
use std::sync::atomic::{AtomicU64, Ordering};
use std::task::{Context, Poll, Waker};

use tokio::sync::mpsc;
use tokio::sync::mpsc::error::TryRecvError;
use vstd::prelude::*;

use crate::actor::Actor;
use crate::mailbox::lanes::{MailboxReceiverInner, QueuedMessage};
use crate::mailbox::receiver::MailboxReceiver;
use crate::mailbox::sender::MailboxSender;
use crate::mailbox::signal::Signal;
use crate::mailbox::trace;
use crate::mailbox::trace::{Arrival, Attempted, LaneEvent, RecvStep};
use crate::platform;

verus! {

/// A message that came out of the message lane is handed out, whatever it carries, exactly if its
/// stamp is the generation that is read from the cell.
pub proof fn law_stamp_decides_on_a_message<A: Actor>(
    cell: AtomicU64,
    queued: QueuedMessage<A>,
    res: Option<Signal<A>>,
)
    requires
        call_ensures(MailboxReceiver::<A>::accept_queued_message, (&cell, queued), res),
    ensures
        exists|current: u64|
            #[trigger] call_ensures(AtomicU64::load, (&cell, Ordering::Acquire), current) && res
                == if queued.generation == current {
                Some(queued.signal)
            } else {
                None
            },
{
}

/// An attempt hands over every signal that came off the control lane, and every message that came
/// off the message lane with the stamp of the generation that was read. It reports the end of the
/// message lane, and emptiness only where both lanes were found empty.
pub proof fn law_attempt_hands_over_what_it_took<A: Actor>()
    ensures
        forall|receiver: &mut MailboxReceiver<A>, res: Attempted<A>| #[trigger]
            call_ensures(MailboxReceiver::<A>::attempt, (receiver,), res) ==> {
                &&& final(receiver).history().len() == receiver.history().len() + 1
                &&& receiver.history() == final(receiver).history().drop_last()
                &&& match final(receiver).history().last() {
                    LaneEvent::Poll(_) => false,
                    LaneEvent::Attempt(attempt) => match (attempt.control, attempt.message) {
                        (Ok(signal), None) => res == Attempted::<A>::Settled(Ok(signal))
                            && attempt.generation is None,
                        (Err(_), Some(Ok(queued))) => attempt.generation is Some
                            && if attempt.generation == Some(queued.generation) {
                            res == Attempted::<A>::Settled(Ok(queued.signal))
                        } else {
                            match attempt.empty {
                                None => false,
                                Some(true) => res == Attempted::<A>::Settled(
                                    Err(TryRecvError::Empty),
                                ),
                                Some(false) => res == Attempted::<A>::Again,
                            }
                        },
                        (Err(_), Some(Err(TryRecvError::Disconnected))) => res == Attempted::<
                            A,
                        >::Settled(Err(TryRecvError::Disconnected)),
                        (Err(_), Some(Err(TryRecvError::Empty))) => match attempt.empty {
                            None => false,
                            Some(true) => res == Attempted::<A>::Settled(Err(TryRecvError::Empty)),
                            Some(false) => res == Attempted::<A>::Again,
                        },
                        _ => false,
                    },
                }
            },
{
}

/// What an attempt records is what the lanes answered: one `try_recv` of the control lane and, only
/// where that had no signal, one of the message lane, which is otherwise left alone.
pub proof fn law_attempt_asks_each_lane_once<A: Actor>()
    ensures
        forall|receiver: &mut MailboxReceiver<A>, res: Attempted<A>| #[trigger]
            call_ensures(MailboxReceiver::<A>::attempt, (receiver,), res) ==> match (
                receiver.inner(),
                final(receiver).inner(),
                final(receiver).history().last(),
            ) {
                (
                    MailboxReceiverInner::Bounded { messages: m0, control: c0 },
                    MailboxReceiverInner::Bounded { messages: m1, control: c1 },
                    LaneEvent::Attempt(attempt),
                ) => {
                    &&& attempt.before == receiver.inner()
                    &&& attempt.after == final(receiver).inner()
                    &&& exists|lane: &mut mpsc::UnboundedReceiver<Signal<A>>|
                        *lane == c0 && *final(lane) == c1 && #[trigger] call_ensures(
                            mpsc::UnboundedReceiver::<Signal<A>>::try_recv,
                            (lane,),
                            attempt.control,
                        )
                    &&& match attempt.message {
                        None => m0 == m1 && attempt.control is Ok,
                        Some(answer) => exists|lane: &mut mpsc::Receiver<QueuedMessage<A>>|
                            *lane == m0 && *final(lane) == m1 && #[trigger] call_ensures(
                                mpsc::Receiver::<QueuedMessage<A>>::try_recv,
                                (lane,),
                                answer,
                            ),
                    }
                },
                (
                    MailboxReceiverInner::Unbounded { messages: m0, control: c0 },
                    MailboxReceiverInner::Unbounded { messages: m1, control: c1 },
                    LaneEvent::Attempt(attempt),
                ) => {
                    &&& attempt.before == receiver.inner()
                    &&& attempt.after == final(receiver).inner()
                    &&& exists|lane: &mut mpsc::UnboundedReceiver<Signal<A>>|
                        *lane == c0 && *final(lane) == c1 && #[trigger] call_ensures(
                            mpsc::UnboundedReceiver::<Signal<A>>::try_recv,
                            (lane,),
                            attempt.control,
                        )
                    &&& match attempt.message {
                        None => m0 == m1 && attempt.control is Ok,
                        Some(answer) => exists|lane: &mut mpsc::UnboundedReceiver<QueuedMessage<A>>|
                            *lane == m0 && *final(lane) == m1 && #[trigger] call_ensures(
                                mpsc::UnboundedReceiver::<QueuedMessage<A>>::try_recv,
                                (lane,),
                                answer,
                            ),
                    }
                },
                _ => false,
            },
{
}

/// `poll_recv` hands its caller every signal that the poll took from a lane and did not find stale.
/// It answers that there is nothing only where neither lane had anything to hand over or the message
/// was stale, and reports the end only with the end of the message lane.
pub proof fn law_poll_recv_hands_over_what_it_took<A: Actor>()
    ensures
        forall|
            receiver: &mut MailboxReceiver<A>,
            cx: &mut Context<'_>,
            res: Poll<Option<Signal<A>>>,
        | #[trigger]
            call_ensures(MailboxReceiver::<A>::poll_recv, (receiver, cx), res) ==> {
                &&& receiver.history() == final(receiver).history().drop_last()
                &&& final(receiver).history().len() == receiver.history().len() + 1
                &&& match final(receiver).history().last() {
                    LaneEvent::Attempt(_) => false,
                    LaneEvent::Poll(poll) => match (poll.control, poll.message) {
                        (Poll::Ready(Some(signal)), None) => res == Poll::Ready(Some(signal)),
                        (Poll::Ready(Some(_)), Some(_)) => false,
                        (_, Some(Poll::Ready(Some(queued)))) => poll.generation is Some
                            && if poll.generation == Some(queued.generation) {
                            res == Poll::Ready(Some(queued.signal))
                        } else {
                            res is Pending
                        },
                        (_, Some(Poll::Ready(None))) => res == Poll::Ready(None::<Signal<A>>),
                        (_, Some(Poll::Pending)) => res is Pending,
                        (_, None) => false,
                    },
                }
            },
        forall|
            receiver: &mut MailboxReceiver<A>,
            cx: &mut Context<'_>,
            res: Poll<Option<Signal<A>>>,
        | #[trigger]
            call_ensures(MailboxReceiver::<A>::poll_recv, (receiver, cx), res) ==> match final(
                receiver
            ).history().last().delivered() {
                Some(signal) => res == Poll::Ready(Some(signal)),
                None => !(res matches Poll::Ready(Some(_))),
            },
{
}

/// A poll that finds a stale message wakes the task that polls.
pub proof fn law_stale_message_wakes_the_task<A: Actor>()
    ensures
        forall|
            receiver: &mut MailboxReceiver<A>,
            cx: &mut Context<'_>,
            res: Poll<Option<Signal<A>>>,
        | #[trigger]
            call_ensures(MailboxReceiver::<A>::poll_recv, (receiver, cx), res) ==> (final(
                receiver
            ).history().last() matches LaneEvent::Poll(poll) && poll.message matches Some(
                Poll::Ready(Some(queued)),
            ) && poll.generation != Some(queued.generation) ==> exists|waker: &Waker| #[trigger]
                call_ensures(Context::waker, (&*final(cx),), waker) && call_ensures(
                    Waker::wake_by_ref,
                    (waker,),
                    (),
                )),
{
}

/// `poll_lanes` hands over every signal that it took from a lane and did not find stale.
pub proof fn law_poll_lanes_hands_over_what_it_took<A: Actor>()
    ensures
        forall|
            receiver: &mut MailboxReceiver<A>,
            cx: &mut Context<'_>,
            res: Poll<Arrival<A>>,
        | #[trigger]
            call_ensures(MailboxReceiver::<A>::poll_lanes, (receiver, cx), res) ==> {
                &&& receiver.history() == final(receiver).history().drop_last()
                &&& final(receiver).history().len() == receiver.history().len() + 1
                &&& match final(receiver).history().last() {
                    LaneEvent::Attempt(_) => false,
                    LaneEvent::Poll(poll) => match (poll.control, poll.message) {
                        (Poll::Ready(Some(signal)), None) => res == Poll::Ready(
                            Arrival::Signal(signal),
                        ),
                        (Poll::Ready(Some(_)), Some(_)) => false,
                        (_, Some(Poll::Ready(Some(queued)))) => poll.generation is Some && res
                            == Poll::Ready(
                            if poll.generation == Some(queued.generation) {
                                Arrival::Signal(queued.signal)
                            } else {
                                Arrival::<A>::Stale
                            },
                        ),
                        (_, Some(Poll::Ready(None))) => res == Poll::Ready(Arrival::<A>::Closed),
                        (_, Some(Poll::Pending)) => res is Pending,
                        (_, None) => false,
                    },
                }
            },
{
}

/// What a poll records is what the lanes answered, for the task that polls: one `poll_recv` of the
/// control lane and, only where that had no signal, one of the message lane, which is otherwise left
/// alone.
pub proof fn law_poll_asks_each_lane_once<A: Actor>()
    ensures
        forall|
            receiver: &mut MailboxReceiver<A>,
            cx: &mut Context<'_>,
            res: Poll<Arrival<A>>,
        | #[trigger]
            call_ensures(MailboxReceiver::<A>::poll_lanes, (receiver, cx), res) ==> match (
                receiver.inner(),
                final(receiver).inner(),
                final(receiver).history().last(),
            ) {
                (
                    MailboxReceiverInner::Bounded { messages: m0, control: c0 },
                    MailboxReceiverInner::Bounded { messages: m1, control: c1 },
                    LaneEvent::Poll(poll),
                ) => {
                    &&& poll.before == receiver.inner()
                    &&& poll.after == final(receiver).inner()
                    &&& match poll.message {
                        None => {
                            &&& m0 == m1
                            &&& exists|
                                control: &mut mpsc::UnboundedReceiver<Signal<A>>,
                                context: &mut Context<'_>,
                            |
                                *control == c0 && *final(control) == c1 && *context == *cx
                                    && *final(context) == *final(cx) && #[trigger] call_ensures(
                                    mpsc::UnboundedReceiver::<Signal<A>>::poll_recv,
                                    (control, context),
                                    poll.control,
                                )
                        },
                        Some(answer) => exists|
                            control: &mut mpsc::UnboundedReceiver<Signal<A>>,
                            first: &mut Context<'_>,
                            messages: &mut mpsc::Receiver<QueuedMessage<A>>,
                            second: &mut Context<'_>,
                        |
                            *control == c0 && *final(control) == c1 && *first == *cx
                                && #[trigger] call_ensures(
                                mpsc::UnboundedReceiver::<Signal<A>>::poll_recv,
                                (control, first),
                                poll.control,
                            ) && *messages == m0 && *final(messages) == m1 && *second == *final(first)
                                && *final(second) == *final(cx) && #[trigger] call_ensures(
                                mpsc::Receiver::<QueuedMessage<A>>::poll_recv,
                                (messages, second),
                                answer,
                            ),
                    }
                },
                (
                    MailboxReceiverInner::Unbounded { messages: m0, control: c0 },
                    MailboxReceiverInner::Unbounded { messages: m1, control: c1 },
                    LaneEvent::Poll(poll),
                ) => {
                    &&& poll.before == receiver.inner()
                    &&& poll.after == final(receiver).inner()
                    &&& match poll.message {
                        None => {
                            &&& m0 == m1
                            &&& exists|
                                control: &mut mpsc::UnboundedReceiver<Signal<A>>,
                                context: &mut Context<'_>,
                            |
                                *control == c0 && *final(control) == c1 && *context == *cx
                                    && *final(context) == *final(cx) && #[trigger] call_ensures(
                                    mpsc::UnboundedReceiver::<Signal<A>>::poll_recv,
                                    (control, context),
                                    poll.control,
                                )
                        },
                        Some(answer) => exists|
                            control: &mut mpsc::UnboundedReceiver<Signal<A>>,
                            first: &mut Context<'_>,
                            messages: &mut mpsc::UnboundedReceiver<QueuedMessage<A>>,
                            second: &mut Context<'_>,
                        |
                            *control == c0 && *final(control) == c1 && *first == *cx
                                && #[trigger] call_ensures(
                                mpsc::UnboundedReceiver::<Signal<A>>::poll_recv,
                                (control, first),
                                poll.control,
                            ) && *messages == m0 && *final(messages) == m1 && *second == *final(first)
                                && *final(second) == *final(cx) && #[trigger] call_ensures(
                                mpsc::UnboundedReceiver::<QueuedMessage<A>>::poll_recv,
                                (messages, second),
                                answer,
                            ),
                    }
                },
                _ => false,
            },
{
}

/// `poll_recv` makes one poll of the lanes, for the task that polls.
pub proof fn law_poll_recv_polls_the_lanes_once<A: Actor>()
    ensures
        forall|
            receiver: &mut MailboxReceiver<A>,
            cx: &mut Context<'_>,
            res: Poll<Option<Signal<A>>>,
        | #[trigger]
            call_ensures(MailboxReceiver::<A>::poll_recv, (receiver, cx), res) ==> exists|
                polled: &mut MailboxReceiver<A>,
                context: &mut Context<'_>,
                arrival: Poll<Arrival<A>>,
            |
                *polled == *receiver && *final(polled) == *final(receiver) && *context == *cx
                    && *final(context) == *final(cx) && #[trigger] call_ensures(
                    MailboxReceiver::<A>::poll_lanes,
                    (polled, context),
                    arrival,
                ),
{
}

/// The generation that a message is held against is read from the shared cell after the message
/// came out of its lane, and whether the lanes are empty is read after that.
pub proof fn law_attempt_reads_the_cell_and_the_lanes<A: Actor>()
    ensures
        forall|receiver: &mut MailboxReceiver<A>, res: Attempted<A>| #[trigger]
            call_ensures(MailboxReceiver::<A>::attempt, (receiver,), res) ==> {
                &&& final(receiver).generation_cell() == receiver.generation_cell()
                &&& final(receiver).history().last() matches LaneEvent::Attempt(attempt)
                &&& attempt.generation matches Some(generation) ==> call_ensures(
                    AtomicU64::load,
                    (&receiver.generation_cell(), Ordering::Acquire),
                    generation,
                )
                &&& attempt.message matches Some(Ok(queued)) ==> call_ensures(
                    MailboxReceiver::<A>::accept_queued_message,
                    (&receiver.generation_cell(), queued),
                    if attempt.generation == Some(queued.generation) {
                        Some(queued.signal)
                    } else {
                        None
                    },
                )
            },
        forall|receiver: &mut MailboxReceiver<A>, res: Attempted<A>| #[trigger]
            call_ensures(MailboxReceiver::<A>::attempt, (receiver,), res) ==> match (
                final(receiver).inner(),
                final(receiver).history().last(),
            ) {
                (
                    MailboxReceiverInner::Bounded { messages, control },
                    LaneEvent::Attempt(attempt),
                ) => {
                    let messages_empty = |empty: bool|
                        call_ensures(
                            mpsc::Receiver::<QueuedMessage<A>>::is_empty,
                            (&messages,),
                            empty,
                        );
                    let control_empty = |empty: bool|
                        call_ensures(
                            mpsc::UnboundedReceiver::<Signal<A>>::is_empty,
                            (&control,),
                            empty,
                        );
                    match attempt.empty {
                        None => true,
                        Some(true) => messages_empty(true) && control_empty(true),
                        Some(false) => messages_empty(false) || messages_empty(true)
                            && control_empty(false),
                    }
                },
                (
                    MailboxReceiverInner::Unbounded { messages, control },
                    LaneEvent::Attempt(attempt),
                ) => {
                    let messages_empty = |empty: bool|
                        call_ensures(
                            mpsc::UnboundedReceiver::<QueuedMessage<A>>::is_empty,
                            (&messages,),
                            empty,
                        );
                    let control_empty = |empty: bool|
                        call_ensures(
                            mpsc::UnboundedReceiver::<Signal<A>>::is_empty,
                            (&control,),
                            empty,
                        );
                    match attempt.empty {
                        None => true,
                        Some(true) => messages_empty(true) && control_empty(true),
                        Some(false) => messages_empty(false) || messages_empty(true)
                            && control_empty(false),
                    }
                },
                _ => false,
            },
{
}

/// The generation that a polled message is held against is read from the shared cell after the
/// message came out of its lane.
pub proof fn law_poll_reads_the_cell<A: Actor>()
    ensures
        forall|
            receiver: &mut MailboxReceiver<A>,
            cx: &mut Context<'_>,
            res: Poll<Arrival<A>>,
        | #[trigger]
            call_ensures(MailboxReceiver::<A>::poll_lanes, (receiver, cx), res) ==> {
                &&& final(receiver).generation_cell() == receiver.generation_cell()
                &&& final(receiver).history().last() matches LaneEvent::Poll(poll)
                &&& poll.generation matches Some(generation) ==> call_ensures(
                    AtomicU64::load,
                    (&receiver.generation_cell(), Ordering::Acquire),
                    generation,
                )
                &&& poll.message matches Some(Poll::Ready(Some(queued))) ==> call_ensures(
                    MailboxReceiver::<A>::accept_queued_message,
                    (&receiver.generation_cell(), queued),
                    if poll.generation == Some(queued.generation) {
                        Some(queued.signal)
                    } else {
                        None
                    },
                )
            },
{
}

/// `try_recv` gives what its last attempt took: a control signal, or a message with the stamp of the
/// generation that was read. It reports emptiness only where both lanes were found empty, and every
/// attempt before the last one took nothing but stale messages and found something left.
pub proof fn law_try_recv_hands_over_what_it_took<A: Actor>()
    ensures
        forall|receiver: &mut MailboxReceiver<A>, res: Result<Signal<A>, TryRecvError>| #[trigger]
            call_ensures(MailboxReceiver::<A>::try_recv, (receiver,), res) ==> {
                let before = receiver.history().len() as int;
                let events = final(receiver).history().skip(before);
                &&& receiver.history() == final(receiver).history().take(before)
                &&& final(receiver).generation_cell() == receiver.generation_cell()
                &&& 0 < events.len() <= u64::MAX
                &&& forall|i: int|
                    0 <= i < events.len() - 1 ==> match #[trigger] events[i] {
                        LaneEvent::Poll(_) => false,
                        LaneEvent::Attempt(attempt) => {
                            &&& attempt.control is Err
                            &&& attempt.empty == Some(false)
                            &&& match attempt.message {
                                None => false,
                                Some(Ok(queued)) => attempt.generation != Some(queued.generation),
                                Some(Err(error)) => error == TryRecvError::Empty,
                            }
                        },
                    }
                &&& match events.last() {
                    LaneEvent::Poll(_) => false,
                    LaneEvent::Attempt(attempt) => match (attempt.control, attempt.message) {
                        (Ok(signal), None) => res == Ok::<_, TryRecvError>(signal),
                        (Err(_), Some(Ok(queued))) => if attempt.generation == Some(
                            queued.generation,
                        ) {
                            res == Ok::<_, TryRecvError>(queued.signal)
                        } else {
                            res == Err::<Signal<A>, _>(TryRecvError::Empty) && (attempt.empty
                                == Some(true) || events.len() == u64::MAX)
                        },
                        (Err(_), Some(Err(TryRecvError::Disconnected))) => res == Err::<
                            Signal<A>,
                            _,
                        >(TryRecvError::Disconnected),
                        (Err(_), Some(Err(TryRecvError::Empty))) => res == Err::<Signal<A>, _>(
                            TryRecvError::Empty,
                        ) && (attempt.empty == Some(true) || events.len() == u64::MAX),
                        _ => false,
                    },
                }
            },
{
    assert forall|receiver: &mut MailboxReceiver<A>, res: Result<Signal<A>, TryRecvError>| #[trigger]
        call_ensures(MailboxReceiver::<A>::try_recv, (receiver,), res) implies {
        let before = receiver.history().len() as int;
        let events = final(receiver).history().skip(before);
        forall|i: int|
            0 <= i < events.len() ==> (#[trigger] events[i]).is_attempt()
    } by {
        assert(final(receiver).events_since(*receiver) == final(receiver).history().skip(
            receiver.history().len() as int,
        ));
    }
}

/// Every attempt that `try_recv` records is one that it made, in the order of the record.
pub proof fn law_try_recv_makes_its_attempts<A: Actor>()
    ensures
        forall|receiver: &mut MailboxReceiver<A>, res: Result<Signal<A>, TryRecvError>, i: int|
            #![trigger
                call_ensures(MailboxReceiver::<A>::try_recv, (receiver,), res),
                final(receiver).history()[i]]
            call_ensures(MailboxReceiver::<A>::try_recv, (receiver,), res)
                && receiver.history().len() <= i < final(receiver).history().len() ==> exists|
                asked: &mut MailboxReceiver<A>,
                answer: Attempted<A>,
            |
                asked.generation_cell() == receiver.generation_cell()
                    && final(asked).history().last() == final(receiver).history()[i]
                    && #[trigger] call_ensures(
                    MailboxReceiver::<A>::attempt,
                    (asked,),
                    answer,
                ),
{
    assert forall|receiver: &mut MailboxReceiver<A>, res: Result<Signal<A>, TryRecvError>, i: int|
        #![trigger
            call_ensures(MailboxReceiver::<A>::try_recv, (receiver,), res),
            final(receiver).history()[i]]
        call_ensures(MailboxReceiver::<A>::try_recv, (receiver,), res)
            && receiver.history().len() <= i < final(receiver).history().len() implies exists|
        asked: &mut MailboxReceiver<A>,
        answer: Attempted<A>,
    |
        asked.generation_cell() == receiver.generation_cell() && final(asked).history().last()
            == final(receiver).history()[i] && #[trigger] call_ensures(
            MailboxReceiver::<A>::attempt,
            (asked,),
            answer,
        ) by {
        let at = i - receiver.history().len();
        assert(final(receiver).events_since(*receiver)[at] == final(receiver).history()[i]);
    }
}

/// The exchanges of a receiver form a chain: each one starts from the lanes that the one before it
/// left, the first from the lanes at the start, and the last leaves the lanes at the end.
pub proof fn law_exchanges_form_a_chain<A: Actor>(
    before: MailboxReceiver<A>,
    after: MailboxReceiver<A>,
    i: int,
)
    requires
        after.follows(before),
    ensures
        after.generation_cell() == before.generation_cell(),
        after.history().len() >= before.history().len(),
        after.history().take(before.history().len() as int) == before.history(),
        after.history().len() == before.history().len() ==> after.inner() == before.inner(),
        after.history().len() > before.history().len() ==> {
            &&& after.history()[before.history().len() as int].before() == before.inner()
            &&& after.history().last().after() == after.inner()
        },
        before.history().len() <= i < after.history().len() - 1 ==> after.history()[i].after()
            == after.history()[i + 1].before(),
{
    let events = after.events_since(before);
    let start = before.history().len() as int;
    assert(events == after.history().skip(start));
    lemma_chain(before.inner(), events, after.inner(), i - start);
    if events.len() > 0 {
        lemma_chain(before.inner(), events, after.inner(), 0);
        assert(events[0] == after.history()[start]);
    }
    if start <= i < after.history().len() - 1 {
        assert(events[i - start] == after.history()[i]);
        assert(events[i - start + 1] == after.history()[i + 1]);
    }
}

proof fn lemma_chain<A: Actor>(
    start: MailboxReceiverInner<A>,
    events: Seq<LaneEvent<A>>,
    end: MailboxReceiverInner<A>,
    i: int,
)
    requires
        trace::linked(start, events, end),
    ensures
        events.len() == 0 ==> start == end,
        events.len() > 0 ==> events[0].before() == start && events.last().after() == end,
        0 <= i < events.len() - 1 ==> events[i].after() == events[i + 1].before(),
    decreases events.len(),
{
    reveal_with_fuel(trace::linked, 2);
    if events.len() > 0 {
        lemma_chain(start, events.drop_last(), events.last().before(), i);
    }
}

/// The lanes before and after an exchange, and what the exchange handed out, are those that it
/// records: a control signal, else a message with the stamp of the generation that was read.
pub proof fn law_exchange_is_what_it_records<A: Actor>(event: LaneEvent<A>)
    requires
        event.is_attempt() || event.is_poll(),
    ensures
        match event {
            LaneEvent::Attempt(attempt) => {
                &&& event.before() == attempt.before
                &&& event.after() == attempt.after
                &&& match (attempt.control, attempt.message) {
                    (Ok(signal), _) => event.delivered() == Some(signal),
                    (_, Some(Ok(queued))) => event.delivered() == if attempt.generation == Some(
                        queued.generation,
                    ) {
                        Some(queued.signal)
                    } else {
                        None
                    },
                    _ => event.delivered() is None,
                }
            },
            LaneEvent::Poll(poll) => {
                &&& event.before() == poll.before
                &&& event.after() == poll.after
                &&& match (poll.control, poll.message) {
                    (Poll::Ready(Some(signal)), _) => event.delivered() == Some(signal),
                    (_, Some(Poll::Ready(Some(queued)))) => event.delivered()
                        == if poll.generation == Some(queued.generation) {
                        Some(queued.signal)
                    } else {
                        None
                    },
                    _ => event.delivered() is None,
                }
            },
        },
{
}

/// The signals of a run of exchanges are exactly those that the single exchanges handed out, each of
/// them once and in order, whatever kind of signal it is.
pub proof fn law_signals_are_those_of_the_exchanges<A: Actor>(
    events: Seq<LaneEvent<A>>,
    event: LaneEvent<A>,
)
    ensures
        trace::signals_of(Seq::<LaneEvent<A>>::empty()) == Seq::<Signal<A>>::empty(),
        event.delivered() matches Some(signal) ==> trace::signals_of(events.push(event))
            == trace::signals_of(events).push(signal),
        event.delivered() is None ==> trace::signals_of(events.push(event)) == trace::signals_of(
            events,
        ),
{
    assert(events.push(event).drop_last() == events);
}

/// A task that waits is handed every signal that the poll took and did not find stale. It is told to
/// stop only where both lanes were found closed and empty.
pub proof fn law_recv_step_hands_over_what_it_took<A: Actor>()
    ensures
        forall|
            receiver: &mut MailboxReceiver<A>,
            cx: &mut Context<'_>,
            res: Poll<RecvStep<A>>,
        | #[trigger]
            call_ensures(MailboxReceiver::<A>::recv_step, (receiver, cx), res) ==> {
                &&& receiver.history() == final(receiver).history().drop_last()
                &&& final(receiver).history().len() == receiver.history().len() + 1
                &&& match final(receiver).history().last() {
                    LaneEvent::Attempt(_) => false,
                    LaneEvent::Poll(poll) => match (poll.control, poll.message) {
                        (Poll::Ready(Some(signal)), None) => res == Poll::Ready(
                            RecvStep::Deliver(signal),
                        ),
                        (Poll::Ready(Some(_)), Some(_)) => false,
                        (_, Some(Poll::Ready(Some(queued)))) => if poll.generation == Some(
                            queued.generation,
                        ) {
                            res == Poll::Ready(RecvStep::Deliver(queued.signal))
                        } else {
                            res == Poll::Ready(RecvStep::<A>::Finished) || res == Poll::Ready(
                                RecvStep::<A>::Again,
                            )
                        },
                        (_, Some(Poll::Ready(None))) => res == Poll::Ready(
                            RecvStep::<A>::Finished,
                        ) || res == Poll::Ready(RecvStep::<A>::Again),
                        (_, Some(Poll::Pending)) => res is Pending,
                        (_, None) => false,
                    },
                }
            },
        forall|
            receiver: &mut MailboxReceiver<A>,
            cx: &mut Context<'_>,
            res: Poll<RecvStep<A>>,
        | #[trigger]
            call_ensures(MailboxReceiver::<A>::recv_step, (receiver, cx), res) ==> match final(
                receiver
            ).inner() {
                MailboxReceiverInner::Bounded { messages, control } => {
                    let messages_closed = |closed: bool|
                        call_ensures(
                            mpsc::Receiver::<QueuedMessage<A>>::is_closed,
                            (&messages,),
                            closed,
                        );
                    let control_closed = |closed: bool|
                        call_ensures(
                            mpsc::UnboundedReceiver::<Signal<A>>::is_closed,
                            (&control,),
                            closed,
                        );
                    let messages_empty = |empty: bool|
                        call_ensures(
                            mpsc::Receiver::<QueuedMessage<A>>::is_empty,
                            (&messages,),
                            empty,
                        );
                    let control_empty = |empty: bool|
                        call_ensures(
                            mpsc::UnboundedReceiver::<Signal<A>>::is_empty,
                            (&control,),
                            empty,
                        );
                    match res {
                        Poll::Ready(RecvStep::Finished) => messages_closed(true) && control_closed(
                            true,
                        ) && messages_empty(true) && control_empty(true),
                        Poll::Ready(RecvStep::Again) => {
                            ||| messages_closed(false)
                            ||| control_closed(false)
                            ||| messages_empty(false)
                            ||| control_empty(false)
                        },
                        _ => true,
                    }
                },
                MailboxReceiverInner::Unbounded { messages, control } => {
                    let messages_closed = |closed: bool|
                        call_ensures(
                            mpsc::UnboundedReceiver::<QueuedMessage<A>>::is_closed,
                            (&messages,),
                            closed,
                        );
                    let control_closed = |closed: bool|
                        call_ensures(
                            mpsc::UnboundedReceiver::<Signal<A>>::is_closed,
                            (&control,),
                            closed,
                        );
                    let messages_empty = |empty: bool|
                        call_ensures(
                            mpsc::UnboundedReceiver::<QueuedMessage<A>>::is_empty,
                            (&messages,),
                            empty,
                        );
                    let control_empty = |empty: bool|
                        call_ensures(
                            mpsc::UnboundedReceiver::<Signal<A>>::is_empty,
                            (&control,),
                            empty,
                        );
                    match res {
                        Poll::Ready(RecvStep::Finished) => messages_closed(true) && control_closed(
                            true,
                        ) && messages_empty(true) && control_empty(true),
                        Poll::Ready(RecvStep::Again) => {
                            ||| messages_closed(false)
                            ||| control_closed(false)
                            ||| messages_empty(false)
                            ||| control_empty(false)
                        },
                        _ => true,
                    }
                },
            },
        forall|
            receiver: &mut MailboxReceiver<A>,
            cx: &mut Context<'_>,
            res: Poll<RecvStep<A>>,
        | #[trigger]
            call_ensures(MailboxReceiver::<A>::recv_step, (receiver, cx), res) ==> exists|
                polled: &mut MailboxReceiver<A>,
                context: &mut Context<'_>,
                arrival: Poll<Arrival<A>>,
            |
                *polled == *receiver && *final(polled) == *final(receiver) && *context == *cx
                    && *final(context) == *final(cx) && #[trigger] call_ensures(
                    MailboxReceiver::<A>::poll_lanes,
                    (polled, context),
                    arrival,
                ),
{
}

/// A receiver is closed exactly if the message lane and then the control lane say so.
pub proof fn law_receiver_is_closed_with_both_lanes<A: Actor>(
    receiver: MailboxReceiver<A>,
    closed: bool,
)
    requires
        call_ensures(MailboxReceiver::<A>::is_closed, (&receiver,), closed),
    ensures
        match receiver.inner() {
            MailboxReceiverInner::Bounded { messages, control } => {
                let messages_closed = |closed: bool|
                    call_ensures(
                        mpsc::Receiver::<QueuedMessage<A>>::is_closed,
                        (&messages,),
                        closed,
                    );
                let control_closed = |closed: bool|
                    call_ensures(
                        mpsc::UnboundedReceiver::<Signal<A>>::is_closed,
                        (&control,),
                        closed,
                    );
                if closed {
                    messages_closed(true) && control_closed(true)
                } else {
                    messages_closed(false) || messages_closed(true) && control_closed(false)
                }
            },
            MailboxReceiverInner::Unbounded { messages, control } => {
                let messages_closed = |closed: bool|
                    call_ensures(
                        mpsc::UnboundedReceiver::<QueuedMessage<A>>::is_closed,
                        (&messages,),
                        closed,
                    );
                let control_closed = |closed: bool|
                    call_ensures(
                        mpsc::UnboundedReceiver::<Signal<A>>::is_closed,
                        (&control,),
                        closed,
                    );
                if closed {
                    messages_closed(true) && control_closed(true)
                } else {
                    messages_closed(false) || messages_closed(true) && control_closed(false)
                }
            },
        },
{
}

/// A receiver is empty exactly if the message lane and then the control lane say so.
pub proof fn law_receiver_is_empty_with_both_lanes<A: Actor>(
    receiver: MailboxReceiver<A>,
    empty: bool,
)
    requires
        call_ensures(MailboxReceiver::<A>::is_empty, (&receiver,), empty),
    ensures
        match receiver.inner() {
            MailboxReceiverInner::Bounded { messages, control } => {
                let messages_empty = |empty: bool|
                    call_ensures(
                        mpsc::Receiver::<QueuedMessage<A>>::is_empty,
                        (&messages,),
                        empty,
                    );
                let control_empty = |empty: bool|
                    call_ensures(
                        mpsc::UnboundedReceiver::<Signal<A>>::is_empty,
                        (&control,),
                        empty,
                    );
                if empty {
                    messages_empty(true) && control_empty(true)
                } else {
                    messages_empty(false) || messages_empty(true) && control_empty(false)
                }
            },
            MailboxReceiverInner::Unbounded { messages, control } => {
                let messages_empty = |empty: bool|
                    call_ensures(
                        mpsc::UnboundedReceiver::<QueuedMessage<A>>::is_empty,
                        (&messages,),
                        empty,
                    );
                let control_empty = |empty: bool|
                    call_ensures(
                        mpsc::UnboundedReceiver::<Signal<A>>::is_empty,
                        (&control,),
                        empty,
                    );
                if empty {
                    messages_empty(true) && control_empty(true)
                } else {
                    messages_empty(false) || messages_empty(true) && control_empty(false)
                }
            },
        },
{
}

/// The length of a receiver is that of the message lane and that of the control lane together.
pub proof fn law_length_is_that_of_both_lanes<A: Actor>(receiver: MailboxReceiver<A>, len: usize)
    requires
        call_ensures(MailboxReceiver::<A>::len, (&receiver,), len),
    ensures
        match receiver.inner() {
            MailboxReceiverInner::Bounded { messages, control } => exists|
                messages_len: usize,
                control_len: usize,
            |
                #[trigger] call_ensures(
                    mpsc::Receiver::<QueuedMessage<A>>::len,
                    (&messages,),
                    messages_len,
                ) && #[trigger] call_ensures(
                    mpsc::UnboundedReceiver::<Signal<A>>::len,
                    (&control,),
                    control_len,
                ) && len == messages_len + control_len,
            MailboxReceiverInner::Unbounded { messages, control } => exists|
                messages_len: usize,
                control_len: usize,
            |
                #[trigger] call_ensures(
                    mpsc::UnboundedReceiver::<QueuedMessage<A>>::len,
                    (&messages,),
                    messages_len,
                ) && #[trigger] call_ensures(
                    mpsc::UnboundedReceiver::<Signal<A>>::len,
                    (&control,),
                    control_len,
                ) && len == messages_len + control_len,
        },
{
    let (messages_len, control_len): (usize, usize) = choose|messages: usize, control: usize|
        #[trigger] receiver.inner().messages_read_len(messages) && #[trigger]
        receiver.inner().control_read_len(control) && len == messages + control;
    assert(receiver.inner().messages_read_len(messages_len));
    assert(receiver.inner().control_read_len(control_len));
}

/// Collecting puts the first signal and then every signal that was taken behind what is in the
/// buffer, in order and whatever kind they are, and counts them. It stops at the limit, or at the
/// first attempt that found both lanes empty or the message lane at its end. Without a first signal
/// nothing is received.
pub proof fn law_collecting_keeps_every_signal<A: Actor>()
    ensures
        forall|
            receiver: &mut MailboxReceiver<A>,
            first: Option<Signal<A>>,
            buffer: &mut Vec<Signal<A>>,
            limit: usize,
            count: usize,
        | #[trigger]
            call_ensures(
                MailboxReceiver::<A>::collect_ready,
                (receiver, first, buffer, limit),
                count,
            ) && limit > 0 ==> match first {
                None => {
                    &&& count == 0
                    &&& final(buffer)@ == buffer@
                    &&& final(receiver).history() == receiver.history()
                    &&& final(receiver).inner() == receiver.inner()
                },
                Some(signal) => {
                    let events = final(receiver).history().skip(receiver.history().len() as int);
                    let taken = trace::signals_of(events);
                    &&& 0 < count <= limit
                    &&& count == 1 + taken.len()
                    &&& final(buffer)@ == buffer@ + seq![signal] + taken
                    &&& forall|i: int|
                        0 <= i < events.len() - 1 ==> match #[trigger] events[i] {
                            LaneEvent::Poll(_) => false,
                            LaneEvent::Attempt(attempt) => {
                                ||| events[i].delivered() is Some
                                ||| attempt.control is Err && attempt.empty == Some(false)
                            },
                        }
                    &&& if count == limit {
                        events.len() > 0 ==> events.last().delivered() is Some
                    } else {
                        &&& events.len() > 0
                        &&& events.last().delivered() is None
                        &&& events.last() matches LaneEvent::Attempt(attempt)
                        &&& {
                            ||| attempt.empty == Some(true)
                            ||| attempt.message == Some(
                                Err::<QueuedMessage<A>, _>(TryRecvError::Disconnected),
                            )
                            ||| events.len() >= u64::MAX
                        }
                    }
                },
            },
{
    assert forall|
        receiver: &mut MailboxReceiver<A>,
        first: Option<Signal<A>>,
        buffer: &mut Vec<Signal<A>>,
        limit: usize,
        count: usize,
    | #[trigger]
        call_ensures(
            MailboxReceiver::<A>::collect_ready,
            (receiver, first, buffer, limit),
            count,
        ) && limit > 0 implies match first {
        None => final(receiver).history() == receiver.history() && final(receiver).inner()
            == receiver.inner(),
        Some(signal) => {
            let events = final(receiver).history().skip(receiver.history().len() as int);
            &&& final(buffer)@ == buffer@ + seq![signal] + trace::signals_of(events)
            &&& events.len() > 0 ==> events[events.len() - 1].is_attempt()
        },
    } by {
        let events = final(receiver).history().skip(receiver.history().len() as int);
        assert(final(receiver).events_since(*receiver) == events);
        if first is None {
            assert(final(receiver).history() == receiver.history());
        }
    }
}

/// Polling for many puts every signal that was taken behind what is in the buffer, in order and
/// whatever kind they are. It takes nothing for a limit of zero, and only where the poll delivered a
/// signal does it go on.
pub proof fn law_polling_many_keeps_every_signal<A: Actor>()
    ensures
        forall|
            receiver: &mut MailboxReceiver<A>,
            cx: &mut Context<'_>,
            buffer: &mut Vec<Signal<A>>,
            limit: usize,
            res: Poll<usize>,
        | #[trigger]
            call_ensures(
                MailboxReceiver::<A>::poll_recv_many,
                (receiver, cx, buffer, limit),
                res,
            ) ==> {
                let events = final(receiver).history().skip(receiver.history().len() as int);
                let taken = trace::signals_of(events);
                &&& final(buffer)@ == buffer@ + taken
                &&& taken.len() <= limit
                &&& limit == 0 ==> res == Poll::Ready(0usize) && *final(receiver) == *receiver
                &&& limit > 0 ==> {
                    &&& events.len() > 0
                    &&& match events[0] {
                        LaneEvent::Attempt(_) => false,
                        LaneEvent::Poll(poll) => match (poll.control, poll.message) {
                            (Poll::Ready(Some(signal)), _) => taken.len() > 0 && taken[0] == signal
                                && (res matches Poll::Ready(count) && count == taken.len()),
                            (_, Some(Poll::Ready(Some(queued)))) => if poll.generation == Some(
                                queued.generation,
                            ) {
                                taken.len() > 0 && taken[0] == queued.signal && (
                                res matches Poll::Ready(count) && count == taken.len())
                            } else {
                                res is Pending && events.len() == 1
                            },
                            (_, Some(Poll::Ready(None))) => res == Poll::Ready(0usize)
                                && events.len() == 1,
                            _ => res is Pending && events.len() == 1,
                        },
                    }
                    &&& 0 < taken.len() < limit ==> {
                        &&& events.last() matches LaneEvent::Attempt(attempt)
                        &&& {
                            ||| attempt.empty == Some(true)
                            ||| attempt.message == Some(
                                Err::<QueuedMessage<A>, _>(TryRecvError::Disconnected),
                            )
                            ||| events.len() >= u64::MAX
                        }
                        &&& events.last().delivered() is None
                    }
                }
            },
{
    assert forall|
        receiver: &mut MailboxReceiver<A>,
        cx: &mut Context<'_>,
        buffer: &mut Vec<Signal<A>>,
        limit: usize,
        res: Poll<usize>,
    | #[trigger]
        call_ensures(
            MailboxReceiver::<A>::poll_recv_many,
            (receiver, cx, buffer, limit),
            res,
        ) implies {
        let events = final(receiver).history().skip(receiver.history().len() as int);
        let taken = trace::signals_of(events);
        let rest = trace::signals_of(events.skip(1));
        &&& limit == 0 ==> events.len() == 0
        &&& limit > 0 ==> events.len() > 0 && taken == match events[0].delivered() {
            Some(signal) => seq![signal] + rest,
            None => rest,
        }
        &&& limit > 0 && events.len() == 1 ==> rest.len() == 0
        &&& limit > 0 && events.len() > 1 ==> events.skip(1).last() == events.last()
            && events[events.len() - 1].is_attempt()
        &&& final(buffer)@ == buffer@ + taken
    } by {
        let events = final(receiver).history().skip(receiver.history().len() as int);
        assert(final(receiver).events_since(*receiver) == events);
        if limit == 0 {
            assert(events.len() == 0);
        } else {
            let poll = events[0];
            assert(events == seq![poll] + events.skip(1));
            trace::lemma_signals_of_add(seq![poll], events.skip(1));
            law_signals_are_those_of_the_exchanges(Seq::empty(), poll);
            assert(Seq::<LaneEvent<A>>::empty().push(poll) == seq![poll]);
            let rest = trace::signals_of(events.skip(1));
            if events.len() > 1 {
                assert(events.skip(1)[events.len() - 2] == events[events.len() - 1]);
            }
            if let Some(signal) = poll.delivered() {
                assert(buffer@.push(signal) + rest == buffer@ + (seq![signal] + rest));
            } else {
                assert(Seq::<Signal<A>>::empty() + rest == rest);
                assert(events.skip(1).len() == 0);
                assert(buffer@ + rest == buffer@);
            }
        }
    }
}

/// Closing closes both lanes, and receives nothing.
pub proof fn law_close_closes_both_lanes<A: Actor>()
    ensures
        forall|receiver: &mut MailboxReceiver<A>| #[trigger]
            call_ensures(MailboxReceiver::<A>::close, (receiver,), ()) ==> {
                &&& final(receiver).history() == receiver.history()
                &&& final(receiver).generation_cell() == receiver.generation_cell()
                &&& match (receiver.inner(), final(receiver).inner()) {
                    (
                        MailboxReceiverInner::Bounded {
                            messages: messages_before,
                            control: control_before,
                        },
                        MailboxReceiverInner::Bounded {
                            messages: messages_after,
                            control: control_after,
                        },
                    ) => {
                        &&& exists|
                            lane: &mut mpsc::Receiver<QueuedMessage<A>>,
                        |
                            *lane == messages_before && *final(lane) == messages_after && #[trigger]
                            call_ensures(mpsc::Receiver::<QueuedMessage<A>>::close, (lane,), ())
                        &&& exists|
                            lane: &mut mpsc::UnboundedReceiver<Signal<A>>,
                        |
                            *lane == control_before && *final(lane) == control_after && #[trigger]
                            call_ensures(mpsc::UnboundedReceiver::<Signal<A>>::close, (lane,), ())
                    },
                    (
                        MailboxReceiverInner::Unbounded {
                            messages: messages_before,
                            control: control_before,
                        },
                        MailboxReceiverInner::Unbounded {
                            messages: messages_after,
                            control: control_after,
                        },
                    ) => {
                        &&& exists|
                            lane: &mut mpsc::UnboundedReceiver<QueuedMessage<A>>,
                        |
                            *lane == messages_before && *final(lane) == messages_after && #[trigger]
                            call_ensures(
                                mpsc::UnboundedReceiver::<QueuedMessage<A>>::close,
                                (lane,),
                                (),
                            )
                        &&& exists|
                            lane: &mut mpsc::UnboundedReceiver<Signal<A>>,
                        |
                            *lane == control_before && *final(lane) == control_after && #[trigger]
                            call_ensures(mpsc::UnboundedReceiver::<Signal<A>>::close, (lane,), ())
                    },
                    _ => false,
                }
            },
{
}

/// Nothing is received for a limit of zero, and for no other limit is that known beforehand.
pub proof fn law_only_a_limit_of_zero_receives_nothing<A: Actor>(
    limit: usize,
    res: Option<usize>,
)
    requires
        call_ensures(MailboxReceiver::<A>::begin_recv_many, (limit,), res),
    ensures
        res is Some <==> limit == 0,
        res matches Some(count) ==> count == 0,
{
}

/// The handles that keep the mailbox open are counted by its message lane.
pub proof fn law_sender_count_is_that_of_the_message_lane<A: Actor>(
    receiver: MailboxReceiver<A>,
    count: usize,
)
    requires
        call_ensures(MailboxReceiver::<A>::sender_strong_count, (&receiver,), count),
    ensures
        match receiver.inner() {
            MailboxReceiverInner::Bounded { messages, control } => call_ensures(
                mpsc::Receiver::<QueuedMessage<A>>::sender_strong_count,
                (&messages,),
                count,
            ),
            MailboxReceiverInner::Unbounded { messages, control } => call_ensures(
                mpsc::UnboundedReceiver::<QueuedMessage<A>>::sender_strong_count,
                (&messages,),
                count,
            ),
        },
{
}

/// The handles that do not keep the mailbox open are counted by its message lane.
pub proof fn law_weak_sender_count_is_that_of_the_message_lane<A: Actor>(
    receiver: MailboxReceiver<A>,
    count: usize,
)
    requires
        call_ensures(MailboxReceiver::<A>::sender_weak_count, (&receiver,), count),
    ensures
        match receiver.inner() {
            MailboxReceiverInner::Bounded { messages, control } => call_ensures(
                mpsc::Receiver::<QueuedMessage<A>>::sender_weak_count,
                (&messages,),
                count,
            ),
            MailboxReceiverInner::Unbounded { messages, control } => call_ensures(
                mpsc::UnboundedReceiver::<QueuedMessage<A>>::sender_weak_count,
                (&messages,),
                count,
            ),
        },
{
}

/// What is taken out of a signal is the message that it carries. Only a message carries one.
pub proof fn law_message_is_taken_out_of_its_signal<A: Actor>(
    signal: Signal<A>,
    message: Option<A::Message>,
)
    requires
        call_ensures(Signal::<A>::into_message, (signal,), message),
    ensures
        message is Some <==> signal is Message,
        message matches Some(taken) ==> taken == signal->message,
{
}

/// Whatever `attempt` takes off a lane was sent on a lane of that kind.
pub proof fn law_attempt_takes_what_was_sent<A: Actor>()
    ensures
        forall|receiver: &mut MailboxReceiver<A>, res: Attempted<A>| #[trigger]
            call_ensures(MailboxReceiver::<A>::attempt, (receiver,), res) ==> {
                &&& final(receiver).history().last() matches LaneEvent::Attempt(attempt)
                &&& attempt.control matches Ok(signal) ==> platform::sent_unbounded(signal)
                &&& attempt.message matches Some(Ok(queued)) ==> match receiver.inner() {
                    MailboxReceiverInner::Bounded { .. } => platform::sent_bounded(queued),
                    MailboxReceiverInner::Unbounded { .. } => platform::sent_unbounded(queued),
                }
            },
{
}

/// Whatever a poll takes off a lane was sent on a lane of that kind.
pub proof fn law_poll_takes_what_was_sent<A: Actor>()
    ensures
        forall|
            receiver: &mut MailboxReceiver<A>,
            cx: &mut Context<'_>,
            res: Poll<Option<Signal<A>>>,
        | #[trigger]
            call_ensures(MailboxReceiver::<A>::poll_recv, (receiver, cx), res) ==> {
                &&& final(receiver).history().last() matches LaneEvent::Poll(poll)
                &&& poll.control matches Poll::Ready(Some(signal))
                    ==> platform::sent_unbounded(signal)
                &&& poll.message matches Some(Poll::Ready(Some(queued))) ==> match receiver.inner() {
                    MailboxReceiverInner::Bounded { .. } => platform::sent_bounded(queued),
                    MailboxReceiverInner::Unbounded { .. } => platform::sent_unbounded(queued),
                }
            },
{
}

/// A mailbox that was closed is found closed.
pub proof fn law_close_is_seen<A: Actor>()
    ensures
        forall|receiver: &mut MailboxReceiver<A>, closed: bool|
            #[trigger] call_ensures(MailboxReceiver::<A>::close, (receiver,), ())
                && #[trigger] call_ensures(
                MailboxReceiver::<A>::is_closed,
                (&*final(receiver),),
                closed,
            ) ==> closed,
{
}

/// A mailbox that was closed is still found closed after `attempt`.
pub proof fn law_closed_mailbox_is_closed_after_attempt<A: Actor>()
    ensures
        forall|
            closing: &mut MailboxReceiver<A>,
            receiver: &mut MailboxReceiver<A>,
            res: Attempted<A>,
            closed: bool,
        |
            *receiver == *final(closing) && #[trigger] call_ensures(
                MailboxReceiver::<A>::close,
                (closing,),
                (),
            ) && #[trigger] call_ensures(MailboxReceiver::<A>::attempt, (receiver,), res)
                && #[trigger] call_ensures(
                MailboxReceiver::<A>::is_closed,
                (&*final(receiver),),
                closed,
            ) ==> closed,
{
}

/// A mailbox that was closed is still found closed after `try_recv`.
pub proof fn law_closed_mailbox_is_closed_after_try_recv<A: Actor>()
    ensures
        forall|
            closing: &mut MailboxReceiver<A>,
            receiver: &mut MailboxReceiver<A>,
            res: Result<Signal<A>, TryRecvError>,
            closed: bool,
        |
            *receiver == *final(closing) && #[trigger] call_ensures(
                MailboxReceiver::<A>::close,
                (closing,),
                (),
            ) && #[trigger] call_ensures(MailboxReceiver::<A>::try_recv, (receiver,), res)
                && #[trigger] call_ensures(
                MailboxReceiver::<A>::is_closed,
                (&*final(receiver),),
                closed,
            ) ==> closed,
{
}

/// A mailbox that was closed is still found closed after `poll_recv`.
pub proof fn law_closed_mailbox_is_closed_after_poll_recv<A: Actor>()
    ensures
        forall|
            closing: &mut MailboxReceiver<A>,
            receiver: &mut MailboxReceiver<A>,
            cx: &mut Context<'_>,
            res: Poll<Option<Signal<A>>>,
            closed: bool,
        |
            *receiver == *final(closing) && #[trigger] call_ensures(
                MailboxReceiver::<A>::close,
                (closing,),
                (),
            ) && #[trigger] call_ensures(MailboxReceiver::<A>::poll_recv, (receiver, cx), res)
                && #[trigger] call_ensures(
                MailboxReceiver::<A>::is_closed,
                (&*final(receiver),),
                closed,
            ) ==> closed,
{
}

/// A new bounded mailbox holds no more messages than its buffer has room for.
pub proof fn law_new_mailbox_stays_within_its_buffer<A: Actor>(
    buffer: usize,
    sender: MailboxSender<A>,
    receiver: MailboxReceiver<A>,
    len: usize,
)
    requires
        call_ensures(crate::mailbox::bounded::<A>, (buffer,), (sender, receiver)),
    ensures
        match receiver.inner() {
            MailboxReceiverInner::Bounded { messages, control } => call_ensures(
                mpsc::Receiver::<QueuedMessage<A>>::len,
                (&messages,),
                len,
            ) ==> len <= buffer,
            MailboxReceiverInner::Unbounded { .. } => false,
        },
{
}

/// An attempt to receive keeps a bounded mailbox within every limit that it was within.
pub proof fn law_attempt_keeps_within_the_buffer<A: Actor>()
    ensures
        forall|receiver: &mut MailboxReceiver<A>, res: Attempted<A>| #[trigger]
            call_ensures(MailboxReceiver::<A>::attempt, (receiver,), res) ==> match receiver.inner() {
                MailboxReceiverInner::Bounded { messages: before, .. } => forall|limit: usize|
                    #[trigger] platform::len_within(before, limit) ==> (
                    final(receiver).inner() matches MailboxReceiverInner::Bounded {
                        messages: after,
                        ..
                    } && platform::len_within(after, limit)),
                MailboxReceiverInner::Unbounded { .. } => true,
            },
{
}

/// Receiving without waiting keeps a bounded mailbox within every limit that it was within.
pub proof fn law_try_recv_keeps_within_the_buffer<A: Actor>()
    ensures
        forall|receiver: &mut MailboxReceiver<A>, res: Result<Signal<A>, TryRecvError>| #[trigger]
            call_ensures(MailboxReceiver::<A>::try_recv, (receiver,), res)
                ==> match receiver.inner() {
                MailboxReceiverInner::Bounded { messages: before, .. } => forall|limit: usize|
                    #[trigger] platform::len_within(before, limit) ==> (
                    final(receiver).inner() matches MailboxReceiverInner::Bounded {
                        messages: after,
                        ..
                    } && platform::len_within(after, limit)),
                MailboxReceiverInner::Unbounded { .. } => true,
            },
{
    assert forall|receiver: &mut MailboxReceiver<A>, res: Result<Signal<A>, TryRecvError>|
        #[trigger] call_ensures(MailboxReceiver::<A>::try_recv, (receiver,), res)
        implies match receiver.inner() {
        MailboxReceiverInner::Bounded { messages: before, .. } => forall|limit: usize| #[trigger]
            platform::len_within(before, limit) ==> (
            final(receiver).inner() matches MailboxReceiverInner::Bounded { messages: after, .. }
                && platform::len_within(after, limit)),
        MailboxReceiverInner::Unbounded { .. } => true,
    } by {
        if let MailboxReceiverInner::Bounded { messages: before, .. } = receiver.inner() {
            assert forall|limit: usize| #[trigger] platform::len_within(before, limit) implies (
            final(receiver).inner() matches MailboxReceiverInner::Bounded { messages: after, .. }
                && platform::len_within(after, limit)) by {
                assert(receiver.inner().messages_len_within(limit));
            }
        }
    }
}

/// A poll keeps a bounded mailbox within every limit that it was within.
pub proof fn law_poll_recv_keeps_within_the_buffer<A: Actor>()
    ensures
        forall|
            receiver: &mut MailboxReceiver<A>,
            cx: &mut Context<'_>,
            res: Poll<Option<Signal<A>>>,
        | #[trigger]
            call_ensures(MailboxReceiver::<A>::poll_recv, (receiver, cx), res)
                ==> match receiver.inner() {
                MailboxReceiverInner::Bounded { messages: before, .. } => forall|limit: usize|
                    #[trigger] platform::len_within(before, limit) ==> (
                    final(receiver).inner() matches MailboxReceiverInner::Bounded {
                        messages: after,
                        ..
                    } && platform::len_within(after, limit)),
                MailboxReceiverInner::Unbounded { .. } => true,
            },
{
}

/// Closing keeps a bounded mailbox within every limit that it was within.
pub proof fn law_close_keeps_within_the_buffer<A: Actor>()
    ensures
        forall|receiver: &mut MailboxReceiver<A>| #[trigger]
            call_ensures(MailboxReceiver::<A>::close, (receiver,), ()) ==> match receiver.inner() {
                MailboxReceiverInner::Bounded { messages: before, .. } => forall|limit: usize|
                    #[trigger] platform::len_within(before, limit) ==> (
                    final(receiver).inner() matches MailboxReceiverInner::Bounded {
                        messages: after,
                        ..
                    } && platform::len_within(after, limit)),
                MailboxReceiverInner::Unbounded { .. } => true,
            },
{
}

/// Nothing is taken off the lanes by `try_recv` but in the exchanges that are recorded: the
/// first starts from the lanes as they were, each starts from what the one before it left, and the
/// last leaves the lanes as they are.
pub proof fn law_try_recv_takes_only_what_it_records<A: Actor>()
    ensures
        forall|
            receiver: &mut MailboxReceiver<A>,
            res: Result<Signal<A>, TryRecvError>,
        | #[trigger]
            call_ensures(MailboxReceiver::<A>::try_recv, (receiver,), res) ==> {
                let start = receiver.history().len() as int;
                let end = final(receiver).history().len() as int;
                &&& receiver.history() == final(receiver).history().take(start)
                &&& final(receiver).generation_cell() == receiver.generation_cell()
                &&& start == end ==> final(receiver).inner() == receiver.inner()
                &&& start < end ==> final(receiver).history()[start].before() == receiver.inner()
                    && final(receiver).history()[end - 1].after() == final(receiver).inner()
                &&& forall|i: int|
                    start <= i < end - 1 ==> (#[trigger] final(receiver).history()[i]).after()
                        == final(receiver).history()[i + 1].before()
            },
{
    assert forall|
        receiver: &mut MailboxReceiver<A>,
        res: Result<Signal<A>, TryRecvError>,
    | #[trigger]
        call_ensures(MailboxReceiver::<A>::try_recv, (receiver,), res) implies {
            let start = receiver.history().len() as int;
            let end = final(receiver).history().len() as int;
            &&& receiver.history() == final(receiver).history().take(start)
            &&& final(receiver).generation_cell() == receiver.generation_cell()
            &&& start == end ==> final(receiver).inner() == receiver.inner()
            &&& start < end ==> final(receiver).history()[start].before() == receiver.inner()
                && final(receiver).history()[end - 1].after() == final(receiver).inner()
            &&& forall|i: int|
                start <= i < end - 1 ==> (#[trigger] final(receiver).history()[i]).after()
                    == final(receiver).history()[i + 1].before()
        } by {
        law_exchanges_form_a_chain(*receiver, *final(receiver), 0);
        let start = receiver.history().len() as int;
        let end = final(receiver).history().len() as int;
        assert forall|i: int| start <= i < end - 1 implies (
        #[trigger] final(receiver).history()[i]).after() == final(receiver).history()[i
            + 1].before() by {
            law_exchanges_form_a_chain(*receiver, *final(receiver), i);
        }
    }
}

/// Nothing is taken off the lanes by collecting but in the exchanges that are recorded: the
/// first starts from the lanes as they were, each starts from what the one before it left, and the
/// last leaves the lanes as they are.
pub proof fn law_collect_ready_takes_only_what_it_records<A: Actor>()
    ensures
        forall|
            receiver: &mut MailboxReceiver<A>,
            first: Option<Signal<A>>,
            buffer: &mut Vec<Signal<A>>,
            limit: usize,
            res: usize,
        | #[trigger]
            call_ensures(
                MailboxReceiver::<A>::collect_ready,
                (receiver, first, buffer, limit),
                res,
            ) && limit > 0 ==> {
                let start = receiver.history().len() as int;
                let end = final(receiver).history().len() as int;
                &&& receiver.history() == final(receiver).history().take(start)
                &&& final(receiver).generation_cell() == receiver.generation_cell()
                &&& start == end ==> final(receiver).inner() == receiver.inner()
                &&& start < end ==> final(receiver).history()[start].before() == receiver.inner()
                    && final(receiver).history()[end - 1].after() == final(receiver).inner()
                &&& forall|i: int|
                    start <= i < end - 1 ==> (#[trigger] final(receiver).history()[i]).after()
                        == final(receiver).history()[i + 1].before()
            },
{
    assert forall|
        receiver: &mut MailboxReceiver<A>,
        first: Option<Signal<A>>,
        buffer: &mut Vec<Signal<A>>,
        limit: usize,
        res: usize,
    | #[trigger]
        call_ensures(
            MailboxReceiver::<A>::collect_ready,
            (receiver, first, buffer, limit),
            res,
        ) && limit > 0 implies {
            let start = receiver.history().len() as int;
            let end = final(receiver).history().len() as int;
            &&& receiver.history() == final(receiver).history().take(start)
            &&& final(receiver).generation_cell() == receiver.generation_cell()
            &&& start == end ==> final(receiver).inner() == receiver.inner()
            &&& start < end ==> final(receiver).history()[start].before() == receiver.inner()
                && final(receiver).history()[end - 1].after() == final(receiver).inner()
            &&& forall|i: int|
                start <= i < end - 1 ==> (#[trigger] final(receiver).history()[i]).after()
                    == final(receiver).history()[i + 1].before()
        } by {
        law_exchanges_form_a_chain(*receiver, *final(receiver), 0);
        let start = receiver.history().len() as int;
        let end = final(receiver).history().len() as int;
        assert forall|i: int| start <= i < end - 1 implies (
        #[trigger] final(receiver).history()[i]).after() == final(receiver).history()[i
            + 1].before() by {
            law_exchanges_form_a_chain(*receiver, *final(receiver), i);
        }
    }
}

/// Every attempt that collecting records is one that was made.
pub proof fn law_collect_ready_makes_its_attempts<A: Actor>()
    ensures
        forall|
            receiver: &mut MailboxReceiver<A>,
            first: Option<Signal<A>>,
            buffer: &mut Vec<Signal<A>>,
            limit: usize,
            res: usize,
            i: int,
        |
            #![trigger
                call_ensures(
                    MailboxReceiver::<A>::collect_ready,
                    (receiver, first, buffer, limit),
                    res,
                ),
                final(receiver).history()[i]]
            call_ensures(MailboxReceiver::<A>::collect_ready, (receiver, first, buffer, limit), res)
                && limit > 0 && receiver.history().len() <= i < final(receiver).history().len() ==> exists|
                asked: &mut MailboxReceiver<A>,
                answer: Attempted<A>,
            |
                asked.generation_cell() == receiver.generation_cell() && final(asked).history().last()
                    == final(receiver).history()[i] && #[trigger] call_ensures(
                    MailboxReceiver::<A>::attempt,
                    (asked,),
                    answer,
                ),
{
    assert forall|
        receiver: &mut MailboxReceiver<A>,
        first: Option<Signal<A>>,
        buffer: &mut Vec<Signal<A>>,
        limit: usize,
        res: usize,
        i: int,
    |
        #![trigger
            call_ensures(
                MailboxReceiver::<A>::collect_ready,
                (receiver, first, buffer, limit),
                res,
            ),
            final(receiver).history()[i]]
        call_ensures(MailboxReceiver::<A>::collect_ready, (receiver, first, buffer, limit), res)
            && limit > 0 && receiver.history().len() <= i < final(receiver).history().len() implies exists|
            asked: &mut MailboxReceiver<A>,
            answer: Attempted<A>,
        |
            asked.generation_cell() == receiver.generation_cell() && final(asked).history().last()
                == final(receiver).history()[i] && #[trigger] call_ensures(
                MailboxReceiver::<A>::attempt,
                (asked,),
                answer,
            ) by {
        let at = i - receiver.history().len();
        assert(final(receiver).events_since(*receiver)[at] == final(receiver).history()[i]);
    }
}

/// Nothing is taken off the lanes by polling for many but in the exchanges that are recorded: the
/// first starts from the lanes as they were, each starts from what the one before it left, and the
/// last leaves the lanes as they are.
pub proof fn law_poll_recv_many_takes_only_what_it_records<A: Actor>()
    ensures
        forall|
            receiver: &mut MailboxReceiver<A>,
            cx: &mut Context<'_>,
            buffer: &mut Vec<Signal<A>>,
            limit: usize,
            res: Poll<usize>,
        | #[trigger]
            call_ensures(
                MailboxReceiver::<A>::poll_recv_many,
                (receiver, cx, buffer, limit),
                res,
            ) ==> {
                let start = receiver.history().len() as int;
                let end = final(receiver).history().len() as int;
                &&& receiver.history() == final(receiver).history().take(start)
                &&& final(receiver).generation_cell() == receiver.generation_cell()
                &&& start == end ==> final(receiver).inner() == receiver.inner()
                &&& start < end ==> final(receiver).history()[start].before() == receiver.inner()
                    && final(receiver).history()[end - 1].after() == final(receiver).inner()
                &&& forall|i: int|
                    start <= i < end - 1 ==> (#[trigger] final(receiver).history()[i]).after()
                        == final(receiver).history()[i + 1].before()
            },
{
    assert forall|
        receiver: &mut MailboxReceiver<A>,
        cx: &mut Context<'_>,
        buffer: &mut Vec<Signal<A>>,
        limit: usize,
        res: Poll<usize>,
    | #[trigger]
        call_ensures(
            MailboxReceiver::<A>::poll_recv_many,
            (receiver, cx, buffer, limit),
            res,
        ) implies {
            let start = receiver.history().len() as int;
            let end = final(receiver).history().len() as int;
            &&& receiver.history() == final(receiver).history().take(start)
            &&& final(receiver).generation_cell() == receiver.generation_cell()
            &&& start == end ==> final(receiver).inner() == receiver.inner()
            &&& start < end ==> final(receiver).history()[start].before() == receiver.inner()
                && final(receiver).history()[end - 1].after() == final(receiver).inner()
            &&& forall|i: int|
                start <= i < end - 1 ==> (#[trigger] final(receiver).history()[i]).after()
                    == final(receiver).history()[i + 1].before()
        } by {
        law_exchanges_form_a_chain(*receiver, *final(receiver), 0);
        let start = receiver.history().len() as int;
        let end = final(receiver).history().len() as int;
        assert forall|i: int| start <= i < end - 1 implies (
        #[trigger] final(receiver).history()[i]).after() == final(receiver).history()[i
            + 1].before() by {
            law_exchanges_form_a_chain(*receiver, *final(receiver), i);
        }
    }
}

/// Every attempt that polling for many records is one that was made.
pub proof fn law_poll_recv_many_makes_its_attempts<A: Actor>()
    ensures
        forall|
            receiver: &mut MailboxReceiver<A>,
            cx: &mut Context<'_>,
            buffer: &mut Vec<Signal<A>>,
            limit: usize,
            res: Poll<usize>,
            i: int,
        |
            #![trigger
                call_ensures(
                    MailboxReceiver::<A>::poll_recv_many,
                    (receiver, cx, buffer, limit),
                    res,
                ),
                final(receiver).history()[i]]
            call_ensures(MailboxReceiver::<A>::poll_recv_many, (receiver, cx, buffer, limit), res)
                && receiver.history().len() < i < final(receiver).history().len() ==> exists|
                asked: &mut MailboxReceiver<A>,
                answer: Attempted<A>,
            |
                asked.generation_cell() == receiver.generation_cell() && final(asked).history().last()
                    == final(receiver).history()[i] && #[trigger] call_ensures(
                    MailboxReceiver::<A>::attempt,
                    (asked,),
                    answer,
                ),
{
    assert forall|
        receiver: &mut MailboxReceiver<A>,
        cx: &mut Context<'_>,
        buffer: &mut Vec<Signal<A>>,
        limit: usize,
        res: Poll<usize>,
        i: int,
    |
        #![trigger
            call_ensures(
                MailboxReceiver::<A>::poll_recv_many,
                (receiver, cx, buffer, limit),
                res,
            ),
            final(receiver).history()[i]]
        call_ensures(MailboxReceiver::<A>::poll_recv_many, (receiver, cx, buffer, limit), res)
            && receiver.history().len() < i < final(receiver).history().len() implies exists|
            asked: &mut MailboxReceiver<A>,
            answer: Attempted<A>,
        |
            asked.generation_cell() == receiver.generation_cell() && final(asked).history().last()
                == final(receiver).history()[i] && #[trigger] call_ensures(
                MailboxReceiver::<A>::attempt,
                (asked,),
                answer,
            ) by {
        let at = i - receiver.history().len();
        assert(final(receiver).events_since(*receiver)[at] == final(receiver).history()[i]);
    }
}

/// Polling for many starts with a poll, on behalf of the same task, and records it first.
pub proof fn law_poll_recv_many_polls_first<A: Actor>()
    ensures
        forall|
            receiver: &mut MailboxReceiver<A>,
            cx: &mut Context<'_>,
            buffer: &mut Vec<Signal<A>>,
            limit: usize,
            res: Poll<usize>,
        | #[trigger]
            call_ensures(
                MailboxReceiver::<A>::poll_recv_many,
                (receiver, cx, buffer, limit),
                res,
            ) && limit > 0 ==> exists|
                polled: &mut MailboxReceiver<A>,
                context: &mut Context<'_>,
                answer: Poll<Option<Signal<A>>>,
            |
                *polled == *receiver && final(polled).history().last()
                    == final(receiver).history()[receiver.history().len() as int] && *context == *cx
                    && *final(context) == *final(cx) && #[trigger] call_ensures(
                    MailboxReceiver::<A>::poll_recv,
                    (polled, context),
                    answer,
                ),
{
    assert forall|
        receiver: &mut MailboxReceiver<A>,
        cx: &mut Context<'_>,
        buffer: &mut Vec<Signal<A>>,
        limit: usize,
        res: Poll<usize>,
    | #[trigger]
        call_ensures(
            MailboxReceiver::<A>::poll_recv_many,
            (receiver, cx, buffer, limit),
            res,
        ) && limit > 0 implies final(receiver).events_since(*receiver)[0]
        == final(receiver).history()[receiver.history().len() as int] by {
    }
}

} // verus!
