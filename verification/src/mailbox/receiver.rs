//! The receiving end of a mailbox.
use std::sync::atomic::{AtomicU64, Ordering};
use std::sync::Arc;
use std::task::{Context, Poll, Waker};

use tokio::sync::mpsc;
use tokio::sync::mpsc::error::TryRecvError;
use vstd::prelude::*;

use crate::actor::Actor;
use crate::mailbox::lanes;
use crate::mailbox::lanes::{MailboxReceiverInner, QueuedMessage};
use crate::mailbox::signal::Signal;
use crate::mailbox::trace;
use crate::mailbox::trace::{Arrival, Attempt, Attempted, LaneEvent, LanePoll, RecvStep};

verus! {

/// Receives values from the associated `MailboxSender`.
///
/// Instances are created by the [`bounded`] and [`unbounded`] functions.
///
/// [`bounded`]: crate::mailbox::bounded
/// [`unbounded`]: crate::mailbox::unbounded
#[verifier::reject_recursive_types(A)]
pub struct MailboxReceiver<A: Actor> {
    inner: MailboxReceiverInner<A>,
    message_generation: Arc<AtomicU64>,
    history: Ghost<Seq<LaneEvent<A>>>,
}

impl<A: Actor> MailboxReceiver<A> {
    /// The receiving ends of the two lanes.
    pub closed spec fn inner(self) -> MailboxReceiverInner<A> {
        self.inner
    }

    /// The message generation that queued messages are held against.
    pub closed spec fn generation_cell(self) -> AtomicU64 {
        *self.message_generation
    }

    /// Every exchange that the receiver had with its lanes so far.
    pub closed spec fn history(self) -> Seq<LaneEvent<A>> {
        self.history@
    }

    /// The exchanges that were added since `before`.
    pub open spec fn events_since(self, before: Self) -> Seq<LaneEvent<A>> {
        self.history().skip(before.history().len() as int)
    }

    /// Whether the receiver is what `before` has become by some exchanges with its lanes.
    pub open spec fn follows(self, before: Self) -> bool {
        &&& before.history().is_prefix_of(self.history())
        &&& trace::linked(before.inner(), self.events_since(before), self.inner())
        &&& forall|i: int|
            0 <= i < self.events_since(before).len() ==> (#[trigger] self.events_since(
                before,
            )[i]).answered_what_was_sent()
        &&& self.generation_cell() == before.generation_cell()
        &&& before.inner().closed_for_good() ==> self.inner().closed_for_good()
        &&& forall|limit: usize| #[trigger]
            before.inner().messages_len_within(limit) ==> self.inner().messages_len_within(limit)
    }

    /// Whether the receiver is what `before` has become by `event`.
    pub open spec fn follows_by(self, before: Self, event: LaneEvent<A>) -> bool {
        &&& self.history() == before.history().push(event)
        &&& event.before() == before.inner()
        &&& event.after() == self.inner()
        &&& event.before() is Unbounded <==> event.after() is Unbounded
        &&& event.answered_what_was_sent()
        &&& self.generation_cell() == before.generation_cell()
        &&& before.inner().closed_for_good() ==> self.inner().closed_for_good()
        &&& forall|limit: usize| #[trigger]
            before.inner().messages_len_within(limit) ==> self.inner().messages_len_within(limit)
    }

    pub(crate) fn new(
        inner: MailboxReceiverInner<A>,
        message_generation: Arc<AtomicU64>,
    ) -> (res: Self)
        ensures
            res.inner() == inner,
            res.generation_cell() == *message_generation,
            res.history() == Seq::<LaneEvent<A>>::empty(),
    {
        MailboxReceiver { inner, message_generation, history: Ghost(Seq::empty()) }
    }

    /// The receiving ends of the two lanes.
    pub fn lanes(&self) -> (res: &MailboxReceiverInner<A>)
        ensures
            *res == self.inner(),
    {
        &self.inner
    }

    /// One more exchange after some others.
    proof fn lemma_follows_by(start: Self, before: Self, after: Self)
        requires
            before.follows(start),
            after.history().len() > 0,
            after.follows_by(before, after.history().last()),
        ensures
            after.follows(start),
            after.events_since(start) == before.events_since(start).push(after.history().last()),
    {
        let earlier = before.events_since(start);
        let events = after.events_since(start);
        assert(events == earlier.push(after.history().last()));
        assert(events.drop_last() == earlier);
    }

    /// Some exchanges after some others.
    proof fn lemma_follows_follows(start: Self, before: Self, after: Self)
        requires
            before.follows(start),
            after.follows(before),
        ensures
            after.follows(start),
            after.events_since(start) == before.events_since(start) + after.events_since(before),
    {
        assert(after.events_since(start) == before.events_since(start) + after.events_since(
            before,
        ));
        trace::lemma_linked_add(
            start.inner(),
            before.events_since(start),
            before.inner(),
            after.events_since(before),
            after.inner(),
        );
    }

    /// Takes a message that came out of the message lane: it is handed out if its stamp is the
    /// message generation that is read now.
    pub fn accept_queued_message(message_generation: &AtomicU64, queued: QueuedMessage<A>) -> (res:
        Option<Signal<A>>)
        ensures
            exists|generation: u64| #[trigger]
                lanes::generation_read(*message_generation, generation) && res == queued.delivered(
                    generation,
                ),
    {
        let current: u64 = message_generation.load(Ordering::Acquire);
        assert(lanes::generation_read(*message_generation, current));
        if queued.generation == current {
            Some(queued.signal)
        } else {
            None
        }
    }

    /// Asks the lanes once for a signal, without waiting.
    pub fn attempt(&mut self) -> (res: Attempted<A>)
        ensures
            final(self).history().len() > 0,
            final(self).follows_by(*old(self), final(self).history().last()),
            final(self).history().last().is_attempt(),
            res == final(self).history().last().attempted(),
            res == Attempted::<A>::Settled(Err(TryRecvError::Disconnected))
                ==> final(self).inner().messages_closed_for_good(),
            exists|lane: &mut mpsc::UnboundedReceiver<Signal<A>>|
                *lane == old(self).inner().control_lane() && *final(lane)
                    == final(self).inner().control_lane() && #[trigger] call_ensures(
                    mpsc::UnboundedReceiver::<Signal<A>>::try_recv,
                    (lane,),
                    final(self).history().last()->Attempt_0.control,
                ),
            match final(self).history().last()->Attempt_0.message {
                None => final(self).inner().same_messages(old(self).inner()),
                Some(answer) => match (old(self).inner(), final(self).inner()) {
                    (
                        MailboxReceiverInner::Bounded { messages: before, .. },
                        MailboxReceiverInner::Bounded { messages: after, .. },
                    ) => exists|lane: &mut mpsc::Receiver<QueuedMessage<A>>|
                        *lane == before && *final(lane) == after && #[trigger] call_ensures(
                            mpsc::Receiver::<QueuedMessage<A>>::try_recv,
                            (lane,),
                            answer,
                        ),
                    (
                        MailboxReceiverInner::Unbounded { messages: before, .. },
                        MailboxReceiverInner::Unbounded { messages: after, .. },
                    ) => exists|lane: &mut mpsc::UnboundedReceiver<QueuedMessage<A>>|
                        *lane == before && *final(lane) == after && #[trigger] call_ensures(
                            mpsc::UnboundedReceiver::<QueuedMessage<A>>::try_recv,
                            (lane,),
                            answer,
                        ),
                    _ => false,
                },
            },
            final(self).history().last()->Attempt_0.generation matches Some(generation)
                ==> lanes::generation_read(old(self).generation_cell(), generation),
            final(self).history().last()->Attempt_0.message matches Some(Ok(queued))
                ==> call_ensures(
                Self::accept_queued_message,
                (&old(self).generation_cell(), queued),
                queued.delivered(final(self).history().last()->Attempt_0.generation->0),
            ),
            final(self).history().last()->Attempt_0.empty matches Some(empty)
                ==> final(self).inner().read_empty(empty),
    {
        let ghost before = self.inner;
        let control = self.inner.try_control();
        let ghost control_answer = control;
        match control {
            Ok(signal) => {
                proof {
                    self.history@ = self.history@.push(
                        LaneEvent::Attempt(
                            Attempt {
                                before,
                                after: self.inner,
                                control: control_answer,
                                message: None,
                                generation: None,
                                empty: None,
                            },
                        ),
                    );
                }
                Attempted::Settled(Ok(signal))
            },
            Err(_) => {
                let message = self.inner.try_message();
                let ghost message_answer = message;
                let ghost mut generation: Option<u64> = None;
                let received = match message {
                    Ok(queued) => {
                        let accepted = Self::accept_queued_message(
                            &self.message_generation,
                            queued,
                        );
                        proof {
                            generation = Some(
                                choose|current: u64| #[trigger]
                                    lanes::generation_read(*self.message_generation, current)
                                        && accepted == queued.delivered(current),
                            );
                        }
                        match accepted {
                            Some(signal) => Ok(signal),
                            None => Err(TryRecvError::Empty),
                        }
                    },
                    Err(error) => Err(error),
                };
                let ghost mut empty_answer: Option<bool> = None;
                let res = match received {
                    Err(TryRecvError::Empty) => {
                        let empty = self.inner.is_empty();
                        proof {
                            empty_answer = Some(empty);
                        }
                        if empty {
                            Attempted::Settled(Err(TryRecvError::Empty))
                        } else {
                            Attempted::Again
                        }
                    },
                    received => Attempted::Settled(received),
                };
                proof {
                    self.history@ = self.history@.push(
                        LaneEvent::Attempt(
                            Attempt {
                                before,
                                after: self.inner,
                                control: control_answer,
                                message: Some(message_answer),
                                generation,
                                empty: empty_answer,
                            },
                        ),
                    );
                }
                res
            },
        }
    }

    /// Tries to receive the next value for this receiver.
    ///
    /// See tokio's [`mpsc::Receiver::try_recv`] and [`mpsc::UnboundedReceiver::try_recv`] docs for more info.
    ///
    /// [`mpsc::Receiver::try_recv`]: tokio::sync::mpsc::Receiver::try_recv
    /// [`mpsc::UnboundedReceiver::try_recv`]: tokio::sync::mpsc::UnboundedReceiver::try_recv
    pub fn try_recv(&mut self) -> (res: Result<Signal<A>, TryRecvError>)
        ensures
            final(self).follows(*old(self)),
            trace::tried(final(self).events_since(*old(self)), res),
            res == Err::<Signal<A>, _>(TryRecvError::Disconnected)
                ==> final(self).inner().messages_closed_for_good(),
            res == Err::<Signal<A>, _>(TryRecvError::Empty) ==> final(self).inner().read_empty(true)
                || final(self).events_since(*old(self)).len() == u64::MAX,
            forall|i: int|
                #![trigger final(self).events_since(*old(self))[i]]
                0 <= i < final(self).events_since(*old(self)).len() ==> exists|receiver: &mut Self|
                    receiver.generation_cell() == old(self).generation_cell()
                        && final(receiver).history().last() == final(self).events_since(
                        *old(self),
                    )[i] && #[trigger] call_ensures(
                        Self::attempt,
                        (receiver,),
                        final(self).events_since(*old(self))[i].attempted(),
                    ),
    {
        let ghost start = *self;
        let mut attempts: u64 = 0;
        loop
            invariant
                self.follows(start),
                start.generation_cell() == old(self).generation_cell(),
                start == *old(self),
                self.events_since(start).len() == attempts,
                attempts < u64::MAX,
                forall|i: int|
                    0 <= i < attempts ==> (#[trigger] self.events_since(start)[i]).is_attempt()
                        && self.events_since(start)[i].to_be_repeated(),
                forall|i: int|
                    #![trigger self.events_since(start)[i]]
                    0 <= i < attempts ==> exists|receiver: &mut Self|
                        receiver.generation_cell() == start.generation_cell()
                            && final(receiver).history().last() == self.events_since(start)[i]
                            && #[trigger] call_ensures(
                            Self::attempt,
                            (receiver,),
                            self.events_since(start)[i].attempted(),
                        ),
            decreases u64::MAX - attempts,
        {
            let ghost before = *self;
            let attempted = self.attempt();
            attempts = attempts + 1;
            proof {
                Self::lemma_follows_by(start, before, *self);
            }
            match attempted {
                Attempted::Settled(res) => return res,
                Attempted::Again => {
                    if attempts == u64::MAX {
                        return Err(TryRecvError::Empty);
                    }
                },
            }
        }
    }

    /// What receiving up to `limit` signals comes to before anything is received: nothing is received
    /// for a limit of zero, and for any other a first signal has to come.
    pub fn begin_recv_many(limit: usize) -> (res: Option<usize>)
        ensures
            res == (if limit == 0 {
                Some(0usize)
            } else {
                None
            }),
    {
        if limit == 0 {
            Some(0)
        } else {
            None
        }
    }

    /// Adds `first` to `buffer`, and after it what can be received without waiting, up to `limit`
    /// signals in all. Returns how many signals were added, and adds none if there is no `first`.
    pub fn collect_ready(
        &mut self,
        first: Option<Signal<A>>,
        buffer: &mut Vec<Signal<A>>,
        limit: usize,
    ) -> (count: usize)
        requires
            limit > 0,
        ensures
            final(self).follows(*old(self)),
            trace::collected(
                first,
                final(self).events_since(*old(self)),
                old(buffer)@,
                final(buffer)@,
                limit,
                count,
            ),
            0 < count < limit ==> {
                ||| final(self).inner().read_empty(true)
                ||| final(self).inner().messages_closed_for_good()
                ||| final(self).events_since(*old(self)).len() >= u64::MAX
            },
            forall|i: int|
                #![trigger final(self).events_since(*old(self))[i]]
                0 <= i < final(self).events_since(*old(self)).len() ==> exists|receiver: &mut Self|
                    receiver.generation_cell() == old(self).generation_cell()
                        && final(receiver).history().last() == final(self).events_since(
                        *old(self),
                    )[i] && #[trigger] call_ensures(
                        Self::attempt,
                        (receiver,),
                        final(self).events_since(*old(self))[i].attempted(),
                    ),
    {
        let ghost start = *self;
        assert(self.events_since(start) == Seq::<LaneEvent<A>>::empty());
        let signal = match first {
            Some(signal) => signal,
            None => {
                return 0;
            },
        };
        let ghost buffer_before = buffer@;
        buffer.push(signal);
        let mut count: usize = 1;
        while count < limit
            invariant
                self.follows(start),
                start == *old(self),
                first == Some(signal),
                buffer_before == old(buffer)@,
                trace::collected_so_far(
                    signal,
                    self.events_since(start),
                    buffer_before,
                    buffer@,
                    limit,
                    count,
                ),
                forall|i: int|
                    #![trigger self.events_since(start)[i]]
                    0 <= i < self.events_since(start).len() ==> exists|receiver: &mut Self|
                        receiver.generation_cell() == start.generation_cell()
                            && final(receiver).history().last() == self.events_since(start)[i]
                            && #[trigger] call_ensures(
                            Self::attempt,
                            (receiver,),
                            self.events_since(start)[i].attempted(),
                        ),
            decreases limit - count,
        {
            let ghost before = *self;
            let res = self.try_recv();
            proof {
                Self::lemma_follows_follows(start, before, *self);
                trace::lemma_tried_signals(self.events_since(before), res);
                trace::lemma_signals_of_add(before.events_since(start), self.events_since(before));
                trace::lemma_tried_again(before.events_since(start), self.events_since(before), res);
            }
            match res {
                Ok(next) => {
                    buffer.push(next);
                    assert(buffer@ == buffer_before.push(signal) + trace::signals_of(
                        self.events_since(start),
                    ));
                    count = count + 1;
                },
                Err(_) => {
                    return count;
                },
            }
        }
        count
    }

    /// Polls the lanes once: the control lane first, and the message lane where the control lane
    /// has no signal.
    pub fn poll_lanes(&mut self, cx: &mut Context<'_>) -> (res: Poll<Arrival<A>>)
        ensures
            final(self).history().len() > 0,
            final(self).follows_by(*old(self), final(self).history().last()),
            final(self).history().last().is_poll(),
            res == final(self).history().last()->Poll_0.arrival(),
            res == Poll::Ready(Arrival::<A>::Closed)
                ==> final(self).inner().messages_closed_for_good(),
            match final(self).history().last()->Poll_0.message {
                None => {
                    &&& final(self).inner().same_messages(old(self).inner())
                    &&& exists|
                        control: &mut mpsc::UnboundedReceiver<Signal<A>>,
                        context: &mut Context<'_>,
                    |
                        *control == old(self).inner().control_lane() && *final(control)
                            == final(self).inner().control_lane() && *context == *old(cx)
                            && *final(context) == *final(cx) && #[trigger] call_ensures(
                            mpsc::UnboundedReceiver::<Signal<A>>::poll_recv,
                            (control, context),
                            final(self).history().last()->Poll_0.control,
                        )
                },
                Some(answer) => match (old(self).inner(), final(self).inner()) {
                    (
                        MailboxReceiverInner::Bounded { messages: before, .. },
                        MailboxReceiverInner::Bounded { messages: after, .. },
                    ) => exists|
                        control: &mut mpsc::UnboundedReceiver<Signal<A>>,
                        first: &mut Context<'_>,
                        messages: &mut mpsc::Receiver<QueuedMessage<A>>,
                        second: &mut Context<'_>,
                    |
                        *control == old(self).inner().control_lane() && *final(control)
                            == final(self).inner().control_lane() && *first == *old(cx)
                            && #[trigger] call_ensures(
                            mpsc::UnboundedReceiver::<Signal<A>>::poll_recv,
                            (control, first),
                            final(self).history().last()->Poll_0.control,
                        ) && *messages == before && *final(messages) == after && *second == *final(
                            first
                        ) && *final(second) == *final(cx) && #[trigger] call_ensures(
                            mpsc::Receiver::<QueuedMessage<A>>::poll_recv,
                            (messages, second),
                            answer,
                        ),
                    (
                        MailboxReceiverInner::Unbounded { messages: before, .. },
                        MailboxReceiverInner::Unbounded { messages: after, .. },
                    ) => exists|
                        control: &mut mpsc::UnboundedReceiver<Signal<A>>,
                        first: &mut Context<'_>,
                        messages: &mut mpsc::UnboundedReceiver<QueuedMessage<A>>,
                        second: &mut Context<'_>,
                    |
                        *control == old(self).inner().control_lane() && *final(control)
                            == final(self).inner().control_lane() && *first == *old(cx)
                            && #[trigger] call_ensures(
                            mpsc::UnboundedReceiver::<Signal<A>>::poll_recv,
                            (control, first),
                            final(self).history().last()->Poll_0.control,
                        ) && *messages == before && *final(messages) == after && *second == *final(
                            first
                        ) && *final(second) == *final(cx) && #[trigger] call_ensures(
                            mpsc::UnboundedReceiver::<QueuedMessage<A>>::poll_recv,
                            (messages, second),
                            answer,
                        ),
                    _ => false,
                },
            },
            final(self).history().last()->Poll_0.generation matches Some(generation)
                ==> lanes::generation_read(old(self).generation_cell(), generation),
            final(self).history().last()->Poll_0.message matches Some(Poll::Ready(Some(queued)))
                ==> call_ensures(
                Self::accept_queued_message,
                (&old(self).generation_cell(), queued),
                queued.delivered(final(self).history().last()->Poll_0.generation->0),
            ),
    {
        let ghost before = self.inner;
        let control = self.inner.poll_control(cx);
        let ghost control_answer = control;
        let ghost mut message_answer: Option<Poll<Option<QueuedMessage<A>>>> = None;
        let ghost mut generation: Option<u64> = None;
        let res = match control {
            Poll::Ready(Some(signal)) => Poll::Ready(Arrival::Signal(signal)),
            _ => {
                let message = self.inner.poll_message(cx);
                proof {
                    message_answer = Some(message);
                }
                match message {
                    Poll::Ready(Some(queued)) => {
                        let accepted = Self::accept_queued_message(
                            &self.message_generation,
                            queued,
                        );
                        proof {
                            generation = Some(
                                choose|current: u64| #[trigger]
                                    lanes::generation_read(*self.message_generation, current)
                                        && accepted == queued.delivered(current),
                            );
                        }
                        match accepted {
                            Some(signal) => Poll::Ready(Arrival::Signal(signal)),
                            None => Poll::Ready(Arrival::Stale),
                        }
                    },
                    Poll::Ready(None) => Poll::Ready(Arrival::Closed),
                    Poll::Pending => Poll::Pending,
                }
            },
        };
        proof {
            self.history@ = self.history@.push(
                LaneEvent::Poll(
                    LanePoll {
                        before,
                        after: self.inner,
                        control: control_answer,
                        message: message_answer,
                        generation,
                    },
                ),
            );
        }
        res
    }

    /// Polls to receive the next message on this channel.
    ///
    /// A message from another generation is discarded. The task is then woken, so that it polls
    /// again.
    ///
    /// See tokio's [`mpsc::Receiver::poll_recv`] and [`mpsc::UnboundedReceiver::poll_recv`] docs for more info.
    ///
    /// [`mpsc::Receiver::poll_recv`]: tokio::sync::mpsc::Receiver::poll_recv
    /// [`mpsc::UnboundedReceiver::poll_recv`]: tokio::sync::mpsc::UnboundedReceiver::poll_recv
    pub fn poll_recv(&mut self, cx: &mut Context<'_>) -> (res: Poll<Option<Signal<A>>>)
        ensures
            final(self).history().len() > 0,
            final(self).follows_by(*old(self), final(self).history().last()),
            final(self).history().last().is_poll(),
            res == final(self).history().last()->Poll_0.polled(),
            res == Poll::Ready(None::<Signal<A>>)
                ==> final(self).inner().messages_closed_for_good(),
            exists|receiver: &mut Self, context: &mut Context<'_>|
                *receiver == *old(self) && *final(receiver) == *final(self) && *context == *old(cx)
                    && *final(context) == *final(cx) && #[trigger] call_ensures(
                    Self::poll_lanes,
                    (receiver, context),
                    final(self).history().last()->Poll_0.arrival(),
                ),
            final(self).history().last()->Poll_0.arrival() == Poll::Ready(Arrival::<A>::Stale)
                ==> exists|waker: &Waker| #[trigger]
                call_ensures(Context::waker, (&*final(cx),), waker) && call_ensures(
                    Waker::wake_by_ref,
                    (waker,),
                    (),
                ),
    {
        match self.poll_lanes(cx) {
            Poll::Ready(Arrival::Signal(signal)) => Poll::Ready(Some(signal)),
            Poll::Ready(Arrival::Closed) => Poll::Ready(None),
            Poll::Ready(Arrival::Stale) => {
                cx.waker().wake_by_ref();
                Poll::Pending
            },
            Poll::Pending => Poll::Pending,
        }
    }

    /// Polls the lanes once for a task that waits for the next signal.
    pub fn recv_step(&mut self, cx: &mut Context<'_>) -> (res: Poll<RecvStep<A>>)
        ensures
            final(self).history().len() > 0,
            final(self).follows_by(*old(self), final(self).history().last()),
            final(self).history().last().is_poll(),
            match final(self).history().last()->Poll_0.arrival() {
                Poll::Pending => res == Poll::<RecvStep<A>>::Pending,
                Poll::Ready(Arrival::Signal(signal)) => res == Poll::Ready(
                    RecvStep::Deliver(signal),
                ),
                _ => {
                    ||| res == Poll::Ready(RecvStep::<A>::Finished)
                        && final(self).inner().read_over(true)
                    ||| res == Poll::Ready(RecvStep::<A>::Again)
                        && final(self).inner().read_over(false)
                },
            },
            exists|receiver: &mut Self, context: &mut Context<'_>|
                *receiver == *old(self) && *final(receiver) == *final(self) && *context == *old(cx)
                    && *final(context) == *final(cx) && #[trigger] call_ensures(
                    Self::poll_lanes,
                    (receiver, context),
                    final(self).history().last()->Poll_0.arrival(),
                ),
    {
        match self.poll_lanes(cx) {
            Poll::Ready(Arrival::Signal(signal)) => Poll::Ready(RecvStep::Deliver(signal)),
            Poll::Pending => Poll::Pending,
            _ => {
                if self.inner.is_closed() && self.inner.is_empty() {
                    Poll::Ready(RecvStep::Finished)
                } else {
                    Poll::Ready(RecvStep::Again)
                }
            },
        }
    }

    /// Polls to receive multiple messages on this channel, extending the provided buffer.
    ///
    /// See tokio's [`mpsc::Receiver::poll_recv_many`] and [`mpsc::UnboundedReceiver::poll_recv_many`] docs for more info.
    ///
    /// [`mpsc::Receiver::poll_recv_many`]: tokio::sync::mpsc::Receiver::poll_recv_many
    /// [`mpsc::UnboundedReceiver::poll_recv_many`]: tokio::sync::mpsc::UnboundedReceiver::poll_recv_many
    pub fn poll_recv_many(
        &mut self,
        cx: &mut Context<'_>,
        buffer: &mut Vec<Signal<A>>,
        limit: usize,
    ) -> (res: Poll<usize>)
        ensures
            final(self).follows(*old(self)),
            limit == 0 ==> {
                &&& res == Poll::Ready(0usize)
                &&& *final(self) == *old(self)
                &&& *final(cx) == *old(cx)
                &&& *final(buffer) == *old(buffer)
            },
            limit > 0 ==> trace::collected_after_poll(
                final(self).events_since(*old(self)),
                old(buffer)@,
                final(buffer)@,
                limit,
                res,
            ),
            limit > 0 ==> exists|receiver: &mut Self, context: &mut Context<'_>|
                *receiver == *old(self) && final(receiver).history().last()
                    == final(self).events_since(*old(self))[0] && *context == *old(cx)
                    && *final(context) == *final(cx) && #[trigger] call_ensures(
                    Self::poll_recv,
                    (receiver, context),
                    final(self).events_since(*old(self))[0]->Poll_0.polled(),
                ),
            forall|i: int|
                #![trigger final(self).events_since(*old(self))[i]]
                1 <= i < final(self).events_since(*old(self)).len() ==> exists|receiver: &mut Self|
                    receiver.generation_cell() == old(self).generation_cell()
                        && final(receiver).history().last() == final(self).events_since(
                        *old(self),
                    )[i] && #[trigger] call_ensures(
                        Self::attempt,
                        (receiver,),
                        final(self).events_since(*old(self))[i].attempted(),
                    ),
    {
        let ghost start = *self;
        assert(self.events_since(start) == Seq::<LaneEvent<A>>::empty());
        if let Some(count) = Self::begin_recv_many(limit) {
            return Poll::Ready(count);
        }
        let polled = self.poll_recv(cx);
        let ghost after_poll = *self;
        proof {
            Self::lemma_follows_by(start, start, after_poll);
        }
        let ghost poll = after_poll.history().last();
        assert(after_poll.events_since(start) == seq![poll]);
        match polled {
            Poll::Ready(Some(signal)) => {
                let count = self.collect_ready(Some(signal), buffer, limit);
                proof {
                    Self::lemma_follows_follows(start, after_poll, *self);
                    let events = self.events_since(start);
                    assert(events.skip(1) == self.events_since(after_poll));
                    assert forall|i: int| 1 <= i < events.len() implies #[trigger] events[i]
                        == self.events_since(after_poll)[i - 1] by {}
                }
                Poll::Ready(count)
            },
            Poll::Ready(None) => Poll::Ready(0),
            Poll::Pending => Poll::Pending,
        }
    }

    /// Closes the receiving half of a channel, without dropping it.
    ///
    /// See tokio's [`mpsc::Receiver::close`] and [`mpsc::UnboundedReceiver::close`] docs for more info.
    ///
    /// [`mpsc::Receiver::close`]: tokio::sync::mpsc::Receiver::close
    /// [`mpsc::UnboundedReceiver::close`]: tokio::sync::mpsc::UnboundedReceiver::close
    pub fn close(&mut self)
        ensures
            final(self).inner().closed_for_good(),
            forall|limit: usize| #[trigger]
                old(self).inner().messages_len_within(limit)
                    ==> final(self).inner().messages_len_within(limit),
            final(self).history() == old(self).history(),
            final(self).generation_cell() == old(self).generation_cell(),
            exists|lane: &mut mpsc::UnboundedReceiver<Signal<A>>|
                *lane == old(self).inner().control_lane() && *final(lane)
                    == final(self).inner().control_lane() && #[trigger] call_ensures(
                    mpsc::UnboundedReceiver::<Signal<A>>::close,
                    (lane,),
                    (),
                ),
            match (old(self).inner(), final(self).inner()) {
                (
                    MailboxReceiverInner::Bounded { messages: before, .. },
                    MailboxReceiverInner::Bounded { messages: after, .. },
                ) => exists|lane: &mut mpsc::Receiver<QueuedMessage<A>>|
                    *lane == before && *final(lane) == after && #[trigger] call_ensures(
                        mpsc::Receiver::<QueuedMessage<A>>::close,
                        (lane,),
                        (),
                    ),
                (
                    MailboxReceiverInner::Unbounded { messages: before, .. },
                    MailboxReceiverInner::Unbounded { messages: after, .. },
                ) => exists|lane: &mut mpsc::UnboundedReceiver<QueuedMessage<A>>|
                    *lane == before && *final(lane) == after && #[trigger] call_ensures(
                        mpsc::UnboundedReceiver::<QueuedMessage<A>>::close,
                        (lane,),
                        (),
                    ),
                _ => false,
            },
    {
        match &mut self.inner {
            MailboxReceiverInner::Bounded { messages, control } => {
                messages.close();
                control.close();
            },
            MailboxReceiverInner::Unbounded { messages, control } => {
                messages.close();
                control.close();
            },
        }
    }

    /// Checks if a channel is closed.
    ///
    /// See tokio's [`mpsc::Receiver::is_closed`] and [`mpsc::UnboundedReceiver::is_closed`] docs for more info.
    ///
    /// [`mpsc::Receiver::is_closed`]: tokio::sync::mpsc::Receiver::is_closed
    /// [`mpsc::UnboundedReceiver::is_closed`]: tokio::sync::mpsc::UnboundedReceiver::is_closed
    pub fn is_closed(&self) -> (res: bool)
        ensures
            self.inner().read_closed(res),
            self.inner().closed_for_good() ==> res,
    {
        self.inner.is_closed()
    }

    /// Checks if a channel is empty.
    ///
    /// See tokio's [`mpsc::Receiver::is_empty`] and [`mpsc::UnboundedReceiver::is_empty`] docs for more info.
    ///
    /// [`mpsc::Receiver::is_empty`]: tokio::sync::mpsc::Receiver::is_empty
    /// [`mpsc::UnboundedReceiver::is_empty`]: tokio::sync::mpsc::UnboundedReceiver::is_empty
    pub fn is_empty(&self) -> (res: bool)
        ensures
            self.inner().read_empty(res),
    {
        self.inner.is_empty()
    }

    /// Returns the number of messages in the channel.
    ///
    /// See tokio's [`mpsc::Receiver::len`] and [`mpsc::UnboundedReceiver::len`] docs for more info.
    ///
    /// [`mpsc::Receiver::len`]: tokio::sync::mpsc::Receiver::len
    /// [`mpsc::UnboundedReceiver::len`]: tokio::sync::mpsc::UnboundedReceiver::len
    pub fn len(&self) -> (res: usize)
        ensures
            exists|messages: usize, control: usize| #[trigger]
                self.inner().messages_read_len(messages) && #[trigger]
                self.inner().control_read_len(control) && res == messages + control,
    {
        match &self.inner {
            MailboxReceiverInner::Bounded { messages, control } => {
                let messages_len: usize = messages.len();
                let control_len: usize = control.len();
                assert(self.inner().messages_read_len(messages_len));
                assert(self.inner().control_read_len(control_len));
                messages_len + control_len
            },
            MailboxReceiverInner::Unbounded { messages, control } => {
                let messages_len: usize = messages.len();
                let control_len: usize = control.len();
                assert(self.inner().messages_read_len(messages_len));
                assert(self.inner().control_read_len(control_len));
                messages_len + control_len
            },
        }
    }

    /// Returns the number of [`MailboxSender`] handles.
    ///
    /// See tokio's [`mpsc::Receiver::sender_strong_count`] and [`mpsc::UnboundedReceiver::sender_strong_count`] docs for more info.
    ///
    /// [`mpsc::Receiver::sender_strong_count`]: tokio::sync::mpsc::Receiver::sender_strong_count
    /// [`mpsc::UnboundedReceiver::sender_strong_count`]: tokio::sync::mpsc::UnboundedReceiver::sender_strong_count
    pub fn sender_strong_count(&self) -> (res: usize)
        ensures
            match self.inner() {
                MailboxReceiverInner::Bounded { messages, .. } => call_ensures(
                    mpsc::Receiver::<QueuedMessage<A>>::sender_strong_count,
                    (&messages,),
                    res,
                ),
                MailboxReceiverInner::Unbounded { messages, .. } => call_ensures(
                    mpsc::UnboundedReceiver::<QueuedMessage<A>>::sender_strong_count,
                    (&messages,),
                    res,
                ),
            },
    {
        match &self.inner {
            MailboxReceiverInner::Bounded { messages, .. } => messages.sender_strong_count(),
            MailboxReceiverInner::Unbounded { messages, .. } => messages.sender_strong_count(),
        }
    }

    /// Returns the number of [`WeakMailboxSender`] handles.
    ///
    /// See tokio's [`mpsc::Receiver::sender_weak_count`] and [`mpsc::UnboundedReceiver::sender_weak_count`] docs for more info.
    ///
    /// [`mpsc::Receiver::sender_weak_count`]: tokio::sync::mpsc::Receiver::sender_weak_count
    /// [`mpsc::UnboundedReceiver::sender_weak_count`]: tokio::sync::mpsc::UnboundedReceiver::sender_weak_count
    pub fn sender_weak_count(&self) -> (res: usize)
        ensures
            match self.inner() {
                MailboxReceiverInner::Bounded { messages, .. } => call_ensures(
                    mpsc::Receiver::<QueuedMessage<A>>::sender_weak_count,
                    (&messages,),
                    res,
                ),
                MailboxReceiverInner::Unbounded { messages, .. } => call_ensures(
                    mpsc::UnboundedReceiver::<QueuedMessage<A>>::sender_weak_count,
                    (&messages,),
                    res,
                ),
            },
    {
        match &self.inner {
            MailboxReceiverInner::Bounded { messages, .. } => messages.sender_weak_count(),
            MailboxReceiverInner::Unbounded { messages, .. } => messages.sender_weak_count(),
        }
    }
}

} // verus!
