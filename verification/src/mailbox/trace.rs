//! What a mailbox receiver asked its lanes, and what they answered.
use std::task::Poll;

use tokio::sync::mpsc::error::TryRecvError;
use vstd::prelude::*;

use crate::actor::Actor;
use crate::mailbox::lanes::{MailboxReceiverInner, QueuedMessage};
use crate::mailbox::signal::Signal;
use crate::platform;

verus! {

/// What the lanes answered to one attempt to receive without waiting.
#[verifier::reject_recursive_types(A)]
pub struct Attempt<A: Actor> {
    /// The lanes before the attempt.
    pub before: MailboxReceiverInner<A>,
    /// The lanes after the attempt.
    pub after: MailboxReceiverInner<A>,
    /// What the control lane answered.
    pub control: Result<Signal<A>, TryRecvError>,
    /// What the message lane answered, if it was asked.
    pub message: Option<Result<QueuedMessage<A>, TryRecvError>>,
    /// The message generation that a message was held against.
    pub generation: Option<u64>,
    /// Whether both lanes were found empty afterwards, if that was asked.
    pub empty: Option<bool>,
}

impl<A: Actor> Attempt<A> {
    /// What the attempt came to: a control signal wins over a message, and a message from another
    /// generation counts for nothing.
    pub open spec fn outcome(self) -> Result<Signal<A>, TryRecvError> {
        match self.control {
            Ok(signal) => Ok(signal),
            Err(_) => match self.message->0 {
                Ok(queued) => match queued.delivered(self.generation->0) {
                    Some(signal) => Ok(signal),
                    None => Err(TryRecvError::Empty),
                },
                Err(error) => Err(error),
            },
        }
    }

    /// Whether exactly the questions were asked that the earlier answers call for: the message
    /// lane only when the control lane had nothing, the generation only for a message, and
    /// whether the lanes are empty only when there was nothing to hand out.
    pub open spec fn well_formed(self) -> bool {
        &&& self.message is Some <==> self.control is Err
        &&& self.generation is Some <==> (self.message is Some && self.message->0 is Ok)
        &&& self.empty is Some <==> self.outcome() == Err::<Signal<A>, _>(TryRecvError::Empty)
    }

    /// Whether what a lane handed over had been sent to a lane of its kind.
    pub open spec fn answered_what_was_sent(self) -> bool {
        &&& self.control matches Ok(signal) ==> platform::sent_unbounded(signal)
        &&& self.message matches Some(Ok(queued)) ==> self.before.message_sent(queued)
    }

    /// Whether the attempt handed out nothing although something was left in the lanes.
    pub open spec fn to_be_repeated(self) -> bool {
        self.empty == Some(false)
    }
}

/// What became of one attempt to receive without waiting.
pub enum Attempted<A: Actor> {
    /// The attempt settles what is received.
    Settled(Result<Signal<A>, TryRecvError>),
    /// Nothing was handed out although something is left in the lanes.
    Again,
}

/// What became of one poll of both lanes.
pub enum Arrival<A: Actor> {
    /// A signal to hand out.
    Signal(Signal<A>),
    /// A message from another generation, which was discarded.
    Stale,
    /// The end of the message lane.
    Closed,
}

/// What a task that waits for the next signal does after one poll of both lanes.
pub enum RecvStep<A: Actor> {
    /// Hand out a signal.
    Deliver(Signal<A>),
    /// Report that there will be no more signals.
    Finished,
    /// Poll again.
    Again,
}

/// What the lanes answered to one poll.
#[verifier::reject_recursive_types(A)]
pub struct LanePoll<A: Actor> {
    /// The lanes before the poll.
    pub before: MailboxReceiverInner<A>,
    /// The lanes after the poll.
    pub after: MailboxReceiverInner<A>,
    /// What the control lane answered.
    pub control: Poll<Option<Signal<A>>>,
    /// What the message lane answered, if it was asked.
    pub message: Option<Poll<Option<QueuedMessage<A>>>>,
    /// The message generation that a message was held against.
    pub generation: Option<u64>,
}

impl<A: Actor> LanePoll<A> {
    /// What the poll came to: a control signal wins over whatever the message lane holds.
    pub open spec fn arrival(self) -> Poll<Arrival<A>> {
        match self.control {
            Poll::Ready(Some(signal)) => Poll::Ready(Arrival::Signal(signal)),
            _ => match self.message->0 {
                Poll::Ready(Some(queued)) => match queued.delivered(self.generation->0) {
                    Some(signal) => Poll::Ready(Arrival::Signal(signal)),
                    None => Poll::Ready(Arrival::Stale),
                },
                Poll::Ready(None) => Poll::Ready(Arrival::Closed),
                Poll::Pending => Poll::Pending,
            },
        }
    }

    /// What a task that polls for the next signal is told. It is told to wait where a message was
    /// discarded.
    pub open spec fn polled(self) -> Poll<Option<Signal<A>>> {
        match self.arrival() {
            Poll::Ready(Arrival::Signal(signal)) => Poll::Ready(Some(signal)),
            Poll::Ready(Arrival::Closed) => Poll::Ready(None),
            Poll::Ready(Arrival::Stale) => Poll::Pending,
            Poll::Pending => Poll::Pending,
        }
    }

    /// Whether the control lane had a signal.
    pub open spec fn control_ready(self) -> bool {
        match self.control {
            Poll::Ready(Some(_)) => true,
            _ => false,
        }
    }

    /// Whether the message lane had a message.
    pub open spec fn message_ready(self) -> bool {
        match self.message {
            Some(Poll::Ready(Some(_))) => true,
            _ => false,
        }
    }

    /// Whether what a lane handed over had been sent to a lane of its kind.
    pub open spec fn answered_what_was_sent(self) -> bool {
        &&& self.control matches Poll::Ready(Some(signal)) ==> platform::sent_unbounded(signal)
        &&& self.message matches Some(Poll::Ready(Some(queued))) ==> self.before.message_sent(
            queued,
        )
    }

    /// Whether exactly the questions were asked that the earlier answers call for.
    pub open spec fn well_formed(self) -> bool {
        &&& self.message is Some <==> !self.control_ready()
        &&& self.generation is Some <==> self.message_ready()
    }
}

/// One exchange between a mailbox receiver and its lanes.
#[verifier::reject_recursive_types(A)]
pub enum LaneEvent<A: Actor> {
    /// An attempt to receive without waiting.
    Attempt(Attempt<A>),
    /// A poll on behalf of a waiting task.
    Poll(LanePoll<A>),
}

impl<A: Actor> LaneEvent<A> {
    /// The lanes before the exchange.
    pub open spec fn before(self) -> MailboxReceiverInner<A> {
        match self {
            LaneEvent::Attempt(attempt) => attempt.before,
            LaneEvent::Poll(poll) => poll.before,
        }
    }

    /// The lanes after the exchange.
    pub open spec fn after(self) -> MailboxReceiverInner<A> {
        match self {
            LaneEvent::Attempt(attempt) => attempt.after,
            LaneEvent::Poll(poll) => poll.after,
        }
    }

    /// The signal that the exchange handed out.
    pub open spec fn delivered(self) -> Option<Signal<A>> {
        match self {
            LaneEvent::Attempt(attempt) => match attempt.outcome() {
                Ok(signal) => Some(signal),
                Err(_) => None,
            },
            LaneEvent::Poll(poll) => match poll.arrival() {
                Poll::Ready(Arrival::Signal(signal)) => Some(signal),
                _ => None,
            },
        }
    }

    /// Whether what a lane handed over had been sent to a lane of its kind.
    pub open spec fn answered_what_was_sent(self) -> bool {
        match self {
            LaneEvent::Attempt(attempt) => attempt.answered_what_was_sent(),
            LaneEvent::Poll(poll) => poll.answered_what_was_sent(),
        }
    }

    /// Whether the exchange is a poll that asked what it should.
    pub open spec fn is_poll(self) -> bool {
        self matches LaneEvent::Poll(poll) && poll.well_formed()
    }

    /// Whether the exchange is an attempt that asked what it should.
    pub open spec fn is_attempt(self) -> bool {
        self matches LaneEvent::Attempt(attempt) && attempt.well_formed()
    }

    /// Whether the exchange is an attempt that has to be repeated.
    pub open spec fn to_be_repeated(self) -> bool {
        self matches LaneEvent::Attempt(attempt) && attempt.to_be_repeated()
    }

    /// What the caller of the attempt is told.
    pub open spec fn attempted(self) -> Attempted<A> {
        if self.to_be_repeated() {
            Attempted::Again
        } else {
            Attempted::Settled(self->Attempt_0.outcome())
        }
    }
}

/// The signals that a sequence of exchanges handed out, in order.
pub open spec fn signals_of<A: Actor>(events: Seq<LaneEvent<A>>) -> Seq<Signal<A>>
    decreases events.len(),
{
    if events.len() == 0 {
        Seq::empty()
    } else {
        match events.last().delivered() {
            Some(signal) => signals_of(events.drop_last()).push(signal),
            None => signals_of(events.drop_last()),
        }
    }
}

/// Whether a sequence of exchanges leads from the lanes `before` to the lanes `after`. A bounded
/// mailbox stays bounded, and an unbounded one unbounded.
pub open spec fn linked<A: Actor>(
    before: MailboxReceiverInner<A>,
    events: Seq<LaneEvent<A>>,
    after: MailboxReceiverInner<A>,
) -> bool
    decreases events.len(),
{
    if events.len() == 0 {
        before == after
    } else {
        &&& events.last().after() == after
        &&& events.last().before() is Unbounded <==> after is Unbounded
        &&& linked(before, events.drop_last(), events.last().before())
    }
}

/// Whether `events` are the attempts of one `try_recv` that returned `res`: attempts that have to
/// be repeated, and a last one that settles what is received.
///
/// A receiver that was kept busy for `u64::MAX` attempts gives up and reports that it is empty.
pub open spec fn tried<A: Actor>(
    events: Seq<LaneEvent<A>>,
    res: Result<Signal<A>, TryRecvError>,
) -> bool {
    &&& 0 < events.len() <= u64::MAX
    &&& forall|i: int| 0 <= i < events.len() ==> (#[trigger] events[i]).is_attempt()
    &&& forall|i: int| 0 <= i < events.len() - 1 ==> (#[trigger] events[i]).to_be_repeated()
    &&& events.last().to_be_repeated() ==> events.len() == u64::MAX
    &&& res == events.last()->Attempt_0.outcome()
}

/// Whether `events` are the attempts of any number of `try_recv`s of which none but the last may
/// have come back without a signal.
pub open spec fn tried_repeatedly<A: Actor>(events: Seq<LaneEvent<A>>) -> bool {
    &&& forall|i: int| 0 <= i < events.len() ==> (#[trigger] events[i]).is_attempt()
    &&& forall|i: int|
        0 <= i < events.len() - 1 ==> {
            ||| (#[trigger] events[i]).delivered() is Some
            ||| events[i].to_be_repeated()
        }
}

/// Whether `buffer` holds, behind `before`, the signal `first` and then every signal that `events`
/// handed out, `count` signals in all and no more than `limit`.
pub open spec fn collected_so_far<A: Actor>(
    first: Signal<A>,
    events: Seq<LaneEvent<A>>,
    before: Seq<Signal<A>>,
    buffer: Seq<Signal<A>>,
    limit: usize,
    count: usize,
) -> bool {
    &&& tried_repeatedly(events)
    &&& events.len() > 0 ==> events.last().delivered() is Some
    &&& buffer == before.push(first) + signals_of(events)
    &&& count == 1 + signals_of(events).len()
    &&& count <= limit
}

/// Whether collecting stopped with `buffer` after `events`: at the limit, or at the first
/// `try_recv` that came back without a signal. Without a `first` signal nothing is collected.
pub open spec fn collected<A: Actor>(
    first: Option<Signal<A>>,
    events: Seq<LaneEvent<A>>,
    before: Seq<Signal<A>>,
    buffer: Seq<Signal<A>>,
    limit: usize,
    count: usize,
) -> bool {
    match first {
        None => events.len() == 0 && buffer == before && count == 0,
        Some(first) => {
            &&& tried_repeatedly(events)
            &&& buffer == before.push(first) + signals_of(events)
            &&& count == 1 + signals_of(events).len()
            &&& count <= limit
            &&& if count == limit {
                events.len() > 0 ==> events.last().delivered() is Some
            } else {
                &&& events.len() > 0
                &&& events.last().delivered() is None
                &&& events.last().to_be_repeated() ==> events.len() >= u64::MAX
            }
        },
    }
}

/// Whether collecting up to `limit` signals after one poll ended with `res` and with `buffer`
/// after `events`: the poll, and the attempts that came after it if it handed out a signal.
pub open spec fn collected_after_poll<A: Actor>(
    events: Seq<LaneEvent<A>>,
    before: Seq<Signal<A>>,
    buffer: Seq<Signal<A>>,
    limit: usize,
    res: Poll<usize>,
) -> bool {
    &&& events.len() > 0
    &&& events[0].is_poll()
    &&& match events[0]->Poll_0.polled() {
        Poll::Ready(first) => res matches Poll::Ready(count) && collected(
            first,
            events.skip(1),
            before,
            buffer,
            limit,
            count,
        ),
        Poll::Pending => res is Pending && events.len() == 1 && buffer == before,
    }
}

/// The signals of one sequence of exchanges after another.
pub proof fn lemma_signals_of_add<A: Actor>(first: Seq<LaneEvent<A>>, second: Seq<LaneEvent<A>>)
    ensures
        signals_of(first + second) == signals_of(first) + signals_of(second),
    decreases second.len(),
{
    if second.len() == 0 {
        assert(first + second == first);
    } else {
        lemma_signals_of_add(first, second.drop_last());
        assert((first + second).drop_last() == first + second.drop_last());
        assert((first + second).last() == second.last());
    }
}

/// One more `try_recv` after some that each handed out a signal.
pub proof fn lemma_tried_again<A: Actor>(
    first: Seq<LaneEvent<A>>,
    second: Seq<LaneEvent<A>>,
    res: Result<Signal<A>, TryRecvError>,
)
    requires
        tried_repeatedly(first),
        first.len() > 0 ==> first.last().delivered() is Some,
        tried(second, res),
    ensures
        tried_repeatedly(first + second),
        (first + second).last() == second.last(),
{
    let both = first + second;
    assert forall|i: int| 0 <= i < both.len() - 1 implies {
        ||| (#[trigger] both[i]).delivered() is Some
        ||| both[i].to_be_repeated()
    } by {
        if i < first.len() {
            assert(both[i] == first[i]);
        } else {
            assert(both[i] == second[i - first.len()]);
        }
    }
}

/// One `try_recv` hands out at most the signal that it returns.
pub proof fn lemma_tried_signals<A: Actor>(
    events: Seq<LaneEvent<A>>,
    res: Result<Signal<A>, TryRecvError>,
)
    requires
        tried(events, res),
    ensures
        events.last().delivered() == (match res {
            Ok(signal) => Some(signal),
            Err(_) => None,
        }),
        signals_of(events) == (match res {
            Ok(signal) => seq![signal],
            Err(_) => Seq::empty(),
        }),
{
    lemma_repeated_signals(events.drop_last());
}

/// An attempt that has to be repeated hands out nothing.
pub proof fn lemma_repeated_signals<A: Actor>(events: Seq<LaneEvent<A>>)
    requires
        forall|i: int|
            0 <= i < events.len() ==> (#[trigger] events[i]).is_attempt()
                && events[i].to_be_repeated(),
    ensures
        signals_of(events) == Seq::<Signal<A>>::empty(),
    decreases events.len(),
{
    if events.len() > 0 {
        lemma_repeated_signals(events.drop_last());
        assert(events[events.len() - 1].is_attempt());
    }
}

/// An exchange with the lanes of an unbounded mailbox finds them unbounded.
pub proof fn lemma_linked_kind<A: Actor>(
    start: MailboxReceiverInner<A>,
    events: Seq<LaneEvent<A>>,
    end: MailboxReceiverInner<A>,
    i: int,
)
    requires
        linked(start, events, end),
        0 <= i < events.len(),
    ensures
        events[i].before() is Unbounded <==> start is Unbounded,
        end is Unbounded <==> start is Unbounded,
    decreases events.len(),
{
    reveal_with_fuel(linked, 2);
    let earlier = events.drop_last();
    if earlier.len() > 0 {
        lemma_linked_kind(start, earlier, events.last().before(), if i < earlier.len() {
            i
        } else {
            0
        });
    }
}

/// One chain of exchanges after another.
pub proof fn lemma_linked_add<A: Actor>(
    start: MailboxReceiverInner<A>,
    first: Seq<LaneEvent<A>>,
    middle: MailboxReceiverInner<A>,
    second: Seq<LaneEvent<A>>,
    end: MailboxReceiverInner<A>,
)
    requires
        linked(start, first, middle),
        linked(middle, second, end),
    ensures
        linked(start, first + second, end),
    decreases second.len(),
{
    if second.len() == 0 {
        assert(first + second == first);
    } else {
        lemma_linked_add(start, first, middle, second.drop_last(), second.last().before());
        assert((first + second).drop_last() == first + second.drop_last());
        assert((first + second).last() == second.last());
    }
}

} // verus!
