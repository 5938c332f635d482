//! What holds of mailboxes as a whole.
use std::task::Poll;

use tokio::sync::mpsc;
use tokio::sync::mpsc::error::{SendError, SendTimeoutError, TrySendError};
use vstd::prelude::*;

use crate::actor::Actor;
use crate::mailbox::lanes;
use crate::mailbox::lanes::QueuedMessage;
use crate::mailbox::receiver::MailboxReceiver;
use crate::mailbox::sender::{MailboxSender, SendStep, WeakMailboxSender};
use crate::mailbox::signal::Signal;
use crate::mailbox::trace;
use crate::mailbox::trace::{Attempt, LaneEvent, LanePoll};
use crate::platform;

verus! {

/// What the two shared cells of a mailbox hold at one moment.
pub struct AdmissionState {
    /// Whether ordinary messages are admitted.
    pub open: bool,
    /// The message generation.
    pub generation: u64,
}

/// One write to one of the two shared cells.
///
/// It is an assumption of the laws on these writes that the reads and writes of all threads, on both
/// cells, come in one order. The reads acquire and the writes release, on one cell each.
pub enum CellWrite {
    /// `open_message_admission` stores `true`.
    Open,
    /// `stop_message_admission` stores `false`, before anything else.
    Close,
    /// `advance_message_generation` adds one to the generation, which wraps around.
    Advance,
}

/// The message generation after it moved on `advances` times.
pub open spec fn generation_after(generation: u64, advances: nat) -> u64 {
    ((generation + advances) % 0x1_0000_0000_0000_0000) as u64
}

impl AdmissionState {
    /// The cells after one write.
    pub open spec fn written(self, write: CellWrite) -> Self {
        match write {
            CellWrite::Open => AdmissionState { open: true, ..self },
            CellWrite::Close => AdmissionState { open: false, ..self },
            CellWrite::Advance => AdmissionState {
                generation: generation_after(self.generation, 1),
                ..self
            },
        }
    }

    /// The cells after the first `i` of the `writes`.
    pub open spec fn at(self, writes: Seq<CellWrite>, i: int) -> Self
        decreases i,
    {
        if i <= 0 {
            self
        } else {
            self.at(writes, i - 1).written(writes[i - 1])
        }
    }
}

/// How often the generation moves on in the writes from `i` to before `j`.
pub open spec fn advances(writes: Seq<CellWrite>, i: int, j: int) -> nat
    decreases j - i,
{
    if j <= i {
        0
    } else {
        advances(writes, i, j - 1) + if writes[j - 1] is Advance {
            1nat
        } else {
            0
        }
    }
}

/// The generation counts how often it moved on, and nothing else.
pub proof fn lemma_generation_counts_advances(
    state: AdmissionState,
    writes: Seq<CellWrite>,
    i: int,
    j: int,
)
    requires
        0 <= i <= j <= writes.len(),
    ensures
        state.at(writes, j).generation == generation_after(
            state.at(writes, i).generation,
            advances(writes, i, j),
        ),
        advances(writes, i, j) <= j - i,
    decreases j - i,
{
    if i < j {
        lemma_generation_counts_advances(state, writes, i, j - 1);
        let sum = state.at(writes, i).generation + advances(writes, i, j - 1);
        vstd::arithmetic::div_mod::lemma_add_mod_noop(sum, 1, 0x1_0000_0000_0000_0000);
        assert(sum % 0x1_0000_0000_0000_0000 < 0x1_0000_0000_0000_0000);
    }
}

/// The generation moves on at least once where one of the writes moves it on.
pub proof fn lemma_advance_is_counted(writes: Seq<CellWrite>, i: int, a: int, j: int)
    requires
        0 <= i <= a < j <= writes.len(),
        writes[a] is Advance,
    ensures
        advances(writes, i, j) > 0,
    decreases j - i,
{
    if a < j - 1 {
        lemma_advance_is_counted(writes, i, a, j - 1);
    }
}

/// A mailbox that was closed stays closed until it is opened.
pub proof fn lemma_closed_until_opened(
    state: AdmissionState,
    writes: Seq<CellWrite>,
    c: int,
    j: int,
)
    requires
        0 <= c < j <= writes.len(),
        writes[c] is Close,
        forall|k: int| c < k < j ==> !((#[trigger] writes[k]) is Open),
    ensures
        !state.at(writes, j).open,
    decreases j - c,
{
    if c < j - 1 {
        lemma_closed_until_opened(state, writes, c, j - 1);
        assert(!(writes[j - 1] is Open));
    }
}

/// No message crosses a stop, wherever the reads of its sender fall between the writes of the
/// stop. The sender reads the stamp after `i` writes, and finds the mailbox open after `j` of them.
/// A stop closes the mailbox with write `c` and moves the generation on with write `a`, and nobody
/// opens the mailbox between `c` and `j`. Once both writes are done, no receiver delivers the
/// message, and no check of the stamp passes, even if the mailbox was opened again. The stamp comes
/// up again only after as many writes as there are stamps.
pub proof fn law_no_message_crosses_a_stop<A: Actor>(
    state: AdmissionState,
    writes: Seq<CellWrite>,
    i: int,
    j: int,
    c: int,
    a: int,
    end: int,
    signal: Signal<A>,
)
    requires
        writes.len() < 0x1_0000_0000_0000_0000,
        0 <= i <= j <= writes.len(),
        i <= end,
        state.at(writes, j).open,
        0 <= c < a < end <= writes.len(),
        writes[c] is Close,
        writes[a] is Advance,
        forall|k: int| c < k < j ==> !((#[trigger] writes[k]) is Open),
    ensures
        (QueuedMessage { generation: state.at(writes, i).generation, signal }).delivered(
            state.at(writes, end).generation,
        ) is None,
        state.at(writes, end).generation != state.at(writes, i).generation,
{
    if c < j {
        lemma_closed_until_opened(state, writes, c, j);
    }
    lemma_generation_counts_advances(state, writes, i, end);
    lemma_advance_is_counted(writes, i, a, end);
    let sum = state.at(writes, i).generation + advances(writes, i, end);
    if sum < 0x1_0000_0000_0000_0000 {
        assert(sum % 0x1_0000_0000_0000_0000 == sum);
    } else {
        assert(sum % 0x1_0000_0000_0000_0000 == sum - 0x1_0000_0000_0000_0000);
    }
}

/// A message is delivered, and a check of its stamp finds the same generation, as long as the
/// generation does not move on. Whether the mailbox is closed or opened meanwhile does not matter.
pub proof fn law_message_is_delivered_in_its_generation<A: Actor>(
    state: AdmissionState,
    writes: Seq<CellWrite>,
    i: int,
    end: int,
    signal: Signal<A>,
)
    requires
        0 <= i <= end <= writes.len(),
        forall|k: int| i <= k < end ==> !((#[trigger] writes[k]) is Advance),
    ensures
        (QueuedMessage { generation: state.at(writes, i).generation, signal }).delivered(
            state.at(writes, end).generation,
        ) == Some(signal),
    decreases end - i,
{
    if i < end {
        law_message_is_delivered_in_its_generation(state, writes, i, end - 1, signal);
        assert(!(writes[end - 1] is Advance));
    }
}

/// A message that `try_send` put on the message lane passed the check of its stamp. A message that
/// did not get there comes back.
pub proof fn law_tried_message_was_admitted<A: Actor>(
    sender: MailboxSender<A>,
    signal: Signal<A>,
    tried: Result<(), TrySendError<Signal<A>>>,
)
    requires
        signal.is_message(),
        call_ensures(MailboxSender::<A>::try_send, (&sender, signal), tried),
    ensures
        match tried {
            Ok(()) => exists|stamp: u64| #[trigger]
                sender.granted(stamp) && sender.message_tried(stamp, signal, tried),
            Err(error) => platform::refused_value(error) == signal,
        },
{
}

/// A message that `begin_send` put on the message lane, or that it lets wait for a slot, passed the
/// check of its stamp. Another message comes back.
pub proof fn law_begun_message_was_admitted<A: Actor>(
    sender: MailboxSender<A>,
    signal: Signal<A>,
    step: SendStep<'_, A>,
)
    requires
        signal.is_message(),
        call_ensures(MailboxSender::<A>::begin_send, (&sender, signal), step),
    ensures
        match step {
            SendStep::Done(Ok(())) => exists|stamp: u64| #[trigger]
                sender.granted(stamp) && sender.message_begun(stamp, signal, step),
            SendStep::Done(Err(error)) => error.0 == signal,
            SendStep::Reserve { generation: stamp, signal: waiting, .. } => sender.granted(stamp)
                && waiting == signal,
        },
{
}

/// A message that waited for a slot is sent only if its stamp passes the check once more, now that
/// the slot is there. Otherwise the message comes back.
pub proof fn law_waiting_message_is_admitted_again<'a, A: Actor>(
    sender: MailboxSender<A>,
    generation: u64,
    signal: Signal<A>,
    permit: mpsc::Permit<'a, QueuedMessage<A>>,
    sent: Result<(), SendError<Signal<A>>>,
)
    requires
        call_ensures(
            MailboxSender::<A>::finish_send,
            (&sender, generation, signal, Ok(permit)),
            sent,
        ),
    ensures
        match sent {
            Ok(()) => sender.granted(generation),
            Err(error) => sender.refused(generation) && error.0 == signal,
        },
{
}

/// The same holds of a message that waited for a limited time and got its slot.
pub proof fn law_timed_message_is_admitted_again<'a, A: Actor>(
    sender: MailboxSender<A>,
    generation: u64,
    signal: Signal<A>,
    permit: mpsc::Permit<'a, QueuedMessage<A>>,
    sent: Result<(), SendTimeoutError<Signal<A>>>,
)
    requires
        call_ensures(
            MailboxSender::<A>::finish_send_timeout,
            (&sender, generation, signal, Some(Ok(permit))),
            sent,
        ),
    ensures
        match sent {
            Ok(()) => sender.granted(generation),
            Err(SendTimeoutError::Closed(refused)) => sender.refused(generation) && refused
                == signal,
            Err(SendTimeoutError::Timeout(_)) => false,
        },
{
}

/// A mailbox that cannot be read as open to messages hands back a message that is tried.
pub proof fn law_closed_mailbox_refuses_tried_messages<A: Actor>(
    sender: MailboxSender<A>,
    signal: Signal<A>,
    tried: Result<(), TrySendError<Signal<A>>>,
)
    requires
        forall|open: bool| #[trigger]
            lanes::admission_read(sender.admission_cell(), open) ==> !open,
        signal.is_message(),
        call_ensures(MailboxSender::<A>::try_send, (&sender, signal), tried),
    ensures
        tried == Err::<(), _>(TrySendError::Closed(signal)),
{
}

/// A mailbox that cannot be read as open to messages hands back a message that is begun to be
/// sent.
pub proof fn law_closed_mailbox_refuses_begun_messages<A: Actor>(
    sender: MailboxSender<A>,
    signal: Signal<A>,
    step: SendStep<'_, A>,
)
    requires
        forall|open: bool| #[trigger]
            lanes::admission_read(sender.admission_cell(), open) ==> !open,
        signal.is_message(),
        call_ensures(MailboxSender::<A>::begin_send, (&sender, signal), step),
    ensures
        step == SendStep::Done(Err(SendError(signal))),
{
}

/// A lifecycle or control signal that is tried never finds the mailbox full, and it does not matter
/// whether the mailbox is open to messages: the control lane alone decides.
pub proof fn law_tried_control_signals_bypass_the_message_lane<A: Actor>(
    sender: MailboxSender<A>,
    signal: Signal<A>,
    tried: Result<(), TrySendError<Signal<A>>>,
)
    requires
        !signal.is_message(),
        call_ensures(MailboxSender::<A>::try_send, (&sender, signal), tried),
    ensures
        !(tried matches Err(TrySendError::Full(_))),
        exists|answer: Result<(), SendError<Signal<A>>>| #[trigger]
            sender.control_sent(signal, answer) && tried
                == crate::mailbox::sender::as_try(answer),
{
}

/// A lifecycle or control signal never waits for a slot, and it does not matter whether the mailbox
/// is open to messages: the control lane alone decides.
pub proof fn law_begun_control_signals_bypass_the_message_lane<A: Actor>(
    sender: MailboxSender<A>,
    signal: Signal<A>,
    step: SendStep<'_, A>,
)
    requires
        !signal.is_message(),
        call_ensures(MailboxSender::<A>::begin_send, (&sender, signal), step),
    ensures
        match step {
            SendStep::Done(answer) => sender.control_sent(signal, answer),
            SendStep::Reserve { .. } => false,
        },
{
}

/// A control signal that is tried is taken by a mailbox whose control lane cannot be read as closed.
pub proof fn law_open_control_lane_takes_tried_signals<A: Actor>(
    sender: MailboxSender<A>,
    signal: Signal<A>,
    tried: Result<(), TrySendError<Signal<A>>>,
)
    requires
        forall|closed: bool| #[trigger] sender.inner().control_read_closed(closed) ==> !closed,
        !signal.is_message(),
        call_ensures(MailboxSender::<A>::try_send, (&sender, signal), tried),
    ensures
        tried is Ok,
{
}

/// A control signal that is begun to be sent is taken by a mailbox whose control lane cannot be read
/// as closed.
pub proof fn law_open_control_lane_takes_begun_signals<A: Actor>(
    sender: MailboxSender<A>,
    signal: Signal<A>,
    step: SendStep<'_, A>,
)
    requires
        forall|closed: bool| #[trigger] sender.inner().control_read_closed(closed) ==> !closed,
        !signal.is_message(),
        call_ensures(MailboxSender::<A>::begin_send, (&sender, signal), step),
    ensures
        step matches SendStep::Done(answer) && answer is Ok,
{
}

/// A message that is tried is taken by a mailbox that cannot be read as closed to messages, whose
/// message lane cannot be read as closed or full, and whose generation cannot be read as two
/// different ones.
pub proof fn law_open_mailbox_takes_tried_messages<A: Actor>(
    sender: MailboxSender<A>,
    signal: Signal<A>,
    tried: Result<(), TrySendError<Signal<A>>>,
)
    requires
        forall|open: bool| #[trigger]
            lanes::admission_read(sender.admission_cell(), open) ==> open,
        forall|first: u64, second: u64| #[trigger]
            lanes::generation_read(sender.generation_cell(), first) && #[trigger]
            lanes::generation_read(sender.generation_cell(), second) ==> first == second,
        forall|closed: bool| #[trigger] sender.inner().messages_read_closed(closed) ==> !closed,
        forall|free: usize| #[trigger] sender.inner().messages_read_free(free) ==> free > 0,
        signal.is_message(),
        call_ensures(MailboxSender::<A>::try_send, (&sender, signal), tried),
    ensures
        tried is Ok,
{
}

/// A control signal wins over every message that is queued: the message lane is not even asked.
pub proof fn law_control_wins_over_messages<A: Actor>(attempt: Attempt<A>, poll: LanePoll<A>)
    requires
        attempt.well_formed(),
        poll.well_formed(),
    ensures
        attempt.control matches Ok(signal) ==> attempt.message is None && LaneEvent::Attempt(
            attempt,
        ).delivered() == Some(signal),
        poll.control_ready() ==> poll.message is None && LaneEvent::Poll(poll).delivered() is Some,
{
}

/// A receiver neither makes up a signal nor loses one: it hands out what the control lane handed
/// over, and what the message lane handed over unless the stamp is not the message generation that
/// was read. When no lane handed anything over, neither does the receiver.
pub proof fn law_signals_are_neither_made_up_nor_lost<A: Actor>(
    attempt: Attempt<A>,
    poll: LanePoll<A>,
)
    requires
        attempt.well_formed(),
        poll.well_formed(),
    ensures
        LaneEvent::Attempt(attempt).delivered() == match (attempt.control, attempt.message) {
            (Ok(signal), _) => Some(signal),
            (_, Some(Ok(queued))) => if attempt.generation == Some(queued.generation) {
                Some(queued.signal)
            } else {
                None
            },
            _ => None,
        },
        LaneEvent::Poll(poll).delivered() == match (poll.control, poll.message) {
            (Poll::Ready(Some(signal)), _) => Some(signal),
            (_, Some(Poll::Ready(Some(queued)))) => if poll.generation == Some(queued.generation) {
                Some(queued.signal)
            } else {
                None
            },
            _ => None,
        },
{
}

/// Every control signal that a receiver hands out was taken by a sender of an unbounded lane.
pub proof fn law_delivered_control_signals_have_a_sender<A: Actor>(
    before: MailboxReceiver<A>,
    after: MailboxReceiver<A>,
    i: int,
)
    requires
        after.follows(before),
        0 <= i < after.events_since(before).len(),
    ensures
        match after.events_since(before)[i] {
            LaneEvent::Attempt(attempt) => attempt.control matches Ok(signal)
                ==> platform::sent_unbounded(signal),
            LaneEvent::Poll(poll) => poll.control matches Poll::Ready(Some(signal))
                ==> platform::sent_unbounded(signal),
        },
{
    assert(after.events_since(before)[i].answered_what_was_sent());
}

/// Every message that comes out of a mailbox, bounded or unbounded, was put with its stamp into a
/// message lane of that kind.
pub proof fn law_delivered_messages_have_a_sender<A: Actor>(
    before: MailboxReceiver<A>,
    after: MailboxReceiver<A>,
    i: int,
)
    requires
        after.follows(before),
        0 <= i < after.events_since(before).len(),
    ensures
        match after.events_since(before)[i] {
            LaneEvent::Attempt(attempt) => attempt.message matches Some(Ok(queued))
                ==> before.inner().message_sent(queued),
            LaneEvent::Poll(poll) => poll.message matches Some(Poll::Ready(Some(queued)))
                ==> before.inner().message_sent(queued),
        },
{
    trace::lemma_linked_kind(before.inner(), after.events_since(before), after.inner(), i);
    assert(after.events_since(before)[i].answered_what_was_sent());
}

/// Every signal that a receiver hands out was sent: on a control lane, or with the stamp that it was
/// accepted for into a message lane of the mailbox's kind.
pub proof fn law_delivered_signals_were_sent<A: Actor>(
    before: MailboxReceiver<A>,
    after: MailboxReceiver<A>,
    i: int,
)
    requires
        after.follows(before),
        0 <= i < after.events_since(before).len(),
        after.events_since(before)[i].is_attempt() || after.events_since(before)[i].is_poll(),
    ensures
        after.events_since(before)[i].delivered() matches Some(signal) ==> {
            ||| platform::sent_unbounded(signal)
            ||| exists|generation: u64| #[trigger]
                before.inner().message_sent(QueuedMessage { generation, signal })
        },
{
    law_delivered_control_signals_have_a_sender(before, after, i);
    law_delivered_messages_have_a_sender(before, after, i);
    let event = after.events_since(before)[i];
    let stamp = match event {
        LaneEvent::Attempt(attempt) => attempt.generation->0,
        LaneEvent::Poll(poll) => poll.generation->0,
    };
    if let Some(signal) = event.delivered() {
        let stamped = QueuedMessage { generation: stamp, signal };
        assert(platform::sent_unbounded(signal) || before.inner().message_sent(stamped));
    }
}

/// Receiving many signals adds exactly the signals that were handed out to the buffer, in order,
/// and never more than the limit. What was in the buffer stays in front.
pub proof fn law_receiving_many_keeps_order<A: Actor>(
    first: Option<Signal<A>>,
    events: Seq<LaneEvent<A>>,
    before: Seq<Signal<A>>,
    buffer: Seq<Signal<A>>,
    limit: usize,
    count: usize,
)
    requires
        limit > 0,
        trace::collected(first, events, before, buffer, limit, count),
    ensures
        count <= limit,
        buffer.len() == before.len() + count,
        buffer.take(before.len() as int) == before,
        first matches Some(first) ==> buffer.skip(before.len() as int) == seq![first]
            + trace::signals_of(events),
{
}

/// Whether the lanes answered an attempt and a poll alike.
pub open spec fn answered_alike<A: Actor>(attempt: Attempt<A>, poll: LanePoll<A>) -> bool {
    &&& attempt.well_formed()
    &&& poll.well_formed()
    &&& match attempt.control {
        Ok(signal) => poll.control == Poll::Ready(Some(signal)),
        Err(_) => !poll.control_ready(),
    }
    &&& match attempt.message {
        Some(Ok(queued)) => poll.message == Some(Poll::Ready(Some(queued))),
        _ => !poll.message_ready(),
    }
    &&& attempt.generation == poll.generation
}

/// Receiving without waiting hands out what waiting would: an attempt and a poll to which the lanes
/// answer the same deliver the same.
pub proof fn law_attempts_and_polls_agree<A: Actor>(attempt: Attempt<A>, poll: LanePoll<A>)
    requires
        answered_alike(attempt, poll),
    ensures
        LaneEvent::Attempt(attempt).delivered() == LaneEvent::Poll(poll).delivered(),
{
}

/// Receiving many signals hands out what as many waiting receives would: attempts and polls to which
/// the lanes answer the same, one by one, give the same signals in the same order.
pub proof fn law_receiving_many_gives_what_waiting_would<A: Actor>(
    attempts: Seq<LaneEvent<A>>,
    polls: Seq<LaneEvent<A>>,
)
    requires
        attempts.len() == polls.len(),
        forall|i: int|
            0 <= i < attempts.len() ==> (#[trigger] attempts[i]) is Attempt && polls[i] is Poll
                && answered_alike(attempts[i]->Attempt_0, polls[i]->Poll_0),
    ensures
        trace::signals_of(attempts) == trace::signals_of(polls),
    decreases attempts.len(),
{
    if attempts.len() > 0 {
        law_receiving_many_gives_what_waiting_would(attempts.drop_last(), polls.drop_last());
        let last = attempts.len() - 1;
        law_attempts_and_polls_agree(attempts[last]->Attempt_0, polls[last]->Poll_0);
    }
}

/// Receiving many signals gives none exactly if there is no first one, and stops short of the limit
/// only after an attempt that found both lanes empty, or the message lane at its end.
pub proof fn law_receiving_many_stops_for_a_reason<A: Actor>(
    first: Option<Signal<A>>,
    events: Seq<LaneEvent<A>>,
    before: Seq<Signal<A>>,
    buffer: Seq<Signal<A>>,
    limit: usize,
    count: usize,
)
    requires
        limit > 0,
        trace::collected(first, events, before, buffer, limit, count),
    ensures
        count == 0 <==> first is None,
        0 < count < limit ==> {
            ||| events.last()->Attempt_0.empty == Some(true)
            ||| events.last()->Attempt_0.message == Some(
                Err::<QueuedMessage<A>, _>(mpsc::error::TryRecvError::Disconnected),
            )
            ||| events.len() >= u64::MAX
        },
{
    if 0 < count < limit {
        assert(events[events.len() - 1].is_attempt());
    }
}

/// A bounded mailbox holds more than its buffer by control signals only, whatever is received from
/// it. A new mailbox starts within its buffer, and closing it keeps it there.
pub proof fn law_messages_stay_within_the_buffer<A: Actor>(
    buffer: usize,
    receiver: MailboxReceiver<A>,
    later: MailboxReceiver<A>,
    len: usize,
)
    requires
        receiver.inner().messages_len_within(buffer),
        later.follows(receiver),
        call_ensures(MailboxReceiver::<A>::len, (&later,), len),
    ensures
        exists|messages: usize, control: usize| #[trigger]
            later.inner().messages_read_len(messages) && #[trigger]
            later.inner().control_read_len(control) && messages <= buffer && len == messages
                + control,
{
    assert(later.inner().messages_len_within(buffer));
}

/// Senders of one channel are told so whichever is asked, and of two channels likewise.
pub proof fn law_same_channel_is_an_equivalence<A: Actor>(
    first: MailboxSender<A>,
    second: MailboxSender<A>,
    third: MailboxSender<A>,
    itself: bool,
    first_second: bool,
    second_first: bool,
    second_third: bool,
    first_third: bool,
)
    requires
        call_ensures(MailboxSender::<A>::same_channel, (&first, &first), itself),
        call_ensures(MailboxSender::<A>::same_channel, (&first, &second), first_second),
        call_ensures(MailboxSender::<A>::same_channel, (&second, &first), second_first),
        call_ensures(MailboxSender::<A>::same_channel, (&second, &third), second_third),
        call_ensures(MailboxSender::<A>::same_channel, (&first, &third), first_third),
    ensures
        itself,
        first_second == second_first,
        first_second && second_third ==> first_third,
        first.inner() is Bounded != second.inner() is Bounded ==> !first_second,
{
}

/// A clone feeds the same mailbox.
pub proof fn law_clone_feeds_the_same_mailbox<A: Actor>(
    sender: MailboxSender<A>,
    clone: MailboxSender<A>,
    same: bool,
)
    requires
        cloned(sender, clone),
        call_ensures(MailboxSender::<A>::same_channel, (&sender, &clone), same),
    ensures
        clone == sender,
        same,
{
}

/// A handle that was downgraded upgrades, if at all, to a handle of the mailbox that it came
/// from.
pub proof fn law_upgrade_undoes_downgrade<A: Actor>(
    sender: MailboxSender<A>,
    weak: WeakMailboxSender<A>,
    upgraded: MailboxSender<A>,
)
    requires
        call_ensures(MailboxSender::<A>::downgrade, (&sender,), weak),
        call_ensures(WeakMailboxSender::<A>::upgrade, (&weak,), Some(upgraded)),
    ensures
        upgraded == sender,
        upgraded.admission_cell() == weak.admission_cell(),
        upgraded.generation_cell() == weak.generation_cell(),
{
}

/// A mailbox that was closed stays closed, whatever is received from it afterwards.
pub proof fn law_closed_mailbox_stays_closed<A: Actor>(
    receiver: MailboxReceiver<A>,
    later: MailboxReceiver<A>,
    closed: bool,
)
    requires
        receiver.inner().closed_for_good(),
        later.follows(receiver),
        call_ensures(MailboxReceiver::<A>::is_closed, (&later,), closed),
    ensures
        closed,
{
}

} // verus!
