//! What sending comes to, by what the lanes and the shared cells answered.
use std::collections::HashMap;
use std::sync::atomic::{AtomicBool, AtomicU64, Ordering};

use tokio::sync::mpsc;
use tokio::sync::mpsc::error::{SendError, SendTimeoutError, TrySendError};
use vstd::prelude::*;

use crate::actor::{Actor, ActorId, ActorTerminalOutcome};
use crate::error::{ActorStopReason, SignalError};
use crate::links::Link;
use crate::mailbox::lanes::{
    MailboxReceiverInner, MailboxSenderInner, QueuedMessage, WeakMailboxSenderInner,
};
use crate::mailbox::receiver::MailboxReceiver;
use crate::mailbox::sender::{MailboxSender, SendStep, WeakMailboxSender};
use crate::mailbox::signal::{Signal, SignalKind};
use crate::mailbox::SignalMailbox;

verus! {

/// The check of a stamp passes only where the mailbox was read as open and the generation as the
/// stamp, and fails only where one of the two reads says otherwise.
pub proof fn law_stamp_check_reads_both_cells<A: Actor>(
    sender: MailboxSender<A>,
    generation: u64,
    accepted: bool,
)
    requires
        call_ensures(
            MailboxSender::<A>::accepts_message_generation,
            (&sender, generation),
            accepted,
        ),
    ensures
        accepted ==> {
            &&& call_ensures(AtomicBool::load, (&sender.admission_cell(), Ordering::Acquire), true)
            &&& call_ensures(
                AtomicU64::load,
                (&sender.generation_cell(), Ordering::Acquire),
                generation,
            )
        },
        !accepted ==> {
            ||| call_ensures(AtomicBool::load, (&sender.admission_cell(), Ordering::Acquire), false)
            ||| exists|current: u64|
                current != generation && #[trigger] call_ensures(
                    AtomicU64::load,
                    (&sender.generation_cell(), Ordering::Acquire),
                    current,
                )
        },
{
}

/// A message that `try_send` reports as sent was taken by the message lane of this mailbox, with the
/// stamp that passed the check, whatever the message carries.
pub proof fn law_tried_message_is_taken_by_its_lane<A: Actor>(
    sender: MailboxSender<A>,
    signal: Signal<A>,
    tried: Result<(), TrySendError<Signal<A>>>,
)
    requires
        signal is Message,
        call_ensures(MailboxSender::<A>::try_send, (&sender, signal), tried),
        tried is Ok,
    ensures
        exists|generation: u64|
            #[trigger] call_ensures(
                MailboxSender::<A>::accepts_message_generation,
                (&sender, generation),
                true,
            ) && call_ensures(
                AtomicU64::load,
                (&sender.generation_cell(), Ordering::Acquire),
                generation,
            ) && match sender.inner() {
                MailboxSenderInner::Bounded { messages, .. } => exists|
                    answer: Result<(), TrySendError<QueuedMessage<A>>>,
                |
                    answer is Ok && #[trigger] call_ensures(
                        mpsc::Sender::<QueuedMessage<A>>::try_send,
                        (&messages, QueuedMessage { generation, signal }),
                        answer,
                    ),
                MailboxSenderInner::Unbounded { messages, .. } => exists|
                    answer: Result<(), SendError<QueuedMessage<A>>>,
                |
                    answer is Ok && #[trigger] call_ensures(
                        mpsc::UnboundedSender::<QueuedMessage<A>>::send,
                        (&messages, QueuedMessage { generation, signal }),
                        answer,
                    ),
            },
{
}

/// A message that `try_send` does not send comes back as it was: as not admitted where the check of
/// its stamp failed, and otherwise with what the message lane said of it.
pub proof fn law_refused_message_comes_back<A: Actor>(
    sender: MailboxSender<A>,
    signal: Signal<A>,
    tried: Result<(), TrySendError<Signal<A>>>,
)
    requires
        signal is Message,
        call_ensures(MailboxSender::<A>::try_send, (&sender, signal), tried),
        tried is Err,
    ensures
        tried == Err::<(), _>(TrySendError::Closed(signal)) || tried == Err::<(), _>(
            TrySendError::Full(signal),
        ),
        (tried == Err::<(), _>(TrySendError::Closed(signal)) && exists|generation: u64|
                #[trigger] call_ensures(
                    MailboxSender::<A>::accepts_message_generation,
                    (&sender, generation),
                    false,
                ) && call_ensures(
                    AtomicU64::load,
                    (&sender.generation_cell(), Ordering::Acquire),
                    generation,
                )) || (exists|generation: u64|
                #[trigger] call_ensures(
                    MailboxSender::<A>::accepts_message_generation,
                    (&sender, generation),
                    true,
                ) && match sender.inner() {
                    MailboxSenderInner::Bounded { messages, .. } => exists|
                        answer: Result<(), TrySendError<QueuedMessage<A>>>,
                    |
                        #[trigger] call_ensures(
                            mpsc::Sender::<QueuedMessage<A>>::try_send,
                            (&messages, QueuedMessage { generation, signal }),
                            answer,
                        ) && match answer {
                            Ok(()) => false,
                            Err(TrySendError::Full(_)) => tried == Err::<(), _>(
                                TrySendError::Full(signal),
                            ),
                            Err(TrySendError::Closed(_)) => tried == Err::<(), _>(
                                TrySendError::Closed(signal),
                            ),
                        },
                    MailboxSenderInner::Unbounded { messages, .. } => exists|
                        answer: Result<(), SendError<QueuedMessage<A>>>,
                    |
                        answer is Err && tried == Err::<(), _>(TrySendError::Closed(signal))
                            && #[trigger] call_ensures(
                            mpsc::UnboundedSender::<QueuedMessage<A>>::send,
                            (&messages, QueuedMessage { generation, signal }),
                            answer,
                        ),
                }),
{
}

/// A control signal of whatever kind that is tried goes to the control lane and nowhere else: it is
/// sent exactly if that lane took it, and otherwise comes back.
pub proof fn law_tried_control_signal_goes_to_the_control_lane<A: Actor>(
    sender: MailboxSender<A>,
    signal: Signal<A>,
    tried: Result<(), TrySendError<Signal<A>>>,
)
    requires
        !(signal is Message),
        call_ensures(MailboxSender::<A>::try_send, (&sender, signal), tried),
    ensures
        match sender.inner() {
            MailboxSenderInner::Bounded { control, .. } => exists|
                answer: Result<(), SendError<Signal<A>>>,
            |
                #[trigger] call_ensures(
                    mpsc::UnboundedSender::<Signal<A>>::send,
                    (&control, signal),
                    answer,
                ) && (tried is Ok <==> answer is Ok),
            MailboxSenderInner::Unbounded { control, .. } => exists|
                answer: Result<(), SendError<Signal<A>>>,
            |
                #[trigger] call_ensures(
                    mpsc::UnboundedSender::<Signal<A>>::send,
                    (&control, signal),
                    answer,
                ) && (tried is Ok <==> answer is Ok),
        },
        tried is Err ==> tried == Err::<(), _>(TrySendError::Closed(signal)),
{
}

/// A message that is begun to be sent has to wait for a slot of a bounded lane, with the stamp that
/// passed the check. An unbounded lane has taken it with that stamp, if it is reported as sent. In
/// every other case the message comes back.
pub proof fn law_begun_message_waits_or_is_taken<A: Actor>(
    sender: MailboxSender<A>,
    signal: Signal<A>,
    step: SendStep<'_, A>,
)
    requires
        signal is Message,
        call_ensures(MailboxSender::<A>::begin_send, (&sender, signal), step),
    ensures
        exists|generation: u64|
            #[trigger] call_ensures(
                AtomicU64::load,
                (&sender.generation_cell(), Ordering::Acquire),
                generation,
            ) && {
                ||| step == SendStep::Done(Err(SendError(signal))) && call_ensures(
                    MailboxSender::<A>::accepts_message_generation,
                    (&sender, generation),
                    false,
                )
                ||| call_ensures(
                    MailboxSender::<A>::accepts_message_generation,
                    (&sender, generation),
                    true,
                ) && match (sender.inner(), step) {
                    (
                        MailboxSenderInner::Bounded { messages, .. },
                        SendStep::Reserve { messages: lane, generation: stamp, signal: waiting },
                    ) => *lane == messages && stamp == generation && waiting == signal,
                    (MailboxSenderInner::Unbounded { messages, .. }, SendStep::Done(res)) => exists|
                        answer: Result<(), SendError<QueuedMessage<A>>>,
                    |
                        #[trigger] call_ensures(
                            mpsc::UnboundedSender::<QueuedMessage<A>>::send,
                            (&messages, QueuedMessage { generation, signal }),
                            answer,
                        ) && (res is Ok <==> answer is Ok) && (res is Err ==> res == Err::<(), _>(
                            SendError(signal),
                        )),
                    _ => false,
                }
            },
{
}

/// A control signal of whatever kind that is begun to be sent never waits: it is sent exactly if the
/// control lane took it, and otherwise comes back.
pub proof fn law_begun_control_signal_goes_to_the_control_lane<A: Actor>(
    sender: MailboxSender<A>,
    signal: Signal<A>,
    step: SendStep<'_, A>,
)
    requires
        !(signal is Message),
        call_ensures(MailboxSender::<A>::begin_send, (&sender, signal), step),
    ensures
        match step {
            SendStep::Reserve { .. } => false,
            SendStep::Done(res) => {
                &&& call_ensures(
                    mpsc::UnboundedSender::<Signal<A>>::send,
                    (
                        match sender.inner() {
                            MailboxSenderInner::Bounded { control, .. } => &control,
                            MailboxSenderInner::Unbounded { control, .. } => &control,
                        },
                        signal,
                    ),
                    res,
                )
                &&& res matches Err(error) ==> error.0 == signal
            },
        },
{
}

/// A message whose slot came is sent into that slot with its stamp exactly if the stamp passes the
/// check once more. In every other case the message comes back.
pub proof fn law_waiting_message_is_sent_into_its_slot<'a, A: Actor>(
    sender: MailboxSender<A>,
    generation: u64,
    signal: Signal<A>,
    reserved: Result<mpsc::Permit<'a, QueuedMessage<A>>, SendError<()>>,
    sent: Result<(), SendError<Signal<A>>>,
)
    requires
        call_ensures(
            MailboxSender::<A>::finish_send,
            (&sender, generation, signal, reserved),
            sent,
        ),
    ensures
        sent is Err ==> sent == Err::<(), _>(SendError(signal)),
        match reserved {
            Err(_) => sent is Err,
            Ok(permit) => {
                &&& call_ensures(
                    MailboxSender::<A>::accepts_message_generation,
                    (&sender, generation),
                    sent is Ok,
                )
                &&& sent is Ok ==> call_ensures(
                    mpsc::Permit::<QueuedMessage<A>>::send,
                    (permit, QueuedMessage { generation, signal }),
                    (),
                )
            },
        },
{
}

/// The same of a message that waited for a limited time. It comes back as timed out exactly if the
/// time was up before the lane answered.
pub proof fn law_timed_message_is_sent_into_its_slot<'a, A: Actor>(
    sender: MailboxSender<A>,
    generation: u64,
    signal: Signal<A>,
    reserved: Option<Result<mpsc::Permit<'a, QueuedMessage<A>>, SendError<()>>>,
    sent: Result<(), SendTimeoutError<Signal<A>>>,
)
    requires
        call_ensures(
            MailboxSender::<A>::finish_send_timeout,
            (&sender, generation, signal, reserved),
            sent,
        ),
    ensures
        match reserved {
            None => sent == Err::<(), _>(SendTimeoutError::Timeout(signal)),
            Some(Err(_)) => sent == Err::<(), _>(SendTimeoutError::Closed(signal)),
            Some(Ok(permit)) => {
                &&& call_ensures(
                    MailboxSender::<A>::accepts_message_generation,
                    (&sender, generation),
                    sent is Ok,
                )
                &&& sent is Ok ==> call_ensures(
                    mpsc::Permit::<QueuedMessage<A>>::send,
                    (permit, QueuedMessage { generation, signal }),
                    (),
                )
                &&& sent is Err ==> sent == Err::<(), _>(SendTimeoutError::Closed(signal))
            },
        },
{
}

/// A send that needed no waiting is reported as it came out, and a refused signal comes back as it
/// was, without its stamp.
pub proof fn law_settled_send_keeps_the_answer<A: Actor>(
    answer: Result<(), SendError<QueuedMessage<A>>>,
    res: Result<(), SendError<Signal<A>>>,
)
    requires
        call_ensures(MailboxSender::<A>::settle_send, (answer,), res),
    ensures
        res is Ok <==> answer is Ok,
        answer matches Err(refused) ==> res == Err::<(), _>(SendError(refused.0.signal)),
{
}

/// The same of a send with a time limit that needed no waiting.
pub proof fn law_settled_timed_send_keeps_the_answer<A: Actor>(
    answer: Result<(), SendError<Signal<A>>>,
    res: Result<(), SendTimeoutError<Signal<A>>>,
)
    requires
        call_ensures(MailboxSender::<A>::settle_send_timeout, (answer,), res),
    ensures
        res is Ok <==> answer is Ok,
        answer matches Err(refused) ==> res == Err::<(), _>(SendTimeoutError::Closed(refused.0)),
{
}

/// A sender is closed exactly if its message lane says so.
pub proof fn law_sender_is_closed_with_its_message_lane<A: Actor>(
    sender: MailboxSender<A>,
    closed: bool,
)
    requires
        call_ensures(MailboxSender::<A>::is_closed, (&sender,), closed),
    ensures
        match sender.inner() {
            MailboxSenderInner::Bounded { messages, .. } => call_ensures(
                mpsc::Sender::<QueuedMessage<A>>::is_closed,
                (&messages,),
                closed,
            ),
            MailboxSenderInner::Unbounded { messages, .. } => call_ensures(
                mpsc::UnboundedSender::<QueuedMessage<A>>::is_closed,
                (&messages,),
                closed,
            ),
        },
{
}

/// A bounded mailbox has the capacity that its message lane says, and an unbounded one has none to
/// give.
pub proof fn law_capacity_is_that_of_the_message_lane<A: Actor>(
    sender: MailboxSender<A>,
    capacity: Option<usize>,
)
    requires
        call_ensures(MailboxSender::<A>::capacity, (&sender,), capacity),
    ensures
        match (sender.inner(), capacity) {
            (MailboxSenderInner::Bounded { messages, .. }, Some(free)) => call_ensures(
                mpsc::Sender::<QueuedMessage<A>>::capacity,
                (&messages,),
                free,
            ),
            (MailboxSenderInner::Unbounded { .. }, None) => true,
            _ => false,
        },
{
}

/// Two senders belong to the same channel exactly if they are of one kind and feed the same message
/// lane.
pub proof fn law_same_channel_means_same_message_lane<A: Actor>(
    sender: MailboxSender<A>,
    other: MailboxSender<A>,
    same: bool,
)
    requires
        call_ensures(MailboxSender::<A>::same_channel, (&sender, &other), same),
    ensures
        same <==> match (sender.inner(), other.inner()) {
            (
                MailboxSenderInner::Bounded { messages: a, .. },
                MailboxSenderInner::Bounded { messages: b, .. },
            ) => a == b,
            (
                MailboxSenderInner::Unbounded { messages: a, .. },
                MailboxSenderInner::Unbounded { messages: b, .. },
            ) => a == b,
            _ => false,
        },
{
}

/// Downgrading downgrades both lanes and keeps both cells.
pub proof fn law_downgrade_downgrades_both_lanes<A: Actor>(
    sender: MailboxSender<A>,
    weak: WeakMailboxSender<A>,
)
    requires
        call_ensures(MailboxSender::<A>::downgrade, (&sender,), weak),
    ensures
        weak.admission_cell() == sender.admission_cell(),
        weak.generation_cell() == sender.generation_cell(),
        match (sender.inner(), weak.inner()) {
            (
                MailboxSenderInner::Bounded { messages, control },
                WeakMailboxSenderInner::Bounded { messages: weak_messages, control: weak_control },
            ) => {
                &&& call_ensures(
                    mpsc::Sender::<QueuedMessage<A>>::downgrade,
                    (&messages,),
                    weak_messages,
                )
                &&& call_ensures(
                    mpsc::UnboundedSender::<Signal<A>>::downgrade,
                    (&control,),
                    weak_control,
                )
            },
            (
                MailboxSenderInner::Unbounded { messages, control },
                WeakMailboxSenderInner::Unbounded { messages: weak_messages, control: weak_control },
            ) => {
                &&& call_ensures(
                    mpsc::UnboundedSender::<QueuedMessage<A>>::downgrade,
                    (&messages,),
                    weak_messages,
                )
                &&& call_ensures(
                    mpsc::UnboundedSender::<Signal<A>>::downgrade,
                    (&control,),
                    weak_control,
                )
            },
            _ => false,
        },
{
}

/// Upgrading gives a sender exactly where both lanes give one, and keeps both cells.
pub proof fn law_upgrade_needs_both_lanes<A: Actor>(
    weak: WeakMailboxSender<A>,
    upgraded: Option<MailboxSender<A>>,
)
    requires
        call_ensures(WeakMailboxSender::<A>::upgrade, (&weak,), upgraded),
    ensures
        upgraded matches Some(sender) ==> sender.admission_cell() == weak.admission_cell()
            && sender.generation_cell() == weak.generation_cell(),
        match weak.inner() {
            WeakMailboxSenderInner::Bounded { messages, control } => match upgraded {
                Some(sender) => match sender.inner() {
                    MailboxSenderInner::Bounded { messages: m, control: c } => {
                        &&& call_ensures(
                            mpsc::WeakSender::<QueuedMessage<A>>::upgrade,
                            (&messages,),
                            Some(m),
                        )
                        &&& call_ensures(
                            mpsc::WeakUnboundedSender::<Signal<A>>::upgrade,
                            (&control,),
                            Some(c),
                        )
                    },
                    _ => false,
                },
                None => {
                    ||| call_ensures(
                        mpsc::WeakSender::<QueuedMessage<A>>::upgrade,
                        (&messages,),
                        None,
                    )
                    ||| call_ensures(
                        mpsc::WeakUnboundedSender::<Signal<A>>::upgrade,
                        (&control,),
                        None,
                    )
                },
            },
            WeakMailboxSenderInner::Unbounded { messages, control } => match upgraded {
                Some(sender) => match sender.inner() {
                    MailboxSenderInner::Unbounded { messages: m, control: c } => {
                        &&& call_ensures(
                            mpsc::WeakUnboundedSender::<QueuedMessage<A>>::upgrade,
                            (&messages,),
                            Some(m),
                        )
                        &&& call_ensures(
                            mpsc::WeakUnboundedSender::<Signal<A>>::upgrade,
                            (&control,),
                            Some(c),
                        )
                    },
                    _ => false,
                },
                None => {
                    ||| call_ensures(
                        mpsc::WeakUnboundedSender::<QueuedMessage<A>>::upgrade,
                        (&messages,),
                        None,
                    )
                    ||| call_ensures(
                        mpsc::WeakUnboundedSender::<Signal<A>>::upgrade,
                        (&control,),
                        None,
                    )
                },
            },
        },
{
}

/// A signal is counted as a message exactly if it is one, as a link death exactly if it is one, and
/// as a lifecycle signal otherwise.
pub proof fn law_signals_are_counted_as_what_they_are<A: Actor>(
    signal: Signal<A>,
    kind: SignalKind,
)
    requires
        call_ensures(<SignalKind as From<&Signal<A>>>::from, (&signal,), kind),
    ensures
        kind is Message <==> signal is Message,
        kind is LinkDied <==> signal is LinkDied,
        kind is Lifecycle <==> (signal is StartupFinished || signal is Stop
            || signal is SupervisorRestart),
{
}

/// A new bounded mailbox has the two ends of one bounded channel of that size and of one unbounded
/// channel. Its cells are new and shared: open to messages, in generation zero.
pub proof fn law_new_bounded_mailbox<A: Actor>(
    buffer: usize,
    sender: MailboxSender<A>,
    receiver: MailboxReceiver<A>,
)
    requires
        call_ensures(crate::mailbox::bounded::<A>, (buffer,), (sender, receiver)),
        0 < buffer <= usize::MAX / 8,
    ensures
        call_ensures(AtomicBool::new, (true,), sender.admission_cell()),
        call_ensures(AtomicU64::new, (0u64,), sender.generation_cell()),
        receiver.generation_cell() == sender.generation_cell(),
        receiver.history().len() == 0,
        match (sender.inner(), receiver.inner()) {
            (
                MailboxSenderInner::Bounded { messages: tx, control: control_tx },
                MailboxReceiverInner::Bounded { messages: rx, control: control_rx },
            ) => {
                &&& call_ensures(mpsc::channel::<QueuedMessage<A>>, (buffer,), (tx, rx))
                &&& call_ensures(
                    mpsc::unbounded_channel::<Signal<A>>,
                    (),
                    (control_tx, control_rx),
                )
            },
            _ => false,
        },
{
}

/// A new unbounded mailbox has the two ends of two unbounded channels. Its cells are new and shared:
/// open to messages, in generation zero.
pub proof fn law_new_unbounded_mailbox<A: Actor>(
    sender: MailboxSender<A>,
    receiver: MailboxReceiver<A>,
)
    requires
        call_ensures(crate::mailbox::unbounded::<A>, (), (sender, receiver)),
    ensures
        call_ensures(AtomicBool::new, (true,), sender.admission_cell()),
        call_ensures(AtomicU64::new, (0u64,), sender.generation_cell()),
        receiver.generation_cell() == sender.generation_cell(),
        receiver.history().len() == 0,
        match (sender.inner(), receiver.inner()) {
            (
                MailboxSenderInner::Unbounded { messages: tx, control: control_tx },
                MailboxReceiverInner::Unbounded { messages: rx, control: control_rx },
            ) => {
                &&& call_ensures(mpsc::unbounded_channel::<QueuedMessage<A>>, (), (tx, rx))
                &&& call_ensures(
                    mpsc::unbounded_channel::<Signal<A>>,
                    (),
                    (control_tx, control_rx),
                )
            },
            _ => false,
        },
{
}

/// That startup is finished reaches the actor exactly if the control lane of its mailbox takes it.
pub proof fn law_startup_finished_goes_to_the_control_lane<A: Actor>(
    sender: MailboxSender<A>,
    res: Result<(), SignalError>,
)
    requires
        call_ensures(<MailboxSender<A> as SignalMailbox>::signal_startup_finished, (&sender,), res),
    ensures
        res is Err ==> res == Err::<(), _>(SignalError::ActorNotRunning),
        match sender.inner() {
            MailboxSenderInner::Bounded { control, .. } => exists|
                answer: Result<(), SendError<Signal<A>>>,
            |
                #[trigger] call_ensures(
                    mpsc::UnboundedSender::<Signal<A>>::send,
                    (&control, Signal::<A>::StartupFinished),
                    answer,
                ) && (res is Ok <==> answer is Ok),
            MailboxSenderInner::Unbounded { control, .. } => exists|
                answer: Result<(), SendError<Signal<A>>>,
            |
                #[trigger] call_ensures(
                    mpsc::UnboundedSender::<Signal<A>>::send,
                    (&control, Signal::<A>::StartupFinished),
                    answer,
                ) && (res is Ok <==> answer is Ok),
        },
{
}

/// That a linked actor died, with all that is told of it,
/// reaches the actor exactly if the control lane of its mailbox takes it.
pub proof fn law_link_death_goes_to_the_control_lane<A: Actor>(
    sender: MailboxSender<A>,
    id: ActorId,
    reason: ActorStopReason,
    outcome: ActorTerminalOutcome,
    mailbox_rx: Option<A::MailboxReceiver>,
    dead_actor_sibblings: Option<HashMap<ActorId, Link<A::SignalMailbox>>>,
    res: Result<(), SignalError>,
)
    requires
        call_ensures(
            <MailboxSender<A> as SignalMailbox>::signal_link_died,
            (&sender, id, reason, outcome, mailbox_rx, dead_actor_sibblings),
            res,
        ),
    ensures
        res is Err ==> res == Err::<(), _>(SignalError::ActorNotRunning),
        match sender.inner() {
            MailboxSenderInner::Bounded { control, .. } => exists|
                answer: Result<(), SendError<Signal<A>>>,
            |
                #[trigger] call_ensures(
                    mpsc::UnboundedSender::<Signal<A>>::send,
                    (
                        &control,
                        Signal::<A>::LinkDied {
                            id,
                            reason,
                            outcome,
                            mailbox_rx,
                            dead_actor_sibblings,
                        },
                    ),
                    answer,
                ) && (res is Ok <==> answer is Ok),
            MailboxSenderInner::Unbounded { control, .. } => exists|
                answer: Result<(), SendError<Signal<A>>>,
            |
                #[trigger] call_ensures(
                    mpsc::UnboundedSender::<Signal<A>>::send,
                    (
                        &control,
                        Signal::<A>::LinkDied {
                            id,
                            reason,
                            outcome,
                            mailbox_rx,
                            dead_actor_sibblings,
                        },
                    ),
                    answer,
                ) && (res is Ok <==> answer is Ok),
        },
{
}

/// The signal to stop reaches the actor exactly if the control lane of its mailbox takes it.
pub proof fn law_stop_goes_to_the_control_lane<A: Actor>(
    sender: MailboxSender<A>,
    res: Result<(), SignalError>,
)
    requires
        call_ensures(<MailboxSender<A> as SignalMailbox>::signal_stop, (&sender,), res),
    ensures
        res is Err ==> res == Err::<(), _>(SignalError::ActorNotRunning),
        match sender.inner() {
            MailboxSenderInner::Bounded { control, .. } => exists|
                answer: Result<(), SendError<Signal<A>>>,
            |
                #[trigger] call_ensures(
                    mpsc::UnboundedSender::<Signal<A>>::send,
                    (&control, Signal::<A>::Stop),
                    answer,
                ) && (res is Ok <==> answer is Ok),
            MailboxSenderInner::Unbounded { control, .. } => exists|
                answer: Result<(), SendError<Signal<A>>>,
            |
                #[trigger] call_ensures(
                    mpsc::UnboundedSender::<Signal<A>>::send,
                    (&control, Signal::<A>::Stop),
                    answer,
                ) && (res is Ok <==> answer is Ok),
        },
{
}

/// That startup is finished reaches the actor exactly if the mailbox still has a sender and the control
/// lane takes it.
pub proof fn law_weak_startup_finished_goes_to_the_control_lane<A: Actor>(
    weak: WeakMailboxSender<A>,
    res: Result<(), SignalError>,
)
    requires
        call_ensures(<WeakMailboxSender<A> as SignalMailbox>::signal_startup_finished, (&weak,), res),
    ensures
        res is Err ==> res == Err::<(), _>(SignalError::ActorNotRunning),
        exists|upgraded: Option<MailboxSender<A>>|
            #[trigger] call_ensures(WeakMailboxSender::<A>::upgrade, (&weak,), upgraded)
                && match upgraded {
                None => res is Err,
                Some(sender) => match sender.inner() {
                    MailboxSenderInner::Bounded { control, .. } => exists|
                        answer: Result<(), SendError<Signal<A>>>,
                    |
                        #[trigger] call_ensures(
                            mpsc::UnboundedSender::<Signal<A>>::send,
                            (&control, Signal::<A>::StartupFinished),
                            answer,
                        ) && (res is Ok <==> answer is Ok),
                    MailboxSenderInner::Unbounded { control, .. } => exists|
                        answer: Result<(), SendError<Signal<A>>>,
                    |
                        #[trigger] call_ensures(
                            mpsc::UnboundedSender::<Signal<A>>::send,
                            (&control, Signal::<A>::StartupFinished),
                            answer,
                        ) && (res is Ok <==> answer is Ok),
                },
            },
{
}

/// That a linked actor died, with all that is told of it,
/// reaches the actor exactly if the mailbox still has a sender and the control
/// lane takes it.
pub proof fn law_weak_link_death_goes_to_the_control_lane<A: Actor>(
    weak: WeakMailboxSender<A>,
    id: ActorId,
    reason: ActorStopReason,
    outcome: ActorTerminalOutcome,
    mailbox_rx: Option<A::MailboxReceiver>,
    dead_actor_sibblings: Option<HashMap<ActorId, Link<A::SignalMailbox>>>,
    res: Result<(), SignalError>,
)
    requires
        call_ensures(
            <WeakMailboxSender<A> as SignalMailbox>::signal_link_died,
            (&weak, id, reason, outcome, mailbox_rx, dead_actor_sibblings),
            res,
        ),
    ensures
        res is Err ==> res == Err::<(), _>(SignalError::ActorNotRunning),
        exists|upgraded: Option<MailboxSender<A>>|
            #[trigger] call_ensures(WeakMailboxSender::<A>::upgrade, (&weak,), upgraded)
                && match upgraded {
                None => res is Err,
                Some(sender) => match sender.inner() {
                    MailboxSenderInner::Bounded { control, .. } => exists|
                        answer: Result<(), SendError<Signal<A>>>,
                    |
                        #[trigger] call_ensures(
                            mpsc::UnboundedSender::<Signal<A>>::send,
                            (
                                &control,
                                Signal::<A>::LinkDied {
                                    id,
                                    reason,
                                    outcome,
                                    mailbox_rx,
                                    dead_actor_sibblings,
                                },
                            ),
                            answer,
                        ) && (res is Ok <==> answer is Ok),
                    MailboxSenderInner::Unbounded { control, .. } => exists|
                        answer: Result<(), SendError<Signal<A>>>,
                    |
                        #[trigger] call_ensures(
                            mpsc::UnboundedSender::<Signal<A>>::send,
                            (
                                &control,
                                Signal::<A>::LinkDied {
                                    id,
                                    reason,
                                    outcome,
                                    mailbox_rx,
                                    dead_actor_sibblings,
                                },
                            ),
                            answer,
                        ) && (res is Ok <==> answer is Ok),
                },
            },
{
}

/// The signal to stop reaches the actor exactly if the mailbox still has a sender and the control
/// lane takes it.
pub proof fn law_weak_stop_goes_to_the_control_lane<A: Actor>(
    weak: WeakMailboxSender<A>,
    res: Result<(), SignalError>,
)
    requires
        call_ensures(<WeakMailboxSender<A> as SignalMailbox>::signal_stop, (&weak,), res),
    ensures
        res is Err ==> res == Err::<(), _>(SignalError::ActorNotRunning),
        exists|upgraded: Option<MailboxSender<A>>|
            #[trigger] call_ensures(WeakMailboxSender::<A>::upgrade, (&weak,), upgraded)
                && match upgraded {
                None => res is Err,
                Some(sender) => match sender.inner() {
                    MailboxSenderInner::Bounded { control, .. } => exists|
                        answer: Result<(), SendError<Signal<A>>>,
                    |
                        #[trigger] call_ensures(
                            mpsc::UnboundedSender::<Signal<A>>::send,
                            (&control, Signal::<A>::Stop),
                            answer,
                        ) && (res is Ok <==> answer is Ok),
                    MailboxSenderInner::Unbounded { control, .. } => exists|
                        answer: Result<(), SendError<Signal<A>>>,
                    |
                        #[trigger] call_ensures(
                            mpsc::UnboundedSender::<Signal<A>>::send,
                            (&control, Signal::<A>::Stop),
                            answer,
                        ) && (res is Ok <==> answer is Ok),
                },
            },
{
}

/// The strong handles that a handle counts are those of the message lane.
pub proof fn law_handle_counts_the_strong_handles<A: Actor>(sender: MailboxSender<A>, count: usize)
    requires
        call_ensures(MailboxSender::<A>::strong_count, (&sender,), count),
    ensures
        match sender.inner() {
            MailboxSenderInner::Bounded { messages, control } => call_ensures(
                mpsc::Sender::<QueuedMessage<A>>::strong_count,
                (&messages,),
                count,
            ),
            MailboxSenderInner::Unbounded { messages, control } => call_ensures(
                mpsc::UnboundedSender::<QueuedMessage<A>>::strong_count,
                (&messages,),
                count,
            ),
        },
{
}

/// The weak handles that a handle counts are those of the message lane.
pub proof fn law_handle_counts_the_weak_handles<A: Actor>(sender: MailboxSender<A>, count: usize)
    requires
        call_ensures(MailboxSender::<A>::weak_count, (&sender,), count),
    ensures
        match sender.inner() {
            MailboxSenderInner::Bounded { messages, control } => call_ensures(
                mpsc::Sender::<QueuedMessage<A>>::weak_count,
                (&messages,),
                count,
            ),
            MailboxSenderInner::Unbounded { messages, control } => call_ensures(
                mpsc::UnboundedSender::<QueuedMessage<A>>::weak_count,
                (&messages,),
                count,
            ),
        },
{
}

/// The strong handles that a weak handle counts are those of the message lane.
pub proof fn law_weak_handle_counts_the_strong_handles<A: Actor>(
    weak: WeakMailboxSender<A>,
    count: usize,
)
    requires
        call_ensures(WeakMailboxSender::<A>::strong_count, (&weak,), count),
    ensures
        match weak.inner() {
            WeakMailboxSenderInner::Bounded { messages, control } => call_ensures(
                mpsc::WeakSender::<QueuedMessage<A>>::strong_count,
                (&messages,),
                count,
            ),
            WeakMailboxSenderInner::Unbounded { messages, control } => call_ensures(
                mpsc::WeakUnboundedSender::<QueuedMessage<A>>::strong_count,
                (&messages,),
                count,
            ),
        },
{
}

/// The weak handles that a weak handle counts are those of the message lane.
pub proof fn law_weak_handle_counts_the_weak_handles<A: Actor>(
    weak: WeakMailboxSender<A>,
    count: usize,
)
    requires
        call_ensures(WeakMailboxSender::<A>::weak_count, (&weak,), count),
    ensures
        match weak.inner() {
            WeakMailboxSenderInner::Bounded { messages, control } => call_ensures(
                mpsc::WeakSender::<QueuedMessage<A>>::weak_count,
                (&messages,),
                count,
            ),
            WeakMailboxSenderInner::Unbounded { messages, control } => call_ensures(
                mpsc::WeakUnboundedSender::<QueuedMessage<A>>::weak_count,
                (&messages,),
                count,
            ),
        },
{
}

/// A clone of a handle feeds the lanes of that handle and shares its cells.
pub proof fn law_clone_shares_lanes_and_cells<A: Actor>(
    sender: MailboxSender<A>,
    clone: MailboxSender<A>,
)
    requires
        call_ensures(MailboxSender::<A>::clone, (&sender,), clone),
    ensures
        clone.inner() == sender.inner(),
        clone.admission_cell() == sender.admission_cell(),
        clone.generation_cell() == sender.generation_cell(),
{
}

/// A clone of a weak handle stands for the lanes of that handle and shares its cells.
pub proof fn law_weak_clone_shares_lanes_and_cells<A: Actor>(
    weak: WeakMailboxSender<A>,
    clone: WeakMailboxSender<A>,
)
    requires
        call_ensures(WeakMailboxSender::<A>::clone, (&weak,), clone),
    ensures
        clone.inner() == weak.inner(),
        clone.admission_cell() == weak.admission_cell(),
        clone.generation_cell() == weak.generation_cell(),
{
}

/// The lanes that a handle shows are its own.
pub proof fn law_handles_show_their_lanes<A: Actor>(
    sender: MailboxSender<A>,
    weak: WeakMailboxSender<A>,
    receiver: MailboxReceiver<A>,
    sending: &MailboxSenderInner<A>,
    waiting: &WeakMailboxSenderInner<A>,
    receiving: &MailboxReceiverInner<A>,
)
    requires
        call_ensures(MailboxSender::<A>::lanes, (&sender,), sending),
        call_ensures(WeakMailboxSender::<A>::lanes, (&weak,), waiting),
        call_ensures(MailboxReceiver::<A>::lanes, (&receiver,), receiving),
    ensures
        *sending == sender.inner(),
        *waiting == weak.inner(),
        *receiving == receiver.inner(),
{
}

/// Opening stores in the shared flag that messages are admitted. Stopping stores that they are not,
/// and moves the shared generation on by one.
pub proof fn law_opening_and_stopping_write_the_cells<A: Actor>(
    sender: MailboxSender<A>,
    weak: WeakMailboxSender<A>,
)
    ensures
        call_ensures(MailboxSender::<A>::open_message_admission, (&sender,), ()) ==> call_ensures(
            AtomicBool::store,
            (&sender.admission_cell(), true, Ordering::Release),
            (),
        ),
        call_ensures(WeakMailboxSender::<A>::stop_message_admission, (&weak,), ()) ==> {
            &&& call_ensures(
                AtomicBool::store,
                (&weak.admission_cell(), false, Ordering::Release),
                (),
            )
            &&& exists|generation: u64| #[trigger]
                call_ensures(
                    AtomicU64::fetch_add,
                    (&weak.generation_cell(), 1u64, Ordering::AcqRel),
                    generation,
                )
        },
{
}

/// The generation moves on by one, and only after the mailbox was closed to messages.
pub proof fn law_generation_moves_on_in_a_closed_mailbox<A: Actor>(weak: WeakMailboxSender<A>)
    requires
        call_ensures(WeakMailboxSender::<A>::advance_message_generation, (&weak,), ()),
    ensures
        call_ensures(AtomicBool::store, (&weak.admission_cell(), false, Ordering::Release), ()),
        exists|generation: u64| #[trigger]
            call_ensures(
                AtomicU64::fetch_add,
                (&weak.generation_cell(), 1u64, Ordering::AcqRel),
                generation,
            ),
{
}

/// Whether messages are admitted is what the shared flag is read as, through either handle.
pub proof fn law_admission_is_read_from_the_flag<A: Actor>(
    sender: MailboxSender<A>,
    weak: WeakMailboxSender<A>,
    open: bool,
)
    ensures
        call_ensures(MailboxSender::<A>::is_accepting_messages, (&sender,), open) ==> call_ensures(
            AtomicBool::load,
            (&sender.admission_cell(), Ordering::Acquire),
            open,
        ),
        call_ensures(WeakMailboxSender::<A>::is_accepting_messages, (&weak,), open)
            ==> call_ensures(AtomicBool::load, (&weak.admission_cell(), Ordering::Acquire), open),
{
}

/// A message is stamped with the generation that it is given, and stays as it is.
pub proof fn law_stamp_is_the_given_generation<A: Actor>(
    sender: MailboxSender<A>,
    generation: u64,
    signal: Signal<A>,
    queued: QueuedMessage<A>,
)
    requires
        call_ensures(MailboxSender::<A>::queued_message, (&sender, generation, signal), queued),
    ensures
        queued.generation == generation,
        queued.signal == signal,
{
}

/// A control signal that is not sent was refused by a control lane that may be found closed.
pub proof fn law_only_a_closed_lane_refuses_control_signals<A: Actor>(
    sender: MailboxSender<A>,
    signal: Signal<A>,
    tried: Result<(), TrySendError<Signal<A>>>,
    begun: SendStep<'_, A>,
)
    requires
        !(signal is Message),
        call_ensures(MailboxSender::<A>::try_send, (&sender, signal), tried),
        call_ensures(MailboxSender::<A>::begin_send, (&sender, signal), begun),
        tried is Err || (begun matches SendStep::Done(res) && res is Err),
    ensures
        match sender.inner() {
            MailboxSenderInner::Bounded { messages, control } => call_ensures(
                mpsc::UnboundedSender::<Signal<A>>::is_closed,
                (&control,),
                true,
            ),
            MailboxSenderInner::Unbounded { messages, control } => call_ensures(
                mpsc::UnboundedSender::<Signal<A>>::is_closed,
                (&control,),
                true,
            ),
        },
{
}

/// A control signal about the life of an actor that does not get through was refused by a control
/// lane that may be found closed.
pub proof fn law_only_a_closed_lane_refuses_lifecycle_signals<A: Actor>(
    sender: MailboxSender<A>,
    id: ActorId,
    reason: ActorStopReason,
    outcome: ActorTerminalOutcome,
    mailbox_rx: Option<A::MailboxReceiver>,
    dead_actor_sibblings: Option<HashMap<ActorId, Link<A::SignalMailbox>>>,
    startup: Result<(), SignalError>,
    death: Result<(), SignalError>,
    stop: Result<(), SignalError>,
)
    requires
        call_ensures(
            <MailboxSender<A> as SignalMailbox>::signal_startup_finished,
            (&sender,),
            startup,
        ),
        call_ensures(
            <MailboxSender<A> as SignalMailbox>::signal_link_died,
            (&sender, id, reason, outcome, mailbox_rx, dead_actor_sibblings),
            death,
        ),
        call_ensures(<MailboxSender<A> as SignalMailbox>::signal_stop, (&sender,), stop),
        startup is Err || death is Err || stop is Err,
    ensures
        match sender.inner() {
            MailboxSenderInner::Bounded { messages, control } => call_ensures(
                mpsc::UnboundedSender::<Signal<A>>::is_closed,
                (&control,),
                true,
            ),
            MailboxSenderInner::Unbounded { messages, control } => call_ensures(
                mpsc::UnboundedSender::<Signal<A>>::is_closed,
                (&control,),
                true,
            ),
        },
{
}

/// A message that is refused as by a closed mailbox found a message lane that may be read as closed,
/// or has a stamp that failed the check.
pub proof fn law_only_a_closed_mailbox_refuses_tried_messages<A: Actor>(
    sender: MailboxSender<A>,
    signal: Signal<A>,
    tried: Result<(), TrySendError<Signal<A>>>,
)
    requires
        signal is Message,
        call_ensures(MailboxSender::<A>::try_send, (&sender, signal), tried),
        tried == Err::<(), _>(TrySendError::Closed(signal)),
    ensures
        (match sender.inner() {
            MailboxSenderInner::Bounded { messages, control } => call_ensures(
                mpsc::Sender::<QueuedMessage<A>>::is_closed,
                (&messages,),
                true,
            ),
            MailboxSenderInner::Unbounded { messages, control } => call_ensures(
                mpsc::UnboundedSender::<QueuedMessage<A>>::is_closed,
                (&messages,),
                true,
            ),
        }) || (exists|generation: u64|
            #[trigger] call_ensures(
                AtomicU64::load,
                (&sender.generation_cell(), Ordering::Acquire),
                generation,
            ) && call_ensures(
                MailboxSender::<A>::accepts_message_generation,
                (&sender, generation),
                false,
            )),
{
}

/// A message that is refused as by a full mailbox found a bounded message lane that may be read as
/// having no free slot.
pub proof fn law_only_a_full_lane_refuses_as_full<A: Actor>(
    sender: MailboxSender<A>,
    signal: Signal<A>,
    tried: Result<(), TrySendError<Signal<A>>>,
)
    requires
        call_ensures(MailboxSender::<A>::try_send, (&sender, signal), tried),
        tried == Err::<(), _>(TrySendError::Full(signal)),
    ensures
        signal is Message,
        match sender.inner() {
            MailboxSenderInner::Bounded { messages, control } => call_ensures(
                mpsc::Sender::<QueuedMessage<A>>::capacity,
                (&messages,),
                0usize,
            ),
            MailboxSenderInner::Unbounded { .. } => false,
        },
{
}

/// A message that comes back when it is begun to be sent found a message lane that may be read as
/// closed, or has a stamp that failed the check.
pub proof fn law_only_a_closed_mailbox_refuses_begun_messages<A: Actor>(
    sender: MailboxSender<A>,
    signal: Signal<A>,
    begun: SendStep<'_, A>,
)
    requires
        signal is Message,
        call_ensures(MailboxSender::<A>::begin_send, (&sender, signal), begun),
        begun matches SendStep::Done(res) && res is Err,
    ensures
        (match sender.inner() {
            MailboxSenderInner::Bounded { messages, control } => call_ensures(
                mpsc::Sender::<QueuedMessage<A>>::is_closed,
                (&messages,),
                true,
            ),
            MailboxSenderInner::Unbounded { messages, control } => call_ensures(
                mpsc::UnboundedSender::<QueuedMessage<A>>::is_closed,
                (&messages,),
                true,
            ),
        }) || (exists|generation: u64|
            #[trigger] call_ensures(
                AtomicU64::load,
                (&sender.generation_cell(), Ordering::Acquire),
                generation,
            ) && call_ensures(
                MailboxSender::<A>::accepts_message_generation,
                (&sender, generation),
                false,
            )),
{
}

} // verus!
