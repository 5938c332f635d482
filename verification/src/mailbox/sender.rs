//! The sending ends of a mailbox.
use std::sync::atomic::{AtomicBool, AtomicU64, Ordering};
use std::sync::Arc;

use tokio::sync::mpsc;
use tokio::sync::mpsc::error::{SendError, SendTimeoutError, TrySendError};
use vstd::prelude::*;

use crate::actor::Actor;
use crate::error::SignalError;
use crate::mailbox::lanes;
use crate::mailbox::lanes::{MailboxSenderInner, QueuedMessage, WeakMailboxSenderInner};
use crate::mailbox::signal::Signal;
use crate::platform;

verus! {

/// What the caller of a send is told when the message lane answered `answer`: the same, but for
/// the stamp on a message that comes back.
pub open spec fn unstamped<A: Actor>(answer: Result<(), SendError<QueuedMessage<A>>>) -> Result<
    (),
    SendError<Signal<A>>,
> {
    match answer {
        Ok(()) => Ok(()),
        Err(error) => Err(SendError(error.0.signal)),
    }
}

/// What the caller of a `try_send` is told when the message lane answered `answer`.
pub open spec fn unstamped_try<A: Actor>(
    answer: Result<(), TrySendError<QueuedMessage<A>>>,
) -> Result<(), TrySendError<Signal<A>>> {
    match answer {
        Ok(()) => Ok(()),
        Err(TrySendError::Full(queued)) => Err(TrySendError::Full(queued.signal)),
        Err(TrySendError::Closed(queued)) => Err(TrySendError::Closed(queued.signal)),
    }
}

/// What the caller of a `try_send` is told when a lane that is never full answered `answer`.
pub open spec fn as_try<T>(answer: Result<(), SendError<T>>) -> Result<(), TrySendError<T>> {
    match answer {
        Ok(()) => Ok(()),
        Err(error) => Err(TrySendError::Closed(error.0)),
    }
}

/// What the caller of a `send_timeout` is told when a lane that needs no waiting answered
/// `answer`.
pub open spec fn as_timeout<T>(answer: Result<(), SendError<T>>) -> Result<
    (),
    SendTimeoutError<T>,
> {
    match answer {
        Ok(()) => Ok(()),
        Err(error) => Err(SendTimeoutError::Closed(error.0)),
    }
}

/// What is left to do for a `send`.
#[verifier::reject_recursive_types(A)]
pub enum SendStep<'a, A: Actor> {
    /// Nothing.
    Done(Result<(), SendError<Signal<A>>>),
    /// Wait for a slot of the message lane, for a message that `generation` admitted.
    Reserve {
        /// The message lane.
        messages: &'a mpsc::Sender<QueuedMessage<A>>,
        /// The message generation that admitted the message.
        generation: u64,
        /// The message.
        signal: Signal<A>,
    },
}

/// Sends messages and signals to the associated `MailboxReceiver`.
///
/// Instances are created by the [`bounded`] and [`unbounded`] functions.
///
/// [`bounded`]: crate::mailbox::bounded
/// [`unbounded`]: crate::mailbox::unbounded
#[verifier::reject_recursive_types(A)]
pub struct MailboxSender<A: Actor> {
    inner: MailboxSenderInner<A>,
    admission_open: Arc<AtomicBool>,
    message_generation: Arc<AtomicU64>,
}

impl<A: Actor> MailboxSender<A> {
    /// The sending ends of the two lanes.
    pub closed spec fn inner(self) -> MailboxSenderInner<A> {
        self.inner
    }

    /// Whether ordinary messages are admitted at all.
    pub closed spec fn admission_cell(self) -> AtomicBool {
        *self.admission_open
    }

    /// The message generation that ordinary messages are stamped with.
    pub closed spec fn generation_cell(self) -> AtomicU64 {
        *self.message_generation
    }

    /// Whether the check of `generation` passed: the mailbox admits a message with that stamp. The
    /// stamp is read before the check, which reads the flag and then the generation once more.
    pub open spec fn granted(self, generation: u64) -> bool {
        call_ensures(MailboxSender::<A>::accepts_message_generation, (&self, generation), true)
    }

    /// Whether the check of `generation` failed: the mailbox does not admit a message with that
    /// stamp.
    pub open spec fn refused(self, generation: u64) -> bool {
        call_ensures(MailboxSender::<A>::accepts_message_generation, (&self, generation), false)
    }

    /// Whether the control lane answered `answer` to `signal`.
    pub open spec fn control_sent(
        self,
        signal: Signal<A>,
        answer: Result<(), SendError<Signal<A>>>,
    ) -> bool {
        call_ensures(
            mpsc::UnboundedSender::<Signal<A>>::send,
            (&self.inner().control_lane(), signal),
            answer,
        )
    }

    /// Whether the mailbox may be closed to `signal`: its lane may be read as closed or, for a
    /// message, the check of a stamp that was read failed.
    pub open spec fn closed_to(self, signal: Signal<A>) -> bool {
        if signal.is_message() {
            ||| self.inner().messages_read_closed(true)
            ||| exists|generation: u64| #[trigger]
                lanes::generation_read(self.generation_cell(), generation) && self.refused(
                    generation,
                )
        } else {
            self.inner().control_read_closed(true)
        }
    }

    /// Whether the message lane, handed the message `signal` with the stamp `generation`, answered
    /// so that the caller of a `try_send` is told `res`.
    pub open spec fn message_tried(
        self,
        generation: u64,
        signal: Signal<A>,
        res: Result<(), TrySendError<Signal<A>>>,
    ) -> bool {
        match self.inner() {
            MailboxSenderInner::Bounded { messages, .. } => exists|
                answer: Result<(), TrySendError<QueuedMessage<A>>>,
            |
                #[trigger] call_ensures(
                    mpsc::Sender::<QueuedMessage<A>>::try_send,
                    (&messages, QueuedMessage { generation, signal }),
                    answer,
                ) && res == unstamped_try(answer),
            MailboxSenderInner::Unbounded { messages, .. } => exists|
                answer: Result<(), SendError<QueuedMessage<A>>>,
            |
                #[trigger] call_ensures(
                    mpsc::UnboundedSender::<QueuedMessage<A>>::send,
                    (&messages, QueuedMessage { generation, signal }),
                    answer,
                ) && res == as_try(unstamped(answer)),
        }
    }

    /// Whether a message with the stamp `generation` was begun to be sent so that `res` is left to
    /// do: it is on its way on an unbounded lane, and has to wait for a slot of a bounded one.
    pub open spec fn message_begun(
        self,
        generation: u64,
        signal: Signal<A>,
        res: SendStep<'_, A>,
    ) -> bool {
        match self.inner() {
            MailboxSenderInner::Bounded { messages, .. } => res == (SendStep::Reserve {
                messages: &messages,
                generation,
                signal,
            }),
            MailboxSenderInner::Unbounded { messages, .. } => exists|
                answer: Result<(), SendError<QueuedMessage<A>>>,
            |
                #[trigger] call_ensures(
                    mpsc::UnboundedSender::<QueuedMessage<A>>::send,
                    (&messages, QueuedMessage { generation, signal }),
                    answer,
                ) && res == SendStep::Done(unstamped(answer)),
        }
    }

    /// Whether the slot `permit` was used for the message `signal`, or was not because the mailbox
    /// no longer admits messages of `generation`, so that the sender is told `res`.
    pub open spec fn permit_used(
        self,
        generation: u64,
        signal: Signal<A>,
        permit: mpsc::Permit<'_, QueuedMessage<A>>,
        res: Result<(), SendError<Signal<A>>>,
    ) -> bool {
        ||| self.refused(generation) && res == Err::<(), _>(SendError(signal))
        ||| {
            &&& self.granted(generation)
            &&& call_ensures(
                mpsc::Permit::<QueuedMessage<A>>::send,
                (permit, QueuedMessage { generation, signal }),
                (),
            )
            &&& res == Ok::<(), SendError<Signal<A>>>(())
        }
    }

    /// Whether the control lane, handed `signal`, answered so that the sender of the signal is told
    /// `res`. A signal is refused only by a lane that may be read as closed.
    pub open spec fn signalled(self, signal: Signal<A>, res: Result<(), SignalError>) -> bool {
        &&& exists|answer: Result<(), SendError<Signal<A>>>|
            #[trigger] self.control_sent(signal, answer) && res == (match answer {
                Ok(()) => Ok(()),
                Err(_) => Err(SignalError::ActorNotRunning),
            })
        &&& res is Err ==> self.inner().control_read_closed(true)
    }

    pub(crate) fn new(
        inner: MailboxSenderInner<A>,
        admission_open: Arc<AtomicBool>,
        message_generation: Arc<AtomicU64>,
    ) -> (res: Self)
        ensures
            res.inner() == inner,
            res.admission_cell() == *admission_open,
            res.generation_cell() == *message_generation,
    {
        MailboxSender { inner, admission_open, message_generation }
    }

    /// Opens the mailbox to ordinary messages.
    pub fn open_message_admission(&self)
        ensures
            call_ensures(AtomicBool::store, (&self.admission_cell(), true, Ordering::Release), ()),
    {
        self.admission_open.store(true, Ordering::Release);
    }

    /// Whether the mailbox admits ordinary messages.
    pub fn is_accepting_messages(&self) -> (res: bool)
        ensures
            lanes::admission_read(self.admission_cell(), res),
    {
        self.admission_open.load(Ordering::Acquire)
    }

    fn is_message_signal(signal: &Signal<A>) -> (res: bool)
        ensures
            res == signal.is_message(),
    {
        matches!(signal, Signal::Message { .. })
    }

    fn current_message_generation(&self) -> (res: u64)
        ensures
            lanes::generation_read(self.generation_cell(), res),
    {
        self.message_generation.load(Ordering::Acquire)
    }

    /// Whether the mailbox admits a message that was stamped with `generation`: the mailbox is open
    /// to messages, and the generation is still the same.
    pub fn accepts_message_generation(&self, generation: u64) -> (res: bool)
        ensures
            if res {
                &&& lanes::admission_read(self.admission_cell(), true)
                &&& lanes::generation_read(self.generation_cell(), generation)
            } else {
                ||| lanes::admission_read(self.admission_cell(), false)
                ||| lanes::admission_read(self.admission_cell(), true) && exists|current: u64|
                    current != generation && #[trigger] lanes::generation_read(
                        self.generation_cell(),
                        current,
                    )
            },
    {
        self.is_accepting_messages() && self.current_message_generation() == generation
    }

    /// Stamps a message with the generation that admitted it.
    pub fn queued_message(&self, generation: u64, signal: Signal<A>) -> (res: QueuedMessage<A>)
        ensures
            res == (QueuedMessage { generation, signal }),
    {
        QueuedMessage { generation, signal }
    }

    /// Attempts to immediately send a message on this `Sender`.
    /// Unbounded mailboxes will always have capacity.
    ///
    /// See tokio's [`mpsc::Sender::try_send`] and [`mpsc::UnboundedSender::send`] docs for more info.
    ///
    /// [`mpsc::Sender::try_send`]: tokio::sync::mpsc::Sender::try_send
    /// [`mpsc::UnboundedSender::send`]: tokio::sync::mpsc::UnboundedSender::send
    pub fn try_send(&self, signal: Signal<A>) -> (res: Result<(), TrySendError<Signal<A>>>)
        ensures
            !signal.is_message() ==> exists|answer: Result<(), SendError<Signal<A>>>| #[trigger]
                self.control_sent(signal, answer) && res == as_try(answer),
            signal.is_message() ==> exists|generation: u64| #[trigger]
                lanes::generation_read(self.generation_cell(), generation) && {
                    ||| self.refused(generation) && res == Err::<(), _>(TrySendError::Closed(signal))
                    ||| self.granted(generation) && self.message_tried(generation, signal, res)
                },
            res matches Err(error) ==> platform::refused_value(error) == signal,
            res matches Err(TrySendError::Full(_)) ==> signal.is_message()
                && self.inner().messages_read_free(0),
            res matches Err(TrySendError::Closed(_)) ==> self.closed_to(signal),
    {
        match &self.inner {
            MailboxSenderInner::Bounded { messages, control } => {
                if Self::is_message_signal(&signal) {
                    let generation: u64 = self.current_message_generation();
                    if !self.accepts_message_generation(generation) {
                        return Err(TrySendError::Closed(signal));
                    }
                    match messages.try_send(self.queued_message(generation, signal)) {
                        Ok(()) => Ok(()),
                        Err(TrySendError::Full(queued)) => Err(TrySendError::Full(queued.signal)),
                        Err(TrySendError::Closed(queued)) => Err(
                            TrySendError::Closed(queued.signal),
                        ),
                    }
                } else {
                    let ghost sent = signal;
                    let answer = control.send(signal);
                    assert(self.control_sent(sent, answer));
                    match answer {
                        Ok(()) => Ok(()),
                        Err(error) => Err(TrySendError::Closed(error.0)),
                    }
                }
            },
            MailboxSenderInner::Unbounded { messages, control } => {
                if Self::is_message_signal(&signal) {
                    let generation: u64 = self.current_message_generation();
                    if !self.accepts_message_generation(generation) {
                        return Err(TrySendError::Closed(signal));
                    }
                    match messages.send(self.queued_message(generation, signal)) {
                        Ok(()) => Ok(()),
                        Err(error) => Err(TrySendError::Closed(error.0.signal)),
                    }
                } else {
                    let ghost sent = signal;
                    let answer = control.send(signal);
                    assert(self.control_sent(sent, answer));
                    match answer {
                        Ok(()) => Ok(()),
                        Err(error) => Err(TrySendError::Closed(error.0)),
                    }
                }
            },
        }
    }

    /// Sends a value as far as that needs no waiting: a control signal, a message on an unbounded
    /// mailbox, or a message that is not admitted. Another message has to wait for a slot.
    pub fn begin_send<'a>(&'a self, signal: Signal<A>) -> (res: SendStep<'a, A>)
        ensures
            !signal.is_message() ==> (res matches SendStep::Done(answer) && self.control_sent(
                signal,
                answer,
            )),
            signal.is_message() ==> exists|generation: u64| #[trigger]
                lanes::generation_read(self.generation_cell(), generation) && {
                    ||| self.refused(generation) && res == SendStep::Done(Err(SendError(signal)))
                    ||| self.granted(generation) && self.message_begun(generation, signal, res)
                },
            res matches SendStep::Done(Err(error)) ==> error.0 == signal && self.closed_to(signal),
            res is Reserve ==> signal.is_message() && self.inner() is Bounded,
    {
        match &self.inner {
            MailboxSenderInner::Bounded { messages, control } => {
                if Self::is_message_signal(&signal) {
                    let generation: u64 = self.current_message_generation();
                    if !self.accepts_message_generation(generation) {
                        return SendStep::Done(Err(SendError(signal)));
                    }
                    SendStep::Reserve { messages, generation, signal }
                } else {
                    SendStep::Done(control.send(signal))
                }
            },
            MailboxSenderInner::Unbounded { messages, control } => {
                if Self::is_message_signal(&signal) {
                    let generation: u64 = self.current_message_generation();
                    if !self.accepts_message_generation(generation) {
                        return SendStep::Done(Err(SendError(signal)));
                    }
                    SendStep::Done(
                        Self::settle_send(messages.send(self.queued_message(generation, signal))),
                    )
                } else {
                    SendStep::Done(control.send(signal))
                }
            },
        }
    }

    /// What the caller of a send is told when the message lane answered `answer`.
    pub fn settle_send(answer: Result<(), SendError<QueuedMessage<A>>>) -> (res: Result<
        (),
        SendError<Signal<A>>,
    >)
        ensures
            res == unstamped(answer),
    {
        match answer {
            Ok(()) => Ok(()),
            Err(error) => Err(SendError(error.0.signal)),
        }
    }

    /// Sends a message that had to wait for a slot, if the mailbox still admits messages of its
    /// generation. `reserved` is what the message lane answered to the wait.
    pub fn finish_send<'a>(
        &self,
        generation: u64,
        signal: Signal<A>,
        reserved: Result<mpsc::Permit<'a, QueuedMessage<A>>, SendError<()>>,
    ) -> (res: Result<(), SendError<Signal<A>>>)
        ensures
            match reserved {
                Err(_) => res == Err::<(), _>(SendError(signal)),
                Ok(permit) => self.permit_used(generation, signal, permit, res),
            },
    {
        match reserved {
            Ok(permit) => {
                if !self.accepts_message_generation(generation) {
                    return Err(SendError(signal));
                }
                permit.send(self.queued_message(generation, signal));
                Ok(())
            },
            Err(_) => Err(SendError(signal)),
        }
    }

    /// What the caller of a `send_timeout` is told when the send needed no waiting and came to
    /// `answer`.
    pub fn settle_send_timeout(answer: Result<(), SendError<Signal<A>>>) -> (res: Result<
        (),
        SendTimeoutError<Signal<A>>,
    >)
        ensures
            res == as_timeout(answer),
    {
        match answer {
            Ok(()) => Ok(()),
            Err(error) => Err(SendTimeoutError::Closed(error.0)),
        }
    }

    /// Sends a message that had to wait for a slot for a limited time. `reserved` is what the
    /// message lane answered to the wait, and nothing if the time was up before.
    pub fn finish_send_timeout<'a>(
        &self,
        generation: u64,
        signal: Signal<A>,
        reserved: Option<Result<mpsc::Permit<'a, QueuedMessage<A>>, SendError<()>>>,
    ) -> (res: Result<(), SendTimeoutError<Signal<A>>>)
        ensures
            match reserved {
                None => res == Err::<(), _>(SendTimeoutError::Timeout(signal)),
                Some(Err(_)) => res == Err::<(), _>(SendTimeoutError::Closed(signal)),
                Some(Ok(permit)) => exists|answer: Result<(), SendError<Signal<A>>>| #[trigger]
                    self.permit_used(generation, signal, permit, answer) && res == as_timeout(
                        answer,
                    ),
            },
    {
        match reserved {
            None => Err(SendTimeoutError::Timeout(signal)),
            Some(reserved) => Self::settle_send_timeout(
                self.finish_send(generation, signal, reserved),
            ),
        }
    }

    /// The sending ends of the two lanes.
    pub fn lanes(&self) -> (res: &MailboxSenderInner<A>)
        ensures
            *res == self.inner(),
    {
        &self.inner
    }

    /// Checks if the ordinary message lane has been closed. This happens when the
    /// [`MailboxReceiver`] is dropped, or when the [`MailboxReceiver::close`] method is
    /// called.
    ///
    /// Lifecycle/control signals use a separate control lane. This method reports the
    /// user-message lane because public mailbox senders are primarily an ordinary message
    /// surface.
    ///
    /// See tokio's [`mpsc::Sender::is_closed`] and [`mpsc::UnboundedSender::is_closed`] docs for more info.
    ///
    /// [`MailboxReceiver`]: crate::mailbox::MailboxReceiver
    /// [`MailboxReceiver::close`]: crate::mailbox::MailboxReceiver::close
    /// [`mpsc::Sender::is_closed`]: tokio::sync::mpsc::Sender::is_closed
    /// [`mpsc::UnboundedSender::is_closed`]: tokio::sync::mpsc::UnboundedSender::is_closed
    pub fn is_closed(&self) -> (res: bool)
        ensures
            self.inner().messages_read_closed(res),
    {
        match &self.inner {
            MailboxSenderInner::Bounded { messages, .. } => messages.is_closed(),
            MailboxSenderInner::Unbounded { messages, .. } => messages.is_closed(),
        }
    }

    /// Returns `true` if senders belong to the same channel.
    ///
    /// See tokio's [`mpsc::Sender::same_channel`] and [`mpsc::UnboundedSender::same_channel`] docs for more info.
    ///
    /// [`mpsc::Sender::same_channel`]: tokio::sync::mpsc::Sender::same_channel
    /// [`mpsc::UnboundedSender::same_channel`]: tokio::sync::mpsc::UnboundedSender::same_channel
    pub fn same_channel(&self, other: &MailboxSender<A>) -> (res: bool)
        ensures
            res == self.inner().same_messages(other.inner()),
    {
        match (&self.inner, &other.inner) {
            (
                MailboxSenderInner::Bounded { messages: a, .. },
                MailboxSenderInner::Bounded { messages: b, .. },
            ) => a.same_channel(b),
            (MailboxSenderInner::Bounded { .. }, MailboxSenderInner::Unbounded { .. }) => false,
            (MailboxSenderInner::Unbounded { .. }, MailboxSenderInner::Bounded { .. }) => false,
            (
                MailboxSenderInner::Unbounded { messages: a, .. },
                MailboxSenderInner::Unbounded { messages: b, .. },
            ) => a.same_channel(b),
        }
    }

    /// Returns the current capacity of the ordinary message lane, if bounded.
    /// Unbounded ordinary message lanes return `None`.
    ///
    /// Lifecycle/control signals use a separate unbounded control lane, so this value does
    /// not describe control-signal capacity.
    ///
    /// See tokio's [`mpsc::Sender::capacity`] docs for more info.
    ///
    /// [`mpsc::Sender::capacity`]: tokio::sync::mpsc::Sender::capacity
    pub fn capacity(&self) -> (res: Option<usize>)
        ensures
            match res {
                Some(free) => self.inner().messages_read_free(free),
                None => self.inner() is Unbounded,
            },
            res is Some <==> self.inner() is Bounded,
    {
        match &self.inner {
            MailboxSenderInner::Bounded { messages, .. } => Some(messages.capacity()),
            MailboxSenderInner::Unbounded { .. } => None,
        }
    }

    /// Converts the `MailboxSender` to a [`WeakMailboxSender`] that does not count
    /// towards RAII semantics, i.e. if all `Sender` instances of the
    /// channel were dropped and only `WeakMailboxSender` instances remain,
    /// the channel is closed.
    ///
    /// See tokio's [`mpsc::Sender::downgrade`] and [`mpsc::UnboundedSender::downgrade`] docs for more info.
    ///
    /// [`mpsc::Sender::downgrade`]: tokio::sync::mpsc::Sender::downgrade
    /// [`mpsc::UnboundedSender::downgrade`]: tokio::sync::mpsc::UnboundedSender::downgrade
    pub fn downgrade(&self) -> (res: WeakMailboxSender<A>)
        ensures
            res.downgraded_from(*self),
    {
        match &self.inner {
            MailboxSenderInner::Bounded { messages, control } => WeakMailboxSender {
                inner: WeakMailboxSenderInner::Bounded {
                    messages: messages.downgrade(),
                    control: control.downgrade(),
                },
                admission_open: self.admission_open.clone(),
                message_generation: self.message_generation.clone(),
            },
            MailboxSenderInner::Unbounded { messages, control } => WeakMailboxSender {
                inner: WeakMailboxSenderInner::Unbounded {
                    messages: messages.downgrade(),
                    control: control.downgrade(),
                },
                admission_open: self.admission_open.clone(),
                message_generation: self.message_generation.clone(),
            },
        }
    }

    /// Returns the number of strong handles to the ordinary message lane.
    ///
    /// Lifecycle/control signals use a separate control lane. This method reports the
    /// user-message lane because public mailbox senders are primarily an ordinary message
    /// surface.
    ///
    /// See tokio's [`mpsc::Sender::strong_count`] and [`mpsc::UnboundedSender::strong_count`] docs for more info.
    ///
    /// [`mpsc::Sender::strong_count`]: tokio::sync::mpsc::Sender::strong_count
    /// [`mpsc::UnboundedSender::strong_count`]: tokio::sync::mpsc::UnboundedSender::strong_count
    pub fn strong_count(&self) -> (res: usize)
        ensures
            res >= 1,
            match self.inner() {
                MailboxSenderInner::Bounded { messages, .. } => call_ensures(
                    mpsc::Sender::<QueuedMessage<A>>::strong_count,
                    (&messages,),
                    res,
                ),
                MailboxSenderInner::Unbounded { messages, .. } => call_ensures(
                    mpsc::UnboundedSender::<QueuedMessage<A>>::strong_count,
                    (&messages,),
                    res,
                ),
            },
    {
        match &self.inner {
            MailboxSenderInner::Bounded { messages, .. } => messages.strong_count(),
            MailboxSenderInner::Unbounded { messages, .. } => messages.strong_count(),
        }
    }

    /// Returns the number of weak handles to the ordinary message lane.
    ///
    /// Lifecycle/control signals use a separate control lane. This method reports the
    /// user-message lane because public mailbox senders are primarily an ordinary message
    /// surface.
    ///
    /// See tokio's [`mpsc::Sender::weak_count`] and [`mpsc::UnboundedSender::weak_count`] docs for more info.
    ///
    /// [`mpsc::Sender::weak_count`]: tokio::sync::mpsc::Sender::weak_count
    /// [`mpsc::UnboundedSender::weak_count`]: tokio::sync::mpsc::UnboundedSender::weak_count
    pub fn weak_count(&self) -> (res: usize)
        ensures
            match self.inner() {
                MailboxSenderInner::Bounded { messages, .. } => call_ensures(
                    mpsc::Sender::<QueuedMessage<A>>::weak_count,
                    (&messages,),
                    res,
                ),
                MailboxSenderInner::Unbounded { messages, .. } => call_ensures(
                    mpsc::UnboundedSender::<QueuedMessage<A>>::weak_count,
                    (&messages,),
                    res,
                ),
            },
    {
        match &self.inner {
            MailboxSenderInner::Bounded { messages, .. } => messages.weak_count(),
            MailboxSenderInner::Unbounded { messages, .. } => messages.weak_count(),
        }
    }
}

impl<A: Actor> Clone for MailboxSender<A> {
    fn clone(&self) -> (res: Self)
        ensures
            res == *self,
    {
        match &self.inner {
            MailboxSenderInner::Bounded { messages, control } => MailboxSender {
                inner: MailboxSenderInner::Bounded {
                    messages: messages.clone(),
                    control: control.clone(),
                },
                admission_open: self.admission_open.clone(),
                message_generation: self.message_generation.clone(),
            },
            MailboxSenderInner::Unbounded { messages, control } => MailboxSender {
                inner: MailboxSenderInner::Unbounded {
                    messages: messages.clone(),
                    control: control.clone(),
                },
                admission_open: self.admission_open.clone(),
                message_generation: self.message_generation.clone(),
            },
        }
    }
}

/// A mailbox sender that does not prevent the channel from being closed.
///
/// See tokio's [`mpsc::WeakSender`] and [`mpsc::WeakUnboundedSender`] docs for more info.
///
/// [`mpsc::WeakSender`]: tokio::sync::mpsc::WeakSender
/// [`mpsc::WeakUnboundedSender`]: tokio::sync::mpsc::WeakUnboundedSender
#[verifier::reject_recursive_types(A)]
pub struct WeakMailboxSender<A: Actor> {
    inner: WeakMailboxSenderInner<A>,
    admission_open: Arc<AtomicBool>,
    message_generation: Arc<AtomicU64>,
}

impl<A: Actor> WeakMailboxSender<A> {
    /// The handles of the two lanes.
    pub closed spec fn inner(self) -> WeakMailboxSenderInner<A> {
        self.inner
    }

    /// Whether ordinary messages are admitted at all.
    pub closed spec fn admission_cell(self) -> AtomicBool {
        *self.admission_open
    }

    /// The message generation that ordinary messages are stamped with.
    pub closed spec fn generation_cell(self) -> AtomicU64 {
        *self.message_generation
    }

    /// Whether the handle was downgraded from a handle of the mailbox that `origin` feeds.
    pub open spec fn downgraded_from(self, origin: MailboxSender<A>) -> bool {
        &&& self.inner().downgraded_from(origin.inner())
        &&& self.admission_cell() == origin.admission_cell()
        &&& self.generation_cell() == origin.generation_cell()
    }

    /// Whether asking for a handle that keeps the mailbox open came to `upgraded`.
    pub open spec fn upgraded(self, upgraded: Option<MailboxSender<A>>) -> bool {
        match upgraded {
            None => self.inner().upgraded(None),
            Some(sender) => {
                &&& self.inner().upgraded(Some(sender.inner()))
                &&& sender.admission_cell() == self.admission_cell()
                &&& sender.generation_cell() == self.generation_cell()
            },
        }
    }

    /// Whether the mailbox, handed the control signal `signal`, answered so that the sender of the
    /// signal is told `res`: a mailbox that cannot be upgraded has no running actor.
    pub open spec fn signalled(self, signal: Signal<A>, res: Result<(), SignalError>) -> bool {
        exists|upgraded: Option<MailboxSender<A>>|
            #[trigger] call_ensures(WeakMailboxSender::<A>::upgrade, (&self,), upgraded)
                && match upgraded {
                None => res == Err::<(), _>(SignalError::ActorNotRunning),
                Some(sender) => sender.signalled(signal, res),
            }
    }

    /// Closes the mailbox to ordinary messages, and only then moves on to the next message
    /// generation, so that the messages that are already queued or on their way are discarded.
    ///
    /// A sender that finds the mailbox open has its stamp from before the generation moves on.
    pub fn stop_message_admission(&self)
        ensures
            call_ensures(AtomicBool::store, (&self.admission_cell(), false, Ordering::Release), ()),
            call_ensures(WeakMailboxSender::<A>::advance_message_generation, (self,), ()),
    {
        self.admission_open.store(false, Ordering::Release);
        self.advance_message_generation();
    }

    /// Moves on to the next message generation, once the mailbox is closed to ordinary messages.
    pub fn advance_message_generation(&self)
        requires
            call_ensures(AtomicBool::store, (&self.admission_cell(), false, Ordering::Release), ()),
        ensures
            call_ensures(AtomicBool::store, (&self.admission_cell(), false, Ordering::Release), ()),
            exists|generation: u64| #[trigger]
                call_ensures(
                    AtomicU64::fetch_add,
                    (&self.generation_cell(), 1u64, Ordering::AcqRel),
                    generation,
                ),
    {
        self.message_generation.fetch_add(1, Ordering::AcqRel);
    }

    /// Whether the mailbox admits ordinary messages.
    pub fn is_accepting_messages(&self) -> (res: bool)
        ensures
            lanes::admission_read(self.admission_cell(), res),
    {
        self.admission_open.load(Ordering::Acquire)
    }

    /// The handles of the two lanes.
    pub fn lanes(&self) -> (res: &WeakMailboxSenderInner<A>)
        ensures
            *res == self.inner(),
    {
        &self.inner
    }

    /// Tries to convert a `WeakMailboxSender` into a [`MailboxSender`]. This will return `Some`
    /// if there are other `MailboxSender` instances alive and the channel wasn't
    /// previously dropped, otherwise `None` is returned.
    ///
    /// See tokio's [`mpsc::WeakSender::upgrade`] and [`mpsc::WeakUnboundedSender::upgrade`] docs for more info.
    ///
    /// [`mpsc::WeakSender::upgrade`]: tokio::sync::mpsc::WeakSender::upgrade
    /// [`mpsc::WeakUnboundedSender::upgrade`]: tokio::sync::mpsc::WeakUnboundedSender::upgrade
    pub fn upgrade(&self) -> (res: Option<MailboxSender<A>>)
        ensures
            self.upgraded(res),
            res matches Some(sender) ==> forall|origin: MailboxSender<A>| #[trigger]
                self.downgraded_from(origin) ==> sender == origin,
    {
        match &self.inner {
            WeakMailboxSenderInner::Bounded { messages, control } => {
                let messages = messages.upgrade()?;
                let control = control.upgrade()?;
                Some(
                    MailboxSender {
                        inner: MailboxSenderInner::Bounded { messages, control },
                        admission_open: self.admission_open.clone(),
                        message_generation: self.message_generation.clone(),
                    },
                )
            },
            WeakMailboxSenderInner::Unbounded { messages, control } => {
                let messages = messages.upgrade()?;
                let control = control.upgrade()?;
                Some(
                    MailboxSender {
                        inner: MailboxSenderInner::Unbounded { messages, control },
                        admission_open: self.admission_open.clone(),
                        message_generation: self.message_generation.clone(),
                    },
                )
            },
        }
    }

    /// Returns the number of [`MailboxSender`] handles.
    ///
    /// See tokio's [`mpsc::WeakSender::strong_count`] and [`mpsc::WeakUnboundedSender::strong_count`] docs for more info.
    ///
    /// [`mpsc::WeakSender::strong_count`]: tokio::sync::mpsc::WeakSender::strong_count
    /// [`mpsc::WeakUnboundedSender::strong_count`]: tokio::sync::mpsc::WeakUnboundedSender::strong_count
    pub fn strong_count(&self) -> (res: usize)
        ensures
            match self.inner() {
                WeakMailboxSenderInner::Bounded { messages, .. } => call_ensures(
                    mpsc::WeakSender::<QueuedMessage<A>>::strong_count,
                    (&messages,),
                    res,
                ),
                WeakMailboxSenderInner::Unbounded { messages, .. } => call_ensures(
                    mpsc::WeakUnboundedSender::<QueuedMessage<A>>::strong_count,
                    (&messages,),
                    res,
                ),
            },
    {
        match &self.inner {
            WeakMailboxSenderInner::Bounded { messages, .. } => messages.strong_count(),
            WeakMailboxSenderInner::Unbounded { messages, .. } => messages.strong_count(),
        }
    }

    /// Returns the number of [`WeakMailboxSender`] handles.
    ///
    /// See tokio's [`mpsc::WeakSender::weak_count`] and [`mpsc::WeakUnboundedSender::weak_count`] docs for more info.
    ///
    /// [`mpsc::WeakSender::weak_count`]: tokio::sync::mpsc::WeakSender::weak_count
    /// [`mpsc::WeakUnboundedSender::weak_count`]: tokio::sync::mpsc::WeakUnboundedSender::weak_count
    pub fn weak_count(&self) -> (res: usize)
        ensures
            res >= 1,
            match self.inner() {
                WeakMailboxSenderInner::Bounded { messages, .. } => call_ensures(
                    mpsc::WeakSender::<QueuedMessage<A>>::weak_count,
                    (&messages,),
                    res,
                ),
                WeakMailboxSenderInner::Unbounded { messages, .. } => call_ensures(
                    mpsc::WeakUnboundedSender::<QueuedMessage<A>>::weak_count,
                    (&messages,),
                    res,
                ),
            },
    {
        match &self.inner {
            WeakMailboxSenderInner::Bounded { messages, .. } => messages.weak_count(),
            WeakMailboxSenderInner::Unbounded { messages, .. } => messages.weak_count(),
        }
    }
}

impl<A: Actor> Clone for WeakMailboxSender<A> {
    fn clone(&self) -> (res: Self)
        ensures
            res == *self,
    {
        match &self.inner {
            WeakMailboxSenderInner::Bounded { messages, control } => WeakMailboxSender {
                inner: WeakMailboxSenderInner::Bounded {
                    messages: messages.clone(),
                    control: control.clone(),
                },
                admission_open: self.admission_open.clone(),
                message_generation: self.message_generation.clone(),
            },
            WeakMailboxSenderInner::Unbounded { messages, control } => WeakMailboxSender {
                inner: WeakMailboxSenderInner::Unbounded {
                    messages: messages.clone(),
                    control: control.clone(),
                },
                admission_open: self.admission_open.clone(),
                message_generation: self.message_generation.clone(),
            },
        }
    }
}

} // verus!
