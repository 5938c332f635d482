//! A multi-producer, single-consumer queue for sending messages and signals between actors.
//!
//! An actor mailbox is a channel which stores pending messages and signals for an actor to process
//! sequentially. It has two lanes: ordinary messages travel on the message lane, which may be
//! bounded, and every other signal travels on an unbounded control lane that is served first.
use std::collections::HashMap;
use std::sync::atomic::{AtomicBool, AtomicU64};
use std::sync::Arc;

use tokio::sync::mpsc;
use tokio::sync::mpsc::error::TrySendError;
use vstd::prelude::*;

use crate::actor::{Actor, ActorId, ActorTerminalOutcome};
use crate::error::{ActorStopReason, SignalError};
use crate::links::Link;
use crate::platform;

pub mod lanes;
pub mod laws;
pub mod receiver;
pub mod receiving;
pub mod sender;
pub mod sending;
pub mod signal;
pub mod trace;

pub use lanes::{
    MailboxReceiverInner, MailboxSenderInner, QueuedMessage, WeakMailboxSenderInner,
};
pub use receiver::MailboxReceiver;
pub use sender::{MailboxSender, SendStep, WeakMailboxSender};
pub use signal::{Signal, SignalKind};
pub use trace::{Arrival, Attempted, RecvStep};

verus! {

/// Whether `sender` and `receiver` are the two ends of a new mailbox: they share the message
/// generation, which starts at zero, and messages are admitted.
pub open spec fn new_mailbox<A: Actor>(
    sender: MailboxSender<A>,
    receiver: MailboxReceiver<A>,
) -> bool {
    &&& call_ensures(AtomicBool::new, (true,), sender.admission_cell())
    &&& call_ensures(AtomicU64::new, (0u64,), sender.generation_cell())
    &&& receiver.generation_cell() == sender.generation_cell()
    &&& receiver.history().len() == 0
}

/// Creates a bounded mailbox for communicating between actors with backpressure.
///
/// _See tokio's [`mpsc::channel`] docs for more info._
///
/// [`mpsc::channel`]: tokio::sync::mpsc::channel
pub fn bounded<A: Actor>(buffer: usize) -> (res: (MailboxSender<A>, MailboxReceiver<A>))
    requires
        0 < buffer <= platform::max_buffer(),
    ensures
        new_mailbox(res.0, res.1),
        res.1.inner().messages_len_within(buffer),
        match (res.0.inner(), res.1.inner()) {
            (
                MailboxSenderInner::Bounded { messages: tx, control: control_tx },
                MailboxReceiverInner::Bounded { messages: rx, control: control_rx },
            ) => {
                &&& call_ensures(mpsc::channel::<QueuedMessage<A>>, (buffer,), (tx, rx))
                &&& call_ensures(
                    mpsc::unbounded_channel::<Signal<A>>,
                    (),
                    (control_tx, control_rx),
                )
                &&& platform::capacity_within(tx, buffer)
                &&& platform::len_within(rx, buffer)
            },
            _ => false,
        },
{
    let (tx, rx) = mpsc::channel(buffer);
    let (control_tx, control_rx) = mpsc::unbounded_channel();
    let admission_open = Arc::new(AtomicBool::new(true));
    let message_generation = Arc::new(AtomicU64::new(0));
    (
        MailboxSender::new(
            MailboxSenderInner::Bounded { messages: tx, control: control_tx },
            admission_open,
            message_generation.clone(),
        ),
        MailboxReceiver::new(
            MailboxReceiverInner::Bounded { messages: rx, control: control_rx },
            message_generation,
        ),
    )
}

/// Creates an unbounded mailbox for communicating between actors without backpressure.
///
/// See tokio's [`mpsc::unbounded_channel`] docs for more info.
///
/// [`mpsc::unbounded_channel`]: tokio::sync::mpsc::unbounded_channel
pub fn unbounded<A: Actor>() -> (res: (MailboxSender<A>, MailboxReceiver<A>))
    ensures
        new_mailbox(res.0, res.1),
        match (res.0.inner(), res.1.inner()) {
            (
                MailboxSenderInner::Unbounded { messages: tx, control: control_tx },
                MailboxReceiverInner::Unbounded { messages: rx, control: control_rx },
            ) => {
                &&& call_ensures(mpsc::unbounded_channel::<QueuedMessage<A>>, (), (tx, rx))
                &&& call_ensures(
                    mpsc::unbounded_channel::<Signal<A>>,
                    (),
                    (control_tx, control_rx),
                )
            },
            _ => false,
        },
{
    let (tx, rx) = mpsc::unbounded_channel();
    let (control_tx, control_rx) = mpsc::unbounded_channel();
    let admission_open = Arc::new(AtomicBool::new(true));
    let message_generation = Arc::new(AtomicU64::new(0));
    (
        MailboxSender::new(
            MailboxSenderInner::Unbounded { messages: tx, control: control_tx },
            admission_open,
            message_generation.clone(),
        ),
        MailboxReceiver::new(
            MailboxReceiverInner::Unbounded { messages: rx, control: control_rx },
            message_generation,
        ),
    )
}

/// A mailbox that takes lifecycle signals.
pub trait SignalMailbox: Sized {
    /// The mailbox receiver of a supervised actor that died.
    type Receiver;

    /// A handle that sends lifecycle signals to a linked actor.
    type Handle;

    /// Signals that the actor has finished starting up.
    fn signal_startup_finished(&self) -> Result<(), SignalError>;

    /// Signals that a linked actor has died.
    fn signal_link_died(
        &self,
        id: ActorId,
        reason: ActorStopReason,
        outcome: ActorTerminalOutcome,
        mailbox_rx: Option<Self::Receiver>,
        dead_actor_sibblings: Option<HashMap<ActorId, Link<Self::Handle>>>,
    ) -> Result<(), SignalError>;

    /// Signals the actor to stop.
    fn signal_stop(&self) -> Result<(), SignalError>;
}

impl<A: Actor> SignalMailbox for MailboxSender<A> {
    type Receiver = A::MailboxReceiver;

    type Handle = A::SignalMailbox;

    fn signal_startup_finished(&self) -> (res: Result<(), SignalError>)
        ensures
            self.signalled(Signal::StartupFinished, res),
    {
        match self.try_send(Signal::StartupFinished) {
            Ok(()) => Ok(()),
            Err(TrySendError::Full(_)) => Err(SignalError::MailboxFull),
            Err(TrySendError::Closed(_)) => Err(SignalError::ActorNotRunning),
        }
    }

    fn signal_link_died(
        &self,
        id: ActorId,
        reason: ActorStopReason,
        outcome: ActorTerminalOutcome,
        mailbox_rx: Option<A::MailboxReceiver>,
        dead_actor_sibblings: Option<HashMap<ActorId, Link<A::SignalMailbox>>>,
    ) -> (res: Result<(), SignalError>)
        ensures
            self.signalled(
                Signal::LinkDied { id, reason, outcome, mailbox_rx, dead_actor_sibblings },
                res,
            ),
    {
        match self.begin_send(
            Signal::LinkDied { id, reason, outcome, mailbox_rx, dead_actor_sibblings },
        ) {
            SendStep::Done(Ok(())) => Ok(()),
            _ => Err(SignalError::ActorNotRunning),
        }
    }

    fn signal_stop(&self) -> (res: Result<(), SignalError>)
        ensures
            self.signalled(Signal::Stop, res),
    {
        match self.begin_send(Signal::Stop) {
            SendStep::Done(Ok(())) => Ok(()),
            _ => Err(SignalError::ActorNotRunning),
        }
    }
}

impl<A: Actor> SignalMailbox for WeakMailboxSender<A> {
    type Receiver = A::MailboxReceiver;

    type Handle = A::SignalMailbox;

    fn signal_startup_finished(&self) -> (res: Result<(), SignalError>)
        ensures
            self.signalled(Signal::StartupFinished, res),
    {
        match self.upgrade() {
            Some(tx) => tx.signal_startup_finished(),
            None => Err(SignalError::ActorNotRunning),
        }
    }

    fn signal_link_died(
        &self,
        id: ActorId,
        reason: ActorStopReason,
        outcome: ActorTerminalOutcome,
        mailbox_rx: Option<A::MailboxReceiver>,
        dead_actor_sibblings: Option<HashMap<ActorId, Link<A::SignalMailbox>>>,
    ) -> (res: Result<(), SignalError>)
        ensures
            self.signalled(
                Signal::LinkDied { id, reason, outcome, mailbox_rx, dead_actor_sibblings },
                res,
            ),
    {
        match self.upgrade() {
            Some(tx) => tx.signal_link_died(id, reason, outcome, mailbox_rx, dead_actor_sibblings),
            None => Err(SignalError::ActorNotRunning),
        }
    }

    fn signal_stop(&self) -> (res: Result<(), SignalError>)
        ensures
            self.signalled(Signal::Stop, res),
    {
        match self.upgrade() {
            Some(tx) => tx.signal_stop(),
            None => Err(SignalError::ActorNotRunning),
        }
    }
}

} // verus!
