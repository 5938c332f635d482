//! What is sent to a mailbox.
use std::collections::HashMap;

use vstd::prelude::*;

use crate::actor::{Actor, ActorId, ActorTerminalOutcome};
use crate::error::ActorStopReason;
use crate::links::Link;

verus! {

/// A signal which can be sent to an actors mailbox.
pub enum Signal<A: Actor> {
    /// The actor has finished starting up.
    StartupFinished,
    /// A message.
    Message {
        /// The boxed message.
        message: A::Message,
        /// The actor ref, to keep the actor from stopping due to RAII semantics.
        actor_ref: A::ActorRef,
        /// The reply sender.
        reply: Option<A::ReplySender>,
        /// If the message sent from within the actor's tokio task/thread
        sent_within_actor: bool,
        /// The message name.
        message_name: &'static str,
        /// The span that was active when the message was sent, for cross-actor span propagation.
        caller_span: A::CallerSpan,
    },
    /// A linked actor has died.
    LinkDied {
        /// The dead actor's ID.
        id: ActorId,
        /// The reason the actor stopped.
        reason: ActorStopReason,
        /// The terminal outcome published after the actor completed shutdown.
        outcome: ActorTerminalOutcome,
        /// The mailbox receiver. `Some` when sent to a supervising parent, `None` for sibling links.
        mailbox_rx: Option<A::MailboxReceiver>,
        /// The dead actor's own peer links, passed along the supervised path so the supervisor can
        /// notify them when it decides not to restart. `None` on the unsupervised (sibling) path.
        dead_actor_sibblings: Option<HashMap<ActorId, Link<A::SignalMailbox>>>,
    },
    /// Signals the actor to stop.
    Stop,
    /// Signals the actor to restart.
    SupervisorRestart,
}

impl<A: Actor> Signal<A> {
    /// Whether the signal is an ordinary message, as against a lifecycle or control signal.
    pub open spec fn is_message(self) -> bool {
        self is Message
    }

    /// Takes the message out of the signal, if it carries one.
    pub fn into_message(self) -> (res: Option<A::Message>)
        ensures
            res == (match self {
                Signal::Message { message, .. } => Some(message),
                _ => None,
            }),
    {
        match self {
            Signal::Message { message, .. } => Some(message),
            _ => None,
        }
    }
}

/// What a signal is counted as.
#[derive(Debug, Clone, Copy, PartialEq, Eq, Structural)]
pub enum SignalKind {
    /// An ordinary message.
    Message,
    /// A signal that moves the actor through its life.
    Lifecycle,
    /// The death of a linked actor.
    LinkDied,
}

impl SignalKind {
    /// The kind of a signal.
    pub open spec fn of<A: Actor>(signal: Signal<A>) -> SignalKind {
        match signal {
            Signal::Message { .. } => SignalKind::Message,
            Signal::LinkDied { .. } => SignalKind::LinkDied,
            _ => SignalKind::Lifecycle,
        }
    }
}

impl<A: Actor> vstd::std_specs::convert::FromSpecImpl<&Signal<A>> for SignalKind {
    open spec fn obeys_from_spec() -> bool {
        true
    }

    open spec fn from_spec(signal: &Signal<A>) -> Self {
        SignalKind::of(*signal)
    }
}

impl<A: Actor> From<&Signal<A>> for SignalKind {
    fn from(signal: &Signal<A>) -> (res: Self) {
        match signal {
            Signal::Message { .. } => SignalKind::Message,
            Signal::StartupFinished | Signal::Stop | Signal::SupervisorRestart => {
                SignalKind::Lifecycle
            },
            Signal::LinkDied { .. } => SignalKind::LinkDied,
        }
    }
}

} // verus!
