//! Actors as their mailboxes see them.
use vstd::prelude::*;

pub mod lifecycle;

pub use lifecycle::{
    ActorLifecycle, ActorStateAbsence, ActorTerminalOutcome, ActorTerminalReason,
};

verus! {

/// The identity of an actor.
pub type ActorId = u64;

/// What the signals of an actor carry.
///
/// Mailboxes and links hand these values on and never look into them.
pub trait Actor: Sized {
    /// A message for the actor.
    type Message;

    /// A reference to the actor, which keeps the actor alive.
    type ActorRef;

    /// Where the reply to a message goes.
    type ReplySender;

    /// The span that was active when a message was sent.
    type CallerSpan;

    /// The mailbox receiver of a supervised actor that died.
    type MailboxReceiver;

    /// A handle that sends lifecycle signals to a linked actor.
    type SignalMailbox;
}

} // verus!
