//! Why actors stop, and why signals to them fail.
use vstd::prelude::*;

use crate::actor::ActorId;

verus! {

/// A panic, or an error that is treated as one, that stopped an actor.
#[derive(Debug)]
pub struct PanicError {
    /// What the panic said.
    pub message: String,
}

impl Clone for PanicError {
    fn clone(&self) -> (res: Self)
        ensures
            res == *self,
    {
        PanicError { message: self.message.clone() }
    }
}

/// Reason for an actor being stopped.
#[derive(Debug)]
pub enum ActorStopReason {
    /// The actor stopped normally.
    Normal,
    /// The actor was stopped by its supervisor, to be restarted.
    SupervisorRestart,
    /// The actor was killed.
    Killed,
    /// The actor panicked.
    Panicked(PanicError),
    /// A linked actor died.
    LinkDied {
        /// The actor that died.
        id: ActorId,
        /// Why that actor died.
        reason: Box<ActorStopReason>,
    },
    /// The peer that hosts the actor disconnected.
    PeerDisconnected,
}

impl Clone for ActorStopReason {
    fn clone(&self) -> (res: Self)
        ensures
            res == *self,
        decreases self,
    {
        match self {
            ActorStopReason::Normal => ActorStopReason::Normal,
            ActorStopReason::SupervisorRestart => ActorStopReason::SupervisorRestart,
            ActorStopReason::Killed => ActorStopReason::Killed,
            ActorStopReason::Panicked(error) => ActorStopReason::Panicked(error.clone()),
            ActorStopReason::LinkDied { id, reason } => {
                let inner: ActorStopReason = (&**reason).clone();
                ActorStopReason::LinkDied { id: *id, reason: Box::new(inner) }
            },
            ActorStopReason::PeerDisconnected => ActorStopReason::PeerDisconnected,
        }
    }
}

/// Why a signal did not reach the mailbox of an actor.
#[derive(Debug, Clone, Copy, PartialEq, Eq, Structural)]
pub enum SignalError {
    /// The actor is not running.
    ActorNotRunning,
    /// The mailbox is full.
    MailboxFull,
}

/// A clone of a stop reason is that stop reason, with all that it carries.
pub proof fn law_clone_of_a_stop_reason_is_equal(reason: ActorStopReason, clone: ActorStopReason)
    requires
        call_ensures(ActorStopReason::clone, (&reason,), clone),
    ensures
        clone == reason,
{
}

/// A clone of a panic is that panic.
pub proof fn law_clone_of_a_panic_is_equal(error: PanicError, clone: PanicError)
    requires
        call_ensures(PanicError::clone, (&error,), clone),
    ensures
        clone == error,
{
}

} // verus!
