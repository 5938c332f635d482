//! The two lanes of a mailbox.
use std::sync::atomic::{AtomicBool, AtomicU64, Ordering};
use std::task::{Context, Poll};

use tokio::sync::mpsc;
use tokio::sync::mpsc::error::TryRecvError;
use vstd::prelude::*;

use crate::actor::Actor;
use crate::mailbox::signal::Signal;
use crate::platform;

verus! {

/// A message on the message lane, stamped with the generation that admitted it.
pub struct QueuedMessage<A: Actor> {
    /// The message generation in which the message was sent.
    pub generation: u64,
    /// The message itself.
    pub signal: Signal<A>,
}

impl<A: Actor> QueuedMessage<A> {
    /// What the receiver makes of the message when the message generation is `current`: the
    /// message is delivered in the generation that admitted it, and discarded in any other.
    pub open spec fn delivered(self, current: u64) -> Option<Signal<A>> {
        if self.generation == current {
            Some(self.signal)
        } else {
            None
        }
    }
}

/// Whether `cell` may be read as `generation`.
pub open spec fn generation_read(cell: AtomicU64, generation: u64) -> bool {
    call_ensures(AtomicU64::load, (&cell, Ordering::Acquire), generation)
}

/// Whether `cell` may be read as `open`.
pub open spec fn admission_read(cell: AtomicBool, open: bool) -> bool {
    call_ensures(AtomicBool::load, (&cell, Ordering::Acquire), open)
}

/// The sending ends of the two lanes.
#[allow(inconsistent_fields)]
#[verifier::reject_recursive_types(A)]
pub enum MailboxSenderInner<A: Actor> {
    /// Bounded mailbox sender.
    Bounded {
        /// The message lane.
        messages: mpsc::Sender<QueuedMessage<A>>,
        /// The control lane.
        control: mpsc::UnboundedSender<Signal<A>>,
    },
    /// Unbounded mailbox sender.
    Unbounded {
        /// The message lane.
        messages: mpsc::UnboundedSender<QueuedMessage<A>>,
        /// The control lane.
        control: mpsc::UnboundedSender<Signal<A>>,
    },
}

impl<A: Actor> MailboxSenderInner<A> {
    /// The control lane.
    pub open spec fn control_lane(self) -> mpsc::UnboundedSender<Signal<A>> {
        match self {
            MailboxSenderInner::Bounded { control, .. } => control,
            MailboxSenderInner::Unbounded { control, .. } => control,
        }
    }

    /// Whether the message lane may answer `closed` when asked whether it is closed.
    pub open spec fn messages_read_closed(self, closed: bool) -> bool {
        match self {
            MailboxSenderInner::Bounded { messages, .. } => call_ensures(
                mpsc::Sender::<QueuedMessage<A>>::is_closed,
                (&messages,),
                closed,
            ),
            MailboxSenderInner::Unbounded { messages, .. } => call_ensures(
                mpsc::UnboundedSender::<QueuedMessage<A>>::is_closed,
                (&messages,),
                closed,
            ),
        }
    }

    /// Whether the control lane may answer `closed` when asked whether it is closed.
    pub open spec fn control_read_closed(self, closed: bool) -> bool {
        call_ensures(
            mpsc::UnboundedSender::<Signal<A>>::is_closed,
            (&self.control_lane(),),
            closed,
        )
    }

    /// Whether a bounded message lane may answer that it has `free` slots.
    pub open spec fn messages_read_free(self, free: usize) -> bool {
        self matches MailboxSenderInner::Bounded { messages, .. } && call_ensures(
            mpsc::Sender::<QueuedMessage<A>>::capacity,
            (&messages,),
            free,
        )
    }

    /// Whether `self` and `other` feed the same message lane.
    pub open spec fn same_messages(self, other: Self) -> bool {
        match (self, other) {
            (
                MailboxSenderInner::Bounded { messages: a, .. },
                MailboxSenderInner::Bounded { messages: b, .. },
            ) => a == b,
            (
                MailboxSenderInner::Unbounded { messages: a, .. },
                MailboxSenderInner::Unbounded { messages: b, .. },
            ) => a == b,
            _ => false,
        }
    }
}

/// Handles of the two lanes that do not keep the lanes open.
#[allow(inconsistent_fields)]
#[verifier::reject_recursive_types(A)]
pub enum WeakMailboxSenderInner<A: Actor> {
    /// Bounded weak mailbox sender.
    Bounded {
        /// The message lane.
        messages: mpsc::WeakSender<QueuedMessage<A>>,
        /// The control lane.
        control: mpsc::WeakUnboundedSender<Signal<A>>,
    },
    /// Unbounded weak mailbox sender.
    Unbounded {
        /// The message lane.
        messages: mpsc::WeakUnboundedSender<QueuedMessage<A>>,
        /// The control lane.
        control: mpsc::WeakUnboundedSender<Signal<A>>,
    },
}

impl<A: Actor> WeakMailboxSenderInner<A> {
    /// Whether the handles were downgraded from handles of the lanes that `origin` feeds.
    pub open spec fn downgraded_from(self, origin: MailboxSenderInner<A>) -> bool {
        match (self, origin) {
            (
                WeakMailboxSenderInner::Bounded { messages, control },
                MailboxSenderInner::Bounded { messages: from, control: control_from },
            ) => platform::downgraded(from, messages) && platform::downgraded_unbounded(
                control_from,
                control,
            ),
            (
                WeakMailboxSenderInner::Unbounded { messages, control },
                MailboxSenderInner::Unbounded { messages: from, control: control_from },
            ) => platform::downgraded_unbounded(from, messages) && platform::downgraded_unbounded(
                control_from,
                control,
            ),
            _ => false,
        }
    }

    /// Whether the control lane answered `sender` when asked for a handle that keeps it open.
    pub open spec fn control_upgraded(
        self,
        sender: Option<mpsc::UnboundedSender<Signal<A>>>,
    ) -> bool {
        match self {
            WeakMailboxSenderInner::Bounded { control, .. } => call_ensures(
                mpsc::WeakUnboundedSender::<Signal<A>>::upgrade,
                (&control,),
                sender,
            ),
            WeakMailboxSenderInner::Unbounded { control, .. } => call_ensures(
                mpsc::WeakUnboundedSender::<Signal<A>>::upgrade,
                (&control,),
                sender,
            ),
        }
    }

    /// Whether asking the lanes for handles that keep them open came to `upgraded`: both lanes
    /// have to agree, and the control lane is only asked when the message lane did.
    pub open spec fn upgraded(self, upgraded: Option<MailboxSenderInner<A>>) -> bool {
        match (self, upgraded) {
            (
                WeakMailboxSenderInner::Bounded { messages: weak, .. },
                Some(MailboxSenderInner::Bounded { messages, control }),
            ) => {
                &&& call_ensures(
                    mpsc::WeakSender::<QueuedMessage<A>>::upgrade,
                    (&weak,),
                    Some(messages),
                )
                &&& self.control_upgraded(Some(control))
            },
            (
                WeakMailboxSenderInner::Unbounded { messages: weak, .. },
                Some(MailboxSenderInner::Unbounded { messages, control }),
            ) => {
                &&& call_ensures(
                    mpsc::WeakUnboundedSender::<QueuedMessage<A>>::upgrade,
                    (&weak,),
                    Some(messages),
                )
                &&& self.control_upgraded(Some(control))
            },
            (WeakMailboxSenderInner::Bounded { messages: weak, .. }, None) => {
                ||| call_ensures(mpsc::WeakSender::<QueuedMessage<A>>::upgrade, (&weak,), None)
                ||| self.control_upgraded(None) && exists|messages: mpsc::Sender<QueuedMessage<A>>|
                    #[trigger]
                    call_ensures(
                        mpsc::WeakSender::<QueuedMessage<A>>::upgrade,
                        (&weak,),
                        Some(messages),
                    )
            },
            (WeakMailboxSenderInner::Unbounded { messages: weak, .. }, None) => {
                ||| call_ensures(
                    mpsc::WeakUnboundedSender::<QueuedMessage<A>>::upgrade,
                    (&weak,),
                    None,
                )
                ||| self.control_upgraded(None) && exists|
                    messages: mpsc::UnboundedSender<QueuedMessage<A>>,
                | #[trigger]
                    call_ensures(
                        mpsc::WeakUnboundedSender::<QueuedMessage<A>>::upgrade,
                        (&weak,),
                        Some(messages),
                    )
            },
            _ => false,
        }
    }
}

/// The receiving ends of the two lanes.
#[allow(inconsistent_fields)]
#[verifier::reject_recursive_types(A)]
pub enum MailboxReceiverInner<A: Actor> {
    /// Bounded mailbox receiver.
    Bounded {
        /// The message lane.
        messages: mpsc::Receiver<QueuedMessage<A>>,
        /// The control lane.
        control: mpsc::UnboundedReceiver<Signal<A>>,
    },
    /// Unbounded mailbox receiver.
    Unbounded {
        /// The message lane.
        messages: mpsc::UnboundedReceiver<QueuedMessage<A>>,
        /// The control lane.
        control: mpsc::UnboundedReceiver<Signal<A>>,
    },
}

impl<A: Actor> MailboxReceiverInner<A> {
    /// The control lane.
    pub open spec fn control_lane(self) -> mpsc::UnboundedReceiver<Signal<A>> {
        match self {
            MailboxReceiverInner::Bounded { control, .. } => control,
            MailboxReceiverInner::Unbounded { control, .. } => control,
        }
    }

    /// Whether `self` and `other` are of one kind and have the same message lane.
    pub open spec fn same_messages(self, other: Self) -> bool {
        match (self, other) {
            (
                MailboxReceiverInner::Bounded { messages: a, .. },
                MailboxReceiverInner::Bounded { messages: b, .. },
            ) => a == b,
            (
                MailboxReceiverInner::Unbounded { messages: a, .. },
                MailboxReceiverInner::Unbounded { messages: b, .. },
            ) => a == b,
            _ => false,
        }
    }

    /// Whether the message lane answered `empty` when asked whether it is empty.
    pub open spec fn messages_read_empty(self, empty: bool) -> bool {
        match self {
            MailboxReceiverInner::Bounded { messages, .. } => call_ensures(
                mpsc::Receiver::<QueuedMessage<A>>::is_empty,
                (&messages,),
                empty,
            ),
            MailboxReceiverInner::Unbounded { messages, .. } => call_ensures(
                mpsc::UnboundedReceiver::<QueuedMessage<A>>::is_empty,
                (&messages,),
                empty,
            ),
        }
    }

    /// Whether the control lane answered `empty` when asked whether it is empty.
    pub open spec fn control_read_empty(self, empty: bool) -> bool {
        call_ensures(
            mpsc::UnboundedReceiver::<Signal<A>>::is_empty,
            (&self.control_lane(),),
            empty,
        )
    }

    /// Whether the lanes were read as both empty (`true`), or as not both empty (`false`). The
    /// control lane is only asked when the message lane is empty.
    pub open spec fn read_empty(self, empty: bool) -> bool {
        if empty {
            self.messages_read_empty(true) && self.control_read_empty(true)
        } else {
            ||| self.messages_read_empty(false)
            ||| self.messages_read_empty(true) && self.control_read_empty(false)
        }
    }

    /// Whether the message lane answered `closed` when asked whether it is closed.
    pub open spec fn messages_read_closed(self, closed: bool) -> bool {
        match self {
            MailboxReceiverInner::Bounded { messages, .. } => call_ensures(
                mpsc::Receiver::<QueuedMessage<A>>::is_closed,
                (&messages,),
                closed,
            ),
            MailboxReceiverInner::Unbounded { messages, .. } => call_ensures(
                mpsc::UnboundedReceiver::<QueuedMessage<A>>::is_closed,
                (&messages,),
                closed,
            ),
        }
    }

    /// Whether the control lane answered `closed` when asked whether it is closed.
    pub open spec fn control_read_closed(self, closed: bool) -> bool {
        call_ensures(
            mpsc::UnboundedReceiver::<Signal<A>>::is_closed,
            (&self.control_lane(),),
            closed,
        )
    }

    /// Whether the lanes were read as both closed (`true`), or as not both closed (`false`). The
    /// control lane is only asked when the message lane is closed.
    pub open spec fn read_closed(self, closed: bool) -> bool {
        if closed {
            self.messages_read_closed(true) && self.control_read_closed(true)
        } else {
            ||| self.messages_read_closed(false)
            ||| self.messages_read_closed(true) && self.control_read_closed(false)
        }
    }

    /// Whether the lanes were read as closed and empty (`true`), or as not both (`false`). Whether
    /// they are empty is only asked when they are closed.
    pub open spec fn read_over(self, over: bool) -> bool {
        if over {
            self.read_closed(true) && self.read_empty(true)
        } else {
            ||| self.read_closed(false)
            ||| self.read_closed(true) && self.read_empty(false)
        }
    }

    /// Whether the message lane answered `len` when asked for its length.
    pub open spec fn messages_read_len(self, len: usize) -> bool {
        match self {
            MailboxReceiverInner::Bounded { messages, .. } => call_ensures(
                mpsc::Receiver::<QueuedMessage<A>>::len,
                (&messages,),
                len,
            ),
            MailboxReceiverInner::Unbounded { messages, .. } => call_ensures(
                mpsc::UnboundedReceiver::<QueuedMessage<A>>::len,
                (&messages,),
                len,
            ),
        }
    }

    /// Whether the control lane answered `len` when asked for its length.
    pub open spec fn control_read_len(self, len: usize) -> bool {
        call_ensures(mpsc::UnboundedReceiver::<Signal<A>>::len, (&self.control_lane(),), len)
    }

    /// Whether `queued` was put into a message lane of this kind.
    pub open spec fn message_sent(self, queued: QueuedMessage<A>) -> bool {
        match self {
            MailboxReceiverInner::Bounded { .. } => platform::sent_bounded(queued),
            MailboxReceiverInner::Unbounded { .. } => platform::sent_unbounded(queued),
        }
    }

    /// Whether a bounded message lane can only answer that at most `limit` messages are queued.
    pub open spec fn messages_len_within(self, limit: usize) -> bool {
        self matches MailboxReceiverInner::Bounded { messages, .. } && platform::len_within(
            messages,
            limit,
        )
    }

    /// Whether the message lane can only answer that it is closed.
    pub open spec fn messages_closed_for_good(self) -> bool {
        match self {
            MailboxReceiverInner::Bounded { messages, .. } => platform::closed_for_good(messages),
            MailboxReceiverInner::Unbounded { messages, .. } =>
                platform::closed_for_good_unbounded(messages),
        }
    }

    /// Whether both lanes can only answer that they are closed.
    pub open spec fn closed_for_good(self) -> bool {
        &&& platform::closed_for_good_unbounded(self.control_lane())
        &&& self.messages_closed_for_good()
    }

    /// Checks if both lanes are empty.
    pub(crate) fn is_empty(&self) -> (res: bool)
        ensures
            self.read_empty(res),
    {
        match self {
            MailboxReceiverInner::Bounded { messages, control } => messages.is_empty()
                && control.is_empty(),
            MailboxReceiverInner::Unbounded { messages, control } => messages.is_empty()
                && control.is_empty(),
        }
    }

    /// Checks if both lanes are closed.
    pub(crate) fn is_closed(&self) -> (res: bool)
        ensures
            self.read_closed(res),
            self.closed_for_good() ==> res,
    {
        match self {
            MailboxReceiverInner::Bounded { messages, control } => messages.is_closed()
                && control.is_closed(),
            MailboxReceiverInner::Unbounded { messages, control } => messages.is_closed()
                && control.is_closed(),
        }
    }

    /// Asks the control lane for a signal.
    pub(crate) fn try_control(&mut self) -> (res: Result<Signal<A>, TryRecvError>)
        ensures
            res matches Ok(signal) ==> platform::sent_unbounded(signal),
            final(self).same_messages(*old(self)),
            forall|limit: usize| #[trigger]
                old(self).messages_len_within(limit) ==> final(self).messages_len_within(limit),
            old(self).closed_for_good() ==> final(self).closed_for_good(),
            exists|lane: &mut mpsc::UnboundedReceiver<Signal<A>>|
                *lane == old(self).control_lane() && *final(lane) == final(self).control_lane()
                    && #[trigger] call_ensures(
                    mpsc::UnboundedReceiver::<Signal<A>>::try_recv,
                    (lane,),
                    res,
                ),
    {
        match self {
            MailboxReceiverInner::Bounded { control, .. } => control.try_recv(),
            MailboxReceiverInner::Unbounded { control, .. } => control.try_recv(),
        }
    }

    /// Asks the message lane for a message.
    pub(crate) fn try_message(&mut self) -> (res: Result<QueuedMessage<A>, TryRecvError>)
        ensures
            res matches Ok(queued) ==> old(self).message_sent(queued),
            final(self).control_lane() == old(self).control_lane(),
            forall|limit: usize| #[trigger]
                old(self).messages_len_within(limit) ==> final(self).messages_len_within(limit),
            old(self).closed_for_good() ==> final(self).closed_for_good(),
            res == Err::<QueuedMessage<A>, _>(TryRecvError::Disconnected)
                ==> final(self).messages_closed_for_good(),
            match (*old(self), *final(self)) {
                (
                    MailboxReceiverInner::Bounded { messages: before, .. },
                    MailboxReceiverInner::Bounded { messages: after, .. },
                ) => exists|lane: &mut mpsc::Receiver<QueuedMessage<A>>|
                    *lane == before && *final(lane) == after && #[trigger] call_ensures(
                        mpsc::Receiver::<QueuedMessage<A>>::try_recv,
                        (lane,),
                        res,
                    ),
                (
                    MailboxReceiverInner::Unbounded { messages: before, .. },
                    MailboxReceiverInner::Unbounded { messages: after, .. },
                ) => exists|lane: &mut mpsc::UnboundedReceiver<QueuedMessage<A>>|
                    *lane == before && *final(lane) == after && #[trigger] call_ensures(
                        mpsc::UnboundedReceiver::<QueuedMessage<A>>::try_recv,
                        (lane,),
                        res,
                    ),
                _ => false,
            },
    {
        match self {
            MailboxReceiverInner::Bounded { messages, .. } => messages.try_recv(),
            MailboxReceiverInner::Unbounded { messages, .. } => messages.try_recv(),
        }
    }

    /// Polls the control lane for a signal.
    pub(crate) fn poll_control(&mut self, cx: &mut Context<'_>) -> (res: Poll<Option<Signal<A>>>)
        ensures
            res matches Poll::Ready(Some(signal)) ==> platform::sent_unbounded(signal),
            final(self).same_messages(*old(self)),
            forall|limit: usize| #[trigger]
                old(self).messages_len_within(limit) ==> final(self).messages_len_within(limit),
            old(self).closed_for_good() ==> final(self).closed_for_good(),
            exists|lane: &mut mpsc::UnboundedReceiver<Signal<A>>, context: &mut Context<'_>|
                *lane == old(self).control_lane() && *final(lane) == final(self).control_lane()
                    && *context == *old(cx) && *final(context) == *final(cx)
                    && #[trigger] call_ensures(
                    mpsc::UnboundedReceiver::<Signal<A>>::poll_recv,
                    (lane, context),
                    res,
                ),
    {
        match self {
            MailboxReceiverInner::Bounded { control, .. } => control.poll_recv(cx),
            MailboxReceiverInner::Unbounded { control, .. } => control.poll_recv(cx),
        }
    }

    /// Polls the message lane for a message.
    pub(crate) fn poll_message(&mut self, cx: &mut Context<'_>) -> (res: Poll<Option<QueuedMessage<A>>>)
        ensures
            res matches Poll::Ready(Some(queued)) ==> old(self).message_sent(queued),
            final(self).control_lane() == old(self).control_lane(),
            forall|limit: usize| #[trigger]
                old(self).messages_len_within(limit) ==> final(self).messages_len_within(limit),
            old(self).closed_for_good() ==> final(self).closed_for_good(),
            res == Poll::Ready(None::<QueuedMessage<A>>)
                ==> final(self).messages_closed_for_good(),
            match (*old(self), *final(self)) {
                (
                    MailboxReceiverInner::Bounded { messages: before, .. },
                    MailboxReceiverInner::Bounded { messages: after, .. },
                ) => exists|
                    lane: &mut mpsc::Receiver<QueuedMessage<A>>,
                    context: &mut Context<'_>,
                |
                    *lane == before && *final(lane) == after && *context == *old(cx)
                        && *final(context) == *final(cx) && #[trigger] call_ensures(
                        mpsc::Receiver::<QueuedMessage<A>>::poll_recv,
                        (lane, context),
                        res,
                    ),
                (
                    MailboxReceiverInner::Unbounded { messages: before, .. },
                    MailboxReceiverInner::Unbounded { messages: after, .. },
                ) => exists|
                    lane: &mut mpsc::UnboundedReceiver<QueuedMessage<A>>,
                    context: &mut Context<'_>,
                |
                    *lane == before && *final(lane) == after && *context == *old(cx)
                        && *final(context) == *final(cx) && #[trigger] call_ensures(
                        mpsc::UnboundedReceiver::<QueuedMessage<A>>::poll_recv,
                        (lane, context),
                        res,
                    ),
                _ => false,
            },
    {
        match self {
            MailboxReceiverInner::Bounded { messages, .. } => messages.poll_recv(cx),
            MailboxReceiverInner::Unbounded { messages, .. } => messages.poll_recv(cx),
        }
    }
}

} // verus!
