//! Links between actors, over which they learn of each other's death.
use std::collections::HashMap;
use std::sync::atomic::{AtomicBool, Ordering};
use std::sync::Arc;

use vstd::prelude::*;

use crate::actor::{ActorId, ActorTerminalOutcome};
use crate::error::{ActorStopReason, SignalError};
use crate::mailbox::SignalMailbox;

pub mod restart;

pub use restart::{ErasedChildSpec, NoRestartReason};

verus! {

/// Whether the flag `cell` may be read as `set`.
pub open spec fn flag_read(cell: AtomicBool, set: bool) -> bool {
    call_ensures(AtomicBool::load, (&cell, Ordering::Acquire), set)
}

/// Whether `order` lists the keys of `map`, each of them once.
pub open spec fn lists_keys<V>(order: Seq<ActorId>, map: Map<ActorId, V>) -> bool {
    &&& order.no_duplicates()
    &&& order.to_set() == map.dom()
}

/// The keys of a map, each of them once.
fn keys_of<V>(map: &HashMap<ActorId, V>) -> (res: Vec<ActorId>)
    ensures
        lists_keys(res@, map@),
{
    let mut keys: Vec<ActorId> = Vec::new();
    for id in iter: map.keys()
        invariant
            keys@.len() == iter.index(),
            forall|i: int| 0 <= i < keys@.len() ==> keys@[i] == *iter.seq()[i],
            iter.index() == iter.seq().len() ==> keys@ == iter.seq().unref(),
            keys@.no_duplicates(),
            iter.seq().unref().to_set() == map@.dom(),
            iter.seq().no_duplicates(),
    {
        keys.push(*id);
    }
    keys
}

/// How to reach an actor that is linked to.
pub enum Link<M> {
    /// An actor in this process, with the handle that sends signals to it.
    Local(M),
    /// An actor on another peer, with the name that it is known by there.
    Remote(String),
}

impl<M: Clone> Clone for Link<M> {
    fn clone(&self) -> (res: Self)
        ensures
            self.cloned_to(res),
    {
        match self {
            Link::Local(mailbox) => Link::Local(mailbox.clone()),
            Link::Remote(name) => Link::Remote(name.clone()),
        }
    }
}

impl<M: Clone> Link<M> {
    /// Whether `other` is a clone of the link.
    pub open spec fn cloned_to(self, other: Self) -> bool {
        match (self, other) {
            (Link::Local(mailbox), Link::Local(clone)) => cloned(mailbox, clone),
            (Link::Remote(name), Link::Remote(clone)) => name == clone,
            _ => false,
        }
    }
}

/// A death notice for an actor on another peer, which is still to be sent.
pub struct RemoteNotification {
    /// The actor that died.
    pub dead_actor_id: ActorId,
    /// The actor to notify.
    pub link_actor_id: ActorId,
    /// The name that the actor to notify is known by on its peer.
    pub notified_actor_remote_id: String,
    /// Why the actor died.
    pub reason: ActorStopReason,
    /// How the actor ended.
    pub outcome: ActorTerminalOutcome,
}

/// What is left to do after a linked actor was notified.
pub enum NotifyStep {
    /// Nothing. An actor that is not running needs no notice.
    Done,
    /// Report that the notice could not be delivered.
    Report(SignalError),
    /// Send the notice to another peer.
    Send(RemoteNotification),
}

impl NotifyStep {
    /// What is left to do when a mailbox answered `answer` to the notice.
    pub open spec fn after(answer: Result<(), SignalError>) -> Self {
        match answer {
            Ok(()) => NotifyStep::Done,
            Err(SignalError::ActorNotRunning) => NotifyStep::Done,
            Err(error) => NotifyStep::Report(error),
        }
    }
}

impl<M: SignalMailbox<Handle = M>> Link<M> {
    /// Notifies the linked actor `link_actor_id` that the actor `dead_actor_id` died.
    pub fn notify(
        self,
        link_actor_id: ActorId,
        dead_actor_id: ActorId,
        reason: ActorStopReason,
        outcome: ActorTerminalOutcome,
        mailbox_rx: Option<M::Receiver>,
        dead_actor_sibblings: Option<HashMap<ActorId, Link<M>>>,
    ) -> (res: NotifyStep)
        ensures
            match self {
                Link::Local(mailbox) => exists|answer: Result<(), SignalError>|
                    #[trigger] call_ensures(
                        M::signal_link_died,
                        (
                            &mailbox,
                            dead_actor_id,
                            reason,
                            outcome,
                            mailbox_rx,
                            dead_actor_sibblings,
                        ),
                        answer,
                    ) && res == NotifyStep::after(answer),
                Link::Remote(name) => res == NotifyStep::Send(
                    RemoteNotification {
                        dead_actor_id,
                        link_actor_id,
                        notified_actor_remote_id: name,
                        reason,
                        outcome,
                    },
                ),
            },
    {
        match self {
            Link::Local(mailbox) => match mailbox.signal_link_died(
                dead_actor_id,
                reason,
                outcome,
                mailbox_rx,
                dead_actor_sibblings,
            ) {
                Ok(()) => NotifyStep::Done,
                Err(SignalError::ActorNotRunning) => NotifyStep::Done,
                Err(error) => NotifyStep::Report(error),
            },
            Link::Remote(notified_actor_remote_id) => NotifyStep::Send(
                RemoteNotification {
                    dead_actor_id,
                    link_actor_id,
                    notified_actor_remote_id,
                    reason,
                    outcome,
                },
            ),
        }
    }
}

/// The links of one actor.
pub struct LinksInner<F, S, M> {
    /// Parent actor supervising us.
    pub parent: Option<(ActorId, Link<M>)>,
    /// Sibbling linked actors.
    pub sibblings: HashMap<ActorId, Link<M>>,
    /// Child actors we are supervising.
    pub children: HashMap<ActorId, ErasedChildSpec<F, S, M>>,
    /// Set by the parent supervisor (via `ErasedChildSpec`) before it stops us for good. When
    /// `true`, the mailbox receiver is dropped instead of being queued in the parent's mailbox,
    /// where it would keep the parent waiting for our mailbox to close.
    pub parent_shutdown: Arc<AtomicBool>,
}

impl<F, S, M> Default for LinksInner<F, S, M> {
    fn default() -> (res: Self)
        ensures
            res.parent is None,
            res.sibblings@ == Map::<ActorId, Link<M>>::empty(),
            res.children@ == Map::<ActorId, ErasedChildSpec<F, S, M>>::empty(),
            call_ensures(AtomicBool::new, (false,), *res.parent_shutdown),
    {
        LinksInner {
            parent: None,
            sibblings: HashMap::new(),
            children: HashMap::new(),
            parent_shutdown: Arc::new(AtomicBool::new(false)),
        }
    }
}

/// Who is to be notified of the death of an actor, and what they are told.
pub enum LinkNotification<R, M> {
    /// The supervising parent.
    Parent {
        /// The parent.
        link_actor_id: ActorId,
        /// The actor that died.
        dead_actor_id: ActorId,
        /// Why the actor died.
        reason: ActorStopReason,
        /// How the actor ended.
        outcome: ActorTerminalOutcome,
        /// The mailbox of the actor, so that the parent can restart the actor on it.
        mailbox_receiver: Option<R>,
        /// The actors that were linked to the actor, so that the parent can notify them.
        dead_actor_siblings: Option<HashMap<ActorId, Link<M>>>,
        /// How to reach the parent.
        link: Link<M>,
    },
    /// The linked actors of an actor without a parent.
    Siblings {
        /// The actor that died.
        dead_actor_id: ActorId,
        /// Why the actor died.
        reason: ActorStopReason,
        /// How the actor ended.
        outcome: ActorTerminalOutcome,
        /// How to reach the linked actors.
        siblings: HashMap<ActorId, Link<M>>,
    },
}

impl<F, S, M> LinksInner<F, S, M> {
    /// Sets the `parent_shutdown` flag on all supervised children.
    ///
    /// This must be done before the parent stops processing its mailbox, so that any child exiting
    /// independently after this point drops its mailbox receiver immediately instead of queuing it
    /// in the parent's mailbox, where it would deadlock the wait for the children.
    pub fn set_children_parent_shutdown(&self)
        ensures
            forall|id: ActorId| #[trigger]
                self.children@.contains_key(id) ==> call_ensures(
                    AtomicBool::store,
                    (&*self.children@[id].parent_shutdown, true, Ordering::Release),
                    (),
                ),
    {
        let order = keys_of(&self.children);
        for next in 0..order.len()
            invariant
                lists_keys(order@, self.children@),
                forall|i: int|
                    0 <= i < next ==> call_ensures(
                        AtomicBool::store,
                        (
                            &*self.children@[#[trigger] order@[i]].parent_shutdown,
                            true,
                            Ordering::Release,
                        ),
                        (),
                    ),
        {
            let id: ActorId = order[next];
            assert(order@.to_set().contains(id));
            if let Some(child) = self.children.get(&id) {
                child.parent_shutdown.store(true, Ordering::Release);
            }
        }
        assert forall|id: ActorId| #[trigger] self.children@.contains_key(id) implies call_ensures(
            AtomicBool::store,
            (&*self.children@[id].parent_shutdown, true, Ordering::Release),
            (),
        ) by {
            assert(order@.to_set().contains(id));
            let i = choose|i: int| 0 <= i < order@.len() && order@[i] == id;
            assert(order@[i] == id);
        }
    }

    /// What stops the children, for each child once.
    pub fn children_shutdowns(&self) -> (res: Vec<Arc<S>>)
        ensures
            exists|order: Seq<ActorId>|
                #[trigger] lists_keys(order, self.children@) && res@.len() == order.len() && forall|
                    i: int,
                |
                    0 <= i < order.len() ==> #[trigger] res@[i] == self.children@[order[i]].shutdown,
    {
        let order = keys_of(&self.children);
        let mut shutdowns: Vec<Arc<S>> = Vec::new();
        for next in 0..order.len()
            invariant
                lists_keys(order@, self.children@),
                shutdowns@.len() == next,
                forall|i: int|
                    0 <= i < next ==> #[trigger] shutdowns@[i] == self.children@[order@[i]].shutdown,
        {
            let id: ActorId = order[next];
            assert(order@.to_set().contains(id));
            if let Some(child) = self.children.get(&id) {
                shutdowns.push(child.shutdown.clone());
            }
        }
        shutdowns
    }
}

impl<F, S, M: Clone> LinksInner<F, S, M> {
    /// The mailboxes of the children, for each child once.
    pub fn children_mailboxes(&self) -> (res: Vec<M>)
        ensures
            exists|order: Seq<ActorId>|
                #[trigger] lists_keys(order, self.children@) && res@.len() == order.len() && forall|
                    i: int,
                |
                    0 <= i < order.len() ==> cloned(
                        self.children@[order[i]].signal_mailbox,
                        #[trigger] res@[i],
                    ),
    {
        let order = keys_of(&self.children);
        let mut mailboxes: Vec<M> = Vec::new();
        for next in 0..order.len()
            invariant
                lists_keys(order@, self.children@),
                mailboxes@.len() == next,
                forall|i: int|
                    0 <= i < next ==> cloned(
                        self.children@[order@[i]].signal_mailbox,
                        #[trigger] mailboxes@[i],
                    ),
        {
            let id: ActorId = order[next];
            assert(order@.to_set().contains(id));
            if let Some(child) = self.children.get(&id) {
                mailboxes.push(child.signal_mailbox.clone());
            }
        }
        mailboxes
    }

    /// Whether `notification` is what the death of the actor `id` with these links calls for. A
    /// parent that is not `shutting_down` gets the mailbox and the linked actors as well. Without
    /// a parent, the linked actors are notified.
    pub open spec fn calls_for<R>(
        self,
        id: ActorId,
        reason: ActorStopReason,
        outcome: ActorTerminalOutcome,
        mailbox_rx: R,
        shutting_down: bool,
        notification: LinkNotification<R, M>,
    ) -> bool {
        match self.parent {
            Some((parent_id, parent_link)) => exists|link: Link<M>|
                #[trigger] parent_link.cloned_to(link) && notification
                    == (LinkNotification::Parent {
                    link_actor_id: parent_id,
                    dead_actor_id: id,
                    reason,
                    outcome,
                    mailbox_receiver: if shutting_down {
                        None
                    } else {
                        Some(mailbox_rx)
                    },
                    dead_actor_siblings: if shutting_down {
                        None
                    } else {
                        Some(self.sibblings)
                    },
                    link,
                }),
            None => notification == (LinkNotification::<R, M>::Siblings {
                dead_actor_id: id,
                reason,
                outcome,
                siblings: self.sibblings,
            }),
        }
    }

    /// Whether the links are `before` without the linked actors.
    pub open spec fn without_sibblings(self, before: Self) -> bool {
        &&& self.sibblings@ == Map::<ActorId, Link<M>>::empty()
        &&& self == (LinksInner { sibblings: self.sibblings, ..before })
    }

    /// Notify parent or sibblings, depending on supervision status.
    pub fn take_link_notification<R>(
        &mut self,
        id: ActorId,
        reason: ActorStopReason,
        outcome: ActorTerminalOutcome,
        mailbox_rx: R,
    ) -> (res: LinkNotification<R, M>)
        ensures
            final(self).without_sibblings(*old(self)),
            exists|shutting_down: bool|
                (old(self).parent is Some ==> flag_read(
                    *old(self).parent_shutdown,
                    shutting_down,
                )) && #[trigger] old(self).calls_for(
                    id,
                    reason,
                    outcome,
                    mailbox_rx,
                    shutting_down,
                    res,
                ),
    {
        let shutting_down = match &self.parent {
            Some(_) => self.parent_shutdown.load(Ordering::Acquire),
            None => false,
        };
        self.take_link_notification_when(id, reason, outcome, mailbox_rx, shutting_down)
    }

    /// Notify parent or sibblings, depending on supervision status and on whether the parent is
    /// shutting down.
    pub fn take_link_notification_when<R>(
        &mut self,
        id: ActorId,
        reason: ActorStopReason,
        outcome: ActorTerminalOutcome,
        mailbox_rx: R,
        shutting_down: bool,
    ) -> (res: LinkNotification<R, M>)
        ensures
            final(self).without_sibblings(*old(self)),
            old(self).calls_for(id, reason, outcome, mailbox_rx, shutting_down, res),
    {
        let mut sibblings = HashMap::new();
        std::mem::swap(&mut self.sibblings, &mut sibblings);
        match &self.parent {
            Some((parent_id, parent_link)) => {
                let link = parent_link.clone();
                if shutting_down {
                    // The parent waits for our mailbox to close and does not read its own, so the
                    // mailbox receiver is dropped here.
                    LinkNotification::Parent {
                        link_actor_id: *parent_id,
                        dead_actor_id: id,
                        reason,
                        outcome,
                        mailbox_receiver: None,
                        dead_actor_siblings: None,
                        link,
                    }
                } else {
                    LinkNotification::Parent {
                        link_actor_id: *parent_id,
                        dead_actor_id: id,
                        reason,
                        outcome,
                        mailbox_receiver: Some(mailbox_rx),
                        dead_actor_siblings: Some(sibblings),
                        link,
                    }
                }
            },
            None => LinkNotification::Siblings {
                dead_actor_id: id,
                reason,
                outcome,
                siblings: sibblings,
            },
        }
    }
}

impl<M: SignalMailbox<Handle = M>> LinkNotification<M::Receiver, M> {
    /// Notifies the parent, or every linked actor once. Returns what is left to do for each of
    /// them.
    pub fn dispatch(self) -> (res: Vec<NotifyStep>)
        ensures
            match self {
                LinkNotification::Parent {
                    link_actor_id,
                    dead_actor_id,
                    reason,
                    outcome,
                    mailbox_receiver,
                    dead_actor_siblings,
                    link,
                } => {
                    &&& res@.len() == 1
                    &&& call_ensures(
                        Link::<M>::notify,
                        (
                            link,
                            link_actor_id,
                            dead_actor_id,
                            reason,
                            outcome,
                            mailbox_receiver,
                            dead_actor_siblings,
                        ),
                        res@[0],
                    )
                },
                LinkNotification::Siblings { dead_actor_id, reason, outcome, siblings } => exists|
                    order: Seq<ActorId>,
                |
                    #[trigger] lists_keys(order, siblings@) && res@.len() == order.len() && forall|
                        i: int,
                    |
                        0 <= i < order.len() ==> call_ensures(
                            Link::<M>::notify,
                            (
                                siblings@[order[i]],
                                order[i],
                                dead_actor_id,
                                reason,
                                outcome,
                                None,
                                None,
                            ),
                            #[trigger] res@[i],
                        ),
            },
    {
        let mut steps: Vec<NotifyStep> = Vec::new();
        match self {
            LinkNotification::Parent {
                link_actor_id,
                dead_actor_id,
                reason,
                outcome,
                mailbox_receiver,
                dead_actor_siblings,
                link,
            } => {
                let step = link.notify(
                    link_actor_id,
                    dead_actor_id,
                    reason,
                    outcome,
                    mailbox_receiver,
                    dead_actor_siblings,
                );
                steps.push(step);
            },
            LinkNotification::Siblings { dead_actor_id, reason, outcome, siblings } => {
                let mut siblings = siblings;
                let ghost all = siblings@;
                let order = keys_of(&siblings);
                assert forall|i: int| 0 <= i < order@.len() implies siblings@.contains_key(
                    #[trigger] order@[i],
                ) by {
                    assert(order@.to_set().contains(order@[i]));
                }
                let mut next: usize = 0;
                while next < order.len()
                    invariant
                        lists_keys(order@, all),
                        next <= order@.len(),
                        steps@.len() == next,
                        forall|i: int|
                            next <= i < order@.len() ==> siblings@.contains_key(#[trigger] order@[i])
                                && siblings@[order@[i]] == all[order@[i]],
                        forall|i: int|
                            0 <= i < next ==> call_ensures(
                                Link::<M>::notify,
                                (all[order@[i]], order@[i], dead_actor_id, reason, outcome, None, None),
                                #[trigger] steps@[i],
                            ),
                    decreases order@.len() - next,
                {
                    let sibling_actor_id: ActorId = order[next];
                    if let Some(link) = siblings.remove(&sibling_actor_id) {
                        let step = link.notify(
                            sibling_actor_id,
                            dead_actor_id,
                            reason.clone(),
                            outcome,
                            None,
                            None,
                        );
                        steps.push(step);
                    }
                    next = next + 1;
                }
            },
        }
        steps
    }
}

/// A parent that is shutting down is told of the death alone: neither the mailbox nor the linked
/// actors of the dead actor reach it.
pub proof fn law_parent_in_shutdown_gets_no_mailbox<F, S, M: Clone, R>(
    links: LinksInner<F, S, M>,
    id: ActorId,
    reason: ActorStopReason,
    outcome: ActorTerminalOutcome,
    mailbox_rx: R,
    notification: LinkNotification<R, M>,
)
    requires
        links.parent is Some,
        links.calls_for(id, reason, outcome, mailbox_rx, true, notification),
    ensures
        notification matches LinkNotification::Parent {
            link_actor_id,
            dead_actor_id,
            mailbox_receiver,
            dead_actor_siblings,
            ..
        } && link_actor_id == (links.parent->0).0 && dead_actor_id == id && mailbox_receiver is None
            && dead_actor_siblings is None,
{
}

/// A child that shares its flag with the parent's record of it keeps its mailbox back once the flag
/// can only be read as set: the parent is told of the death alone.
pub proof fn law_shutdown_flag_reaches_the_child<F, S, M: Clone, R>(
    parent: LinksInner<F, S, M>,
    child_id: ActorId,
    child: LinksInner<F, S, M>,
    reason: ActorStopReason,
    outcome: ActorTerminalOutcome,
    mailbox_rx: R,
    shutting_down: bool,
    notification: LinkNotification<R, M>,
)
    requires
        parent.children@.contains_key(child_id),
        child.parent_shutdown == parent.children@[child_id].parent_shutdown,
        child.parent is Some,
        forall|set: bool| #[trigger]
            flag_read(*parent.children@[child_id].parent_shutdown, set) ==> set,
        flag_read(*child.parent_shutdown, shutting_down),
        child.calls_for(child_id, reason, outcome, mailbox_rx, shutting_down, notification),
    ensures
        notification matches LinkNotification::Parent {
            mailbox_receiver,
            dead_actor_siblings,
            ..
        } && mailbox_receiver is None && dead_actor_siblings is None,
{
}

/// The linked actors are handed over once: a second death of the same actor has none left.
pub proof fn law_linked_actors_are_handed_over_once<F, S, M: Clone, R>(
    before: LinksInner<F, S, M>,
    after: LinksInner<F, S, M>,
    id: ActorId,
    reason: ActorStopReason,
    outcome: ActorTerminalOutcome,
    mailbox_rx: R,
    shutting_down: bool,
    second: LinkNotification<R, M>,
)
    requires
        after.without_sibblings(before),
        after.calls_for(id, reason, outcome, mailbox_rx, shutting_down, second),
    ensures
        match second {
            LinkNotification::Parent { dead_actor_siblings, .. } => before.parent is Some && (
            dead_actor_siblings matches Some(siblings) ==> siblings@.is_empty()),
            LinkNotification::Siblings { siblings, .. } => before.parent is None
                && siblings@.is_empty(),
        },
{
}

/// With a parent that is not shutting down, the parent gets the mailbox of the dead actor and all of
/// its linked actors, whatever the actor stopped for. With one that is, it gets neither. Without a
/// parent, the linked actors are to be notified. What is told of the death is what happened, and the
/// linked actors are handed over for good.
pub proof fn law_death_notice_by_supervision<F, S, M: Clone, R>()
    ensures
        forall|
            links: &mut LinksInner<F, S, M>,
            id: ActorId,
            reason: ActorStopReason,
            outcome: ActorTerminalOutcome,
            mailbox_rx: R,
            shutting_down: bool,
            res: LinkNotification<R, M>,
        | #[trigger]
            call_ensures(
                LinksInner::<F, S, M>::take_link_notification_when::<R>,
                (links, id, reason, outcome, mailbox_rx, shutting_down),
                res,
            ) ==> {
                &&& final(links).sibblings@ == Map::<ActorId, Link<M>>::empty()
                &&& final(links).parent == links.parent
                &&& final(links).children == links.children
                &&& final(links).parent_shutdown == links.parent_shutdown
                &&& match (links.parent, res) {
                    (
                        Some((parent_id, parent_link)),
                        LinkNotification::Parent {
                            link_actor_id,
                            dead_actor_id,
                            reason: told_reason,
                            outcome: told_outcome,
                            mailbox_receiver,
                            dead_actor_siblings,
                            link,
                        },
                    ) => {
                        &&& link_actor_id == parent_id
                        &&& dead_actor_id == id
                        &&& told_reason == reason
                        &&& told_outcome == outcome
                        &&& !shutting_down ==> mailbox_receiver == Some(mailbox_rx)
                            && dead_actor_siblings == Some(links.sibblings)
                        &&& shutting_down ==> mailbox_receiver is None && dead_actor_siblings is None
                        &&& match (parent_link, link) {
                            (Link::Local(mailbox), Link::Local(clone)) => cloned(mailbox, clone),
                            (Link::Remote(name), Link::Remote(clone)) => name == clone,
                            _ => false,
                        }
                    },
                    (
                        None,
                        LinkNotification::Siblings {
                            dead_actor_id,
                            reason: told_reason,
                            outcome: told_outcome,
                            siblings,
                        },
                    ) => dead_actor_id == id && told_reason == reason && told_outcome == outcome
                        && siblings == links.sibblings,
                    _ => false,
                }
            },
{
}

/// The same, with whether the parent is shutting down as it is loaded from the shared flag. Without a
/// parent the flag plays no part.
pub proof fn law_death_notice_by_the_flag<F, S, M: Clone, R>()
    ensures
        forall|
            links: &mut LinksInner<F, S, M>,
            id: ActorId,
            reason: ActorStopReason,
            outcome: ActorTerminalOutcome,
            mailbox_rx: R,
            res: LinkNotification<R, M>,
        | #[trigger]
            call_ensures(
                LinksInner::<F, S, M>::take_link_notification::<R>,
                (links, id, reason, outcome, mailbox_rx),
                res,
            ) ==> {
                &&& final(links).sibblings@ == Map::<ActorId, Link<M>>::empty()
                &&& final(links).parent == links.parent
                &&& final(links).children == links.children
                &&& final(links).parent_shutdown == links.parent_shutdown
                &&& match (links.parent, res) {
                    (
                        Some((parent_id, parent_link)),
                        LinkNotification::Parent {
                            link_actor_id,
                            dead_actor_id,
                            reason: told_reason,
                            outcome: told_outcome,
                            mailbox_receiver,
                            dead_actor_siblings,
                            link,
                        },
                    ) => {
                        &&& link_actor_id == parent_id
                        &&& dead_actor_id == id
                        &&& told_reason == reason
                        &&& told_outcome == outcome
                        &&& exists|shutting_down: bool| #[trigger]
                            call_ensures(
                                AtomicBool::load,
                                (&*links.parent_shutdown, Ordering::Acquire),
                                shutting_down,
                            ) && mailbox_receiver == (if shutting_down {
                                None
                            } else {
                                Some(mailbox_rx)
                            }) && dead_actor_siblings == (if shutting_down {
                                None
                            } else {
                                Some(links.sibblings)
                            })
                        &&& match (parent_link, link) {
                            (Link::Local(mailbox), Link::Local(clone)) => cloned(mailbox, clone),
                            (Link::Remote(name), Link::Remote(clone)) => name == clone,
                            _ => false,
                        }
                    },
                    (
                        None,
                        LinkNotification::Siblings {
                            dead_actor_id,
                            reason: told_reason,
                            outcome: told_outcome,
                            siblings,
                        },
                    ) => dead_actor_id == id && told_reason == reason && told_outcome == outcome
                        && siblings == links.sibblings,
                    _ => false,
                }
            },
{
}

/// A linked actor in this process is told of the death exactly as it happened. A mailbox that took
/// the notice, or has no running actor, leaves nothing to do, and any other failure is reported as it
/// is. A notice to another peer is left to be sent, with all that it says.
pub proof fn law_notice_is_delivered_reported_or_sent<M: SignalMailbox<Handle = M>>(
    link: Link<M>,
    link_actor_id: ActorId,
    dead_actor_id: ActorId,
    reason: ActorStopReason,
    outcome: ActorTerminalOutcome,
    mailbox_rx: Option<M::Receiver>,
    dead_actor_sibblings: Option<HashMap<ActorId, Link<M>>>,
    step: NotifyStep,
)
    requires
        call_ensures(
            Link::<M>::notify,
            (
                link,
                link_actor_id,
                dead_actor_id,
                reason,
                outcome,
                mailbox_rx,
                dead_actor_sibblings,
            ),
            step,
        ),
    ensures
        match link {
            Link::Local(mailbox) => exists|answer: Result<(), SignalError>|
                #[trigger] call_ensures(
                    M::signal_link_died,
                    (&mailbox, dead_actor_id, reason, outcome, mailbox_rx, dead_actor_sibblings),
                    answer,
                ) && match answer {
                    Ok(()) => step is Done,
                    Err(SignalError::ActorNotRunning) => step is Done,
                    Err(SignalError::MailboxFull) => step == NotifyStep::Report(
                        SignalError::MailboxFull,
                    ),
                },
            Link::Remote(name) => match step {
                NotifyStep::Send(notice) => {
                    &&& notice.dead_actor_id == dead_actor_id
                    &&& notice.link_actor_id == link_actor_id
                    &&& notice.notified_actor_remote_id == name
                    &&& notice.reason == reason
                    &&& notice.outcome == outcome
                },
                _ => false,
            },
        },
{
}

/// Every linked actor is notified once, and no other actor: each with its own id, and without the
/// mailbox or the other linked actors.
pub proof fn law_every_linked_actor_is_notified_once<M: SignalMailbox<Handle = M>>(
    dead_actor_id: ActorId,
    reason: ActorStopReason,
    outcome: ActorTerminalOutcome,
    siblings: HashMap<ActorId, Link<M>>,
    steps: Vec<NotifyStep>,
)
    requires
        call_ensures(
            LinkNotification::<M::Receiver, M>::dispatch,
            (LinkNotification::Siblings { dead_actor_id, reason, outcome, siblings },),
            steps,
        ),
    ensures
        exists|order: Seq<ActorId>|
            #[trigger] order.no_duplicates() && order.len() == steps@.len() && (forall|id: ActorId|
                #[trigger] siblings@.contains_key(id) <==> order.contains(id)) && (forall|i: int|
                0 <= i < order.len() ==> call_ensures(
                    Link::<M>::notify,
                    (siblings@[order[i]], order[i], dead_actor_id, reason, outcome, None, None),
                    #[trigger] steps@[i],
                )),
{
    let order = choose|order: Seq<ActorId>|
        #[trigger] lists_keys(order, siblings@) && steps@.len() == order.len() && forall|i: int|
            0 <= i < order.len() ==> call_ensures(
                Link::<M>::notify,
                (siblings@[order[i]], order[i], dead_actor_id, reason, outcome, None, None),
                #[trigger] steps@[i],
            );
    assert forall|id: ActorId| #[trigger] siblings@.contains_key(id) <==> order.contains(id) by {
        assert(order.to_set().contains(id) <==> order.contains(id));
    }
    assert(order.no_duplicates());
}

/// The parent is notified once, with all that it is to be told.
pub proof fn law_parent_is_notified_once<M: SignalMailbox<Handle = M>>(
    link_actor_id: ActorId,
    dead_actor_id: ActorId,
    reason: ActorStopReason,
    outcome: ActorTerminalOutcome,
    mailbox_receiver: Option<M::Receiver>,
    dead_actor_siblings: Option<HashMap<ActorId, Link<M>>>,
    link: Link<M>,
    steps: Vec<NotifyStep>,
)
    requires
        call_ensures(
            LinkNotification::<M::Receiver, M>::dispatch,
            (
                LinkNotification::Parent {
                    link_actor_id,
                    dead_actor_id,
                    reason,
                    outcome,
                    mailbox_receiver,
                    dead_actor_siblings,
                    link,
                },
            ),
            steps,
        ),
    ensures
        steps@.len() == 1,
        call_ensures(
            Link::<M>::notify,
            (
                link,
                link_actor_id,
                dead_actor_id,
                reason,
                outcome,
                mailbox_receiver,
                dead_actor_siblings,
            ),
            steps@[0],
        ),
{
}

/// What stops the children is listed for every child once, and for no other actor.
pub proof fn law_every_child_is_stopped_once<F, S, M: Clone>(
    links: LinksInner<F, S, M>,
    res: Vec<Arc<S>>,
)
    requires
        call_ensures(LinksInner::<F, S, M>::children_shutdowns, (&links,), res),
    ensures
        exists|order: Seq<ActorId>|
            #[trigger] order.no_duplicates() && order.len() == res@.len() && (forall|id: ActorId|
                #[trigger] links.children@.contains_key(id) <==> order.contains(id)) && (forall|
                i: int,
            |
                0 <= i < order.len() ==> #[trigger] res@[i] == links.children@[order[i]].shutdown),
{
    let order = choose|order: Seq<ActorId>|
        #[trigger] lists_keys(order, links.children@) && res@.len() == order.len() && forall|
            i: int,
        |
            0 <= i < order.len() ==> #[trigger] res@[i] == links.children@[order[i]].shutdown;
    assert forall|id: ActorId| #[trigger]
        links.children@.contains_key(id) <==> order.contains(id) by {
        assert(order.to_set().contains(id) <==> order.contains(id));
    }
    assert(order.no_duplicates());
}

/// The mailboxes of the children are listed for every child once, and for no other actor.
pub proof fn law_every_child_is_waited_for_once<F, S, M: Clone>(
    links: LinksInner<F, S, M>,
    res: Vec<M>,
)
    requires
        call_ensures(LinksInner::<F, S, M>::children_mailboxes, (&links,), res),
    ensures
        exists|order: Seq<ActorId>|
            #[trigger] order.no_duplicates() && order.len() == res@.len() && (forall|id: ActorId|
                #[trigger] links.children@.contains_key(id) <==> order.contains(id)) && (forall|
                i: int,
            |
                0 <= i < order.len() ==> cloned(
                    links.children@[order[i]].signal_mailbox,
                    #[trigger] res@[i],
                )),
{
    let order = choose|order: Seq<ActorId>|
        #[trigger] lists_keys(order, links.children@) && res@.len() == order.len() && forall|
            i: int,
        |
            0 <= i < order.len() ==> cloned(
                    links.children@[order[i]].signal_mailbox,
                    #[trigger] res@[i],
                );
    assert forall|id: ActorId| #[trigger]
        links.children@.contains_key(id) <==> order.contains(id) by {
        assert(order.to_set().contains(id) <==> order.contains(id));
    }
    assert(order.no_duplicates());
}

/// Every child is told that its parent is shutting down, by its own flag.
pub proof fn law_every_child_is_told_of_the_shutdown<F, S, M>(
    links: LinksInner<F, S, M>,
    id: ActorId,
)
    requires
        call_ensures(LinksInner::<F, S, M>::set_children_parent_shutdown, (&links,), ()),
        links.children@.contains_key(id),
    ensures
        call_ensures(
            AtomicBool::store,
            (&*links.children@[id].parent_shutdown, true, Ordering::Release),
            (),
        ),
{
}

/// An actor starts without a parent, linked actors or children, and with a parent that is not
/// shutting down.
pub proof fn law_links_start_empty<F, S, M>(links: LinksInner<F, S, M>)
    requires
        call_ensures(LinksInner::<F, S, M>::default, (), links),
    ensures
        links.parent is None,
        forall|id: ActorId| !#[trigger] links.sibblings@.contains_key(id),
        forall|id: ActorId| !#[trigger] links.children@.contains_key(id),
        call_ensures(AtomicBool::new, (false,), *links.parent_shutdown),
{
}

/// A clone of a link leads to the same actor.
pub proof fn law_clone_of_a_link_leads_to_the_same_actor<M: Clone>(link: Link<M>, clone: Link<M>)
    requires
        call_ensures(Link::<M>::clone, (&link,), clone),
    ensures
        match (link, clone) {
            (Link::Local(mailbox), Link::Local(other)) => cloned(mailbox, other),
            (Link::Remote(name), Link::Remote(other)) => name == other,
            _ => false,
        },
{
}

} // verus!
