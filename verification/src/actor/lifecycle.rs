//! How an actor ended.
use std::sync::Arc;

use tokio::sync::SetOnce;
use vstd::prelude::*;

use crate::error::ActorStopReason;
use crate::platform;

verus! {

/// Why actor state is absent at terminal shutdown.
#[derive(Debug, Clone, Copy, PartialEq, Eq, Hash, Structural)]
pub enum ActorStateAbsence {
    /// The actor state existed and `Drop` completed.
    Dropped,
    /// Startup failed before actor state was allocated.
    NeverAllocated,
    /// Actor state was explicitly ejected to a caller.
    Ejected,
}

/// Terminal reason published after the actor's shutdown sequence finishes.
#[derive(Debug, Clone, Copy, PartialEq, Eq, Hash, Structural)]
pub enum ActorTerminalReason {
    /// Startup failed before actor state was allocated.
    StartupFailed,
    /// The actor stopped normally.
    Stopped,
    /// The actor stopped for supervisor restart.
    SupervisorRestart,
    /// The actor was killed.
    Killed,
    /// The actor panicked or received a panic stop reason.
    Panicked,
    /// A linked actor died.
    LinkDied,
    /// The actor stopped because its cleanup hook failed.
    CleanupFailed,
    /// The actor stopped because a remote peer disconnected.
    PeerDisconnected,
}

impl ActorTerminalReason {
    /// The terminal reason of an actor that stopped for `reason`.
    pub open spec fn of_stop_reason(reason: ActorStopReason) -> Self {
        match reason {
            ActorStopReason::Normal => Self::Stopped,
            ActorStopReason::SupervisorRestart => Self::SupervisorRestart,
            ActorStopReason::Killed => Self::Killed,
            ActorStopReason::Panicked(_) => Self::Panicked,
            ActorStopReason::LinkDied { .. } => Self::LinkDied,
            ActorStopReason::PeerDisconnected => Self::PeerDisconnected,
        }
    }

    /// Whether the reason is one of the two that are no failure.
    pub open spec fn normal(self) -> bool {
        self == Self::Stopped || self == Self::SupervisorRestart
    }

    /// The terminal reason of an actor that stopped for `reason`.
    pub fn from_stop_reason(reason: &ActorStopReason) -> (res: Self)
        ensures
            res == Self::of_stop_reason(*reason),
    {
        match reason {
            ActorStopReason::Normal => Self::Stopped,
            ActorStopReason::SupervisorRestart => Self::SupervisorRestart,
            ActorStopReason::Killed => Self::Killed,
            ActorStopReason::Panicked(_) => Self::Panicked,
            ActorStopReason::LinkDied { .. } => Self::LinkDied,
            ActorStopReason::PeerDisconnected => Self::PeerDisconnected,
        }
    }

    /// Returns whether the terminal reason represents a normal non-error stop.
    pub fn is_normal(self) -> (res: bool)
        ensures
            res == self.normal(),
    {
        matches!(self, Self::Stopped | Self::SupervisorRestart)
    }
}

/// Terminal outcome observed after the framework has completed shutdown.
///
/// This is the public lifecycle contract. Intermediate teardown steps are an
/// implementation detail; callers wait for one terminal outcome and inspect the
/// state-absence and terminal-reason fields.
#[derive(Debug, Clone, Copy, PartialEq, Eq, Hash, Structural)]
pub struct ActorTerminalOutcome {
    /// Why actor state is absent.
    pub state: ActorStateAbsence,
    /// Why the actor reached terminal shutdown.
    pub reason: ActorTerminalReason,
}

impl ActorTerminalOutcome {
    /// The outcome of an actor whose state was dropped after it stopped for `reason`.
    pub fn dropped(reason: ActorStopReason) -> (res: Self)
        ensures
            res.state == ActorStateAbsence::Dropped,
            res.reason == ActorTerminalReason::of_stop_reason(reason),
    {
        Self {
            state: ActorStateAbsence::Dropped,
            reason: ActorTerminalReason::from_stop_reason(&reason),
        }
    }

    /// The outcome of an actor whose cleanup hook failed.
    pub fn cleanup_failed() -> (res: Self)
        ensures
            res.state == ActorStateAbsence::Dropped,
            res.reason == ActorTerminalReason::CleanupFailed,
    {
        Self { state: ActorStateAbsence::Dropped, reason: ActorTerminalReason::CleanupFailed }
    }

    /// The outcome of an actor that never started.
    pub fn startup_failed() -> (res: Self)
        ensures
            res.state == ActorStateAbsence::NeverAllocated,
            res.reason == ActorTerminalReason::StartupFailed,
    {
        Self {
            state: ActorStateAbsence::NeverAllocated,
            reason: ActorTerminalReason::StartupFailed,
        }
    }

    /// The outcome of an actor whose peer disconnected.
    pub fn peer_disconnected() -> (res: Self)
        ensures
            res.state == ActorStateAbsence::Dropped,
            res.reason == ActorTerminalReason::PeerDisconnected,
    {
        Self { state: ActorStateAbsence::Dropped, reason: ActorTerminalReason::PeerDisconnected }
    }
}

/// Shared terminal lifecycle cell.
///
/// Clones share one cell, which takes one terminal outcome and keeps it.
#[derive(Debug)]
pub struct ActorLifecycle {
    outcome: Arc<SetOnce<ActorTerminalOutcome>>,
}

impl ActorLifecycle {
    #[verifier::type_invariant]
    spec fn shows_its_outcome(self) -> bool {
        platform::shows_once_initialized(*self.outcome)
    }

    /// The cell that the clones share.
    pub closed spec fn cell(self) -> SetOnce<ActorTerminalOutcome> {
        *self.outcome
    }

    /// Whether the cell showed `outcome` to a reader.
    pub open spec fn shown(self, outcome: Option<ActorTerminalOutcome>) -> bool {
        match outcome {
            Some(value) => call_ensures(
                SetOnce::<ActorTerminalOutcome>::get,
                (&self.cell(),),
                Some(&value),
            ),
            None => call_ensures(SetOnce::<ActorTerminalOutcome>::get, (&self.cell(),), None),
        }
    }

    /// Whether there is an outcome that the cell may show.
    pub open spec fn has_outcome(self) -> bool {
        exists|outcome: ActorTerminalOutcome| #[trigger] self.shown(Some(outcome))
    }

    /// Whether the cell may be found initialized.
    pub open spec fn initialized(self) -> bool {
        call_ensures(SetOnce::<ActorTerminalOutcome>::initialized, (&self.cell(),), true)
    }

    /// A lifecycle without an outcome.
    pub fn new() -> (res: Self)
        ensures
            call_ensures(SetOnce::<ActorTerminalOutcome>::new, (), res.cell()),
    {
        Self { outcome: Arc::new(SetOnce::new()) }
    }

    /// Publishes the terminal outcome. The first outcome stays: a later one is handed back.
    ///
    /// Once an outcome is accepted, no reader is ever shown another one.
    pub fn set_terminal_outcome(&self, outcome: ActorTerminalOutcome) -> (res: Result<
        (),
        ActorTerminalOutcome,
    >)
        ensures
            exists|answer| #[trigger]
                call_ensures(
                    SetOnce::<ActorTerminalOutcome>::set,
                    (&self.cell(), outcome),
                    answer,
                ) && (res is Ok <==> answer is Ok),
            res matches Err(refused) ==> refused == outcome,
            res is Ok ==> self.shown(Some(outcome)),
            res is Ok ==> forall|shown: ActorTerminalOutcome| #[trigger]
                self.shown(Some(shown)) ==> shown == outcome,
            res is Err ==> self.has_outcome(),
            self.initialized(),
    {
        match self.outcome.set(outcome) {
            Ok(()) => Ok(()),
            Err(error) => {
                proof {
                    let shown = choose|shown: &ActorTerminalOutcome| #[trigger]
                        call_ensures(
                            SetOnce::<ActorTerminalOutcome>::get,
                            (&self.cell(),),
                            Some(shown),
                        );
                    assert(self.shown(Some(*shown)));
                }
                Err(error.0)
            },
        }
    }

    /// The terminal outcome, once it is published.
    pub fn terminal_outcome(&self) -> (res: Option<ActorTerminalOutcome>)
        ensures
            self.shown(res),
            res is Some ==> self.initialized(),
    {
        match self.outcome.get() {
            Some(outcome) => Some(*outcome),
            None => None,
        }
    }

    /// Whether the terminal outcome is published.
    pub fn is_terminated(&self) -> (res: bool)
        ensures
            call_ensures(
                SetOnce::<ActorTerminalOutcome>::initialized,
                (&self.cell(),),
                res,
            ),
            res ==> self.has_outcome(),
    {
        let res = self.outcome.initialized();
        proof {
            use_type_invariant(self);
            if res {
                let shown = choose|shown: &ActorTerminalOutcome| #[trigger]
                    call_ensures(
                        SetOnce::<ActorTerminalOutcome>::get,
                        (&self.cell(),),
                        Some(shown),
                    );
                assert(self.shown(Some(*shown)));
            }
        }
        res
    }

    /// The shared cell, for callers that wait for the outcome.
    pub fn outcome_cell(&self) -> (res: &SetOnce<ActorTerminalOutcome>)
        ensures
            *res == self.cell(),
    {
        &self.outcome
    }
}

impl Clone for ActorLifecycle {
    fn clone(&self) -> (res: Self)
        ensures
            res == *self,
    {
        proof {
            use_type_invariant(self);
        }
        Self { outcome: self.outcome.clone() }
    }
}

/// Every reader of a lifecycle, through whichever clone, is shown the one outcome that was
/// published.
pub proof fn law_readers_see_the_published_outcome(
    lifecycle: ActorLifecycle,
    clone: ActorLifecycle,
    published: ActorTerminalOutcome,
    seen: ActorTerminalOutcome,
)
    requires
        cloned(lifecycle, clone),
        call_ensures(ActorLifecycle::set_terminal_outcome, (&lifecycle, published), Ok(())),
        call_ensures(ActorLifecycle::terminal_outcome, (&clone,), Some(seen)),
    ensures
        seen == published,
{
}

/// Publishing an outcome, accepted or not, leaves every clone with an outcome to show, and initialized.
pub proof fn law_outcome_means_terminated(
    lifecycle: ActorLifecycle,
    clone: ActorLifecycle,
    published: ActorTerminalOutcome,
    answer: Result<(), ActorTerminalOutcome>,
)
    requires
        cloned(lifecycle, clone),
        call_ensures(ActorLifecycle::set_terminal_outcome, (&lifecycle, published), answer),
    ensures
        clone.initialized(),
        clone.has_outcome(),
{
}

/// One outcome is published: two outcomes that were both accepted are the same.
pub proof fn law_one_outcome_is_published(
    lifecycle: ActorLifecycle,
    clone: ActorLifecycle,
    first: ActorTerminalOutcome,
    second: ActorTerminalOutcome,
    first_answer: Result<(), ActorTerminalOutcome>,
    second_answer: Result<(), ActorTerminalOutcome>,
)
    requires
        cloned(lifecycle, clone),
        call_ensures(ActorLifecycle::set_terminal_outcome, (&lifecycle, first), first_answer),
        call_ensures(ActorLifecycle::set_terminal_outcome, (&clone, second), second_answer),
    ensures
        first_answer is Ok && second_answer is Ok ==> first == second,
        second_answer matches Err(refused) ==> refused == second && clone.has_outcome(),
{
}

/// An actor that is terminated has an outcome to show, and it is the one that was published.
pub proof fn law_terminated_actor_has_the_published_outcome(
    lifecycle: ActorLifecycle,
    clone: ActorLifecycle,
    published: ActorTerminalOutcome,
    answer: Result<(), ActorTerminalOutcome>,
)
    requires
        cloned(lifecycle, clone),
        call_ensures(ActorLifecycle::set_terminal_outcome, (&lifecycle, published), answer),
        call_ensures(ActorLifecycle::is_terminated, (&clone,), true),
    ensures
        clone.has_outcome(),
        answer is Ok ==> forall|shown: ActorTerminalOutcome| #[trigger]
            clone.shown(Some(shown)) <==> shown == published,
{
}

/// An actor whose state was dropped ended normally exactly if it stopped normally or was stopped to
/// be restarted.
pub proof fn law_normal_stops_have_normal_outcomes(
    reason: ActorStopReason,
    outcome: ActorTerminalOutcome,
)
    requires
        call_ensures(ActorTerminalOutcome::dropped, (reason,), outcome),
    ensures
        outcome.state is Dropped,
        outcome.reason.normal() <==> (reason is Normal || reason is SupervisorRestart),
{
}

/// Each terminal reason comes from its own stop reason and from no other, whatever the stop reason
/// carries. A failed startup or cleanup never comes from a stop reason.
pub proof fn law_terminal_reason_by_stop_reason(
    reason: ActorStopReason,
    terminal: ActorTerminalReason,
)
    requires
        call_ensures(ActorTerminalReason::from_stop_reason, (&reason,), terminal),
    ensures
        terminal is Stopped <==> reason is Normal,
        terminal is SupervisorRestart <==> reason is SupervisorRestart,
        terminal is Killed <==> reason is Killed,
        terminal is Panicked <==> reason is Panicked,
        terminal is LinkDied <==> reason is LinkDied,
        terminal is PeerDisconnected <==> reason is PeerDisconnected,
        !(terminal is StartupFailed),
        !(terminal is CleanupFailed),
{
}

/// An actor whose state was dropped ended for the terminal reason of its own stop reason, whatever
/// that carries.
pub proof fn law_dropped_outcome_by_stop_reason(
    reason: ActorStopReason,
    outcome: ActorTerminalOutcome,
)
    requires
        call_ensures(ActorTerminalOutcome::dropped, (reason,), outcome),
    ensures
        outcome.state is Dropped,
        outcome.reason is Stopped <==> reason is Normal,
        outcome.reason is SupervisorRestart <==> reason is SupervisorRestart,
        outcome.reason is Killed <==> reason is Killed,
        outcome.reason is Panicked <==> reason is Panicked,
        outcome.reason is LinkDied <==> reason is LinkDied,
        outcome.reason is PeerDisconnected <==> reason is PeerDisconnected,
        !(outcome.reason is StartupFailed),
        !(outcome.reason is CleanupFailed),
{
}

/// A stop and a restart by the supervisor are normal, and nothing else is.
pub proof fn law_normal_reasons(reason: ActorTerminalReason, normal: bool)
    requires
        call_ensures(ActorTerminalReason::is_normal, (reason,), normal),
    ensures
        normal <==> (reason is Stopped || reason is SupervisorRestart),
{
}

/// An actor whose state was dropped is found to have ended normally exactly if it stopped normally or
/// was stopped to be restarted.
pub proof fn law_normal_after_a_normal_stop(
    reason: ActorStopReason,
    outcome: ActorTerminalOutcome,
    normal: bool,
)
    requires
        call_ensures(ActorTerminalOutcome::dropped, (reason,), outcome),
        call_ensures(ActorTerminalReason::is_normal, (outcome.reason,), normal),
    ensures
        normal <==> (reason is Normal || reason is SupervisorRestart),
{
}

/// The outcomes of a failed startup, a failed cleanup and a lost peer differ from each other and, but
/// for the lost peer, from every outcome that comes from a stop reason.
pub proof fn law_special_outcomes_are_told_apart(
    startup: ActorTerminalOutcome,
    cleanup: ActorTerminalOutcome,
    peer: ActorTerminalOutcome,
    reason: ActorStopReason,
    dropped: ActorTerminalOutcome,
)
    requires
        call_ensures(ActorTerminalOutcome::startup_failed, (), startup),
        call_ensures(ActorTerminalOutcome::cleanup_failed, (), cleanup),
        call_ensures(ActorTerminalOutcome::peer_disconnected, (), peer),
        call_ensures(ActorTerminalOutcome::dropped, (reason,), dropped),
    ensures
        startup.state is NeverAllocated && startup.reason is StartupFailed,
        cleanup.state is Dropped && cleanup.reason is CleanupFailed,
        peer.state is Dropped && peer.reason is PeerDisconnected,
        startup != dropped && cleanup != dropped,
        peer == dropped <==> reason is PeerDisconnected,
{
}

/// What a reader is shown is what the shared cell shows, and whether an actor is terminated is
/// whether that cell is initialized.
pub proof fn law_reader_is_shown_the_cell(
    lifecycle: ActorLifecycle,
    seen: Option<ActorTerminalOutcome>,
    terminated: bool,
)
    requires
        call_ensures(ActorLifecycle::terminal_outcome, (&lifecycle,), seen),
        call_ensures(ActorLifecycle::is_terminated, (&lifecycle,), terminated),
    ensures
        match seen {
            Some(outcome) => call_ensures(
                SetOnce::<ActorTerminalOutcome>::get,
                (&lifecycle.cell(),),
                Some(&outcome),
            ),
            None => call_ensures(
                SetOnce::<ActorTerminalOutcome>::get,
                (&lifecycle.cell(),),
                None,
            ),
        },
        call_ensures(
            SetOnce::<ActorTerminalOutcome>::initialized,
            (&lifecycle.cell(),),
            terminated,
        ),
{
}

/// An outcome is published exactly if the shared cell takes it. One that is not published comes back
/// as it was.
pub proof fn law_outcome_is_set_in_the_cell(
    lifecycle: ActorLifecycle,
    outcome: ActorTerminalOutcome,
    res: Result<(), ActorTerminalOutcome>,
)
    requires
        call_ensures(ActorLifecycle::set_terminal_outcome, (&lifecycle, outcome), res),
    ensures
        exists|answer: Result<(), tokio::sync::SetOnceError<ActorTerminalOutcome>>|
            #[trigger] call_ensures(
                SetOnce::<ActorTerminalOutcome>::set,
                (&lifecycle.cell(), outcome),
                answer,
            ) && (res is Ok <==> answer is Ok),
        res is Err ==> res == Err::<(), _>(outcome),
        res is Ok ==> forall|shown: &ActorTerminalOutcome| #[trigger]
            call_ensures(
                SetOnce::<ActorTerminalOutcome>::get,
                (&lifecycle.cell(),),
                Some(shown),
            ) ==> *shown == outcome,
{
    assert forall|shown: &ActorTerminalOutcome| #[trigger]
        call_ensures(
            SetOnce::<ActorTerminalOutcome>::get,
            (&lifecycle.cell(),),
            Some(shown),
        ) && res is Ok implies *shown == outcome by {
        assert(lifecycle.shown(Some(*shown)));
    }
}

/// A lifecycle starts with a new cell, its clones share that cell, and it is the cell that callers
/// wait on.
pub proof fn law_clones_share_one_cell(
    lifecycle: ActorLifecycle,
    clone: ActorLifecycle,
    cell: &SetOnce<ActorTerminalOutcome>,
)
    requires
        call_ensures(ActorLifecycle::new, (), lifecycle),
        call_ensures(ActorLifecycle::clone, (&lifecycle,), clone),
        call_ensures(ActorLifecycle::outcome_cell, (&clone,), cell),
    ensures
        call_ensures(SetOnce::<ActorTerminalOutcome>::new, (), *cell),
        clone.cell() == lifecycle.cell(),
        *cell == lifecycle.cell(),
{
}

/// Once an outcome was offered, the cell is initialized and shows an outcome: the one that was
/// offered, if it was accepted.
pub proof fn law_offered_outcome_ends_the_actor(
    lifecycle: ActorLifecycle,
    outcome: ActorTerminalOutcome,
    res: Result<(), ActorTerminalOutcome>,
)
    requires
        call_ensures(ActorLifecycle::set_terminal_outcome, (&lifecycle, outcome), res),
    ensures
        call_ensures(SetOnce::<ActorTerminalOutcome>::initialized, (&lifecycle.cell(),), true),
        exists|shown: &ActorTerminalOutcome| #[trigger]
            call_ensures(
                SetOnce::<ActorTerminalOutcome>::get,
                (&lifecycle.cell(),),
                Some(shown),
            ) && (res is Ok ==> *shown == outcome),
{
    if res is Ok {
        assert(lifecycle.shown(Some(outcome)));
    } else {
        let shown = choose|shown: ActorTerminalOutcome| #[trigger] lifecycle.shown(Some(shown));
        assert(call_ensures(
            SetOnce::<ActorTerminalOutcome>::get,
            (&lifecycle.cell(),),
            Some(&shown),
        ));
    }
}

/// An actor that is found terminated has an outcome to show, and one that shows its outcome has an
/// initialized cell.
pub proof fn law_terminated_means_an_outcome(
    lifecycle: ActorLifecycle,
    seen: Option<ActorTerminalOutcome>,
    terminated: bool,
)
    requires
        call_ensures(ActorLifecycle::terminal_outcome, (&lifecycle,), seen),
        call_ensures(ActorLifecycle::is_terminated, (&lifecycle,), terminated),
    ensures
        terminated ==> exists|shown: &ActorTerminalOutcome| #[trigger]
            call_ensures(
                SetOnce::<ActorTerminalOutcome>::get,
                (&lifecycle.cell(),),
                Some(shown),
            ),
        seen is Some ==> call_ensures(
            SetOnce::<ActorTerminalOutcome>::initialized,
            (&lifecycle.cell(),),
            true,
        ),
{
    if terminated {
        let shown = choose|shown: ActorTerminalOutcome| #[trigger] lifecycle.shown(Some(shown));
        assert(call_ensures(
            SetOnce::<ActorTerminalOutcome>::get,
            (&lifecycle.cell(),),
            Some(&shown),
        ));
    }
}

} // verus!
