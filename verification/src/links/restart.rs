//! Whether a child is restarted after it stopped.
use std::ops::ControlFlow;
use std::sync::atomic::AtomicBool;
use std::sync::Arc;
use std::time::{Duration, Instant};

use vstd::prelude::*;

use crate::actor::{ActorTerminalOutcome, ActorTerminalReason};
use crate::platform;
use crate::supervision::RestartPolicy;

verus! {

/// Why a supervised actor is not restarted.
#[derive(Clone, Copy, Debug, PartialEq, Eq, Structural)]
pub enum NoRestartReason {
    /// Transient policy but stop was normal
    NormalExitUnderTransientPolicy,
    /// Restart intensity threshold exceeded
    MaxRestartsExceeded {
        /// The restarts within the current window.
        restart_count: u32,
        /// The restarts that are allowed within a window.
        max_restarts: u32,
    },
    /// Never policy: this child is configured to never restart
    NeverPolicy,
}

/// The decimal digit `d`.
pub open spec fn digit(d: nat) -> char
    recommends
        d < 10,
{
    ('0' as nat + d) as char
}

/// The number `n` in decimal, without leading zeros.
pub open spec fn decimal(n: nat) -> Seq<char>
    decreases n,
{
    if n < 10 {
        seq![digit(n)]
    } else {
        decimal(n / 10).push(digit(n % 10))
    }
}

/// Adds the decimal digit `d` to a text.
fn push_digit(text: &mut String, d: u32)
    requires
        d < 10,
    ensures
        final(text)@ == old(text)@.push(digit(d as nat)),
{
    proof {
        reveal_strlit("0");
        reveal_strlit("1");
        reveal_strlit("2");
        reveal_strlit("3");
        reveal_strlit("4");
        reveal_strlit("5");
        reveal_strlit("6");
        reveal_strlit("7");
        reveal_strlit("8");
        reveal_strlit("9");
    }
    let digit_text = match d {
        0 => "0",
        1 => "1",
        2 => "2",
        3 => "3",
        4 => "4",
        5 => "5",
        6 => "6",
        7 => "7",
        8 => "8",
        _ => "9",
    };
    assert(digit_text@ == seq![digit(d as nat)]);
    text.append(digit_text);
}

/// Adds the number `n`, in decimal, to a text.
fn push_decimal(text: &mut String, n: u32)
    ensures
        final(text)@ == old(text)@ + decimal(n as nat),
    decreases n,
{
    if n >= 10 {
        push_decimal(text, n / 10);
    }
    push_digit(text, n % 10);
}

impl NoRestartReason {
    /// The reason in words.
    pub open spec fn words(self) -> Seq<char> {
        match self {
            NoRestartReason::NormalExitUnderTransientPolicy =>
                "normal exit under transient policy"@,
            NoRestartReason::MaxRestartsExceeded { restart_count, max_restarts } => {
                "max restarts exceeded ("@ + decimal(restart_count as nat) + " >= "@ + decimal(
                    max_restarts as nat,
                ) + ")"@
            },
            NoRestartReason::NeverPolicy => "never restart policy"@,
        }
    }

    /// Returns the reason in words.
    pub fn describe(&self) -> (res: String)
        ensures
            res@ == self.words(),
    {
        match self {
            NoRestartReason::NormalExitUnderTransientPolicy => {
                "normal exit under transient policy".to_owned()
            },
            NoRestartReason::MaxRestartsExceeded { restart_count, max_restarts } => {
                let mut text = "max restarts exceeded (".to_owned();
                push_decimal(&mut text, *restart_count);
                text.append(" >= ");
                push_decimal(&mut text, *max_restarts);
                text.append(")");
                text
            },
            NoRestartReason::NeverPolicy => "never restart policy".to_owned(),
        }
    }
}

/// What a supervisor needs to restart and to stop one of its children.
pub struct ErasedChildSpec<F, S, M> {
    /// Spawns the child again.
    pub factory: Arc<F>,
    /// Stops the child.
    pub shutdown: Arc<S>,
    /// Sends signals to the child.
    pub signal_mailbox: M,
    /// Shared with the child's `LinksInner::parent_shutdown`. Set to `true` before the child is
    /// stopped for good, so that the child drops its mailbox receiver instead of handing it to the
    /// parent.
    pub parent_shutdown: Arc<AtomicBool>,
    /// When the child is restarted.
    pub restart_policy: RestartPolicy,
    /// The restarts within the current window.
    pub restart_count: u32,
    /// When the child was last restarted.
    pub last_restart: Instant,
    /// The restarts that are allowed within a window.
    pub max_restarts: u32,
    /// How long after a restart the count starts anew.
    pub restart_window: Duration,
}

impl<F, S, M> ErasedChildSpec<F, S, M> {
    /// The restarts that count against the limit at the time `now`.
    pub open spec fn restarts_at(self, now: Instant) -> u32 {
        if platform::nanos_between(now, self.last_restart) > platform::duration_nanos(
            self.restart_window,
        ) {
            0
        } else {
            self.restart_count
        }
    }

    /// Whether the policy alone settles what happens after the child stopped for `reason`.
    pub open spec fn settled_by_policy(self, reason: ActorTerminalReason) -> Option<
        ControlFlow<NoRestartReason>,
    > {
        if self.restart_policy is Never {
            Some(ControlFlow::Break(NoRestartReason::NeverPolicy))
        } else if reason is SupervisorRestart {
            Some(ControlFlow::Continue(()))
        } else if self.restart_policy is Transient && reason.normal() {
            Some(ControlFlow::Break(NoRestartReason::NormalExitUnderTransientPolicy))
        } else {
            None
        }
    }

    /// What happens after the child stopped for `reason` at the time `now`: what the policy says,
    /// and otherwise a restart as long as the limit is not reached.
    pub open spec fn restart_decision(
        self,
        reason: ActorTerminalReason,
        now: Instant,
    ) -> ControlFlow<NoRestartReason> {
        match self.settled_by_policy(reason) {
            Some(decision) => decision,
            None => if self.restarts_at(now) < self.max_restarts {
                ControlFlow::Continue(())
            } else {
                ControlFlow::Break(
                    NoRestartReason::MaxRestartsExceeded {
                        restart_count: self.restarts_at(now),
                        max_restarts: self.max_restarts,
                    },
                )
            },
        }
    }

    /// The child after that decision: a restart that the policy did not settle is counted.
    pub open spec fn after_decision(self, reason: ActorTerminalReason, now: Instant) -> Self {
        if self.settled_by_policy(reason) is Some {
            self
        } else if self.restarts_at(now) < self.max_restarts {
            ErasedChildSpec {
                restart_count: (self.restarts_at(now) + 1) as u32,
                last_restart: now,
                ..self
            }
        } else {
            ErasedChildSpec { restart_count: self.restarts_at(now), ..self }
        }
    }

    /// Decides whether the child is restarted after it ended with `outcome`.
    pub fn should_restart(&mut self, outcome: &ActorTerminalOutcome) -> (res: ControlFlow<
        NoRestartReason,
    >)
        ensures
            exists|now: Instant|
                #[trigger] call_ensures(Instant::now, (), now) && res == old(self).restart_decision(
                    outcome.reason,
                    now,
                ) && *final(self) == old(self).after_decision(outcome.reason, now),
    {
        let now = Instant::now();
        self.should_restart_at(outcome, now)
    }

    /// Decides whether the child is restarted after it ended with `outcome` at the time `now`.
    pub fn should_restart_at(&mut self, outcome: &ActorTerminalOutcome, now: Instant) -> (res:
        ControlFlow<NoRestartReason>)
        ensures
            res == old(self).restart_decision(outcome.reason, now),
            *final(self) == old(self).after_decision(outcome.reason, now),
    {
        // Never policy takes precedence over everything, including coordinator-initiated restarts
        if matches!(self.restart_policy, RestartPolicy::Never) {
            return ControlFlow::Break(NoRestartReason::NeverPolicy);
        }

        // Always restart if supervisor initiated the shutdown for coordination
        if matches!(outcome.reason, ActorTerminalReason::SupervisorRestart) {
            return ControlFlow::Continue(());
        }

        // Policy check
        if matches!(self.restart_policy, RestartPolicy::Transient) && outcome.reason.is_normal() {
            return ControlFlow::Break(NoRestartReason::NormalExitUnderTransientPolicy);
        }

        // Reset count if outside time window
        if now.duration_since(self.last_restart).as_nanos() > self.restart_window.as_nanos() {
            self.restart_count = 0;
        }

        // Intensity check
        if self.restart_count >= self.max_restarts {
            return ControlFlow::Break(
                NoRestartReason::MaxRestartsExceeded {
                    restart_count: self.restart_count,
                    max_restarts: self.max_restarts,
                },
            );
        }
        self.restart_count = self.restart_count + 1;
        self.last_restart = now;
        ControlFlow::Continue(())
    }
}

impl<F, S, M: Clone> Clone for ErasedChildSpec<F, S, M> {
    fn clone(&self) -> (res: Self)
        ensures
            cloned(self.signal_mailbox, res.signal_mailbox),
            res == (ErasedChildSpec { signal_mailbox: res.signal_mailbox, ..*self }),
    {
        ErasedChildSpec {
            factory: self.factory.clone(),
            shutdown: self.shutdown.clone(),
            signal_mailbox: self.signal_mailbox.clone(),
            parent_shutdown: self.parent_shutdown.clone(),
            restart_policy: self.restart_policy,
            restart_count: self.restart_count,
            last_restart: self.last_restart,
            max_restarts: self.max_restarts,
            restart_window: self.restart_window,
        }
    }
}

/// The child after it stopped for each of the reasons, at each of the times, in `stops`.
pub open spec fn child_after<F, S, M>(
    child: ErasedChildSpec<F, S, M>,
    stops: Seq<(ActorTerminalReason, Instant)>,
) -> ErasedChildSpec<F, S, M>
    decreases stops.len(),
{
    if stops.len() == 0 {
        child
    } else {
        child_after(child, stops.drop_last()).after_decision(stops.last().0, stops.last().1)
    }
}

/// How many of the `stops` the child was restarted after, other than by its policy alone.
pub open spec fn counted_restarts<F, S, M>(
    child: ErasedChildSpec<F, S, M>,
    stops: Seq<(ActorTerminalReason, Instant)>,
) -> nat
    decreases stops.len(),
{
    if stops.len() == 0 {
        0
    } else {
        let before = child_after(child, stops.drop_last());
        let (reason, now) = stops.last();
        let counted = before.settled_by_policy(reason) is None && before.restart_decision(
            reason,
            now,
        ) is Continue;
        counted_restarts(child, stops.drop_last()) + if counted {
            1nat
        } else {
            0
        }
    }
}

/// Whether each of the `stops` came within the restart window after the restart before it.
pub open spec fn within_window<F, S, M>(
    child: ErasedChildSpec<F, S, M>,
    stops: Seq<(ActorTerminalReason, Instant)>,
) -> bool
    decreases stops.len(),
{
    stops.len() == 0 || {
        let before = child_after(child, stops.drop_last());
        &&& within_window(child, stops.drop_last())
        &&& platform::nanos_between(stops.last().1, before.last_restart) <= platform::duration_nanos(
            before.restart_window,
        )
    }
}

/// However often a child stops, and whatever for, it is restarted no more often than its limit
/// allows as long as it keeps stopping within the restart window. Restarts that the supervisor
/// ordered do not count.
pub proof fn law_restarts_are_limited<F, S, M>(
    child: ErasedChildSpec<F, S, M>,
    stops: Seq<(ActorTerminalReason, Instant)>,
)
    requires
        within_window(child, stops),
    ensures
        counted_restarts(child, stops) == 0 || child.restart_count + counted_restarts(child, stops)
            <= child.max_restarts,
        child_after(child, stops).restart_count == child.restart_count + counted_restarts(
            child,
            stops,
        ),
        child_after(child, stops).max_restarts == child.max_restarts,
    decreases stops.len(),
{
    if stops.len() > 0 {
        law_restarts_are_limited(child, stops.drop_last());
    }
}

/// A child whose restart window has passed is restarted again, unless its policy or a limit of
/// zero forbids it.
pub proof fn law_window_starts_anew<F, S, M>(
    child: ErasedChildSpec<F, S, M>,
    reason: ActorTerminalReason,
    now: Instant,
)
    requires
        child.settled_by_policy(reason) is None,
        platform::nanos_between(now, child.last_restart) > platform::duration_nanos(
            child.restart_window,
        ),
        child.max_restarts > 0,
    ensures
        child.restart_decision(reason, now) is Continue,
        child.after_decision(reason, now).restart_count == 1,
        child.after_decision(reason, now).last_restart == now,
{
}

/// A child that is never restarted is not restarted by its supervisor either, and any other child
/// is restarted by its supervisor whatever its limit. Neither is counted.
pub proof fn law_policy_comes_before_the_limit<F, S, M>(
    child: ErasedChildSpec<F, S, M>,
    reason: ActorTerminalReason,
    now: Instant,
)
    ensures
        child.restart_policy is Never ==> {
            &&& child.restart_decision(reason, now) == ControlFlow::<NoRestartReason, ()>::Break(
                NoRestartReason::NeverPolicy,
            )
            &&& child.after_decision(reason, now) == child
        },
        !(child.restart_policy is Never) && reason is SupervisorRestart ==> {
            &&& child.restart_decision(reason, now) is Continue
            &&& child.after_decision(reason, now) == child
        },
        child.restart_policy is Transient && reason is Stopped ==> {
            &&& child.restart_decision(reason, now) == ControlFlow::<NoRestartReason, ()>::Break(
                NoRestartReason::NormalExitUnderTransientPolicy,
            )
            &&& child.after_decision(reason, now) == child
        },
{
}

/// A child is restarted, and the restart counted, whenever it has restarts left and its policy does
/// not forbid it: a permanent child whatever it stopped for, a transient child unless it stopped
/// normally, and no child that is never restarted. A restart that the supervisor ordered is granted
/// to every other child and not counted. Nothing but the count and the time of the last restart
/// changes.
pub proof fn law_decision_by_policy_and_reason<F, S, M>()
    ensures
        forall|
            child: &mut ErasedChildSpec<F, S, M>,
            outcome: ActorTerminalOutcome,
            now: Instant,
            res: ControlFlow<NoRestartReason>,
        | #[trigger]
            call_ensures(
                ErasedChildSpec::<F, S, M>::should_restart_at,
                (child, &outcome, now),
                res,
            ) ==> {
                let count: u32 = if platform::nanos_between(now, child.last_restart)
                    > platform::duration_nanos(child.restart_window) {
                    0
                } else {
                    child.restart_count
                };
                let kept = final(child).restart_count == child.restart_count
                    && final(child).last_restart == child.last_restart;
                &&& final(child).factory == child.factory
                &&& final(child).shutdown == child.shutdown
                &&& final(child).signal_mailbox == child.signal_mailbox
                &&& final(child).parent_shutdown == child.parent_shutdown
                &&& final(child).restart_policy == child.restart_policy
                &&& final(child).max_restarts == child.max_restarts
                &&& final(child).restart_window == child.restart_window
                &&& match (child.restart_policy, outcome.reason) {
                    (RestartPolicy::Never, _) => res == ControlFlow::<NoRestartReason, ()>::Break(
                        NoRestartReason::NeverPolicy,
                    ) && kept,
                    (_, ActorTerminalReason::SupervisorRestart) => res is Continue && kept,
                    (RestartPolicy::Transient, ActorTerminalReason::Stopped) => res
                        == ControlFlow::<NoRestartReason, ()>::Break(
                        NoRestartReason::NormalExitUnderTransientPolicy,
                    ) && kept,
                    _ => if count < child.max_restarts {
                        res is Continue && final(child).restart_count == count + 1
                            && final(child).last_restart == now
                    } else {
                        res == ControlFlow::<NoRestartReason, ()>::Break(
                            NoRestartReason::MaxRestartsExceeded {
                                restart_count: count,
                                max_restarts: child.max_restarts,
                            },
                        ) && final(child).restart_count == count && final(child).last_restart
                            == child.last_restart
                    },
                }
            },
{
}

/// `should_restart` decides in the same way, at the time that it reads from the clock.
pub proof fn law_decision_is_made_now<F, S, M>()
    ensures
        forall|
            child: &mut ErasedChildSpec<F, S, M>,
            outcome: ActorTerminalOutcome,
            res: ControlFlow<NoRestartReason>,
        | #[trigger]
            call_ensures(ErasedChildSpec::<F, S, M>::should_restart, (child, &outcome), res)
                ==> exists|now: Instant|
                #[trigger] call_ensures(Instant::now, (), now) && {
                let count: u32 = if platform::nanos_between(now, child.last_restart)
                    > platform::duration_nanos(child.restart_window) {
                    0
                } else {
                    child.restart_count
                };
                let kept = final(child).restart_count == child.restart_count
                    && final(child).last_restart == child.last_restart;
                &&& final(child).factory == child.factory
                &&& final(child).shutdown == child.shutdown
                &&& final(child).signal_mailbox == child.signal_mailbox
                &&& final(child).parent_shutdown == child.parent_shutdown
                &&& final(child).restart_policy == child.restart_policy
                &&& final(child).max_restarts == child.max_restarts
                &&& final(child).restart_window == child.restart_window
                &&& match (child.restart_policy, outcome.reason) {
                    (RestartPolicy::Never, _) => res == ControlFlow::<NoRestartReason, ()>::Break(
                        NoRestartReason::NeverPolicy,
                    ) && kept,
                    (_, ActorTerminalReason::SupervisorRestart) => res is Continue && kept,
                    (RestartPolicy::Transient, ActorTerminalReason::Stopped) => res
                        == ControlFlow::<NoRestartReason, ()>::Break(
                        NoRestartReason::NormalExitUnderTransientPolicy,
                    ) && kept,
                    _ => if count < child.max_restarts {
                        res is Continue && final(child).restart_count == count + 1
                            && final(child).last_restart == now
                    } else {
                        res == ControlFlow::<NoRestartReason, ()>::Break(
                            NoRestartReason::MaxRestartsExceeded {
                                restart_count: count,
                                max_restarts: child.max_restarts,
                            },
                        ) && final(child).restart_count == count && final(child).last_restart
                            == child.last_restart
                    },
                }
            },
{
}

/// What is decided, by the named policies and reasons. A normal exit under a transient policy is
/// given as the reason only for a transient child that stopped normally.
pub proof fn law_decision_by_named_reasons<F, S, M>(
    child: ErasedChildSpec<F, S, M>,
    reason: ActorTerminalReason,
    now: Instant,
)
    ensures
        (child.restart_policy is Permanent || (child.restart_policy is Transient && !(
        reason is Stopped) && !(reason is SupervisorRestart))) && child.restarts_at(now)
            < child.max_restarts ==> child.restart_decision(reason, now) is Continue,
        (child.restart_policy is Permanent || (child.restart_policy is Transient && !(
        reason is Stopped))) && !(reason is SupervisorRestart) && child.restarts_at(now)
            < child.max_restarts ==> child.after_decision(reason, now).restart_count
            == child.restarts_at(now) + 1 && child.after_decision(reason, now).last_restart == now,
        child.restart_decision(reason, now) == ControlFlow::<NoRestartReason, ()>::Break(
            NoRestartReason::NormalExitUnderTransientPolicy,
        ) <==> child.restart_policy is Transient && reason is Stopped,
        child.restart_decision(reason, now) == ControlFlow::<NoRestartReason, ()>::Break(
            NoRestartReason::NeverPolicy,
        ) <==> child.restart_policy is Never,
        child.restarts_at(now) == if platform::nanos_between(now, child.last_restart)
            > platform::duration_nanos(child.restart_window) {
            0
        } else {
            child.restart_count
        },
{
}

/// The number that a sequence of decimal digits stands for.
pub open spec fn value_of(digits: Seq<char>) -> nat
    decreases digits.len(),
{
    if digits.len() == 0 {
        0
    } else {
        (10 * value_of(digits.drop_last()) + (digits.last() as nat - '0' as nat)) as nat
    }
}

/// A number in decimal stands for itself, is made of digits, and has no leading zero.
pub proof fn law_decimal_stands_for_its_number(n: nat)
    ensures
        value_of(decimal(n)) == n,
        decimal(n).len() > 0,
        forall|i: int|
            0 <= i < decimal(n).len() ==> '0' as nat <= (#[trigger] decimal(n)[i]) as nat
                <= '9' as nat,
        decimal(n)[0] == '0' ==> n == 0 && decimal(n).len() == 1,
    decreases n,
{
    reveal_with_fuel(value_of, 2);
    if n >= 10 {
        law_decimal_stands_for_its_number(n / 10);
        assert(decimal(n).drop_last() == decimal(n / 10));
    } else {
        assert(decimal(n).drop_last() == Seq::<char>::empty());
    }
}

/// The words say which of the three reasons it is, and for a limit both of its numbers.
pub proof fn law_words_tell_the_reason(reason: NoRestartReason, text: String)
    requires
        call_ensures(NoRestartReason::describe, (&reason,), text),
    ensures
        match reason {
            NoRestartReason::NormalExitUnderTransientPolicy => text@
                == "normal exit under transient policy"@,
            NoRestartReason::NeverPolicy => text@ == "never restart policy"@,
            NoRestartReason::MaxRestartsExceeded { restart_count, max_restarts } => exists|
                count: Seq<char>,
                limit: Seq<char>,
            |
                #[trigger] value_of(count) == restart_count && #[trigger] value_of(limit)
                    == max_restarts && text@ == "max restarts exceeded ("@ + count + " >= "@ + limit
                    + ")"@,
        },
{
    if let NoRestartReason::MaxRestartsExceeded { restart_count, max_restarts } = reason {
        law_decimal_stands_for_its_number(restart_count as nat);
        law_decimal_stands_for_its_number(max_restarts as nat);
    }
}

/// A clone of a child has its limits, its count and its shared parts.
pub proof fn law_clone_of_a_child_keeps_its_limits<F, S, M: Clone>(
    child: ErasedChildSpec<F, S, M>,
    clone: ErasedChildSpec<F, S, M>,
)
    requires
        call_ensures(ErasedChildSpec::<F, S, M>::clone, (&child,), clone),
    ensures
        cloned(child.signal_mailbox, clone.signal_mailbox),
        clone.factory == child.factory,
        clone.shutdown == child.shutdown,
        clone.parent_shutdown == child.parent_shutdown,
        clone.restart_policy == child.restart_policy,
        clone.restart_count == child.restart_count,
        clone.last_restart == child.last_restart,
        clone.max_restarts == child.max_restarts,
        clone.restart_window == child.restart_window,
{
}

} // verus!
