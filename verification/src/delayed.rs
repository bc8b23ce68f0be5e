//! A cancellable, single-shot deferred action.
//!
//! [`Delayed`] is the state machine of a debounce timer: it is created
//! counting down towards a deadline and moves exactly once to one of two
//! terminal phases, `Fired` or `Cancelled`.  Cancelling is total and
//! idempotent: it is a no-op on a task that has already fired or was
//! already cancelled.  The caller owns the clock; it reports the current
//! time to [`Delayed::try_fire`] and runs the deferred action only when
//! that returns true, so a cancelled task can never run its action.

use vstd::prelude::*;

verus! {

/// Where a task stands: counting down, or in one of the two terminal
/// phases.
#[derive(Clone, Copy, Debug, PartialEq, Eq, Structural)]
pub enum TaskPhase {
    /// The countdown is still running.
    Pending,
    /// The deadline passed and the action was released exactly once.
    Fired,
    /// The countdown was stopped before the action was released.
    Cancelled,
}

/// A single-shot deferred action with a deadline on the caller's clock.
#[derive(Clone, Copy, Debug, PartialEq, Eq, Structural)]
pub struct Delayed {
    /// The current phase of the countdown.
    pub phase: TaskPhase,
    /// The instant, on the caller's clock, at which the task may fire.
    pub deadline: u64,
}

/// The task as it stands after a cancel request: a pending countdown is
/// stopped for good, a terminal task is left untouched.
pub open spec fn cancelled(d: Delayed) -> Delayed {
    Delayed {
        phase: match d.phase {
            TaskPhase::Pending => TaskPhase::Cancelled,
            TaskPhase::Fired => TaskPhase::Fired,
            TaskPhase::Cancelled => TaskPhase::Cancelled,
        },
        deadline: d.deadline,
    }
}

/// The task as it stands after releasing its action.
pub open spec fn fired(d: Delayed) -> Delayed {
    Delayed { phase: TaskPhase::Fired, deadline: d.deadline }
}

/// Whether a task releases its action when the clock reads `now`: only a
/// pending task whose deadline has passed does.
pub open spec fn fires_at(d: Delayed, now: u64) -> bool {
    d.phase is Pending && now >= d.deadline
}

/// A freshly scheduled countdown.
pub open spec fn fresh_task(now: u64, wait: u64) -> Delayed {
    Delayed { phase: TaskPhase::Pending, deadline: (now + wait) as u64 }
}

impl Delayed {
    /// Start a countdown of `wait` ticks from `now`.
    pub fn new(now: u64, wait: u64) -> (d: Delayed)
        requires
            now + wait <= u64::MAX,
        ensures
            d == fresh_task(now, wait),
    {
        Delayed { phase: TaskPhase::Pending, deadline: now + wait }
    }

    /// Stop the countdown.  Total and idempotent: on a task that already
    /// fired or was already cancelled this changes nothing and reports
    /// nothing, as a debouncer requires.
    pub fn cancel(&mut self)
        ensures
            *final(self) == cancelled(*old(self)),
    {
        if let TaskPhase::Pending = self.phase {
            self.phase = TaskPhase::Cancelled;
        }
    }

    /// Move to `Fired` and release the action exactly when the task is
    /// still pending and its deadline has passed; otherwise change
    /// nothing.
    pub fn try_fire(&mut self, now: u64) -> (fired: bool)
        ensures
            fired == fires_at(*old(self), now),
            final(self).deadline == old(self).deadline,
            final(self).phase == (if fired {
                TaskPhase::Fired
            } else {
                old(self).phase
            }),
    {
        match self.phase {
            TaskPhase::Pending => {
                if now >= self.deadline {
                    self.phase = TaskPhase::Fired;
                    true
                } else {
                    false
                }
            },
            _ => false,
        }
    }

    /// Whether the countdown is still running.
    pub fn is_pending(&self) -> (b: bool)
        ensures
            b == (self.phase is Pending),
    {
        match self.phase {
            TaskPhase::Pending => true,
            _ => false,
        }
    }
}

/// Replace whatever countdown the slot holds with a fresh one: the old
/// task, if any, is cancelled first and handed back, and the slot then
/// holds the one new countdown.
pub fn supersede(slot: &mut Option<Delayed>, now: u64, wait: u64) -> (superseded: Option<
    Delayed,
>)
    requires
        now + wait <= u64::MAX,
    ensures
        *final(slot) == Some(fresh_task(now, wait)),
        superseded == (match *old(slot) {
            Some(d) => Some(cancelled(d)),
            None => None,
        }),
{
    let mut previous = slot.take();
    if let Some(task) = &mut previous {
        task.cancel();
    }
    *slot = Some(Delayed::new(now, wait));
    previous
}

/// Scheduling a new delayed action while one is pending leaves exactly
/// one live countdown: the replacement is pending, the superseded task is
/// cancelled for good, and there is no clock reading at which the
/// superseded task still fires its action.
pub proof fn lemma_supersede_exclusive(previous: Delayed, now: u64, wait: u64)
    requires
        now + wait <= u64::MAX,
    ensures
        fresh_task(now, wait).phase is Pending,
        previous.phase is Pending ==> cancelled(previous).phase is Cancelled,
        forall|t: u64| !fires_at(cancelled(previous), t),
{
}

/// Cancelling a task that has already fired is a no-op: the task is left
/// exactly as it was, and the request itself is total, so it cannot fail.
pub proof fn lemma_cancel_after_fire_noop(d: Delayed)
    requires
        d.phase is Fired,
    ensures
        cancelled(d) == d,
{
}

/// Cancelling twice is the same as cancelling once.
pub proof fn lemma_cancel_idempotent(d: Delayed)
    ensures
        cancelled(cancelled(d)) == cancelled(d),
{
}

} // verus!
