//! The proximity decision engine.
//!
//! An [`Engine`] owns the device table, the best-effort shadow of the
//! session's lock state, and the single slot for a pending delayed lock.
//! Every signal sample drives one deterministic step: update the device,
//! evaluate its rules, and process the resulting intents in order.  An
//! `Unlock` intent while the session is believed locked cancels any
//! pending delayed lock and asks for an immediate unlock; a `Lock` intent
//! while it is believed unlocked supersedes the pending slot with a fresh
//! countdown of [`LOCK_DELAY_MS`], so a brief signal drop never locks at
//! once; a `String` intent is always passed through for immediate
//! execution; `KeepUnlocked` does nothing here.  When, after a step, no
//! `Away` lock rule of any device fires any more, a still-pending delayed
//! lock is cancelled: the device came back before the countdown ran out.
//!
//! The engine never executes a command itself.  It returns directives;
//! the caller executes them and reports the outcome back, and only a
//! reported success moves the shadow lock state, so a failed command
//! never leaves the shadow claiming a lock that did not happen.

use vstd::prelude::*;
use crate::commands::Command;
use crate::config::Config;
use crate::delayed::{cancelled, fires_at, fresh_task, supersede, Delayed};

verus! {

/// Grace period of a delayed lock, in milliseconds: how long a device
/// must stay away before the lock fires.
pub const LOCK_DELAY_MS: u64 = 15_000;

/// The pending-lock slot after a cancel request: a pending countdown is
/// cancelled, a terminal or absent one is left as it stands.
pub open spec fn cancel_slot(slot: Option<Delayed>) -> Option<Delayed> {
    match slot {
        Some(d) => Some(cancelled(d)),
        None => None,
    }
}

/// One intent processed against the shadow lock state: the pending-lock
/// slot afterwards, and the directives to execute now.
pub open spec fn intent_step(
    locked: bool,
    slot: Option<Delayed>,
    intent: Command,
    now: u64,
) -> (Option<Delayed>, Seq<Command>) {
    match intent {
        Command::Unlock => if locked {
            (cancel_slot(slot), seq![Command::Unlock])
        } else {
            (slot, Seq::empty())
        },
        Command::Lock => if !locked {
            (Some(fresh_task(now, LOCK_DELAY_MS)), Seq::empty())
        } else {
            (slot, Seq::empty())
        },
        Command::KeepUnlocked => (slot, Seq::empty()),
        Command::String(s) => (slot, seq![Command::String(s)]),
    }
}

/// A whole intent list processed left to right, starting from the given
/// pending-lock slot: the slot afterwards and the directives, in order.
pub open spec fn fold_intents(
    locked: bool,
    slot: Option<Delayed>,
    intents: Seq<Command>,
    now: u64,
) -> (Option<Delayed>, Seq<Command>)
    decreases intents.len(),
{
    if intents.len() == 0 {
        (slot, Seq::empty())
    } else {
        let prior = fold_intents(locked, slot, intents.drop_last(), now);
        let stepped = intent_step(locked, prior.0, intents.last(), now);
        (stepped.0, prior.1 + stepped.1)
    }
}

/// The decision engine: the device table, the shadow lock state, and the
/// one slot for a pending delayed lock.
#[derive(Debug)]
pub struct Engine {
    /// The device table with each device's rules and last sample.
    pub config: Config,
    /// Best-effort belief about the session lock; moved only by reported
    /// command successes, never by a mere attempt.
    pub locked: bool,
    /// The at-most-one pending delayed lock.
    pub pending_lock: Option<Delayed>,
}

impl Engine {
    /// An engine over the given table, believing the given lock state,
    /// with no delayed lock pending.
    pub fn new(config: Config, locked: bool) -> (e: Engine)
        ensures
            e.config == config,
            e.locked == locked,
            e.pending_lock is None,
    {
        Engine { config, locked, pending_lock: None }
    }

    /// Whether a delayed lock is currently counting down.
    pub fn has_pending_lock(&self) -> (b: bool)
        ensures
            b == (self.pending_lock matches Some(d) && d.phase is Pending),
    {
        match &self.pending_lock {
            Some(d) => d.is_pending(),
            None => false,
        }
    }

    /// The deadline of the pending delayed lock, if one is counting down.
    pub fn pending_deadline(&self) -> (t: Option<u64>)
        ensures
            t == (match self.pending_lock {
                Some(d) => if d.phase is Pending {
                    Some(d.deadline)
                } else {
                    None::<u64>
                },
                None => None::<u64>,
            }),
    {
        match &self.pending_lock {
            Some(d) => if d.is_pending() {
                Some(d.deadline)
            } else {
                None
            },
            None => None,
        }
    }

    /// One step of the engine for a signal sample: record the sample,
    /// evaluate the rules of every device at that address, process the
    /// intents in order, and, when no lock rule fires any more, cancel a
    /// still-pending delayed lock.  The returned directives are to be
    /// executed immediately, in order; their outcomes are reported back
    /// through [`Engine::report_unlock_result`] and
    /// [`Engine::report_lock_result`].
    pub fn on_signal(&mut self, mac: &String, rssi: i16, now: u64) -> (directives: Vec<
        Command,
    >)
        requires
            now + LOCK_DELAY_MS <= u64::MAX,
        ensures
            final(self).locked == old(self).locked,
            final(self).config.connection is Some <==> old(self).config.connection is Some,
            final(self).config.spec_connections().len()
                == old(self).config.spec_connections().len(),
            forall|i: int|
                0 <= i < old(self).config.spec_connections().len()
                    ==> final(self).config.spec_connections()[i]
                    == crate::config::conn_with_rssi(
                    old(self).config.spec_connections()[i],
                    mac@,
                    rssi,
                ),
            ({
                let folded = fold_intents(
                    old(self).locked,
                    old(self).pending_lock,
                    final(self).config.spec_intents_for(mac@),
                    now,
                );
                &&& directives@ == folded.1
                &&& final(self).pending_lock == (if final(self).config.spec_should_lock() {
                    folded.0
                } else {
                    cancel_slot(folded.0)
                })
            }),
    {
        self.config.update_rssi(mac, rssi);
        let ghost table = self.config;
        let intents = self.config.intents_for(mac);
        let mut directives: Vec<Command> = Vec::new();
        let n = intents.len();
        let mut i: usize = 0;
        while i < n
            invariant
                i <= n,
                n == intents@.len(),
                now + LOCK_DELAY_MS <= u64::MAX,
                self.config == table,
                self.locked == old(self).locked,
                intents@ == table.spec_intents_for(mac@),
                ({
                    let folded = fold_intents(
                        old(self).locked,
                        old(self).pending_lock,
                        intents@.take(i as int),
                        now,
                    );
                    self.pending_lock == folded.0 && directives@ == folded.1
                }),
            decreases n - i,
        {
            proof {
                assert(intents@.take(i + 1).drop_last() =~= intents@.take(i as int));
            }
            match &intents[i] {
                Command::Unlock => {
                    if self.locked {
                        if let Some(d) = &mut self.pending_lock {
                            d.cancel();
                        }
                        directives.push(Command::Unlock);
                    }
                },
                Command::Lock => {
                    if !self.locked {
                        let _superseded = supersede(&mut self.pending_lock, now, LOCK_DELAY_MS);
                    }
                },
                Command::KeepUnlocked => {},
                Command::String(s) => {
                    directives.push(Command::String(s.clone()));
                },
            }
            i = i + 1;
        }
        proof {
            assert(intents@.take(n as int) =~= intents@);
        }
        if !self.config.should_lock() {
            if let Some(d) = &mut self.pending_lock {
                d.cancel();
            }
        }
        directives
    }

    /// The caller's timer ran out: release the delayed lock exactly when
    /// it is still counting down, its deadline has passed, and the
    /// session is still believed unlocked — the lock state is re-checked
    /// here, at fire time, not at schedule time.  A countdown that runs
    /// out while the session is already locked is consumed without
    /// effect.  Returns whether the caller must execute the lock command
    /// now.
    pub fn on_timer_fire(&mut self, now: u64) -> (fire: bool)
        ensures
            final(self).config == old(self).config,
            final(self).locked == old(self).locked,
            fire == (!old(self).locked && (old(self).pending_lock matches Some(d)
                && fires_at(d, now))),
            final(self).pending_lock == (match old(self).pending_lock {
                Some(d) => Some(
                    if fires_at(d, now) {
                        if old(self).locked {
                            cancelled(d)
                        } else {
                            crate::delayed::fired(d)
                        }
                    } else {
                        d
                    },
                ),
                None => None::<Delayed>,
            }),
    {
        let locked = self.locked;
        match &mut self.pending_lock {
            Some(d) => {
                if locked {
                    if d.is_pending() && now >= d.deadline {
                        d.cancel();
                    }
                    false
                } else {
                    d.try_fire(now)
                }
            },
            None => false,
        }
    }

    /// The caller reports the outcome of an unlock command: only a
    /// success moves the shadow state to unlocked; a failure changes
    /// nothing.
    pub fn report_unlock_result(&mut self, success: bool)
        ensures
            final(self).config == old(self).config,
            final(self).pending_lock == old(self).pending_lock,
            final(self).locked == (if success {
                false
            } else {
                old(self).locked
            }),
    {
        if success {
            self.locked = false;
        }
    }

    /// The caller reports the outcome of a lock command: only a success
    /// moves the shadow state to locked, so a failed lock never leaves
    /// the shadow claiming the session is locked.
    pub fn report_lock_result(&mut self, success: bool)
        ensures
            final(self).config == old(self).config,
            final(self).pending_lock == old(self).pending_lock,
            final(self).locked == (if success {
                true
            } else {
                old(self).locked
            }),
    {
        if success {
            self.locked = true;
        }
    }
}

} // verus!
