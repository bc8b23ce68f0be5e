//! The idle fallback: lock on host-reported inactivity.
//!
//! Independently of device events, the caller ticks the engine about
//! once a second with the host's idle report.  The tick first serves a
//! satisfied unlock rule, then considers locking only while some lock
//! rule fires, lets a satisfied `KeepUnlocked` rule veto the lock, and
//! otherwise locks as soon as the host has been idle strictly longer
//! than [`IDLE_GRACE_MS`].  An idle-triggered lock is immediate — the
//! idle threshold itself is the delay — and a failed idle query is
//! reported as "not idle", so it can never cause a lock.

use vstd::prelude::*;
use crate::commands::Command;
use crate::config::Config;
use crate::engine::Engine;

verus! {

/// How long the host must have been idle, in milliseconds, before the
/// fallback locks.
pub const IDLE_GRACE_MS: u64 = 10_000;

/// The decision of one idle tick: the command to execute immediately, if
/// any.  Unlock wins over everything; locking needs a firing lock rule,
/// no firing `KeepUnlocked` rule, an idle spell strictly longer than the
/// grace period, and a session not already believed locked.
pub open spec fn idle_decision(
    c: Config,
    locked: bool,
    is_idle: bool,
    idle_for_ms: u64,
) -> Option<Command> {
    if c.spec_can_unlock() {
        if locked {
            Some(Command::Unlock)
        } else {
            None
        }
    } else if !c.spec_should_lock() {
        None
    } else if c.spec_keep_unlocked() {
        None
    } else if is_idle && idle_for_ms > IDLE_GRACE_MS && !locked {
        Some(Command::Lock)
    } else {
        None
    }
}

impl Engine {
    /// One tick of the idle fallback.  `idle_for_ms` is how long the
    /// host reports the session idle; a failed idle query is passed as
    /// `is_idle == false`.  The returned command, if any, is to be
    /// executed immediately and its outcome reported back through
    /// [`Engine::report_unlock_result`] or [`Engine::report_lock_result`].
    pub fn idle_tick(&self, is_idle: bool, idle_for_ms: u64) -> (directive: Option<Command>)
        ensures
            directive == idle_decision(self.config, self.locked, is_idle, idle_for_ms),
    {
        if self.config.can_unlock() {
            if self.locked {
                Some(Command::Unlock)
            } else {
                None
            }
        } else if !self.config.should_lock() {
            None
        } else if self.config.keep_unlocked() {
            None
        } else if is_idle && idle_for_ms > IDLE_GRACE_MS && !self.locked {
            Some(Command::Lock)
        } else {
            None
        }
    }
}

/// A present and satisfied `KeepUnlocked` rule vetoes the idle fallback:
/// whatever the idle duration, the lock state and the idle report, the
/// tick never decides to lock.
pub proof fn lemma_keep_unlocked_blocks_idle_lock(
    c: Config,
    locked: bool,
    is_idle: bool,
    idle_for_ms: u64,
)
    requires
        c.spec_keep_unlocked(),
    ensures
        idle_decision(c, locked, is_idle, idle_for_ms) != Some(Command::Lock),
{
}

} // verus!
