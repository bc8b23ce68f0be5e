//! The closed set of actions a rule can demand.

use vstd::prelude::*;

verus! {

/// An action attached to a proximity rule.
///
/// `Unlock` and `Lock` drive the session lock; `KeepUnlocked` is a pure
/// predicate that only suppresses the idle-fallback lock path and never
/// executes anything; `String` carries an arbitrary command line for the
/// caller's executor.
#[derive(Debug, PartialEq, Eq)]
pub enum Command {
    Unlock,
    KeepUnlocked,
    Lock,
    String(String),
}

impl Clone for Command {
    /// Cloning preserves the value exactly.
    fn clone(&self) -> (c: Command)
        ensures
            c == *self,
    {
        match self {
            Command::Unlock => Command::Unlock,
            Command::KeepUnlocked => Command::KeepUnlocked,
            Command::Lock => Command::Lock,
            Command::String(s) => Command::String(s.clone()),
        }
    }
}

} // verus!
