//! The device table and its threshold rules.
//!
//! A [`Config`] holds one record per paired device: its hardware address,
//! the last signal sample seen for it, and an ordered list of rules.
//! Each [`Action`] pairs a direction with a distance threshold and a
//! command: a `Nearby` rule fires when the estimated distance is strictly
//! below its threshold, an `Away` rule when it is strictly above.  Ties
//! fire neither direction.  Rules are evaluated in the order declared and
//! all matching rules fire; evaluation is pure and returns intents, it
//! never executes anything.  All distances and thresholds are in
//! millimetres.

use vstd::prelude::*;
use crate::commands::Command;
use crate::distance::{distance_rssi, estimate_mm, NO_SIGNAL_DISTANCE_MM};

verus! {

/// A distance threshold, in millimetres, paired with the command to run
/// when the rule fires.
#[derive(Debug, PartialEq, Eq)]
pub struct ProximityAction {
    pub threshold: u64,
    pub command: Command,
}

/// A threshold rule: the direction in which the threshold is armed,
/// around its [`ProximityAction`].
#[derive(Debug, PartialEq, Eq)]
pub enum Action {
    /// Fires while the device is strictly closer than the threshold.
    Nearby(ProximityAction),
    /// Fires while the device is strictly farther than the threshold.
    Away(ProximityAction),
}

/// One paired wireless device: its address, the signal last seen for it,
/// and its ordered rules.
#[derive(Debug, PartialEq, Eq)]
pub struct BLEConnection {
    pub mac: String,
    pub rssi: Option<i16>,
    pub actions: Option<Vec<Action>>,
}

/// A configured device connection.
#[derive(Debug, PartialEq, Eq)]
pub enum Connection {
    Ble(BLEConnection),
}

/// The table of configured device connections.
#[derive(Debug, PartialEq, Eq)]
pub struct Config {
    pub connection: Option<Vec<Connection>>,
}

/// The rule body of an action, whichever direction it is armed in.
pub open spec fn action_rule(a: Action) -> ProximityAction {
    match a {
        Action::Nearby(p) => p,
        Action::Away(p) => p,
    }
}

/// Whether a rule fires at the given distance: strictly below the
/// threshold for `Nearby`, strictly above for `Away`; a distance exactly
/// at the threshold fires neither.
pub open spec fn action_triggers(a: Action, dist: int) -> bool {
    match a {
        Action::Nearby(p) => dist < p.threshold,
        Action::Away(p) => dist > p.threshold,
    }
}

/// The commands of the rules that fire at the given distance, in rule
/// order, nothing skipped: every matching rule contributes its command.
pub open spec fn triggered_commands(actions: Seq<Action>, dist: int) -> Seq<Command>
    decreases actions.len(),
{
    if actions.len() == 0 {
        Seq::empty()
    } else {
        triggered_commands(actions.drop_last(), dist) + (if action_triggers(
            actions.last(),
            dist,
        ) {
            seq![action_rule(actions.last()).command]
        } else {
            Seq::<Command>::empty()
        })
    }
}

/// The device record of a connection.
pub open spec fn conn_ble(c: Connection) -> BLEConnection {
    match c {
        Connection::Ble(b) => b,
    }
}

/// The connection as it stands after a signal sample for `mac`: a device
/// with that address takes the sample, any other is untouched.
pub open spec fn conn_with_rssi(c: Connection, mac: Seq<char>, rssi: i16) -> Connection {
    match c {
        Connection::Ble(b) => if b.mac@ == mac {
            Connection::Ble(BLEConnection { mac: b.mac, rssi: Some(rssi), actions: b.actions })
        } else {
            c
        },
    }
}

impl Clone for ProximityAction {
    /// Cloning preserves the value exactly.
    fn clone(&self) -> (c: ProximityAction)
        ensures
            c == *self,
    {
        ProximityAction { threshold: self.threshold, command: self.command.clone() }
    }
}

impl Clone for Action {
    /// Cloning preserves the value exactly.
    fn clone(&self) -> (c: Action)
        ensures
            c == *self,
    {
        match self {
            Action::Nearby(p) => Action::Nearby(p.clone()),
            Action::Away(p) => Action::Away(p.clone()),
        }
    }
}

impl BLEConnection {
    /// The estimated distance of this device, in millimetres; a device
    /// without a sample counts as [`NO_SIGNAL_DISTANCE_MM`] away.
    pub open spec fn spec_distance_mm(self) -> int {
        match self.rssi {
            Some(r) => estimate_mm(r),
            None => NO_SIGNAL_DISTANCE_MM as int,
        }
    }

    /// The rule list; a device without one has no rules.
    pub open spec fn spec_actions(self) -> Seq<Action> {
        match self.actions {
            Some(v) => v@,
            None => Seq::empty(),
        }
    }

    /// The intents of this device at its current distance: the commands
    /// of every firing rule, in rule order.
    pub open spec fn spec_intents(self) -> Seq<Command> {
        triggered_commands(self.spec_actions(), self.spec_distance_mm())
    }

    /// Whether rule `i` is a firing `Nearby` rule carrying `Unlock`.
    pub open spec fn nearby_unlock_at(self, i: int) -> bool {
        &&& self.spec_actions()[i] matches Action::Nearby(p)
        &&& self.spec_distance_mm() < p.threshold
        &&& p.command is Unlock
    }

    /// Whether rule `i` is a firing `Nearby` rule carrying `KeepUnlocked`.
    pub open spec fn keep_unlocked_at(self, i: int) -> bool {
        &&& self.spec_actions()[i] matches Action::Nearby(p)
        &&& self.spec_distance_mm() < p.threshold
        &&& p.command is KeepUnlocked
    }

    /// Whether rule `i` is a firing `Away` rule carrying `Lock`.
    pub open spec fn away_lock_at(self, i: int) -> bool {
        &&& self.spec_actions()[i] matches Action::Away(p)
        &&& self.spec_distance_mm() > p.threshold
        &&& p.command is Lock
    }

    /// Some firing `Nearby` rule of this device demands `Unlock`.
    pub open spec fn spec_can_unlock(self) -> bool {
        exists|i: int|
            0 <= i < self.spec_actions().len() && #[trigger] self.nearby_unlock_at(i)
    }

    /// Some firing `Nearby` rule of this device demands `KeepUnlocked`.
    pub open spec fn spec_keep_unlocked(self) -> bool {
        exists|i: int|
            0 <= i < self.spec_actions().len() && #[trigger] self.keep_unlocked_at(i)
    }

    /// Some firing `Away` rule of this device demands `Lock`.
    pub open spec fn spec_should_lock(self) -> bool {
        exists|i: int|
            0 <= i < self.spec_actions().len() && #[trigger] self.away_lock_at(i)
    }

    /// The estimated distance of this device, in millimetres.
    pub fn distance_mm(&self) -> (d: u64)
        ensures
            d as int == self.spec_distance_mm(),
    {
        match &self.rssi {
            Some(r) => distance_rssi(*r),
            None => NO_SIGNAL_DISTANCE_MM,
        }
    }

    /// Evaluate the rule list at the current distance: the commands of
    /// every firing rule, in rule order.  Pure: nothing is executed.
    pub fn evaluate(&self) -> (intents: Vec<Command>)
        ensures
            intents@ == self.spec_intents(),
    {
        let dist = self.distance_mm();
        let mut intents: Vec<Command> = Vec::new();
        if let Some(actions) = &self.actions {
            let n = actions.len();
            let mut i: usize = 0;
            while i < n
                invariant
                    i <= n,
                    n == actions.len(),
                    actions@ == self.spec_actions(),
                    dist as int == self.spec_distance_mm(),
                    intents@ == triggered_commands(
                        self.spec_actions().take(i as int),
                        self.spec_distance_mm(),
                    ),
                decreases n - i,
            {
                proof {
                    assert(self.spec_actions().take(i + 1).drop_last() =~= self.spec_actions()
                        .take(i as int));
                }
                let fired = match &actions[i] {
                    Action::Nearby(p) => {
                        if dist < p.threshold {
                            Some(p.command.clone())
                        } else {
                            None
                        }
                    },
                    Action::Away(p) => {
                        if dist > p.threshold {
                            Some(p.command.clone())
                        } else {
                            None
                        }
                    },
                };
                if let Some(cmd) = fired {
                    intents.push(cmd);
                }
                i = i + 1;
            }
            proof {
                assert(self.spec_actions().take(n as int) =~= self.spec_actions());
            }
        }
        intents
    }

    /// Whether some firing `Nearby` rule demands `Unlock`.
    pub fn can_unlock(&self) -> (r: bool)
        ensures
            r == self.spec_can_unlock(),
    {
        let dist = self.distance_mm();
        if let Some(actions) = &self.actions {
            let n = actions.len();
            let mut i: usize = 0;
            while i < n
                invariant
                    i <= n,
                    n == actions.len(),
                    actions@ == self.spec_actions(),
                    dist as int == self.spec_distance_mm(),
                    forall|j: int| 0 <= j < i ==> !#[trigger] self.nearby_unlock_at(j),
                decreases n - i,
            {
                match &actions[i] {
                    Action::Nearby(p) => {
                        if dist < p.threshold && matches!(p.command, Command::Unlock) {
                            assert(self.nearby_unlock_at(i as int));
                            return true;
                        }
                    },
                    Action::Away(_) => {},
                }
                i = i + 1;
            }
        }
        false
    }

    /// Whether some firing `Nearby` rule demands `KeepUnlocked`.
    pub fn keep_unlocked(&self) -> (r: bool)
        ensures
            r == self.spec_keep_unlocked(),
    {
        let dist = self.distance_mm();
        if let Some(actions) = &self.actions {
            let n = actions.len();
            let mut i: usize = 0;
            while i < n
                invariant
                    i <= n,
                    n == actions.len(),
                    actions@ == self.spec_actions(),
                    dist as int == self.spec_distance_mm(),
                    forall|j: int| 0 <= j < i ==> !#[trigger] self.keep_unlocked_at(j),
                decreases n - i,
            {
                match &actions[i] {
                    Action::Nearby(p) => {
                        if dist < p.threshold && matches!(p.command, Command::KeepUnlocked) {
                            assert(self.keep_unlocked_at(i as int));
                            return true;
                        }
                    },
                    Action::Away(_) => {},
                }
                i = i + 1;
            }
        }
        false
    }

    /// Whether some firing `Away` rule demands `Lock`.
    pub fn should_lock(&self) -> (r: bool)
        ensures
            r == self.spec_should_lock(),
    {
        let dist = self.distance_mm();
        if let Some(actions) = &self.actions {
            let n = actions.len();
            let mut i: usize = 0;
            while i < n
                invariant
                    i <= n,
                    n == actions.len(),
                    actions@ == self.spec_actions(),
                    dist as int == self.spec_distance_mm(),
                    forall|j: int| 0 <= j < i ==> !#[trigger] self.away_lock_at(j),
                decreases n - i,
            {
                match &actions[i] {
                    Action::Away(p) => {
                        if dist > p.threshold && matches!(p.command, Command::Lock) {
                            assert(self.away_lock_at(i as int));
                            return true;
                        }
                    },
                    Action::Nearby(_) => {},
                }
                i = i + 1;
            }
        }
        false
    }
}

impl Connection {
    /// The device record of this connection.
    pub fn get_ble(&self) -> (r: Option<&BLEConnection>)
        ensures
            r matches Some(b) && *b == conn_ble(*self),
    {
        match self {
            Connection::Ble(ble) => Some(ble),
        }
    }
}

impl Config {
    /// The connection list; an absent list is the empty table.
    pub open spec fn spec_connections(self) -> Seq<Connection> {
        match self.connection {
            Some(v) => v@,
            None => Seq::empty(),
        }
    }

    /// Some device's firing `Nearby` rule demands `Unlock`.
    pub open spec fn spec_can_unlock(self) -> bool {
        exists|i: int|
            0 <= i < self.spec_connections().len() && #[trigger] conn_ble(
                self.spec_connections()[i],
            ).spec_can_unlock()
    }

    /// Some device's firing `Nearby` rule demands `KeepUnlocked`.
    pub open spec fn spec_keep_unlocked(self) -> bool {
        exists|i: int|
            0 <= i < self.spec_connections().len() && #[trigger] conn_ble(
                self.spec_connections()[i],
            ).spec_keep_unlocked()
    }

    /// Some device's firing `Away` rule demands `Lock`.
    pub open spec fn spec_should_lock(self) -> bool {
        exists|i: int|
            0 <= i < self.spec_connections().len() && #[trigger] conn_ble(
                self.spec_connections()[i],
            ).spec_should_lock()
    }

    /// The intents of every device whose address is `mac`, in table and
    /// rule order.
    pub open spec fn spec_intents_for(self, mac: Seq<char>) -> Seq<Command> {
        intents_for_conns(self.spec_connections(), mac)
    }

    /// A borrowed view of the connection list, in table order.
    pub fn connections(&self) -> (r: Vec<&Connection>)
        ensures
            r@.len() == self.spec_connections().len(),
            forall|i: int| 0 <= i < r@.len() ==> *r@[i] == self.spec_connections()[i],
    {
        let mut r: Vec<&Connection> = Vec::new();
        if let Some(connections) = &self.connection {
            let n = connections.len();
            let mut i: usize = 0;
            while i < n
                invariant
                    i <= n,
                    n == connections.len(),
                    connections@ == self.spec_connections(),
                    r@.len() == i,
                    forall|j: int| 0 <= j < i ==> *r@[j] == self.spec_connections()[j],
                decreases n - i,
            {
                r.push(&connections[i]);
                i = i + 1;
            }
        }
        r
    }

    /// Record a signal sample: every device whose address is `mac` takes
    /// it as its last sample, every other record is untouched.
    pub fn update_rssi(&mut self, mac: &String, rssi: i16)
        ensures
            final(self).connection is Some <==> old(self).connection is Some,
            final(self).spec_connections().len() == old(self).spec_connections().len(),
            forall|i: int|
                0 <= i < old(self).spec_connections().len() ==> final(self).spec_connections()[i]
                    == conn_with_rssi(old(self).spec_connections()[i], mac@, rssi),
    {
        let mut taken = self.connection.take();
        if let Some(connections) = &mut taken {
            let n = connections.len();
            let mut i: usize = 0;
            while i < n
                invariant
                    i <= n,
                    n == connections.len(),
                    connections@.len() == old(self).spec_connections().len(),
                    old(self).connection is Some,
                    forall|j: int|
                        0 <= j < i ==> connections@[j] == conn_with_rssi(
                            old(self).spec_connections()[j],
                            mac@,
                            rssi,
                        ),
                    forall|j: int|
                        i <= j < n ==> connections@[j] == old(self).spec_connections()[j],
                decreases n - i,
            {
                let c = &mut connections[i];
                match c {
                    Connection::Ble(ble) => {
                        if ble.mac == *mac {
                            ble.rssi = Some(rssi);
                        }
                    },
                }
                i = i + 1;
            }
        }
        self.connection = taken;
    }

    /// Whether any device's firing `Nearby` rule demands `Unlock`.
    pub fn can_unlock(&self) -> (r: bool)
        ensures
            r == self.spec_can_unlock(),
    {
        if let Some(connections) = &self.connection {
            let n = connections.len();
            let mut i: usize = 0;
            while i < n
                invariant
                    i <= n,
                    n == connections.len(),
                    connections@ == self.spec_connections(),
                    forall|j: int|
                        0 <= j < i ==> !#[trigger] conn_ble(
                            self.spec_connections()[j],
                        ).spec_can_unlock(),
                decreases n - i,
            {
                match &connections[i] {
                    Connection::Ble(ble) => {
                        if ble.can_unlock() {
                            assert(conn_ble(self.spec_connections()[i as int]).spec_can_unlock());
                            return true;
                        }
                    },
                }
                i = i + 1;
            }
        }
        false
    }

    /// Whether any device's firing `Nearby` rule demands `KeepUnlocked`.
    pub fn keep_unlocked(&self) -> (r: bool)
        ensures
            r == self.spec_keep_unlocked(),
    {
        if let Some(connections) = &self.connection {
            let n = connections.len();
            let mut i: usize = 0;
            while i < n
                invariant
                    i <= n,
                    n == connections.len(),
                    connections@ == self.spec_connections(),
                    forall|j: int|
                        0 <= j < i ==> !#[trigger] conn_ble(
                            self.spec_connections()[j],
                        ).spec_keep_unlocked(),
                decreases n - i,
            {
                match &connections[i] {
                    Connection::Ble(ble) => {
                        if ble.keep_unlocked() {
                            assert(conn_ble(self.spec_connections()[i as int]).spec_keep_unlocked());
                            return true;
                        }
                    },
                }
                i = i + 1;
            }
        }
        false
    }

    /// Whether any device's firing `Away` rule demands `Lock`.
    pub fn should_lock(&self) -> (r: bool)
        ensures
            r == self.spec_should_lock(),
    {
        if let Some(connections) = &self.connection {
            let n = connections.len();
            let mut i: usize = 0;
            while i < n
                invariant
                    i <= n,
                    n == connections.len(),
                    connections@ == self.spec_connections(),
                    forall|j: int|
                        0 <= j < i ==> !#[trigger] conn_ble(
                            self.spec_connections()[j],
                        ).spec_should_lock(),
                decreases n - i,
            {
                match &connections[i] {
                    Connection::Ble(ble) => {
                        if ble.should_lock() {
                            assert(conn_ble(self.spec_connections()[i as int]).spec_should_lock());
                            return true;
                        }
                    },
                }
                i = i + 1;
            }
        }
        false
    }

    /// The intents of every device whose address is `mac`, in table and
    /// rule order.
    pub fn intents_for(&self, mac: &String) -> (intents: Vec<Command>)
        ensures
            intents@ == self.spec_intents_for(mac@),
    {
        let mut intents: Vec<Command> = Vec::new();
        if let Some(connections) = &self.connection {
            let n = connections.len();
            let mut i: usize = 0;
            while i < n
                invariant
                    i <= n,
                    n == connections.len(),
                    connections@ == self.spec_connections(),
                    intents@ == intents_for_conns(
                        self.spec_connections().take(i as int),
                        mac@,
                    ),
                decreases n - i,
            {
                proof {
                    assert(self.spec_connections().take(i + 1).drop_last()
                        =~= self.spec_connections().take(i as int));
                }
                match &connections[i] {
                    Connection::Ble(ble) => {
                        if ble.mac == *mac {
                            let mut device_intents = ble.evaluate();
                            intents.append(&mut device_intents);
                        }
                    },
                }
                i = i + 1;
            }
            proof {
                assert(self.spec_connections().take(n as int) =~= self.spec_connections());
            }
        }
        intents
    }
}

/// The intents of every connection in the list whose address is `mac`,
/// in list order.
pub open spec fn intents_for_conns(conns: Seq<Connection>, mac: Seq<char>) -> Seq<Command>
    decreases conns.len(),
{
    if conns.len() == 0 {
        Seq::empty()
    } else {
        intents_for_conns(conns.drop_last(), mac) + (if conn_ble(conns.last()).mac@ == mac {
            conn_ble(conns.last()).spec_intents()
        } else {
            Seq::<Command>::empty()
        })
    }
}

} // verus!
