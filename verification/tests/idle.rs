use nearby::commands::Command;
use nearby::config::{Action, BLEConnection, Config, Connection, ProximityAction};
use nearby::engine::Engine;

fn one_device(rssi: Option<i16>, rules: Vec<Action>) -> Config {
    Config {
        connection: Some(vec![Connection::Ble(BLEConnection {
            mac: "phone".to_string(),
            rssi,
            actions: Some(rules),
        })]),
    }
}

fn away_lock_rule() -> Vec<Action> {
    // -85 dBm is 6309 mm, so this rule fires.
    vec![Action::Away(ProximityAction {
        threshold: 5000,
        command: Command::Lock,
    })]
}

#[test]
fn idle_past_grace_locks_immediately() {
    // A lock rule fires, no keep-unlocked veto, shadow state unlocked,
    // idle for 11 s against a 10 s grace: an immediate lock.
    let engine = Engine::new(one_device(Some(-85), away_lock_rule()), false);
    assert_eq!(engine.idle_tick(true, 11_000), Some(Command::Lock));
}

#[test]
fn idle_below_grace_does_nothing() {
    let engine = Engine::new(one_device(Some(-85), away_lock_rule()), false);
    assert_eq!(engine.idle_tick(true, 9_000), None);
}

#[test]
fn idle_exactly_at_grace_does_nothing() {
    // The idle spell must exceed the grace period strictly.
    let engine = Engine::new(one_device(Some(-85), away_lock_rule()), false);
    assert_eq!(engine.idle_tick(true, 10_000), None);
}

#[test]
fn not_idle_never_locks() {
    // A failed idle query is reported as "not idle" and must fail safe
    // toward not locking.
    let engine = Engine::new(one_device(Some(-85), away_lock_rule()), false);
    assert_eq!(engine.idle_tick(false, u64::MAX), None);
}

#[test]
fn no_firing_lock_rule_means_no_idle_lock() {
    // The device is close, so no lock rule fires and the tick does
    // nothing however long the host has been idle.
    let engine = Engine::new(one_device(Some(-69), away_lock_rule()), false);
    assert_eq!(engine.idle_tick(true, u64::MAX), None);
}

#[test]
fn keep_unlocked_vetoes_the_idle_lock() {
    // A satisfied keep-unlocked rule suppresses the idle lock whatever
    // the idle duration.
    let mut rules = away_lock_rule();
    rules.push(Action::Nearby(ProximityAction {
        threshold: 10_000,
        command: Command::KeepUnlocked,
    }));
    let engine = Engine::new(one_device(Some(-85), rules), false);
    assert_eq!(engine.idle_tick(true, u64::MAX), None);
}

#[test]
fn satisfied_unlock_rule_wins_the_tick() {
    let rules = vec![Action::Nearby(ProximityAction {
        threshold: 2000,
        command: Command::Unlock,
    })];
    let mut engine = Engine::new(one_device(Some(-75), rules), true);
    assert_eq!(engine.idle_tick(true, 0), Some(Command::Unlock));
    engine.report_unlock_result(true);
    // Once unlocked the tick stops asking for unlocks.
    assert_eq!(engine.idle_tick(true, 0), None);
}

#[test]
fn already_locked_sessions_are_not_relocked() {
    let engine = Engine::new(one_device(Some(-85), away_lock_rule()), true);
    assert_eq!(engine.idle_tick(true, u64::MAX), None);
}
