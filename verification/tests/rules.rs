use nearby::commands::Command;
use nearby::config::{Action, BLEConnection, Config, Connection, ProximityAction};

fn device(mac: &str, rssi: Option<i16>, actions: Vec<Action>) -> BLEConnection {
    BLEConnection {
        mac: mac.to_string(),
        rssi,
        actions: Some(actions),
    }
}

fn table(devices: Vec<BLEConnection>) -> Config {
    Config {
        connection: Some(devices.into_iter().map(Connection::Ble).collect()),
    }
}

#[test]
fn nearby_unlock_fires_below_threshold() {
    // -75 dBm is 1995 mm, strictly below a 2 metre threshold.
    let ble = device(
        "phone",
        Some(-75),
        vec![Action::Nearby(ProximityAction {
            threshold: 2000,
            command: Command::Unlock,
        })],
    );
    assert!(ble.can_unlock());
    assert!(!ble.should_lock());
    assert!(!ble.keep_unlocked());
}

#[test]
fn away_lock_fires_above_threshold() {
    // -85 dBm is 6309 mm, strictly above a 5 metre threshold.
    let ble = device(
        "phone",
        Some(-85),
        vec![Action::Away(ProximityAction {
            threshold: 5000,
            command: Command::Lock,
        })],
    );
    assert!(ble.should_lock());
    assert!(!ble.can_unlock());
}

#[test]
fn threshold_ties_fire_neither_direction() {
    // -69 dBm is exactly 1000 mm: both comparisons are strict, so a
    // threshold right at the distance fires nothing.
    let ble = device(
        "phone",
        Some(-69),
        vec![
            Action::Nearby(ProximityAction {
                threshold: 1000,
                command: Command::Unlock,
            }),
            Action::Away(ProximityAction {
                threshold: 1000,
                command: Command::Lock,
            }),
        ],
    );
    assert!(!ble.can_unlock());
    assert!(!ble.should_lock());
    assert!(ble.evaluate().is_empty());
}

#[test]
fn missing_sample_counts_as_far_away() {
    let ble = device(
        "phone",
        None,
        vec![
            Action::Nearby(ProximityAction {
                threshold: 2000,
                command: Command::Unlock,
            }),
            Action::Away(ProximityAction {
                threshold: 5000,
                command: Command::Lock,
            }),
        ],
    );
    // The sentinel kilometre is beyond any nearby threshold and above
    // the away threshold.
    assert!(!ble.can_unlock());
    assert!(ble.should_lock());
}

#[test]
fn evaluation_returns_all_firing_rules_in_order() {
    // Both a keep-unlocked and an unlock rule fire for the same device;
    // neither short-circuits the other, and order is the rule order.
    let ble = device(
        "phone",
        Some(-69),
        vec![
            Action::Nearby(ProximityAction {
                threshold: 3000,
                command: Command::KeepUnlocked,
            }),
            Action::Away(ProximityAction {
                threshold: 5000,
                command: Command::Lock,
            }),
            Action::Nearby(ProximityAction {
                threshold: 2000,
                command: Command::Unlock,
            }),
        ],
    );
    let intents = ble.evaluate();
    assert_eq!(intents, vec![Command::KeepUnlocked, Command::Unlock]);
}

#[test]
fn evaluation_is_pure_intent_only() {
    let ble = device(
        "phone",
        Some(-69),
        vec![Action::Nearby(ProximityAction {
            threshold: 2000,
            command: Command::String("echo hello".to_string()),
        })],
    );
    assert_eq!(
        ble.evaluate(),
        vec![Command::String("echo hello".to_string())]
    );
}

#[test]
fn update_rssi_touches_only_matching_addresses() {
    let mut config = table(vec![
        device("phone", None, vec![]),
        device("watch", Some(-50), vec![]),
        device("phone", Some(-40), vec![]),
    ]);
    config.update_rssi(&"phone".to_string(), -70);
    let conns = config.connection.as_ref().unwrap();
    let rssis: Vec<Option<i16>> = conns
        .iter()
        .map(|c| {
            let Connection::Ble(b) = c;
            b.rssi
        })
        .collect();
    assert_eq!(rssis, vec![Some(-70), Some(-50), Some(-70)]);
}

#[test]
fn update_rssi_on_empty_table_is_a_noop() {
    let mut config = Config { connection: None };
    config.update_rssi(&"phone".to_string(), -70);
    assert!(config.connection.is_none());
    assert!(!config.should_lock());
    assert!(!config.can_unlock());
    assert!(!config.keep_unlocked());
}

#[test]
fn table_predicates_aggregate_over_devices() {
    let config = table(vec![
        device(
            "phone",
            Some(-85),
            vec![Action::Away(ProximityAction {
                threshold: 5000,
                command: Command::Lock,
            })],
        ),
        device(
            "watch",
            Some(-69),
            vec![Action::Nearby(ProximityAction {
                threshold: 2000,
                command: Command::KeepUnlocked,
            })],
        ),
    ]);
    assert!(config.should_lock());
    assert!(config.keep_unlocked());
    assert!(!config.can_unlock());
}

#[test]
fn connections_lists_the_table_in_order() {
    let config = table(vec![
        device("phone", None, vec![]),
        device("watch", None, vec![]),
    ]);
    let listed = config.connections();
    assert_eq!(listed.len(), 2);
    let Connection::Ble(first) = listed[0];
    let Connection::Ble(second) = listed[1];
    assert_eq!(first.mac, "phone");
    assert_eq!(second.mac, "watch");
    let empty = Config { connection: None };
    assert!(empty.connections().is_empty());
}

#[test]
fn get_ble_exposes_the_device_record() {
    let conn = Connection::Ble(device("phone", Some(-60), vec![]));
    let ble = conn.get_ble().unwrap();
    assert_eq!(ble.mac, "phone");
    assert_eq!(ble.rssi, Some(-60));
}
