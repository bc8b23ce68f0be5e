use nearby::distance::{distance_rssi, MAX_DISTANCE_MM, NO_SIGNAL_DISTANCE_MM};

#[test]
fn one_metre_at_reference_signal() {
    // At the reference signal of -69 dBm the model reads exactly one metre.
    assert_eq!(distance_rssi(-69), 1000);
}

#[test]
fn ten_metres_one_decade_below_reference() {
    // One full decade of path loss: -89 dBm is ten metres.
    assert_eq!(distance_rssi(-89), 10_000);
}

#[test]
fn fractional_decade_values() {
    // Sixteen twentieths of a decade: floor(1000 * 10^0.8) = 6309.
    assert_eq!(distance_rssi(-85), 6309);
    // Six twentieths: floor(1000 * 10^0.3) = 1995.
    assert_eq!(distance_rssi(-75), 1995);
    // Strong signal, six twentieths above the reference.
    assert_eq!(distance_rssi(-63), 501);
    // A full decade above the reference: a tenth of a metre.
    assert_eq!(distance_rssi(-49), 100);
}

#[test]
fn estimate_saturates_for_hopeless_signals() {
    assert_eq!(distance_rssi(i16::MIN), MAX_DISTANCE_MM);
}

#[test]
fn estimate_floors_for_absurdly_strong_signals() {
    assert_eq!(distance_rssi(100), 0);
}

#[test]
fn estimate_is_non_increasing_in_signal_strength() {
    let mut previous = distance_rssi(i16::MIN);
    let mut rssi: i32 = i16::MIN as i32 + 1;
    while rssi <= 100 {
        let current = distance_rssi(rssi as i16);
        assert!(
            current <= previous,
            "estimate grew from {} to {} at rssi {}",
            previous,
            current,
            rssi
        );
        previous = current;
        rssi += 1;
    }
}

#[test]
fn no_signal_sentinel_is_a_kilometre() {
    assert_eq!(NO_SIGNAL_DISTANCE_MM, 1_000_000);
}
