//! Signal-strength to distance conversion.
//!
//! Distances follow the log-distance path-loss model
//! `d = 10 ^ ((reference_signal - signal) / (10 * path_loss_exponent))`
//! with a reference signal of -69 dBm at one metre and a path-loss
//! exponent of 2.  To keep the whole pipeline over plain integers the
//! estimate is produced in millimetres, as a piecewise evaluation of the
//! model: the exponent `(reference - signal) / 20` is split into a whole
//! decade and a twentieth-of-a-decade remainder, and the fractional part
//! comes from a fixed table of `floor(1000 * 10^(r/20))`.  The estimate
//! saturates at [`MAX_DISTANCE_MM`] for hopelessly weak signals and
//! floors at zero for absurdly strong ones, so it is total and
//! monotonically non-increasing in the signal strength.

use vstd::prelude::*;
use vstd::arithmetic::div_mod::{
    lemma_div_is_ordered, lemma_fundamental_div_mod, lemma_fundamental_div_mod_converse,
    lemma_mod_bound,
};
use vstd::arithmetic::mul::{lemma_mul_inequality, lemma_mul_upper_bound};

verus! {

/// Distance, in millimetres, that stands for "no signal at all": a device
/// without a sample is treated as a kilometre away, never as an error.
pub const NO_SIGNAL_DISTANCE_MM: u64 = 1_000_000;

/// Saturation ceiling of the estimator, in millimetres.
pub const MAX_DISTANCE_MM: u64 = 10_000_000_000_000_000_000;

/// Signal strength expected at a distance of one metre, in dBm.
pub const REFERENCE_SIGNAL_DBM: i16 = -69;

/// Mathematical `10 ^ n`.
pub open spec fn pow10(n: nat) -> nat
    decreases n,
{
    if n == 0 {
        1
    } else {
        10 * pow10((n - 1) as nat)
    }
}

/// `floor(1000 * 10^(r/20))` for `0 <= r < 20`: one twentieth of a decade
/// per step, scaled to millimetres at the bottom of the decade.
pub open spec fn decade_step_mm(r: int) -> int {
    if r <= 0 {
        1000
    } else if r == 1 {
        1122
    } else if r == 2 {
        1258
    } else if r == 3 {
        1412
    } else if r == 4 {
        1584
    } else if r == 5 {
        1778
    } else if r == 6 {
        1995
    } else if r == 7 {
        2238
    } else if r == 8 {
        2511
    } else if r == 9 {
        2818
    } else if r == 10 {
        3162
    } else if r == 11 {
        3548
    } else if r == 12 {
        3981
    } else if r == 13 {
        4466
    } else if r == 14 {
        5011
    } else if r == 15 {
        5623
    } else if r == 16 {
        6309
    } else if r == 17 {
        7079
    } else if r == 18 {
        7943
    } else {
        8912
    }
}

/// The distance, in millimetres, for a path-loss exponent numerator `e`,
/// i.e. `floor(1000 * 10^(e/20))`, saturated to [`MAX_DISTANCE_MM`] above
/// sixteen decades and floored to zero below minus four.
pub open spec fn distance_of_exponent(e: int) -> int {
    let q = e / 20;
    let r = e % 20;
    if q >= 16 {
        MAX_DISTANCE_MM as int
    } else if q >= 0 {
        decade_step_mm(r) * pow10(q as nat)
    } else if q >= -3 {
        decade_step_mm(r) / pow10((-q) as nat) as int
    } else {
        0
    }
}

/// The distance estimate, in millimetres, for a signal strength in dBm.
pub open spec fn estimate_mm(rssi: i16) -> int {
    distance_of_exponent(REFERENCE_SIGNAL_DBM - rssi)
}

proof fn lemma_pow10_pos(n: nat)
    ensures
        pow10(n) >= 1,
    decreases n,
{
    if n > 0 {
        lemma_pow10_pos((n - 1) as nat);
    }
}

proof fn lemma_pow10_monotone(a: nat, b: nat)
    requires
        a <= b,
    ensures
        pow10(a) <= pow10(b),
    decreases b,
{
    if a < b {
        lemma_pow10_monotone(a, (b - 1) as nat);
        lemma_pow10_pos((b - 1) as nat);
    }
}

proof fn lemma_pow10_15()
    ensures
        pow10(15) == 1_000_000_000_000_000,
{
    reveal_with_fuel(pow10, 16);
}

/// The table is bounded by the bottom of the next decade.
proof fn lemma_decade_step_bounds(r: int)
    ensures
        1000 <= decade_step_mm(r) <= 8912,
{
}

fn decade_step(r: u32) -> (v: u64)
    requires
        r < 20,
    ensures
        v as int == decade_step_mm(r as int),
{
    match r {
        0 => 1000,
        1 => 1122,
        2 => 1258,
        3 => 1412,
        4 => 1584,
        5 => 1778,
        6 => 1995,
        7 => 2238,
        8 => 2511,
        9 => 2818,
        10 => 3162,
        11 => 3548,
        12 => 3981,
        13 => 4466,
        14 => 5011,
        15 => 5623,
        16 => 6309,
        17 => 7079,
        18 => 7943,
        _ => 8912,
    }
}

fn pow10_u64(n: u32) -> (p: u64)
    requires
        n <= 19,
    ensures
        p as int == pow10(n as nat),
{
    let mut p: u64 = 1;
    let mut i: u32 = 0;
    while i < n
        invariant
            i <= n <= 19,
            p as int == pow10(i as nat),
        decreases n - i,
    {
        proof {
            lemma_pow10_monotone((i + 1) as nat, 19);
            reveal_with_fuel(pow10, 20);
        }
        p = p * 10;
        i = i + 1;
    }
    p
}

/// The distance estimate for a signal strength sample, in millimetres.
pub fn distance_rssi(rssi: i16) -> (d: u64)
    ensures
        d as int == estimate_mm(rssi),
{
    let e: i32 = (REFERENCE_SIGNAL_DBM as i32) - (rssi as i32);
    // Shift by a multiple of 20 so the division below is on non-negative
    // values, where the machine division agrees with the Euclidean
    // division of the model.
    let shifted: u32 = (e + 32840) as u32;
    let q_shifted: u32 = shifted / 20;
    let r: u32 = shifted % 20;
    proof {
        lemma_fundamental_div_mod(shifted as int, 20);
        lemma_mod_bound(shifted as int, 20);
        lemma_fundamental_div_mod_converse(
            e as int,
            20,
            q_shifted as int - 1642,
            r as int,
        );
    }
    if q_shifted >= 1658 {
        MAX_DISTANCE_MM
    } else if q_shifted >= 1642 {
        let step = decade_step(r);
        let p = pow10_u64(q_shifted - 1642);
        proof {
            lemma_decade_step_bounds(r as int);
            lemma_pow10_monotone((q_shifted - 1642) as nat, 15);
            lemma_pow10_15();
            lemma_mul_upper_bound(step as int, 8912, p as int, 1_000_000_000_000_000);
        }
        step * p
    } else if q_shifted >= 1639 {
        let step = decade_step(r);
        let p = pow10_u64(1642 - q_shifted);
        proof {
            lemma_pow10_pos((1642 - q_shifted) as nat);
        }
        step / p
    } else {
        0
    }
}

/// One step of the exponent never decreases the distance.
proof fn lemma_distance_step_le(e: int)
    ensures
        distance_of_exponent(e) <= distance_of_exponent(e + 1),
{
    let q = e / 20;
    let r = e % 20;
    lemma_fundamental_div_mod(e, 20);
    lemma_mod_bound(e, 20);
    if r < 19 {
        lemma_fundamental_div_mod_converse(e + 1, 20, q, r + 1);
        if q >= 16 {
        } else if q >= 0 {
            lemma_pow10_pos(q as nat);
            lemma_mul_inequality(decade_step_mm(r), decade_step_mm(r + 1), pow10(q as nat) as int);
        } else if q >= -3 {
            lemma_pow10_pos((-q) as nat);
            lemma_div_is_ordered(
                decade_step_mm(r),
                decade_step_mm(r + 1),
                pow10((-q) as nat) as int,
            );
        }
    } else {
        lemma_fundamental_div_mod_converse(e + 1, 20, q + 1, 0);
        assert((e + 1) / 20 == q + 1);
        assert((e + 1) % 20 == 0);
        if q >= 16 {
        } else if q == 15 {
            lemma_pow10_15();
            assert(distance_of_exponent(e) == 8912 * 1_000_000_000_000_000);
            assert(distance_of_exponent(e + 1) == MAX_DISTANCE_MM as int);
        } else if q >= 0 {
            // 8912 * 10^q <= 1000 * 10^(q+1) == 10000 * 10^q
            lemma_pow10_pos(q as nat);
            lemma_mul_inequality(8912, 10000, pow10(q as nat) as int);
            assert(pow10((q + 1) as nat) == 10 * pow10(q as nat));
            assert(decade_step_mm(0) * pow10((q + 1) as nat) == 10000 * pow10(q as nat))
                by (nonlinear_arith)
                requires
                    pow10((q + 1) as nat) == 10 * pow10(q as nat),
            ;
        } else if q == -1 {
            assert(pow10(1) == 10) by {
                reveal_with_fuel(pow10, 2);
            }
            assert(distance_of_exponent(e) == 8912int / 10);
            assert(distance_of_exponent(e + 1) == 1000int * 1);
        } else if q == -2 {
            assert(pow10(1) == 10 && pow10(2) == 100) by {
                reveal_with_fuel(pow10, 3);
            }
            assert(distance_of_exponent(e) == 8912int / 100);
            assert(distance_of_exponent(e + 1) == 1000int / 10);
        } else if q == -3 {
            assert(pow10(2) == 100 && pow10(3) == 1000) by {
                reveal_with_fuel(pow10, 4);
            }
            assert(distance_of_exponent(e) == 8912int / 1000);
            assert(distance_of_exponent(e + 1) == 1000int / 100);
        } else if q == -4 {
            assert(pow10(3) == 1000) by {
                reveal_with_fuel(pow10, 4);
            }
            assert(distance_of_exponent(e) == 0);
            assert(distance_of_exponent(e + 1) == 1000int / 1000);
        }
    }
}

proof fn lemma_distance_monotone_exp(e1: int, e2: int)
    requires
        e1 <= e2,
    ensures
        distance_of_exponent(e1) <= distance_of_exponent(e2),
    decreases e2 - e1,
{
    if e1 < e2 {
        lemma_distance_monotone_exp(e1, e2 - 1);
        lemma_distance_step_le(e2 - 1);
    }
}

/// A stronger signal never yields a larger distance estimate: for any two
/// signal strengths, the estimate at the stronger one is less than or
/// equal to the estimate at the weaker one.
pub proof fn lemma_estimate_non_increasing(weaker: i16, stronger: i16)
    requires
        weaker <= stronger,
    ensures
        estimate_mm(stronger) <= estimate_mm(weaker),
{
    lemma_distance_monotone_exp(
        REFERENCE_SIGNAL_DBM - stronger,
        REFERENCE_SIGNAL_DBM - weaker,
    );
}

/// The estimate always fits the saturation ceiling.
pub proof fn lemma_estimate_bounds(rssi: i16)
    ensures
        0 <= estimate_mm(rssi) <= MAX_DISTANCE_MM,
{
    let e = REFERENCE_SIGNAL_DBM - rssi;
    let q = e / 20;
    let r = e % 20;
    lemma_mod_bound(e, 20);
    if q >= 16 {
    } else if q >= 0 {
        lemma_decade_step_bounds(r);
        lemma_pow10_monotone(q as nat, 15);
        lemma_pow10_15();
        lemma_mul_upper_bound(decade_step_mm(r), 8912, pow10(q as nat) as int, 1_000_000_000_000_000);
        lemma_pow10_pos(q as nat);
        lemma_mul_inequality(0, decade_step_mm(r), pow10(q as nat) as int);
    } else if q >= -3 {
        lemma_pow10_pos((-q) as nat);
        lemma_div_is_ordered(0, decade_step_mm(r), pow10((-q) as nat) as int);
        lemma_div_is_ordered(decade_step_mm(r), 8912, pow10((-q) as nat) as int);
        lemma_pow10_pos((-q) as nat);
    }
}

} // verus!
