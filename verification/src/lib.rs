//! Simulators for energy devices taking part in a device-control protocol:
//! a battery with a catalog of operation modes and a time-integrated fill
//! level, and two photovoltaic installations reporting power from a fixed
//! generation profile, one of them subject to time-bounded power constraints.
//!
//! All physical quantities are held as exact integers: energy in
//! millijoules, power in milliwatts, normalized fractions in thousandths,
//! and instants in milliseconds of the Unix epoch. The surrounding process
//! converts these to and from the wire representation.

use vstd::prelude::*;

pub mod battery_simulator;
mod clock;
pub mod messages;
pub mod profile;
pub mod pv_simulator_pebc;
pub mod pv_simulator_simple;

verus! {

/// One hour, in milliseconds.
pub const HOUR_MS: i64 = 3_600_000;

/// Clamps a mathematical integer into an inclusive range.
pub open spec fn clamp_int(x: int, lo: int, hi: int) -> int {
    if x < lo {
        lo
    } else if x > hi {
        hi
    } else {
        x
    }
}

} // verus!
