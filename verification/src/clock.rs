//! The countdown clock: how much of a command's duration is left after a
//! given time. Durations are counted in ticks of a tenth of a second, time
//! in milliseconds.

use crate::gauge::{GaugeModel, GaugeView};
use vstd::prelude::*;

verus! {

/// The length of one tick in milliseconds.
pub const TICK_MS: u16 = 100;

/// The whole ticks that have passed after `elapsed_ms` milliseconds.
pub open spec fn ticks_passed(elapsed_ms: int) -> int {
    elapsed_ms / 100
}

/// The ticks that a command of `configured` ticks has left after
/// `elapsed_ms` milliseconds: the configured duration less the whole ticks
/// that have passed, and zero once they reach it.
pub open spec fn ticks_left(configured: int, elapsed_ms: int) -> int {
    if ticks_passed(elapsed_ms) < configured {
        configured - ticks_passed(elapsed_ms)
    } else {
        0
    }
}

/// A countdown gauge brought up to date: while it is running (its value is
/// not zero) the value becomes what is left of its maximum after
/// `elapsed_ms`; a countdown at zero stays there.
pub open spec fn refreshed(countdown: GaugeView, elapsed_ms: int) -> GaugeView {
    if countdown.value != 0 {
        countdown.with_value(ticks_left(countdown.maximum, elapsed_ms))
    } else {
        countdown
    }
}

/// Computes the ticks that a command of `configured` ticks has left after
/// `elapsed_ms` milliseconds.
pub fn remaining_ticks(configured: u16, elapsed_ms: u64) -> (left: u16)
    ensures
        left as int == ticks_left(configured as int, elapsed_ms as int),
    no_unwind
{
    let passed: u64 = elapsed_ms / (TICK_MS as u64);
    if passed < configured as u64 {
        configured - passed as u16
    } else {
        0
    }
}

/// Brings a countdown gauge up to date, `elapsed_ms` milliseconds after its
/// command was started.
pub fn refresh_countdown(countdown: &mut GaugeModel, elapsed_ms: u64)
    ensures
        final(countdown)@ == refreshed(old(countdown)@, elapsed_ms as int),
        final(countdown)@.well_formed(),
    no_unwind
{
    if countdown.value() != 0 {
        let left: u16 = remaining_ticks(countdown.maximum(), elapsed_ms);
        countdown.set(left);
    }
}

/// What is left never exceeds the configured duration and never falls below
/// zero. It is the whole duration during the first tick, and it is zero
/// from the moment the configured time has passed, not before.
pub proof fn countdown_ends_on_time(configured: int, elapsed_ms: int)
    requires
        0 < configured,
        0 <= elapsed_ms,
    ensures
        0 <= ticks_left(configured, elapsed_ms) <= configured,
        ticks_left(configured, elapsed_ms) == configured <==> elapsed_ms < 100,
        ticks_left(configured, elapsed_ms) == 0 <==> elapsed_ms >= 100 * configured,
{
}

/// What is left does not grow as time passes.
pub proof fn countdown_only_falls(configured: int, earlier_ms: int, later_ms: int)
    requires
        0 <= earlier_ms <= later_ms,
    ensures
        ticks_left(configured, later_ms) <= ticks_left(configured, earlier_ms),
{
}

/// A running countdown whose lower limit is zero shows exactly what is left
/// of its maximum.
pub proof fn refreshed_value_is_what_is_left(countdown: GaugeView, elapsed_ms: int)
    requires
        countdown.well_formed(),
        countdown.minimum == 0,
        countdown.value != 0,
        0 <= elapsed_ms,
    ensures
        refreshed(countdown, elapsed_ms).value == ticks_left(countdown.maximum, elapsed_ms),
{
}

} // verus!
