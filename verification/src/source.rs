//! The voltage that the source puts on the start of the line at a tick.

use vstd::prelude::*;
use crate::binary64::{less_than, word_of_count, PI, ZERO};
use crate::kernel::{
    is_kernel, modulo, over, product, quotient, remainder, sine, sine_of, times, Operation,
};
use crate::model::SourceModel;

verus! {

/// The simulated time at a tick: the tick as a number, which is exact,
/// times the time step.
pub open spec fn elapsed<K: Fn(Operation, u64, u64) -> u64>(
    kernel: &K,
    timestep: u64,
    tick: int,
) -> u64 {
    product(kernel, word_of_count(tick as u32), timestep)
}

/// Where in its period a pulse train is at a tick: the remainder of the
/// simulated time by the period.
pub open spec fn pulse_phase<K: Fn(Operation, u64, u64) -> u64>(
    kernel: &K,
    timestep: u64,
    period: u64,
    tick: int,
) -> u64 {
    remainder(kernel, elapsed(kernel, timestep, tick), period)
}

/// The source's voltage at a tick.
/// A constant source gives its amplitude. A pulse train gives its amplitude
/// while its phase is less than the pulse width, and zero otherwise. A sine
/// wave gives `amplitude · sin(time / period · π)`.
pub open spec fn driving_voltage<K: Fn(Operation, u64, u64) -> u64>(
    kernel: &K,
    source: SourceModel,
    timestep: u64,
    tick: int,
) -> u64 {
    match source {
        SourceModel::Constant { amplitude } => amplitude,
        SourceModel::Pulse { amplitude, period, width } => if less_than(
            pulse_phase(kernel, timestep, period, tick),
            width,
        ) {
            amplitude
        } else {
            ZERO
        },
        SourceModel::Sinusoidal { amplitude, period } => product(
            kernel,
            amplitude,
            sine(kernel, product(kernel, quotient(kernel, elapsed(kernel, timestep, tick), period), PI)),
        ),
    }
}

/// Computes the simulated time at a tick.
pub fn compute_elapsed<K: Fn(Operation, u64, u64) -> u64>(kernel: &K, timestep: u64, tick: i32) -> (r:
    u64)
    requires
        is_kernel(kernel),
        tick >= 0,
    ensures
        r == elapsed(kernel, timestep, tick as int),
{
    let ticks: u64 = word_of_count(tick as u32);
    times(kernel, ticks, timestep)
}

/// Computes the source's voltage at a tick.
pub fn compute_driving_voltage<K: Fn(Operation, u64, u64) -> u64>(
    kernel: &K,
    source: &SourceModel,
    timestep: u64,
    tick: i32,
) -> (r: u64)
    requires
        is_kernel(kernel),
        tick >= 0,
    ensures
        r == driving_voltage(kernel, *source, timestep, tick as int),
{
    match *source {
        SourceModel::Constant { amplitude } => amplitude,
        SourceModel::Pulse { amplitude, period, width } => {
            let time: u64 = compute_elapsed(kernel, timestep, tick);
            let phase: u64 = modulo(kernel, time, period);
            if less_than(phase, width) {
                amplitude
            } else {
                ZERO
            }
        },
        SourceModel::Sinusoidal { amplitude, period } => {
            let time: u64 = compute_elapsed(kernel, timestep, tick);
            let angle: u64 = times(kernel, over(kernel, time, period), PI);
            times(kernel, amplitude, sine_of(kernel, angle))
        },
    }
}

} // verus!
