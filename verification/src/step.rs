//! One tick of the leapfrog scheme: the voltages along the line, the voltages
//! at its two ends, then the currents along the line from the new voltages,
//! and the currents at its two ends.

use vstd::prelude::*;
use crate::binary64::{negated, ZERO};
use crate::coefficients::DerivedCoefficients;
use crate::kernel::{
    difference, is_kernel, minus, over, plus, product, quotient, sum, times, Operation,
};
use crate::model::Termination;

verus! {

/// `gain · (upper - lower) + decay · own`, the update of one sample from the
/// two samples of the other kind around it.
pub open spec fn leapfrog<K: Fn(Operation, u64, u64) -> u64>(
    kernel: &K,
    gain: u64,
    decay: u64,
    upper: u64,
    lower: u64,
    own: u64,
) -> u64 {
    sum(
        kernel,
        product(kernel, gain, difference(kernel, upper, lower)),
        product(kernel, decay, own),
    )
}

/// `sample · Δt / component`, the change that a reactive termination makes in
/// one tick.
pub open spec fn increment<K: Fn(Operation, u64, u64) -> u64>(
    kernel: &K,
    sample: u64,
    timestep: u64,
    component: u64,
) -> u64 {
    quotient(kernel, product(kernel, sample, timestep), component)
}

/// The voltages after the sweep along the line. The voltage at the start is
/// left to the source; every other one is updated from the currents at its
/// own place and at the place before it.
pub open spec fn swept_voltages<K: Fn(Operation, u64, u64) -> u64>(
    kernel: &K,
    coefficients: DerivedCoefficients,
    voltages: Seq<u64>,
    currents: Seq<u64>,
) -> Seq<u64> {
    Seq::new(
        voltages.len(),
        |i: int|
            if i == 0 {
                voltages[0]
            } else {
                leapfrog(
                    kernel,
                    coefficients.voltage_gain,
                    coefficients.voltage_decay,
                    currents[i],
                    currents[i - 1],
                    voltages[i],
                )
            },
    )
}

/// The currents after the sweep along the line, which reads the voltages of
/// this tick. The current at the far end is left to the termination; every
/// other one is updated from the voltages at the place after it and at its
/// own place.
pub open spec fn swept_currents<K: Fn(Operation, u64, u64) -> u64>(
    kernel: &K,
    coefficients: DerivedCoefficients,
    voltages: Seq<u64>,
    currents: Seq<u64>,
) -> Seq<u64> {
    Seq::new(
        currents.len(),
        |i: int|
            if i == currents.len() - 1 {
                currents[i]
            } else {
                leapfrog(
                    kernel,
                    coefficients.current_gain,
                    coefficients.current_decay,
                    voltages[i + 1],
                    voltages[i],
                    currents[i],
                )
            },
    )
}

/// The voltage at the start of the line, from the swept voltages and the
/// currents of the tick before.
/// With nothing or a wire between source and line it is the source's voltage.
/// A resistor takes off the drop of the first current over it. A capacitor
/// takes off what the first current has charged it with in this tick. Behind
/// an inductor the start shows the voltage of its neighbour.
pub open spec fn start_voltage<K: Fn(Operation, u64, u64) -> u64>(
    kernel: &K,
    start: Termination,
    timestep: u64,
    drive: u64,
    voltages: Seq<u64>,
    currents: Seq<u64>,
) -> u64 {
    match start {
        Termination::Open => drive,
        Termination::Short => drive,
        Termination::Resistor { resistance } => difference(
            kernel,
            drive,
            product(kernel, currents[0], resistance),
        ),
        Termination::Capacitor { capacitance } => difference(
            kernel,
            sum(kernel, drive, difference(kernel, voltages[0], drive)),
            increment(kernel, currents[0], timestep, capacitance),
        ),
        Termination::Inductor { inductance } => voltages[1],
    }
}

/// The voltage at the far end of the line. A capacitor there is charged by
/// the current that flows into the last segment; every other termination
/// leaves the swept voltage as it is.
pub open spec fn end_voltage<K: Fn(Operation, u64, u64) -> u64>(
    kernel: &K,
    end: Termination,
    timestep: u64,
    voltages: Seq<u64>,
    currents: Seq<u64>,
) -> u64 {
    let last = voltages.len() - 1;
    match end {
        Termination::Capacitor { capacitance } => sum(
            kernel,
            voltages[last],
            increment(kernel, currents[last - 1], timestep, capacitance),
        ),
        _ => voltages[last],
    }
}

/// The current at the far end of the line, from the voltages of this tick and
/// the swept currents.
/// An open end carries none. A short is one more leapfrog update against a
/// voltage of zero beyond the end. A resistor carries the end voltage over its
/// resistance. A capacitor shows the current of its neighbour. An inductor
/// gains what the end voltage drives through it in this tick.
pub open spec fn end_current<K: Fn(Operation, u64, u64) -> u64>(
    kernel: &K,
    end: Termination,
    coefficients: DerivedCoefficients,
    timestep: u64,
    voltages: Seq<u64>,
    currents: Seq<u64>,
) -> u64 {
    let last = currents.len() - 1;
    match end {
        Termination::Open => ZERO,
        Termination::Short => sum(
            kernel,
            product(kernel, coefficients.current_gain, negated(voltages[last])),
            product(kernel, coefficients.current_decay, currents[last]),
        ),
        Termination::Resistor { resistance } => quotient(kernel, voltages[last], resistance),
        Termination::Capacitor { capacitance } => currents[last - 1],
        Termination::Inductor { inductance } => sum(
            kernel,
            currents[last],
            increment(kernel, voltages[last], timestep, inductance),
        ),
    }
}

/// The current at the start of the line. An inductor between source and line
/// gains what the voltage across it drives through it in this tick; every
/// other termination leaves the swept current as it is.
pub open spec fn start_current<K: Fn(Operation, u64, u64) -> u64>(
    kernel: &K,
    start: Termination,
    timestep: u64,
    drive: u64,
    voltages: Seq<u64>,
    currents: Seq<u64>,
) -> u64 {
    match start {
        Termination::Inductor { inductance } => sum(
            kernel,
            currents[0],
            increment(kernel, difference(kernel, drive, voltages[1]), timestep, inductance),
        ),
        _ => currents[0],
    }
}

/// The voltages of the next tick: the sweep, then the start, then the far end.
pub open spec fn next_voltages<K: Fn(Operation, u64, u64) -> u64>(
    kernel: &K,
    coefficients: DerivedCoefficients,
    start: Termination,
    end: Termination,
    timestep: u64,
    drive: u64,
    voltages: Seq<u64>,
    currents: Seq<u64>,
) -> Seq<u64> {
    let swept = swept_voltages(kernel, coefficients, voltages, currents);
    let driven = swept.update(0, start_voltage(kernel, start, timestep, drive, swept, currents));
    driven.update(driven.len() - 1, end_voltage(kernel, end, timestep, driven, currents))
}

/// The currents of the next tick, from the voltages of the next tick: the
/// sweep, then the far end, then the start.
pub open spec fn next_currents<K: Fn(Operation, u64, u64) -> u64>(
    kernel: &K,
    coefficients: DerivedCoefficients,
    start: Termination,
    end: Termination,
    timestep: u64,
    drive: u64,
    voltages: Seq<u64>,
    currents: Seq<u64>,
) -> Seq<u64> {
    let swept = swept_currents(kernel, coefficients, voltages, currents);
    let ended = swept.update(
        swept.len() - 1,
        end_current(kernel, end, coefficients, timestep, voltages, swept),
    );
    ended.update(0, start_current(kernel, start, timestep, drive, voltages, ended))
}

/// Computes `leapfrog`.
pub fn compute_leapfrog<K: Fn(Operation, u64, u64) -> u64>(
    kernel: &K,
    gain: u64,
    decay: u64,
    upper: u64,
    lower: u64,
    own: u64,
) -> (r: u64)
    requires
        is_kernel(kernel),
    ensures
        r == leapfrog(kernel, gain, decay, upper, lower, own),
{
    let slope: u64 = minus(kernel, upper, lower);
    let pushed: u64 = times(kernel, gain, slope);
    let kept: u64 = times(kernel, decay, own);
    plus(kernel, pushed, kept)
}

/// Computes `increment`.
pub fn compute_increment<K: Fn(Operation, u64, u64) -> u64>(
    kernel: &K,
    sample: u64,
    timestep: u64,
    component: u64,
) -> (r: u64)
    requires
        is_kernel(kernel),
    ensures
        r == increment(kernel, sample, timestep, component),
{
    let moved: u64 = times(kernel, sample, timestep);
    over(kernel, moved, component)
}

/// Sweeps the voltages along the line in place.
pub fn sweep_voltages<K: Fn(Operation, u64, u64) -> u64>(
    kernel: &K,
    coefficients: &DerivedCoefficients,
    voltages: &mut Vec<u64>,
    currents: &Vec<u64>,
)
    requires
        is_kernel(kernel),
        old(voltages).len() == currents.len(),
    ensures
        final(voltages)@ == swept_voltages(kernel, *coefficients, old(voltages)@, currents@),
{
    let n: usize = voltages.len();
    let mut index: usize = 1;
    while index < n
        invariant
            is_kernel(kernel),
            1 <= index,
            voltages.len() == n,
            currents.len() == n,
            old(voltages).len() == n,
            forall|j: int|
                0 <= j < index && j < n ==> voltages@[j] == swept_voltages(
                    kernel,
                    *coefficients,
                    old(voltages)@,
                    currents@,
                )[j],
            forall|j: int| index <= j < n ==> voltages@[j] == old(voltages)@[j],
        decreases n - index,
    {
        let updated: u64 = compute_leapfrog(
            kernel,
            coefficients.voltage_gain,
            coefficients.voltage_decay,
            currents[index],
            currents[index - 1],
            voltages[index],
        );
        voltages[index] = updated;
        index = index + 1;
    }
    assert(voltages@ =~= swept_voltages(kernel, *coefficients, old(voltages)@, currents@));
}

/// Sweeps the currents along the line in place, from voltages that have
/// already taken their step.
pub fn sweep_currents<K: Fn(Operation, u64, u64) -> u64>(
    kernel: &K,
    coefficients: &DerivedCoefficients,
    voltages: &Vec<u64>,
    currents: &mut Vec<u64>,
)
    requires
        is_kernel(kernel),
        voltages.len() == old(currents).len(),
    ensures
        final(currents)@ == swept_currents(kernel, *coefficients, voltages@, old(currents)@),
{
    let n: usize = currents.len();
    if n == 0 {
        assert(currents@ =~= swept_currents(kernel, *coefficients, voltages@, old(currents)@));
        return ;
    }
    let mut index: usize = 0;
    while index < n - 1
        invariant
            is_kernel(kernel),
            n >= 1,
            index <= n - 1,
            voltages.len() == n,
            currents.len() == n,
            old(currents).len() == n,
            forall|j: int|
                0 <= j < index ==> currents@[j] == swept_currents(
                    kernel,
                    *coefficients,
                    voltages@,
                    old(currents)@,
                )[j],
            forall|j: int| index <= j < n ==> currents@[j] == old(currents)@[j],
        decreases n - 1 - index,
    {
        let updated: u64 = compute_leapfrog(
            kernel,
            coefficients.current_gain,
            coefficients.current_decay,
            voltages[index + 1],
            voltages[index],
            currents[index],
        );
        currents[index] = updated;
        index = index + 1;
    }
    assert(currents@ =~= swept_currents(kernel, *coefficients, voltages@, old(currents)@));
}

/// Computes the voltage at the start of the line.
pub fn compute_start_voltage<K: Fn(Operation, u64, u64) -> u64>(
    kernel: &K,
    start: &Termination,
    timestep: u64,
    drive: u64,
    voltages: &Vec<u64>,
    currents: &Vec<u64>,
) -> (r: u64)
    requires
        is_kernel(kernel),
        voltages.len() >= 2,
        currents.len() >= 2,
    ensures
        r == start_voltage(kernel, *start, timestep, drive, voltages@, currents@),
{
    match *start {
        Termination::Open => drive,
        Termination::Short => drive,
        Termination::Resistor { resistance } => {
            let drop: u64 = times(kernel, currents[0], resistance);
            minus(kernel, drive, drop)
        },
        Termination::Capacitor { capacitance } => {
            let across: u64 = minus(kernel, voltages[0], drive);
            let held: u64 = plus(kernel, drive, across);
            let charged: u64 = compute_increment(kernel, currents[0], timestep, capacitance);
            minus(kernel, held, charged)
        },
        Termination::Inductor { inductance } => voltages[1],
    }
}

/// Computes the voltage at the far end of the line.
pub fn compute_end_voltage<K: Fn(Operation, u64, u64) -> u64>(
    kernel: &K,
    end: &Termination,
    timestep: u64,
    voltages: &Vec<u64>,
    currents: &Vec<u64>,
) -> (r: u64)
    requires
        is_kernel(kernel),
        voltages.len() >= 2,
        currents.len() == voltages.len(),
    ensures
        r == end_voltage(kernel, *end, timestep, voltages@, currents@),
{
    let last: usize = voltages.len() - 1;
    match *end {
        Termination::Capacitor { capacitance } => {
            let charged: u64 = compute_increment(kernel, currents[last - 1], timestep, capacitance);
            plus(kernel, voltages[last], charged)
        },
        _ => voltages[last],
    }
}

/// Computes the current at the far end of the line.
pub fn compute_end_current<K: Fn(Operation, u64, u64) -> u64>(
    kernel: &K,
    end: &Termination,
    coefficients: &DerivedCoefficients,
    timestep: u64,
    voltages: &Vec<u64>,
    currents: &Vec<u64>,
) -> (r: u64)
    requires
        is_kernel(kernel),
        voltages.len() >= 2,
        currents.len() == voltages.len(),
    ensures
        r == end_current(kernel, *end, *coefficients, timestep, voltages@, currents@),
{
    let last: usize = currents.len() - 1;
    match *end {
        Termination::Open => ZERO,
        Termination::Short => {
            let beyond: u64 = negated(voltages[last]);
            let pushed: u64 = times(kernel, coefficients.current_gain, beyond);
            let kept: u64 = times(kernel, coefficients.current_decay, currents[last]);
            plus(kernel, pushed, kept)
        },
        Termination::Resistor { resistance } => over(kernel, voltages[last], resistance),
        Termination::Capacitor { capacitance } => currents[last - 1],
        Termination::Inductor { inductance } => {
            let driven: u64 = compute_increment(kernel, voltages[last], timestep, inductance);
            plus(kernel, currents[last], driven)
        },
    }
}

/// Computes the current at the start of the line.
pub fn compute_start_current<K: Fn(Operation, u64, u64) -> u64>(
    kernel: &K,
    start: &Termination,
    timestep: u64,
    drive: u64,
    voltages: &Vec<u64>,
    currents: &Vec<u64>,
) -> (r: u64)
    requires
        is_kernel(kernel),
        voltages.len() >= 2,
        currents.len() >= 2,
    ensures
        r == start_current(kernel, *start, timestep, drive, voltages@, currents@),
{
    match *start {
        Termination::Inductor { inductance } => {
            let across: u64 = minus(kernel, drive, voltages[1]);
            let driven: u64 = compute_increment(kernel, across, timestep, inductance);
            plus(kernel, currents[0], driven)
        },
        _ => currents[0],
    }
}

/// Takes the voltages one tick on, in place.
pub fn advance_voltages<K: Fn(Operation, u64, u64) -> u64>(
    kernel: &K,
    coefficients: &DerivedCoefficients,
    start: &Termination,
    end: &Termination,
    timestep: u64,
    drive: u64,
    voltages: &mut Vec<u64>,
    currents: &Vec<u64>,
)
    requires
        is_kernel(kernel),
        old(voltages).len() >= 2,
        currents.len() == old(voltages).len(),
    ensures
        final(voltages)@ == next_voltages(
            kernel,
            *coefficients,
            *start,
            *end,
            timestep,
            drive,
            old(voltages)@,
            currents@,
        ),
        final(voltages).len() == old(voltages).len(),
{
    sweep_voltages(kernel, coefficients, voltages, currents);
    let first: u64 = compute_start_voltage(kernel, start, timestep, drive, voltages, currents);
    voltages[0] = first;
    let last: u64 = compute_end_voltage(kernel, end, timestep, voltages, currents);
    let end_index: usize = voltages.len() - 1;
    voltages[end_index] = last;
}

/// Takes the currents one tick on, in place, from voltages that have already
/// taken their step.
pub fn advance_currents<K: Fn(Operation, u64, u64) -> u64>(
    kernel: &K,
    coefficients: &DerivedCoefficients,
    start: &Termination,
    end: &Termination,
    timestep: u64,
    drive: u64,
    voltages: &Vec<u64>,
    currents: &mut Vec<u64>,
)
    requires
        is_kernel(kernel),
        voltages.len() >= 2,
        old(currents).len() == voltages.len(),
    ensures
        final(currents)@ == next_currents(
            kernel,
            *coefficients,
            *start,
            *end,
            timestep,
            drive,
            voltages@,
            old(currents)@,
        ),
        final(currents).len() == old(currents).len(),
{
    sweep_currents(kernel, coefficients, voltages, currents);
    let last: u64 = compute_end_current(kernel, end, coefficients, timestep, voltages, currents);
    let end_index: usize = currents.len() - 1;
    currents[end_index] = last;
    let first: u64 = compute_start_current(kernel, start, timestep, drive, voltages, currents);
    currents[0] = first;
}

} // verus!
