//! The four coefficients of the discretised telegrapher's equations.

use vstd::prelude::*;
use crate::binary64::{
    lemma_constants_encode_their_numbers, negated, word_of_count, MINUS_TWO, TWO,
};
use crate::kernel::{difference, minus, over, plus, product, quotient, sum, times, Operation};
use crate::model::LineParameters;

verus! {

/// The coefficients of one configuration, as binary64 words. A voltage
/// sample becomes `voltage_gain` times the difference of its two currents plus
/// `voltage_decay` times itself; a current sample likewise, with the two
/// voltages around it.
#[derive(Clone, Copy, PartialEq, Eq, Structural, Debug)]
pub struct DerivedCoefficients {
    pub voltage_gain: u64,
    pub voltage_decay: u64,
    pub current_gain: u64,
    pub current_decay: u64,
}

/// `-2·Δt / (Δt·loss + 2·storage)`: how strongly the neighbouring difference
/// enters a sample. For voltages the loss is the conductance and the storage
/// the capacitance; for currents, the resistance and the inductance.
pub open spec fn gain<K: Fn(Operation, u64, u64) -> u64>(
    kernel: &K,
    timestep: u64,
    loss: u64,
    storage: u64,
) -> u64 {
    quotient(
        kernel,
        product(kernel, negated(word_of_count(2)), timestep),
        sum(kernel, product(kernel, timestep, loss), product(kernel, word_of_count(2), storage)),
    )
}

/// `(2·storage - Δt·loss) / (2·storage + Δt·loss)`: how much of a sample
/// survives one tick.
pub open spec fn decay<K: Fn(Operation, u64, u64) -> u64>(
    kernel: &K,
    timestep: u64,
    loss: u64,
    storage: u64,
) -> u64 {
    quotient(
        kernel,
        difference(kernel, product(kernel, word_of_count(2), storage), product(kernel, timestep, loss)),
        sum(kernel, product(kernel, word_of_count(2), storage), product(kernel, timestep, loss)),
    )
}

/// The coefficients that belong to a line.
pub open spec fn coefficients_of<K: Fn(Operation, u64, u64) -> u64>(
    kernel: &K,
    line: LineParameters,
) -> DerivedCoefficients {
    DerivedCoefficients {
        voltage_gain: gain(kernel, line.timestep, line.conductance, line.capacitance),
        voltage_decay: decay(kernel, line.timestep, line.conductance, line.capacitance),
        current_gain: gain(kernel, line.timestep, line.resistance, line.inductance),
        current_decay: decay(kernel, line.timestep, line.resistance, line.inductance),
    }
}

/// Computes `gain`.
pub fn compute_gain<K: Fn(Operation, u64, u64) -> u64>(
    kernel: &K,
    timestep: u64,
    loss: u64,
    storage: u64,
) -> (r: u64)
    requires
        crate::kernel::is_kernel(kernel),
    ensures
        r == gain(kernel, timestep, loss, storage),
{
    proof {
        lemma_constants_encode_their_numbers();
    }
    let numerator: u64 = times(kernel, MINUS_TWO, timestep);
    let lost: u64 = times(kernel, timestep, loss);
    let stored: u64 = times(kernel, TWO, storage);
    let denominator: u64 = plus(kernel, lost, stored);
    over(kernel, numerator, denominator)
}

/// Computes `decay`.
pub fn compute_decay<K: Fn(Operation, u64, u64) -> u64>(
    kernel: &K,
    timestep: u64,
    loss: u64,
    storage: u64,
) -> (r: u64)
    requires
        crate::kernel::is_kernel(kernel),
    ensures
        r == decay(kernel, timestep, loss, storage),
{
    proof {
        lemma_constants_encode_their_numbers();
    }
    let numerator: u64 = minus(kernel, times(kernel, TWO, storage), times(kernel, timestep, loss));
    let denominator: u64 = plus(kernel, times(kernel, TWO, storage), times(kernel, timestep, loss));
    over(kernel, numerator, denominator)
}

/// Derives the four coefficients of a line.
pub fn derive_coefficients<K: Fn(Operation, u64, u64) -> u64>(
    kernel: &K,
    line: &LineParameters,
) -> (r: DerivedCoefficients)
    requires
        crate::kernel::is_kernel(kernel),
    ensures
        r == coefficients_of(kernel, *line),
{
    DerivedCoefficients {
        voltage_gain: compute_gain(kernel, line.timestep, line.conductance, line.capacitance),
        voltage_decay: compute_decay(kernel, line.timestep, line.conductance, line.capacitance),
        current_gain: compute_gain(kernel, line.timestep, line.resistance, line.inductance),
        current_decay: compute_decay(kernel, line.timestep, line.resistance, line.inductance),
    }
}

} // verus!
