//! The evolving part of a simulation: the tick and the samples along the line.

use vstd::prelude::*;

verus! {

/// The samples along the line, as binary64 words, and the number of ticks
/// taken since the last reset.
pub struct SimulationState {
    pub current_tick: i32,
    pub voltages: Vec<u64>,
    pub currents: Vec<u64>,
}

/// A state as a mathematical value.
pub struct StateView {
    pub tick: int,
    pub voltages: Seq<u64>,
    pub currents: Seq<u64>,
}

impl View for SimulationState {
    type V = StateView;

    open spec fn view(&self) -> StateView {
        StateView { tick: self.current_tick as int, voltages: self.voltages@, currents: self.currents@ }
    }
}

/// A line of `n` samples at rest: every word is that of `+0.0`.
pub open spec fn at_rest(n: nat) -> Seq<u64> {
    Seq::new(n, |i: int| 0u64)
}

/// The state after a reset of a line of `n` segments.
pub open spec fn rest_state(n: nat) -> StateView {
    StateView { tick: 0, voltages: at_rest(n), currents: at_rest(n) }
}

/// Allocates a line of `n` samples at rest.
pub fn line_at_rest(n: usize) -> (line: Vec<u64>)
    ensures
        line@ == at_rest(n as nat),
{
    let mut line: Vec<u64> = Vec::new();
    let mut i: usize = 0;
    while i < n
        invariant
            i <= n,
            line@.len() == i,
            forall|j: int| 0 <= j < i ==> line@[j] == 0,
        decreases n - i,
    {
        line.push(0);
        i = i + 1;
    }
    assert(line@ =~= at_rest(n as nat));
    line
}

impl SimulationState {
    /// The state of a line of `n` segments at rest, at tick 0.
    pub fn at_rest(n: usize) -> (state: SimulationState)
        ensures
            state@ == rest_state(n as nat),
    {
        SimulationState { current_tick: 0, voltages: line_at_rest(n), currents: line_at_rest(n) }
    }
}

} // verus!
