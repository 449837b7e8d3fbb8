//! What holds of the engine as a whole, proved from the models that the
//! operations are specified by.

use vstd::prelude::*;
use crate::binary64::{is_zero, less_than, word_of_count, ZERO};
use crate::coefficients::DerivedCoefficients;
use crate::engine::{configured, is_well_formed, stepped, EngineView};
use crate::kernel::{difference, product, sum, Operation};
use crate::model::{BoundaryModel, LineParameters, SourceModel, Termination};
use crate::settings::SimulationSettings;
use crate::source::{driving_voltage, elapsed, pulse_phase};
use crate::state::{at_rest, rest_state, StateView};
use crate::step::{leapfrog, next_currents, next_voltages, swept_currents, swept_voltages};

verus! {

/// The state after a number of ticks under fixed settings.
pub open spec fn after<K: Fn(Operation, u64, u64) -> u64>(
    kernel: &K,
    settings: SimulationSettings,
    state: StateView,
    ticks: nat,
) -> StateView
    decreases ticks,
{
    if ticks == 0 {
        state
    } else {
        stepped(kernel, settings, after(kernel, settings, state, (ticks - 1) as nat))
    }
}

/// Whether every word of a line encodes a zero.
pub open spec fn is_quiet(line: Seq<u64>) -> bool {
    forall|i: int| 0 <= i < line.len() ==> is_zero(#[trigger] line[i])
}

/// Whether the arithmetic of `kernel` makes nothing out of nothing: sums and
/// differences of zeros are zeros, and so is each coefficient times a zero.
pub open spec fn keeps_zeros<K: Fn(Operation, u64, u64) -> u64>(
    kernel: &K,
    coefficients: DerivedCoefficients,
) -> bool {
    &&& forall|a: u64, b: u64| is_zero(a) && is_zero(b) ==> is_zero(#[trigger] sum(kernel, a, b))
    &&& forall|a: u64, b: u64|
        is_zero(a) && is_zero(b) ==> is_zero(#[trigger] difference(kernel, a, b))
    &&& forall|a: u64| is_zero(a) ==> is_zero(#[trigger] product(kernel, coefficients.voltage_gain, a))
    &&& forall|a: u64|
        is_zero(a) ==> is_zero(#[trigger] product(kernel, coefficients.voltage_decay, a))
    &&& forall|a: u64| is_zero(a) ==> is_zero(#[trigger] product(kernel, coefficients.current_gain, a))
    &&& forall|a: u64|
        is_zero(a) ==> is_zero(#[trigger] product(kernel, coefficients.current_decay, a))
}

/// A step keeps the lengths of both lines and moves the tick on by one.
pub proof fn lemma_step_keeps_shape<K: Fn(Operation, u64, u64) -> u64>(
    kernel: &K,
    settings: SimulationSettings,
    state: StateView,
)
    requires
        state.voltages.len() == state.currents.len(),
        state.voltages.len() >= 2,
    ensures
        stepped(kernel, settings, state).voltages.len() == state.voltages.len(),
        stepped(kernel, settings, state).currents.len() == state.currents.len(),
        stepped(kernel, settings, state).tick == state.tick + 1,
{
}

/// After any number of ticks the lines have the lengths they started with,
/// and the tick has moved on by that number.
pub proof fn lemma_run_keeps_shape<K: Fn(Operation, u64, u64) -> u64>(
    kernel: &K,
    settings: SimulationSettings,
    state: StateView,
    ticks: nat,
)
    requires
        state.voltages.len() == state.currents.len(),
        state.voltages.len() >= 2,
    ensures
        after(kernel, settings, state, ticks).voltages.len() == state.voltages.len(),
        after(kernel, settings, state, ticks).currents.len() == state.currents.len(),
        after(kernel, settings, state, ticks).tick == state.tick + ticks,
    decreases ticks,
{
    if ticks > 0 {
        lemma_run_keeps_shape(kernel, settings, state, (ticks - 1) as nat);
        lemma_step_keeps_shape(
            kernel,
            settings,
            after(kernel, settings, state, (ticks - 1) as nat),
        );
    }
}

/// A reset leaves the tick at 0 and both lines as long as the line has
/// segments, every word that of `+0.0`.
pub proof fn law_reset_is_rest(segments: nat)
    ensures
        rest_state(segments).tick == 0,
        rest_state(segments).voltages.len() == segments,
        rest_state(segments).currents.len() == segments,
        forall|i: int| 0 <= i < segments ==> rest_state(segments).voltages[i] == 0,
        forall|i: int| 0 <= i < segments ==> rest_state(segments).currents[i] == 0,
{
}

/// A run is a function of where it starts: the state after each step, taken
/// as the engine takes it, is the one that `after` gives for the first state
/// and the number of steps.
pub proof fn law_run_is_determined<K: Fn(Operation, u64, u64) -> u64>(
    kernel: &K,
    settings: SimulationSettings,
    run: Seq<StateView>,
    index: int,
)
    requires
        0 <= index < run.len(),
        forall|i: int|
            0 <= i < run.len() - 1 ==> #[trigger] run[i + 1] == stepped(kernel, settings, run[i]),
    ensures
        run[index] == after(kernel, settings, run[0], index as nat),
    decreases index,
{
    if index > 0 {
        law_run_is_determined(kernel, settings, run, index - 1);
        assert(run[(index - 1) + 1] == stepped(kernel, settings, run[index - 1]));
    }
}

/// Two runs under the same settings and kernel that start in the same state
/// and take each step as the engine does are in the same state, word for
/// word, after every step.
pub proof fn law_runs_are_reproducible<K: Fn(Operation, u64, u64) -> u64>(
    kernel: &K,
    settings: SimulationSettings,
    first: Seq<StateView>,
    second: Seq<StateView>,
)
    requires
        first.len() == second.len(),
        first.len() > 0,
        first[0] == second[0],
        forall|i: int|
            0 <= i < first.len() - 1 ==> #[trigger] first[i + 1] == stepped(
                kernel,
                settings,
                first[i],
            ),
        forall|i: int|
            0 <= i < second.len() - 1 ==> #[trigger] second[i + 1] == stepped(
                kernel,
                settings,
                second[i],
            ),
    ensures
        first == second,
{
    assert forall|i: int| 0 <= i < first.len() implies first[i] == second[i] by {
        law_run_is_determined(kernel, settings, first, i);
        law_run_is_determined(kernel, settings, second, i);
    }
    assert(first =~= second);
}

/// With nothing or a wire between source and line, the first voltage after a
/// step is the source's voltage at the tick that the step started from.
pub proof fn law_source_drives_start<K: Fn(Operation, u64, u64) -> u64>(
    kernel: &K,
    settings: SimulationSettings,
    state: StateView,
)
    requires
        state.voltages.len() == state.currents.len(),
        state.voltages.len() >= 2,
        settings.boundary.start == Termination::Open || settings.boundary.start
            == Termination::Short,
    ensures
        stepped(kernel, settings, state).voltages[0] == driving_voltage(
            kernel,
            settings.boundary.source,
            settings.line.timestep,
            state.tick,
        ),
{
}

/// With a pulse train joined to the line directly, the first voltage after a
/// step is the amplitude where the simulated time at the tick that the step
/// started from, taken modulo the period, is less than the pulse width, and
/// `+0.0` everywhere else.
pub proof fn law_pulse_gates_start<K: Fn(Operation, u64, u64) -> u64>(
    kernel: &K,
    settings: SimulationSettings,
    state: StateView,
    amplitude: u64,
    period: u64,
    width: u64,
)
    requires
        state.voltages.len() == state.currents.len(),
        state.voltages.len() >= 2,
        settings.boundary.start == Termination::Open || settings.boundary.start
            == Termination::Short,
        settings.boundary.source == (SourceModel::Pulse { amplitude, period, width }),
    ensures
        less_than(pulse_phase(kernel, settings.line.timestep, period, state.tick), width)
            ==> stepped(kernel, settings, state).voltages[0] == amplitude,
        !less_than(pulse_phase(kernel, settings.line.timestep, period, state.tick), width)
            ==> stepped(kernel, settings, state).voltages[0] == ZERO,
{
    law_source_drives_start(kernel, settings, state);
}

/// A configuration that keeps the number of segments keeps the state, tick
/// included; one that changes it resets the state: both lines at rest at
/// their new length, and the tick at 0. So a second configuration with the
/// segments of the first changes nothing that the first left in the state.
pub proof fn law_state_survives_same_size<K: Fn(Operation, u64, u64) -> u64>(
    kernel: &K,
    before: EngineView,
    first_type: i32,
    first_line: LineParameters,
    first_boundary: BoundaryModel,
    second_type: i32,
    second_line: LineParameters,
    second_boundary: BoundaryModel,
)
    ensures
        first_line.segments == before.settings.line.segments ==> configured(
            kernel,
            before,
            first_type,
            first_line,
            first_boundary,
        ).state == before.state,
        first_line.segments != before.settings.line.segments ==> {
            let state = configured(kernel, before, first_type, first_line, first_boundary).state;
            &&& state == rest_state(first_line.segments as nat)
            &&& state.tick == 0
            &&& state.voltages == at_rest(first_line.segments as nat)
            &&& state.currents == at_rest(first_line.segments as nat)
        },
        second_line.segments == first_line.segments ==> configured(
            kernel,
            configured(kernel, before, first_type, first_line, first_boundary),
            second_type,
            second_line,
            second_boundary,
        ).state == configured(kernel, before, first_type, first_line, first_boundary).state,
{
}

/// A configuration that changes the number of segments leaves the state that
/// a reset under the new settings would leave.
pub proof fn law_resize_is_a_reset<K: Fn(Operation, u64, u64) -> u64>(
    kernel: &K,
    before: EngineView,
    simulation_type: i32,
    line: LineParameters,
    boundary: BoundaryModel,
)
    requires
        line.segments != before.settings.line.segments,
    ensures
        configured(kernel, before, simulation_type, line, boundary).state == rest_state(
            configured(kernel, before, simulation_type, line, boundary).settings.line.segments as nat,
        ),
{
}

/// A valid configuration of a well-formed engine is well formed, and its
/// coefficients are those of its line.
pub proof fn law_configuration_is_consistent<K: Fn(Operation, u64, u64) -> u64>(
    kernel: &K,
    before: EngineView,
    simulation_type: i32,
    line: LineParameters,
    boundary: BoundaryModel,
)
    requires
        is_well_formed(before),
        line.is_valid(),
    ensures
        is_well_formed(configured(kernel, before, simulation_type, line, boundary)),
        configured(kernel, before, simulation_type, line, boundary).settings.is_resolved_by(kernel),
{
}

/// After any number of ticks the simulated time is the tick, as a number,
/// times the time step, and the tick is the one the run started from plus the
/// ticks taken.
pub proof fn law_time_follows_tick<K: Fn(Operation, u64, u64) -> u64>(
    kernel: &K,
    settings: SimulationSettings,
    state: StateView,
    ticks: nat,
)
    requires
        state.voltages.len() == state.currents.len(),
        state.voltages.len() >= 2,
    ensures
        after(kernel, settings, state, ticks).tick == state.tick + ticks,
        elapsed(kernel, settings.line.timestep, after(kernel, settings, state, ticks).tick)
            == product(
            kernel,
            word_of_count((state.tick + ticks) as u32),
            settings.line.timestep,
        ),
{
    lemma_run_keeps_shape(kernel, settings, state, ticks);
}

/// A constant source or a pulse train with an amplitude of zero drives the
/// line with zero at every tick.
pub proof fn lemma_silent_source<K: Fn(Operation, u64, u64) -> u64>(
    kernel: &K,
    source: SourceModel,
    timestep: u64,
    tick: int,
)
    requires
        is_zero(source.amplitude()),
        !(source is Sinusoidal),
    ensures
        is_zero(driving_voltage(kernel, source, timestep, tick)),
{
}

/// A line at rest between two open ends stays at rest through a step, as long
/// as the source drives it with zero and the arithmetic makes nothing out of
/// nothing.
pub proof fn law_rest_is_stable<K: Fn(Operation, u64, u64) -> u64>(
    kernel: &K,
    settings: SimulationSettings,
    state: StateView,
)
    requires
        state.voltages.len() == state.currents.len(),
        state.voltages.len() >= 2,
        settings.boundary.start == Termination::Open,
        settings.boundary.end == Termination::Open,
        keeps_zeros(kernel, settings.coefficients),
        is_zero(
            driving_voltage(kernel, settings.boundary.source, settings.line.timestep, state.tick),
        ),
        is_quiet(state.voltages),
        is_quiet(state.currents),
    ensures
        is_quiet(stepped(kernel, settings, state).voltages),
        is_quiet(stepped(kernel, settings, state).currents),
{
    let c = settings.coefficients;
    let drive = driving_voltage(
        kernel,
        settings.boundary.source,
        settings.line.timestep,
        state.tick,
    );
    let n = state.voltages.len() as int;
    let swept = swept_voltages(kernel, c, state.voltages, state.currents);
    assert forall|i: int| 0 <= i < n implies is_zero(#[trigger] swept[i]) by {
        if i > 0 {
            lemma_leapfrog_of_zeros(
                kernel,
                c,
                c.voltage_gain,
                c.voltage_decay,
                state.currents[i],
                state.currents[i - 1],
                state.voltages[i],
            );
        }
    }
    let voltages = next_voltages(
        kernel,
        c,
        settings.boundary.start,
        settings.boundary.end,
        settings.line.timestep,
        drive,
        state.voltages,
        state.currents,
    );
    assert forall|i: int| 0 <= i < n implies is_zero(#[trigger] voltages[i]) by {
        assert(is_zero(swept[i]));
    }
    let flowed = swept_currents(kernel, c, voltages, state.currents);
    assert forall|i: int| 0 <= i < n implies is_zero(#[trigger] flowed[i]) by {
        if i < n - 1 {
            lemma_leapfrog_of_zeros(
                kernel,
                c,
                c.current_gain,
                c.current_decay,
                voltages[i + 1],
                voltages[i],
                state.currents[i],
            );
        }
    }
    let currents = next_currents(
        kernel,
        c,
        settings.boundary.start,
        settings.boundary.end,
        settings.line.timestep,
        drive,
        voltages,
        state.currents,
    );
    assert forall|i: int| 0 <= i < n implies is_zero(#[trigger] currents[i]) by {
        assert(is_zero(flowed[i]));
    }
}

proof fn lemma_leapfrog_of_zeros<K: Fn(Operation, u64, u64) -> u64>(
    kernel: &K,
    coefficients: DerivedCoefficients,
    gain: u64,
    decay: u64,
    upper: u64,
    lower: u64,
    own: u64,
)
    requires
        keeps_zeros(kernel, coefficients),
        (gain == coefficients.voltage_gain && decay == coefficients.voltage_decay) || (gain
            == coefficients.current_gain && decay == coefficients.current_decay),
        is_zero(upper),
        is_zero(lower),
        is_zero(own),
    ensures
        is_zero(leapfrog(kernel, gain, decay, upper, lower, own)),
{
    let slope = difference(kernel, upper, lower);
    assert(is_zero(slope));
    assert(is_zero(product(kernel, gain, slope)));
    assert(is_zero(product(kernel, decay, own)));
}

/// A line at rest between two open ends stays at rest for any number of
/// ticks, whatever the source, as long as the source drives it with zero at
/// each of them and the arithmetic makes nothing out of nothing.
pub proof fn law_rest_is_stable_for_all_ticks<K: Fn(Operation, u64, u64) -> u64>(
    kernel: &K,
    settings: SimulationSettings,
    state: StateView,
    ticks: nat,
)
    requires
        state.voltages.len() == state.currents.len(),
        state.voltages.len() >= 2,
        settings.boundary.start == Termination::Open,
        settings.boundary.end == Termination::Open,
        keeps_zeros(kernel, settings.coefficients),
        forall|tick: int|
            is_zero(
                #[trigger] driving_voltage(
                    kernel,
                    settings.boundary.source,
                    settings.line.timestep,
                    tick,
                ),
            ),
        is_quiet(state.voltages),
        is_quiet(state.currents),
    ensures
        is_quiet(after(kernel, settings, state, ticks).voltages),
        is_quiet(after(kernel, settings, state, ticks).currents),
    decreases ticks,
{
    if ticks > 0 {
        let previous = after(kernel, settings, state, (ticks - 1) as nat);
        law_rest_is_stable_for_all_ticks(kernel, settings, state, (ticks - 1) as nat);
        lemma_run_keeps_shape(kernel, settings, state, (ticks - 1) as nat);
        law_rest_is_stable(kernel, settings, previous);
    }
}

/// A line at rest between two open ends, under a constant source or a pulse
/// train whose amplitude is zero, stays at rest for any number of ticks, as
/// long as the arithmetic makes nothing out of nothing.
pub proof fn law_rest_is_stable_under_a_silent_source<K: Fn(Operation, u64, u64) -> u64>(
    kernel: &K,
    settings: SimulationSettings,
    state: StateView,
    ticks: nat,
)
    requires
        state.voltages.len() == state.currents.len(),
        state.voltages.len() >= 2,
        settings.boundary.start == Termination::Open,
        settings.boundary.end == Termination::Open,
        keeps_zeros(kernel, settings.coefficients),
        is_zero(settings.boundary.source.amplitude()),
        !(settings.boundary.source is Sinusoidal),
        is_quiet(state.voltages),
        is_quiet(state.currents),
    ensures
        is_quiet(after(kernel, settings, state, ticks).voltages),
        is_quiet(after(kernel, settings, state, ticks).currents),
{
    assert forall|tick: int|
        is_zero(
            #[trigger] driving_voltage(
                kernel,
                settings.boundary.source,
                settings.line.timestep,
                tick,
            ),
        ) by {
        lemma_silent_source(kernel, settings.boundary.source, settings.line.timestep, tick);
    }
    law_rest_is_stable_for_all_ticks(kernel, settings, state, ticks);
}

} // verus!
